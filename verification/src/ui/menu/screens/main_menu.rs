//! The main settings menu.
use vstd::prelude::*;
use crate::buzzer::{Buzzer, BuzzerView, clicked};
use crate::storage::NUM_MODELS;
use crate::ui::menu::{list_nav, navigate_3slot_list, with_cursor, MenuController, MenuState, NavKeys};

verus! {

/// Entries of the main menu.
pub const ITEM_COUNT: usize = 13;

/// The screen an entry opens, with its starting cursor. Entry 10 asks for
/// the calibration wizard and closes the menu.
pub open spec fn entry_opened(c: MenuController, active_model: u8) -> MenuController {
    let sel = c.selected_item;
    if sel == 0 {
        let s = active_model as usize;
        MenuController {
            state: MenuState::ModelSelect,
            selected_item: s,
            scroll_offset: if s >= 2 { if s - 2 > 16 { 16 } else { (s - 2) as usize } } else { 0 },
            ..c
        }
    } else if sel == 1 {
        MenuController { state: MenuState::ModelSetup, selected_item: 0, sub_idx: 0, ..c }
    } else if sel == 2 {
        MenuController { state: MenuState::DualRateExpo, selected_item: 0, scroll_offset: 0, sub_idx: 0, ..c }
    } else if sel == 3 {
        MenuController { state: MenuState::ThrottleCurve, selected_item: 0, ..c }
    } else if sel == 4 {
        MenuController { state: MenuState::WingMixer, selected_item: 0, scroll_offset: 0, ..c }
    } else if sel == 5 {
        MenuController { state: MenuState::AuxChannels, selected_item: 0, scroll_offset: 0, ..c }
    } else if sel == 6 {
        MenuController { state: MenuState::ChannelReverse, selected_item: 0, scroll_offset: 0, ..c }
    } else if sel == 7 {
        MenuController { state: MenuState::RadioSetup, selected_item: 0, scroll_offset: 0, ..c }
    } else if sel == 8 {
        MenuController { state: MenuState::RxSetup, selected_item: 0, scroll_offset: 0, ..c }
    } else if sel == 9 {
        MenuController { state: MenuState::ChannelMonitor, page_idx: 0, ..c }
    } else if sel == 10 {
        MenuController { request_calibration: true, state: MenuState::Closed, ..c }
    } else if sel == 11 {
        MenuController { state: MenuState::DiagAnas, ..c }
    } else if sel == 12 {
        MenuController { state: MenuState::SystemInfo, ..c }
    } else {
        c
    }
}

/// One frame of the main menu: Cancel closes the menu, Up and Down move
/// through the thirteen entries (three rows visible), OK opens one.
pub open spec fn main_menu_step(c0: MenuController, c1: MenuController, k: NavKeys, active_model: u8, b0: BuzzerView, b1: BuzzerView) -> bool {
    if k.cancel {
        c1 == MenuController { state: MenuState::Closed, ..c0 } && b1 == clicked(b0)
    } else {
        let n = list_nav(c0.selected_item, c0.scroll_offset, ITEM_COUNT, 3, k.up, k.down, b0);
        let cn = with_cursor(c0, n);
        if k.ok {
            c1 == entry_opened(MenuController { waiting_release: true, ..cn }, active_model) && b1 == clicked(n.2)
        } else {
            c1 == cn && b1 == n.2
        }
    }
}

/// The main menu.
pub fn update(ctrl: &mut MenuController, keys: &NavKeys, active_model: u8, buzzer: &mut Buzzer)
    ensures
        main_menu_step(*old(ctrl), *final(ctrl), *keys, active_model, old(buzzer)@, final(buzzer)@),
{
    if keys.cancel {
        ctrl.state = MenuState::Closed;
        buzzer.click();
        return;
    }
    navigate_3slot_list(&mut ctrl.selected_item, &mut ctrl.scroll_offset, ITEM_COUNT, keys.up, keys.down, buzzer);
    if keys.ok {
        buzzer.click();
        ctrl.waiting_release = true;
        let sel = ctrl.selected_item;
        if sel == 0 {
            let s = active_model as usize;
            ctrl.state = MenuState::ModelSelect;
            ctrl.selected_item = s;
            ctrl.scroll_offset = if s >= 2 { if s - 2 > NUM_MODELS - 4 { NUM_MODELS - 4 } else { s - 2 } } else { 0 };
        } else if sel == 1 {
            ctrl.state = MenuState::ModelSetup;
            ctrl.selected_item = 0;
            ctrl.sub_idx = 0;
        } else if sel == 2 {
            ctrl.state = MenuState::DualRateExpo;
            ctrl.selected_item = 0;
            ctrl.scroll_offset = 0;
            ctrl.sub_idx = 0;
        } else if sel == 3 {
            ctrl.state = MenuState::ThrottleCurve;
            ctrl.selected_item = 0;
        } else if sel == 4 {
            ctrl.state = MenuState::WingMixer;
            ctrl.selected_item = 0;
            ctrl.scroll_offset = 0;
        } else if sel == 5 {
            ctrl.state = MenuState::AuxChannels;
            ctrl.selected_item = 0;
            ctrl.scroll_offset = 0;
        } else if sel == 6 {
            ctrl.state = MenuState::ChannelReverse;
            ctrl.selected_item = 0;
            ctrl.scroll_offset = 0;
        } else if sel == 7 {
            ctrl.state = MenuState::RadioSetup;
            ctrl.selected_item = 0;
            ctrl.scroll_offset = 0;
        } else if sel == 8 {
            ctrl.state = MenuState::RxSetup;
            ctrl.selected_item = 0;
            ctrl.scroll_offset = 0;
        } else if sel == 9 {
            ctrl.state = MenuState::ChannelMonitor;
            ctrl.page_idx = 0;
        } else if sel == 10 {
            ctrl.request_calibration = true;
            ctrl.state = MenuState::Closed;
        } else if sel == 11 {
            ctrl.state = MenuState::DiagAnas;
        } else if sel == 12 {
            ctrl.state = MenuState::SystemInfo;
        }
    }
}

} // verus!
