//! Auxiliary channel sources, channel reversing, the channel monitor and
//! the diagnostic pages.
use vstd::prelude::*;
use crate::buzzer::{Buzzer, BuzzerView, beep, clicked};
use crate::storage::ModelConfig;
use crate::ui::menu::{
    list_nav, navigate_4slot_list, no_effects, none, to_main, with_cursor, MenuController, MenuEffects, MenuState,
    NavKeys,
};
use vstd::array::spec_array_update;

verus! {

broadcast use vstd::array::group_array_axioms;

/// Auxiliary channels CH5..CH14.
pub const AUX_COUNT: usize = 10;
/// Output channels.
pub const CH_COUNT: usize = 14;

/// One frame of the auxiliary channel screen: each of CH5..CH14 takes one
/// of 11 sources, cycled with Up and Down while editing.
pub open spec fn aux_step(c0: MenuController, c1: MenuController, k: NavKeys, m0: ModelConfig, m1: ModelConfig, b0: BuzzerView, b1: BuzzerView, e: MenuEffects) -> bool {
    if k.cancel && !c0.editing {
        c1 == to_main(c0, 5, 0) && m1 == m0 && b1 == clicked(b0) && e == MenuEffects { save_model: true, ..no_effects() }
    } else if !c0.editing || k.cancel {
        let ce = MenuController { editing: false, ..c0 };
        let n = list_nav(ce.selected_item, ce.scroll_offset, AUX_COUNT, 4, k.up, k.down, b0);
        let cn = with_cursor(ce, n);
        &&& m1 == m0 && e == no_effects()
        &&& if k.ok { c1 == MenuController { editing: true, ..cn } && b1 == clicked(n.2) } else { c1 == cn && b1 == n.2 }
    } else {
        let i = c0.selected_item as int;
        let cur = m0.aux_channels@[i];
        let edits = i < AUX_COUNT && (k.up || k.down);
        let v: u8 = if k.up { ((cur + 1) % 11) as u8 } else if cur == 0 { 10 } else { (cur - 1) as u8 };
        let bt = if edits { beep(b0, 2200, 20) } else { b0 };
        &&& m1 == if edits { ModelConfig { aux_channels: spec_array_update(m0.aux_channels, i, v), ..m0 } } else { m0 }
        &&& e == no_effects()
        &&& if k.ok { c1 == MenuController { editing: false, ..c0 } && b1 == clicked(bt) } else { c1 == c0 && b1 == bt }
    }
}

/// Sources of CH5..CH14.
pub fn update_aux_channels(
    ctrl: &mut MenuController,
    keys: &NavKeys,
    model: &mut ModelConfig,
    buzzer: &mut Buzzer,
) -> (e: MenuEffects)
    ensures
        aux_step(*old(ctrl), *final(ctrl), *keys, *old(model), *final(model), old(buzzer)@, final(buzzer)@, e),
{
    if keys.cancel {
        if ctrl.editing {
            ctrl.editing = false;
        } else {
            ctrl.state = MenuState::MainMenu;
            ctrl.selected_item = 5;
            ctrl.scroll_offset = 0;
            ctrl.waiting_release = true;
            buzzer.click();
            let mut e = none();
            e.save_model = true;
            return e;
        }
    }
    if !ctrl.editing {
        navigate_4slot_list(&mut ctrl.selected_item, &mut ctrl.scroll_offset, AUX_COUNT, keys.up, keys.down, buzzer);
        if keys.ok {
            ctrl.editing = true;
            buzzer.click();
        }
    } else {
        let i = ctrl.selected_item;
        if i < AUX_COUNT && (keys.up || keys.down) {
            let cur = model.aux_channels[i];
            let v: u8 = if keys.up { ((cur as u16 + 1) % 11) as u8 } else if cur == 0 { 10 } else { cur - 1 };
            let ghost a0 = model.aux_channels;
            model.aux_channels[i] = v;
            assert(model.aux_channels =~= spec_array_update(a0, i as int, v));
            buzzer.play_tone(2200, 20);
        }
        if keys.ok {
            ctrl.editing = false;
            buzzer.click();
        }
    }
    none()
}

/// One frame of the channel reverse screen: OK flips the selected channel.
pub open spec fn reverse_step(c0: MenuController, c1: MenuController, k: NavKeys, m0: ModelConfig, m1: ModelConfig, b0: BuzzerView, b1: BuzzerView, e: MenuEffects) -> bool {
    if k.cancel {
        c1 == to_main(c0, 6, 0) && m1 == m0 && b1 == clicked(b0) && e == MenuEffects { save_model: true, ..no_effects() }
    } else {
        let n = list_nav(c0.selected_item, c0.scroll_offset, CH_COUNT, 4, k.up, k.down, b0);
        &&& c1 == with_cursor(c0, n)
        &&& e == no_effects()
        &&& if k.ok && n.0 < CH_COUNT {
            m1 == ModelConfig { channel_reverse: m0.channel_reverse ^ (1u16 << (n.0 as u16)), ..m0 } && b1 == clicked(n.2)
        } else {
            m1 == m0 && b1 == n.2
        }
    }
}

/// Reverse any of the 14 channels.
pub fn update_channel_reverse(
    ctrl: &mut MenuController,
    keys: &NavKeys,
    model: &mut ModelConfig,
    buzzer: &mut Buzzer,
) -> (e: MenuEffects)
    ensures
        reverse_step(*old(ctrl), *final(ctrl), *keys, *old(model), *final(model), old(buzzer)@, final(buzzer)@, e),
{
    if keys.cancel {
        ctrl.state = MenuState::MainMenu;
        ctrl.selected_item = 6;
        ctrl.scroll_offset = 0;
        ctrl.waiting_release = true;
        buzzer.click();
        let mut e = none();
        e.save_model = true;
        return e;
    }
    navigate_4slot_list(&mut ctrl.selected_item, &mut ctrl.scroll_offset, CH_COUNT, keys.up, keys.down, buzzer);
    if keys.ok && ctrl.selected_item < CH_COUNT {
        let sh = ctrl.selected_item as u16;
        model.channel_reverse = model.channel_reverse ^ (1u16 << sh);
        buzzer.click();
    }
    none()
}

/// One frame of a two-page viewer (channel monitor, analog diagnostics):
/// Cancel goes back to the main menu at `sel`/`scroll`, Up or Down flips
/// the page.
pub open spec fn pager_step(c0: MenuController, c1: MenuController, k: NavKeys, sel: usize, scroll: usize, b0: BuzzerView, b1: BuzzerView) -> bool {
    if k.cancel {
        c1 == to_main(c0, sel, scroll) && b1 == clicked(b0)
    } else if k.up || k.down {
        c1 == MenuController { page_idx: if c0.page_idx == 0 { 1 } else { 0 }, ..c0 } && b1 == beep(b0, 2200, 30)
    } else {
        c1 == c0 && b1 == b0
    }
}

fn page_flip(ctrl: &mut MenuController, keys: &NavKeys, sel: usize, scroll: usize, buzzer: &mut Buzzer)
    ensures
        pager_step(*old(ctrl), *final(ctrl), *keys, sel, scroll, old(buzzer)@, final(buzzer)@),
{
    if keys.cancel {
        ctrl.state = MenuState::MainMenu;
        ctrl.selected_item = sel;
        ctrl.scroll_offset = scroll;
        ctrl.waiting_release = true;
        buzzer.click();
        return;
    }
    if keys.up || keys.down {
        ctrl.page_idx = if ctrl.page_idx == 0 { 1 } else { 0 };
        buzzer.play_tone(2200, 30);
    }
}

/// The live channel monitor, channels 1-7 and 8-14.
pub fn update_channel_monitor(ctrl: &mut MenuController, keys: &NavKeys, buzzer: &mut Buzzer)
    ensures
        pager_step(*old(ctrl), *final(ctrl), *keys, 9, 6, old(buzzer)@, final(buzzer)@),
{
    page_flip(ctrl, keys, 9, 6, buzzer);
}

/// The raw converter readings, channels 1-6 and 7-11.
pub fn update_diag_anas(ctrl: &mut MenuController, keys: &NavKeys, buzzer: &mut Buzzer)
    ensures
        pager_step(*old(ctrl), *final(ctrl), *keys, 11, 8, old(buzzer)@, final(buzzer)@),
{
    page_flip(ctrl, keys, 11, 8, buzzer);
}

/// The system information page: Cancel goes back.
pub fn update_system_info(ctrl: &mut MenuController, keys: &NavKeys, buzzer: &mut Buzzer)
    ensures
        keys.cancel ==> *final(ctrl) == to_main(*old(ctrl), 12, 9) && final(buzzer)@ == clicked(old(buzzer)@),
        !keys.cancel ==> *final(ctrl) == *old(ctrl) && final(buzzer)@ == old(buzzer)@,
{
    if keys.cancel {
        ctrl.state = MenuState::MainMenu;
        ctrl.selected_item = 12;
        ctrl.scroll_offset = 9;
        ctrl.waiting_release = true;
        buzzer.click();
    }
}

} // verus!
