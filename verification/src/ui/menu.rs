//! The settings menu: key edges and auto-repeat, list navigation, and what
//! each screen does with a key press (which setting it edits, which screen
//! it moves to, which sound it plays). Storage writes, driver changes and
//! drawing are done by the caller from the returned effects and the state
//! kept here.
use vstd::prelude::*;
use crate::buzzer::{Buzzer, BuzzerView, beep, buzzer_wf, clicked};
use crate::crsf::{CrsfLink, LinkView};
use crate::storage::{active_index, RadioStorage};
use crate::trim::TrimController;
use crate::ui::menu::screens::{channels, elrs, main_menu, mixer, model, setup};

pub mod rows;
pub mod screens;

verus! {

/// Key bits of the navigation keys.
pub const KEY_DOWN: u16 = 0x0100;
pub const KEY_UP: u16 = 0x0200;
pub const KEY_OK: u16 = 0x0400;
pub const KEY_CANCEL: u16 = 0x0800;
pub const KEY_BIND: u16 = 0x1000;
/// All five navigation keys.
pub const NAV_KEYS_MASK: u16 = 0x1F00;
/// Hold time before Up or Down repeats, and the repeat period.
pub const REPEAT_DELAY_MS: u16 = 300;
pub const REPEAT_PERIOD_MS: u16 = 70;
/// The menu runs once per display frame, counted as 20 ms.
pub const MENU_FRAME_MS: u16 = 20;

#[derive(Copy, Clone, Debug, PartialEq, Eq, Structural)]
pub enum MenuState {
    Closed,
    MainMenu,
    ModelSelect,
    ModelSetup,
    DualRateExpo,
    ThrottleCurve,
    WingMixer,
    MixerLineEdit,
    AuxChannels,
    ChannelReverse,
    RadioSetup,
    RxSetup,
    ElrsSetup,
    ChannelMonitor,
    DiagAnas,
    SystemInfo,
}

/// Navigation key events of one menu frame.
#[derive(Copy, Clone, Debug, PartialEq, Eq, Structural)]
pub struct NavKeys {
    pub ok: bool,
    pub cancel: bool,
    pub up: bool,
    pub down: bool,
    pub bind: bool,
}

pub struct MenuController {
    pub state: MenuState,
    pub selected_item: usize,
    pub scroll_offset: usize,
    pub page_idx: usize,
    pub sub_idx: usize,
    pub editing: bool,
    pub request_calibration: bool,
    pub request_bind: bool,
    pub prev_keys: u16,
    pub waiting_release: bool,
    pub up_hold_ms: u16,
    pub down_hold_ms: u16,
    pub repeat_timer_ms: u16,
}

/// What the caller does after a menu frame.
#[derive(Copy, Clone, Debug, PartialEq, Eq, Structural)]
pub struct MenuEffects {
    /// Write the radio settings to flash.
    pub save_radio: bool,
    /// Write the active model to flash.
    pub save_model: bool,
    /// Write the radio settings and all models to flash.
    pub save_all: bool,
    /// Set the backlight to this percentage.
    pub backlight_pct: Option<u8>,
    /// Set the display contrast.
    pub contrast: Option<u8>,
    /// Bring USB up in this mode.
    pub usb_mode: Option<u8>,
    /// Set the external module power polarity (true: active high).
    pub module_power_active_high: Option<bool>,
    /// Give the radio engine this receiver ID.
    pub rx_id: Option<u32>,
}

pub open spec fn no_effects() -> MenuEffects {
    MenuEffects {
        save_radio: false,
        save_model: false,
        save_all: false,
        backlight_pct: None,
        contrast: None,
        usb_mode: None,
        module_power_active_high: None,
        rx_id: None,
    }
}

pub fn none() -> (e: MenuEffects)
    ensures
        e == no_effects(),
{
    MenuEffects {
        save_radio: false,
        save_model: false,
        save_all: false,
        backlight_pct: None,
        contrast: None,
        usb_mode: None,
        module_power_active_high: None,
        rx_id: None,
    }
}

/// The menu's state after `open`.
pub open spec fn opened(c: MenuController) -> MenuController {
    MenuController {
        state: MenuState::MainMenu,
        selected_item: 0,
        scroll_offset: 0,
        page_idx: 0,
        sub_idx: 0,
        editing: false,
        request_calibration: false,
        request_bind: false,
        prev_keys: 0xFFFF,
        waiting_release: true,
        up_hold_ms: 0,
        down_hold_ms: 0,
        repeat_timer_ms: 0,
    }
}

pub open spec fn sat_add16(a: u16, b: u16) -> u16 {
    if a + b > u16::MAX { u16::MAX } else { (a + b) as u16 }
}

/// Auto-repeat of one held key: after 300 ms held, a repeat every 70 ms.
/// Returns the hold time, the shared repeat timer and whether it repeats.
pub open spec fn key_repeat(hold: u16, timer: u16, held: bool) -> (u16, u16, bool) {
    if held {
        let h = sat_add16(hold, MENU_FRAME_MS);
        if h >= REPEAT_DELAY_MS {
            let t = sat_add16(timer, MENU_FRAME_MS);
            if t >= REPEAT_PERIOD_MS { (h, 0, true) } else { (h, t, false) }
        } else {
            (h, timer, false)
        }
    } else {
        (0, timer, false)
    }
}

/// The release wait is still on: a navigation key is still held.
pub open spec fn still_waiting(c: MenuController, keys: u16) -> bool {
    c.waiting_release && (keys & NAV_KEYS_MASK) != 0
}

/// Keys that went down since the last frame; none during the release wait.
pub open spec fn fresh_keys(c: MenuController, keys: u16) -> u16 {
    if still_waiting(c, keys) { 0 } else { keys & !c.prev_keys }
}

/// The key events and key tracking state of one frame.
pub open spec fn keys_read(c: MenuController, keys: u16) -> (MenuController, NavKeys) {
    let w = still_waiting(c, keys);
    let fresh = fresh_keys(c, keys);
    let raw_down = (keys & KEY_DOWN) != 0 && !w;
    let raw_up = (keys & KEY_UP) != 0 && !w;
    let d = key_repeat(c.down_hold_ms, c.repeat_timer_ms, raw_down);
    let u = key_repeat(c.up_hold_ms, d.1, raw_up);
    let c1 = MenuController {
        prev_keys: keys,
        waiting_release: w,
        down_hold_ms: d.0,
        up_hold_ms: u.0,
        repeat_timer_ms: if !raw_down && !raw_up { 0 } else { u.1 },
        ..c
    };
    let nav = NavKeys {
        ok: (fresh & KEY_OK) != 0,
        cancel: (fresh & KEY_CANCEL) != 0,
        up: (fresh & KEY_UP) != 0 || u.2,
        down: (fresh & KEY_DOWN) != 0 || d.2,
        bind: (fresh & KEY_BIND) != 0,
    };
    (c1, nav)
}

fn add_sat16(a: u16, b: u16) -> (r: u16)
    ensures
        r == sat_add16(a, b),
{
    if a <= u16::MAX - b { a + b } else { u16::MAX }
}

/// Selection after Down in a list of `count` items showing `slots` rows:
/// the next item, scrolling to keep it visible, or back to the top.
pub open spec fn nav_down(sel: usize, scroll: usize, count: usize, slots: usize) -> (usize, usize) {
    if sel + 1 < count {
        let s = (sel + 1) as usize;
        (s, if s >= scroll + slots { (s - (slots - 1)) as usize } else { scroll })
    } else {
        (0, 0)
    }
}

/// Selection after Up: the previous item, or the last one at the bottom.
pub open spec fn nav_up(sel: usize, scroll: usize, count: usize, slots: usize) -> (usize, usize) {
    if sel > 0 {
        let s = (sel - 1) as usize;
        (s, if s < scroll { s } else { scroll })
    } else {
        ((count - 1) as usize, if count >= slots { (count - slots) as usize } else { 0 })
    }
}

/// List navigation with wrap-around: Down, then Up, each with a tick.
pub open spec fn list_nav(sel: usize, scroll: usize, count: usize, slots: usize, up: bool, down: bool, b: BuzzerView) -> (usize, usize, BuzzerView) {
    if count == 0 {
        (sel, scroll, b)
    } else {
        let a = if down { nav_down(sel, scroll, count, slots) } else { (sel, scroll) };
        let ba = if down { beep(b, 2200, 30) } else { b };
        let z = if up { nav_up(a.0, a.1, count, slots) } else { a };
        let bz = if up { beep(ba, 2200, 30) } else { ba };
        (z.0, z.1, bz)
    }
}

/// Move a list cursor with Up and Down over `count` items of which `slots`
/// rows are visible, wrapping at both ends, with a tick for each move.
pub fn navigate_list(
    selected: &mut usize,
    scroll_offset: &mut usize,
    count: usize,
    slots: usize,
    up_pressed: bool,
    down_pressed: bool,
    buzzer: &mut Buzzer,
)
    requires
        1 <= slots,
    ensures
        (*final(selected), *final(scroll_offset), final(buzzer)@) == list_nav(
            *old(selected), *old(scroll_offset), count, slots, up_pressed, down_pressed, old(buzzer)@,
        ),
{
    if count == 0 {
        return;
    }
    if down_pressed {
        if *selected < count - 1 {
            *selected = *selected + 1;
            if *selected >= *scroll_offset && *selected - *scroll_offset >= slots {
                *scroll_offset = *selected - (slots - 1);
            }
        } else {
            *selected = 0;
            *scroll_offset = 0;
        }
        buzzer.play_tone(2200, 30);
    }
    if up_pressed {
        if *selected > 0 {
            *selected = *selected - 1;
            if *selected < *scroll_offset {
                *scroll_offset = *selected;
            }
        } else {
            *selected = count - 1;
            *scroll_offset = if count >= slots { count - slots } else { 0 };
        }
        buzzer.play_tone(2200, 30);
    }
}

/// The four-row list navigation used by the setting screens.
pub fn navigate_4slot_list(
    selected: &mut usize,
    scroll_offset: &mut usize,
    count: usize,
    up_pressed: bool,
    down_pressed: bool,
    buzzer: &mut Buzzer,
)
    ensures
        (*final(selected), *final(scroll_offset), final(buzzer)@) == list_nav(
            *old(selected), *old(scroll_offset), count, 4, up_pressed, down_pressed, old(buzzer)@,
        ),
{
    navigate_list(selected, scroll_offset, count, 4, up_pressed, down_pressed, buzzer);
}

/// The three-row list navigation of the main menu.
pub fn navigate_3slot_list(
    selected: &mut usize,
    scroll_offset: &mut usize,
    count: usize,
    up_pressed: bool,
    down_pressed: bool,
    buzzer: &mut Buzzer,
)
    ensures
        (*final(selected), *final(scroll_offset), final(buzzer)@) == list_nav(
            *old(selected), *old(scroll_offset), count, 3, up_pressed, down_pressed, old(buzzer)@,
        ),
{
    navigate_list(selected, scroll_offset, count, 3, up_pressed, down_pressed, buzzer);
}

/// Only the active model changed, to `s1`'s.
pub open spec fn active_edited(s0: RadioStorage, s1: RadioStorage) -> bool {
    let ai = active_index(s0.radio);
    s1.radio == s0.radio && s1.models@ == s0.models@.update(ai, s1.models@[ai])
}

/// One menu frame: the key events are read, then the open screen handles
/// them (see each screen's step).
pub open spec fn menu_updated(
    c0: MenuController,
    c1: MenuController,
    keys: u16,
    s0: RadioStorage,
    s1: RadioStorage,
    t0: TrimController,
    t1: TrimController,
    now_ms: u32,
    l0: LinkView,
    l1: LinkView,
    tx0: Seq<u8>,
    tx1: Seq<u8>,
    b0: BuzzerView,
    b1: BuzzerView,
    e: MenuEffects,
) -> bool {
    let (ck, nav) = keys_read(c0, keys);
    let ai = active_index(s0.radio);
    let m0 = s0.models@[ai];
    let m1 = s1.models@[ai];
    let others = l1 == l0 && tx1 == tx0;
    match ck.state {
        MenuState::Closed => c1 == ck && s1 == s0 && t1 == t0 && others && b1 == b0 && e == no_effects(),
        MenuState::MainMenu => main_menu::main_menu_step(ck, c1, nav, s0.radio.active_model, b0, b1)
            && s1 == s0 && t1 == t0 && others && e == no_effects(),
        MenuState::ModelSelect => model::select_step(ck, c1, nav, s0, s1, t0, t1, b0, b1, e) && others,
        MenuState::ModelSetup => model::model_setup_step(ck, c1, nav, m0, m1, ai, b0, b1, e)
            && active_edited(s0, s1) && t1 == t0 && others,
        MenuState::DualRateExpo => mixer::dual_rate_step(ck, c1, nav, m0, m1, b0, b1, e)
            && active_edited(s0, s1) && t1 == t0 && others,
        MenuState::ThrottleCurve => (if ck.editing {
            mixer::curve_edit(ck, c1, nav, m0, m1, b0, b1, e)
        } else {
            mixer::curve_browse(ck, c1, nav, m0, m1, b0, b1, e)
        }) && active_edited(s0, s1) && t1 == t0 && others,
        MenuState::WingMixer => mixer::wing_mixer_step(ck, c1, nav, m0, m1, b0, b1, e)
            && active_edited(s0, s1) && t1 == t0 && others,
        MenuState::MixerLineEdit => mixer::mix_line_step(ck, c1, nav, m0, m1, b0, b1, e)
            && active_edited(s0, s1) && t1 == t0 && others,
        MenuState::AuxChannels => channels::aux_step(ck, c1, nav, m0, m1, b0, b1, e)
            && active_edited(s0, s1) && t1 == t0 && others,
        MenuState::ChannelReverse => channels::reverse_step(ck, c1, nav, m0, m1, b0, b1, e)
            && active_edited(s0, s1) && t1 == t0 && others,
        MenuState::RadioSetup => setup::radio_setup_step(ck, c1, nav, s0.radio, s1.radio, t0, t1, b0, b1, e)
            && s1.models == s0.models && others,
        MenuState::RxSetup => setup::rx_setup_step(ck, c1, nav, m0, m1, l0, l1, tx0, tx1, b0, b1, e)
            && active_edited(s0, s1) && t1 == t0,
        MenuState::ElrsSetup => elrs::elrs_step(ck, c1, nav, now_ms, l0, l1, tx0, tx1, b0, b1)
            && s1 == s0 && t1 == t0 && e == no_effects(),
        MenuState::ChannelMonitor => channels::pager_step(ck, c1, nav, 9, 6, b0, b1)
            && s1 == s0 && t1 == t0 && others && e == no_effects(),
        MenuState::DiagAnas => channels::pager_step(ck, c1, nav, 11, 8, b0, b1)
            && s1 == s0 && t1 == t0 && others && e == no_effects(),
        MenuState::SystemInfo => (if nav.cancel { c1 == to_main(ck, 12, 9) && b1 == clicked(b0) } else { c1 == ck && b1 == b0 })
            && s1 == s0 && t1 == t0 && others && e == no_effects(),
    }
}

impl MenuController {
    pub fn new() -> (c: Self)
        ensures
            c == (MenuController {
                state: MenuState::Closed,
                selected_item: 0,
                scroll_offset: 0,
                page_idx: 0,
                sub_idx: 0,
                editing: false,
                request_calibration: false,
                request_bind: false,
                prev_keys: 0xFFFF,
                waiting_release: false,
                up_hold_ms: 0,
                down_hold_ms: 0,
                repeat_timer_ms: 0,
            }),
    {
        MenuController {
            state: MenuState::Closed,
            selected_item: 0,
            scroll_offset: 0,
            page_idx: 0,
            sub_idx: 0,
            editing: false,
            request_calibration: false,
            request_bind: false,
            prev_keys: 0xFFFF,
            waiting_release: false,
            up_hold_ms: 0,
            down_hold_ms: 0,
            repeat_timer_ms: 0,
        }
    }

    /// Open the main settings menu at its first item; keys held now are
    /// ignored until released.
    pub fn open(&mut self, buzzer: &mut Buzzer)
        ensures
            *final(self) == opened(*old(self)),
            final(buzzer)@ == clicked(old(buzzer)@),
    {
        self.state = MenuState::MainMenu;
        self.selected_item = 0;
        self.scroll_offset = 0;
        self.page_idx = 0;
        self.sub_idx = 0;
        self.editing = false;
        self.request_calibration = false;
        self.request_bind = false;
        self.waiting_release = true;
        self.prev_keys = 0xFFFF;
        self.up_hold_ms = 0;
        self.down_hold_ms = 0;
        self.repeat_timer_ms = 0;
        buzzer.click();
    }

    /// A menu screen is showing.
    pub fn is_active(&self) -> (b: bool)
        ensures
            b == (self.state != MenuState::Closed),
    {
        self.state != MenuState::Closed
    }

    /// One menu frame: read the keys and let the open screen handle them.
    /// Returns what the caller must do (store settings, apply display or
    /// USB changes); the caller then draws the screen.
    pub fn update(
        &mut self,
        keys: u16,
        storage: &mut RadioStorage,
        trims: &mut TrimController,
        now_ms: u32,
        crsf: &mut CrsfLink,
        crsf_tx: &mut Vec<u8>,
        buzzer: &mut Buzzer,
    ) -> (e: MenuEffects)
        requires
            buzzer_wf(old(buzzer)@),
            old(crsf).wf(),
        ensures
            buzzer_wf(final(buzzer)@),
            final(crsf).wf(),
            menu_updated(*old(self), *final(self), keys, *old(storage), *final(storage), *old(trims), *final(trims),
                now_ms, old(crsf)@, final(crsf)@, old(crsf_tx)@, final(crsf_tx)@, old(buzzer)@, final(buzzer)@, e),
    {
        let nav = self.read_keys(keys);
        match self.state {
            MenuState::Closed => none(),
            MenuState::MainMenu => {
                main_menu::update(self, &nav, storage.radio.active_model, buzzer);
                none()
            },
            MenuState::ModelSelect => model::update_select(self, &nav, storage, trims, buzzer),
            MenuState::ModelSetup => {
                let idx = storage.active_model_index();
                model::update_setup(self, &nav, storage.active_model_mut(), idx, buzzer)
            },
            MenuState::DualRateExpo => mixer::update_dual_rate(self, &nav, storage.active_model_mut(), buzzer),
            MenuState::ThrottleCurve => mixer::update_throttle_curve(self, &nav, storage.active_model_mut(), buzzer),
            MenuState::WingMixer => mixer::update_wing_mixer(self, &nav, storage.active_model_mut(), buzzer),
            MenuState::MixerLineEdit => mixer::update_mixer_line_edit(self, &nav, storage.active_model_mut(), buzzer),
            MenuState::AuxChannels => channels::update_aux_channels(self, &nav, storage.active_model_mut(), buzzer),
            MenuState::ChannelReverse => channels::update_channel_reverse(self, &nav, storage.active_model_mut(), buzzer),
            MenuState::RadioSetup => setup::update_radio_setup(self, &nav, &mut storage.radio, trims, buzzer),
            MenuState::RxSetup => setup::update_rx_setup(self, &nav, storage.active_model_mut(), crsf, crsf_tx, buzzer),
            MenuState::ElrsSetup => {
                elrs::update(self, &nav, now_ms, crsf, crsf_tx, buzzer);
                none()
            },
            MenuState::ChannelMonitor => {
                channels::update_channel_monitor(self, &nav, buzzer);
                none()
            },
            MenuState::DiagAnas => {
                channels::update_diag_anas(self, &nav, buzzer);
                none()
            },
            MenuState::SystemInfo => {
                channels::update_system_info(self, &nav, buzzer);
                none()
            },
        }
    }

    /// Take in the key bitfield of a frame: key edges, the release wait and
    /// auto-repeat of Up and Down.
    pub fn read_keys(&mut self, keys: u16) -> (nav: NavKeys)
        ensures
            (*final(self), nav) == keys_read(*old(self), keys),
    {
        if self.waiting_release && (keys & NAV_KEYS_MASK) == 0 {
            self.waiting_release = false;
        }
        let newly_pressed = if self.waiting_release { 0 } else { keys & !self.prev_keys };
        self.prev_keys = keys;
        let raw_down = (keys & KEY_DOWN) != 0 && !self.waiting_release;
        let raw_up = (keys & KEY_UP) != 0 && !self.waiting_release;
        let mut down_pressed = (newly_pressed & KEY_DOWN) != 0;
        let mut up_pressed = (newly_pressed & KEY_UP) != 0;
        if raw_down {
            self.down_hold_ms = add_sat16(self.down_hold_ms, MENU_FRAME_MS);
            if self.down_hold_ms >= REPEAT_DELAY_MS {
                self.repeat_timer_ms = add_sat16(self.repeat_timer_ms, MENU_FRAME_MS);
                if self.repeat_timer_ms >= REPEAT_PERIOD_MS {
                    down_pressed = true;
                    self.repeat_timer_ms = 0;
                }
            }
        } else {
            self.down_hold_ms = 0;
        }
        if raw_up {
            self.up_hold_ms = add_sat16(self.up_hold_ms, MENU_FRAME_MS);
            if self.up_hold_ms >= REPEAT_DELAY_MS {
                self.repeat_timer_ms = add_sat16(self.repeat_timer_ms, MENU_FRAME_MS);
                if self.repeat_timer_ms >= REPEAT_PERIOD_MS {
                    up_pressed = true;
                    self.repeat_timer_ms = 0;
                }
            }
        } else {
            self.up_hold_ms = 0;
        }
        if !raw_down && !raw_up {
            self.repeat_timer_ms = 0;
        }
        NavKeys {
            ok: (newly_pressed & KEY_OK) != 0,
            cancel: (newly_pressed & KEY_CANCEL) != 0,
            up: up_pressed,
            down: down_pressed,
            bind: (newly_pressed & KEY_BIND) != 0,
        }
    }
}

/// Back on the main menu at an item, with keys held now ignored.
pub open spec fn to_main(c: MenuController, sel: usize, scroll: usize) -> MenuController {
    MenuController { state: MenuState::MainMenu, selected_item: sel, scroll_offset: scroll, waiting_release: true, ..c }
}

/// The cursor of `c` moved as `list_nav` says.
pub open spec fn with_cursor(c: MenuController, n: (usize, usize, BuzzerView)) -> MenuController {
    MenuController { selected_item: n.0, scroll_offset: n.1, ..c }
}

} // verus!
