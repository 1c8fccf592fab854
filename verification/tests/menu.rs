use flysky_i6x::buzzer::Buzzer;
use flysky_i6x::crsf::CrsfLink;
use flysky_i6x::storage::RadioStorage;
use flysky_i6x::trim::TrimController;
use flysky_i6x::ui::menu::{navigate_4slot_list, MenuController, MenuState};

const DOWN: u16 = 1 << 8;
const UP: u16 = 1 << 9;
const OK: u16 = 1 << 10;
const CANCEL: u16 = 1 << 11;

struct Rig {
    m: MenuController,
    s: RadioStorage,
    t: TrimController,
    c: CrsfLink,
    tx: Vec<u8>,
    b: Buzzer,
}

impl Rig {
    fn new() -> Rig {
        let mut r = Rig {
            m: MenuController::new(),
            s: RadioStorage::default_factory(),
            t: TrimController::new(),
            c: CrsfLink::new(),
            tx: Vec::new(),
            b: Buzzer::new(),
        };
        r.m.open(&mut r.b);
        // Release the keys that opened the menu.
        r.press(0);
        r
    }

    fn press(&mut self, keys: u16) -> flysky_i6x::ui::menu::MenuEffects {
        self.m.update(keys, &mut self.s, &mut self.t, 0, &mut self.c, &mut self.tx, &mut self.b)
    }

    /// A key press followed by its release.
    fn tap(&mut self, keys: u16) -> flysky_i6x::ui::menu::MenuEffects {
        let e = self.press(keys);
        self.press(0);
        e
    }
}

#[test]
fn open_and_close() {
    let mut r = Rig::new();
    assert!(r.m.is_active());
    assert_eq!(r.m.state, MenuState::MainMenu);
    r.tap(CANCEL);
    assert!(!r.m.is_active());
}

#[test]
fn held_keys_are_ignored_until_released() {
    let mut m = MenuController::new();
    let mut b = Buzzer::new();
    m.open(&mut b);
    let k = m.read_keys(OK);
    assert!(!k.ok);
    let k = m.read_keys(0);
    assert!(!k.ok);
    let k = m.read_keys(OK);
    assert!(k.ok);
}

#[test]
fn held_down_repeats() {
    let mut m = MenuController::new();
    m.waiting_release = false;
    m.prev_keys = 0;
    assert!(m.read_keys(DOWN).down);
    let mut repeats = 0;
    for _ in 0..30 {
        if m.read_keys(DOWN).down {
            repeats += 1;
        }
    }
    // 300 ms before repeating (15 frames), then every 80 ms (4 frames).
    assert_eq!(repeats, 4);
}

#[test]
fn list_navigation_wraps_and_scrolls() {
    let mut b = Buzzer::new();
    let (mut sel, mut scroll) = (0usize, 0usize);
    navigate_4slot_list(&mut sel, &mut scroll, 9, true, false, &mut b);
    assert_eq!((sel, scroll), (8, 5));
    navigate_4slot_list(&mut sel, &mut scroll, 9, false, true, &mut b);
    assert_eq!((sel, scroll), (0, 0));
    for _ in 0..4 {
        navigate_4slot_list(&mut sel, &mut scroll, 9, false, true, &mut b);
    }
    assert_eq!((sel, scroll), (4, 1));
}

#[test]
fn radio_setup_edits_and_asks_to_store() {
    let mut r = Rig::new();
    for _ in 0..7 {
        r.tap(DOWN);
    }
    assert_eq!(r.m.selected_item, 7);
    r.tap(OK);
    assert_eq!(r.m.state, MenuState::RadioSetup);
    // Throttle trim cycles 0 -> 1 and enables the throttle trim.
    let e = r.tap(OK);
    assert!(e.save_radio);
    assert_eq!(r.s.radio.throttle_trim, 1);
    assert!(r.t.throttle_enabled);
    // Contrast: 37 -> 40, applied at once.
    for _ in 0..5 {
        r.tap(DOWN);
    }
    let e = r.tap(OK);
    assert_eq!(r.s.radio.lcd_contrast, 40);
    assert_eq!(e.contrast, Some(40));
    // USB mode.
    r.tap(DOWN);
    r.tap(DOWN);
    let e = r.tap(OK);
    assert_eq!(e.usb_mode, Some(1));
    r.tap(CANCEL);
    assert_eq!(r.m.state, MenuState::MainMenu);
    assert_eq!(r.m.selected_item, 7);
}

#[test]
fn model_select_swaps_trims_and_active_model() {
    let mut r = Rig::new();
    r.t.values.roll = 5;
    r.s.models[3].trims = [1, 2, 3, 4];
    r.s.models[3].rx_id = 0xABCD;
    r.tap(OK);
    assert_eq!(r.m.state, MenuState::ModelSelect);
    for _ in 0..3 {
        r.tap(DOWN);
    }
    let e = r.tap(OK);
    assert!(e.save_all);
    assert_eq!(e.rx_id, Some(0xABCD));
    assert_eq!(r.s.radio.active_model, 3);
    assert_eq!(r.s.models[0].trims[0], 5);
    assert_eq!((r.t.values.roll, r.t.values.yaw), (1, 4));
}

#[test]
fn dual_rate_steps_by_five_within_limits() {
    let mut r = Rig::new();
    r.tap(DOWN);
    r.tap(DOWN);
    r.tap(OK);
    assert_eq!(r.m.state, MenuState::DualRateExpo);
    // Hi Rate field.
    r.tap(DOWN);
    r.tap(DOWN);
    r.tap(OK);
    assert!(r.m.editing);
    r.tap(UP);
    assert_eq!(r.s.models[0].dr_high[0], 100);
    r.tap(DOWN);
    assert_eq!(r.s.models[0].dr_high[0], 95);
    r.tap(OK);
    assert!(!r.m.editing);
}

#[test]
fn throttle_curve_switches_between_five_and_nine_points() {
    let mut r = Rig::new();
    for _ in 0..3 {
        r.tap(DOWN);
    }
    r.tap(OK);
    assert_eq!(r.m.state, MenuState::ThrottleCurve);
    r.tap(OK);
    assert_eq!(r.s.models[0].thr_curve_pts, 9);
    assert_eq!(r.s.models[0].thr_curve, [0, 12, 25, 37, 50, 62, 75, 87, 100]);
    r.tap(OK);
    assert_eq!(r.s.models[0].thr_curve_pts, 5);
    assert_eq!(r.s.models[0].thr_curve, [0, 25, 50, 75, 100, 0, 0, 0, 0]);
}

#[test]
fn channel_reverse_flips_one_bit() {
    let mut r = Rig::new();
    for _ in 0..6 {
        r.tap(DOWN);
    }
    r.tap(OK);
    assert_eq!(r.m.state, MenuState::ChannelReverse);
    r.tap(DOWN);
    r.tap(DOWN);
    r.tap(OK);
    assert_eq!(r.s.models[0].channel_reverse, 1 << 2);
    let e = r.tap(CANCEL);
    assert!(e.save_model);
}

#[test]
fn mix_line_editor_opens_from_the_wing_mixer() {
    let mut r = Rig::new();
    for _ in 0..4 {
        r.tap(DOWN);
    }
    r.tap(OK);
    assert_eq!(r.m.state, MenuState::WingMixer);
    r.tap(OK);
    assert_eq!(r.s.models[0].wing_tail_mix, 1);
    r.tap(DOWN);
    r.tap(OK);
    assert_eq!(r.m.state, MenuState::MixerLineEdit);
    assert_eq!(r.m.page_idx, 0);
    r.tap(OK);
    r.tap(UP);
    assert_eq!(r.s.models[0].mixes[0].target_ch, 1);
    r.tap(DOWN);
    r.tap(DOWN);
    assert_eq!(r.s.models[0].mixes[0].target_ch, 14);
}

#[test]
fn calibration_entry_closes_menu_with_request() {
    let mut r = Rig::new();
    for _ in 0..10 {
        r.tap(DOWN);
    }
    r.tap(OK);
    assert_eq!(r.m.state, MenuState::Closed);
    assert!(r.m.request_calibration);
}
