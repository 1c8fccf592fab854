//! Radio settings and protocol configuration screens.
use vstd::prelude::*;
use crate::buzzer::{Buzzer, BuzzerView, ToneStyle, armed_chime, beep, buzzer_wf, clicked, tone_style_of};
use crate::crsf::{config_started, CrsfLink};
use crate::storage::{ModelConfig, RadioConfig};
use crate::trim::TrimController;
use crate::ui::menu::{
    list_nav, navigate_4slot_list, no_effects, none, to_main, with_cursor, MenuController, MenuEffects, MenuState,
    NavKeys,
};

verus! {

/// Items of the radio setup list.
pub const SETUP_ITEMS: usize = 9;

/// OK on a radio setup item: cycle or toggle the setting, apply it where it
/// takes effect at once, and store the radio settings.
pub open spec fn radio_setup_ok(sel: usize, r: RadioConfig, t: TrimController, b: BuzzerView) -> (RadioConfig, TrimController, BuzzerView, MenuEffects) {
    let save = MenuEffects { save_radio: true, ..no_effects() };
    if sel == 0 {
        let tt = ((r.throttle_trim + 1) % 3) as u8;
        (RadioConfig { throttle_trim: tt, ..r }, TrimController { throttle_enabled: tt != 0, ..t }, clicked(b), save)
    } else if sel == 1 {
        let a: u8 = if r.audio_enabled == 0 { 1 } else { 0 };
        let b1 = BuzzerView { enabled: a != 0, ..b };
        (RadioConfig { audio_enabled: a, ..r }, t, if a != 0 { clicked(b1) } else { b1 }, save)
    } else if sel == 2 {
        let ts: u8 = if r.tone_style == 0 { 1 } else { 0 };
        let b1 = BuzzerView { tone_style: tone_style_of(ts), ..b };
        (RadioConfig { tone_style: ts, ..r }, t, if tone_style_of(ts) == ToneStyle::Rich { armed_chime(b1) } else { clicked(b1) }, save)
    } else if sel == 3 {
        (RadioConfig { backlight_timeout: ((r.backlight_timeout + 1) % 4) as u8, ..r }, t, clicked(b), save)
    } else if sel == 4 {
        let br: u8 = if r.backlight_brightness >= 10 { 1 } else { (r.backlight_brightness + 1) as u8 };
        (RadioConfig { backlight_brightness: br, ..r }, t, clicked(b), MenuEffects { backlight_pct: Some((br * 10) as u8), ..save })
    } else if sel == 5 {
        let c: u8 = if r.lcd_contrast >= 50 { 20 } else if r.lcd_contrast + 3 > 50 { 50 } else { (r.lcd_contrast + 3) as u8 };
        (RadioConfig { lcd_contrast: c, ..r }, t, clicked(b), MenuEffects { contrast: Some(c), ..save })
    } else if sel == 6 {
        let v: u8 = if r.vbat_warn_deci >= 50 { 40 } else { (r.vbat_warn_deci + 1) as u8 };
        (RadioConfig { vbat_warn_deci: v, ..r }, t, clicked(b), save)
    } else if sel == 7 {
        let m = ((r.usb_mode + 1) % 4) as u8;
        (RadioConfig { usb_mode: m, ..r }, t, clicked(b), MenuEffects { usb_mode: Some(m), ..save })
    } else if sel == 8 {
        let p: u8 = if r.ext_module_pwr == 0 { 1 } else { 0 };
        (RadioConfig { ext_module_pwr: p, ..r }, t, clicked(b), MenuEffects { module_power_active_high: Some(p == 0), ..save })
    } else {
        (r, t, b, no_effects())
    }
}

/// One frame of the radio setup screen: Cancel goes back to the main menu,
/// Up and Down move through the nine settings, OK changes one.
pub open spec fn radio_setup_step(
    c0: MenuController,
    c1: MenuController,
    k: NavKeys,
    r0: RadioConfig,
    r1: RadioConfig,
    t0: TrimController,
    t1: TrimController,
    b0: BuzzerView,
    b1: BuzzerView,
    e: MenuEffects,
) -> bool {
    if k.cancel {
        c1 == to_main(c0, 7, 4) && r1 == r0 && t1 == t0 && b1 == clicked(b0) && e == no_effects()
    } else {
        let n = list_nav(c0.selected_item, c0.scroll_offset, SETUP_ITEMS, 4, k.up, k.down, b0);
        &&& c1 == with_cursor(c0, n)
        &&& if k.ok {
            (r1, t1, b1, e) == radio_setup_ok(n.0, r0, t0, n.2)
        } else {
            r1 == r0 && t1 == t0 && b1 == n.2 && e == no_effects()
        }
    }
}

/// Radio setup: throttle trim mode, beeper, tone style, backlight timer
/// and level, contrast, battery alarm threshold, USB mode and the external
/// module's power polarity.
pub fn update_radio_setup(
    ctrl: &mut MenuController,
    keys: &NavKeys,
    radio: &mut RadioConfig,
    trims: &mut TrimController,
    buzzer: &mut Buzzer,
) -> (e: MenuEffects)
    requires
        buzzer_wf(old(buzzer)@),
    ensures
        buzzer_wf(final(buzzer)@),
        radio_setup_step(*old(ctrl), *final(ctrl), *keys, *old(radio), *final(radio), *old(trims), *final(trims),
            old(buzzer)@, final(buzzer)@, e),
{
    if keys.cancel {
        ctrl.state = MenuState::MainMenu;
        ctrl.selected_item = 7;
        ctrl.scroll_offset = 4;
        ctrl.waiting_release = true;
        buzzer.click();
        return none();
    }
    navigate_4slot_list(&mut ctrl.selected_item, &mut ctrl.scroll_offset, SETUP_ITEMS, keys.up, keys.down, buzzer);
    if keys.ok {
        apply_radio_setting(ctrl.selected_item, radio, trims, buzzer)
    } else {
        none()
    }
}

#[verifier::rlimit(40)]
fn apply_radio_setting(sel: usize, radio: &mut RadioConfig, trims: &mut TrimController, buzzer: &mut Buzzer) -> (e: MenuEffects)
    requires
        buzzer_wf(old(buzzer)@),
    ensures
        buzzer_wf(final(buzzer)@),
        (*final(radio), *final(trims), final(buzzer)@, e) == radio_setup_ok(sel, *old(radio), *old(trims), old(buzzer)@),
{
    let mut e = none();
    e.save_radio = true;
    if sel == 0 {
        buzzer.click();
        radio.throttle_trim = ((radio.throttle_trim as u16 + 1) % 3) as u8;
        trims.throttle_enabled = radio.throttle_trim != 0;
    } else if sel == 1 {
        radio.audio_enabled = if radio.audio_enabled == 0 { 1 } else { 0 };
        buzzer.enabled = radio.audio_enabled != 0;
        if buzzer.enabled {
            buzzer.click();
        }
    } else if sel == 2 {
        radio.tone_style = if radio.tone_style == 0 { 1 } else { 0 };
        buzzer.tone_style = ToneStyle::from_u8(radio.tone_style);
        if buzzer.tone_style == ToneStyle::Rich {
            buzzer.chime_armed();
        } else {
            buzzer.click();
        }
    } else if sel == 3 {
        buzzer.click();
        radio.backlight_timeout = ((radio.backlight_timeout as u16 + 1) % 4) as u8;
    } else if sel == 4 {
        buzzer.click();
        radio.backlight_brightness = if radio.backlight_brightness >= 10 { 1 } else { radio.backlight_brightness + 1 };
        e.backlight_pct = Some(radio.backlight_brightness * 10);
    } else if sel == 5 {
        buzzer.click();
        radio.lcd_contrast = if radio.lcd_contrast >= 50 {
            20
        } else if radio.lcd_contrast + 3 > 50 {
            50
        } else {
            radio.lcd_contrast + 3
        };
        e.contrast = Some(radio.lcd_contrast);
    } else if sel == 6 {
        buzzer.click();
        radio.vbat_warn_deci = if radio.vbat_warn_deci >= 50 { 40 } else { radio.vbat_warn_deci + 1 };
    } else if sel == 7 {
        buzzer.click();
        radio.usb_mode = ((radio.usb_mode as u16 + 1) % 4) as u8;
        e.usb_mode = Some(radio.usb_mode);
    } else if sel == 8 {
        buzzer.click();
        radio.ext_module_pwr = if radio.ext_module_pwr == 0 { 1 } else { 0 };
        e.module_power_active_high = Some(radio.ext_module_pwr == 0);
    } else {
        e.save_radio = false;
    }
    e
}

/// Items of the protocol screen: AFHDS 2A has the protocol and binding,
/// CRSF the protocol, the baud rate and the module configurator.
pub open spec fn rx_items(proto: u8) -> usize {
    if proto == 0 { 2 } else { 3 }
}

/// One frame of the protocol screen.
pub open spec fn rx_setup_step(
    c0: MenuController,
    c1: MenuController,
    k: NavKeys,
    m0: ModelConfig,
    m1: ModelConfig,
    l0: crate::crsf::LinkView,
    l1: crate::crsf::LinkView,
    tx0: Seq<u8>,
    tx1: Seq<u8>,
    b0: BuzzerView,
    b1: BuzzerView,
    e: MenuEffects,
) -> bool {
    let proto = m0.rf_protocol;
    let c_esc = if k.cancel && c0.editing { MenuController { editing: false, ..c0 } } else { c0 };
    let b_esc = if k.cancel && c0.editing { clicked(b0) } else { b0 };
    if k.cancel && !c0.editing {
        c1 == to_main(c0, 8, 5) && m1 == m0 && l1 == l0 && tx1 == tx0 && b1 == clicked(b0) && e == no_effects()
    } else if !c_esc.editing {
        let n = list_nav(c_esc.selected_item, c_esc.scroll_offset, rx_items(proto), 4, k.up, k.down, b_esc);
        let cn = with_cursor(c_esc, n);
        &&& m1 == m0
        &&& e == no_effects()
        &&& if k.ok && n.0 == 0 {
            c1 == MenuController { editing: true, ..cn } && b1 == clicked(n.2) && l1 == l0 && tx1 == tx0
        } else if k.ok && n.0 == 1 && proto == 0 {
            c1 == MenuController { request_bind: true, state: MenuState::Closed, ..cn } && b1 == clicked(n.2)
                && l1 == l0 && tx1 == tx0
        } else if k.ok && n.0 == 1 {
            c1 == MenuController { editing: true, ..cn } && b1 == clicked(n.2) && l1 == l0 && tx1 == tx0
        } else if k.ok && n.0 == 2 {
            &&& c1 == MenuController { state: MenuState::ElrsSetup, selected_item: 0, scroll_offset: 0, ..cn }
            &&& l1 == config_started(l0).0 && tx1 == tx0 + config_started(l0).1
            &&& b1 == clicked(n.2)
        } else {
            c1 == cn && b1 == n.2 && l1 == l0 && tx1 == tx0
        }
    } else {
        let me = if c_esc.selected_item == 0 && (k.up || k.down) {
            ModelConfig { rf_protocol: if proto == 0 { 1 } else { 0 }, ..m0 }
        } else if c_esc.selected_item == 1 && k.up {
            ModelConfig { crsf_baud: if m0.crsf_baud > 0 { (m0.crsf_baud - 1) as u8 } else { 3 }, ..m0 }
        } else if c_esc.selected_item == 1 && k.down {
            ModelConfig { crsf_baud: ((m0.crsf_baud + 1) % 4) as u8, ..m0 }
        } else {
            m0
        };
        let be = if (c_esc.selected_item == 0 && (k.up || k.down)) || (c_esc.selected_item == 1 && (k.up || k.down)) {
            beep(b_esc, 2200, 30)
        } else {
            b_esc
        };
        &&& m1 == me
        &&& l1 == l0 && tx1 == tx0
        &&& if k.ok {
            c1 == MenuController { editing: false, ..c_esc } && b1 == clicked(be) && e == MenuEffects { save_all: true, ..no_effects() }
        } else {
            c1 == c_esc && b1 == be && e == no_effects()
        }
    }
}

/// The protocol screen: choose AFHDS 2A or CRSF, bind a receiver, set the
/// CRSF baud rate, or open the module configurator.
pub fn update_rx_setup(
    ctrl: &mut MenuController,
    keys: &NavKeys,
    model: &mut ModelConfig,
    crsf: &mut CrsfLink,
    crsf_tx: &mut Vec<u8>,
    buzzer: &mut Buzzer,
) -> (e: MenuEffects)
    requires
        old(crsf).wf(),
    ensures
        final(crsf).wf(),
        rx_setup_step(*old(ctrl), *final(ctrl), *keys, *old(model), *final(model), old(crsf)@, final(crsf)@,
            old(crsf_tx)@, final(crsf_tx)@, old(buzzer)@, final(buzzer)@, e),
{
    let proto = model.rf_protocol;
    let item_count: usize = if proto == 0 { 2 } else { 3 };
    if keys.cancel {
        if ctrl.editing {
            ctrl.editing = false;
            buzzer.click();
        } else {
            ctrl.state = MenuState::MainMenu;
            ctrl.selected_item = 8;
            ctrl.scroll_offset = 5;
            ctrl.waiting_release = true;
            buzzer.click();
            return none();
        }
    }
    if !ctrl.editing {
        navigate_4slot_list(&mut ctrl.selected_item, &mut ctrl.scroll_offset, item_count, keys.up, keys.down, buzzer);
        if keys.ok {
            let sel = ctrl.selected_item;
            if sel == 0 {
                ctrl.editing = true;
                buzzer.click();
            } else if sel == 1 {
                if proto == 0 {
                    ctrl.request_bind = true;
                    ctrl.state = MenuState::Closed;
                    buzzer.click();
                } else {
                    ctrl.editing = true;
                    buzzer.click();
                }
            } else if sel == 2 {
                ctrl.state = MenuState::ElrsSetup;
                ctrl.selected_item = 0;
                ctrl.scroll_offset = 0;
                crsf.start_config(crsf_tx);
                buzzer.click();
            }
        }
        none()
    } else {
        let sel = ctrl.selected_item;
        if sel == 0 {
            if keys.up || keys.down {
                model.rf_protocol = if proto == 0 { 1 } else { 0 };
                buzzer.play_tone(2200, 30);
            }
        } else if sel == 1 {
            if keys.up {
                model.crsf_baud = if model.crsf_baud > 0 { model.crsf_baud - 1 } else { 3 };
                buzzer.play_tone(2200, 30);
            } else if keys.down {
                model.crsf_baud = ((model.crsf_baud as u16 + 1) % 4) as u8;
                buzzer.play_tone(2200, 30);
            }
        }
        if keys.ok {
            ctrl.editing = false;
            buzzer.click();
            let mut e = none();
            e.save_all = true;
            e
        } else {
            none()
        }
    }
}

} // verus!
