use flysky_i6x::buzzer::Buzzer;
use flysky_i6x::crsf::CrsfLink;
use flysky_i6x::flight::{
    preflight_status, safe_channels, switch_warning_line, BackgroundIdleManager, FlightPipeline, PreflightCheck,
    PreflightStep,
};
use flysky_i6x::input::{poll, InputCalibration, SwitchPos, Switches};
use flysky_i6x::rf::afhds2a::RadioMode;
use flysky_i6x::rf::RfSystem;
use flysky_i6x::storage::RadioStorage;
use flysky_i6x::trim::TrimController;
use flysky_i6x::ui::dashboard::DashboardController;
use flysky_i6x::usb::UsbLink;

fn centred() -> [u16; 11] {
    [2048, 2048, 468, 2048, 0, 0, 2048, 2048, 0, 0, 1684]
}

struct Rig {
    calib: InputCalibration,
    storage: RadioStorage,
    trims: TrimController,
    buzzer: Buzzer,
    crsf: CrsfLink,
    rf: RfSystem,
    usb: UsbLink,
}

fn rig() -> Rig {
    let mut rf = RfSystem::new();
    rf.init(0x1234_5678, Some(0x0001_5678), true, 0x9E);
    Rig {
        calib: InputCalibration::default_factory(),
        storage: RadioStorage::default_factory(),
        trims: TrimController::new(),
        buzzer: Buzzer::new(),
        crsf: CrsfLink::new(),
        rf,
        usb: UsbLink::new(),
    }
}

#[test]
fn pipeline_produces_centred_channels_on_afhds() {
    let mut r = rig();
    let sw = Switches { sa: SwitchPos::Up, sb: SwitchPos::Up, sc: SwitchPos::Up, sd: SwitchPos::Up };
    let mut p = FlightPipeline::new(&r.storage, &sw);
    assert!(!p.prev_armed);
    let mut tx = Vec::new();
    let snap = p.tick(
        0, &r.storage, &r.trims, false, &mut r.calib, &centred(), false, &[], &mut r.buzzer, &mut r.crsf, &mut tx,
        &mut r.rf, &mut r.usb,
    );
    assert_eq!(snap.rf_chs[0], 1500);
    assert_eq!(snap.rf_chs[1], 1500);
    assert_eq!(snap.rf_chs[3], 1500);
    // Throttle at the bottom: curve input 0.
    assert_eq!(snap.rf_chs[2], 988);
    assert!(!snap.crsf_reconfigure);
    assert!(!snap.rf_standby);
    assert!(tx.is_empty());
    assert!(!snap.is_binding);
    assert!(snap.usb.hid_report.is_none());
}

#[test]
fn pipeline_chimes_on_arming() {
    let mut r = rig();
    r.storage.models[0].arm_switch = 2; // SA down
    let sw = Switches { sa: SwitchPos::Up, sb: SwitchPos::Up, sc: SwitchPos::Up, sd: SwitchPos::Up };
    let mut p = FlightPipeline::new(&r.storage, &sw);
    let mut raw = centred();
    raw[4] = 4000; // SA down
    let mut tx = Vec::new();
    p.tick(0, &r.storage, &r.trims, false, &mut r.calib, &raw, false, &[], &mut r.buzzer, &mut r.crsf, &mut tx, &mut r.rf, &mut r.usb);
    assert!(p.prev_armed);
    assert!(r.buzzer.remaining_ms > 0 || r.buzzer.seq_len > 0);
}

#[test]
fn pipeline_on_crsf_sends_frames_and_silences_rf() {
    let mut r = rig();
    r.storage.models[0].rf_protocol = 1;
    let sw = Switches { sa: SwitchPos::Up, sb: SwitchPos::Up, sc: SwitchPos::Up, sd: SwitchPos::Up };
    let mut p = FlightPipeline::new(&r.storage, &sw);
    let mut tx = Vec::new();
    let snap = p.tick(
        100, &r.storage, &r.trims, false, &mut r.calib, &centred(), false, &[], &mut r.buzzer, &mut r.crsf, &mut tx,
        &mut r.rf, &mut r.usb,
    );
    assert!(snap.crsf_reconfigure);
    assert!(snap.rf_standby);
    assert!(r.rf.is_silenced());
    // One 26-byte channels frame.
    assert_eq!(tx.len(), 26);
    assert_eq!(tx[2], 0x16);
}

#[test]
fn idle_manager_dims_backlight_and_starts_binding() {
    let mut r = rig();
    r.storage.radio.backlight_timeout = 1; // 15 s
    let sw = Switches { sa: SwitchPos::Up, sb: SwitchPos::Up, sc: SwitchPos::Up, sd: SwitchPos::Up };
    let mut p = FlightPipeline::new(&r.storage, &sw);
    let mut tx = Vec::new();
    let snap = p.tick(0, &r.storage, &r.trims, false, &mut r.calib, &centred(), false, &[], &mut r.buzzer, &mut r.crsf, &mut tx, &mut r.rf, &mut r.usb);
    let mut m = BackgroundIdleManager::new(&snap.state, false);
    let mut d = DashboardController::new();
    // A key press: full brightness, timer restarted.
    let a = m.tick(40, 20, 1, &snap, false, &mut p, &mut r.storage, &mut r.rf, &mut d, &mut r.buzzer);
    assert_eq!(a.backlight_pct, Some(100));
    assert_eq!(m.bl_timer_ms, 15_000);
    assert!(a.render);
    // Idle: the timer runs down and the light goes off.
    let a = m.tick(60, 100, 0, &snap, false, &mut p, &mut r.storage, &mut r.rf, &mut d, &mut r.buzzer);
    assert_eq!(a.backlight_pct, None);
    assert_eq!(m.bl_timer_ms, 14_900);
    m.bl_timer_ms = 50;
    let a = m.tick(80, 100, 0, &snap, false, &mut p, &mut r.storage, &mut r.rf, &mut d, &mut r.buzzer);
    assert_eq!(a.backlight_pct, Some(0));
    // Holding the bind key for a second starts binding.
    let mut power = None;
    for i in 0..12 {
        let a = m.tick(100 + i * 100, 100, 1 << 12, &snap, false, &mut p, &mut r.storage, &mut r.rf, &mut d, &mut r.buzzer);
        if a.bind_power.is_some() {
            power = a.bind_power;
        }
    }
    assert_eq!(power, Some(0x00));
    assert!(r.rf.is_binding());
    assert_eq!(r.rf.driver.unwrap().mode, RadioMode::Binding);
}

#[test]
fn idle_manager_short_bind_press_turns_page_and_ok_hold_opens_menu() {
    let mut r = rig();
    let mut c = InputCalibration::default_factory();
    let s = poll(&mut c, &centred());
    let sw = s.switches;
    let mut p = FlightPipeline::new(&r.storage, &sw);
    let mut tx = Vec::new();
    let snap = p.tick(0, &r.storage, &r.trims, false, &mut r.calib, &centred(), false, &[], &mut r.buzzer, &mut r.crsf, &mut tx, &mut r.rf, &mut r.usb);
    let mut m = BackgroundIdleManager::new(&snap.state, false);
    let mut d = DashboardController::new();
    m.tick(20, 50, 1 << 12, &snap, false, &mut p, &mut r.storage, &mut r.rf, &mut d, &mut r.buzzer);
    m.tick(40, 20, 0, &snap, false, &mut p, &mut r.storage, &mut r.rf, &mut d, &mut r.buzzer);
    assert_eq!(d.page, 1);
    let mut opened = false;
    for i in 0..7 {
        let a = m.tick(100 + i * 200, 200, 1 << 10, &snap, false, &mut p, &mut r.storage, &mut r.rf, &mut d, &mut r.buzzer);
        opened |= a.open_menu;
    }
    assert!(opened);
}

#[test]
fn preflight_checks_throttle_and_switches() {
    let mut c = InputCalibration::default_factory();
    let mut raw = centred();
    raw[2] = 2048; // throttle mid on an uncalibrated radio (raw above 1400)
    raw[5] = 4000; // SB down
    let s = poll(&mut c, &raw);
    let storage = RadioStorage::default_factory();
    let st = preflight_status(&storage.radio, &s);
    assert!(st.throttle_unsafe);
    assert!(!st.sa_unsafe && st.sb_unsafe && !st.sc_unsafe && !st.sd_unsafe);
    let mut buf = [0u8; 19];
    let n = switch_warning_line(&st, &mut buf);
    assert_eq!(&buf[..n], b"[SB]");
    let mut rf = RfSystem::new();
    let mut usb = UsbLink::new();
    let mut b = Buzzer::new();
    let mut pf = PreflightCheck::new();
    match pf.step(1000, &st, 0, &s, false, &mut rf, &mut usb, &mut b) {
        PreflightStep::Hold { render, .. } => assert!(render),
        PreflightStep::Done => panic!("must hold"),
    }
    assert!(pf.warned);
    assert_eq!(pf.beep_timer, 1000);
    // Cancel skips the check with a short tone.
    assert!(matches!(pf.step(1010, &st, 1 << 11, &s, false, &mut rf, &mut usb, &mut b), PreflightStep::Done));
    assert_eq!(safe_channels()[2], 1000);
}

#[test]
fn warning_line_lists_all_switches() {
    let mut c = InputCalibration::default_factory();
    let mut raw = centred();
    raw[4] = 4000;
    raw[5] = 4000;
    raw[8] = 4000;
    raw[9] = 4000;
    let s = poll(&mut c, &raw);
    let st = preflight_status(&RadioStorage::default_factory().radio, &s);
    let mut buf = [0u8; 19];
    let n = switch_warning_line(&st, &mut buf);
    assert_eq!(&buf[..n], b"[SA] [SB] [SC] [SD]");
}
