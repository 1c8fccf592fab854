use flysky_i6x::input::{
    apply_calibration, calculate_battery_mv, decode_switch, filter_battery, init, poll, AxisCalib, InputCalibration,
    SwitchPos,
};
use flysky_i6x::storage::{ChannelCalib, RadioConfig};

#[test]
fn switch_thresholds() {
    assert_eq!(decode_switch(0), SwitchPos::Up);
    assert_eq!(decode_switch(1365), SwitchPos::Up);
    assert_eq!(decode_switch(1366), SwitchPos::Mid);
    assert_eq!(decode_switch(2730), SwitchPos::Mid);
    assert_eq!(decode_switch(2731), SwitchPos::Down);
    assert_eq!(decode_switch(4095), SwitchPos::Down);
    assert_eq!(SwitchPos::Mid.as_char(), 'M');
}

#[test]
fn battery_formula() {
    // (raw * 100 / 421 + 20) * 10
    assert_eq!(calculate_battery_mv(0), 200);
    assert_eq!(calculate_battery_mv(1684), 4200);
    assert_eq!(calculate_battery_mv(4095), 9920);
}

#[test]
fn battery_filter_first_then_average() {
    let mut c = InputCalibration::default_factory();
    assert_eq!(filter_battery(&mut c, 4000), 4000);
    assert_eq!(c.filtered_battery_mv, 4000 * 256);
    // A jump is followed at 1/32 per sample.
    let v = filter_battery(&mut c, 3680);
    assert_eq!(v, ((4000u32 * 256 - 4000 * 256 / 32 + 3680 * 8) / 256) as u16);
    assert_eq!(v, 3990);
}

#[test]
fn normalize_endpoints_and_inversion() {
    let mut a = AxisCalib::new(1000, 2000, 3000, false);
    assert_eq!(a.normalize(2000), 0);
    let mut a = AxisCalib::new(1000, 2000, 3000, false);
    assert_eq!(a.normalize(3000), 1000);
    let mut a = AxisCalib::new(1000, 2000, 3000, false);
    assert_eq!(a.normalize(1500), -500);
    let mut a = AxisCalib::new(1000, 2000, 3000, false);
    assert_eq!(a.normalize(4000), 1000);
    let mut a = AxisCalib::new(1000, 2000, 3000, true);
    assert_eq!(a.normalize(2500), -500);
}

#[test]
fn normalize_filters_small_jitter() {
    let mut a = AxisCalib::new(1000, 2000, 3000, false);
    assert_eq!(a.normalize(2500), 500);
    // 4 counts of noise are averaged over four samples: 2500 -> 2501.
    assert_eq!(a.normalize(2504), 501);
    assert_eq!(a.filtered_raw, 2500 * 4 - 2500 + 2504);
    // A jump of 6 or more passes at once.
    assert_eq!(a.normalize(2600), 600);
}

#[test]
fn poll_maps_every_channel() {
    let mut c = InputCalibration::default_factory();
    let raw: [u16; 11] = [2048, 2048, 2048, 2048, 0, 2000, 2048, 2048, 4095, 100, 1684];
    let s = poll(&mut c, &raw);
    // Roll and pitch are inverted, so a centred stick stays 0.
    assert_eq!(s.sticks.roll, 0);
    assert_eq!(s.sticks.pitch, 0);
    assert_eq!(s.sticks.throttle, 0);
    assert_eq!(s.sticks.yaw, 0);
    assert_eq!(s.pots.vr1, 0);
    assert_eq!(s.switches.sa, SwitchPos::Up);
    assert_eq!(s.switches.sb, SwitchPos::Mid);
    assert_eq!(s.switches.sc, SwitchPos::Down);
    assert_eq!(s.switches.sd, SwitchPos::Up);
    assert_eq!(s.battery_mv, 4200);
    assert_eq!(s.raw, raw);
    // Full right roll reads as full left after inversion.
    let raw2: [u16; 11] = [3718, 2048, 2048, 2048, 0, 0, 2048, 2048, 0, 0, 1684];
    let s2 = poll(&mut c, &raw2);
    assert_eq!(s2.sticks.roll, -1000);
}

fn config_with(stick: ChannelCalib, pot: ChannelCalib) -> RadioConfig {
    let mut r = RadioConfig::default_factory();
    r.sticks = [stick; 4];
    r.pots = [pot; 2];
    r
}

#[test]
fn calibration_is_applied_with_fixed_inversion() {
    let mut c = InputCalibration::default_factory();
    let cfg = config_with(ChannelCalib::new(100, 2000, 3900), ChannelCalib::new(10, 2050, 4000));
    apply_calibration(&mut c, &cfg);
    assert_eq!((c.roll.min, c.roll.center, c.roll.max, c.roll.invert), (100, 2000, 3900, true));
    assert!(c.pitch.invert);
    assert!(!c.throttle.invert);
    assert!(!c.yaw.invert);
    assert_eq!((c.vrb.min, c.vrb.center, c.vrb.max), (10, 2050, 4000));
}

#[test]
fn init_refines_plausible_centers_only() {
    let mut c = InputCalibration::default_factory();
    let cfg = config_with(ChannelCalib::new(100, 2000, 3900), ChannelCalib::new(10, 2050, 4000));
    let mut samples = [[0u16; 11]; 16];
    for (i, s) in samples.iter_mut().enumerate() {
        s[0] = 2100 + (i as u16 % 2); // mean 2100 (integer)
        s[1] = 1000; // implausible: keeps 2000
        s[2] = 2200; // throttle is not refined
        s[3] = 2500; // upper bound is accepted
    }
    init(&mut c, &cfg, &samples);
    assert_eq!(c.roll.center, 2100);
    assert_eq!(c.pitch.center, 2000);
    assert_eq!(c.throttle.center, 2000);
    assert_eq!(c.yaw.center, 2500);
}
