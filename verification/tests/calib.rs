use flysky_i6x::buzzer::Buzzer;
use flysky_i6x::calib::{endpoints_from_travel, CalibAction, CalibStep, CalibWizard};
use flysky_i6x::storage::{ChannelCalib, RadioConfig, CONFIG_VERSION, FLASH_MAGIC};

const OK: u16 = 1 << 10;
const CANCEL: u16 = 1 << 11;

fn scan(sticks: u16, pots: u16) -> [u16; 11] {
    [sticks, sticks, sticks, sticks, 0, 0, pots, pots, 0, 0, 0]
}

#[test]
fn endpoint_margin() {
    // 63/64 of each side's travel.
    assert_eq!(endpoints_from_travel(2048, 448, 3648), ChannelCalib::new(2048 - 1575, 2048, 2048 + 1575));
    assert_eq!(endpoints_from_travel(100, 200, 100), ChannelCalib::new(100, 100, 100));
}

#[test]
fn wizard_full_run_saves_endpoints() {
    let mut b = Buzzer::new();
    let mut w = CalibWizard::new();
    assert!(!w.is_active());
    w.start(&mut b);
    assert_eq!(w.step, CalibStep::Center);
    let base = RadioConfig::default_factory();
    // OK still held from the start: ignored until released.
    assert!(matches!(w.update(&scan(2048, 2048), OK, 20, &base, &mut b), CalibAction::Draw));
    assert_eq!(w.step, CalibStep::Center);
    assert!(matches!(w.update(&scan(2048, 2048), 0, 20, &base, &mut b), CalibAction::Draw));
    // A fresh OK captures the centers.
    assert!(matches!(w.update(&scan(2000, 2100), OK, 20, &base, &mut b), CalibAction::Idle));
    assert_eq!(w.step, CalibStep::Limits);
    assert_eq!(w.centers, [2000, 2000, 2000, 2000, 2100, 2100]);
    w.update(&scan(2000, 2100), 0, 20, &base, &mut b);
    // Not enough travel yet: OK is refused.
    assert!(matches!(w.update(&scan(2000, 2100), OK, 20, &base, &mut b), CalibAction::Idle));
    assert_eq!(w.step, CalibStep::Limits);
    w.update(&scan(400, 2100), 0, 20, &base, &mut b);
    w.update(&scan(3600, 2100), 0, 20, &base, &mut b);
    assert!(w.all_sticks_ready());
    match w.update(&scan(2000, 2100), OK, 20, &base, &mut b) {
        CalibAction::Save(cfg) => {
            assert_eq!(cfg.magic, FLASH_MAGIC);
            assert_eq!(cfg.version, CONFIG_VERSION);
            // 1600 counts each way, 63/64 kept: 1575.
            assert_eq!(cfg.sticks[0], ChannelCalib::new(425, 2000, 3575));
            // Pots did not move: kept.
            assert_eq!(cfg.pots, base.pots);
        }
        _ => panic!("expected a save"),
    }
    assert_eq!(w.step, CalibStep::Complete);
    assert_eq!(w.timer_ms, 1200);
    w.update(&scan(2000, 2100), 0, 1000, &base, &mut b);
    assert_eq!(w.timer_ms, 200);
    w.update(&scan(2000, 2100), 0, 200, &base, &mut b);
    assert_eq!(w.step, CalibStep::Inactive);
}

#[test]
fn wizard_cancel() {
    let mut b = Buzzer::new();
    let mut w = CalibWizard::new();
    w.start(&mut b);
    let base = RadioConfig::default_factory();
    w.update(&scan(2048, 2048), 0, 20, &base, &mut b);
    assert!(matches!(w.update(&scan(2048, 2048), CANCEL, 20, &base, &mut b), CalibAction::Idle));
    assert_eq!(w.step, CalibStep::Inactive);
}
