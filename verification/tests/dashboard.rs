use flysky_i6x::buzzer::Buzzer;
use flysky_i6x::rf::afhds2a::TelemetryData;
use flysky_i6x::ui::dashboard::{link_label, DashboardController, LinkLabel};

fn telem(connected: bool, rssi: u8, mv: u16) -> TelemetryData {
    TelemetryData { connected, rssi, rx_voltage_mv: mv, packets_sent: 0, packets_received: 0 }
}

#[test]
fn pages_wrap_both_ways() {
    let mut b = Buzzer::new();
    let mut d = DashboardController::new();
    d.prev_page(&mut b);
    assert_eq!(d.page, 3);
    d.next_page(&mut b);
    assert_eq!(d.page, 0);
    d.handle_keys(1 << 8, &mut b);
    assert_eq!(d.page, 1);
    d.handle_keys(1 << 9, &mut b);
    assert_eq!(d.page, 0);
    d.handle_keys(0, &mut b);
    assert_eq!(d.page, 0);
}

#[test]
fn link_label_precedence() {
    let t = telem(true, 150, 0);
    assert_eq!(link_label(false, false, 0x12, true, true, &t, true), LinkLabel::ChipError(0x12));
    assert_eq!(link_label(false, true, 0x12, true, false, &t, true), LinkLabel::Binding);
    assert_eq!(link_label(true, false, 0, false, true, &t, true), LinkLabel::Simulator);
    assert_eq!(link_label(true, false, 0, false, false, &t, true), LinkLabel::Quality(100));
    let off = telem(false, 0, 0);
    assert_eq!(link_label(true, true, 0, false, false, &off, true), LinkLabel::Crsf);
    assert_eq!(link_label(true, false, 0, false, false, &off, true), LinkLabel::Bound);
    assert_eq!(link_label(true, false, 0, false, false, &off, false), LinkLabel::NoLink);
}

#[test]
fn battery_alarm_first_after_a_second_then_every_eight() {
    let mut b = Buzzer::new();
    let mut d = DashboardController::new();
    let none = telem(false, 0, 0);
    // 3.5 V below a 4.4 V threshold.
    let mut alarms = 0;
    for _ in 0..32 {
        d.update_status(3500, 44, &none, &mut b);
        if d.vbat_alarm_timer == 0 {
            alarms += 1;
        }
    }
    assert_eq!(alarms, 1);
    assert_eq!(d.blink_phase, 32);
    // Back above the threshold re-arms the timer.
    d.update_status(4500, 44, &none, &mut b);
    assert_eq!(d.vbat_alarm_timer, 7000);
}

#[test]
fn link_statistics_and_alarm_timers() {
    let mut b = Buzzer::new();
    let mut d = DashboardController::new();
    d.update_status(4500, 44, &telem(true, 80, 5000), &mut b);
    assert!(d.telem_seen);
    assert_eq!(d.min_rssi, 80);
    assert_eq!(d.min_rx_v_mv, 5000);
    d.update_status(4500, 44, &telem(true, 30, 0), &mut b);
    assert_eq!(d.min_rssi, 30);
    assert_eq!(d.min_rx_v_mv, 5000);
    assert_eq!(d.rssi_alarm_timer, 33);
    d.update_status(4500, 44, &telem(true, 10, 4800), &mut b);
    assert_eq!(d.min_rx_v_mv, 4800);
    assert_eq!(d.rssi_alarm_timer, 66);
    d.update_status(4500, 44, &telem(false, 0, 0), &mut b);
    assert_eq!(d.rssi_alarm_timer, 0);
}
