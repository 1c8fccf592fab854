use flysky_i6x::boot::check_dfu_entry;
use flysky_i6x::crsf::protocol::{crc8, CrsfTelemetry};
use flysky_i6x::crsf::CrsfLink;
use flysky_i6x::input::{decode_switch, SwitchPos, Switches};
use flysky_i6x::mixer::compute_channels;
use flysky_i6x::rf::afhds2a::TelemetryData;
use flysky_i6x::storage::ModelConfig;
use flysky_i6x::trim::TrimController;
use flysky_i6x::storage::{RadioConfig, RadioStorage};
use flysky_i6x::ui::dashboard::LinkLabel;
use flysky_i6x::ui::menu::rows::{
    aux_rows, channel_reverse_rows, dual_rate_rows, mix_line_rows, model_select_rows, model_setup_rows, radio_setup_rows,
    rx_setup_lines, wing_mixer_rows,
};
use flysky_i6x::ui::telemetry::{battery_highlight, link_label_text, model_page_lines, telemetry_page_lines};
use flysky_i6x::usb::hid::build_gamepad_report;

fn all_up() -> Switches {
    Switches { sa: SwitchPos::Up, sb: SwitchPos::Up, sc: SwitchPos::Up, sd: SwitchPos::Up }
}

#[test]
fn throttle_trim_off_returns_pulse_unaltered() {
    assert_eq!(TrimController::apply_throttle(900, 25, 0), 900);
    assert_eq!(TrimController::apply_throttle(2100, -25, 0), 2100);
}

#[test]
fn switch_thresholds_are_inclusive() {
    assert_eq!(decode_switch(1365), SwitchPos::Up);
    assert_eq!(decode_switch(1366), SwitchPos::Mid);
    assert_eq!(decode_switch(2730), SwitchPos::Mid);
    assert_eq!(decode_switch(2731), SwitchPos::Down);
}

#[test]
fn gamepad_buttons_follow_channels_7_to_14() {
    let mut chs = [1500u16; 14];
    chs[6] = 1700;
    chs[13] = 1651;
    chs[10] = 1650;
    let mut out = [0u8; 18];
    build_gamepad_report(&chs, &all_up(), &mut out);
    let btns = out[0] as u16 | (out[1] as u16) << 8;
    assert_eq!(btns, (1 << 6) | (1 << 13));
}

#[test]
fn bind_key_at_power_on_enters_bootloader() {
    assert!(check_dfu_entry(&[1 << 12; 5]));
    assert!(check_dfu_entry(&[(1 << 1) | (1 << 6); 5]));
    assert!(!check_dfu_entry(&[1 << 12, 1 << 12, 0, 0, 0]));
    assert!(!check_dfu_entry(&[1 << 1; 5]));
}

#[test]
fn idle_trim_keeps_pulses_in_range() {
    let model = ModelConfig::default_for_index(0);
    let mut trims = TrimController::new();
    trims.values.throttle = -25;
    let chs = compute_channels(0, 0, 0, 0, &[0, 0], &all_up(), &model, &trims, 1);
    assert_eq!(chs[2], 988);
    for c in chs.iter() {
        assert!((988..=2012).contains(c));
    }
}

#[test]
fn pots_beyond_mixer_range_are_accepted() {
    let mut model = ModelConfig::default_for_index(0);
    model.aux_channels[0] = 5;
    let trims = TrimController::new();
    let chs = compute_channels(0, 0, 500, 0, &[30000, -30000], &all_up(), &model, &trims, 0);
    assert_eq!(chs[4], 2012);
    model.channel_reverse = 1 << 4;
    let rev = compute_channels(0, 0, 500, 0, &[30000, -30000], &all_up(), &model, &trims, 0);
    assert_eq!(rev[4], 3000 - 2012);
}

fn text(l: &[u8]) -> &str {
    core::str::from_utf8(l).unwrap()
}

#[test]
fn telemetry_page_afhds() {
    let t = TelemetryData { connected: true, rssi: 87, rx_voltage_mv: 5040, packets_sent: 123456, packets_received: 42 };
    let ct = CrsfTelemetry::new();
    let l = telemetry_page_lines(false, &ct, &t, 4120, 7, 0xFFFF, true, false);
    assert_eq!(l.len(), 18);
    assert_eq!(text(&l[0]), "RSSI:87 %");
    assert_eq!(text(&l[2]), "LINK: OK");
    assert_eq!(text(&l[5]), "99999");
    assert_eq!(text(&l[7]), "   42");
    assert_eq!(text(&l[9]), "5.04V");
    assert_eq!(text(&l[11]), "4.12V");
    assert_eq!(text(&l[13]), "  7%");
    assert_eq!(text(&l[15]), "----");
    assert_eq!(text(&l[17]), "TELEMETRY SENSORS");
    let b = telemetry_page_lines(false, &ct, &t, 4120, 7, 0xFFFF, true, true);
    assert_eq!(text(&b[16]), "[ESC] Finish Bind");
    assert!(b[17].is_empty());
}

#[test]
fn telemetry_page_crsf() {
    let mut ct = CrsfTelemetry::new();
    let t = TelemetryData { connected: false, rssi: 0, rx_voltage_mv: 0, packets_sent: 0, packets_received: 0 };
    let off = telemetry_page_lines(true, &ct, &t, 4000, 0, 0, false, false);
    assert_eq!(text(&off[0]), "LQ: ---%");
    assert_eq!(text(&off[6]), "ANT: -");
    assert_eq!(text(&off[8]), "PWR: ---");
    assert_eq!(text(&off[11]), "---");
    ct.connected = true;
    ct.uplink_link_quality = 250;
    ct.uplink_rssi_1 = -67;
    ct.uplink_snr = -5;
    ct.active_antenna = 1;
    ct.tx_power_mw = 250;
    ct.rf_mode = 7;
    ct.rx_battery_mv = 16800;
    ct.rx_capacity_mah = 1234;
    let on = telemetry_page_lines(true, &ct, &t, 4000, 0, 0, false, false);
    assert_eq!(text(&on[0]), "LQ:100%");
    assert_eq!(text(&on[2]), "RS: -067dB");
    assert_eq!(text(&on[4]), "SNR:-05dB");
    assert_eq!(text(&on[6]), "ANT: 2");
    assert_eq!(text(&on[8]), "PWR: 250mW");
    assert_eq!(text(&on[11]), "250Hz");
    assert_eq!(text(&on[13]), "16.80V");
    assert_eq!(text(&on[15]), " 1234");
    assert_eq!(text(&on[17]), "CRSF LINK DIAG");
}

#[test]
fn status_bar_texts() {
    assert_eq!(text(&link_label_text(LinkLabel::ChipError(0x9E))), "E:9E");
    assert_eq!(text(&link_label_text(LinkLabel::Quality(100))), "R:100");
    assert_eq!(text(&link_label_text(LinkLabel::Quality(7))), "R:07%");
    assert_eq!(text(&link_label_text(LinkLabel::NoLink)), "NO RF");
    assert!(battery_highlight(4300, 44, 0x10));
    assert!(!battery_highlight(4300, 44, 0x0F));
    assert!(!battery_highlight(4400, 44, 0x10));
}

#[test]
fn model_page_texts() {
    let mut m = ModelConfig::default_for_index(2);
    m.rx_id = 0x12AB_00FF;
    let off = TelemetryData { connected: false, rssi: 0, rx_voltage_mv: 0, packets_sent: 0, packets_received: 0 };
    let l = model_page_lines(&m, &off, false, false);
    assert_eq!(l.len(), 12);
    assert_eq!(text(&l[0]), "MODEL 03  ");
    assert_eq!(text(&l[1]), "AIRPLANE");
    assert_eq!(text(&l[3]), "12AB00FF");
    assert_eq!(text(&l[5]), "5-PT");
    assert_eq!(text(&l[7]), "AFHDS2A: DISCONNECTED");
    assert!(l[8].is_empty());
    assert_eq!(text(&l[11]), "MODEL DASHBOARD");
    let on = TelemetryData { connected: true, rssi: 5, rx_voltage_mv: 4980, packets_sent: 0, packets_received: 0 };
    let l = model_page_lines(&m, &on, false, true);
    assert_eq!(text(&l[7]), "RX:");
    assert_eq!(text(&l[8]), "4.98V");
    assert_eq!(text(&l[9]), "RSSI: 5 %");
    assert_eq!(text(&l[10]), "[ESC] Finish Bind");
}

#[test]
fn settings_rows() {
    let mut r = RadioConfig::default_factory();
    r.backlight_brightness = 7;
    r.vbat_warn_deci = 37;
    let rows = radio_setup_rows(&r);
    assert_eq!(rows.len(), 18);
    assert_eq!(text(&rows[1]), "OFF (Lock)");
    assert_eq!(text(&rows[9]), " 70%");
    assert_eq!(text(&rows[11]), "37");
    assert_eq!(text(&rows[13]), "3.7V");
    r.backlight_brightness = 10;
    assert_eq!(text(&radio_setup_rows(&r)[9]), "100%");
    let rev = channel_reverse_rows(0b10);
    assert_eq!(text(&rev[0]), "CH1 (AIL)");
    assert_eq!(text(&rev[1]), "NORMAL ");
    assert_eq!(text(&rev[3]), "REVERSE");
    assert_eq!(text(&rev[18]), "CH10(SD) ");
    let mut st = RadioStorage::empty();
    st.init_default();
    st.radio.active_model = 1;
    let sel = model_select_rows(&st);
    assert_eq!(sel.len(), 20);
    assert_eq!(text(&sel[1]), "M02:MODEL 02   [*]");
    assert_eq!(text(&sel[11]), "M12:MODEL 12      ");
}

#[test]
fn mixer_rows() {
    use_rows();
}

fn use_rows() {
    let mut m = ModelConfig::default_for_index(0);
    m.dr_high = [100, 80, 60];
    m.expo_low = [0, -30, 5];
    let dr = dual_rate_rows(&m, 1);
    assert_eq!(text(&dr[3]), "Pitch");
    assert_eq!(text(&dr[5]), "80%");
    assert_eq!(text(&dr[11]), "-30%");
    let dr9 = dual_rate_rows(&m, 9);
    assert_eq!(text(&dr9[3]), "Yaw");
    assert_eq!(text(&dr9[11]), "+5%");
    m.aux_channels[0] = 12;
    m.aux_channels[5] = 7;
    let aux = aux_rows(&m);
    assert_eq!(text(&aux[0]), "CH5 : ");
    assert_eq!(text(&aux[1]), "SD");
    assert_eq!(text(&aux[10]), "CH10: ");
    assert_eq!(text(&aux[11]), "SA");
    m.mixes[0].target_ch = 12;
    m.mixes[0].source = 3;
    m.mixes[0].weight = -50;
    m.wing_tail_mix = 2;
    let w = wing_mixer_rows(&m);
    assert_eq!(text(&w[1]), "V-TAIL");
    assert_eq!(text(&w[4]), "M1: ");
    assert_eq!(text(&w[5]), "CH12");
    assert_eq!(text(&w[7]), "Thr");
    assert_eq!(text(&w[9]), "[DISABLED]");
    let ml = mix_line_rows(&m.mixes[0]);
    assert_eq!(text(&ml[1]), "CH12");
    assert_eq!(text(&ml[5]), "-50%");
    assert_eq!(text(&ml[11]), "ADD (+)");
}

#[test]
fn setup_screen_texts() {
    let mut m = ModelConfig::default_for_index(4);
    m.rx_id = 0xDEAD_BEEF;
    m.arm_switch = 3;
    let rows = model_setup_rows(&m);
    assert_eq!(rows.len(), 15);
    assert_eq!(text(&rows[4]), "AIRPLANE");
    assert_eq!(text(&rows[7]), "SB^");
    assert_eq!(text(&rows[10]), "DEADBEEF");
    let l = rx_setup_lines(&m, 4, 1, false);
    assert_eq!(text(&l[0]), " Proto: AFHDS 2A");
    assert_eq!(text(&l[1]), " M05: ");
    assert_eq!(text(&l[3]), ">[Bind: DEADBEEF]");
    assert_eq!(text(&l[4]), "[OK] Start Bind   [ESC] Exit");
    m.rf_protocol = 1;
    m.crsf_baud = 2;
    let c = rx_setup_lines(&m, 4, 1, true);
    assert_eq!(text(&c[1]), ">Baud: [115.2k (Low)]");
    assert_eq!(text(&c[3]), " [Configure Module]");
    assert_eq!(text(&c[4]), "[OK] Save   [UP/DN] Change");
}

#[test]
fn crc8_dvb_s2_check_values() {
    // Standard check value of CRC-8/DVB-S2 over the ASCII digits 1..9.
    assert_eq!(crc8(b"123456789"), 0xBC);
    assert_eq!(crc8(&[0x01]), 0xD5);
    assert_eq!(crc8(&[0x80]), 0xEF);
    assert_eq!(crc8(&[]), 0x00);
}

/// A Parameter Settings Entry frame for select parameter `pid` with the
/// options "25;50" and value `value`, in a single chunk.
fn select_entry_frame(pid: u8, value: u8) -> Vec<u8> {
    let mut body = vec![0x2B, 0xEA, 0xEE, pid, 0x00, 0x00, 0x09];
    body.extend_from_slice(b"Rate\0");
    body.extend_from_slice(b"25;50\0");
    body.push(value);
    let mut frame = vec![0xEA, (body.len() + 1) as u8];
    frame.extend_from_slice(&body);
    frame.push(crc8(&body));
    frame
}

#[test]
fn parameter_cache_keeps_ids_distinct() {
    let mut l = CrsfLink::new();
    l.set_enabled(true, 0);
    let mut tx = Vec::new();
    l.start_config(&mut tx);
    l.poll_telemetry(1, &select_entry_frame(1, 0), &mut tx);
    l.poll_telemetry(2, &select_entry_frame(2, 1), &mut tx);
    assert_eq!(l.get_config_engine().params_len, 2);
    // The same id again: updated in place, the count unchanged.
    l.poll_telemetry(3, &select_entry_frame(1, 1), &mut tx);
    let e = l.get_config_engine();
    assert_eq!(e.params_len, 2);
    assert_eq!(e.params[0].id, 1);
    assert_eq!(e.params[0].value, 1);
    assert_eq!(e.params[0].max_value, 1);
    assert_eq!(e.params[1].id, 2);
}
