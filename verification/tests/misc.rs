use flysky_i6x::audio::dfplayer::DfPlayer;
use flysky_i6x::crsf::protocol::CRSF_TYPE_SELECT;
use flysky_i6x::crsf::{CrsfLink, Parameter};
use flysky_i6x::ui::format::{format_percent, format_vbat, i8_to_dec, next_ascii, prev_ascii, u32_to_hex};
use flysky_i6x::usb::{UsbLink, UsbMode};

fn param_with_options(opts: &[u8], value: u8) -> Parameter {
    let mut p = Parameter::empty();
    p.param_type = CRSF_TYPE_SELECT;
    p.options[..opts.len()].copy_from_slice(opts);
    p.options_len = opts.len() as u8;
    p.value = value;
    p
}

#[test]
fn select_option_text() {
    let p = param_with_options(b"Off;25Hz;50Hz;100Hz", 2);
    let mut buf = [0u8; 16];
    let n = p.current_option_str(&mut buf);
    assert_eq!(&buf[..n], b"50Hz");
    let p = param_with_options(b"Off;25Hz", 5);
    assert_eq!(p.current_option_str(&mut [0u8; 16]), 0);
}

#[test]
fn select_option_text_must_be_utf8() {
    // A truncated multi-byte character is not shown.
    let p = param_with_options(&[0x41, 0x3B, 0xE2, 0x82], 1);
    let mut buf = [0u8; 16];
    assert_eq!(p.current_option_str(&mut buf), 0);
    // A complete one is.
    let p = param_with_options(&[0x41, 0x3B, 0xE2, 0x82, 0xAC], 1);
    let n = p.current_option_str(&mut buf);
    assert_eq!(&buf[..n], "\u{20AC}".as_bytes());
}

#[test]
fn crsf_link_pings_on_start() {
    let mut l = CrsfLink::new();
    assert!(l.set_enabled(true, 0));
    assert!(!l.set_enabled(true, 0));
    assert!(l.set_enabled(true, 2));
    let mut tx = Vec::new();
    l.start_config(&mut tx);
    assert_eq!(tx, vec![0xEE, 4, 0x28, 0x00, 0xEA, 0x54]);
    assert_eq!(tx[2], 0x28);
    assert!(l.set_enabled(false, 0));
    assert!(!l.is_enabled());
}

#[test]
fn text_formats() {
    let mut b6 = [0u8; 6];
    let n = format_vbat(4123, &mut b6);
    assert_eq!(&b6[..n], b"4.12V");
    let n = format_vbat(12600, &mut b6);
    assert_eq!(&b6[..n], b"12.60V");
    let mut b5 = [0u8; 5];
    let n = format_percent(-1000, &mut b5);
    assert_eq!(&b5[..n], b"-100%");
    let n = format_percent(55, &mut b5);
    assert_eq!(&b5[..n], b"+  5%");
    let n = i8_to_dec(-42, &mut b6);
    assert_eq!(&b6[..n], b"-42%");
    let mut h = [0u8; 8];
    u32_to_hex(0x00AB_12F0, &mut h);
    assert_eq!(&h, b"00AB12F0");
    assert_eq!(next_ascii(b' '), b'A');
    assert_eq!(prev_ascii(b' '), b'_');
}

#[test]
fn dfplayer_queues_commands() {
    let mut d = DfPlayer::new();
    d.set_volume(40);
    let mut out = Vec::new();
    while let Some(b) = d.pop_tx_byte() {
        out.push(b);
    }
    assert_eq!(out, vec![0x7E, 0xFF, 0x06, 0x06, 0x00, 0x00, 30, 0xEF]);
}

#[test]
fn usb_modes() {
    let mut u = UsbLink::new();
    assert_eq!(u.init(1), UsbMode::Joystick);
    assert!(u.is_sim_mode(true));
    assert!(!u.is_sim_mode(false));
    assert_eq!(u.init(7), UsbMode::Off);
    assert_eq!(UsbMode::Composite.as_str(), "COMPOSITE");
}
