use flysky_i6x::crsf::uart::{get_brr_for_baud, ModulePower, RxRing};
use flysky_i6x::rf::a7105::{
    init, is_crc_ok, read_fifo, read_raw_rssi, read_reg, set_power, strobe, write_fifo, write_id, write_reg,
    HIGH_POWER, REG_ID_DATA, STROBE_STANDBY, STROBE_TX,
};
use flysky_i6x::rf::afhds2a::{calculate_hopping_table, RF_MODE_OFF, RF_MODE_RX_EN, RF_MODE_TX_EN};
use flysky_i6x::rf::spi::{set_tx_rx_mode, AntennaSwitch};
use flysky_i6x::rf::TripleBuffer;

#[test]
fn register_frames() {
    assert_eq!(strobe(STROBE_STANDBY), [0xA0]);
    assert_eq!(write_reg(0x0F, 80), [0x0F, 80]);
    // Addresses keep 6 bits; reads set bit 6.
    assert_eq!(write_reg(0xCF, 1), [0x0F, 1]);
    assert_eq!(read_reg(0x10), [0x50, 0]);
    assert_eq!(read_raw_rssi(), [0x5D, 0]);
    assert_eq!(set_power(HIGH_POWER), [0x28, 0x1F]);
    assert_eq!(write_id(0x5475_C52A), [REG_ID_DATA, 0x54, 0x75, 0xC5, 0x2A]);
    assert!(is_crc_ok(0x00));
    assert!(!is_crc_ok(0x20));
}

#[test]
fn init_skips_unchanged_registers() {
    let p = init();
    assert_eq!(p.id_frame, [0x06, 0x54, 0x75, 0xC5, 0x2A]);
    // 50 entries, 7 of them left at their reset value.
    assert_eq!(p.reg_writes.len(), 43);
    assert_eq!(p.reg_writes[0], (0x01, 0xE2));
    assert!(p.reg_writes.iter().all(|&(a, v)| v != 0xFF && a < 50));
    assert_eq!(*p.reg_writes.last().unwrap(), (0x31, 0x0F));
}

#[test]
fn fifo_frames() {
    let w = write_fifo(&[1, 2, 3], 42);
    assert_eq!(w.standby, [STROBE_STANDBY]);
    assert_eq!(w.front_end, RF_MODE_TX_EN);
    assert_eq!(w.load, vec![0xE0, 0x05, 1, 2, 3]);
    assert_eq!(w.channel, [0x0F, 42]);
    assert_eq!(w.transmit, [STROBE_TX]);
    let r = read_fifo(4);
    assert_eq!(r.reset, [0xF0]);
    assert_eq!(r.frame, vec![0x45, 0, 0, 0, 0]);
}

#[test]
fn front_end_words() {
    // Transmit: PE8 high; receive: PE9 high; off: both.
    assert_eq!(set_tx_rx_mode(RF_MODE_TX_EN), 0x0300_0100);
    assert_eq!(set_tx_rx_mode(RF_MODE_RX_EN), 0x0300_0200);
    assert_eq!(set_tx_rx_mode(RF_MODE_OFF), 0x0300_0300);
    let mut a = AntennaSwitch::new();
    assert_eq!(a.switch_antenna(), (1 << 10) | (1 << 27));
    assert_eq!(a.switch_antenna(), (1 << 26) | (1 << 11));
    assert_eq!(a.state, 0);
}

#[test]
fn rx_ring_is_fifo_and_drops_when_full() {
    let mut r = RxRing::new();
    assert_eq!(r.read_byte(), None);
    for i in 0..127u8 {
        assert!(r.push(i));
    }
    assert!(!r.push(200));
    for i in 0..127u8 {
        assert_eq!(r.read_byte(), Some(i));
    }
    assert_eq!(r.read_byte(), None);
    // Wrapping around the end keeps the order.
    for i in 0..10u8 {
        assert!(r.push(i + 50));
    }
    assert_eq!(r.read_byte(), Some(50));
    r.clear();
    assert_eq!(r.read_byte(), None);
}

#[test]
fn module_power_pin_follows_polarity() {
    let mut p = ModulePower::new(true);
    assert!(p.set_module_power(true));
    assert!(!p.set_power_polarity(false));
    assert!(p.set_module_power(false));
    assert_eq!(get_brr_for_baud(0), 114);
    assert_eq!(get_brr_for_baud(3), 52);
    assert_eq!(get_brr_for_baud(9), 114);
}

#[test]
fn hopping_channels_in_band_and_distinct() {
    for id in [0u32, 1, 0x1234_5678, 0xFFFF_FFFF, 0xDEAD_BEEF] {
        let t = calculate_hopping_table(id);
        for (i, &a) in t.iter().enumerate() {
            assert!((1..=164).contains(&a), "channel {} of {:#x}", a, id);
            for &b in &t[i + 1..] {
                assert_ne!(a, b);
            }
        }
    }
}

#[test]
fn hopping_channels_spaced_five_apart() {
    for id in [0u32, 1, 0x1234_5678, 0xFFFF_FFFF, 0xDEAD_BEEF, 0x9C18_2804, 0x16CE_D3E0] {
        let t = calculate_hopping_table(id);
        for (i, &a) in t.iter().enumerate() {
            for &b in &t[i + 1..] {
                assert!(a.abs_diff(b) >= 5, "{} and {} in table of {:#x}", a, b, id);
            }
        }
    }
}

#[test]
fn triple_buffer_read_returns_last_write() {
    let mut b = TripleBuffer::new(7u32);
    assert_eq!(b.read(), 7);
    b.write(&1);
    b.write(&2);
    assert_eq!(b.read(), 2);
    assert_eq!(b.read(), 2);
    b.write(&3);
    assert_eq!(b.read(), 3);
}
