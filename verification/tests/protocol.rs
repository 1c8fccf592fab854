use flysky_i6x::crsf::protocol::{
    build_channels_frame, build_param_read_frame, build_param_write_frame, build_ping_frame, crc8,
    parse_telemetry_frame, rf_mode_to_str, us_to_crsf, CrsfTelemetry, CRSF_ADDRESS_BROADCAST,
    CRSF_ADDRESS_CRSF_TRANSMITTER, CRSF_ADDRESS_RADIO_TRANSMITTER, CRSF_CHANNEL_CENTER, CRSF_CHANNEL_MAX,
    CRSF_CHANNEL_MIN, CRSF_FRAMETYPE_BATTERY_SENSOR, CRSF_FRAMETYPE_DEVICE_PING,
    CRSF_FRAMETYPE_LINK_STATISTICS, CRSF_FRAMETYPE_PARAMETER_READ, CRSF_FRAMETYPE_PARAMETER_WRITE,
    CRSF_FRAMETYPE_RC_CHANNELS_PACKED, CRSF_RC_FRAME_SIZE,
};
use flysky_i6x::mixer::{CHANNEL_CENTER_US, CHANNEL_MAX_US, CHANNEL_MIN_US};
#[test]
fn test_crc8_dvb() {
    assert_eq!(crc8(&[0x00]), 0x00);
    // Test CRC repeatability
    let sample = [0x16, 0x01, 0x02, 0x03, 0x04];
    let c1 = crc8(&sample);
    let c2 = crc8(&sample);
    assert_eq!(c1, c2);
    assert_ne!(c1, 0);
}

#[test]
fn test_us_to_crsf_scaling() {
    assert_eq!(us_to_crsf(CHANNEL_MIN_US), CRSF_CHANNEL_MIN); // 988 -> 172
    assert_eq!(us_to_crsf(CHANNEL_CENTER_US), CRSF_CHANNEL_CENTER); // 1500 -> 992
    assert_eq!(us_to_crsf(CHANNEL_MAX_US), CRSF_CHANNEL_MAX); // 2012 -> 1811

    // Clamping bounds
    assert_eq!(us_to_crsf(800), CRSF_CHANNEL_MIN);
    assert_eq!(us_to_crsf(2200), CRSF_CHANNEL_MAX);
}

#[test]
fn test_build_channels_frame_and_unpack() {
    let channels: [u16; 14] = [
        CHANNEL_CENTER_US, // CH1 1500 -> 992
        CHANNEL_MIN_US,    // CH2 988  -> 172
        CHANNEL_MAX_US,    // CH3 2012 -> 1811
        1200,              // CH4
        1800,              // CH5
        1400,              // CH6
        1600,              // CH7
        1500,              // CH8
        988,               // CH9
        2012,              // CH10
        1500,              // CH11
        1500,              // CH12
        1500,              // CH13
        1500,              // CH14
    ];

    let mut frame = [0u8; CRSF_RC_FRAME_SIZE];
    let len = build_channels_frame(&channels, &mut frame);
    assert_eq!(len, CRSF_RC_FRAME_SIZE);

    // Header check
    assert_eq!(frame[0], CRSF_ADDRESS_CRSF_TRANSMITTER);
    assert_eq!(frame[1], 24);
    assert_eq!(frame[2], CRSF_FRAMETYPE_RC_CHANNELS_PACKED);

    // CRC check
    assert_eq!(frame[25], crc8(&frame[2..25]));

    // Unpack 16 channels from 22 bytes (bits 0..176)
    let p = &frame[3..25];
    let mut unpacked = [0u16; 16];
    unpacked[0] = ((p[0] as u16) | ((p[1] as u16) << 8)) & 0x07FF;
    unpacked[1] = (((p[1] as u16) >> 3) | ((p[2] as u16) << 5)) & 0x07FF;
    unpacked[2] = (((p[2] as u16) >> 6) | ((p[3] as u16) << 2) | ((p[4] as u16) << 10)) & 0x07FF;
    unpacked[3] = (((p[4] as u16) >> 1) | ((p[5] as u16) << 7)) & 0x07FF;
    unpacked[4] = (((p[5] as u16) >> 4) | ((p[6] as u16) << 4)) & 0x07FF;
    unpacked[5] = (((p[6] as u16) >> 7) | ((p[7] as u16) << 1) | ((p[8] as u16) << 9)) & 0x07FF;
    unpacked[6] = (((p[8] as u16) >> 2) | ((p[9] as u16) << 6)) & 0x07FF;
    unpacked[7] = ((p[9] as u16) >> 5) | ((p[10] as u16) << 3) & 0x07FF;

    // Verify unpacked values match expected CRSF counts
    assert_eq!(unpacked[0], us_to_crsf(channels[0]));
    assert_eq!(unpacked[1], us_to_crsf(channels[1]));
    assert_eq!(unpacked[2], us_to_crsf(channels[2]));
    assert_eq!(unpacked[3], us_to_crsf(channels[3]));
}

#[test]
fn test_parse_telemetry_link_statistics() {
    let mut telem = CrsfTelemetry::new();
    // Construct Link Statistics frame:
    // [addr=0xEA, len=12, type=0x14, rssi1=80 (-80dBm), rssi2=85 (-85dBm), lq=99, snr=10, ant=0, rf_mode=2, pwr=3 (100mW), ...]
    let mut frame = [0u8; 14];
    frame[0] = CRSF_ADDRESS_RADIO_TRANSMITTER;
    frame[1] = 12; // type + 10 bytes payload + crc
    frame[2] = CRSF_FRAMETYPE_LINK_STATISTICS;
    frame[3] = 80; // RSSI1: 80 -> -80 dBm
    frame[4] = 85; // RSSI2: 85 -> -85 dBm
    frame[5] = 99; // LQ: 99%
    frame[6] = 10; // SNR: +10 dB
    frame[7] = 0;  // Antenna 0
    frame[8] = 2;  // RF Mode 2
    frame[9] = 3;  // Power code 3 -> 100 mW
    frame[10] = 0;
    frame[11] = 0;
    frame[12] = 0;
    frame[13] = crc8(&frame[2..13]);

    let success = parse_telemetry_frame(&frame, &mut telem, 1000);
    assert!(success);
    assert_eq!(telem.uplink_rssi_1, -80);
    assert_eq!(telem.uplink_rssi_2, -85);
    assert_eq!(telem.uplink_link_quality, 99);
    assert_eq!(telem.uplink_snr, 10);
    assert_eq!(telem.tx_power_mw, 100);

    // Corrupt CRC and verify rejection
    frame[13] ^= 0xFF;
    let fail = parse_telemetry_frame(&frame, &mut telem, 2000);
    assert!(!fail);
}

#[test]
fn test_parse_telemetry_battery_sensor() {
    let mut telem = CrsfTelemetry::new();
    // Battery Sensor frame: [addr=0xEA, len=10, type=0x08, v=126 (12.6V), c=35 (3.5A), cap=1500 (0x0005DC), pct=85, crc]
    let mut frame = [0u8; 12];
    frame[0] = CRSF_ADDRESS_RADIO_TRANSMITTER;
    frame[1] = 10; // type(1) + 8 payload + crc(1)
    frame[2] = CRSF_FRAMETYPE_BATTERY_SENSOR;
    frame[3] = 0;   // Voltage high byte (126 = 0x007E)
    frame[4] = 126; // Voltage low byte -> 126 * 100 = 12,600 mV
    frame[5] = 0;   // Current high byte (35 = 0x0023)
    frame[6] = 35;  // Current low byte -> 35 * 100 = 3,500 mA
    frame[7] = 0x00; // Capacity byte 2 (1500 = 0x0005DC)
    frame[8] = 0x05; // Capacity byte 1
    frame[9] = 0xDC; // Capacity byte 0 -> 1500 mAh
    frame[10] = 85;  // 85% remaining
    frame[11] = crc8(&frame[2..11]);

    let success = parse_telemetry_frame(&frame, &mut telem, 1500);
    assert!(success);
    assert_eq!(telem.rx_battery_mv, 12600);
    assert_eq!(telem.rx_current_ma, 3500);
    assert_eq!(telem.rx_capacity_mah, 1500);
    assert_eq!(telem.rx_battery_pct, 85);
    assert!(telem.connected);
    assert_eq!(telem.last_telemetry_ms, 1500);

    // Truncated payload (< 8 bytes)
    let mut short_frame = [0u8; 8];
    short_frame[0] = CRSF_ADDRESS_RADIO_TRANSMITTER;
    short_frame[1] = 6;
    short_frame[2] = CRSF_FRAMETYPE_BATTERY_SENSOR;
    short_frame[7] = crc8(&short_frame[2..7]);
    assert!(!parse_telemetry_frame(&short_frame, &mut telem, 1600));
}

#[test]
fn test_build_ping_frame_wire_spec() {
    let mut buf = [0u8; 8];
    let len = build_ping_frame(&mut buf);
    assert_eq!(len, 6);
    assert_eq!(buf[0], CRSF_ADDRESS_CRSF_TRANSMITTER); // 0xEE
    assert_eq!(buf[1], 4);
    assert_eq!(buf[2], CRSF_FRAMETYPE_DEVICE_PING); // 0x28
    assert_eq!(buf[3], CRSF_ADDRESS_BROADCAST); // 0x00
    assert_eq!(buf[4], CRSF_ADDRESS_RADIO_TRANSMITTER); // 0xEA
    assert_eq!(buf[5], 0x54, "Ping CRC8 over [0x28, 0x00, 0xEA] is 0x54");
}

#[test]
fn test_build_param_read_and_write_frames() {
    let mut read_buf = [0u8; 8];
    let read_len = build_param_read_frame(CRSF_ADDRESS_CRSF_TRANSMITTER, 3, 1, &mut read_buf);
    assert_eq!(read_len, 8);
    assert_eq!(read_buf[0], CRSF_ADDRESS_CRSF_TRANSMITTER);
    assert_eq!(read_buf[1], 6);
    assert_eq!(read_buf[2], CRSF_FRAMETYPE_PARAMETER_READ);
    assert_eq!(read_buf[3], CRSF_ADDRESS_CRSF_TRANSMITTER);
    assert_eq!(read_buf[4], CRSF_ADDRESS_RADIO_TRANSMITTER);
    assert_eq!(read_buf[5], 3); // param_id
    assert_eq!(read_buf[6], 1); // chunk
    assert_eq!(read_buf[7], crc8(&read_buf[2..7]));

    let mut write_buf = [0u8; 8];
    let write_len = build_param_write_frame(CRSF_ADDRESS_CRSF_TRANSMITTER, 3, 42, &mut write_buf);
    assert_eq!(write_len, 8);
    assert_eq!(write_buf[2], CRSF_FRAMETYPE_PARAMETER_WRITE);
    assert_eq!(write_buf[5], 3);
    assert_eq!(write_buf[6], 42); // value
    assert_eq!(write_buf[7], crc8(&write_buf[2..7]));
}

#[test]
fn test_rf_mode_strings() {
    assert_eq!(rf_mode_to_str(0), "4Hz");
    assert_eq!(rf_mode_to_str(2), "50Hz");
    assert_eq!(rf_mode_to_str(3), "100Hz");
    assert_eq!(rf_mode_to_str(7), "250Hz");
    assert_eq!(rf_mode_to_str(9), "500Hz");
    assert_eq!(rf_mode_to_str(13), "F1000");
    assert_eq!(rf_mode_to_str(99), "---");
}
