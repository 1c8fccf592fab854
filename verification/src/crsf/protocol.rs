//! CRSF / ExpressLRS framing: CRC-8 (DVB-S2), channel scaling and 11-bit
//! channel packing, telemetry frame parsing and the parameter frames used to
//! configure a module.
use vstd::prelude::*;
use crate::arith::clamp;

verus! {

pub const CRSF_CHANNEL_MIN: u16 = 172;
pub const CRSF_CHANNEL_CENTER: u16 = 992;
pub const CRSF_CHANNEL_MAX: u16 = 1811;
pub const CRSF_CHANNEL_SPAN: u32 = 1639;
pub const CRSF_CHANNEL_VALUE_MAX: u16 = 2047;

pub const CRSF_SYNC_BYTE: u8 = 0xC8;
pub const CRSF_ADDRESS_BROADCAST: u8 = 0x00;
pub const CRSF_ADDRESS_CRSF_TRANSMITTER: u8 = 0xEE;
pub const CRSF_ADDRESS_RADIO_TRANSMITTER: u8 = 0xEA;
pub const CRSF_ADDRESS_CRSF_RECEIVER: u8 = 0xEC;
pub const CRSF_ADDRESS_FLIGHT_CONTROLLER: u8 = 0xC8;

pub const CRSF_FRAMETYPE_GPS: u8 = 0x02;
pub const CRSF_FRAMETYPE_BATTERY_SENSOR: u8 = 0x08;
pub const CRSF_FRAMETYPE_HEARTBEAT: u8 = 0x0B;
pub const CRSF_FRAMETYPE_LINK_STATISTICS: u8 = 0x14;
pub const CRSF_FRAMETYPE_RC_CHANNELS_PACKED: u8 = 0x16;
pub const CRSF_FRAMETYPE_DEVICE_PING: u8 = 0x28;
pub const CRSF_FRAMETYPE_DEVICE_INFO: u8 = 0x29;
pub const CRSF_FRAMETYPE_PARAMETER_SETTINGS_ENTRY: u8 = 0x2B;
pub const CRSF_FRAMETYPE_PARAMETER_READ: u8 = 0x2C;
pub const CRSF_FRAMETYPE_PARAMETER_WRITE: u8 = 0x2D;
pub const CRSF_FRAMETYPE_ELRS_STATUS: u8 = 0x2E;

pub const CRSF_TYPE_UINT8: u8 = 0;
pub const CRSF_TYPE_INT8: u8 = 1;
pub const CRSF_TYPE_UINT16: u8 = 2;
pub const CRSF_TYPE_INT16: u8 = 3;
pub const CRSF_TYPE_FLOAT: u8 = 8;
pub const CRSF_TYPE_SELECT: u8 = 9;
pub const CRSF_TYPE_STRING: u8 = 10;
pub const CRSF_TYPE_FOLDER: u8 = 11;
pub const CRSF_TYPE_INFO: u8 = 12;
pub const CRSF_TYPE_COMMAND: u8 = 13;
pub const CRSF_TYPE_BACK: u8 = 14;

pub const STATUS_READY: u8 = 0;
pub const STATUS_START: u8 = 1;
pub const STATUS_PROGRESS: u8 = 2;
pub const STATUS_CONFIRMATION_NEEDED: u8 = 3;
pub const STATUS_CONFIRM: u8 = 4;
pub const STATUS_CANCEL: u8 = 5;
pub const STATUS_POLL: u8 = 6;

pub const CRSF_FRAME_MAX_SIZE: usize = 64;
pub const CRSF_RC_FRAME_SIZE: usize = 26;

/// Telemetry decoded from the CRSF link.
#[derive(Copy, Clone, Debug, PartialEq, Eq, Structural)]
pub struct CrsfTelemetry {
    pub connected: bool,
    pub uplink_rssi_1: i8,
    pub uplink_rssi_2: i8,
    pub uplink_link_quality: u8,
    pub uplink_snr: i8,
    pub active_antenna: u8,
    pub rf_mode: u8,
    pub tx_power_mw: u16,
    pub rx_battery_mv: u16,
    pub rx_current_ma: u16,
    pub rx_capacity_mah: u32,
    pub rx_battery_pct: u8,
    pub last_telemetry_ms: u32,
}

/// Nothing received yet: every field zero, not connected.
pub open spec fn telemetry_empty() -> CrsfTelemetry {
    CrsfTelemetry {
        connected: false,
        uplink_rssi_1: 0,
        uplink_rssi_2: 0,
        uplink_link_quality: 0,
        uplink_snr: 0,
        active_antenna: 0,
        rf_mode: 0,
        tx_power_mw: 0,
        rx_battery_mv: 0,
        rx_current_ma: 0,
        rx_capacity_mah: 0,
        rx_battery_pct: 0,
        last_telemetry_ms: 0,
    }
}

impl CrsfTelemetry {
    pub fn new() -> (t: Self)
        ensures
            t == telemetry_empty(),
    {
        CrsfTelemetry {
            connected: false,
            uplink_rssi_1: 0,
            uplink_rssi_2: 0,
            uplink_link_quality: 0,
            uplink_snr: 0,
            active_antenna: 0,
            rf_mode: 0,
            tx_power_mw: 0,
            rx_battery_mv: 0,
            rx_current_ma: 0,
            rx_capacity_mah: 0,
            rx_battery_pct: 0,
            last_telemetry_ms: 0,
        }
    }
}

/// One bit of the CRC-8/DVB-S2 division (polynomial 0xD5, no reflection):
/// shift the register left, and when its top bit falls out, xor the
/// polynomial.
pub open spec fn crc_step(c: u8) -> u8 {
    if c & 0x80u8 != 0 {
        (c << 1u8) ^ 0xD5u8
    } else {
        c << 1u8
    }
}

/// The register after dividing in one byte: eight steps.
pub open spec fn crc_byte(c: u8) -> u8 {
    crc_step(crc_step(crc_step(crc_step(crc_step(crc_step(crc_step(crc_step(c))))))))
}

/// CRC-8/DVB-S2 of a byte sequence: the register starts at zero, and each
/// byte is xored into it and divided through.
pub open spec fn crc8_spec(data: Seq<u8>) -> u8
    decreases data.len(),
{
    if data.len() == 0 {
        0
    } else {
        crc_byte(crc8_spec(data.drop_last()) ^ data.last())
    }
}

fn crc_shift(c: u8) -> (r: u8)
    ensures
        r == crc_step(c),
{
    if c & 0x80 != 0 {
        (c << 1u8) ^ 0xD5
    } else {
        c << 1u8
    }
}

fn crc_update(crc: u8, b: u8) -> (r: u8)
    ensures
        r == crc_byte(crc ^ b),
{
    let mut c = crc ^ b;
    let mut k: u8 = 0;
    while k < 8
        invariant
            k <= 8,
            k == 0 ==> c == crc ^ b,
            k == 1 ==> c == crc_step(crc ^ b),
            k == 2 ==> c == crc_step(crc_step(crc ^ b)),
            k == 3 ==> c == crc_step(crc_step(crc_step(crc ^ b))),
            k == 4 ==> c == crc_step(crc_step(crc_step(crc_step(crc ^ b)))),
            k == 5 ==> c == crc_step(crc_step(crc_step(crc_step(crc_step(crc ^ b))))),
            k == 6 ==> c == crc_step(crc_step(crc_step(crc_step(crc_step(crc_step(crc ^ b)))))),
            k == 7 ==> c == crc_step(crc_step(crc_step(crc_step(crc_step(crc_step(crc_step(crc ^ b))))))),
            k == 8 ==> c == crc_byte(crc ^ b),
        decreases 8 - k,
    {
        c = crc_shift(c);
        k = k + 1;
    }
    c
}

/// CRC-8/DVB-S2 over `data[lo..hi]`.
pub fn crc8_range(data: &[u8], lo: usize, hi: usize) -> (crc: u8)
    requires
        lo <= hi <= data@.len(),
    ensures
        crc == crc8_spec(data@.subrange(lo as int, hi as int)),
{
    let mut crc: u8 = 0;
    let mut i = lo;
    while i < hi
        invariant
            lo <= i <= hi <= data@.len(),
            crc == crc8_spec(data@.subrange(lo as int, i as int)),
        decreases hi - i,
    {
        assert(data@.subrange(lo as int, i + 1).drop_last() =~= data@.subrange(lo as int, i as int));
        crc = crc_update(crc, data[i]);
        i = i + 1;
    }
    crc
}

/// Calculate CRC-8/DVB-S2 over a slice of bytes.
pub fn crc8(data: &[u8]) -> (crc: u8)
    ensures
        crc == crc8_spec(data@),
{
    let c = crc8_range(data, 0, data.len());
    assert(data@.subrange(0, data@.len() as int) =~= data@);
    c
}

/// CRSF channel count for a pulse width: 988..=2012 microseconds mapped
/// linearly (rounded to nearest) onto 172..=1811.
pub open spec fn crsf_of_us(us: u16) -> int {
    ((clamp(us as int, 988, 2012) - 988) * 1639 + 512) / 1024 + 172
}

/// Convert a pulse width in microseconds into an 11-bit CRSF channel value.
pub fn us_to_crsf(us: u16) -> (v: u16)
    ensures
        v as int == crsf_of_us(us),
        CRSF_CHANNEL_MIN <= v <= CRSF_CHANNEL_MAX,
{
    let clamped: i32 = if us < 988 { 988 } else if us > 2012 { 2012 } else { us as i32 };
    assert(0 <= (clamped - 988) * 1639 <= 1024 * 1639) by (nonlinear_arith)
        requires
            988 <= clamped <= 2012,
    ;
    let val = ((clamped - 988) * 1639 + 512) / 1024 + 172;
    assert(172 <= val <= 1811) by (nonlinear_arith)
        requires
            0 <= (clamped - 988) * 1639 <= 1024 * 1639,
            val == ((clamped - 988) * 1639 + 512) / 1024 + 172,
    ;
    val as u16
}

/// The 16 CRSF channel values of a frame: the 14 radio channels scaled,
/// channels 15 and 16 at the neutral value.
pub open spec fn frame_channels(channels: Seq<u16>) -> Seq<u16> {
    Seq::new(16, |i: int| if i < 14 { crsf_of_us(channels[i]) as u16 } else { CRSF_CHANNEL_CENTER })
}

/// 16 channels of 11 bits packed least significant bit first into 22 bytes.
pub open spec fn packed_payload(c: Seq<u16>) -> Seq<u8> {
    seq![
        (c[0] & 0x07FF) as u8,
        ((c[0] >> 8) | (c[1] << 3)) as u8,
        ((c[1] >> 5) | (c[2] << 6)) as u8,
        (c[2] >> 2) as u8,
        ((c[2] >> 10) | (c[3] << 1)) as u8,
        ((c[3] >> 7) | (c[4] << 4)) as u8,
        ((c[4] >> 4) | (c[5] << 7)) as u8,
        (c[5] >> 1) as u8,
        ((c[5] >> 9) | (c[6] << 2)) as u8,
        ((c[6] >> 6) | (c[7] << 5)) as u8,
        (c[7] >> 3) as u8,
        (c[8] & 0x07FF) as u8,
        ((c[8] >> 8) | (c[9] << 3)) as u8,
        ((c[9] >> 5) | (c[10] << 6)) as u8,
        (c[10] >> 2) as u8,
        ((c[10] >> 10) | (c[11] << 1)) as u8,
        ((c[11] >> 7) | (c[12] << 4)) as u8,
        ((c[12] >> 4) | (c[13] << 7)) as u8,
        (c[13] >> 1) as u8,
        ((c[13] >> 9) | (c[14] << 2)) as u8,
        ((c[14] >> 6) | (c[15] << 5)) as u8,
        (c[15] >> 3) as u8,
    ]
}

/// Build the packed 16-channel RC frame (type 0x16): address, length 24,
/// type, the 22-byte payload, and the CRC over type and payload.
pub fn build_channels_frame(channels: &[u16; 14], out_frame: &mut [u8; 26]) -> (n: usize)
    ensures
        n == CRSF_RC_FRAME_SIZE,
        final(out_frame)@[0] == CRSF_ADDRESS_CRSF_TRANSMITTER,
        final(out_frame)@[1] == 24,
        final(out_frame)@[2] == CRSF_FRAMETYPE_RC_CHANNELS_PACKED,
        final(out_frame)@.subrange(3, 25) == packed_payload(frame_channels(channels@)),
        final(out_frame)@[25] == crc8_spec(final(out_frame)@.subrange(2, 25)),
{
    out_frame[0] = CRSF_ADDRESS_CRSF_TRANSMITTER;
    out_frame[1] = 24;
    out_frame[2] = CRSF_FRAMETYPE_RC_CHANNELS_PACKED;
    let mut c = [CRSF_CHANNEL_CENTER; 16];
    let mut i: usize = 0;
    while i < 14
        invariant
            0 <= i <= 14,
            forall|k: int| 0 <= k < i ==> #[trigger] c@[k] as int == crsf_of_us(channels@[k]),
            forall|k: int| 14 <= k < 16 ==> #[trigger] c@[k] == CRSF_CHANNEL_CENTER,
        decreases 14 - i,
    {
        c[i] = us_to_crsf(channels[i]);
        i = i + 1;
    }
    assert(c@ =~= frame_channels(channels@));
    out_frame[3] = (c[0] & 0x07FF) as u8;
    out_frame[4] = ((c[0] >> 8) | (c[1] << 3)) as u8;
    out_frame[5] = ((c[1] >> 5) | (c[2] << 6)) as u8;
    out_frame[6] = (c[2] >> 2) as u8;
    out_frame[7] = ((c[2] >> 10) | (c[3] << 1)) as u8;
    out_frame[8] = ((c[3] >> 7) | (c[4] << 4)) as u8;
    out_frame[9] = ((c[4] >> 4) | (c[5] << 7)) as u8;
    out_frame[10] = (c[5] >> 1) as u8;
    out_frame[11] = ((c[5] >> 9) | (c[6] << 2)) as u8;
    out_frame[12] = ((c[6] >> 6) | (c[7] << 5)) as u8;
    out_frame[13] = (c[7] >> 3) as u8;
    out_frame[14] = (c[8] & 0x07FF) as u8;
    out_frame[15] = ((c[8] >> 8) | (c[9] << 3)) as u8;
    out_frame[16] = ((c[9] >> 5) | (c[10] << 6)) as u8;
    out_frame[17] = (c[10] >> 2) as u8;
    out_frame[18] = ((c[10] >> 10) | (c[11] << 1)) as u8;
    out_frame[19] = ((c[11] >> 7) | (c[12] << 4)) as u8;
    out_frame[20] = ((c[12] >> 4) | (c[13] << 7)) as u8;
    out_frame[21] = (c[13] >> 1) as u8;
    out_frame[22] = ((c[13] >> 9) | (c[14] << 2)) as u8;
    out_frame[23] = ((c[14] >> 6) | (c[15] << 5)) as u8;
    out_frame[24] = (c[15] >> 3) as u8;
    assert(out_frame@.subrange(3, 25) =~= packed_payload(c@));
    let ghost before = out_frame@;
    let crc = crc8_range(out_frame, 2, 25);
    out_frame[25] = crc;
    assert(out_frame@.subrange(2, 25) =~= before.subrange(2, 25));
    assert(out_frame@.subrange(3, 25) =~= before.subrange(3, 25));
    CRSF_RC_FRAME_SIZE
}


/// Channel `i` read back from a packed payload: 11 bits starting at bit
/// `11 * i`, least significant bit first.
pub open spec fn unpack_channel(p: Seq<u8>, i: int) -> u16 {
    let a = (11 * i) / 8;
    let s = (11 * i) % 8;
    let b0 = (p[a] as u32) >> (s as u32);
    let b1 = (p[a + 1] as u32) << ((8 - s) as u32);
    let b2 = if a + 2 < 22 { (p[a + 2] as u32) << ((16 - s) as u32) } else { 0u32 };
    ((b0 | b1 | b2) & 0x7FFu32) as u16
}

/// Packing is lossless: every 11-bit channel value is read back unchanged
/// from the packed payload.
pub proof fn lemma_unpack_packed(c: Seq<u16>)
    requires
        c.len() == 16,
        forall|i: int| 0 <= i < 16 ==> #[trigger] c[i] < 2048,
    ensures
        forall|i: int| 0 <= i < 16 ==> #[trigger] unpack_channel(packed_payload(c), i) == c[i],
{
    let c0: u16 = c[0];
    let c1: u16 = c[1];
    let c2: u16 = c[2];
    let c3: u16 = c[3];
    let c4: u16 = c[4];
    let c5: u16 = c[5];
    let c6: u16 = c[6];
    let c7: u16 = c[7];
    let c8: u16 = c[8];
    let c9: u16 = c[9];
    let c10: u16 = c[10];
    let c11: u16 = c[11];
    let c12: u16 = c[12];
    let c13: u16 = c[13];
    let c14: u16 = c[14];
    let c15: u16 = c[15];
    assert(c0 < 2048 && c1 < 2048 && c2 < 2048 && c3 < 2048 && c4 < 2048 && c5 < 2048 && c6 < 2048 && c7 < 2048);
    assert(c8 < 2048 && c9 < 2048 && c10 < 2048 && c11 < 2048 && c12 < 2048 && c13 < 2048 && c14 < 2048 && c15 < 2048);
    assert((((((c0 & 0x07FF) as u8) as u32) >> 0u32) | (((((c0 >> 8) | (c1 << 3)) as u8) as u32) << 8u32) | (((((c1 >> 5) | (c2 << 6)) as u8) as u32) << 16u32)) & 0x7FFu32 == c0 as u32) by (bit_vector)
        requires
            c0 < 2048,
            c1 < 2048,
            c2 < 2048,
    ;
    assert(((((((c0 >> 8) | (c1 << 3)) as u8) as u32) >> 3u32) | (((((c1 >> 5) | (c2 << 6)) as u8) as u32) << 5u32) | ((((c2 >> 2) as u8) as u32) << 13u32)) & 0x7FFu32 == c1 as u32) by (bit_vector)
        requires
            c0 < 2048,
            c1 < 2048,
            c2 < 2048,
    ;
    assert(((((((c1 >> 5) | (c2 << 6)) as u8) as u32) >> 6u32) | ((((c2 >> 2) as u8) as u32) << 2u32) | (((((c2 >> 10) | (c3 << 1)) as u8) as u32) << 10u32)) & 0x7FFu32 == c2 as u32) by (bit_vector)
        requires
            c1 < 2048,
            c2 < 2048,
            c3 < 2048,
    ;
    assert(((((((c2 >> 10) | (c3 << 1)) as u8) as u32) >> 1u32) | (((((c3 >> 7) | (c4 << 4)) as u8) as u32) << 7u32) | (((((c4 >> 4) | (c5 << 7)) as u8) as u32) << 15u32)) & 0x7FFu32 == c3 as u32) by (bit_vector)
        requires
            c2 < 2048,
            c3 < 2048,
            c4 < 2048,
            c5 < 2048,
    ;
    assert(((((((c3 >> 7) | (c4 << 4)) as u8) as u32) >> 4u32) | (((((c4 >> 4) | (c5 << 7)) as u8) as u32) << 4u32) | ((((c5 >> 1) as u8) as u32) << 12u32)) & 0x7FFu32 == c4 as u32) by (bit_vector)
        requires
            c3 < 2048,
            c4 < 2048,
            c5 < 2048,
    ;
    assert(((((((c4 >> 4) | (c5 << 7)) as u8) as u32) >> 7u32) | ((((c5 >> 1) as u8) as u32) << 1u32) | (((((c5 >> 9) | (c6 << 2)) as u8) as u32) << 9u32)) & 0x7FFu32 == c5 as u32) by (bit_vector)
        requires
            c4 < 2048,
            c5 < 2048,
            c6 < 2048,
    ;
    assert(((((((c5 >> 9) | (c6 << 2)) as u8) as u32) >> 2u32) | (((((c6 >> 6) | (c7 << 5)) as u8) as u32) << 6u32) | ((((c7 >> 3) as u8) as u32) << 14u32)) & 0x7FFu32 == c6 as u32) by (bit_vector)
        requires
            c5 < 2048,
            c6 < 2048,
            c7 < 2048,
    ;
    assert(((((((c6 >> 6) | (c7 << 5)) as u8) as u32) >> 5u32) | ((((c7 >> 3) as u8) as u32) << 3u32) | ((((c8 & 0x07FF) as u8) as u32) << 11u32)) & 0x7FFu32 == c7 as u32) by (bit_vector)
        requires
            c6 < 2048,
            c7 < 2048,
            c8 < 2048,
    ;
    assert((((((c8 & 0x07FF) as u8) as u32) >> 0u32) | (((((c8 >> 8) | (c9 << 3)) as u8) as u32) << 8u32) | (((((c9 >> 5) | (c10 << 6)) as u8) as u32) << 16u32)) & 0x7FFu32 == c8 as u32) by (bit_vector)
        requires
            c8 < 2048,
            c9 < 2048,
            c10 < 2048,
    ;
    assert(((((((c8 >> 8) | (c9 << 3)) as u8) as u32) >> 3u32) | (((((c9 >> 5) | (c10 << 6)) as u8) as u32) << 5u32) | ((((c10 >> 2) as u8) as u32) << 13u32)) & 0x7FFu32 == c9 as u32) by (bit_vector)
        requires
            c8 < 2048,
            c9 < 2048,
            c10 < 2048,
    ;
    assert(((((((c9 >> 5) | (c10 << 6)) as u8) as u32) >> 6u32) | ((((c10 >> 2) as u8) as u32) << 2u32) | (((((c10 >> 10) | (c11 << 1)) as u8) as u32) << 10u32)) & 0x7FFu32 == c10 as u32) by (bit_vector)
        requires
            c9 < 2048,
            c10 < 2048,
            c11 < 2048,
    ;
    assert(((((((c10 >> 10) | (c11 << 1)) as u8) as u32) >> 1u32) | (((((c11 >> 7) | (c12 << 4)) as u8) as u32) << 7u32) | (((((c12 >> 4) | (c13 << 7)) as u8) as u32) << 15u32)) & 0x7FFu32 == c11 as u32) by (bit_vector)
        requires
            c10 < 2048,
            c11 < 2048,
            c12 < 2048,
            c13 < 2048,
    ;
    assert(((((((c11 >> 7) | (c12 << 4)) as u8) as u32) >> 4u32) | (((((c12 >> 4) | (c13 << 7)) as u8) as u32) << 4u32) | ((((c13 >> 1) as u8) as u32) << 12u32)) & 0x7FFu32 == c12 as u32) by (bit_vector)
        requires
            c11 < 2048,
            c12 < 2048,
            c13 < 2048,
    ;
    assert(((((((c12 >> 4) | (c13 << 7)) as u8) as u32) >> 7u32) | ((((c13 >> 1) as u8) as u32) << 1u32) | (((((c13 >> 9) | (c14 << 2)) as u8) as u32) << 9u32)) & 0x7FFu32 == c13 as u32) by (bit_vector)
        requires
            c12 < 2048,
            c13 < 2048,
            c14 < 2048,
    ;
    assert(((((((c13 >> 9) | (c14 << 2)) as u8) as u32) >> 2u32) | (((((c14 >> 6) | (c15 << 5)) as u8) as u32) << 6u32) | ((((c15 >> 3) as u8) as u32) << 14u32)) & 0x7FFu32 == c14 as u32) by (bit_vector)
        requires
            c13 < 2048,
            c14 < 2048,
            c15 < 2048,
    ;
    assert(((((((c14 >> 6) | (c15 << 5)) as u8) as u32) >> 5u32) | ((((c15 >> 3) as u8) as u32) << 3u32) | 0u32) & 0x7FFu32 == c15 as u32) by (bit_vector)
        requires
            c14 < 2048,
            c15 < 2048,
    ;
    let p = packed_payload(c);
    assert forall|i: int| 0 <= i < 16 implies #[trigger] unpack_channel(p, i) == c[i] by {
        if i == 0 { assert(unpack_channel(p, 0) == c0); } else if i == 1 { assert(unpack_channel(p, 1) == c1); } else if i == 2 { assert(unpack_channel(p, 2) == c2); } else if i == 3 { assert(unpack_channel(p, 3) == c3); } else if i == 4 { assert(unpack_channel(p, 4) == c4); } else if i == 5 { assert(unpack_channel(p, 5) == c5); } else if i == 6 { assert(unpack_channel(p, 6) == c6); } else if i == 7 { assert(unpack_channel(p, 7) == c7); } else if i == 8 { assert(unpack_channel(p, 8) == c8); } else if i == 9 { assert(unpack_channel(p, 9) == c9); } else if i == 10 { assert(unpack_channel(p, 10) == c10); } else if i == 11 { assert(unpack_channel(p, 11) == c11); } else if i == 12 { assert(unpack_channel(p, 12) == c12); } else if i == 13 { assert(unpack_channel(p, 13) == c13); } else if i == 14 { assert(unpack_channel(p, 14) == c14); } else { assert(unpack_channel(p, 15) == c15); }
    }
}

/// Every channel of a built RC frame unpacks to the scaled value of the
/// corresponding radio channel; channels 15 and 16 read back as neutral.
pub proof fn lemma_channels_frame_roundtrip(channels: Seq<u16>, frame: Seq<u8>)
    requires
        channels.len() == 14,
        frame.len() == 26,
        frame.subrange(3, 25) == packed_payload(frame_channels(channels)),
    ensures
        forall|i: int| 0 <= i < 14 ==> #[trigger] unpack_channel(frame.subrange(3, 25), i) as int == crsf_of_us(channels[i]),
        unpack_channel(frame.subrange(3, 25), 14) == CRSF_CHANNEL_CENTER,
        unpack_channel(frame.subrange(3, 25), 15) == CRSF_CHANNEL_CENTER,
{
    let c = frame_channels(channels);
    assert forall|i: int| 0 <= i < 16 implies #[trigger] c[i] < 2048 by {
        if i < 14 {
            assert(crsf_of_us(channels[i]) <= 1811) by (nonlinear_arith)
                requires
                    crsf_of_us(channels[i]) == ((clamp(channels[i] as int, 988, 2012) - 988) * 1639 + 512) / 1024 + 172,
                    988 <= clamp(channels[i] as int, 988, 2012) <= 2012,
            ;
            assert(crsf_of_us(channels[i]) >= 0) by (nonlinear_arith)
                requires
                    crsf_of_us(channels[i]) == ((clamp(channels[i] as int, 988, 2012) - 988) * 1639 + 512) / 1024 + 172,
                    988 <= clamp(channels[i] as int, 988, 2012) <= 2012,
            ;
        }
    }
    lemma_unpack_packed(c);
    assert forall|i: int| 0 <= i < 14 implies #[trigger] unpack_channel(frame.subrange(3, 25), i) as int == crsf_of_us(channels[i]) by {
        assert(unpack_channel(packed_payload(c), i) == c[i]);
        assert(crsf_of_us(channels[i]) <= 1811) by (nonlinear_arith)
            requires
                crsf_of_us(channels[i]) == ((clamp(channels[i] as int, 988, 2012) - 988) * 1639 + 512) / 1024 + 172,
                988 <= clamp(channels[i] as int, 988, 2012) <= 2012,
        ;
        assert(crsf_of_us(channels[i]) >= 0) by (nonlinear_arith)
            requires
                crsf_of_us(channels[i]) == ((clamp(channels[i] as int, 988, 2012) - 988) * 1639 + 512) / 1024 + 172,
                988 <= clamp(channels[i] as int, 988, 2012) <= 2012,
        ;
    }
    assert(unpack_channel(packed_payload(c), 14) == c[14]);
    assert(unpack_channel(packed_payload(c), 15) == c[15]);
}


/// A frame whose length byte is in range and whose CRC over type and payload
/// matches the last byte.
pub open spec fn frame_ok(f: Seq<u8>) -> bool {
    &&& f.len() >= 4
    &&& f[1] >= 2
    &&& f[1] + 2 <= f.len()
    &&& f[1 + f[1]] == crc8_spec(f.subrange(2, 1 + f[1] as int))
}

/// The payload of a frame: after address, length and type, before the CRC.
pub open spec fn frame_payload(f: Seq<u8>) -> Seq<u8> {
    f.subrange(3, 1 + f[1] as int)
}

/// Transmit power in milliwatts for a link-statistics power code.
pub open spec fn tx_power_of(code: u8) -> u16 {
    if code == 1 {
        10
    } else if code == 2 {
        25
    } else if code == 3 {
        100
    } else if code == 4 {
        500
    } else if code == 5 {
        1000
    } else if code == 6 {
        2000
    } else if code == 7 {
        250
    } else if code == 8 {
        50
    } else {
        0
    }
}

/// Big-endian 16-bit value of two bytes.
pub open spec fn be16(hi: u8, lo: u8) -> int {
    hi as int * 256 + lo as int
}

/// Frames that carry link statistics the parser takes.
pub open spec fn is_link_stats(f: Seq<u8>) -> bool {
    frame_ok(f) && f[2] == CRSF_FRAMETYPE_LINK_STATISTICS && frame_payload(f).len() >= 10
}

/// Frames that carry a battery sensor reading the parser takes.
pub open spec fn is_battery(f: Seq<u8>) -> bool {
    frame_ok(f) && f[2] == CRSF_FRAMETYPE_BATTERY_SENSOR && frame_payload(f).len() >= 8
}

/// Frames the parser can decode without arithmetic overflow: RSSI bytes
/// other than 0x80, voltage and current readings of at most 655 tenths.
pub open spec fn telemetry_decodable(f: Seq<u8>) -> bool {
    &&& is_link_stats(f) ==> frame_payload(f)[0] != 0x80 && frame_payload(f)[1] != 0x80
    &&& is_battery(f) ==> be16(frame_payload(f)[0], frame_payload(f)[1]) <= 655 && be16(
        frame_payload(f)[2],
        frame_payload(f)[3],
    ) <= 655
}

/// Telemetry after a link-statistics frame: RSSI negated to dBm, link
/// quality, SNR, antenna, RF mode and transmit power; marked connected.
pub open spec fn with_link_stats(t: CrsfTelemetry, p: Seq<u8>, now_ms: u32) -> CrsfTelemetry {
    CrsfTelemetry {
        connected: true,
        uplink_rssi_1: (-(p[0] as i8)) as i8,
        uplink_rssi_2: (-(p[1] as i8)) as i8,
        uplink_link_quality: p[2],
        uplink_snr: p[3] as i8,
        active_antenna: p[4],
        rf_mode: p[5],
        tx_power_mw: tx_power_of(p[6]),
        last_telemetry_ms: now_ms,
        ..t
    }
}

/// Telemetry after a battery sensor frame: voltage and current in tenths
/// (big endian) scaled to milli-units, 24-bit capacity, remaining percent.
pub open spec fn with_battery(t: CrsfTelemetry, p: Seq<u8>, now_ms: u32) -> CrsfTelemetry {
    CrsfTelemetry {
        connected: true,
        rx_battery_mv: (be16(p[0], p[1]) * 100) as u16,
        rx_current_ma: (be16(p[2], p[3]) * 100) as u16,
        rx_capacity_mah: (p[4] as int * 65536 + p[5] as int * 256 + p[6] as int) as u32,
        rx_battery_pct: p[7],
        last_telemetry_ms: now_ms,
        ..t
    }
}

/// Parse an incoming telemetry frame; returns whether it was a valid link
/// statistics or battery sensor frame, and only then updates `telem`.
pub fn parse_telemetry_frame(frame: &[u8], telem: &mut CrsfTelemetry, now_ms: u32) -> (ok: bool)
    requires
        telemetry_decodable(frame@),
    ensures
        ok == (is_link_stats(frame@) || is_battery(frame@)),
        is_link_stats(frame@) ==> *final(telem) == with_link_stats(*old(telem), frame_payload(frame@), now_ms),
        is_battery(frame@) ==> *final(telem) == with_battery(*old(telem), frame_payload(frame@), now_ms),
        !ok ==> *final(telem) == *old(telem),
{
    if frame.len() < 4 {
        return false;
    }
    let frame_len = frame[1] as usize;
    if frame_len + 2 > frame.len() || frame_len < 2 {
        return false;
    }
    let expected_crc = frame[1 + frame_len];
    let calc = crc8_range(frame, 2, 1 + frame_len);
    if expected_crc != calc {
        return false;
    }
    let frame_type = frame[2];
    let plen = frame_len - 2;
    let ghost p = frame_payload(frame@);
    assert(p.len() == plen);
    if frame_type == CRSF_FRAMETYPE_LINK_STATISTICS {
        if plen >= 10 {
            assert(frame[3] == p[0] && frame[4] == p[1] && frame[5] == p[2] && frame[6] == p[3]);
            assert(frame[7] == p[4] && frame[8] == p[5] && frame[9] == p[6]);
            let r1 = frame[3];
            let r2 = frame[4];
            assert((r1 != 0x80u8 ==> (r1 as i8) != -128i8) && (r2 != 0x80u8 ==> (r2 as i8) != -128i8)) by (bit_vector);
            telem.uplink_rssi_1 = -(frame[3] as i8);
            telem.uplink_rssi_2 = -(frame[4] as i8);
            telem.uplink_link_quality = frame[5];
            telem.uplink_snr = frame[6] as i8;
            telem.active_antenna = frame[7];
            telem.rf_mode = frame[8];
            let pwr_code = frame[9];
            telem.tx_power_mw = match pwr_code {
                0 => 0,
                1 => 10,
                2 => 25,
                3 => 100,
                4 => 500,
                5 => 1000,
                6 => 2000,
                7 => 250,
                8 => 50,
                _ => 0,
            };
            telem.connected = true;
            telem.last_telemetry_ms = now_ms;
            return true;
        }
    } else if frame_type == CRSF_FRAMETYPE_BATTERY_SENSOR && plen >= 8 {
        assert(frame[3] == p[0] && frame[4] == p[1] && frame[5] == p[2] && frame[6] == p[3]);
        assert(frame[7] == p[4] && frame[8] == p[5] && frame[9] == p[6] && frame[10] == p[7]);
        let v_deci = (frame[3] as u16) * 256 + frame[4] as u16;
        telem.rx_battery_mv = v_deci * 100;
        let c_deci = (frame[5] as u16) * 256 + frame[6] as u16;
        telem.rx_current_ma = c_deci * 100;
        let cap = (frame[7] as u32) * 65536 + (frame[8] as u32) * 256 + (frame[9] as u32);
        telem.rx_capacity_mah = cap;
        telem.rx_battery_pct = frame[10];
        telem.connected = true;
        telem.last_telemetry_ms = now_ms;
        return true;
    }
    false
}

/// Readable packet rate of an ExpressLRS RF mode index ("---" if unknown).
pub open spec fn rf_mode_name(rf_mode: u8) -> Seq<char> {
    if rf_mode == 0 {
        "4Hz"@
    } else if rf_mode == 1 {
        "25Hz"@
    } else if rf_mode == 2 {
        "50Hz"@
    } else if rf_mode == 3 {
        "100Hz"@
    } else if rf_mode == 4 {
        "100F"@
    } else if rf_mode == 5 {
        "150Hz"@
    } else if rf_mode == 6 {
        "200Hz"@
    } else if rf_mode == 7 {
        "250Hz"@
    } else if rf_mode == 8 {
        "333Hz"@
    } else if rf_mode == 9 {
        "500Hz"@
    } else if rf_mode == 10 {
        "D250"@
    } else if rf_mode == 11 {
        "D500"@
    } else if rf_mode == 12 {
        "F500"@
    } else if rf_mode == 13 {
        "F1000"@
    } else {
        "---"@
    }
}

/// Convert an ExpressLRS RF mode index to its packet rate name.
pub fn rf_mode_to_str(rf_mode: u8) -> (s: &'static str)
    ensures
        s@ == rf_mode_name(rf_mode),
{
    match rf_mode {
        0 => "4Hz",
        1 => "25Hz",
        2 => "50Hz",
        3 => "100Hz",
        4 => "100F",
        5 => "150Hz",
        6 => "200Hz",
        7 => "250Hz",
        8 => "333Hz",
        9 => "500Hz",
        10 => "D250",
        11 => "D500",
        12 => "F500",
        13 => "F1000",
        _ => "---",
    }
}

/// A buffer whose first bytes are `head` and whose other bytes are unchanged.
pub open spec fn written_prefix(before: Seq<u8>, after: Seq<u8>, head: Seq<u8>) -> bool {
    &&& after.len() == before.len()
    &&& after.subrange(0, head.len() as int) == head
    &&& after.subrange(head.len() as int, after.len() as int) == before.subrange(head.len() as int, before.len() as int)
}

/// The device ping frame: to the module, from the radio, broadcast target.
pub open spec fn ping_frame() -> Seq<u8> {
    let body = seq![CRSF_FRAMETYPE_DEVICE_PING, CRSF_ADDRESS_BROADCAST, CRSF_ADDRESS_RADIO_TRANSMITTER];
    seq![CRSF_ADDRESS_CRSF_TRANSMITTER, 4u8] + body + seq![crc8_spec(body)]
}

/// Build a Device Ping frame (0x28) to discover connected modules; returns
/// its length.
pub fn build_ping_frame(out_frame: &mut [u8]) -> (n: usize)
    requires
        old(out_frame)@.len() >= 6,
    ensures
        n == 6,
        written_prefix(old(out_frame)@, final(out_frame)@, ping_frame()),
{
    out_frame[0] = CRSF_ADDRESS_CRSF_TRANSMITTER;
    out_frame[1] = 4;
    out_frame[2] = CRSF_FRAMETYPE_DEVICE_PING;
    out_frame[3] = CRSF_ADDRESS_BROADCAST;
    out_frame[4] = CRSF_ADDRESS_RADIO_TRANSMITTER;
    let crc = crc8_range(out_frame, 2, 5);
    assert(out_frame@.subrange(2, 5) =~= seq![CRSF_FRAMETYPE_DEVICE_PING, CRSF_ADDRESS_BROADCAST, CRSF_ADDRESS_RADIO_TRANSMITTER]);
    out_frame[5] = crc;
    assert(out_frame@.subrange(0, 6) =~= ping_frame());
    assert(out_frame@.subrange(6, out_frame@.len() as int) =~= old(out_frame)@.subrange(6, old(out_frame)@.len() as int));
    6
}

/// An extended parameter frame (read or write) addressed to `target`.
pub open spec fn param_ext_frame(target: u8, frame_type: u8, param_id: u8, val_or_chunk: u8) -> Seq<u8> {
    let body = seq![frame_type, target, CRSF_ADDRESS_RADIO_TRANSMITTER, param_id, val_or_chunk];
    seq![CRSF_ADDRESS_CRSF_TRANSMITTER, 6u8] + body + seq![crc8_spec(body)]
}

/// Build an extended parameter frame (read 0x2C or write 0x2D); returns its
/// length.
pub fn build_param_ext_frame(target: u8, frame_type: u8, param_id: u8, val_or_chunk: u8, out_frame: &mut [u8]) -> (n: usize)
    requires
        old(out_frame)@.len() >= 8,
    ensures
        n == 8,
        written_prefix(old(out_frame)@, final(out_frame)@, param_ext_frame(target, frame_type, param_id, val_or_chunk)),
{
    out_frame[0] = CRSF_ADDRESS_CRSF_TRANSMITTER;
    out_frame[1] = 6;
    out_frame[2] = frame_type;
    out_frame[3] = target;
    out_frame[4] = CRSF_ADDRESS_RADIO_TRANSMITTER;
    out_frame[5] = param_id;
    out_frame[6] = val_or_chunk;
    let crc = crc8_range(out_frame, 2, 7);
    assert(out_frame@.subrange(2, 7) =~= seq![frame_type, target, CRSF_ADDRESS_RADIO_TRANSMITTER, param_id, val_or_chunk]);
    out_frame[7] = crc;
    assert(out_frame@.subrange(0, 8) =~= param_ext_frame(target, frame_type, param_id, val_or_chunk));
    assert(out_frame@.subrange(8, out_frame@.len() as int) =~= old(out_frame)@.subrange(8, old(out_frame)@.len() as int));
    8
}

/// Build a Parameter Read frame (0x2C) requesting chunk `chunk` of `param_id`.
pub fn build_param_read_frame(target: u8, param_id: u8, chunk: u8, out_frame: &mut [u8]) -> (n: usize)
    requires
        old(out_frame)@.len() >= 8,
    ensures
        n == 8,
        written_prefix(old(out_frame)@, final(out_frame)@, param_ext_frame(target, CRSF_FRAMETYPE_PARAMETER_READ, param_id, chunk)),
{
    build_param_ext_frame(target, CRSF_FRAMETYPE_PARAMETER_READ, param_id, chunk, out_frame)
}

/// Build a Parameter Write frame (0x2D) setting `param_id` to `value`.
pub fn build_param_write_frame(target: u8, param_id: u8, value: u8, out_frame: &mut [u8]) -> (n: usize)
    requires
        old(out_frame)@.len() >= 8,
    ensures
        n == 8,
        written_prefix(old(out_frame)@, final(out_frame)@, param_ext_frame(target, CRSF_FRAMETYPE_PARAMETER_WRITE, param_id, value)),
{
    build_param_ext_frame(target, CRSF_FRAMETYPE_PARAMETER_WRITE, param_id, value, out_frame)
}

} // verus!
