//! Dashboard text: the status bar's link label and battery highlight, the
//! model page (3/4), and the telemetry and RF diagnostics page (4/4) for
//! the CRSF link or the built-in AFHDS 2A radio. Positions on the panel are
//! the drawing's.
use vstd::prelude::*;
use crate::crsf::protocol::CrsfTelemetry;
use crate::rf::afhds2a::TelemetryData;
use crate::storage::ModelConfig;
use crate::ui::dashboard::LinkLabel;
use crate::ui::format::{digit, format_vbat, hex_digit, padded_digit, u32_to_dec_5, u32_to_hex, vbat_text};

verus! {

/// A space.
pub open spec fn sp() -> u8 {
    32u8
}

/// Five right-aligned decimal digits of `val`, limited to 99999.
pub open spec fn dec5(val: int) -> Seq<u8> {
    let v = if val < 99999 { val } else { 99999 };
    seq![padded_digit(v, 10000), padded_digit(v, 1000), padded_digit(v, 100), padded_digit(v, 10), padded_digit(v, 1)]
}

/// Magnitude of a signed byte.
pub open spec fn mag(v: i8) -> int {
    if v < 0 { -(v as int) } else { v as int }
}

/// Packet rate name of an ExpressLRS RF mode.
pub open spec fn rate_text(m: u8) -> Seq<u8> {
    if m == 0 {
        seq![52u8, 72, 122]
    } else if m == 1 {
        seq![50u8, 53, 72, 122]
    } else if m == 2 {
        seq![53u8, 48, 72, 122]
    } else if m == 3 {
        seq![49u8, 48, 48, 72, 122]
    } else if m == 4 {
        seq![49u8, 48, 48, 70]
    } else if m == 5 {
        seq![49u8, 53, 48, 72, 122]
    } else if m == 6 {
        seq![50u8, 48, 48, 72, 122]
    } else if m == 7 {
        seq![50u8, 53, 48, 72, 122]
    } else if m == 8 {
        seq![51u8, 51, 51, 72, 122]
    } else if m == 9 {
        seq![53u8, 48, 48, 72, 122]
    } else if m == 10 {
        seq![68u8, 50, 53, 48]
    } else if m == 11 {
        seq![68u8, 53, 48, 48]
    } else if m == 12 {
        seq![70u8, 53, 48, 48]
    } else if m == 13 {
        seq![70u8, 49, 48, 48, 48]
    } else {
        seq![45u8, 45, 45]
    }
}

/// Link quality, limited to 100 %.
pub open spec fn lq_text(ct: CrsfTelemetry) -> Seq<u8> {
    let q = if ct.uplink_link_quality < 100 { ct.uplink_link_quality as int } else { 100 };
    if !ct.connected {
        seq![76u8, 81, 58, 32, 45, 45, 45, 37]
    } else if q == 100 {
        seq![76u8, 81, 58, 49, 48, 48, 37]
    } else if q >= 10 {
        seq![76u8, 81, 58, 32] + seq![digit(q / 10), digit(q % 10)] + seq![37u8]
    } else {
        seq![76u8, 81, 58, 32, 32] + seq![digit(q)] + seq![37u8]
    }
}

/// Uplink RSSI of antenna 1 in dBm.
pub open spec fn rs_text(ct: CrsfTelemetry) -> Seq<u8> {
    let v = mag(ct.uplink_rssi_1);
    if ct.connected {
        seq![82u8, 83, 58, 32, 45] + seq![digit(v / 100), digit((v / 10) % 10), digit(v % 10)] + seq![100u8, 66]
    } else {
        seq![82u8, 83, 58, 32, 45, 45, 45, 100, 66]
    }
}

/// Uplink signal-to-noise ratio in dB, signed.
pub open spec fn snr_text(ct: CrsfTelemetry) -> Seq<u8> {
    let m = mag(ct.uplink_snr);
    let sign: u8 = if ct.uplink_snr >= 0 { 43u8 } else { 45u8 };
    if ct.connected {
        seq![83u8, 78, 82, 58] + seq![sign, digit((m / 10) % 10), digit(m % 10)] + seq![100u8, 66]
    } else {
        seq![83u8, 78, 82, 58, 32, 45, 45, 100, 66]
    }
}

/// Active antenna, 1 or 2.
pub open spec fn ant_text(ct: CrsfTelemetry) -> Seq<u8> {
    if !ct.connected {
        seq![65u8, 78, 84, 58, 32, 45]
    } else if ct.active_antenna == 0 {
        seq![65u8, 78, 84, 58, 32, 49]
    } else {
        seq![65u8, 78, 84, 58, 32, 50]
    }
}

/// The four digit positions of the transmit power (blank below 10 mW).
pub open spec fn pwr_digits(p: int) -> Seq<u8> {
    if p >= 1000 {
        seq![digit(p / 1000), digit((p / 100) % 10), digit((p / 10) % 10), digit(p % 10)]
    } else if p >= 100 {
        seq![sp(), digit(p / 100), digit((p / 10) % 10), digit(p % 10)]
    } else if p >= 10 {
        seq![sp(), sp(), digit(p / 10), digit(p % 10)]
    } else {
        seq![sp(), sp(), sp(), sp()]
    }
}

/// Transmit power in mW.
pub open spec fn pwr_text(ct: CrsfTelemetry) -> Seq<u8> {
    if ct.connected && ct.tx_power_mw > 0 {
        seq![80u8, 87, 82, 58] + pwr_digits(ct.tx_power_mw as int) + seq![109u8, 87]
    } else {
        seq![80u8, 87, 82, 58, 32, 45, 45, 45]
    }
}

/// A placeholder for a missing reading.
pub open spec fn dashes4() -> Seq<u8> {
    seq![45u8, 45, 45, 45]
}

/// The received signal strength of the built-in radio, limited to 100 %.
pub open spec fn rssi_text(t: TelemetryData) -> Seq<u8> {
    let r = if t.rssi < 100 { t.rssi as int } else { 100 };
    if !t.connected {
        seq![82u8, 83, 83, 73, 58, 32, 45, 45, 37]
    } else if r >= 10 {
        seq![82u8, 83, 83, 73, 58] + seq![digit(r / 10), digit(r % 10)] + seq![32u8, 37]
    } else {
        seq![82u8, 83, 83, 73, 58] + seq![sp(), digit(r)] + seq![32u8, 37]
    }
}

/// The lowest link quality of the session, limited to 100 %.
pub open spec fn min_rssi_text(min_rssi: u8, seen: bool) -> Seq<u8> {
    let r = if min_rssi < 100 { min_rssi as int } else { 100 };
    if !seen {
        seq![32u8, 45, 45, 37]
    } else if r == 100 {
        seq![49u8, 48, 48, 37]
    } else if r >= 10 {
        seq![sp(), digit(r / 10), digit(r % 10), 37u8]
    } else {
        seq![sp(), sp(), digit(r), 37u8]
    }
}

/// The page: eight cells as (label, value) at indices `2c` and `2c + 1`
/// (left column cells 0..=3, right column 4..=7, top to bottom), then the
/// footer's left and right text.
pub open spec fn telemetry_page_spec(
    is_crsf: bool,
    ct: CrsfTelemetry,
    t: TelemetryData,
    battery_mv: u16,
    min_rssi: u8,
    min_rx_v_mv: u16,
    telem_seen: bool,
    is_binding: bool,
) -> Seq<Seq<u8>> {
    if is_crsf {
        seq![
            lq_text(ct), seq![],
            rs_text(ct), seq![],
            snr_text(ct), seq![],
            ant_text(ct), seq![],
            pwr_text(ct), seq![],
            seq![82u8, 65, 84, 69, 58], if ct.connected { rate_text(ct.rf_mode) } else { seq![45u8, 45, 45] },
            seq![66u8, 65, 84, 58], if ct.connected && ct.rx_battery_mv > 0 { vbat_text(ct.rx_battery_mv as int) } else { dashes4() },
            seq![67u8, 65, 80, 58], if ct.connected && ct.rx_capacity_mah > 0 { dec5(ct.rx_capacity_mah as int) } else { dashes4() },
            seq![80u8, 52, 47, 52], seq![67u8, 82, 83, 70, 32, 76, 73, 78, 75, 32, 68, 73, 65, 71],
        ]
    } else {
        seq![
            rssi_text(t), seq![],
            if t.connected { seq![76u8, 73, 78, 75, 58, 32, 79, 75] } else { seq![76u8, 73, 78, 75, 58, 32, 68, 73, 83, 67] }, seq![],
            seq![84u8, 88, 58], dec5(t.packets_sent as int),
            seq![82u8, 88, 58], dec5(t.packets_received as int),
            seq![82u8, 88, 58], if t.connected { vbat_text(t.rx_voltage_mv as int) } else { dashes4() },
            seq![84u8, 88, 58], vbat_text(battery_mv as int),
            seq![109u8, 82, 83, 83, 58], min_rssi_text(min_rssi, telem_seen),
            seq![109u8, 82, 88, 58], if min_rx_v_mv != 0xFFFF && min_rx_v_mv > 0 { vbat_text(min_rx_v_mv as int) } else { dashes4() },
            if is_binding { seq![91u8, 69, 83, 67, 93, 32, 70, 105, 110, 105, 115, 104, 32, 66, 105, 110, 100] } else { seq![80u8, 52, 47, 52] },
            if is_binding { seq![] } else { seq![84u8, 69, 76, 69, 77, 69, 84, 82, 89, 32, 83, 69, 78, 83, 79, 82, 83] },
        ]
    }
}

/// Bytes of a slice, in a new vector.
pub(crate) fn text(a: &[u8]) -> (v: Vec<u8>)
    ensures
        v@ == a@,
{
    let mut v: Vec<u8> = Vec::new();
    append(&mut v, a);
    assert(v@ =~= a@);
    v
}

/// Append the bytes of `a`.
pub(crate) fn append(v: &mut Vec<u8>, a: &[u8])
    ensures
        final(v)@ == old(v)@ + a@,
{
    let ghost v0 = v@;
    let mut i: usize = 0;
    while i < a.len()
        invariant
            i <= a.len(),
            v@ == v0 + a@.subrange(0, i as int),
        decreases a.len() - i,
    {
        v.push(a[i]);
        i = i + 1;
        assert(v@ =~= v0 + a@.subrange(0, i as int));
    }
    assert(a@.subrange(0, a.len() as int) =~= a@);
}

pub(crate) fn dg(n: u32) -> (d: u8)
    requires
        n < 1000,
    ensures
        d == digit(n as int),
{
    (48 + n) as u8
}

fn dec5_bytes(val: u32) -> (v: Vec<u8>)
    ensures
        v@ == dec5(val as int),
{
    let mut b = [0u8; 5];
    u32_to_dec_5(val, &mut b);
    text(&b)
}

fn vbat_bytes(mv: u16) -> (v: Vec<u8>)
    ensures
        v@ == vbat_text(mv as int),
{
    let mut b = [0u8; 6];
    let n = format_vbat(mv, &mut b);
    let mut v: Vec<u8> = Vec::new();
    let mut i: usize = 0;
    while i < n
        invariant
            n == vbat_text(mv as int).len(),
            n <= 6,
            i <= n,
            b@.subrange(0, n as int) == vbat_text(mv as int),
            v@ == b@.subrange(0, i as int),
        decreases n - i,
    {
        v.push(b[i]);
        i = i + 1;
        assert(v@ =~= b@.subrange(0, i as int));
    }
    v
}

fn rate_bytes(m: u8) -> (v: Vec<u8>)
    ensures
        v@ == rate_text(m),
{
    let a: &[u8] = match m {
        0 => &[52u8, 72, 122],
        1 => &[50u8, 53, 72, 122],
        2 => &[53u8, 48, 72, 122],
        3 => &[49u8, 48, 48, 72, 122],
        4 => &[49u8, 48, 48, 70],
        5 => &[49u8, 53, 48, 72, 122],
        6 => &[50u8, 48, 48, 72, 122],
        7 => &[50u8, 53, 48, 72, 122],
        8 => &[51u8, 51, 51, 72, 122],
        9 => &[53u8, 48, 48, 72, 122],
        10 => &[68u8, 50, 53, 48],
        11 => &[68u8, 53, 48, 48],
        12 => &[70u8, 53, 48, 48],
        13 => &[70u8, 49, 48, 48, 48],
        _ => &[45u8, 45, 45],
    };
    let v = text(a);
    assert(v@ =~= rate_text(m));
    v
}

fn lq_bytes(ct: &CrsfTelemetry) -> (v: Vec<u8>)
    ensures
        v@ == lq_text(*ct),
{
    let q: u32 = if ct.uplink_link_quality < 100 { ct.uplink_link_quality as u32 } else { 100 };
    let v = if !ct.connected {
        text(&[76u8, 81, 58, 32, 45, 45, 45, 37])
    } else if q == 100 {
        text(&[76u8, 81, 58, 49, 48, 48, 37])
    } else if q >= 10 {
        let mut v = text(&[76u8, 81, 58, 32]);
        append(&mut v, &[dg(q / 10), dg(q % 10)]);
        append(&mut v, &[37u8]);
        v
    } else {
        let mut v = text(&[76u8, 81, 58, 32, 32]);
        append(&mut v, &[dg(q)]);
        append(&mut v, &[37u8]);
        v
    };
    assert(v@ =~= lq_text(*ct));
    v
}

fn abs8(v: i8) -> (m: u32)
    ensures
        m as int == mag(v),
{
    if v < 0 { (-(v as i32)) as u32 } else { v as u32 }
}

fn rs_bytes(ct: &CrsfTelemetry) -> (v: Vec<u8>)
    ensures
        v@ == rs_text(*ct),
{
    let m = abs8(ct.uplink_rssi_1);
    let v = if ct.connected {
        let mut v = text(&[82u8, 83, 58, 32, 45]);
        append(&mut v, &[dg(m / 100), dg((m / 10) % 10), dg(m % 10)]);
        append(&mut v, &[100u8, 66]);
        v
    } else {
        text(&[82u8, 83, 58, 32, 45, 45, 45, 100, 66])
    };
    assert(v@ =~= rs_text(*ct));
    v
}

fn snr_bytes(ct: &CrsfTelemetry) -> (v: Vec<u8>)
    ensures
        v@ == snr_text(*ct),
{
    let m = abs8(ct.uplink_snr);
    let sign: u8 = if ct.uplink_snr >= 0 { 43 } else { 45 };
    let v = if ct.connected {
        let mut v = text(&[83u8, 78, 82, 58]);
        append(&mut v, &[sign, dg((m / 10) % 10), dg(m % 10)]);
        append(&mut v, &[100u8, 66]);
        v
    } else {
        text(&[83u8, 78, 82, 58, 32, 45, 45, 100, 66])
    };
    assert(v@ =~= snr_text(*ct));
    v
}

fn ant_bytes(ct: &CrsfTelemetry) -> (v: Vec<u8>)
    ensures
        v@ == ant_text(*ct),
{
    let v = if !ct.connected {
        text(&[65u8, 78, 84, 58, 32, 45])
    } else if ct.active_antenna == 0 {
        text(&[65u8, 78, 84, 58, 32, 49])
    } else {
        text(&[65u8, 78, 84, 58, 32, 50])
    };
    assert(v@ =~= ant_text(*ct));
    v
}

fn pwr_bytes(ct: &CrsfTelemetry) -> (v: Vec<u8>)
    ensures
        v@ == pwr_text(*ct),
{
    let p = ct.tx_power_mw as u32;
    let v = if ct.connected && p > 0 {
        let mut v = text(&[80u8, 87, 82, 58]);
        if p >= 1000 {
            append(&mut v, &[dg(p / 1000), dg((p / 100) % 10), dg((p / 10) % 10), dg(p % 10)]);
        } else if p >= 100 {
            append(&mut v, &[32u8, dg(p / 100), dg((p / 10) % 10), dg(p % 10)]);
        } else if p >= 10 {
            append(&mut v, &[32u8, 32, dg(p / 10), dg(p % 10)]);
        } else {
            append(&mut v, &[32u8, 32, 32, 32]);
        }
        append(&mut v, &[109u8, 87]);
        v
    } else {
        text(&[80u8, 87, 82, 58, 32, 45, 45, 45])
    };
    assert(v@ =~= pwr_text(*ct));
    v
}

fn rssi_bytes(t: &TelemetryData) -> (v: Vec<u8>)
    ensures
        v@ == rssi_text(*t),
{
    let r: u32 = if t.rssi < 100 { t.rssi as u32 } else { 100 };
    let v = if !t.connected {
        text(&[82u8, 83, 83, 73, 58, 32, 45, 45, 37])
    } else {
        let mut v = text(&[82u8, 83, 83, 73, 58]);
        if r >= 10 {
            append(&mut v, &[dg(r / 10), dg(r % 10)]);
        } else {
            append(&mut v, &[32u8, dg(r)]);
        }
        append(&mut v, &[32u8, 37]);
        v
    };
    assert(v@ =~= rssi_text(*t));
    v
}

fn min_rssi_bytes(min_rssi: u8, seen: bool) -> (v: Vec<u8>)
    ensures
        v@ == min_rssi_text(min_rssi, seen),
{
    let r: u32 = if min_rssi < 100 { min_rssi as u32 } else { 100 };
    let v = if !seen {
        text(&[32u8, 45, 45, 37])
    } else if r == 100 {
        text(&[49u8, 48, 48, 37])
    } else if r >= 10 {
        text(&[32u8, dg(r / 10), dg(r % 10), 37])
    } else {
        text(&[32u8, 32, dg(r), 37])
    };
    assert(v@ =~= min_rssi_text(min_rssi, seen));
    v
}

/// Every text of the telemetry page (see `telemetry_page_spec`); `ct` is
/// the CRSF link's telemetry, `telem` the built-in radio's.
pub fn telemetry_page_lines(
    is_crsf: bool,
    ct: &CrsfTelemetry,
    telem: &TelemetryData,
    battery_mv: u16,
    min_rssi: u8,
    min_rx_v_mv: u16,
    telem_seen: bool,
    is_binding: bool,
) -> (lines: Vec<Vec<u8>>)
    ensures
        lines@.map_values(|l: Vec<u8>| l@) == telemetry_page_spec(
            is_crsf, *ct, *telem, battery_mv, min_rssi, min_rx_v_mv, telem_seen, is_binding),
{
    let mut lines: Vec<Vec<u8>> = Vec::new();
    if is_crsf {
        lines.push(lq_bytes(ct));
        lines.push(Vec::new());
        lines.push(rs_bytes(ct));
        lines.push(Vec::new());
        lines.push(snr_bytes(ct));
        lines.push(Vec::new());
        lines.push(ant_bytes(ct));
        lines.push(Vec::new());
        lines.push(pwr_bytes(ct));
        lines.push(Vec::new());
        lines.push(text(&[82u8, 65, 84, 69, 58]));
        lines.push(if ct.connected { rate_bytes(ct.rf_mode) } else { text(&[45u8, 45, 45]) });
        lines.push(text(&[66u8, 65, 84, 58]));
        lines.push(if ct.connected && ct.rx_battery_mv > 0 { vbat_bytes(ct.rx_battery_mv) } else { text(&[45u8, 45, 45, 45]) });
        lines.push(text(&[67u8, 65, 80, 58]));
        lines.push(if ct.connected && ct.rx_capacity_mah > 0 { dec5_bytes(ct.rx_capacity_mah) } else { text(&[45u8, 45, 45, 45]) });
        lines.push(text(&[80u8, 52, 47, 52]));
        lines.push(text(&[67u8, 82, 83, 70, 32, 76, 73, 78, 75, 32, 68, 73, 65, 71]));
    } else {
        lines.push(rssi_bytes(telem));
        lines.push(Vec::new());
        lines.push(if telem.connected { text(&[76u8, 73, 78, 75, 58, 32, 79, 75]) } else { text(&[76u8, 73, 78, 75, 58, 32, 68, 73, 83, 67]) });
        lines.push(Vec::new());
        lines.push(text(&[84u8, 88, 58]));
        lines.push(dec5_bytes(telem.packets_sent));
        lines.push(text(&[82u8, 88, 58]));
        lines.push(dec5_bytes(telem.packets_received));
        lines.push(text(&[82u8, 88, 58]));
        lines.push(if telem.connected { vbat_bytes(telem.rx_voltage_mv) } else { text(&[45u8, 45, 45, 45]) });
        lines.push(text(&[84u8, 88, 58]));
        lines.push(vbat_bytes(battery_mv));
        lines.push(text(&[109u8, 82, 83, 83, 58]));
        lines.push(min_rssi_bytes(min_rssi, telem_seen));
        lines.push(text(&[109u8, 82, 88, 58]));
        lines.push(if min_rx_v_mv != 0xFFFF && min_rx_v_mv > 0 { vbat_bytes(min_rx_v_mv) } else { text(&[45u8, 45, 45, 45]) });
        lines.push(if is_binding { text(&[91u8, 69, 83, 67, 93, 32, 70, 105, 110, 105, 115, 104, 32, 66, 105, 110, 100]) } else { text(&[80u8, 52, 47, 52]) });
        lines.push(if is_binding { Vec::new() } else { text(&[84u8, 69, 76, 69, 77, 69, 84, 82, 89, 32, 83, 69, 78, 83, 79, 82, 83]) });
    }
    assert(lines@.map_values(|l: Vec<u8>| l@) =~= telemetry_page_spec(
        is_crsf, *ct, *telem, battery_mv, min_rssi, min_rx_v_mv, telem_seen, is_binding));
    lines
}

/// Eight upper-case hexadecimal digits of `v`.
pub open spec fn hex_text(v: u32) -> Seq<u8> {
    Seq::new(8, |k: int| hex_digit(((v >> ((4 * (7 - k)) as u32)) & 0x0F) as int))
}

/// The status bar's link text.
pub open spec fn link_text(l: LinkLabel) -> Seq<u8> {
    match l {
        LinkLabel::ChipError(id) => seq![69u8, 58] + seq![hex_digit(((id >> 4u8) & 0x0F) as int), hex_digit((id & 0x0F) as int)],
        LinkLabel::Binding => seq![66u8, 73, 78, 68],
        LinkLabel::Simulator => seq![85u8, 58, 83, 73, 77],
        LinkLabel::Quality(q) => if q >= 100 {
            seq![82u8, 58, 49, 48, 48]
        } else {
            seq![82u8, 58] + seq![digit(q as int / 10), digit(q as int % 10), 37u8]
        },
        LinkLabel::Crsf => seq![67u8, 82, 83, 70],
        LinkLabel::Bound => seq![82u8, 70, 58, 79, 75],
        LinkLabel::NoLink => seq![78u8, 79, 32, 82, 70],
    }
}

/// The battery voltage is shown inverted: below the warning threshold, on
/// the bright half of the blink cycle.
pub open spec fn battery_inverted(battery_mv: u16, vbat_warn_deci: u8, blink_phase: u8) -> bool {
    (battery_mv as int) < (vbat_warn_deci as int) * 100 && (blink_phase & 0x10) != 0
}

/// The model page: name, type, "RxID:", receiver ID, "TCrv:", point count,
/// smoothing, then the telemetry line (label, voltage and RSSI, or one
/// disconnected notice) and the footer's left and right text.
pub open spec fn model_page_spec(m: ModelConfig, t: TelemetryData, is_crsf: bool, is_binding: bool) -> Seq<Seq<u8>> {
    seq![
        m.name@,
        if m.model_type == 0 { seq![65u8, 73, 82, 80, 76, 65, 78, 69] } else if m.model_type == 1 { seq![71u8, 76, 73, 68, 69, 82] }
            else if m.model_type == 2 { seq![72u8, 69, 76, 73] } else { seq![81u8, 85, 65, 68] },
        seq![82u8, 120, 73, 68, 58], hex_text(m.rx_id),
        seq![84u8, 67, 114, 118, 58], if m.thr_curve_pts == 9 { seq![57u8, 45, 80, 84] } else { seq![53u8, 45, 80, 84] },
        if m.thr_curve_smooth != 0 { seq![83u8, 77, 79, 79, 84, 72] } else { seq![76u8, 73, 78, 69, 65, 82] },
        if t.connected { seq![82u8, 88, 58] } else if is_crsf { seq![67u8, 82, 83, 70, 58, 32, 68, 73, 83, 67, 79, 78, 78, 69, 67, 84, 69, 68] } else { seq![65u8, 70, 72, 68, 83, 50, 65, 58, 32, 68, 73, 83, 67, 79, 78, 78, 69, 67, 84, 69, 68] },
        if t.connected { vbat_text(t.rx_voltage_mv as int) } else { seq![] },
        if t.connected { rssi_text(t) } else { seq![] },
        if is_binding { seq![91u8, 69, 83, 67, 93, 32, 70, 105, 110, 105, 115, 104, 32, 66, 105, 110, 100] } else { seq![80u8, 51, 47, 52] },
        if is_binding { seq![] } else { seq![77u8, 79, 68, 69, 76, 32, 68, 65, 83, 72, 66, 79, 65, 82, 68] },
    ]
}

/// The status bar's link text for a label.
pub fn link_label_text(l: LinkLabel) -> (v: Vec<u8>)
    ensures
        v@ == link_text(l),
{
    let v = match l {
        LinkLabel::ChipError(id) => {
            let mut b = [0u8; 8];
            u32_to_hex(id as u32, &mut b);
            let mut v = text(&[69u8, 58]);
            append(&mut v, &[b[6], b[7]]);
            assert(((id as u32 >> 4u32) & 0x0F) as int == ((id >> 4u8) & 0x0F) as int) by (bit_vector);
            assert(((id as u32 >> 0u32) & 0x0F) as int == (id & 0x0F) as int) by (bit_vector);
            v
        },
        LinkLabel::Binding => text(&[66u8, 73, 78, 68]),
        LinkLabel::Simulator => text(&[85u8, 58, 83, 73, 77]),
        LinkLabel::Quality(q) => {
            if q >= 100 {
                text(&[82u8, 58, 49, 48, 48])
            } else {
                let mut v = text(&[82u8, 58]);
                append(&mut v, &[dg(q as u32 / 10), dg(q as u32 % 10), 37u8]);
                v
            }
        },
        LinkLabel::Crsf => text(&[67u8, 82, 83, 70]),
        LinkLabel::Bound => text(&[82u8, 70, 58, 79, 75]),
        LinkLabel::NoLink => text(&[78u8, 79, 32, 82, 70]),
    };
    assert(v@ =~= link_text(l));
    v
}

/// Whether the battery voltage is drawn inverted (see `battery_inverted`).
pub fn battery_highlight(battery_mv: u16, vbat_warn_deci: u8, blink_phase: u8) -> (b: bool)
    ensures
        b == battery_inverted(battery_mv, vbat_warn_deci, blink_phase),
{
    (battery_mv as u32) < (vbat_warn_deci as u32) * 100 && (blink_phase & 0x10) != 0
}

/// Every text of the model page (see `model_page_spec`).
pub fn model_page_lines(m: &ModelConfig, telem: &TelemetryData, is_crsf: bool, is_binding: bool) -> (lines: Vec<Vec<u8>>)
    ensures
        lines@.map_values(|l: Vec<u8>| l@) == model_page_spec(*m, *telem, is_crsf, is_binding),
{
    let mut lines: Vec<Vec<u8>> = Vec::new();
    lines.push(text(&m.name));
    lines.push(if m.model_type == 0 { text(&[65u8, 73, 82, 80, 76, 65, 78, 69]) } else if m.model_type == 1 { text(&[71u8, 76, 73, 68, 69, 82]) }
        else if m.model_type == 2 { text(&[72u8, 69, 76, 73]) } else { text(&[81u8, 85, 65, 68]) });
    lines.push(text(&[82u8, 120, 73, 68, 58]));
    let mut hb = [0u8; 8];
    u32_to_hex(m.rx_id, &mut hb);
    let h = text(&hb);
    assert(h@ =~= hex_text(m.rx_id));
    lines.push(h);
    lines.push(text(&[84u8, 67, 114, 118, 58]));
    lines.push(if m.thr_curve_pts == 9 { text(&[57u8, 45, 80, 84]) } else { text(&[53u8, 45, 80, 84]) });
    lines.push(if m.thr_curve_smooth != 0 { text(&[83u8, 77, 79, 79, 84, 72]) } else { text(&[76u8, 73, 78, 69, 65, 82]) });
    if telem.connected {
        lines.push(text(&[82u8, 88, 58]));
        lines.push(vbat_bytes(telem.rx_voltage_mv));
        lines.push(rssi_bytes(telem));
    } else {
        lines.push(if is_crsf { text(&[67u8, 82, 83, 70, 58, 32, 68, 73, 83, 67, 79, 78, 78, 69, 67, 84, 69, 68]) } else { text(&[65u8, 70, 72, 68, 83, 50, 65, 58, 32, 68, 73, 83, 67, 79, 78, 78, 69, 67, 84, 69, 68]) });
        lines.push(Vec::new());
        lines.push(Vec::new());
    }
    lines.push(if is_binding { text(&[91u8, 69, 83, 67, 93, 32, 70, 105, 110, 105, 115, 104, 32, 66, 105, 110, 100]) } else { text(&[80u8, 51, 47, 52]) });
    lines.push(if is_binding { Vec::new() } else { text(&[77u8, 79, 68, 69, 76, 32, 68, 65, 83, 72, 66, 79, 65, 82, 68]) });
    assert(lines@.map_values(|l: Vec<u8>| l@) =~= model_page_spec(*m, *telem, is_crsf, is_binding));
    lines
}

} // verus!
