//! The USB serial console: a line editor with echo and backspace, the
//! commands help, status, channels, telem, stream, telem on/off and
//! reboot, and JSON telemetry lines. Received bytes are queued by the
//! caller; replies are appended to a caller's buffer.
use vstd::prelude::*;
use crate::crsf::{is_utf8, utf8_valid};
use crate::rf::afhds2a::TelemetryData;
use crate::ui::format::digit;

verus! {

/// Opening of a telemetry line, up to the battery voltage.
pub const TL_OPEN: [u8; 8] = [0x7B, 0x22, 0x76, 0x62, 0x61, 0x74, 0x22, 0x3A];

/// Key of the signal strength.
pub const TL_RSSI: [u8; 8] = [0x2C, 0x22, 0x72, 0x73, 0x73, 0x69, 0x22, 0x3A];

/// Key of the receiver voltage.
pub const TL_RXV: [u8; 8] = [0x2C, 0x22, 0x72, 0x78, 0x5F, 0x76, 0x22, 0x3A];

/// Key of the packets sent.
pub const TL_TX: [u8; 6] = [0x2C, 0x22, 0x74, 0x78, 0x22, 0x3A];

/// Key of the packets received.
pub const TL_RX: [u8; 6] = [0x2C, 0x22, 0x72, 0x78, 0x22, 0x3A];

/// Key of the packets lost.
pub const TL_ERR: [u8; 7] = [0x2C, 0x22, 0x65, 0x72, 0x72, 0x22, 0x3A];

/// Key of the channel list.
pub const TL_CH: [u8; 7] = [0x2C, 0x22, 0x63, 0x68, 0x22, 0x3A, 0x5B];

/// End of a JSON line.
pub const TL_CLOSE: [u8; 4] = [0x5D, 0x7D, 0x0D, 0x0A];

/// Opening of the channel dump.
pub const CH_OPEN: [u8; 7] = [0x7B, 0x22, 0x63, 0x68, 0x22, 0x3A, 0x5B];

/// Line break.
pub const CRLF: [u8; 2] = [0x0D, 0x0A];

/// Console prompt.
pub const PROMPT: [u8; 5] = [0x69, 0x36, 0x78, 0x3E, 0x20];

/// Reply to a key pressed while streaming.
pub const STREAM_PAUSED: [u8; 24] = [0x0D, 0x0A, 0x5B, 0x53, 0x74, 0x72, 0x65, 0x61, 0x6D, 0x20, 0x70, 0x61, 0x75, 0x73, 0x65, 0x64, 0x5D, 0x0D, 0x0A, 0x69, 0x36, 0x78, 0x3E, 0x20];

/// Erases the last echoed character.
pub const ERASE: [u8; 3] = [0x08, 0x20, 0x08];

/// Reply to `help`.
pub const HELP_TEXT: [u8; 277] = [0x43, 0x6F, 0x6D, 0x6D, 0x61, 0x6E, 0x64, 0x73, 0x3A, 0x0D, 0x0A, 0x20, 0x20, 0x68, 0x65, 0x6C, 0x70, 0x20, 0x20, 0x20, 0x20, 0x20, 0x20, 0x2D, 0x20, 0x53, 0x68, 0x6F, 0x77, 0x20, 0x74, 0x68, 0x69, 0x73, 0x20, 0x68, 0x65, 0x6C, 0x70, 0x0D, 0x0A, 0x20, 0x20, 0x73, 0x74, 0x61, 0x74, 0x75, 0x73, 0x20, 0x20, 0x20, 0x20, 0x2D, 0x20, 0x46, 0x69, 0x72, 0x6D, 0x77, 0x61, 0x72, 0x65, 0x20, 0x26, 0x20, 0x62, 0x61, 0x74, 0x74, 0x65, 0x72, 0x79, 0x20, 0x69, 0x6E, 0x66, 0x6F, 0x0D, 0x0A, 0x20, 0x20, 0x63, 0x68, 0x61, 0x6E, 0x6E, 0x65, 0x6C, 0x73, 0x20, 0x20, 0x2D, 0x20, 0x44, 0x75, 0x6D, 0x70, 0x20, 0x52, 0x46, 0x20, 0x63, 0x68, 0x61, 0x6E, 0x6E, 0x65, 0x6C, 0x20, 0x76, 0x61, 0x6C, 0x75, 0x65, 0x73, 0x20, 0x28, 0x43, 0x48, 0x31, 0x2E, 0x2E, 0x43, 0x48, 0x31, 0x34, 0x29, 0x0D, 0x0A, 0x20, 0x20, 0x74, 0x65, 0x6C, 0x65, 0x6D, 0x20, 0x20, 0x20, 0x20, 0x20, 0x2D, 0x20, 0x44, 0x75, 0x6D, 0x70, 0x20, 0x73, 0x69, 0x6E, 0x67, 0x6C, 0x65, 0x20, 0x74, 0x65, 0x6C, 0x65, 0x6D, 0x65, 0x74, 0x72, 0x79, 0x20, 0x66, 0x72, 0x61, 0x6D, 0x65, 0x0D, 0x0A, 0x20, 0x20, 0x73, 0x74, 0x72, 0x65, 0x61, 0x6D, 0x20, 0x20, 0x20, 0x20, 0x2D, 0x20, 0x53, 0x74, 0x61, 0x72, 0x74, 0x20, 0x63, 0x6F, 0x6E, 0x74, 0x69, 0x6E, 0x75, 0x6F, 0x75, 0x73, 0x20, 0x74, 0x65, 0x6C, 0x65, 0x6D, 0x65, 0x74, 0x72, 0x79, 0x20, 0x73, 0x74, 0x72, 0x65, 0x61, 0x6D, 0x69, 0x6E, 0x67, 0x20, 0x28, 0x61, 0x6E, 0x79, 0x20, 0x6B, 0x65, 0x79, 0x20, 0x74, 0x6F, 0x20, 0x73, 0x74, 0x6F, 0x70, 0x29, 0x0D, 0x0A, 0x20, 0x20, 0x72, 0x65, 0x62, 0x6F, 0x6F, 0x74, 0x20, 0x20, 0x20, 0x20, 0x2D, 0x20, 0x52, 0x65, 0x62, 0x6F, 0x6F, 0x74, 0x20, 0x74, 0x72, 0x61, 0x6E, 0x73, 0x6D, 0x69, 0x74, 0x74, 0x65, 0x72, 0x0D, 0x0A];

/// First line of the reply to `status`.
pub const STATUS_LINE: [u8; 36] = [0x46, 0x6C, 0x79, 0x53, 0x6B, 0x79, 0x20, 0x46, 0x53, 0x2D, 0x69, 0x36, 0x58, 0x20, 0x52, 0x75, 0x73, 0x74, 0x20, 0x46, 0x69, 0x72, 0x6D, 0x77, 0x61, 0x72, 0x65, 0x20, 0x76, 0x30, 0x2E, 0x31, 0x2E, 0x30, 0x0D, 0x0A];

/// Reply when streaming starts.
pub const STREAM_ON: [u8; 54] = [0x5B, 0x53, 0x74, 0x72, 0x65, 0x61, 0x6D, 0x69, 0x6E, 0x67, 0x20, 0x74, 0x65, 0x6C, 0x65, 0x6D, 0x65, 0x74, 0x72, 0x79, 0x20, 0x40, 0x20, 0x31, 0x30, 0x48, 0x7A, 0x2E, 0x20, 0x50, 0x72, 0x65, 0x73, 0x73, 0x20, 0x61, 0x6E, 0x79, 0x20, 0x6B, 0x65, 0x79, 0x20, 0x74, 0x6F, 0x20, 0x73, 0x74, 0x6F, 0x70, 0x2E, 0x5D, 0x0D, 0x0A];

/// Reply to `telem off`.
pub const STREAM_OFF: [u8; 30] = [0x54, 0x65, 0x6C, 0x65, 0x6D, 0x65, 0x74, 0x72, 0x79, 0x20, 0x73, 0x74, 0x72, 0x65, 0x61, 0x6D, 0x69, 0x6E, 0x67, 0x20, 0x64, 0x69, 0x73, 0x61, 0x62, 0x6C, 0x65, 0x64, 0x0D, 0x0A];

/// Reply to `reboot`.
pub const REBOOTING: [u8; 14] = [0x52, 0x65, 0x62, 0x6F, 0x6F, 0x74, 0x69, 0x6E, 0x67, 0x2E, 0x2E, 0x2E, 0x0D, 0x0A];

/// Reply to anything else.
pub const UNKNOWN: [u8; 30] = [0x55, 0x6E, 0x6B, 0x6E, 0x6F, 0x77, 0x6E, 0x20, 0x63, 0x6F, 0x6D, 0x6D, 0x61, 0x6E, 0x64, 0x2E, 0x20, 0x54, 0x79, 0x70, 0x65, 0x20, 0x27, 0x68, 0x65, 0x6C, 0x70, 0x27, 0x0D, 0x0A];

/// Greeting sent when a terminal connects.
pub const BANNER: [u8; 169] = [0x0D, 0x0A, 0x3D, 0x3D, 0x3D, 0x3D, 0x3D, 0x3D, 0x3D, 0x3D, 0x3D, 0x3D, 0x3D, 0x3D, 0x3D, 0x3D, 0x3D, 0x3D, 0x3D, 0x3D, 0x3D, 0x3D, 0x3D, 0x3D, 0x3D, 0x3D, 0x3D, 0x3D, 0x3D, 0x3D, 0x3D, 0x3D, 0x3D, 0x3D, 0x3D, 0x3D, 0x3D, 0x3D, 0x3D, 0x3D, 0x3D, 0x3D, 0x0D, 0x0A, 0x20, 0x46, 0x6C, 0x79, 0x53, 0x6B, 0x79, 0x20, 0x46, 0x53, 0x2D, 0x69, 0x36, 0x58, 0x20, 0x43, 0x4C, 0x49, 0x20, 0x76, 0x30, 0x2E, 0x31, 0x2E, 0x30, 0x0D, 0x0A, 0x20, 0x54, 0x79, 0x70, 0x65, 0x20, 0x27, 0x68, 0x65, 0x6C, 0x70, 0x27, 0x20, 0x66, 0x6F, 0x72, 0x20, 0x63, 0x6F, 0x6D, 0x6D, 0x61, 0x6E, 0x64, 0x73, 0x2C, 0x20, 0x27, 0x73, 0x74, 0x72, 0x65, 0x61, 0x6D, 0x27, 0x20, 0x66, 0x6F, 0x72, 0x20, 0x74, 0x65, 0x6C, 0x65, 0x6D, 0x65, 0x74, 0x72, 0x79, 0x0D, 0x0A, 0x3D, 0x3D, 0x3D, 0x3D, 0x3D, 0x3D, 0x3D, 0x3D, 0x3D, 0x3D, 0x3D, 0x3D, 0x3D, 0x3D, 0x3D, 0x3D, 0x3D, 0x3D, 0x3D, 0x3D, 0x3D, 0x3D, 0x3D, 0x3D, 0x3D, 0x3D, 0x3D, 0x3D, 0x3D, 0x3D, 0x3D, 0x3D, 0x3D, 0x3D, 0x3D, 0x3D, 0x3D, 0x3D, 0x3D, 0x3D, 0x0D, 0x0A, 0x69, 0x36, 0x78, 0x3E, 0x20];

/// Command word.
pub const CMD_HELP: [u8; 4] = [0x68, 0x65, 0x6C, 0x70];

/// Command word.
pub const CMD_STATUS: [u8; 6] = [0x73, 0x74, 0x61, 0x74, 0x75, 0x73];

/// Command word.
pub const CMD_CHANNELS: [u8; 8] = [0x63, 0x68, 0x61, 0x6E, 0x6E, 0x65, 0x6C, 0x73];

/// Command word.
pub const CMD_TELEM: [u8; 5] = [0x74, 0x65, 0x6C, 0x65, 0x6D];

/// Command word.
pub const CMD_STREAM: [u8; 6] = [0x73, 0x74, 0x72, 0x65, 0x61, 0x6D];

/// Command word.
pub const CMD_TELEM_ON: [u8; 8] = [0x74, 0x65, 0x6C, 0x65, 0x6D, 0x20, 0x6F, 0x6E];

/// Command word.
pub const CMD_TELEM_STREAM: [u8; 12] = [0x74, 0x65, 0x6C, 0x65, 0x6D, 0x20, 0x73, 0x74, 0x72, 0x65, 0x61, 0x6D];

/// Command word.
pub const CMD_TELEM_OFF: [u8; 9] = [0x74, 0x65, 0x6C, 0x65, 0x6D, 0x20, 0x6F, 0x66, 0x66];

/// Command word.
pub const CMD_REBOOT: [u8; 6] = [0x72, 0x65, 0x62, 0x6F, 0x6F, 0x74];

/// Decimal digits of `n`, no leading zeros.
pub open spec fn dec_digits(n: nat) -> Seq<u8>
    decreases n,
{
    if n < 10 {
        seq![digit(n as int)]
    } else {
        dec_digits(n / 10).push(digit((n % 10) as int))
    }
}

proof fn lemma_dec_len(n: nat, k: nat, p: nat)
    requires
        1 <= k,
        p == vstd::arithmetic::power::pow(10, k),
        n < p,
    ensures
        dec_digits(n).len() <= k,
    decreases k,
{
    if n >= 10 {
        vstd::arithmetic::power::lemma_pow_positive(10, (k - 1) as nat);
        if k == 1 {
            vstd::arithmetic::power::lemma_pow1(10);
        } else {
            let q = vstd::arithmetic::power::pow(10, (k - 1) as nat) as nat;
            assert(p == 10 * q) by {
                vstd::arithmetic::power::lemma_pow_adds(10, 1, (k - 1) as nat);
                vstd::arithmetic::power::lemma_pow1(10);
            }
            assert(n / 10 < q) by (nonlinear_arith)
                requires n < p, p == 10 * q;
            lemma_dec_len(n / 10, (k - 1) as nat, q);
        }
    }
}

/// Append the decimal digits of `n`.
fn push_dec(out: &mut Vec<u8>, n: u32)
    ensures
        final(out)@ == old(out)@ + dec_digits(n as nat),
    decreases n,
{
    if n >= 10 {
        push_dec(out, n / 10);
    }
    out.push(48 + (n % 10) as u8);
    assert(out@ =~= old(out)@ + dec_digits(n as nat));
}

/// Append the bytes of `src`.
fn push_all(out: &mut Vec<u8>, src: &[u8])
    ensures
        final(out)@ == old(out)@ + src@,
{
    let mut i: usize = 0;
    while i < src.len()
        invariant
            i <= src@.len(),
            out@ == old(out)@ + src@.subrange(0, i as int),
        decreases src@.len() - i,
    {
        out.push(src[i]);
        i += 1;
        assert(out@ =~= old(out)@ + src@.subrange(0, i as int));
    }
    assert(src@.subrange(0, src@.len() as int) =~= src@);
}

/// A voltage in millivolts as volts with two decimals ("5.18", "12.60").
pub open spec fn volt_text(mv: u16) -> Seq<u8> {
    let v = mv as int / 1000;
    let rem = mv as int % 1000;
    let d1 = rem / 100;
    let d2 = (rem % 100) / 10;
    if v >= 10 {
        seq![digit((v / 10) % 10), digit(v % 10), 0x2Eu8, digit(d1), digit(d2)]
    } else {
        seq![digit(v), 0x2Eu8, digit(d1), digit(d2)]
    }
}

fn push_volt(out: &mut Vec<u8>, mv: u16)
    ensures
        final(out)@ == old(out)@ + volt_text(mv),
{
    let v = (mv / 1000) as u32;
    let rem = (mv % 1000) as u32;
    let d1 = (rem / 100) as u8;
    let d2 = ((rem % 100) / 10) as u8;
    if v >= 10 {
        out.push(48 + ((v / 10) % 10) as u8);
        out.push(48 + (v % 10) as u8);
        out.push(0x2E);
        out.push(48 + d1);
        out.push(48 + d2);
    } else {
        out.push(48 + v as u8);
        out.push(0x2E);
        out.push(48 + d1);
        out.push(48 + d2);
    }
    assert(out@ =~= old(out)@ + volt_text(mv));
}

/// The first `n` channels in decimal, comma separated.
pub open spec fn ch_list(chs: Seq<u16>, n: int) -> Seq<u8>
    decreases n,
{
    if n <= 0 {
        seq![]
    } else if n == 1 {
        dec_digits(chs[0] as nat)
    } else {
        ch_list(chs, n - 1) + seq![0x2Cu8] + dec_digits(chs[n - 1] as nat)
    }
}

/// One JSON telemetry line: battery and receiver voltage, signal strength,
/// packets sent, received and lost, and the 14 channels.
pub open spec fn telemetry_line(chs: Seq<u16>, t: TelemetryData, battery_mv: u16) -> Seq<u8> {
    telemetry_head(t, battery_mv) + ch_list(chs, 14) + TL_CLOSE@
}

/// The telemetry line up to the channel list.
pub open spec fn telemetry_head(t: TelemetryData, battery_mv: u16) -> Seq<u8> {
    let lost: nat = if t.packets_sent >= t.packets_received { (t.packets_sent - t.packets_received) as nat } else { 0 };
    TL_OPEN@ + volt_text(battery_mv) + TL_RSSI@ + dec_digits(t.rssi as nat) + TL_RXV@ + volt_text(t.rx_voltage_mv) + TL_TX@
        + dec_digits(t.packets_sent as nat) + TL_RX@ + dec_digits(t.packets_received as nat) + TL_ERR@ + dec_digits(lost)
        + TL_CH@
}

/// A channel as four digits with leading zeros.
pub open spec fn pad4(ch: u16) -> Seq<u8> {
    seq![digit((ch as int / 1000) % 10), digit((ch as int / 100) % 10), digit((ch as int / 10) % 10), digit(ch as int % 10)]
}

/// The first `n` channels as four digits each, comma separated.
pub open spec fn pad4_list(chs: Seq<u16>, n: int) -> Seq<u8>
    decreases n,
{
    if n <= 0 {
        seq![]
    } else if n == 1 {
        pad4(chs[0])
    } else {
        pad4_list(chs, n - 1) + seq![0x2Cu8] + pad4(chs[n - 1])
    }
}

/// The channel dump: {"ch":[....,....]} and a line break.
pub open spec fn channels_json(chs: Seq<u16>) -> Seq<u8> {
    CH_OPEN@ + pad4_list(chs, 14) + TL_CLOSE@
}

/// Append the telemetry line up to the channel list.
fn push_telemetry_head(out: &mut Vec<u8>, telem: &TelemetryData, battery_mv: u16)
    ensures
        final(out)@ == old(out)@ + telemetry_head(*telem, battery_mv),
{
    let ghost o = old(out)@;
    let ghost lost: nat = if telem.packets_sent >= telem.packets_received { (telem.packets_sent - telem.packets_received) as nat } else { 0 };
    push_all(out, &TL_OPEN);
    push_volt(out, battery_mv);
    push_all(out, &TL_RSSI);
    push_dec(out, telem.rssi as u32);
    let ghost p1 = TL_OPEN@ + volt_text(battery_mv) + TL_RSSI@ + dec_digits(telem.rssi as nat);
    assert(out@ =~= o + p1);
    push_all(out, &TL_RXV);
    push_volt(out, telem.rx_voltage_mv);
    push_all(out, &TL_TX);
    push_dec(out, telem.packets_sent);
    let ghost p2 = p1 + TL_RXV@ + volt_text(telem.rx_voltage_mv) + TL_TX@ + dec_digits(telem.packets_sent as nat);
    assert(out@ =~= o + p2);
    push_all(out, &TL_RX);
    push_dec(out, telem.packets_received);
    push_all(out, &TL_ERR);
    let lost_v = telem.packets_sent.saturating_sub(telem.packets_received);
    push_dec(out, lost_v);
    push_all(out, &TL_CH);
    let ghost p3 = p2 + TL_RX@ + dec_digits(telem.packets_received as nat) + TL_ERR@ + dec_digits(lost) + TL_CH@;
    assert(out@ =~= o + p3);
    assert(p3 =~= telemetry_head(*telem, battery_mv));
}

/// Append the telemetry line.
fn push_telemetry_line(out: &mut Vec<u8>, rf_chs: &[u16; 14], telem: &TelemetryData, battery_mv: u16)
    ensures
        final(out)@ == old(out)@ + telemetry_line(rf_chs@, *telem, battery_mv),
{
    push_telemetry_head(out, telem, battery_mv);
    let ghost before = out@;
    let mut i: usize = 0;
    while i < 14
        invariant
            i <= 14,
            out@ == before + ch_list(rf_chs@, i as int),
        decreases 14 - i,
    {
        if i > 0 {
            out.push(0x2C);
        }
        push_dec(out, rf_chs[i] as u32);
        i += 1;
        assert(out@ =~= before + ch_list(rf_chs@, i as int));
    }
    push_all(out, &TL_CLOSE);
    assert(out@ =~= old(out)@ + telemetry_line(rf_chs@, *telem, battery_mv));
}

/// Append the channel dump.
fn push_channels(out: &mut Vec<u8>, rf_chs: &[u16; 14])
    ensures
        final(out)@ == old(out)@ + channels_json(rf_chs@),
{
    push_all(out, &CH_OPEN);
    let ghost before = out@;
    let mut i: usize = 0;
    while i < 14
        invariant
            i <= 14,
            out@ == before + pad4_list(rf_chs@, i as int),
        decreases 14 - i,
    {
        if i > 0 {
            out.push(0x2C);
        }
        let ch = rf_chs[i];
        out.push(48 + ((ch / 1000) % 10) as u8);
        out.push(48 + ((ch / 100) % 10) as u8);
        out.push(48 + ((ch / 10) % 10) as u8);
        out.push(48 + (ch % 10) as u8);
        i += 1;
        assert(out@ =~= before + pad4_list(rf_chs@, i as int));
    }
    push_all(out, &TL_CLOSE);
    assert(out@ =~= old(out)@ + channels_json(rf_chs@));
}

/// Whitespace that is trimmed from a command.
pub open spec fn is_space(b: u8) -> bool {
    b == 0x09 || b == 0x0A || b == 0x0B || b == 0x0C || b == 0x0D || b == 0x20
}

/// Index of the first non-space byte at or after `i`.
pub open spec fn first_word(s: Seq<u8>, i: int) -> int
    decreases s.len() - i,
{
    if i < 0 || i >= s.len() || !is_space(s[i]) {
        i
    } else {
        first_word(s, i + 1)
    }
}

/// End of `s[..j]` without its trailing spaces.
pub open spec fn last_word_end(s: Seq<u8>, j: int) -> int
    decreases j,
{
    if j <= 0 || j > s.len() || !is_space(s[j - 1]) {
        j
    } else {
        last_word_end(s, j - 1)
    }
}

/// `s` without leading and trailing spaces.
pub open spec fn trimmed(s: Seq<u8>) -> Seq<u8> {
    let a = first_word(s, 0);
    if a >= s.len() {
        seq![]
    } else {
        s.subrange(a, last_word_end(s, s.len() as int))
    }
}

/// ASCII letters folded to lower case.
pub open spec fn lower(b: u8) -> u8 {
    if 0x41 <= b <= 0x5A {
        (b + 32) as u8
    } else {
        b
    }
}

/// Equal ignoring ASCII case.
pub open spec fn eq_ignore_case(a: Seq<u8>, b: Seq<u8>) -> bool {
    a.len() == b.len() && forall|i: int| 0 <= i < a.len() ==> lower(a[i]) == lower(b[i])
}

/// The typed command as the console reads it: UTF-8 text without
/// surrounding whitespace (nothing when the bytes are not UTF-8).
pub open spec fn command_text(cmd: Seq<u8>) -> Seq<u8> {
    if utf8_valid(cmd) {
        trimmed(cmd)
    } else {
        seq![]
    }
}

/// What a command does: its reply, the streaming switch it sets (if any),
/// and whether it reboots.
pub open spec fn command_effect(text: Seq<u8>, chs: Seq<u16>, t: TelemetryData, mv: u16) -> (Seq<u8>, Option<bool>, bool) {
    if eq_ignore_case(text, CMD_HELP@) {
        (HELP_TEXT@, None, false)
    } else if eq_ignore_case(text, CMD_STATUS@) {
        (STATUS_LINE@ + telemetry_line(chs, t, mv), None, false)
    } else if eq_ignore_case(text, CMD_CHANNELS@) {
        (channels_json(chs), None, false)
    } else if eq_ignore_case(text, CMD_TELEM@) {
        (telemetry_line(chs, t, mv), None, false)
    } else if eq_ignore_case(text, CMD_STREAM@) || eq_ignore_case(text, CMD_TELEM_ON@) || eq_ignore_case(text, CMD_TELEM_STREAM@) {
        (STREAM_ON@, Some(true), false)
    } else if eq_ignore_case(text, CMD_TELEM_OFF@) {
        (STREAM_OFF@, Some(false), false)
    } else if eq_ignore_case(text, CMD_REBOOT@) {
        (REBOOTING@, None, true)
    } else if text.len() > 0 {
        (UNKNOWN@, None, false)
    } else {
        (seq![], None, false)
    }
}

fn lower_exec(b: u8) -> (r: u8)
    ensures
        r == lower(b),
{
    if 0x41 <= b && b <= 0x5A { b + 32 } else { b }
}

/// ASCII case-insensitive comparison.
fn eq_ic(a: &[u8], b: &[u8]) -> (r: bool)
    ensures
        r == eq_ignore_case(a@, b@),
{
    if a.len() != b.len() {
        return false;
    }
    let mut i: usize = 0;
    while i < a.len()
        invariant
            a@.len() == b@.len(),
            i <= a@.len(),
            forall|k: int| 0 <= k < i ==> lower(a@[k]) == lower(b@[k]),
        decreases a@.len() - i,
    {
        if lower_exec(a[i]) != lower_exec(b[i]) {
            return false;
        }
        i += 1;
    }
    true
}

/// Strip surrounding whitespace (see `trimmed`).
fn trim_bytes(s: &[u8]) -> (r: Vec<u8>)
    ensures
        r@ == trimmed(s@),
{
    let n = s.len();
    let mut a: usize = 0;
    while a < n && (s[a] == 0x09 || s[a] == 0x0A || s[a] == 0x0B || s[a] == 0x0C || s[a] == 0x0D || s[a] == 0x20)
        invariant
            a <= n == s@.len(),
            first_word(s@, a as int) == first_word(s@, 0),
        decreases n - a,
    {
        a += 1;
    }
    let mut out: Vec<u8> = Vec::new();
    if a >= n {
        assert(out@ =~= trimmed(s@));
        return out;
    }
    let mut e: usize = n;
    while e > 0 && (s[e - 1] == 0x09 || s[e - 1] == 0x0A || s[e - 1] == 0x0B || s[e - 1] == 0x0C || s[e - 1] == 0x0D || s[e - 1] == 0x20)
        invariant
            e <= n == s@.len(),
            a < n,
            !is_space(s@[a as int]),
            last_word_end(s@, e as int) == last_word_end(s@, n as int),
            e > a,
        decreases e,
    {
        e -= 1;
    }
    let mut i = a;
    while i < e
        invariant
            a <= i <= e <= n == s@.len(),
            out@ == s@.subrange(a as int, i as int),
        decreases e - i,
    {
        out.push(s[i]);
        i += 1;
        assert(out@ =~= s@.subrange(a as int, i as int));
    }
    out
}

/// The console's line state.
pub struct Console {
    pub cmd: Seq<u8>,
    pub last_was_cr: bool,
    pub stream_enabled: bool,
}

/// One received byte at the console: reply bytes and whether it reboots.
/// While streaming, any byte pauses streaming. CR or LF (LF right after CR
/// ignored) ends the line: a line with text runs its command, then the
/// prompt follows unless streaming started. Backspace or DEL erases one
/// character. Anything else is echoed and kept, while the line has room
/// for 64 bytes.
#[verifier::opaque]
pub open spec fn key_step(c: Console, b: u8, chs: Seq<u16>, t: TelemetryData, mv: u16) -> (Console, Seq<u8>, bool) {
    if c.stream_enabled {
        (Console { cmd: seq![], last_was_cr: false, stream_enabled: false }, STREAM_PAUSED@, false)
    } else if b == 0x0D || b == 0x0A {
        let c1 = Console { last_was_cr: b == 0x0D, ..c };
        if b == 0x0A && c.last_was_cr {
            (c1, seq![], false)
        } else if c.cmd.len() > 0 {
            let e = command_effect(command_text(c.cmd), chs, t, mv);
            let stream = match e.1 {
                Some(x) => x,
                None => c.stream_enabled,
            };
            if e.2 {
                (Console { stream_enabled: stream, ..c1 }, CRLF@ + e.0, true)
            } else {
                (
                    Console { cmd: seq![], stream_enabled: stream, ..c1 },
                    CRLF@ + e.0 + (if !stream { PROMPT@ } else { seq![] }),
                    false,
                )
            }
        } else {
            (c1, CRLF@ + PROMPT@, false)
        }
    } else if b == 0x08 || b == 0x7F {
        if c.cmd.len() > 0 {
            (Console { cmd: c.cmd.drop_last(), last_was_cr: false, ..c }, ERASE@, false)
        } else {
            (Console { last_was_cr: false, ..c }, seq![], false)
        }
    } else if c.cmd.len() < 64 {
        (Console { cmd: c.cmd.push(b), last_was_cr: false, ..c }, seq![b], false)
    } else {
        (c, seq![], false)
    }
}

/// Received bytes taken in order until one reboots: the console after
/// them, the replies, whether a reboot came, and how many bytes were taken.
pub open spec fn console_run(c: Console, bytes: Seq<u8>, chs: Seq<u16>, t: TelemetryData, mv: u16) -> (Console, Seq<u8>, bool, nat)
    decreases bytes.len(),
{
    if bytes.len() == 0 {
        (c, seq![], false, 0)
    } else {
        let s = key_step(c, bytes[0], chs, t, mv);
        if s.2 {
            (s.0, s.1, true, 1)
        } else {
            let r = console_run(s.0, bytes.drop_first(), chs, t, mv);
            (r.0, s.1 + r.1, r.2, 1 + r.3)
        }
    }
}

/// The receive queue after more bytes arrive: as many as fit in its room
/// of 127, the rest dropped.
pub open spec fn rx_queued(p: Seq<u8>, data: Seq<u8>) -> Seq<u8> {
    let room = if p.len() >= 127 { 0 } else { 127 - p.len() };
    let k = if data.len() < room { data.len() as int } else { room };
    p + data.subrange(0, k)
}

proof fn lemma_rx_queued_push(p: Seq<u8>, d: Seq<u8>, b: u8)
    requires
        p.len() <= 127,
    ensures
        ({
            let q = rx_queued(p, d);
            rx_queued(p, d.push(b)) == (if q.len() < 127 { q.push(b) } else { q })
        }),
{
    let q = rx_queued(p, d);
    assert(rx_queued(p, d.push(b)) =~= (if q.len() < 127 { q.push(b) } else { q }));
}

/// The console after taking its queued bytes (see `console_run`).
pub open spec fn update_post(
    h0: SerialHandler,
    h1: SerialHandler,
    out0: Seq<u8>,
    out1: Seq<u8>,
    reboot: bool,
    chs: Seq<u16>,
    t: TelemetryData,
    mv: u16,
) -> bool {
    let r = console_run(h0.console(), h0.pending(), chs, t, mv);
    &&& h1.console() == r.0
    &&& out1 == out0 + r.1
    &&& reboot == r.2
    &&& h1.pending() == h0.pending().subrange(r.3 as int, h0.pending().len() as int)
}

/// The serial console: a 128-byte receive queue and the line editor.
pub struct SerialHandler {
    pub rx_queue: [u8; 128],
    pub rx_head: usize,
    pub rx_tail: usize,
    pub cmd_buf: [u8; 64],
    pub cmd_len: usize,
    pub last_was_cr: bool,
    pub stream_enabled: bool,
}

impl SerialHandler {
    pub open spec fn wf(&self) -> bool {
        self.rx_head < 128 && self.rx_tail < 128 && self.cmd_len <= 64
    }

    /// Bytes received and not yet taken.
    pub open spec fn pending(&self) -> Seq<u8> {
        if self.rx_head >= self.rx_tail {
            self.rx_queue@.subrange(self.rx_tail as int, self.rx_head as int)
        } else {
            self.rx_queue@.subrange(self.rx_tail as int, 128) + self.rx_queue@.subrange(0, self.rx_head as int)
        }
    }

    /// The line editor's state.
    pub open spec fn console(&self) -> Console {
        Console { cmd: self.cmd_buf@.subrange(0, self.cmd_len as int), last_was_cr: self.last_was_cr, stream_enabled: self.stream_enabled }
    }

    /// An empty console, not streaming.
    pub fn new() -> (h: Self)
        ensures
            h.wf(),
            h.pending() == Seq::<u8>::empty(),
            h.console() == (Console { cmd: seq![], last_was_cr: false, stream_enabled: false }),
    {
        let h = SerialHandler {
            rx_queue: [0u8; 128],
            rx_head: 0,
            rx_tail: 0,
            cmd_buf: [0u8; 64],
            cmd_len: 0,
            last_was_cr: false,
            stream_enabled: false,
        };
        assert(h.pending() =~= Seq::<u8>::empty());
        assert(h.console().cmd =~= Seq::<u8>::empty());
        h
    }

    /// Whether telemetry is streaming.
    pub fn is_streaming(&self) -> (b: bool)
        ensures
            b == self.stream_enabled,
    {
        self.stream_enabled
    }

    /// Queue one received byte when there is room.
    fn push_rx(&mut self, b: u8)
        requires
            old(self).wf(),
        ensures
            final(self).wf(),
            final(self).console() == old(self).console(),
            final(self).pending() == (if old(self).pending().len() < 127 { old(self).pending().push(b) } else { old(self).pending() }),
    {
        let next = (self.rx_head + 1) % 128;
        if next != self.rx_tail {
            self.rx_queue[self.rx_head] = b;
            self.rx_head = next;
        }
        let ghost p0 = old(self).pending();
        assert(p0.len() == if old(self).rx_head >= old(self).rx_tail {
            old(self).rx_head - old(self).rx_tail
        } else {
            128 - old(self).rx_tail + old(self).rx_head
        });
        assert(self.pending() =~= (if p0.len() < 127 { p0.push(b) } else { p0 }));
        assert(self.console().cmd =~= old(self).console().cmd);
    }

    /// Queue received bytes; bytes beyond the queue's room (127) are
    /// dropped.
    pub fn drain_rx(&mut self, data: &[u8])
        requires
            old(self).wf(),
        ensures
            final(self).wf(),
            final(self).console() == old(self).console(),
            final(self).pending() == rx_queued(old(self).pending(), data@),
    {
        let mut i: usize = 0;
        while i < data.len()
            invariant
                self.wf(),
                i <= data@.len(),
                self.console() == old(self).console(),
                self.pending() == rx_queued(old(self).pending(), data@.subrange(0, i as int)),
            decreases data@.len() - i,
        {
            let ghost p = self.pending();
            self.push_rx(data[i]);
            proof { lemma_rx_queued_push(old(self).pending(), data@.subrange(0, i as int), data@[i as int]); }
            assert(data@.subrange(0, i + 1) =~= data@.subrange(0, i as int).push(data@[i as int]));
            i += 1;
        }
        assert(data@.subrange(0, data@.len() as int) =~= data@);
    }

    /// The greeting shown when a terminal connects.
    pub fn send_banner(&self, out: &mut Vec<u8>)
        ensures
            final(out)@ == old(out)@ + BANNER@,
    {
        push_all(out, &BANNER);
    }

    /// Append one telemetry line.
    pub fn send_telemetry_line(&self, out: &mut Vec<u8>, rf_chs: &[u16; 14], telem: &TelemetryData, battery_mv: u16)
        ensures
            final(out)@ == old(out)@ + telemetry_line(rf_chs@, *telem, battery_mv),
    {
        push_telemetry_line(out, rf_chs, telem, battery_mv);
    }

    /// Run a typed command (see `command_effect`); returns whether it reboots.
    fn handle_command(&mut self, out: &mut Vec<u8>, rf_chs: &[u16; 14], telem: &TelemetryData, battery_mv: u16) -> (reboot: bool)
        requires
            old(self).wf(),
        ensures
            final(self).wf(),
            ({
                let e = command_effect(command_text(old(self).console().cmd), rf_chs@, *telem, battery_mv);
                &&& final(out)@ == old(out)@ + e.0
                &&& reboot == e.2
                &&& final(self).stream_enabled == (match e.1 { Some(x) => x, None => old(self).stream_enabled })
                &&& final(self).rx_queue == old(self).rx_queue && final(self).rx_head == old(self).rx_head && final(self).rx_tail == old(self).rx_tail
                &&& final(self).cmd_buf == old(self).cmd_buf && final(self).cmd_len == old(self).cmd_len
                &&& final(self).last_was_cr == old(self).last_was_cr
            }),
    {
        let raw = vstd::slice::slice_subrange(self.cmd_buf.as_slice(), 0, self.cmd_len);
        let text: Vec<u8> = if is_utf8(raw) { trim_bytes(raw) } else { Vec::new() };
        assert(text@ == command_text(old(self).console().cmd));
        let t = text.as_slice();
        if eq_ic(t, &CMD_HELP) {
            push_all(out, &HELP_TEXT);
        } else if eq_ic(t, &CMD_STATUS) {
            push_all(out, &STATUS_LINE);
            push_telemetry_line(out, rf_chs, telem, battery_mv);
            assert(out@ =~= old(out)@ + (STATUS_LINE@ + telemetry_line(rf_chs@, *telem, battery_mv)));
        } else if eq_ic(t, &CMD_CHANNELS) {
            push_channels(out, rf_chs);
        } else if eq_ic(t, &CMD_TELEM) {
            push_telemetry_line(out, rf_chs, telem, battery_mv);
        } else if eq_ic(t, &CMD_STREAM) || eq_ic(t, &CMD_TELEM_ON) || eq_ic(t, &CMD_TELEM_STREAM) {
            self.stream_enabled = true;
            push_all(out, &STREAM_ON);
        } else if eq_ic(t, &CMD_TELEM_OFF) {
            self.stream_enabled = false;
            push_all(out, &STREAM_OFF);
        } else if eq_ic(t, &CMD_REBOOT) {
            push_all(out, &REBOOTING);
            return true;
        } else if t.len() > 0 {
            push_all(out, &UNKNOWN);
        } else {
            assert(out@ =~= old(out)@ + Seq::<u8>::empty());
        }
        false
    }

    /// One received byte at the console (see `key_step`).
    fn key(&mut self, b: u8, out: &mut Vec<u8>, rf_chs: &[u16; 14], telem: &TelemetryData, battery_mv: u16) -> (reboot: bool)
        requires
            old(self).wf(),
        ensures
            final(self).wf(),
            ({
                let s = key_step(old(self).console(), b, rf_chs@, *telem, battery_mv);
                &&& final(self).console() == s.0
                &&& final(out)@ == old(out)@ + s.1
                &&& reboot == s.2
                &&& final(self).rx_queue == old(self).rx_queue && final(self).rx_head == old(self).rx_head && final(self).rx_tail == old(self).rx_tail
            }),
    {
        reveal(key_step);
        if self.stream_enabled {
            self.stream_enabled = false;
            self.cmd_len = 0;
            self.last_was_cr = false;
            push_all(out, &STREAM_PAUSED);
            assert(self.console().cmd =~= Seq::<u8>::empty());
            return false;
        }
        if b == 0x0D || b == 0x0A {
            let second = b == 0x0A && self.last_was_cr;
            self.last_was_cr = b == 0x0D;
            if !second {
                push_all(out, &CRLF);
                if self.cmd_len > 0 {
                    let reboot = self.handle_command(out, rf_chs, telem, battery_mv);
                    if reboot {
                        return true;
                    }
                    self.cmd_len = 0;
                    assert(self.console().cmd =~= Seq::<u8>::empty());
                }
                if !self.stream_enabled {
                    push_all(out, &PROMPT);
                }
            }
            assert(out@ =~= old(out)@ + key_step(old(self).console(), b, rf_chs@, *telem, battery_mv).1);
            return false;
        }
        if b == 0x08 || b == 0x7F {
            self.last_was_cr = false;
            if self.cmd_len > 0 {
                self.cmd_len -= 1;
                push_all(out, &ERASE);
                assert(self.console().cmd =~= old(self).console().cmd.drop_last());
            }
            assert(out@ =~= old(out)@ + key_step(old(self).console(), b, rf_chs@, *telem, battery_mv).1);
            return false;
        }
        if self.cmd_len < 64 {
            self.last_was_cr = false;
            let n = self.cmd_len;
            self.cmd_buf[n] = b;
            self.cmd_len = n + 1;
            out.push(b);
            assert(self.console().cmd =~= old(self).console().cmd.push(b));
        }
        assert(out@ =~= old(out)@ + key_step(old(self).console(), b, rf_chs@, *telem, battery_mv).1);
        false
    }

    /// Take every queued byte through the console (see `console_run`),
    /// appending the replies to `out`; returns whether a reboot was asked
    /// for (bytes after it stay queued).
    pub fn update(&mut self, out: &mut Vec<u8>, rf_chs: &[u16; 14], telem: &TelemetryData, battery_mv: u16) -> (reboot: bool)
        requires
            old(self).wf(),
        ensures
            final(self).wf(),
            update_post(*old(self), *final(self), old(out)@, final(out)@, reboot, rf_chs@, *telem, battery_mv),
    {
        let ghost all = old(self).pending();
        let ghost c0 = old(self).console();
        let ghost o0 = old(out)@;
        while self.rx_tail != self.rx_head
            invariant
                self.wf(),
                all == old(self).pending(),
                c0 == old(self).console(),
                o0 == old(out)@,
                ({
                    let rest = self.pending();
                    let r = console_run(self.console(), rest, rf_chs@, *telem, battery_mv);
                    let r0 = console_run(c0, all, rf_chs@, *telem, battery_mv);
                    &&& rest.len() <= all.len()
                    &&& rest == all.subrange(all.len() - rest.len(), all.len() as int)
                    &&& r0.0 == r.0
                    &&& r0.1 == (out@.subrange(o0.len() as int, out@.len() as int)) + r.1
                    &&& r0.2 == r.2
                    &&& r0.3 == (all.len() - rest.len()) + r.3
                    &&& out@.subrange(0, o0.len() as int) == o0
                    &&& o0.len() <= out@.len()
                }),
            decreases self.pending().len(),
        {
            let ghost rest = self.pending();
            let ghost before_out = out@;
            let ghost chead = self.console();
            let b = self.rx_queue[self.rx_tail];
            self.rx_tail = (self.rx_tail + 1) % 128;
            assert(rest.len() > 0);
            assert(rest[0] == b);
            assert(self.pending() =~= rest.drop_first());
            let ghost cbefore = Console { cmd: self.cmd_buf@.subrange(0, self.cmd_len as int), last_was_cr: self.last_was_cr, stream_enabled: self.stream_enabled };
            let reboot = self.key(b, out, rf_chs, telem, battery_mv);
            assert(out@.subrange(0, o0.len() as int) =~= o0);
            if reboot {
                assert(out@.subrange(o0.len() as int, out@.len() as int) =~= before_out.subrange(o0.len() as int, before_out.len() as int) + key_step(cbefore, b, rf_chs@, *telem, battery_mv).1);
                assert(self.pending() =~= all.subrange(all.len() - rest.len() + 1, all.len() as int));
                let ghost st = key_step(cbefore, b, rf_chs@, *telem, battery_mv);
                assert(console_run(cbefore, rest, rf_chs@, *telem, battery_mv) == (st.0, st.1, true, 1nat));
                assert(out@ =~= o0 + out@.subrange(o0.len() as int, out@.len() as int));
                assert(chead == cbefore);
                return true;
            }
            assert(out@.subrange(o0.len() as int, out@.len() as int) =~= before_out.subrange(o0.len() as int, before_out.len() as int) + key_step(cbefore, b, rf_chs@, *telem, battery_mv).1);
            assert(self.pending() =~= all.subrange(all.len() - (rest.len() - 1), all.len() as int));
        }
        assert(out@ =~= o0 + out@.subrange(o0.len() as int, out@.len() as int));
        assert(self.pending() =~= all.subrange(console_run(c0, all, rf_chs@, *telem, battery_mv).3 as int, all.len() as int));
        false
    }
}

} // verus!
