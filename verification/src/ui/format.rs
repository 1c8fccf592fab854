//! Fixed-width text for the 128x64 display: hexadecimal IDs, decimal
//! counters, percentages, voltages and trim readouts, written into caller
//! buffers without allocation. Functions that produce variable-length text
//! return its length; the text is always ASCII.
use vstd::prelude::*;
use crate::trim::ActiveTrim;

verus! {

/// Names of mix sources, indexed by source number.
pub const SOURCE_NAMES: [&'static str; 26] = [
    "None", "Roll", "Pitch", "Thr", "Yaw", "VRA", "VRB", "SA", "SB", "SC", "SD", "MAX", "CH1", "CH2", "CH3",
    "CH4", "CH5", "CH6", "CH7", "CH8", "CH9", "CH10", "CH11", "CH12", "CH13", "CH14",
];

/// Names of mix switch conditions.
pub const SWITCH_COND_NAMES: [&'static str; 11] = ["ON", "SA^", "SAv", "SB^", "SB-", "SBv", "SC^", "SC-", "SCv", "SD^", "SDv"];

/// Names of mix modes.
pub const MODE_NAMES: [&'static str; 3] = ["ADD (+)", "MULT (*)", "REPL (:=)"];

/// Names of wing and tail mixing templates.
pub const TEMPLATE_NAMES: [&'static str; 4] = ["NORMAL", "ELEVON/DELTA", "V-TAIL", "FLAPERON"];

/// Names of dual-rate switches.
pub const DR_SWITCH_NAMES: [&'static str; 5] = ["None", "SA", "SB", "SC", "SD"];

/// Names of the rate-adjusted axes.
pub const AXIS_NAMES: [&'static str; 3] = ["Roll", "Pitch", "Yaw"];

/// The ASCII digit for `d` (0..=9).
pub open spec fn digit(d: int) -> u8 {
    (48 + d) as u8
}

/// The hexadecimal digit for `d` (0..=15), upper case.
pub open spec fn hex_digit(d: int) -> u8 {
    if d < 10 {
        (48 + d) as u8
    } else {
        (55 + d) as u8
    }
}

pub const HEX_CHARS: [u8; 16] = [
    0x30, 0x31, 0x32, 0x33, 0x34, 0x35, 0x36, 0x37, 0x38, 0x39, 0x41, 0x42, 0x43, 0x44, 0x45, 0x46,
];

/// Eight upper-case hexadecimal digits of `val`, most significant first.
pub fn u32_to_hex(val: u32, buf: &mut [u8; 8])
    ensures
        final(buf)@ == Seq::new(8, |k: int| hex_digit(((val >> ((4 * (7 - k)) as u32)) & 0x0F) as int)),
{
    let mut i: usize = 0;
    while i < 8
        invariant
            i <= 8,
            forall|k: int| 8 - i <= k < 8 ==> #[trigger] buf@[k] == hex_digit(((val >> ((4 * (7 - k)) as u32)) & 0x0F) as int),
        decreases 8 - i,
    {
        let d = (val >> ((i * 4) as u32)) & 0x0F;
        assert(d < 16) by (bit_vector)
            requires d == (val >> ((i * 4) as u32)) & 0x0F;
        buf[7 - i] = HEX_CHARS[d as usize];
        assert(HEX_CHARS@[d as int] == hex_digit(d as int));
        assert((4 * (7 - (7 - i))) as u32 == (i * 4) as u32);
        i += 1;
    }
    assert(buf@ =~= Seq::new(8, |k: int| hex_digit(((val >> ((4 * (7 - k)) as u32)) & 0x0F) as int)));
}

/// Four decimal digits of `val` with leading zeros (thousands and up are
/// taken modulo 10 000).
pub fn u16_to_dec_4(val: u16, buf: &mut [u8; 4])
    ensures
        final(buf)@ == seq![digit((val as int / 1000) % 10), digit((val as int / 100) % 10), digit((val as int / 10) % 10), digit(val as int % 10)],
{
    buf[0] = 48 + ((val / 1000) % 10) as u8;
    buf[1] = 48 + ((val / 100) % 10) as u8;
    buf[2] = 48 + ((val / 10) % 10) as u8;
    buf[3] = 48 + (val % 10) as u8;
    assert(buf@ =~= seq![digit((val as int / 1000) % 10), digit((val as int / 100) % 10), digit((val as int / 10) % 10), digit(val as int % 10)]);
}

/// The next character of the name editor's alphabet: space, A..Z, 0..9,
/// '-', '_', back to space (anything else becomes space).
pub open spec fn next_char(c: u8) -> u8 {
    if c == 0x20 {
        0x41
    } else if 0x41 <= c <= 0x59 {
        (c + 1) as u8
    } else if c == 0x5A {
        0x30
    } else if 0x30 <= c <= 0x38 {
        (c + 1) as u8
    } else if c == 0x39 {
        0x2D
    } else if c == 0x2D {
        0x5F
    } else {
        0x20
    }
}

/// The previous character of the name editor's alphabet.
pub open spec fn prev_char(c: u8) -> u8 {
    if c == 0x20 {
        0x5F
    } else if c == 0x5F {
        0x2D
    } else if c == 0x2D {
        0x39
    } else if 0x31 <= c <= 0x39 {
        (c - 1) as u8
    } else if c == 0x30 {
        0x5A
    } else if 0x42 <= c <= 0x5A {
        (c - 1) as u8
    } else {
        0x20
    }
}

/// Next character of the name editor's alphabet.
pub fn next_ascii(c: u8) -> (r: u8)
    ensures
        r == next_char(c),
{
    if c == 0x20 {
        0x41
    } else if 0x41 <= c && c <= 0x59 {
        c + 1
    } else if c == 0x5A {
        0x30
    } else if 0x30 <= c && c <= 0x38 {
        c + 1
    } else if c == 0x39 {
        0x2D
    } else if c == 0x2D {
        0x5F
    } else {
        0x20
    }
}

/// Previous character of the name editor's alphabet.
pub fn prev_ascii(c: u8) -> (r: u8)
    ensures
        r == prev_char(c),
{
    if c == 0x20 {
        0x5F
    } else if c == 0x5F {
        0x2D
    } else if c == 0x2D {
        0x39
    } else if 0x31 <= c && c <= 0x39 {
        c - 1
    } else if c == 0x30 {
        0x5A
    } else if 0x42 <= c && c <= 0x5A {
        c - 1
    } else {
        0x20
    }
}

/// Decimal digits of `v` (0..=999) without leading zeros.
pub open spec fn dec3(v: int) -> Seq<u8> {
    if v >= 100 {
        seq![digit(v / 100), digit((v / 10) % 10), digit(v % 10)]
    } else if v >= 10 {
        seq![digit((v / 10) % 10), digit(v % 10)]
    } else {
        seq![digit(v)]
    }
}

/// Write `dec3(v)` then '%' at `start`; returns the end.
fn put_dec3_pct(v: u8, buf: &mut [u8], start: usize) -> (end: usize)
    requires
        start + 4 <= old(buf)@.len(),
    ensures
        end == start + dec3(v as int).len() + 1,
        final(buf)@.len() == old(buf)@.len(),
        final(buf)@.subrange(start as int, end as int) == dec3(v as int) + seq![0x25u8],
        forall|k: int| 0 <= k < start ==> final(buf)@[k] == old(buf)@[k],
{
    let mut i = start;
    if v >= 100 {
        buf[i] = 48 + v / 100;
        i += 1;
    }
    if v >= 10 {
        buf[i] = 48 + (v / 10) % 10;
        i += 1;
    }
    buf[i] = 48 + v % 10;
    i += 1;
    buf[i] = 0x25;
    i += 1;
    assert(buf@.subrange(start as int, i as int) =~= dec3(v as int) + seq![0x25u8]);
    i
}

/// A signed percentage: sign ('-' or '+'), digits, '%'; returns its length.
pub fn i8_to_dec(val: i8, buf: &mut [u8; 6]) -> (n: usize)
    ensures
        ({
            let mag = if val < 0 { -(val as int) } else { val as int };
            let sign: u8 = if val < 0 { 0x2D } else { 0x2B };
            &&& n == 2 + dec3(mag).len()
            &&& final(buf)@.subrange(0, n as int) == seq![sign] + dec3(mag) + seq![0x25u8]
        }),
{
    let abs_val: u8 = if val < 0 {
        buf[0] = 0x2D;
        (-(val as i16)) as u8
    } else {
        buf[0] = 0x2B;
        val as u8
    };
    let ghost b0 = buf@;
    let n = put_dec3_pct(abs_val, buf, 1);
    assert(buf@.subrange(0, n as int) =~= seq![buf@[0]] + buf@.subrange(1, n as int));
    n
}

/// An unsigned percentage: digits, '%'; returns its length.
pub fn u8_to_dec(val: u8, buf: &mut [u8; 5]) -> (n: usize)
    ensures
        n == 1 + dec3(val as int).len(),
        final(buf)@.subrange(0, n as int) == dec3(val as int) + seq![0x25u8],
{
    put_dec3_pct(val, buf, 0)
}

/// A digit of a right-aligned number, or a space where the number is too
/// short.
pub open spec fn padded_digit(v: int, place: int) -> u8 {
    if place == 1 || v >= place {
        digit((v / place) % 10)
    } else {
        0x20
    }
}

/// `val` (at most 99 999) right-aligned in five characters.
pub fn u32_to_dec_5(val: u32, buf: &mut [u8; 5])
    ensures
        ({
            let v = if val < 99999 { val as int } else { 99999 };
            final(buf)@ == seq![padded_digit(v, 10000), padded_digit(v, 1000), padded_digit(v, 100), padded_digit(v, 10), padded_digit(v, 1)]
        }),
{
    let v = if val < 99999 { val } else { 99999 };
    buf[0] = if v >= 10000 { 48 + ((v / 10000) % 10) as u8 } else { 0x20 };
    buf[1] = if v >= 1000 { 48 + ((v / 1000) % 10) as u8 } else { 0x20 };
    buf[2] = if v >= 100 { 48 + ((v / 100) % 10) as u8 } else { 0x20 };
    buf[3] = if v >= 10 { 48 + ((v / 10) % 10) as u8 } else { 0x20 };
    buf[4] = 48 + (v % 10) as u8;
    assert(buf@ =~= seq![padded_digit(v as int, 10000), padded_digit(v as int, 1000), padded_digit(v as int, 100), padded_digit(v as int, 10), padded_digit(v as int, 1)]);
}

/// A voltage in millivolts as "X.YYV" or "XX.YYV" (hundredths truncated).
pub open spec fn vbat_text(mv: int) -> Seq<u8> {
    let v = mv / 1000;
    let rem = mv % 1000;
    let d1 = rem / 100;
    let d2 = (rem % 100) / 10;
    if v >= 10 {
        seq![digit(v / 10), digit(v % 10), 0x2Eu8, digit(d1), digit(d2), 0x56u8]
    } else {
        seq![digit(v), 0x2Eu8, digit(d1), digit(d2), 0x56u8]
    }
}

/// Format a voltage (see `vbat_text`); returns its length.
pub fn format_vbat(mv: u16, buf: &mut [u8; 6]) -> (n: usize)
    ensures
        n == vbat_text(mv as int).len(),
        final(buf)@.subrange(0, n as int) == vbat_text(mv as int),
{
    let v = mv / 1000;
    let rem = mv % 1000;
    let d1 = rem / 100;
    let d2 = (rem % 100) / 10;
    if v >= 10 {
        buf[0] = 48 + (v / 10) as u8;
        buf[1] = 48 + (v % 10) as u8;
        buf[2] = 0x2E;
        buf[3] = 48 + d1 as u8;
        buf[4] = 48 + d2 as u8;
        buf[5] = 0x56;
        assert(buf@.subrange(0, 6) =~= vbat_text(mv as int));
        6
    } else {
        buf[0] = 48 + v as u8;
        buf[1] = 0x2E;
        buf[2] = 48 + d1 as u8;
        buf[3] = 48 + d2 as u8;
        buf[4] = 0x56;
        assert(buf@.subrange(0, 5) =~= vbat_text(mv as int));
        5
    }
}

/// A stick position (-1000..=1000 for full travel) as a signed percentage
/// in five characters: sign (space at zero), then "100%", " nn%" or "  n%".
pub open spec fn percent_text(val: int) -> Seq<u8> {
    let pct = if val >= 0 { val / 10 } else { -((-val) / 10) };
    let a = if pct < 0 { -pct } else { pct };
    let sign: u8 = if pct < 0 { 0x2D } else if pct > 0 { 0x2B } else { 0x20 };
    if a >= 100 {
        seq![sign, 0x31u8, 0x30, 0x30, 0x25]
    } else if a >= 10 {
        seq![sign, 0x20u8, digit(a / 10), digit(a % 10), 0x25]
    } else {
        seq![sign, 0x20u8, 0x20, digit(a), 0x25]
    }
}

/// Format a stick position (see `percent_text`); returns its length (5).
pub fn format_percent(val: i16, buf: &mut [u8; 5]) -> (n: usize)
    ensures
        n == 5,
        final(buf)@ == percent_text(val as int),
{
    let pct: i16 = val / 10;
    let abs_pct: u16 = if pct < 0 { (-(pct as i32)) as u16 } else { pct as u16 };
    if pct < 0 {
        buf[0] = 0x2D;
    } else if pct > 0 {
        buf[0] = 0x2B;
    } else {
        buf[0] = 0x20;
    }
    if abs_pct >= 100 {
        buf[1] = 0x31;
        buf[2] = 0x30;
        buf[3] = 0x30;
        buf[4] = 0x25;
    } else if abs_pct >= 10 {
        buf[1] = 0x20;
        buf[2] = 48 + (abs_pct / 10) as u8;
        buf[3] = 48 + (abs_pct % 10) as u8;
        buf[4] = 0x25;
    } else {
        buf[1] = 0x20;
        buf[2] = 0x20;
        buf[3] = 48 + abs_pct as u8;
        buf[4] = 0x25;
    }
    assert(buf@ =~= percent_text(val as int));
    5
}

/// Throttle position (-1000..=1000) as 0..=100 percent in four characters
/// (the quotient truncated toward zero, then clamped).
pub open spec fn throttle_text(val: int) -> Seq<u8> {
    let num = (val + 1000) * 100;
    let raw = if num >= 0 { num / 2000 } else { -((-num) / 2000) };
    let p = if raw < 0 { 0 } else if raw > 100 { 100 } else { raw };
    if p >= 100 {
        seq![0x31u8, 0x30, 0x30, 0x25]
    } else if p >= 10 {
        seq![0x20u8, digit(p / 10), digit(p % 10), 0x25]
    } else {
        seq![0x20u8, 0x20, digit(p), 0x25]
    }
}

/// Format a throttle position (see `throttle_text`); returns its length (4).
pub fn format_throttle_percent(val: i16, buf: &mut [u8; 5]) -> (n: usize)
    ensures
        n == 4,
        final(buf)@.subrange(0, 4) == throttle_text(val as int),
{
    let num: i32 = (val as i32 + 1000) * 100;
    let raw: i32 = if num >= 0 { num / 2000 } else { -((-num) / 2000) };
    let pct: u8 = if raw < 0 { 0 } else if raw > 100 { 100 } else { raw as u8 };
    if pct >= 100 {
        buf[0] = 0x31;
        buf[1] = 0x30;
        buf[2] = 0x30;
        buf[3] = 0x25;
    } else if pct >= 10 {
        buf[0] = 0x20;
        buf[1] = 48 + pct / 10;
        buf[2] = 48 + pct % 10;
        buf[3] = 0x25;
    } else {
        buf[0] = 0x20;
        buf[1] = 0x20;
        buf[2] = 48 + pct;
        buf[3] = 0x25;
    }
    assert(buf@.subrange(0, 4) =~= throttle_text(val as int));
    4
}

/// Letter of a trimmed axis on the trim readout: A, E, T, R (space when none).
pub open spec fn axis_letter(axis: ActiveTrim) -> u8 {
    match axis {
        ActiveTrim::Roll => 0x41,
        ActiveTrim::Pitch => 0x45,
        ActiveTrim::Throttle => 0x54,
        ActiveTrim::Yaw => 0x52,
        ActiveTrim::NoAxis => 0x20,
    }
}

/// The trim readout "TRM X:+nn".
pub open spec fn trim_text(axis: ActiveTrim, val: int) -> Seq<u8> {
    let sign: u8 = if val < 0 { 0x2D } else if val > 0 { 0x2B } else { 0x20 };
    let a = if val < 0 { -val } else { val };
    seq![0x54u8, 0x52, 0x4D, 0x20, axis_letter(axis), 0x3A, sign, digit(a / 10), digit(a % 10)]
}

/// Format the trim readout (see `trim_text`); returns its length (9).
pub fn format_trim(axis: ActiveTrim, val: i8, buf: &mut [u8; 9]) -> (n: usize)
    ensures
        n == 9,
        final(buf)@ == trim_text(axis, val as int),
{
    let name: u8 = match axis {
        ActiveTrim::Roll => 0x41,
        ActiveTrim::Pitch => 0x45,
        ActiveTrim::Throttle => 0x54,
        ActiveTrim::Yaw => 0x52,
        ActiveTrim::NoAxis => 0x20,
    };
    buf[0] = 0x54;
    buf[1] = 0x52;
    buf[2] = 0x4D;
    buf[3] = 0x20;
    buf[4] = name;
    buf[5] = 0x3A;
    buf[6] = if val < 0 { 0x2D } else if val > 0 { 0x2B } else { 0x20 };
    let abs: u8 = if val < 0 { (-(val as i16)) as u8 } else { val as u8 };
    buf[7] = 48 + abs / 10;
    buf[8] = 48 + abs % 10;
    assert(buf@ =~= trim_text(axis, val as int));
    9
}

} // verus!
