//! USB HID gamepad: eight 11-bit axes and sixteen buttons, in the
//! 18-byte input report that flight simulators read.
use vstd::prelude::*;
use crate::input::{SwitchPos, Switches};

verus! {

/// Report descriptor: a joystick with 16 buttons and 8 axes (X, Y, Z, Rx,
/// Ry, Rz, dial, slider) of 0..=2047.
pub const GAMEPAD_REPORT_DESC: [u8; 56] = [
    0x05, 0x01, 0x09, 0x04, 0xA1, 0x01, 0xA1, 0x00, 0x05, 0x09, 0x19, 0x01, 0x29, 0x10, 0x15, 0x00, 0x25, 0x01,
    0x95, 0x10, 0x75, 0x01, 0x81, 0x02, 0x05, 0x01, 0x09, 0x30, 0x09, 0x31, 0x09, 0x32, 0x09, 0x33, 0x09, 0x34,
    0x09, 0x35, 0x09, 0x37, 0x09, 0x36, 0x16, 0x00, 0x00, 0x26, 0xFF, 0x07, 0x75, 0x10, 0x95, 0x08, 0x81, 0x02,
    0xC0, 0xC0,
];

pub const REPORT_SIZE: usize = 18;

/// Axis value of a pulse width: 1000..=2000 us (clamped) mapped onto
/// 0..=2047, rounded down.
pub open spec fn axis_of(us: u16) -> int {
    let c = if us < 1000 { 1000 } else if us > 2000 { 2000 } else { us as int };
    (c - 1000) * 2047 / 1000
}

/// Map a pulse width to an 11-bit axis value.
pub fn us_to_axis(us: u16) -> (a: u16)
    ensures
        a == axis_of(us),
        a <= 2047,
{
    let clamped: u32 = if us < 1000 { 1000 } else if us > 2000 { 2000 } else { us as u32 };
    let v = ((clamped - 1000) * 2047) / 1000;
    assert(v <= 2047) by (nonlinear_arith)
        requires
            clamped <= 2000,
            clamped >= 1000,
            v == ((clamped - 1000) * 2047) / 1000;
    v as u16
}

/// Buttons 1..=6: SA down, SB mid, SB down, SC mid, SC down, SD down.
pub open spec fn switch_buttons_of(sw: Switches) -> int {
    (if sw.sa == SwitchPos::Down { 1int } else { 0 }) + (if sw.sb == SwitchPos::Mid { 2int } else { 0 })
        + (if sw.sb == SwitchPos::Down { 4int } else { 0 }) + (if sw.sc == SwitchPos::Mid { 8int } else { 0 })
        + (if sw.sc == SwitchPos::Down { 16int } else { 0 }) + (if sw.sd == SwitchPos::Down { 32int } else { 0 })
}

/// Buttons 7..=14: channels 7..=14 above 1650 us.
pub open spec fn channel_buttons_of(chs: Seq<u16>) -> int {
    (if chs[6] > 1650 { 64int } else { 0 }) + (if chs[7] > 1650 { 128int } else { 0 })
        + (if chs[8] > 1650 { 256int } else { 0 }) + (if chs[9] > 1650 { 512int } else { 0 })
        + (if chs[10] > 1650 { 1024int } else { 0 }) + (if chs[11] > 1650 { 2048int } else { 0 })
        + (if chs[12] > 1650 { 4096int } else { 0 }) + (if chs[13] > 1650 { 8192int } else { 0 })
}

/// The sixteen button bits.
pub open spec fn buttons_of(chs: Seq<u16>, sw: Switches) -> int {
    switch_buttons_of(sw) + channel_buttons_of(chs)
}

/// The input report: buttons (little endian), then the axes of channels
/// 1..=8 (little endian).
pub open spec fn gamepad_report(chs: Seq<u16>, sw: Switches) -> Seq<u8> {
    let b = buttons_of(chs, sw);
    seq![(b % 256) as u8, (b / 256) as u8] + Seq::new(16, |k: int| {
        let a = axis_of(chs[k / 2]);
        if k % 2 == 0 { (a % 256) as u8 } else { (a / 256) as u8 }
    })
}

fn flag(c: bool, v: u16) -> (r: u16)
    requires
        v <= 8192,
    ensures
        r == (if c { v as int } else { 0 }),
{
    if c { v } else { 0 }
}

fn switch_buttons(switches: &Switches) -> (r: u16)
    ensures
        r == switch_buttons_of(*switches),
        r < 64,
{
    flag(switches.sa == SwitchPos::Down, 1) + flag(switches.sb == SwitchPos::Mid, 2)
        + flag(switches.sb == SwitchPos::Down, 4) + flag(switches.sc == SwitchPos::Mid, 8)
        + flag(switches.sc == SwitchPos::Down, 16) + flag(switches.sd == SwitchPos::Down, 32)
}

fn channel_buttons(rf_chs: &[u16; 14]) -> (r: u16)
    ensures
        r == channel_buttons_of(rf_chs@),
        r < 16384,
{
    let lo: u16 = flag(rf_chs[6] > 1650, 64) + flag(rf_chs[7] > 1650, 128) + flag(rf_chs[8] > 1650, 256)
        + flag(rf_chs[9] > 1650, 512);
    let hi: u16 = flag(rf_chs[10] > 1650, 1024) + flag(rf_chs[11] > 1650, 2048)
        + flag(rf_chs[12] > 1650, 4096) + flag(rf_chs[13] > 1650, 8192);
    lo + hi
}

/// Build the 18-byte gamepad report for the current channels and switches.
pub fn build_gamepad_report(rf_chs: &[u16; 14], switches: &Switches, out: &mut [u8; REPORT_SIZE])
    ensures
        final(out)@ == gamepad_report(rf_chs@, *switches),
{
    let btns: u16 = switch_buttons(switches) + channel_buttons(rf_chs);
    assert(btns == buttons_of(rf_chs@, *switches));
    out[0] = (btns % 256) as u8;
    out[1] = (btns / 256) as u8;
    let mut i: usize = 0;
    while i < 8
        invariant
            i <= 8,
            out@.len() == 18,
            out@[0] == (btns % 256) as u8,
            out@[1] == (btns / 256) as u8,
            forall|k: int| 0 <= k < 2 * i ==> #[trigger] out@[2 + k] == (if k % 2 == 0 {
                (axis_of(rf_chs@[k / 2]) % 256) as u8
            } else {
                (axis_of(rf_chs@[k / 2]) / 256) as u8
            }),
        decreases 8 - i,
    {
        let a = us_to_axis(rf_chs[i]);
        out[2 + 2 * i] = (a % 256) as u8;
        out[3 + 2 * i] = (a / 256) as u8;
        i += 1;
    }
    assert forall|k: int| 2 <= k < 18 implies out@[k] == gamepad_report(rf_chs@, *switches)[k] by {
        assert(out@[2 + (k - 2)] == out@[k]);
    }
    assert(out@ =~= gamepad_report(rf_chs@, *switches));
}

} // verus!
