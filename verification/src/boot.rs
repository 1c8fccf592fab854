//! Key matrix decoding and the bootloader key combination. Driving the
//! matrix columns and reading the lines is done by the caller.
use vstd::prelude::*;

verus! {

/// Key bit of Roll Left (left-hand horizontal trim pushed inward).
pub const KEY_ROLL_LEFT: u16 = 1 << 1;
/// Key bit of Yaw Right (right-hand horizontal trim pushed inward).
pub const KEY_YAW_RIGHT: u16 = 1 << 6;
/// Key bit of the dedicated bind button.
pub const KEY_BIND: u16 = 1 << 12;

/// Both horizontal trims held inward: bits 1 and 6 of the key bitfield.
pub open spec fn dfu_keys_held(keys: u16) -> bool {
    (keys & 2) != 0 && (keys & 64) != 0
}

/// Check if the bootloader key combination is held: Roll Left and Yaw Right.
pub fn is_dfu_requested(keys: u16) -> (b: bool)
    ensures
        b == dfu_keys_held(keys),
{
    let rh_inward = (keys & 2) != 0;
    let lh_inward = (keys & 64) != 0;
    rh_inward && lh_inward
}

/// A power-on scan asking for the bootloader: both horizontal trims held
/// inward, or the bind key held.
pub open spec fn dfu_entry_keys(keys: u16) -> bool {
    dfu_keys_held(keys) || (keys & 0x1000) != 0
}

/// Number of scans among the first `n` that ask for the bootloader.
pub open spec fn dfu_scan_count(scans: Seq<u16>, n: int) -> int
    decreases n,
{
    if n <= 0 {
        0
    } else {
        dfu_scan_count(scans, n - 1) + if dfu_entry_keys(scans[n - 1]) { 1int } else { 0int }
    }
}

/// Power-on bootloader check over five settled key scans: enter the
/// bootloader when at least three of them show both inward trims or the
/// bind key.
pub fn check_dfu_entry(scans: &[u16; 5]) -> (enter: bool)
    ensures
        enter == (dfu_scan_count(scans@, 5) >= 3),
{
    let mut match_count: u32 = 0;
    let mut i: usize = 0;
    while i < 5
        invariant
            0 <= i <= 5,
            match_count == dfu_scan_count(scans@, i as int),
            match_count <= i,
        decreases 5 - i,
    {
        if is_dfu_requested(scans[i]) || (scans[i] & 0x1000) != 0 {
            match_count = match_count + 1;
        }
        i = i + 1;
    }
    match_count >= 3
}

/// Key bitfield of one matrix scan: `lines[c]` holds the four line inputs
/// (active low) read while column `c` was driven low; column `c` gives bits
/// `4c..4c+3`; bit 12 is the bind button (active low).
pub open spec fn keys_of_scan(lines: Seq<u8>, bind_level_high: bool) -> u16 {
    let c0 = ((!lines[0]) & 0x0F) as u16;
    let c1 = ((!lines[1]) & 0x0F) as u16;
    let c2 = ((!lines[2]) & 0x0F) as u16;
    (c0 | (c1 << 4u16) | (c2 << 8u16) | (if bind_level_high { 0u16 } else { 0x1000u16 })) as u16
}

/// Assemble the 16-bit key bitfield from the three column reads and the bind
/// button input.
pub fn scan_keys(lines: &[u8; 3], bind_level_high: bool) -> (keys: u16)
    ensures
        keys == keys_of_scan(lines@, bind_level_high),
{
    let c0 = ((!lines[0]) & 0x0F) as u16;
    let c1 = ((!lines[1]) & 0x0F) as u16;
    let c2 = ((!lines[2]) & 0x0F) as u16;
    let bind: u16 = if bind_level_high { 0 } else { 0x1000 };
    c0 | (c1 << 4u16) | (c2 << 8u16) | bind
}

} // verus!
