//! Integer helpers shared by the control pipeline: clamping and Rust's
//! truncating signed division, stated over mathematical integers.
use vstd::prelude::*;

verus! {

/// `v` limited to the closed range `lo..=hi` (assumes `lo <= hi`).
pub open spec fn clamp(v: int, lo: int, hi: int) -> int {
    if v < lo {
        lo
    } else if v > hi {
        hi
    } else {
        v
    }
}

/// Signed division rounding toward zero, as Rust's `/` does on integers.
pub open spec fn tdiv(a: int, b: int) -> int {
    if a >= 0 {
        a / b
    } else {
        -((-a) / b)
    }
}

/// `v` limited to `lo..=hi`.
pub fn clamp_i32(v: i32, lo: i32, hi: i32) -> (r: i32)
    requires
        lo <= hi,
    ensures
        r == clamp(v as int, lo as int, hi as int),
{
    if v < lo {
        lo
    } else if v > hi {
        hi
    } else {
        v
    }
}

/// `v` limited to `lo..=hi`.
pub fn clamp_u16(v: u16, lo: u16, hi: u16) -> (r: u16)
    requires
        lo <= hi,
    ensures
        r == clamp(v as int, lo as int, hi as int),
{
    if v < lo {
        lo
    } else if v > hi {
        hi
    } else {
        v
    }
}

/// `-x` rounds the same way as `x` under truncating division.
pub proof fn lemma_tdiv_neg(a: int, b: int)
    requires
        b > 0,
    ensures
        tdiv(-a, b) == -tdiv(a, b),
{
}

/// Stepping an index forward modulo `m`: below `m - 1` it just increases,
/// and reducing first changes nothing.
pub proof fn lemma_next_mod(s: int, m: int)
    requires
        0 <= s,
        1 < m,
    ensures
        s < m - 1 ==> (s + 1) % m == s + 1,
        ((s % m) + 1) % m == (s + 1) % m,
{
    vstd::arithmetic::div_mod::lemma_add_mod_noop(s, 1, m);
    vstd::arithmetic::div_mod::lemma_small_mod(1, m as nat);
    if s < m - 1 {
        vstd::arithmetic::div_mod::lemma_small_mod((s + 1) as nat, m as nat);
    }
}

} // verus!
