//! Throttle curve interpolation: 5-point or 9-point curves, evaluated by
//! straight-line interpolation or a Catmull-Rom cubic spline in fixed point.
use vstd::prelude::*;
use crate::arith::{clamp, tdiv};

verus! {

/// Curve point `k` scaled from percent to 0..=1000.
pub open spec fn point(curve: Seq<u8>, k: int) -> int {
    curve[k] as int * 10
}

/// Catmull-Rom spline between points `i` and `i + 1` of an `n`-point curve,
/// with tangents extrapolated at the ends, at fixed-point parameter `t`
/// (0..256 across the segment).
pub open spec fn spline_value(curve: Seq<u8>, n: int, i: int, t: int) -> int {
    let p0 = if i > 0 { point(curve, i - 1) } else { 2 * point(curve, 0) - point(curve, 1) };
    let p1 = point(curve, i);
    let p2 = point(curve, i + 1);
    let p3 = if i + 2 < n { point(curve, i + 2) } else { 2 * point(curve, n - 1) - point(curve, n - 2) };
    let t2 = (t * t) / 256;
    let t3 = (t2 * t) / 256;
    let h00 = 2 * t3 - 3 * t2 + 256;
    let h10 = t3 - 2 * t2 + t;
    let h01 = -2 * t3 + 3 * t2;
    let h11 = t3 - t2;
    let m1 = tdiv(p2 - p0, 2);
    let m2 = tdiv(p3 - p1, 2);
    tdiv(h00 * p1 + h01 * p2 + h10 * m1 + h11 * m2, 256)
}

/// Output (0..=1000) of an `n`-point curve whose points are `w` apart, at
/// input `x` in 0..=1000.
pub open spec fn curve_at(x: int, smooth: bool, curve: Seq<u8>, n: int, w: int) -> int {
    if x >= 1000 {
        clamp(point(curve, n - 1), 0, 1000)
    } else if x <= 0 {
        clamp(point(curve, 0), 0, 1000)
    } else {
        let i = if x / w < n - 2 { x / w } else { n - 2 };
        let dx = x - i * w;
        if !smooth {
            clamp(point(curve, i) + tdiv((point(curve, i + 1) - point(curve, i)) * dx, w), 0, 1000)
        } else {
            clamp(spline_value(curve, n, i, (dx * 256) / w), 0, 1000)
        }
    }
}

/// The curve output the engine computes: 9 points 125 apart when
/// `pts_mode` is 9, otherwise the first 5 points 250 apart; inputs above
/// 1000 count as 1000.
pub open spec fn curve_output(input: u16, pts_mode: u8, smooth: bool, curve: Seq<u8>) -> int {
    let x = if input > 1000 { 1000 } else { input as int };
    if pts_mode == 9 {
        curve_at(x, smooth, curve, 9, 125)
    } else {
        curve_at(x, smooth, curve, 5, 250)
    }
}

/// Evaluate a 5-point or 9-point throttle curve, optionally smoothed with a
/// Catmull-Rom spline. Input 0..=1000, points in percent, output 0..=1000.
pub fn evaluate_curve(input: u16, pts_mode: u8, smooth: bool, curve: &[u8; 9]) -> (y: u16)
    ensures
        y as int == curve_output(input, pts_mode, smooth, curve@),
        y <= 1000,
{
    let x: i32 = if input > 1000 { 1000 } else { input as i32 };
    if pts_mode == 9 {
        evaluate_9pt(x, smooth, curve)
    } else {
        evaluate_5pt(x, smooth, curve)
    }
}

/// A 5-point curve (points 250 apart) at input `x` in 0..=1000.
fn evaluate_5pt(x: i32, smooth: bool, curve: &[u8; 9]) -> (y: u16)
    requires
        0 <= x <= 1000,
    ensures
        y as int == curve_at(x as int, smooth, curve@, 5, 250),
        y <= 1000,
{
    evaluate_segments(x, smooth, curve, 5, 250)
}

/// A 9-point curve (points 125 apart) at input `x` in 0..=1000.
fn evaluate_9pt(x: i32, smooth: bool, curve: &[u8; 9]) -> (y: u16)
    requires
        0 <= x <= 1000,
    ensures
        y as int == curve_at(x as int, smooth, curve@, 9, 125),
        y <= 1000,
{
    evaluate_segments(x, smooth, curve, 9, 125)
}

/// The spline between points `i` and `i + 1` at fixed-point parameter `t`.
fn spline_segment(curve: &[u8; 9], n: usize, i: usize, t: i32) -> (y: i32)
    requires
        n == 5 || n == 9,
        i + 2 <= n,
        0 <= t < 256,
    ensures
        y as int == spline_value(curve@, n as int, i as int, t as int),
{
    let p0: i32 = if i > 0 { curve[i - 1] as i32 * 10 } else { 2 * (curve[0] as i32 * 10) - curve[1] as i32 * 10 };
    let p1: i32 = curve[i] as i32 * 10;
    let p2: i32 = curve[i + 1] as i32 * 10;
    let p3: i32 = if i + 2 < n { curve[i + 2] as i32 * 10 } else { 2 * (curve[n - 1] as i32 * 10) - curve[n - 2] as i32 * 10 };
    assert(0 <= t * t < 65536) by (nonlinear_arith)
        requires
            0 <= t < 256,
    ;
    let t2 = (t * t) / 256;
    assert(0 <= t2 <= 255) by (nonlinear_arith)
        requires
            0 <= t < 256,
            t2 == (t * t) / 256,
    ;
    assert(0 <= t2 * t < 65536) by (nonlinear_arith)
        requires
            0 <= t < 256,
            0 <= t2 < 256,
    ;
    let t3 = (t2 * t) / 256;
    assert(0 <= t3 <= 255) by (nonlinear_arith)
        requires
            0 <= t < 256,
            0 <= t2 <= 255,
            t3 == (t2 * t) / 256,
    ;
    let h00 = 2 * t3 - 3 * t2 + 256;
    let h10 = t3 - 2 * t2 + t;
    let h01 = 3 * t2 - 2 * t3;
    let h11 = t3 - t2;
    let m1 = (p2 - p0) / 2;
    let m2 = (p3 - p1) / 2;
    assert(0 <= p1 <= 2550 && 0 <= p2 <= 2550);
    assert(-2550 <= m1 <= 2550 && -2550 <= m2 <= 2550);
    assert(-600 <= h00 <= 1100 && -600 <= h01 <= 1100 && -600 <= h10 <= 1100 && -600 <= h11 <= 1100);
    assert(-3000000 <= h00 * p1 <= 3000000) by (nonlinear_arith)
        requires
            -600 <= h00 <= 1100,
            -2550 <= p1 <= 2550,
    ;
    assert(-3000000 <= h01 * p2 <= 3000000) by (nonlinear_arith)
        requires
            -600 <= h01 <= 1100,
            -2550 <= p2 <= 2550,
    ;
    assert(-3000000 <= h10 * m1 <= 3000000) by (nonlinear_arith)
        requires
            -600 <= h10 <= 1100,
            -2550 <= m1 <= 2550,
    ;
    assert(-3000000 <= h11 * m2 <= 3000000) by (nonlinear_arith)
        requires
            -600 <= h11 <= 1100,
            -2550 <= m2 <= 2550,
    ;
    (h00 * p1 + h01 * p2 + h10 * m1 + h11 * m2) / 256
}

/// Evaluate an `n`-point curve with points `w` apart at `x` in 0..=1000.
fn evaluate_segments(x: i32, smooth: bool, curve: &[u8; 9], n: usize, w: i32) -> (y: u16)
    requires
        0 <= x <= 1000,
        (n == 5 && w == 250) || (n == 9 && w == 125),
    ensures
        y as int == curve_at(x as int, smooth, curve@, n as int, w as int),
        y <= 1000,
{
    if x >= 1000 {
        let v = curve[n - 1] as i32 * 10;
        return if v > 1000 { 1000 } else { v as u16 };
    }
    if x <= 0 {
        let v = curve[0] as i32 * 10;
        return if v > 1000 { 1000 } else { v as u16 };
    }
    let q = x / w;
    let i: usize = if q < (n - 2) as i32 { q as usize } else { n - 2 };
    let dx = x - i as i32 * w;
    assert(0 <= dx < w) by (nonlinear_arith)
        requires
            0 < x < 1000,
            q == x / w,
            w > 0,
            i == (if q < n - 2 { q as int } else { n - 2 }),
            dx == x - i * w,
            n * w >= 1000 + w,
    ;
    let y: i32 = if !smooth {
        let a = curve[i] as i32 * 10;
        let b = curve[i + 1] as i32 * 10;
        assert(-2550 * 250 <= (b - a) * dx <= 2550 * 250) by (nonlinear_arith)
            requires
                -2550 <= b - a <= 2550,
                0 <= dx < 250,
        ;
        a + ((b - a) * dx) / w
    } else {
        assert(0 <= dx * 256 < 64000) by (nonlinear_arith)
            requires
                0 <= dx < 250,
        ;
        let t = (dx * 256) / w;
        assert(t < 256) by (nonlinear_arith)
            requires
                0 <= dx < w,
                t as int == (dx as int * 256) / (w as int),
                w > 0,
        ;
        spline_segment(curve, n, i, t)
    };
    if y < 0 {
        0
    } else if y > 1000 {
        1000
    } else {
        y as u16
    }
}

proof fn lemma_spline_at_knot(curve: Seq<u8>, n: int, i: int)
    ensures
        spline_value(curve, n, i, 0) == point(curve, i),
{
    let p0 = if i > 0 { point(curve, i - 1) } else { 2 * point(curve, 0) - point(curve, 1) };
    let p1 = point(curve, i);
    let p2 = point(curve, i + 1);
    let p3 = if i + 2 < n { point(curve, i + 2) } else { 2 * point(curve, n - 1) - point(curve, n - 2) };
    let m1 = tdiv(p2 - p0, 2);
    let m2 = tdiv(p3 - p1, 2);
    assert((0int * 0) / 256 == 0);
    assert(256 * p1 + 0 * p2 + 0 * m1 + 0 * m2 == 256 * p1) by (nonlinear_arith);
    assert(p1 >= 0);
    assert((256 * p1) / 256 == p1) by (nonlinear_arith)
        requires p1 >= 0;
}

proof fn lemma_knot(curve: Seq<u8>, smooth: bool, n: int, w: int, k: int)
    requires
        (n == 5 && w == 250) || (n == 9 && w == 125),
        0 < k < n - 1,
    ensures
        curve_at(k * w, smooth, curve, n, w) == clamp(point(curve, k), 0, 1000),
{
    assert((k * w) / w == k) by (nonlinear_arith)
        requires w > 0;
    assert(k * w < 1000 && k * w > 0) by (nonlinear_arith)
        requires (n == 5 && w == 250) || (n == 9 && w == 125), 0 < k < n - 1;
    lemma_spline_at_knot(curve, n, k);
}

/// The curve passes through its points: at input `k * 250` a 5-point
/// curve gives point `k`, and at `k * 125` a 9-point curve gives point `k`,
/// linear or smoothed.
pub proof fn lemma_curve_passes_through_points(curve: Seq<u8>, smooth: bool)
    ensures
        forall|k: int| 0 <= k <= 4 ==> #[trigger] curve_output((k * 250) as u16, 5, smooth, curve) == clamp(point(curve, k), 0, 1000),
        forall|k: int| 0 <= k <= 8 ==> #[trigger] curve_output((k * 125) as u16, 9, smooth, curve) == clamp(point(curve, k), 0, 1000),
{
    assert forall|k: int| 0 <= k <= 4 implies #[trigger] curve_output((k * 250) as u16, 5, smooth, curve) == clamp(point(curve, k), 0, 1000) by {
        if 0 < k < 4 {
            lemma_knot(curve, smooth, 5, 250, k);
        }
    }
    assert forall|k: int| 0 <= k <= 8 implies #[trigger] curve_output((k * 125) as u16, 9, smooth, curve) == clamp(point(curve, k), 0, 1000) by {
        if 0 < k < 8 {
            lemma_knot(curve, smooth, 9, 125, k);
        }
    }
}

/// The straight 5-point curve 0, 25, 50, 75, 100 % without smoothing is the
/// identity on 0..=1000.
pub proof fn lemma_linear_curve_identity(curve: Seq<u8>, x: u16)
    requires
        curve.len() == 9,
        curve[0] == 0,
        curve[1] == 25,
        curve[2] == 50,
        curve[3] == 75,
        curve[4] == 100,
        x <= 1000,
    ensures
        curve_output(x, 5, false, curve) == x,
{
    let xi = x as int;
    if 0 < xi < 1000 {
        let i = if xi / 250 < 3 { xi / 250 } else { 3 };
        assert(0 <= i <= 3 && i * 250 <= xi < i * 250 + 250) by (nonlinear_arith)
            requires 0 < xi < 1000, i == (if xi / 250 < 3 { xi / 250 } else { 3 });
        let dx = xi - i * 250;
        assert(point(curve, i + 1) - point(curve, i) == 250);
        assert(point(curve, i) == i * 250);
        assert((250 * dx) / 250 == dx) by (nonlinear_arith)
            requires 0 <= dx;
    }
}


/// Number of points a curve mode uses: 9 for mode 9, otherwise 5.
pub open spec fn curve_points(pts_mode: u8) -> int {
    if pts_mode == 9 { 9 } else { 5 }
}

/// Input distance between neighbouring points: 1000 spread over the
/// segments of the curve (125 for 9 points, 250 for 5).
pub open spec fn curve_spacing(pts_mode: u8) -> int {
    if pts_mode == 9 { 125 } else { 250 }
}

proof fn lemma_segment_step(d: int, dx: int, w: int)
    requires
        w == 125 || w == 250,
        0 <= dx <= w,
    ensures
        ({
            let q = tdiv(d * dx, w);
            &&& (d >= 0 ==> 0 <= q <= d)
            &&& (d <= 0 ==> d <= q <= 0)
            &&& -w < w * q - d * dx < w
        }),
{
    let a = d * dx;
    assert(d >= 0 ==> 0 <= a <= d * w) by (nonlinear_arith)
        requires
            0 <= dx <= w,
            a == d * dx,
    ;
    assert(d <= 0 ==> d * w <= a <= 0) by (nonlinear_arith)
        requires
            0 <= dx <= w,
            a == d * dx,
    ;
    if w == 125 {
        assert(d >= 0 ==> 0 <= a / 125 <= d);
    } else {
        assert(d >= 0 ==> 0 <= a / 250 <= d);
    }
}

/// A straight-line (not smoothed) curve interpolates linearly within each
/// segment: for input `x` between points `i` and `i + 1` (at `i * spacing`
/// and `(i + 1) * spacing`), the output `y` lies between the two points and
/// `spacing * (y - p_i)` is within one spacing of `(p_{i+1} - p_i) * (x - i *
/// spacing)`, the exact line through them; points are percentages (at most
/// 100) scaled to 0..=1000.
pub proof fn lemma_linear_curve_interpolates(curve: Seq<u8>, pts_mode: u8, x: u16, i: int)
    requires
        curve.len() == 9,
        forall|k: int| 0 <= k < 9 ==> #[trigger] curve[k] <= 100,
        x <= 1000,
        0 <= i < curve_points(pts_mode) - 1,
        i * curve_spacing(pts_mode) <= x <= (i + 1) * curve_spacing(pts_mode),
    ensures
        ({
            let w = curve_spacing(pts_mode);
            let y = curve_output(x, pts_mode, false, curve);
            let a = point(curve, i);
            let b = point(curve, i + 1);
            let e = w * (y - a) - (b - a) * (x - i * w);
            &&& -w < e < w
            &&& (a <= b ==> a <= y <= b)
            &&& (b <= a ==> b <= y <= a)
        }),
{
    let n = curve_points(pts_mode);
    let w = curve_spacing(pts_mode);
    if pts_mode == 9 {
        assert(n == 9 && w == 125);
    } else {
        assert(n == 5 && w == 250);
    }
    let xi = x as int;
    let y = curve_output(x, pts_mode, false, curve);
    let a = point(curve, i);
    let b = point(curve, i + 1);
    assert(0 <= a <= 1000 && 0 <= b <= 1000);
    assert(i * w <= 1000 - w) by (nonlinear_arith)
        requires
            i <= n - 2,
            n * w == 1000 + w,
            w > 0,
    ;
    if xi >= 1000 {
        assert(i == n - 2) by (nonlinear_arith)
            requires
                (i + 1) * w >= 1000,
                i <= n - 2,
                n * w == 1000 + w,
                w > 0,
        ;
        assert(point(curve, n - 1) == b);
        assert(xi - i * w == w);
        assert((b - a) * (xi - i * w) == (b - a) * w);
        assert(y == b);
        assert(w * (y - a) == (b - a) * w) by (nonlinear_arith)
            requires
                y == b,
        ;
    } else if xi <= 0 {
        assert(i == 0) by (nonlinear_arith)
            requires
                i * w <= 0,
                i >= 0,
                w > 0,
        ;
        assert((b - a) * 0 == 0);
        assert(y == a);
        assert(xi - i * w == 0);
    } else {
        let j = if xi / w < n - 2 { xi / w } else { n - 2 };
        let dx = xi - j * w;
        assert(0 <= j <= n - 2 && 0 <= dx < w && (j == i || (j == i + 1 && dx == 0))) by (nonlinear_arith)
            requires
                0 < xi < 1000,
                j == (if xi / w < n - 2 { xi / w } else { n - 2 }),
                dx == xi - j * w,
                i * w <= xi <= (i + 1) * w,
                0 <= i <= n - 2,
                n * w == 1000 + w,
                w == 125 || w == 250,
        ;
        assert(y == clamp(point(curve, j) + tdiv((point(curve, j + 1) - point(curve, j)) * dx, w), 0, 1000));
        if j == i {
            lemma_segment_step(b - a, dx, w);
            let q = tdiv((b - a) * dx, w);
            assert(y == a + q);
            assert(xi - i * w == dx);
            assert(-w < w * (y - a) - (b - a) * dx < w);
        } else {
            assert(point(curve, j) == b);
            assert(dx == 0);
            assert((point(curve, j + 1) - point(curve, j)) * dx == 0) by (nonlinear_arith)
                requires
                    dx == 0,
            ;
            assert(tdiv(0, w) == 0);
            assert(xi - i * w == w) by (nonlinear_arith)
                requires
                    j == i + 1,
                    dx == xi - j * w,
                    dx == 0,
            ;
            assert((b - a) * (xi - i * w) == (b - a) * w) by (nonlinear_arith)
                requires
                    xi - i * w == w,
            ;
            assert(y == b);
            assert(w * (y - a) == (b - a) * w) by (nonlinear_arith)
                requires
                    y == b,
            ;
        }
    }
}

} // verus!
