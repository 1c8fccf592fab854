use flysky_i6x::calib::endpoints_from_travel;
use flysky_i6x::curve::evaluate_curve;
use flysky_i6x::input::AxisCalib;
use flysky_i6x::mixer::apply_dr_expo;

#[test]
fn dr_expo_is_odd() {
    for &x in &[0i16, 1, 7, 333, 500, 999, 1000] {
        for &(r, e) in &[(100u8, 0i8), (70, 30), (100, -60), (55, 100), (30, -100)] {
            assert_eq!(apply_dr_expo(-x, r, e), -apply_dr_expo(x, r, e));
        }
    }
}

#[test]
fn curve_passes_through_its_points() {
    let c5 = [10u8, 80, 20, 95, 40, 0, 0, 0, 0];
    for smooth in [false, true] {
        for k in 0..5u16 {
            assert_eq!(evaluate_curve(k * 250, 5, smooth, &c5), c5[k as usize] as u16 * 10);
        }
    }
    let c9 = [0u8, 5, 30, 31, 60, 62, 90, 99, 100];
    for smooth in [false, true] {
        for k in 0..9u16 {
            assert_eq!(evaluate_curve(k * 125, 9, smooth, &c9), c9[k as usize] as u16 * 10);
        }
    }
}

#[test]
fn straight_curve_is_identity() {
    let c = [0u8, 25, 50, 75, 100, 0, 0, 0, 0];
    for x in 0..=1000u16 {
        assert_eq!(evaluate_curve(x, 5, false, &c), x);
    }
}

#[test]
fn centred_stick_reads_zero() {
    for invert in [false, true] {
        let mut a = AxisCalib::new(300, 1900, 3900, invert);
        assert_eq!(a.normalize(1900), 0);
    }
}

#[test]
fn wizard_endpoints_are_ordered() {
    for &(c, lo, hi) in &[(2048u16, 0u16, 4095u16), (100, 3000, 50), (4000, 4000, 4000), (0, 65535, 65535)] {
        let e = endpoints_from_travel(c, lo, hi);
        assert!(e.min <= e.center && e.center <= e.max);
        assert_eq!(e.center, c);
    }
}
