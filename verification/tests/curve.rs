use flysky_i6x::curve::evaluate_curve;
#[test]
fn test_5pt_linear_identity() {
    let curve = [0, 25, 50, 75, 100, 0, 0, 0, 0];
    assert_eq!(evaluate_curve(0, 5, false, &curve), 0);
    assert_eq!(evaluate_curve(250, 5, false, &curve), 250);
    assert_eq!(evaluate_curve(500, 5, false, &curve), 500);
    assert_eq!(evaluate_curve(750, 5, false, &curve), 750);
    assert_eq!(evaluate_curve(1000, 5, false, &curve), 1000);
    // Interpolated mid-point
    assert_eq!(evaluate_curve(125, 5, false, &curve), 125);
    assert_eq!(evaluate_curve(375, 5, false, &curve), 375);
}

#[test]
fn test_5pt_linear_flat_and_inverted() {
    let flat = [50, 50, 50, 50, 50, 0, 0, 0, 0];
    assert_eq!(evaluate_curve(0, 5, false, &flat), 500);
    assert_eq!(evaluate_curve(500, 5, false, &flat), 500);
    assert_eq!(evaluate_curve(1000, 5, false, &flat), 500);

    let inverted = [100, 75, 50, 25, 0, 0, 0, 0, 0];
    assert_eq!(evaluate_curve(0, 5, false, &inverted), 1000);
    assert_eq!(evaluate_curve(250, 5, false, &inverted), 750);
    assert_eq!(evaluate_curve(500, 5, false, &inverted), 500);
    assert_eq!(evaluate_curve(750, 5, false, &inverted), 250);
    assert_eq!(evaluate_curve(1000, 5, false, &inverted), 0);
}

#[test]
fn test_5pt_spline_endpoints_and_monotonicity() {
    let curve = [0, 25, 50, 75, 100, 0, 0, 0, 0];
    assert_eq!(evaluate_curve(0, 5, true, &curve), 0);
    assert_eq!(evaluate_curve(500, 5, true, &curve), 500);
    assert_eq!(evaluate_curve(1000, 5, true, &curve), 1000);

    // Verify smooth progression
    let mut prev = 0;
    for x in (50..=1000).step_by(50) {
        let val = evaluate_curve(x, 5, true, &curve);
        assert!(val >= prev, "Spline must be monotonically non-decreasing at {}", x);
        prev = val;
    }
}

#[test]
fn test_9pt_linear_and_spline() {
    let curve = [0, 12, 25, 37, 50, 62, 75, 87, 100];
    assert_eq!(evaluate_curve(0, 9, false, &curve), 0);
    assert_eq!(evaluate_curve(500, 9, false, &curve), 500);
    assert_eq!(evaluate_curve(1000, 9, false, &curve), 1000);

    assert_eq!(evaluate_curve(0, 9, true, &curve), 0);
    assert_eq!(evaluate_curve(500, 9, true, &curve), 500);
    assert_eq!(evaluate_curve(1000, 9, true, &curve), 1000);
}

#[test]
fn test_out_of_bounds_clamping() {
    let curve5 = [0, 25, 50, 75, 100, 0, 0, 0, 0];
    assert_eq!(evaluate_curve(1500, 5, false, &curve5), 1000);
    assert_eq!(evaluate_curve(1500, 5, true, &curve5), 1000);

    let curve9 = [0, 12, 25, 37, 50, 62, 75, 87, 100];
    assert_eq!(evaluate_curve(1500, 9, false, &curve9), 1000);
    assert_eq!(evaluate_curve(1500, 9, true, &curve9), 1000);
}
