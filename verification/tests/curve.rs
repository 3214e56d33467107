//! Difficulty curve behavior: endpoints and monotonicity of the quadratic
//! ease-in.

use tile_clicker::curve::speed_milli;

#[test]
fn curve_endpoints() {
    // 1x at the start, 3x at the end of the 30 s session.
    assert_eq!(speed_milli(0), 1000);
    assert_eq!(speed_milli(30000), 3000);
}

#[test]
fn curve_midpoint() {
    // (2 / 30^2) * 15^2 + 1 = 1.5.
    assert_eq!(speed_milli(15000), 1500);
}

#[test]
fn curve_is_monotone_on_samples() {
    let mut prev = speed_milli(0);
    for i in 1..=300 {
        let v = speed_milli(i * 100);
        assert!(prev <= v);
        prev = v;
    }
    assert_eq!(prev, 3000);
}
