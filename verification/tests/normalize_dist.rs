use angular::{Angle, Degrees, Radians};
use std::f64::consts::PI;

fn rad(v: f64) -> Angle {
    Radians(v.to_bits())
}

fn deg(v: f64) -> Angle {
    Degrees(v.to_bits())
}

fn in_rad(a: Angle) -> f64 {
    f64::from_bits(a.in_radians())
}

fn in_deg(a: Angle) -> f64 {
    f64::from_bits(a.in_degrees())
}

fn are_close(a: f64, b: f64) -> bool {
    (a - b).abs() < 1.0e-10
}

fn close_to(a: f64, b: f64, tol: f64) -> bool {
    (a - b).abs() < tol
}

fn normalization_prop(angle: Angle) -> bool {
    let v = angle.normalized();
    let r = in_rad(v);
    let d = in_deg(v);
    0.0 <= r && r < 2.0 * PI && 0.0 <= d && d < 360.0 && are_close(r.cos(), in_rad(angle).cos())
}

#[test]
fn test_angle_normalization() {
    let samples = [
        rad(0.0),
        rad(1.0),
        rad(-0.1),
        rad(7.5),
        rad(2.0 * PI),
        rad(-9.75),
        deg(0.0),
        deg(-90.0),
        deg(359.9),
        deg(360.0),
        deg(725.0),
        deg(-1234.5),
    ];
    for angle in samples {
        assert!(normalization_prop(angle));
    }
    assert!(are_close(in_deg(deg(-90.0).normalized()), 270.0));
    assert!(are_close(in_rad(rad(2.0 * PI).normalized()), 0.0));
}

#[test]
fn test_normalization_idempotence() {
    let samples = [rad(-0.1), rad(7.5), deg(-90.0), deg(725.0), deg(42.0)];
    for angle in samples {
        let once = angle.normalized();
        let twice = once.normalized();
        assert_eq!(once.in_radians(), twice.in_radians());
        assert_eq!(once.in_degrees(), twice.in_degrees());
    }
    // an exact multiple of the period normalizes to exactly zero
    assert_eq!(in_deg(deg(360.0).normalized()), 0.0);
    assert_eq!(in_deg(deg(-720.0).normalized()), 0.0);
    assert_eq!(in_rad(rad(2.0 * PI).normalized()), 0.0);
}

fn min_dist_prop(a: Angle, b: Angle) -> bool {
    let d = in_rad(a.min_dist(b));
    0.0 <= d && d <= PI
}

#[test]
fn test_angle_minimal_distance() {
    let angles = [rad(0.3), rad(-12.5), deg(180.0), deg(359.9), deg(0.1), rad(6.0), deg(-500.0)];
    for a in angles {
        for b in angles {
            assert!(min_dist_prop(a, b));
        }
    }
    assert!(close_to(in_deg(deg(180.0).min_dist(deg(0.0))), 180.0, 0.000001));
    assert!(close_to(in_deg(deg(0.1).min_dist(deg(359.9))), 0.2, 0.000001));
    assert!(close_to(in_deg(deg(1.0).min_dist(deg(2.0))), 1.0, 0.000001));
}

/// The circular mean in degrees: the per-angle sine and cosine pairs go to
/// the library, the arctangent of the returned components comes back to it.
fn mean_angle_deg(angles: &[Angle]) -> f64 {
    let mut pairs: Vec<(u64, u64)> = Vec::new();
    for a in angles {
        let (s, c) = f64::from_bits(a.in_radians()).sin_cos();
        pairs.push((s.to_bits(), c.to_bits()));
    }
    let (y_over_n, x_over_n) = angular::mean::circular_mean_ratios(&pairs);
    let a = f64::from_bits(y_over_n).atan2(f64::from_bits(x_over_n));
    in_deg(Radians(a.to_bits()).normalized())
}

#[test]
fn test_mean_angle() {
    assert!(close_to(mean_angle_deg(&[deg(90.0)]), 90.0, 0.000001));
    assert!(close_to(mean_angle_deg(&[deg(90.0), deg(90.0)]), 90.0, 0.000001));
    assert!(close_to(mean_angle_deg(&[deg(90.0), deg(180.0), deg(270.0)]), 180.0, 0.000001));
    assert!(close_to(mean_angle_deg(&[deg(20.0), deg(350.0)]), 5.0, 0.000001));
}

#[test]
fn test_mean_angle_wraparound_to_zero() {
    let angles = [deg(270.0), deg(360.0), deg(90.0)];
    let mu = mean_angle_deg(&angles);
    assert!(in_rad(deg(mu).min_dist(rad(0.0))) < 1.0e-10);
}

#[test]
fn test_mean_angle_of_nothing_is_nan() {
    // the documented choice for an empty family: the division by a zero
    // count propagates silently as NaN
    assert!(mean_angle_deg(&[]).is_nan());
}

#[test]
fn test_normalization_of_non_finite_payloads() {
    // an infinite or NaN payload has no remainder; the NaN runs through
    assert!(in_rad(rad(f64::INFINITY).normalized()).is_nan());
    assert!(in_rad(rad(f64::NEG_INFINITY).normalized()).is_nan());
    assert!(in_deg(deg(f64::NAN).normalized()).is_nan());
}

#[test]
fn test_arc_domain_guard() {
    // outside [-1, 1] the arc functions yield NaN and the guard reports
    // absence
    assert!(angular::mean::radians_unless_nan(2.0f64.asin().to_bits()).is_none());
    assert!(angular::mean::radians_unless_nan((-1.5f64).asin().to_bits()).is_none());
    assert!(angular::mean::radians_unless_nan(2.0f64.acos().to_bits()).is_none());
    assert!(angular::mean::radians_unless_nan((-1.5f64).acos().to_bits()).is_none());
    // on the boundary and at zero the exact boundary angles come back
    let a = angular::mean::radians_unless_nan(1.0f64.asin().to_bits()).unwrap();
    assert_eq!(in_rad(a), std::f64::consts::FRAC_PI_2);
    let b = angular::mean::radians_unless_nan((-1.0f64).asin().to_bits()).unwrap();
    assert_eq!(in_rad(b), -std::f64::consts::FRAC_PI_2);
    let c = angular::mean::radians_unless_nan(0.0f64.asin().to_bits()).unwrap();
    assert_eq!(in_rad(c), 0.0);
    let d = angular::mean::radians_unless_nan(1.0f64.acos().to_bits()).unwrap();
    assert_eq!(in_rad(d), 0.0);
    let e = angular::mean::radians_unless_nan((-1.0f64).acos().to_bits()).unwrap();
    assert_eq!(in_rad(e), PI);
    let f = angular::mean::radians_unless_nan(0.0f64.acos().to_bits()).unwrap();
    assert_eq!(in_rad(f), std::f64::consts::FRAC_PI_2);
}
