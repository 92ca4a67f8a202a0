use angular::{Angle, Degrees, Radians};

fn rad(v: f64) -> Angle {
    Radians(v.to_bits())
}

fn deg(v: f64) -> Angle {
    Degrees(v.to_bits())
}

fn in_rad(a: Angle) -> f64 {
    f64::from_bits(a.in_radians())
}

fn in_deg(a: Angle) -> f64 {
    f64::from_bits(a.in_degrees())
}

fn are_close(a: f64, b: f64) -> bool {
    (a - b).abs() < 1.0e-10
}

fn conversion_prop(angle: Angle) -> bool {
    are_close(in_rad(angle), in_rad(deg(in_deg(angle))))
}

#[test]
fn test_angle_conversions() {
    let samples = [
        rad(0.0),
        rad(1.0),
        rad(-2.5),
        rad(6.5),
        rad(std::f64::consts::PI),
        deg(0.0),
        deg(90.0),
        deg(-123.456),
        deg(359.9),
        deg(1.0e6),
    ];
    for angle in samples {
        assert!(conversion_prop(angle));
    }
}

fn multiplicative_prop(a: Angle, x: f64) -> bool {
    let xb = x.to_bits();
    match a {
        Radians(vb) => {
            let v = f64::from_bits(vb);
            let div_res = {
                let mut a1 = a;
                a1.div_assign(xb);
                in_rad(a1) == v / x
            };
            let mult_res = {
                let mut a1 = a;
                a1.mul_assign(xb);
                in_rad(a1) == v * x
            };
            in_rad(a.mul(xb)) == v * x && in_rad(a.div(xb)) == v / x && div_res && mult_res
        }
        Degrees(vb) => {
            let v = f64::from_bits(vb);
            let mult_res = {
                let mut a1 = a;
                a1.mul_assign(xb);
                in_deg(a1) == v * x
            };
            let div_res = {
                let mut a1 = a;
                a1.div_assign(xb);
                in_deg(a1) == v / x
            };
            in_deg(a.mul(xb)) == v * x && in_deg(a.div(xb)) == v / x && div_res && mult_res
        }
    }
}

#[test]
fn test_angle_math_multiplicative() {
    let angles = [rad(1.25), rad(-3.5), deg(90.0), deg(-42.5), rad(0.0), deg(359.0)];
    let scalars = [2.0, -0.5, 3.25, 7.0];
    for a in angles {
        for x in scalars {
            assert!(multiplicative_prop(a, x));
        }
    }
}

fn additive_prop(a: Angle, b: Angle) -> bool {
    if let (Radians(xb), Radians(yb)) = (a, b) {
        let (x, y) = (f64::from_bits(xb), f64::from_bits(yb));
        let add_res = {
            let mut a1 = a;
            a1.add_assign(b);
            in_rad(a1) == x + y
        };
        let sub_res = {
            let mut a1 = a;
            a1.sub_assign(b);
            in_rad(a1) == x - y
        };
        in_rad(a.add(b)) == x + y && in_rad(a.sub(b)) == x - y && add_res && sub_res
    } else if let (Degrees(xb), Degrees(yb)) = (a, b) {
        let (x, y) = (f64::from_bits(xb), f64::from_bits(yb));
        let add_res = {
            let mut a1 = a;
            a1.add_assign(b);
            in_deg(a1) == x + y
        };
        let sub_res = {
            let mut a1 = a;
            a1.sub_assign(b);
            in_deg(a1) == x - y
        };
        in_deg(a.add(b)) == x + y && in_deg(a.sub(b)) == x - y && add_res && sub_res
    } else {
        let add_res = {
            let mut a1 = a;
            a1.add_assign(b);
            in_rad(a1) == in_rad(a) + in_rad(b)
        };
        let sub_res = {
            let mut a1 = a;
            a1.sub_assign(b);
            in_rad(a1) == in_rad(a) - in_rad(b)
        };
        in_rad(a.add(b)) == in_rad(a) + in_rad(b) && add_res && sub_res
    }
}

#[test]
fn test_angle_math_additive() {
    let angles = [rad(1.25), rad(-3.5), deg(90.0), deg(-42.5), rad(0.25), deg(300.0)];
    for a in angles {
        for b in angles {
            assert!(additive_prop(a, b));
        }
    }
}

#[test]
fn test_angle_equality_rule() {
    // both degrees: raw payloads, exact
    assert!(deg(90.0) == deg(90.0));
    assert!(deg(90.0) != deg(90.0 + 1.0e-9));
    // both radians: raw values
    assert!(rad(1.5) == rad(1.5));
    // mixed tags compare through the radian conversion; 90 degrees converts
    // exactly to pi/2
    assert!(deg(90.0) == rad(std::f64::consts::FRAC_PI_2));
    assert!(deg(45.0) == rad(std::f64::consts::FRAC_PI_4));
    // NaN payloads compare unequal, even to themselves
    assert!(rad(f64::NAN) != rad(f64::NAN));
    assert!(deg(f64::NAN) != deg(f64::NAN));
    // the two zeros are one value
    assert!(deg(0.0) == deg(-0.0));
    assert!(rad(0.0) == rad(-0.0));
}

#[test]
fn test_neg_abs_zero() {
    assert_eq!(in_rad(rad(-1.25).abs()), 1.25);
    assert_eq!(in_deg(deg(-90.0).abs()), 90.0);
    assert_eq!(in_deg(deg(90.0).abs()), 90.0);
    assert_eq!(in_rad(rad(1.25).neg()), -1.25);
    assert_eq!(in_deg(deg(-45.0).neg()), 45.0);
    assert!(Angle::zero().is_zero());
    assert!(deg(0.0).is_zero());
    assert!(deg(-0.0).is_zero());
    assert!(!rad(1.0e-300).is_zero());
    assert!(!rad(f64::NAN).is_zero());
}

#[test]
fn test_named_fractions() {
    assert_eq!(in_deg(Angle::eighth()), 45.0);
    assert_eq!(in_deg(Angle::quarter()), 90.0);
    assert_eq!(in_deg(Angle::half()), 180.0);
    assert_eq!(in_deg(Angle::full()), 360.0);
    assert!(Angle::quarter() == rad(std::f64::consts::FRAC_PI_2));
    assert_eq!(angular::angle::PI_BITS, std::f64::consts::PI.to_bits());
    assert_eq!(angular::angle::TWO_PI_BITS, (2.0 * std::f64::consts::PI).to_bits());
    assert_eq!(angular::angle::D180_BITS, 180.0f64.to_bits());
    assert_eq!(angular::angle::D360_BITS, 360.0f64.to_bits());
}

#[test]
fn test_scalar_on_the_left() {
    let a = angular::angle::scalar_mul(3.0f64.to_bits(), deg(40.0));
    assert_eq!(in_deg(a), 120.0);
    let b = angular::angle::scalar_div(90.0f64.to_bits(), rad(4.0));
    assert_eq!(in_rad(b), 22.5);
}

#[test]
fn test_exact_conversions_at_special_points() {
    // 180 / 180 * pi and pi / pi * 180 are exact in binary64
    assert_eq!(in_rad(deg(180.0)), std::f64::consts::PI);
    assert_eq!(in_deg(rad(std::f64::consts::PI)), 180.0);
    assert_eq!(in_rad(deg(90.0)), std::f64::consts::FRAC_PI_2);
    assert_eq!(in_deg(deg(-42.5)), -42.5);
    assert_eq!(in_rad(rad(7.25)), 7.25);
}

#[test]
fn test_payload_comparisons_match_ieee() {
    let samples = [
        0.0,
        -0.0,
        1.0,
        -1.0,
        1.5,
        -2.5,
        360.0,
        std::f64::consts::PI,
        5.0e-324,
        -5.0e-324,
        f64::MIN_POSITIVE,
        f64::MAX,
        -f64::MAX,
        f64::INFINITY,
        f64::NEG_INFINITY,
        f64::NAN,
        -f64::NAN,
    ];
    for x in samples {
        for y in samples {
            let (a, b) = (x.to_bits(), y.to_bits());
            assert_eq!(angular::bits::f64_lt(a, b), x < y, "lt {x} {y}");
            assert_eq!(angular::bits::f64_le(a, b), x <= y, "le {x} {y}");
            assert_eq!(angular::bits::f64_eq(a, b), x == y, "eq {x} {y}");
            assert_eq!(angular::bits::f64_min(a, b), x.min(y).to_bits(), "min {x} {y}");
        }
    }
    for x in samples {
        let b = x.to_bits();
        assert_eq!(angular::bits::f64_is_nan(b), x.is_nan());
        assert_eq!(f64::from_bits(angular::bits::f64_abs(b)).to_bits(), x.abs().to_bits());
        assert_eq!(f64::from_bits(angular::bits::f64_neg(b)).to_bits(), (-x).to_bits());
    }
}
