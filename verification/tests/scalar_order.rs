use sdf_march::scalar::Scalar;

fn s(x: f64) -> Scalar {
    Scalar::from_bits(x.to_bits())
}

fn f(x: Scalar) -> f64 {
    f64::from_bits(x.to_bits())
}

fn probes() -> Vec<f64> {
    vec![
        0.0,
        -0.0,
        1.0,
        -1.0,
        0.001,
        0.002,
        -0.001,
        6.0,
        30.0,
        30.000000000000004,
        29.999999999999996,
        5e-324,
        -5e-324,
        f64::MIN_POSITIVE,
        f64::MAX,
        f64::MIN,
        f64::INFINITY,
        f64::NEG_INFINITY,
        f64::NAN,
        -f64::NAN,
        0.1,
        255.0,
        1e300,
        -1e-300,
    ]
}

#[test]
fn lt_agrees_with_the_hardware() {
    for a in probes() {
        for b in probes() {
            assert_eq!(s(a).lt(s(b)), a < b, "{} < {}", a, b);
        }
    }
}

#[test]
fn le_agrees_with_the_hardware() {
    for a in probes() {
        for b in probes() {
            assert_eq!(s(a).le(s(b)), a <= b, "{} <= {}", a, b);
        }
    }
}

#[test]
fn is_nan_agrees_with_the_hardware() {
    for a in probes() {
        assert_eq!(s(a).is_nan(), a.is_nan());
    }
}

#[test]
fn neg_flips_the_sign_bit() {
    for a in probes() {
        assert_eq!(s(a).neg().to_bits(), (-a).to_bits());
    }
    assert_eq!(s(0.0).neg().to_bits(), 0x8000_0000_0000_0000);
    assert_eq!(s(-2.5).neg().to_bits(), 2.5f64.to_bits());
}

#[test]
fn min_and_max_agree_with_the_hardware_on_value() {
    for a in probes() {
        for b in probes() {
            let lo = f(s(a).min(s(b)));
            let hi = f(s(a).max(s(b)));
            let want_lo = a.min(b);
            let want_hi = a.max(b);
            assert!(lo == want_lo || (lo.is_nan() && want_lo.is_nan()), "min {} {}", a, b);
            assert!(hi == want_hi || (hi.is_nan() && want_hi.is_nan()), "max {} {}", a, b);
        }
    }
}

#[test]
fn min_and_max_take_the_first_of_equals() {
    assert_eq!(s(0.0).min(s(-0.0)).to_bits(), 0.0f64.to_bits());
    assert_eq!(s(-0.0).min(s(0.0)).to_bits(), (-0.0f64).to_bits());
    assert_eq!(s(0.0).max(s(-0.0)).to_bits(), 0.0f64.to_bits());
    assert_eq!(s(-0.0).max(s(0.0)).to_bits(), (-0.0f64).to_bits());
}

#[test]
fn min_and_max_skip_what_is_not_a_number() {
    assert_eq!(f(s(f64::NAN).min(s(3.0))), 3.0);
    assert_eq!(f(s(3.0).min(s(f64::NAN))), 3.0);
    assert_eq!(f(s(f64::NAN).max(s(-3.0))), -3.0);
    assert_eq!(f(s(-3.0).max(s(f64::NAN))), -3.0);
    assert!(f(s(f64::NAN).max(s(f64::NAN))).is_nan());
}

#[test]
fn ordinal_is_the_signed_magnitude() {
    assert_eq!(s(0.0).ordinal(), 0);
    assert_eq!(s(-0.0).ordinal(), 0);
    assert_eq!(s(1.0).ordinal(), 0x3ff0_0000_0000_0000);
    assert_eq!(s(-1.0).ordinal(), -0x3ff0_0000_0000_0000);
    assert_eq!(s(5e-324).ordinal(), 1);
    assert_eq!(s(-5e-324).ordinal(), -1);
}
