use numerical_methods::binary64::{
    Binary64, EPSILON_BITS, FOUR_EPSILON_BITS, HALF_BITS, INFINITY_BITS, NAN_BITS, ONE_BITS, SIGN_MASK,
};

fn samples() -> Vec<f64> {
    vec![
        0.0,
        -0.0,
        5e-324,
        -5e-324,
        f64::MIN_POSITIVE,
        -f64::MIN_POSITIVE,
        f64::EPSILON,
        -f64::EPSILON,
        0.5,
        -0.5,
        1.0,
        -1.0,
        1.0000000000000002,
        3.141592653589793,
        -2.5,
        1e300,
        -1e300,
        f64::MAX,
        f64::MIN,
        f64::INFINITY,
        f64::NEG_INFINITY,
        f64::NAN,
        -f64::NAN,
        f64::from_bits(0x7FF0_0000_0000_0001),
        f64::from_bits(0xFFFF_FFFF_FFFF_FFFF),
    ]
}

fn double(x: f64) -> Binary64 {
    Binary64::from_bits(x.to_bits())
}

#[test]
fn constants_are_the_patterns_of_their_values() {
    assert_eq!(SIGN_MASK, (-0.0f64).to_bits());
    assert_eq!(INFINITY_BITS, f64::INFINITY.to_bits());
    assert_eq!(HALF_BITS, 0.5f64.to_bits());
    assert_eq!(ONE_BITS, 1.0f64.to_bits());
    assert_eq!(EPSILON_BITS, 2.220446049250313E-16f64.to_bits());
    assert_eq!(EPSILON_BITS, f64::EPSILON.to_bits());
    assert_eq!(FOUR_EPSILON_BITS, 8.881784197001252E-16f64.to_bits());
    assert_eq!(FOUR_EPSILON_BITS, (4.0 * f64::EPSILON).to_bits());
    assert!(f64::from_bits(NAN_BITS).is_nan());
}

#[test]
fn from_bits_and_to_bits_are_inverse() {
    for x in samples() {
        assert_eq!(double(x).to_bits(), x.to_bits());
        assert_eq!(double(x).bits, x.to_bits());
    }
    assert_eq!(Binary64::from_bits(0x4009_21FB_5444_2D18).to_bits(), 0x4009_21FB_5444_2D18);
}

#[test]
fn nan_is_a_nan() {
    assert!(Binary64::nan().is_nan());
    assert_eq!(Binary64::nan().to_bits(), NAN_BITS);
    assert!(f64::from_bits(Binary64::nan().to_bits()).is_nan());
}

#[test]
fn classification_agrees_with_the_hardware() {
    for x in samples() {
        let d = double(x);
        assert_eq!(d.is_nan(), x.is_nan(), "is_nan of {x:?}");
        assert_eq!(d.is_zero(), x == 0.0, "is_zero of {x:?}");
        assert_eq!(d.is_negative(), x < 0.0, "is_negative of {x:?}");
        assert_eq!(d.is_positive(), x > 0.0, "is_positive of {x:?}");
        assert_eq!(d.sign(), x.is_sign_negative(), "sign of {x:?}");
        assert_eq!(d.magnitude(), x.abs().to_bits(), "magnitude of {x:?}");
        assert_eq!(d.abs().to_bits(), x.abs().to_bits(), "abs of {x:?}");
    }
}

#[test]
fn comparison_agrees_with_the_hardware() {
    for x in samples() {
        for y in samples() {
            assert_eq!(double(x).lt(double(y)), x < y, "{x:?} < {y:?}");
            assert_eq!(double(x).le(double(y)), x <= y, "{x:?} <= {y:?}");
        }
    }
}

#[test]
fn the_two_zeros_compare_equal() {
    assert!(double(0.0).le(double(-0.0)));
    assert!(double(-0.0).le(double(0.0)));
    assert!(!double(-0.0).lt(double(0.0)));
    assert!(!double(0.0).lt(double(-0.0)));
    assert!(double(-0.0).is_zero());
    assert!(!double(-0.0).is_negative());
}

#[test]
fn a_nan_compares_with_nothing() {
    let nan = Binary64::nan();
    assert!(!nan.lt(nan));
    assert!(!nan.le(nan));
    assert!(!nan.lt(double(1.0)));
    assert!(!double(1.0).le(nan));
    assert!(!nan.is_zero());
    assert!(!nan.is_negative());
    assert!(!nan.is_positive());
    assert!(nan.abs().is_nan());
    assert!(double(-f64::NAN).abs().is_nan());
}

#[test]
fn neighbours_on_the_line_are_ordered() {
    assert!(double(-5e-324).lt(double(0.0)));
    assert!(double(0.0).lt(double(5e-324)));
    assert!(double(f64::MAX).lt(double(f64::INFINITY)));
    assert!(double(f64::NEG_INFINITY).lt(double(f64::MIN)));
    assert!(double(1.0).lt(double(1.0000000000000002)));
    assert!(double(-1.0000000000000002).lt(double(-1.0)));
}
