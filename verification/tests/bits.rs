use onmf::bits::{
    avoid_zero, is_positive, is_unit, is_zero, INFINITY, MIN_POSITIVE, NEGATIVE_ZERO, ONE,
    POSITIVE_ZERO,
};

fn samples() -> Vec<f64> {
    vec![
        0.0,
        -0.0,
        f64::MIN_POSITIVE,
        -f64::MIN_POSITIVE,
        f64::from_bits(1),
        -f64::from_bits(1),
        1.0,
        -1.0,
        0.5,
        2.5e-310,
        1.0e308,
        f64::MAX,
        f64::MIN,
        f64::INFINITY,
        f64::NEG_INFINITY,
        f64::NAN,
        -f64::NAN,
        f64::from_bits(0x7FF0_0000_0000_0001),
        f64::from_bits(0xFFFF_FFFF_FFFF_FFFF),
        f64::EPSILON,
        1.0 + f64::EPSILON,
        1.0 - f64::EPSILON,
        -0.5,
    ]
}

#[test]
fn constants_are_the_encodings_of_their_numbers() {
    assert_eq!(POSITIVE_ZERO, 0.0f64.to_bits());
    assert_eq!(NEGATIVE_ZERO, (-0.0f64).to_bits());
    assert_eq!(MIN_POSITIVE, f64::MIN_POSITIVE.to_bits());
    assert_eq!(ONE, 1.0f64.to_bits());
    assert_eq!(INFINITY, f64::INFINITY.to_bits());
}

#[test]
fn constants_agree_with_the_float_traits() {
    assert_eq!(MIN_POSITIVE, <f64 as num::Float>::min_positive_value().to_bits());
    assert_eq!(POSITIVE_ZERO, <f64 as num::Zero>::zero().to_bits());
    assert_eq!(NEGATIVE_ZERO, <f64 as num::Float>::neg_zero().to_bits());
    assert_eq!(ONE, <f64 as num::One>::one().to_bits());
    assert_eq!(INFINITY, <f64 as num::Float>::infinity().to_bits());
}

#[test]
fn is_zero_agrees_with_comparison_to_zero() {
    for x in samples() {
        assert_eq!(is_zero(x.to_bits()), x == 0.0, "{x:e}");
    }
}

#[test]
fn is_positive_agrees_with_comparison_to_zero() {
    for x in samples() {
        assert_eq!(is_positive(x.to_bits()), x > 0.0, "{x:e}");
    }
}

#[test]
fn is_unit_agrees_with_the_bounds_of_the_interval() {
    for x in samples() {
        assert_eq!(is_unit(x.to_bits()), 0.0 < x && x <= 1.0, "{x:e}");
    }
    assert!(is_unit(1.0f64.to_bits()));
    assert!(!is_unit(0.0f64.to_bits()));
}

#[test]
fn avoid_zero_replaces_both_zeros() {
    assert_eq!(avoid_zero(0.0f64.to_bits()), f64::MIN_POSITIVE.to_bits());
    assert_eq!(avoid_zero((-0.0f64).to_bits()), f64::MIN_POSITIVE.to_bits());
    assert_eq!(f64::from_bits(avoid_zero(0)), 2.2250738585072014e-308);
}

#[test]
fn avoid_zero_keeps_everything_else() {
    for x in samples() {
        if x != 0.0 {
            assert_eq!(avoid_zero(x.to_bits()), x.to_bits(), "{x:e}");
        }
    }
}

#[test]
fn avoid_zero_never_yields_zero_and_is_idempotent() {
    for x in samples() {
        let once = avoid_zero(x.to_bits());
        assert!(f64::from_bits(once) != 0.0);
        assert_eq!(avoid_zero(once), once);
    }
}

#[test]
fn avoid_zero_of_a_nonnegative_number_is_positive() {
    for x in samples() {
        let guarded = f64::from_bits(avoid_zero(x.to_bits()));
        assert_eq!(guarded > 0.0, x >= 0.0, "{x:e}");
    }
}

#[test]
fn smallest_subnormal_is_positive_and_kept() {
    let tiny = f64::from_bits(1);
    assert!(is_positive(tiny.to_bits()));
    assert_eq!(avoid_zero(tiny.to_bits()), 1);
}
