use event_relay::binary64::{is_within_percent, FRACTION_SPAN, HUNDRED, SIGN_BIT};

fn within(x: f64) -> bool {
    is_within_percent(x.to_bits())
}

#[test]
fn constants_are_the_patterns_they_name() {
    assert_eq!(HUNDRED, 100.0f64.to_bits());
    assert_eq!(SIGN_BIT, (-0.0f64).to_bits());
    assert_eq!(FRACTION_SPAN, 1u64 << 52);
    assert_eq!(f64::MIN_POSITIVE.to_bits(), FRACTION_SPAN);
}

#[test]
fn bounds_are_within() {
    assert!(within(0.0));
    assert!(within(100.0));
}

#[test]
fn negative_zero_is_within() {
    assert!(within(-0.0));
}

#[test]
fn numbers_between_the_bounds_are_within() {
    assert!(within(42.0));
    assert!(within(42.5));
    assert!(within(1.0));
    assert!(within(99.99999999999999));
    assert!(within(0.1));
    assert!(within(f64::MIN_POSITIVE));
    assert!(within(f64::from_bits(1)));
    assert!(within(f64::from_bits(HUNDRED - 1)));
}

#[test]
fn numbers_above_a_hundred_are_not_within() {
    assert!(!within(150.0));
    assert!(!within(100.00000000000001));
    assert!(!within(f64::from_bits(HUNDRED + 1)));
    assert!(!within(128.0));
    assert!(!within(1e300));
    assert!(!within(f64::MAX));
}

#[test]
fn numbers_below_zero_are_not_within() {
    assert!(!within(-1.0));
    assert!(!within(-0.5));
    assert!(!within(-42.0));
    assert!(!within(-f64::MIN_POSITIVE));
    assert!(!within(f64::from_bits(SIGN_BIT + 1)));
    assert!(!within(f64::MIN));
}

#[test]
fn infinities_and_nan_are_not_within() {
    assert!(!within(f64::INFINITY));
    assert!(!within(f64::NEG_INFINITY));
    assert!(!within(f64::NAN));
    assert!(!within(-f64::NAN));
    assert!(!within(f64::from_bits(0x7ff0_0000_0000_0001)));
    assert!(!within(f64::from_bits(0xffff_ffff_ffff_ffff)));
}

#[test]
fn every_whole_percentage_is_within() {
    let mut p: u32 = 0;
    while p <= 100 {
        assert!(within(p as f64), "{} should be within", p);
        p += 1;
    }
    assert!(!within(101.0));
}

#[test]
fn decision_agrees_with_comparison_of_doubles() {
    // A fixed walk over the patterns: a multiplicative generator, so that
    // every exponent and both signs are met.
    let mut bits: u64 = 0x9e37_79b9_7f4a_7c15;
    let mut n: u32 = 0;
    while n < 200_000 {
        let x = f64::from_bits(bits);
        let expected = x >= 0.0 && x <= 100.0;
        assert_eq!(is_within_percent(bits), expected, "pattern {:#x}", bits);
        bits = bits.wrapping_mul(6364136223846793005).wrapping_add(1442695040888963407);
        n += 1;
    }
}

#[test]
fn decision_agrees_with_comparison_near_a_hundred() {
    let mut bits: u64 = HUNDRED - 1000;
    while bits <= HUNDRED + 1000 {
        let x = f64::from_bits(bits);
        assert_eq!(is_within_percent(bits), x >= 0.0 && x <= 100.0);
        bits += 1;
    }
}
