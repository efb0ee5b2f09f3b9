use arcane_vote::decimal::Decimal;

#[test]
fn add_whole_units() {
    let a = Decimal::from_units(5);
    let b = Decimal::from_units(3);
    assert_eq!(a.checked_add(b), Some(Decimal::from_units(8)));
}

#[test]
fn add_negative_attos() {
    let a = Decimal::from_attos(-5);
    let b = Decimal::from_attos(3);
    assert_eq!(a.checked_add(b), Some(Decimal::from_attos(-2)));
    assert_eq!(b.checked_sub(a), Some(Decimal::from_attos(8)));
}

#[test]
fn from_units_is_attos_times_ten_to_eighteen() {
    assert_eq!(Decimal::from_units(1000), Decimal::from_attos(1_000_000_000_000_000_000_000));
    assert_eq!(Decimal::from_units(0), Decimal::zero());
}

#[test]
fn mul_by_one_tenth() {
    let a = Decimal::from_units(25);
    assert_eq!(a.checked_mul(Decimal::one_tenth()), Some(Decimal::from_attos(2_500_000_000_000_000_000)));
}

#[test]
fn mul_rounds_toward_zero() {
    // 3 attos times one tenth is 0.3 attos, which rounds to 0; -3 attos to -0 = 0.
    assert_eq!(Decimal::from_attos(3).checked_mul(Decimal::one_tenth()), Some(Decimal::zero()));
    assert_eq!(Decimal::from_attos(-13).checked_mul(Decimal::one_tenth()), Some(Decimal::from_attos(-1)));
}

#[test]
fn div_one_by_three() {
    let q = Decimal::from_units(1).checked_div(Decimal::from_units(3));
    assert_eq!(q, Some(Decimal::from_attos(333_333_333_333_333_333)));
}

#[test]
fn div_by_zero_is_none() {
    assert_eq!(Decimal::from_units(1).checked_div(Decimal::zero()), None);
}

#[test]
fn mul_overflow_is_none() {
    let big = Decimal::from_attos(i128::MAX);
    assert_eq!(big.checked_mul(big), None);
}

#[test]
fn comparisons() {
    let a = Decimal::from_attos(-1);
    let b = Decimal::from_units(1);
    assert!(a.lt(b));
    assert!(b.gt(a));
    assert!(a.le(a));
    assert!(b.ge(b));
    assert!(!b.lt(a));
}

#[test]
fn smallest_value_does_not_survive_mul_or_div() {
    // -2^191 attos: fits 192 bits, but the product and the quotient are
    // narrowed from 256 bits, which keeps magnitudes below 2^191 only
    let min = Decimal { lo: 0, mid: 0, hi: 0x8000_0000_0000_0000 };
    let one = Decimal::from_units(1);
    assert_eq!(min.checked_mul(one), None);
    assert_eq!(min.checked_div(one), None);
    // one atto more survives both
    let above = Decimal { lo: 1, mid: 0, hi: 0x8000_0000_0000_0000 };
    assert_eq!(above.checked_mul(one), Some(above));
    assert_eq!(above.checked_div(one), Some(above));
}
