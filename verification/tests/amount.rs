use aokiji::amount::{nano_to_raw, AmountError, RAW_PER_NANO};

#[test]
fn one_nano_is_ten_to_the_thirty_raw() {
    assert_eq!(nano_to_raw("1"), Ok(1_000_000_000_000_000_000_000_000_000_000));
    assert_eq!(nano_to_raw("1"), Ok(RAW_PER_NANO));
}

#[test]
fn one_and_a_half_nano() {
    assert_eq!(nano_to_raw("1.5"), Ok(1_500_000_000_000_000_000_000_000_000_000));
}

#[test]
fn one_raw_unit_does_not_become_zero() {
    assert_eq!(nano_to_raw("0.000000000000000000000000000001"), Ok(1));
}

#[test]
fn zero_in_its_spellings() {
    assert_eq!(nano_to_raw("0"), Ok(0));
    assert_eq!(nano_to_raw("0.0"), Ok(0));
    assert_eq!(nano_to_raw("-0"), Ok(0));
    assert_eq!(nano_to_raw("+0.000"), Ok(0));
    assert_eq!(nano_to_raw("000"), Ok(0));
    assert_eq!(nano_to_raw(".0"), Ok(0));
    assert_eq!(nano_to_raw("0."), Ok(0));
}

#[test]
fn a_dot_may_stand_first_or_last() {
    assert_eq!(nano_to_raw(".25"), Ok(250_000_000_000_000_000_000_000_000_000));
    assert_eq!(nano_to_raw("3."), Ok(3 * RAW_PER_NANO));
    assert_eq!(nano_to_raw("+2"), Ok(2 * RAW_PER_NANO));
}

#[test]
fn leading_and_trailing_zeros_change_nothing() {
    assert_eq!(nano_to_raw("0001.5000"), Ok(1_500_000_000_000_000_000_000_000_000_000));
    assert_eq!(
        nano_to_raw("0.0000000000000000000000000000010000"),
        Ok(1)
    );
    assert_eq!(
        nano_to_raw("00000000000000000000000000000000000000000000000007"),
        Ok(7 * RAW_PER_NANO)
    );
}

#[test]
fn text_that_is_no_numeral() {
    assert_eq!(nano_to_raw(""), Err(AmountError::NotANumber));
    assert_eq!(nano_to_raw("."), Err(AmountError::NotANumber));
    assert_eq!(nano_to_raw("+"), Err(AmountError::NotANumber));
    assert_eq!(nano_to_raw("-."), Err(AmountError::NotANumber));
    assert_eq!(nano_to_raw("abc"), Err(AmountError::NotANumber));
    assert_eq!(nano_to_raw("1.2.3"), Err(AmountError::NotANumber));
    assert_eq!(nano_to_raw("1e5"), Err(AmountError::NotANumber));
    assert_eq!(nano_to_raw("1,5"), Err(AmountError::NotANumber));
    assert_eq!(nano_to_raw(" 1"), Err(AmountError::NotANumber));
    assert_eq!(nano_to_raw("--1"), Err(AmountError::NotANumber));
    assert_eq!(nano_to_raw("１"), Err(AmountError::NotANumber));
    assert_eq!(nano_to_raw("1.٣"), Err(AmountError::NotANumber));
}

#[test]
fn an_amount_below_zero() {
    assert_eq!(nano_to_raw("-1"), Err(AmountError::Negative));
    assert_eq!(nano_to_raw("-0.000000000000000000000000000001"), Err(AmountError::Negative));
    assert_eq!(
        nano_to_raw("-0.0000000000000000000000000000001"),
        Err(AmountError::Negative)
    );
}

#[test]
fn less_than_one_raw_unit_is_refused() {
    assert_eq!(
        nano_to_raw("0.0000000000000000000000000000001"),
        Err(AmountError::TooPrecise)
    );
    assert_eq!(
        nano_to_raw("1.0000000000000000000000000000015"),
        Err(AmountError::TooPrecise)
    );
}

#[test]
fn the_largest_amount_that_fits() {
    assert_eq!(
        nano_to_raw("340282366.920938463463374607431768211455"),
        Ok(u128::MAX)
    );
    assert_eq!(
        nano_to_raw("340282366.920938463463374607431768211456"),
        Err(AmountError::TooLarge)
    );
    assert_eq!(nano_to_raw("340282367"), Err(AmountError::TooLarge));
    assert_eq!(
        nano_to_raw("99999999999999999999999999999999999999999999"),
        Err(AmountError::TooLarge)
    );
}

#[test]
fn too_precise_is_told_before_too_large() {
    assert_eq!(
        nano_to_raw("99999999999999999999999999999999999999999999.0000000000000000000000000000001"),
        Err(AmountError::TooPrecise)
    );
}
