use moneymarket_core::decimal::{uint_mul_decimal, Decimal, DECIMAL_FRACTIONAL};
use moneymarket_core::error::ContractError;

#[test]
fn decimal_constructors() {
    assert_eq!(Decimal::one().atomics, DECIMAL_FRACTIONAL);
    assert_eq!(Decimal::percent(50).atomics, DECIMAL_FRACTIONAL / 2);
    assert_eq!(Decimal::permille(125).atomics, DECIMAL_FRACTIONAL / 8);
    assert!(Decimal::zero().is_zero());
    assert!(!Decimal::from_atomics(1).is_zero());
}

#[test]
fn decimal_from_uint_scales() {
    assert_eq!(Decimal::from_uint(7), Ok(Decimal::from_atomics(7 * DECIMAL_FRACTIONAL)));
    assert_eq!(Decimal::from_uint(0), Ok(Decimal::zero()));
    assert_eq!(Decimal::from_uint(u128::MAX), Err(ContractError::Overflow));
}

#[test]
fn decimal_mul_truncates() {
    let a = Decimal::percent(150);
    let b = Decimal::from_atomics(3);
    // 1.5 * 3e-18 = 4.5e-18
    assert_eq!(a.checked_mul(b), Ok(Decimal::from_atomics(4)));
    assert_eq!(
        Decimal::percent(50).checked_mul(Decimal::percent(50)),
        Ok(Decimal::percent(25))
    );
    // the product's intermediate exceeds 128 bits, the result does not
    let big = Decimal::from_uint(1_000_000_000_000_000_000).unwrap();
    assert_eq!(
        big.checked_mul(Decimal::percent(200)),
        Ok(Decimal::from_uint(2_000_000_000_000_000_000).unwrap())
    );
    assert_eq!(big.checked_mul(big), Err(ContractError::Overflow));
}

#[test]
fn decimal_div_truncates() {
    let one = Decimal::one();
    let three = Decimal::from_uint(3).unwrap();
    assert_eq!(
        one.checked_div(three),
        Ok(Decimal::from_atomics(333_333_333_333_333_333))
    );
    assert_eq!(
        Decimal::from_uint(3).unwrap().checked_div(Decimal::from_uint(2).unwrap()),
        Ok(Decimal::percent(150))
    );
    assert_eq!(one.checked_div(Decimal::zero()), Err(ContractError::DivideByZero));
    assert_eq!(
        Decimal::from_atomics(u128::MAX).checked_div(Decimal::from_atomics(2)),
        Err(ContractError::Overflow)
    );
}

#[test]
fn decimal_add_sub_min() {
    let a = Decimal::percent(30);
    let b = Decimal::percent(20);
    assert_eq!(a.checked_add(b), Ok(Decimal::percent(50)));
    assert_eq!(a.checked_sub(b), Ok(Decimal::percent(10)));
    assert_eq!(b.checked_sub(a), Err(ContractError::Underflow));
    assert_eq!(
        Decimal::from_atomics(u128::MAX).checked_add(Decimal::from_atomics(1)),
        Err(ContractError::Overflow)
    );
    assert_eq!(a.min(b), b);
    assert_eq!(b.min(a), b);
}

#[test]
fn uint_times_decimal() {
    assert_eq!(uint_mul_decimal(80, Decimal::percent(50)), Ok(40));
    assert_eq!(uint_mul_decimal(7, Decimal::percent(50)), Ok(3));
    assert_eq!(uint_mul_decimal(0, Decimal::from_atomics(u128::MAX)), Ok(0));
    assert_eq!(uint_mul_decimal(u128::MAX, Decimal::zero()), Ok(0));
    assert_eq!(
        uint_mul_decimal(u128::MAX, Decimal::percent(200)),
        Err(ContractError::Overflow)
    );
}
