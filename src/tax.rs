//! The transfer tax that the host chain levies on stable-denomination sends.

use vstd::prelude::*;

use crate::decimal::{ddiv, fits, uint_div_decimal, Decimal, DECIMAL_FRACTIONAL};
use crate::error::ContractError;

verus! {

/// The tax on sending `amount`: the part above what remains once the rate is
/// taken out of the gross amount, capped at `cap`.
pub open spec fn tax_of(amount: int, rate: int, cap: int) -> int {
    let uncapped = amount - ddiv(amount, DECIMAL_FRACTIONAL + rate);
    if uncapped <= cap {
        uncapped
    } else {
        cap
    }
}

/// The tax levied on a transfer of `amount` at `tax_rate`, at most `tax_cap`.
pub fn compute_tax(amount: u128, tax_rate: Decimal, tax_cap: u128) -> (r: Result<
    u128,
    ContractError,
>)
    ensures
        fits(DECIMAL_FRACTIONAL + tax_rate.val()) ==> r == Ok::<u128, ContractError>(
            tax_of(amount as int, tax_rate.val(), tax_cap as int) as u128,
        ),
        !fits(DECIMAL_FRACTIONAL + tax_rate.val()) ==> r == Err::<u128, ContractError>(
            ContractError::Overflow,
        ),
        r is Ok ==> 0 <= tax_of(amount as int, tax_rate.val(), tax_cap as int) <= amount,
        r matches Ok(t) ==> t <= tax_cap,
{
    let divisor = Decimal::one().checked_add(tax_rate)?;
    proof {
        let a = amount as int;
        let d = divisor.val();
        let f = DECIMAL_FRACTIONAL as int;
        assert(0 <= (a * f) / d <= a) by (nonlinear_arith)
            requires
                a >= 0,
                d >= f,
                f > 0,
        ;
    }
    let net = uint_div_decimal(amount, divisor)?;
    let tax: u128 = amount - net;
    if tax <= tax_cap {
        Ok(tax)
    } else {
        Ok(tax_cap)
    }
}

/// What arrives of a transfer of `amount` once the tax is taken.
pub fn deduct_tax(amount: u128, tax_rate: Decimal, tax_cap: u128) -> (r: Result<
    u128,
    ContractError,
>)
    ensures
        fits(DECIMAL_FRACTIONAL + tax_rate.val()) ==> r == Ok::<u128, ContractError>(
            (amount - tax_of(amount as int, tax_rate.val(), tax_cap as int)) as u128,
        ),
        !fits(DECIMAL_FRACTIONAL + tax_rate.val()) ==> r == Err::<u128, ContractError>(
            ContractError::Overflow,
        ),
        r matches Ok(n) ==> n <= amount,
{
    let tax = compute_tax(amount, tax_rate, tax_cap)?;
    Ok(amount - tax)
}

} // verus!
