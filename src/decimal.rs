//! 18-decimal fixed-point numbers whose rounding is that of
//! `cosmwasm_bignumber`, with every overflow turned into an error.

use cosmwasm_bignumber::{Decimal256, Uint256};
use vstd::prelude::*;

use crate::error::ContractError;

verus! {

/// Number of atomics in one whole unit.
pub const DECIMAL_FRACTIONAL: u128 = 1_000_000_000_000_000_000;

/// The value of a little-endian array of four 64-bit limbs.
pub open spec fn limbs_value(l: [u64; 4]) -> int {
    l@[0] as int + l@[1] as int * 0x1_0000_0000_0000_0000 + l@[2] as int
        * 0x1_0000_0000_0000_0000_0000_0000_0000_0000 + l@[3] as int
        * 0x1_0000_0000_0000_0000_0000_0000_0000_0000_0000_0000_0000_0000
}

/// Whether an integer fits the 128-bit number types of this library.
pub open spec fn fits(x: int) -> bool {
    0 <= x <= u128::MAX
}

/// Fixed-point product, truncated: `a * b / 10^18`.
pub open spec fn dmul(a: int, b: int) -> int {
    (a * b) / (DECIMAL_FRACTIONAL as int)
}

/// Fixed-point quotient, truncated: `a * 10^18 / b`.
pub open spec fn ddiv(a: int, b: int) -> int {
    (a * (DECIMAL_FRACTIONAL as int)) / b
}

/// An integer scaled by a fixed-point ratio, truncated: `u * d / 10^18`.
pub open spec fn umul(u: int, d: int) -> int {
    (u * d) / (DECIMAL_FRACTIONAL as int)
}

/// The atomics of the fixed-point number that stands for the integer `u`.
pub open spec fn from_int(u: int) -> int {
    u * (DECIMAL_FRACTIONAL as int)
}

/// A non-negative fixed-point number with 18 decimal places, held as its
/// count of atomics (`10^-18` each).
#[derive(Clone, Copy, Debug, PartialEq, Eq, Structural)]
pub struct Decimal {
    pub atomics: u128,
}

impl Decimal {
    /// The number of atomics, as a mathematical integer.
    pub open spec fn val(self) -> int {
        self.atomics as int
    }

    pub fn zero() -> (r: Decimal)
        ensures
            r.val() == 0,
    {
        Decimal { atomics: 0 }
    }

    pub fn one() -> (r: Decimal)
        ensures
            r.val() == DECIMAL_FRACTIONAL,
    {
        Decimal { atomics: DECIMAL_FRACTIONAL }
    }

    pub fn from_atomics(atomics: u128) -> (r: Decimal)
        ensures
            r.val() == atomics,
    {
        Decimal { atomics }
    }

    /// `x` hundredths.
    pub fn percent(x: u64) -> (r: Decimal)
        ensures
            r.val() == x * 10_000_000_000_000_000,
    {
        Decimal { atomics: x as u128 * 10_000_000_000_000_000u128 }
    }

    /// `x` thousandths.
    pub fn permille(x: u64) -> (r: Decimal)
        ensures
            r.val() == x * 1_000_000_000_000_000,
    {
        Decimal { atomics: x as u128 * 1_000_000_000_000_000u128 }
    }

    pub fn is_zero(&self) -> (r: bool)
        ensures
            r == (self.val() == 0),
    {
        self.atomics == 0
    }

    /// The fixed-point number equal to the integer `u`.
    pub fn from_uint(u: u128) -> (r: Result<Decimal, ContractError>)
        ensures
            fits(from_int(u as int)) ==> r == Ok::<Decimal, ContractError>(
                Decimal { atomics: from_int(u as int) as u128 },
            ),
            !fits(from_int(u as int)) ==> r == Err::<Decimal, ContractError>(
                ContractError::Overflow,
            ),
    {
        let l = decimal_from_uint_limbs(u);
        match limbs_to_u128(l) {
            Some(a) => Ok(Decimal { atomics: a }),
            None => Err(ContractError::Overflow),
        }
    }

    pub fn checked_add(self, o: Decimal) -> (r: Result<Decimal, ContractError>)
        ensures
            fits(self.val() + o.val()) ==> r == Ok::<Decimal, ContractError>(
                Decimal { atomics: (self.val() + o.val()) as u128 },
            ),
            !fits(self.val() + o.val()) ==> r == Err::<Decimal, ContractError>(
                ContractError::Overflow,
            ),
    {
        if self.atomics > u128::MAX - o.atomics {
            Err(ContractError::Overflow)
        } else {
            Ok(Decimal { atomics: self.atomics + o.atomics })
        }
    }

    pub fn checked_sub(self, o: Decimal) -> (r: Result<Decimal, ContractError>)
        ensures
            self.val() >= o.val() ==> r == Ok::<Decimal, ContractError>(
                Decimal { atomics: (self.val() - o.val()) as u128 },
            ),
            self.val() < o.val() ==> r == Err::<Decimal, ContractError>(
                ContractError::Underflow,
            ),
    {
        if self.atomics < o.atomics {
            Err(ContractError::Underflow)
        } else {
            Ok(Decimal { atomics: self.atomics - o.atomics })
        }
    }

    pub fn checked_mul(self, o: Decimal) -> (r: Result<Decimal, ContractError>)
        ensures
            fits(dmul(self.val(), o.val())) ==> r == Ok::<Decimal, ContractError>(
                Decimal { atomics: dmul(self.val(), o.val()) as u128 },
            ),
            !fits(dmul(self.val(), o.val())) ==> r == Err::<Decimal, ContractError>(
                ContractError::Overflow,
            ),
    {
        let l = decimal_mul_limbs(self.atomics, o.atomics);
        match limbs_to_u128(l) {
            Some(a) => Ok(Decimal { atomics: a }),
            None => Err(ContractError::Overflow),
        }
    }

    pub fn checked_div(self, o: Decimal) -> (r: Result<Decimal, ContractError>)
        ensures
            o.val() == 0 ==> r == Err::<Decimal, ContractError>(ContractError::DivideByZero),
            o.val() != 0 && fits(ddiv(self.val(), o.val())) ==> r == Ok::<
                Decimal,
                ContractError,
            >(Decimal { atomics: ddiv(self.val(), o.val()) as u128 }),
            o.val() != 0 && !fits(ddiv(self.val(), o.val())) ==> r == Err::<
                Decimal,
                ContractError,
            >(ContractError::Overflow),
    {
        if o.atomics == 0 {
            return Err(ContractError::DivideByZero);
        }
        let l = decimal_div_limbs(self.atomics, o.atomics);
        match limbs_to_u128(l) {
            Some(a) => Ok(Decimal { atomics: a }),
            None => Err(ContractError::Overflow),
        }
    }

    /// The smaller of two numbers.
    pub fn min(self, o: Decimal) -> (r: Decimal)
        ensures
            r.val() == if self.val() <= o.val() { self.val() } else { o.val() },
    {
        if self.atomics <= o.atomics {
            self
        } else {
            o
        }
    }
}

/// An integer amount scaled by a fixed-point ratio, truncated.
pub fn uint_mul_decimal(u: u128, d: Decimal) -> (r: Result<u128, ContractError>)
    ensures
        fits(umul(u as int, d.val())) ==> r == Ok::<u128, ContractError>(
            umul(u as int, d.val()) as u128,
        ),
        !fits(umul(u as int, d.val())) ==> r == Err::<u128, ContractError>(
            ContractError::Overflow,
        ),
{
    let l = uint_mul_decimal_limbs(u, d.atomics);
    match limbs_to_u128(l) {
        Some(a) => Ok(a),
        None => Err(ContractError::Overflow),
    }
}

/// An integer amount divided by a fixed-point ratio, truncated.
pub fn uint_div_decimal(u: u128, d: Decimal) -> (r: Result<u128, ContractError>)
    ensures
        d.val() == 0 ==> r == Err::<u128, ContractError>(ContractError::DivideByZero),
        d.val() != 0 && fits(ddiv(u as int, d.val())) ==> r == Ok::<u128, ContractError>(
            ddiv(u as int, d.val()) as u128,
        ),
        d.val() != 0 && !fits(ddiv(u as int, d.val())) ==> r == Err::<u128, ContractError>(
            ContractError::Overflow,
        ),
{
    if d.atomics == 0 {
        return Err(ContractError::DivideByZero);
    }
    let l = uint_div_decimal_limbs(u, d.atomics);
    match limbs_to_u128(l) {
        Some(a) => Ok(a),
        None => Err(ContractError::Overflow),
    }
}

/// The value of four limbs, where it fits in 128 bits.
fn limbs_to_u128(l: [u64; 4]) -> (r: Option<u128>)
    ensures
        fits(limbs_value(l)) ==> r == Some(limbs_value(l) as u128),
        !fits(limbs_value(l)) ==> r.is_none(),
{
    if l[2] != 0 || l[3] != 0 {
        None
    } else {
        Some((l[1] as u128) * 0x1_0000_0000_0000_0000u128 + (l[0] as u128))
    }
}

/// Relies on `Decimal256 * Decimal256` of cosmwasm_bignumber: the product of
/// the atomics divided by `10^18`, truncated. Both factors are below `2^128`,
/// so the 256-bit product cannot overflow.
#[verifier::external_body]
fn decimal_mul_limbs(a: u128, b: u128) -> (r: [u64; 4])
    ensures
        limbs_value(r) == dmul(a as int, b as int),
{
    let x = Decimal256(Uint256::from(a).0);
    let y = Decimal256(Uint256::from(b).0);
    (x * y).0 .0
}

/// Relies on `Decimal256 / Decimal256` of cosmwasm_bignumber: the dividend's
/// atomics times `10^18`, divided by the divisor's atomics, truncated. It
/// panics on a zero divisor.
#[verifier::external_body]
fn decimal_div_limbs(a: u128, b: u128) -> (r: [u64; 4])
    requires
        b != 0,
    ensures
        limbs_value(r) == ddiv(a as int, b as int),
{
    let x = Decimal256(Uint256::from(a).0);
    let y = Decimal256(Uint256::from(b).0);
    (x / y).0 .0
}

/// Relies on `Uint256 * Decimal256` of cosmwasm_bignumber: zero when either
/// side is zero, else `multiply_ratio(atomics, 10^18)`, truncated.
#[verifier::external_body]
fn uint_mul_decimal_limbs(u: u128, d: u128) -> (r: [u64; 4])
    ensures
        limbs_value(r) == umul(u as int, d as int),
{
    let x = Uint256::from(u);
    let y = Decimal256(Uint256::from(d).0);
    (x * y).0 .0
}

/// Relies on `Uint256 / Decimal256` of cosmwasm_bignumber: zero for a zero
/// dividend, else `multiply_ratio(10^18, atomics)`, truncated. It panics on a
/// zero divisor.
#[verifier::external_body]
fn uint_div_decimal_limbs(u: u128, d: u128) -> (r: [u64; 4])
    requires
        d != 0,
    ensures
        limbs_value(r) == ddiv(u as int, d as int),
{
    let x = Uint256::from(u);
    let y = Decimal256(Uint256::from(d).0);
    (x / y).0 .0
}

/// Relies on `Decimal256::from_uint256` of cosmwasm_bignumber: the integer
/// times `10^18`.
#[verifier::external_body]
fn decimal_from_uint_limbs(u: u128) -> (r: [u64; 4])
    ensures
        limbs_value(r) == from_int(u as int),
{
    Decimal256::from_uint256(Uint256::from(u)).0 .0
}

} // verus!
