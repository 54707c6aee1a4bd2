use vstd::prelude::*;

verus! {

/// Why an operation of the engine was refused.
#[derive(Clone, Copy, Debug, PartialEq, Eq, Structural)]
pub enum ContractError {
    /// The sender is not allowed to perform the operation.
    Unauthorized,
    /// The epoch has not elapsed yet; carries the last executed height.
    EpochNotPassed(u64),
    /// A fixed-point or integer result does not fit the number types.
    Overflow,
    /// A subtraction would go below zero.
    Underflow,
    /// A division by zero.
    DivideByZero,
}

impl ContractError {
    /// The error comes from the arithmetic, not from a rule of the engine.
    pub open spec fn is_arithmetic(self) -> bool {
        self is Overflow || self is Underflow || self is DivideByZero
    }
}

} // verus!
