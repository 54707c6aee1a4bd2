//! The rebase-reward accumulator: yield created by a collateral asset whose
//! price rises against its underlying asset, folded into a running total.

use vstd::prelude::*;

use crate::decimal::{ddiv, dmul, fits, uint_mul_decimal, umul, Decimal};
use crate::error::ContractError;

verus! {

/// The rebase index and running total after a deposit.
#[derive(Clone, Copy, Debug, PartialEq, Eq, Structural)]
pub struct RebaseOutcome {
    pub current_rebase_index: Decimal,
    /// Reward measured by this call, in the stable unit.
    pub reward: u128,
    pub total_cumulative_rewards: u128,
}

/// Adds a reward to the running total.
pub fn update_total_cumulative_rewards(current: u128, reward: u128) -> (r: Result<
    u128,
    ContractError,
>)
    ensures
        fits(current + reward) ==> r == Ok::<u128, ContractError>((current + reward) as u128),
        !fits(current + reward) ==> r == Err::<u128, ContractError>(ContractError::Overflow),
{
    if current > u128::MAX - reward {
        Err(ContractError::Overflow)
    } else {
        Ok(current + reward)
    }
}

/// The collateral held before a deposit: the balance that includes it, less
/// the deposit itself, so that the new deposit earns nothing yet.
pub fn collateral_before_deposit(balance: u128, deposit: u128) -> (r: Result<
    u128,
    ContractError,
>)
    ensures
        deposit <= balance ==> r == Ok::<u128, ContractError>((balance - deposit) as u128),
        deposit > balance ==> r == Err::<u128, ContractError>(ContractError::Underflow),
{
    if deposit > balance {
        Err(ContractError::Underflow)
    } else {
        Ok(balance - deposit)
    }
}

/// The index the previous deposit recorded, or the new one on the first
/// deposit, which then earns nothing.
pub open spec fn previous_index(stored: Option<Decimal>, new_index: int) -> int {
    match stored {
        Some(d) => d.val(),
        None => new_index,
    }
}

/// The reward: growth of the index, valued at the underlying price, on the
/// collateral held.
pub open spec fn rebase_reward(
    new_index: int,
    old_index: int,
    underlying_price: int,
    total_collateral: int,
) -> int {
    umul(total_collateral, dmul(new_index - old_index, underlying_price))
}

/// Every intermediate value of a rebase update is in range.
pub open spec fn rebase_in_range(
    collateral_price: Decimal,
    underlying_price: Decimal,
    stored: Option<Decimal>,
    total_cumulative_rewards: u128,
    total_collateral: u128,
) -> bool {
    let new_index = ddiv(collateral_price.val(), underlying_price.val());
    let old_index = previous_index(stored, new_index);
    let reward = rebase_reward(new_index, old_index, underlying_price.val(), total_collateral as int);
    &&& underlying_price.val() != 0
    &&& fits(new_index)
    &&& new_index >= old_index
    &&& fits(dmul(new_index - old_index, underlying_price.val()))
    &&& fits(reward)
    &&& fits(total_cumulative_rewards + reward)
}

/// Measures the yield earned since the last deposit by the collateral held
/// before this one, adds it to the running total, and records the new
/// rebase index (collateral price over underlying price). An index that fell
/// is refused with `Underflow`: the total cannot go down.
pub fn update_rebasing_rewards(
    collateral_price: Decimal,
    underlying_price: Decimal,
    stored_rebase_index: Option<Decimal>,
    total_cumulative_rewards: u128,
    total_collateral_amount: u128,
) -> (r: Result<RebaseOutcome, ContractError>)
    ensures
        r is Ok <==> rebase_in_range(
            collateral_price,
            underlying_price,
            stored_rebase_index,
            total_cumulative_rewards,
            total_collateral_amount,
        ),
        r matches Ok(o) ==> {
            let new_index = ddiv(collateral_price.val(), underlying_price.val());
            let reward = rebase_reward(
                new_index,
                previous_index(stored_rebase_index, new_index),
                underlying_price.val(),
                total_collateral_amount as int,
            );
            &&& o.current_rebase_index.val() == new_index
            &&& o.reward == reward
            &&& o.total_cumulative_rewards == total_cumulative_rewards + reward
        },
        r matches Ok(o) ==> o.total_cumulative_rewards >= total_cumulative_rewards,
        stored_rebase_index is None && r is Ok ==> r->Ok_0.reward == 0,
        underlying_price.val() == 0 ==> r == Err::<RebaseOutcome, ContractError>(
            ContractError::DivideByZero,
        ),
        r matches Err(e) ==> e.is_arithmetic(),
{
    let new_index = collateral_price.checked_div(underlying_price)?;
    let old_index = match stored_rebase_index {
        Some(d) => d,
        None => new_index,
    };
    let growth = new_index.checked_sub(old_index)?;
    proof {
        let p = underlying_price.val();
        let t = total_collateral_amount as int;
        assert(dmul(0, p) == 0 && umul(t, 0) == 0) by (nonlinear_arith);
    }
    let value = growth.checked_mul(underlying_price)?;
    let reward = uint_mul_decimal(total_collateral_amount, value)?;
    let total = update_total_cumulative_rewards(total_cumulative_rewards, reward)?;
    Ok(RebaseOutcome { current_rebase_index: new_index, reward, total_cumulative_rewards: total })
}

} // verus!
