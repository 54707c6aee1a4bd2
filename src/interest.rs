//! Interest accrual on the market's aggregate state, and lazy projection of
//! each borrower's liability through the global interest index.

use vstd::prelude::*;

use crate::decimal::{
    ddiv, dmul, fits, from_int, uint_mul_decimal, umul, Decimal, DECIMAL_FRACTIONAL,
};
use crate::error::ContractError;

verus! {

/// The market parameters that accrual reads.
#[derive(Clone, Copy, Debug, PartialEq, Eq, Structural)]
pub struct MarketConfig {
    /// Share of each accrued interest amount that goes to the reserves.
    pub reserve_factor: Decimal,
}

/// Aggregate borrowing state of the market.
#[derive(Clone, Copy, Debug, PartialEq, Eq, Structural)]
pub struct State {
    pub total_liabilities: Decimal,
    pub total_reserves: Decimal,
    pub last_interest_updated: u64,
    pub global_interest_index: Decimal,
}

/// A borrower's debt, recorded against the index at its last update.
#[derive(Clone, Copy, Debug, PartialEq, Eq, Structural)]
pub struct Liability {
    pub interest_index: Decimal,
    pub loan_amount: u128,
}

impl State {
    /// The index starts at one and never decreases.
    pub open spec fn wf(self) -> bool {
        self.global_interest_index.val() >= DECIMAL_FRACTIONAL
    }

    /// The state of a fresh market at `height`.
    pub fn new(height: u64) -> (r: State)
        ensures
            r.wf(),
            r.total_liabilities.val() == 0,
            r.total_reserves.val() == 0,
            r.last_interest_updated == height,
            r.global_interest_index.val() == DECIMAL_FRACTIONAL,
    {
        State {
            total_liabilities: Decimal::zero(),
            total_reserves: Decimal::zero(),
            last_interest_updated: height,
            global_interest_index: Decimal::one(),
        }
    }
}

/// The market's balance as the interest model sees it: what the contract
/// holds, less a deposit that arrived with the current message.
pub fn market_balance(balance: u128, deposit_amount: Option<u128>) -> (r: Result<
    u128,
    ContractError,
>)
    ensures
        deposit_amount is None ==> r == Ok::<u128, ContractError>(balance),
        deposit_amount matches Some(d) ==> (d <= balance ==> r == Ok::<u128, ContractError>(
            (balance - d) as u128,
        )) && (d > balance ==> r == Err::<u128, ContractError>(ContractError::Underflow)),
{
    match deposit_amount {
        Some(d) => if d > balance {
            Err(ContractError::Underflow)
        } else {
            Ok(balance - d)
        },
        None => Ok(balance),
    }
}

/// `borrow_rate` (per block) times the number of blocks, as a ratio.
pub open spec fn interest_factor(s: State, height: u64, borrow_rate: Decimal) -> int {
    dmul(from_int(height - s.last_interest_updated), borrow_rate.val())
}

/// The interest accrued on the total liabilities.
pub open spec fn accrued_interest(s: State, height: u64, borrow_rate: Decimal) -> int {
    dmul(s.total_liabilities.val(), interest_factor(s, height, borrow_rate))
}

/// The global index after accrual: `index * (1 + factor)`.
pub open spec fn accrued_index(s: State, height: u64, borrow_rate: Decimal) -> int {
    dmul(s.global_interest_index.val(), DECIMAL_FRACTIONAL + interest_factor(s, height, borrow_rate))
}

/// The reserves' share of the accrued interest.
pub open spec fn reserve_share(
    c: MarketConfig,
    s: State,
    height: u64,
    borrow_rate: Decimal,
) -> int {
    dmul(accrued_interest(s, height, borrow_rate), c.reserve_factor.val())
}

/// Every intermediate value of an accrual fits the number types.
pub open spec fn accrual_in_range(
    c: MarketConfig,
    s: State,
    height: u64,
    borrow_rate: Decimal,
) -> bool {
    &&& fits(from_int(height - s.last_interest_updated))
    &&& fits(interest_factor(s, height, borrow_rate))
    &&& fits(accrued_interest(s, height, borrow_rate))
    &&& fits(DECIMAL_FRACTIONAL + interest_factor(s, height, borrow_rate))
    &&& fits(accrued_index(s, height, borrow_rate))
    &&& fits(s.total_liabilities.val() + accrued_interest(s, height, borrow_rate))
    &&& fits(reserve_share(c, s, height, borrow_rate))
    &&& fits(s.total_reserves.val() + reserve_share(c, s, height, borrow_rate))
}

/// The state after interest has accrued up to `height`.
pub open spec fn accrued_state(
    c: MarketConfig,
    s: State,
    height: u64,
    borrow_rate: Decimal,
) -> State {
    State {
        total_liabilities: Decimal {
            atomics: (s.total_liabilities.val() + accrued_interest(s, height, borrow_rate)) as u128,
        },
        total_reserves: Decimal {
            atomics: (s.total_reserves.val() + reserve_share(c, s, height, borrow_rate)) as u128,
        },
        last_interest_updated: height,
        global_interest_index: Decimal { atomics: accrued_index(s, height, borrow_rate) as u128 },
    }
}

proof fn lemma_index_grows(index: int, factor: int)
    requires
        index >= 0,
        factor >= 0,
    ensures
        dmul(index, DECIMAL_FRACTIONAL + factor) >= index,
{
    let f = DECIMAL_FRACTIONAL as int;
    assert(index * (f + factor) >= index * f) by (nonlinear_arith)
        requires
            index >= 0,
            factor >= 0,
    ;
    assert((index * f) / f == index) by (nonlinear_arith)
        requires
            f > 0,
    ;
    assert((index * (f + factor)) / f >= (index * f) / f) by (nonlinear_arith)
        requires
            index * (f + factor) >= index * f,
            f > 0,
    ;
}

/// Advances the market state to `block_height` at the per-block
/// `borrow_rate`: the liabilities grow by the accrued interest, the reserves
/// by their share of it, and the index by the factor `1 + rate * blocks`.
/// Nothing changes when no block has passed since the last update.
pub fn compute_interest(
    config: &MarketConfig,
    state: &mut State,
    block_height: u64,
    borrow_rate: Decimal,
) -> (r: Result<(), ContractError>)
    ensures
        block_height <= old(state).last_interest_updated ==> r is Ok && *final(state) == *old(
            state,
        ),
        block_height > old(state).last_interest_updated ==> {
            &&& r is Ok <==> accrual_in_range(*config, *old(state), block_height, borrow_rate)
            &&& r is Ok ==> *final(state) == accrued_state(
                *config,
                *old(state),
                block_height,
                borrow_rate,
            )
            &&& r is Err ==> r == Err::<(), ContractError>(ContractError::Overflow)
            &&& r is Err ==> *final(state) == *old(state)
        },
        r is Ok ==> final(state).global_interest_index.val() >= old(
            state,
        ).global_interest_index.val(),
        old(state).wf() && r is Ok ==> final(state).wf(),
{
    if block_height <= state.last_interest_updated {
        return Ok(());
    }
    let ghost s0 = *state;
    let elapsed: u64 = block_height - state.last_interest_updated;
    let passed_blocks = Decimal::from_uint(elapsed as u128)?;
    let factor = passed_blocks.checked_mul(borrow_rate)?;
    let accrued = state.total_liabilities.checked_mul(factor)?;
    let growth = Decimal::one().checked_add(factor)?;
    let index = state.global_interest_index.checked_mul(growth)?;
    let liabilities = state.total_liabilities.checked_add(accrued)?;
    let share = accrued.checked_mul(config.reserve_factor)?;
    let reserves = state.total_reserves.checked_add(share)?;
    proof {
        lemma_index_grows(s0.global_interest_index.val(), factor.val());
    }
    state.total_liabilities = liabilities;
    state.total_reserves = reserves;
    state.global_interest_index = index;
    state.last_interest_updated = block_height;
    Ok(())
}

/// A loan's amount carried from the index `from` to the index `to`:
/// `loan * (to / from)`, truncated.
pub open spec fn projected_loan(loan: int, to: int, from: int) -> int {
    umul(loan, ddiv(to, from))
}

/// Every intermediate value of a projection fits the number types.
pub open spec fn projection_in_range(s: State, l: Liability) -> bool {
    &&& l.interest_index.val() != 0
    &&& fits(ddiv(s.global_interest_index.val(), l.interest_index.val()))
    &&& fits(
        projected_loan(l.loan_amount as int, s.global_interest_index.val(), l.interest_index.val()),
    )
}

/// The liability as it stands at the state's index.
pub open spec fn projected(s: State, l: Liability) -> Liability {
    Liability {
        interest_index: s.global_interest_index,
        loan_amount: projected_loan(
            l.loan_amount as int,
            s.global_interest_index.val(),
            l.interest_index.val(),
        ) as u128,
    }
}

/// Brings a borrower's liability up to the state's global index: the loan
/// grows by the ratio of the current index to the recorded one, and the
/// recorded index becomes the current one.
pub fn compute_loan(state: &State, liability: &mut Liability) -> (r: Result<(), ContractError>)
    ensures
        r is Ok <==> projection_in_range(*state, *old(liability)),
        r is Ok ==> *final(liability) == projected(*state, *old(liability)),
        old(liability).interest_index.val() == 0 ==> r == Err::<(), ContractError>(
            ContractError::DivideByZero,
        ),
        old(liability).interest_index.val() != 0 && !projection_in_range(
            *state,
            *old(liability),
        ) ==> r == Err::<(), ContractError>(ContractError::Overflow),
        r is Err ==> *final(liability) == *old(liability),
{
    let ratio = state.global_interest_index.checked_div(liability.interest_index)?;
    let loan = uint_mul_decimal(liability.loan_amount, ratio)?;
    liability.loan_amount = loan;
    liability.interest_index = state.global_interest_index;
    Ok(())
}

/// Projecting a liability a second time at the same index changes nothing:
/// the debt is carried through the ratio `index / index`, which is one.
pub proof fn lemma_projection_idempotent(s: State, l: Liability)
    requires
        s.wf(),
        projection_in_range(s, l),
    ensures
        projection_in_range(s, projected(s, l)),
        projected(s, projected(s, l)) == projected(s, l),
{
    let g = s.global_interest_index.val();
    let f = DECIMAL_FRACTIONAL as int;
    let p = projected(s, l);
    let x = p.loan_amount as int;
    assert((g * f) / g == f) by (nonlinear_arith)
        requires
            g > 0,
    ;
    assert((x * f) / f == x) by (nonlinear_arith)
        requires
            f > 0,
    ;
}

} // verus!
