//! The epoch-operations controller: gates periodic settlement, measures the
//! realised deposit rate, buys yield and tops up depositors from the interest
//! buffer, then commits the new epoch snapshot in a second, deferred step.

use vstd::prelude::*;

use crate::decimal::{ddiv, fits, from_int, uint_mul_decimal, umul, Decimal, DECIMAL_FRACTIONAL};
use crate::dynrate::{
    adjust_dynrate, adjusted, adjustment_in_range, dynrate_window_elapsed, lemma_adjustment_bounded,
    lemma_spread_le,
    rate_after, update_rate, window_elapsed, DynrateConfig, DynrateState, RateAdjustment,
};
use crate::error::ContractError;

verus! {

/// The settlement parameters of the overseer.
#[derive(Clone, Copy, Debug, PartialEq, Eq, Structural)]
pub struct Config {
    /// Blocks that must pass between two settlements.
    pub epoch_period: u64,
    /// Deposit rate below which the buffer tops up depositors.
    pub threshold_deposit_rate: Decimal,
    pub target_deposit_rate: Decimal,
    /// Share of the buffer that one settlement may distribute.
    pub buffer_distribution_factor: Decimal,
    /// Share of the newly accrued buffer that buys yield.
    pub anc_purchase_factor: Decimal,
    /// Oracle staleness window, in seconds.
    pub price_timeframe: u64,
}

/// Snapshot taken at the last settlement.
#[derive(Clone, Copy, Debug, PartialEq, Eq, Structural)]
pub struct EpochState {
    pub deposit_rate: Decimal,
    pub prev_aterra_supply: u128,
    pub prev_interest_buffer: u128,
    pub prev_exchange_rate: Decimal,
    pub last_executed_height: u64,
}

impl EpochState {
    /// The exchange rate of reference is positive.
    pub open spec fn wf(self) -> bool {
        self.prev_exchange_rate.val() > 0
    }

    /// The snapshot at instantiation.
    pub fn new(height: u64) -> (r: EpochState)
        ensures
            r.wf(),
            r.deposit_rate.val() == 0,
            r.prev_aterra_supply == 0,
            r.prev_interest_buffer == 0,
            r.prev_exchange_rate.val() == DECIMAL_FRACTIONAL,
            r.last_executed_height == height,
    {
        EpochState {
            deposit_rate: Decimal::zero(),
            prev_aterra_supply: 0,
            prev_interest_buffer: 0,
            prev_exchange_rate: Decimal::one(),
            last_executed_height: height,
        }
    }
}

/// What one settlement decided; the caller sends the purchase and the
/// distribution, and later commits the epoch with `update_epoch_state`.
#[derive(Clone, Copy, Debug, PartialEq, Eq, Structural)]
pub struct EpochOutcome {
    /// The configuration, with the rates that the window may have moved.
    pub config: Config,
    pub dynrate_state: DynrateState,
    pub deposit_rate: Decimal,
    /// Amount sent to the collector to buy yield.
    pub anc_purchase_amount: u128,
    /// Amount sent to the market for depositors.
    pub distributed_interest: u128,
    /// What is left of the buffer after both transfers.
    pub interest_buffer: u128,
}

/// The per-block deposit rate: growth of the exchange rate since the last
/// epoch, spread over the blocks that passed.
pub open spec fn raw_deposit_rate(exchange_rate: int, prev_exchange_rate: int, blocks: int) -> int {
    ddiv(ddiv(exchange_rate, prev_exchange_rate) - DECIMAL_FRACTIONAL, from_int(blocks))
}

/// The deposit rate can be measured: a positive reference rate, a rate that
/// did not fall, and at least one block.
pub open spec fn deposit_rate_in_range(
    exchange_rate: int,
    prev_exchange_rate: int,
    blocks: int,
) -> bool {
    &&& prev_exchange_rate != 0
    &&& fits(ddiv(exchange_rate, prev_exchange_rate))
    &&& ddiv(exchange_rate, prev_exchange_rate) >= DECIMAL_FRACTIONAL
    &&& blocks >= 1
}

/// Measures the per-block deposit rate from the exchange rates at both ends
/// of the epoch.
pub fn compute_deposit_rate(exchange_rate: Decimal, prev_exchange_rate: Decimal, blocks: u64) -> (r:
    Result<Decimal, ContractError>)
    ensures
        r is Ok <==> deposit_rate_in_range(exchange_rate.val(), prev_exchange_rate.val(), blocks as int),
        r is Ok ==> r == Ok::<Decimal, ContractError>(
            Decimal {
                atomics: raw_deposit_rate(
                    exchange_rate.val(),
                    prev_exchange_rate.val(),
                    blocks as int,
                ) as u128,
            },
        ),
        r matches Ok(d) ==> d.val() == raw_deposit_rate(
            exchange_rate.val(),
            prev_exchange_rate.val(),
            blocks as int,
        ),
        prev_exchange_rate.val() == 0 ==> r == Err::<Decimal, ContractError>(
            ContractError::DivideByZero,
        ),
        prev_exchange_rate.val() != 0 && !fits(ddiv(exchange_rate.val(), prev_exchange_rate.val()))
            ==> r == Err::<Decimal, ContractError>(ContractError::Overflow),
        prev_exchange_rate.val() != 0 && fits(ddiv(exchange_rate.val(), prev_exchange_rate.val()))
            && ddiv(exchange_rate.val(), prev_exchange_rate.val()) < DECIMAL_FRACTIONAL ==> r
            == Err::<Decimal, ContractError>(ContractError::Underflow),
        prev_exchange_rate.val() != 0 && fits(ddiv(exchange_rate.val(), prev_exchange_rate.val()))
            && ddiv(exchange_rate.val(), prev_exchange_rate.val()) >= DECIMAL_FRACTIONAL && blocks
            == 0 ==> r == Err::<Decimal, ContractError>(ContractError::DivideByZero),
{
    let effective = exchange_rate.checked_div(prev_exchange_rate)?;
    let growth = effective.checked_sub(Decimal::one())?;
    let span = Decimal::from_uint(blocks as u128)?;
    if blocks >= 1 {
        proof {
            lemma_spread_le(growth.val(), blocks as int);
        }
    }
    growth.checked_div(span)
}

/// The settlement may not run yet.
pub open spec fn epoch_gate_closed(c: Config, s: EpochState, height: u64) -> bool {
    height < s.last_executed_height + c.epoch_period
}

/// The rates and window snapshot that the settlement goes on with.
pub open spec fn rates_for_epoch(
    c: Config,
    dc: DynrateConfig,
    ds: DynrateState,
    interest_buffer: u128,
    height: u64,
) -> RateAdjustment {
    if window_elapsed(dc, ds, height) {
        adjusted(
            dc,
            ds,
            c.target_deposit_rate,
            c.threshold_deposit_rate,
            interest_buffer,
            height,
        )
    } else {
        RateAdjustment {
            dynrate_state: ds,
            target_deposit_rate: c.target_deposit_rate,
            threshold_deposit_rate: c.threshold_deposit_rate,
        }
    }
}

/// The shortfall owed to depositors: what the previous deposits would have
/// earned over the epoch at the missing rate.
pub open spec fn missing_deposits(s: EpochState, blocks: int, missing_rate: int) -> int {
    umul(umul(s.prev_aterra_supply as int, s.prev_exchange_rate.val()) * blocks, missing_rate)
}

/// The amount distributed to depositors: the shortfall, capped by the
/// distributable share of the buffer; nothing when the rate is met.
pub open spec fn distribution_of(
    s: EpochState,
    blocks: int,
    threshold: int,
    deposit_rate: int,
    factor: int,
    buffer: int,
) -> int {
    if deposit_rate < threshold {
        let missing = missing_deposits(s, blocks, threshold - deposit_rate);
        let cap = umul(buffer, factor);
        if missing <= cap {
            missing
        } else {
            cap
        }
    } else {
        0
    }
}

/// Every intermediate value of a distribution fits.
pub open spec fn distribution_in_range(
    s: EpochState,
    blocks: int,
    threshold: int,
    deposit_rate: int,
    factor: int,
    buffer: int,
) -> bool {
    deposit_rate < threshold ==> {
        &&& fits(umul(s.prev_aterra_supply as int, s.prev_exchange_rate.val()))
        &&& fits(umul(s.prev_aterra_supply as int, s.prev_exchange_rate.val()) * blocks)
        &&& fits(missing_deposits(s, blocks, threshold - deposit_rate))
        &&& fits(umul(buffer, factor))
        &&& distribution_of(s, blocks, threshold, deposit_rate, factor, buffer) <= buffer
    }
}

proof fn lemma_product_exceeds(x: int, b: int)
    requires
        b > 0,
        x > (u128::MAX as int) / b,
    ensures
        x * b > u128::MAX,
{
    let m = u128::MAX as int;
    assert(x * b > m) by (nonlinear_arith)
        requires
            b > 0,
            x > m / b,
    ;
}

proof fn lemma_product_within(x: int, b: int)
    requires
        b >= 0,
        b > 0 ==> x <= (u128::MAX as int) / b,
    ensures
        x * b <= u128::MAX,
{
    let m = u128::MAX as int;
    if b > 0 {
        assert(x * b <= m) by (nonlinear_arith)
            requires
                b > 0,
                x <= m / b,
        ;
    }
}

/// Splits the buffer: returns what goes to depositors and what remains.
pub fn compute_distribution(
    state: &EpochState,
    blocks: u64,
    threshold_deposit_rate: Decimal,
    deposit_rate: Decimal,
    buffer_distribution_factor: Decimal,
    interest_buffer: u128,
) -> (r: Result<(u128, u128), ContractError>)
    ensures
        r is Ok <==> distribution_in_range(
            *state,
            blocks as int,
            threshold_deposit_rate.val(),
            deposit_rate.val(),
            buffer_distribution_factor.val(),
            interest_buffer as int,
        ),
        r matches Err(e) ==> e.is_arithmetic(),
        r matches Ok(p) ==> {
            &&& p.0 == distribution_of(
                *state,
                blocks as int,
                threshold_deposit_rate.val(),
                deposit_rate.val(),
                buffer_distribution_factor.val(),
                interest_buffer as int,
            )
            &&& p.1 == interest_buffer - p.0
        },
{
    if deposit_rate.atomics >= threshold_deposit_rate.atomics {
        return Ok((0, interest_buffer));
    }
    let missing_rate = threshold_deposit_rate.checked_sub(deposit_rate)?;
    let prev_deposits = uint_mul_decimal(state.prev_aterra_supply, state.prev_exchange_rate)?;
    if blocks > 0 && prev_deposits > u128::MAX / (blocks as u128) {
        proof {
            lemma_product_exceeds(prev_deposits as int, blocks as int);
        }
        return Err(ContractError::Overflow);
    }
    proof {
        lemma_product_within(prev_deposits as int, blocks as int);
    }
    let deposits_over_epoch: u128 = prev_deposits * (blocks as u128);
    let missing = uint_mul_decimal(deposits_over_epoch, missing_rate)?;
    let cap = uint_mul_decimal(interest_buffer, buffer_distribution_factor)?;
    let distributed = if missing <= cap {
        missing
    } else {
        cap
    };
    if distributed > interest_buffer {
        return Err(ContractError::Underflow);
    }
    Ok((distributed, interest_buffer - distributed))
}

/// Every intermediate value of a settlement is in range.
pub open spec fn epoch_in_range(
    c: Config,
    dc: DynrateConfig,
    s: EpochState,
    ds: DynrateState,
    height: u64,
    interest_buffer: u128,
    exchange_rate: Decimal,
) -> bool {
    let blocks = height - s.last_executed_height;
    let ra = rates_for_epoch(c, dc, ds, interest_buffer, height);
    let raw = raw_deposit_rate(exchange_rate.val(), s.prev_exchange_rate.val(), blocks);
    let dr = rate_after(raw, ra.dynrate_state.rate_delta.val(), ra.dynrate_state.update_vector);
    let anc = umul(interest_buffer - s.prev_interest_buffer, c.anc_purchase_factor.val());
    &&& window_elapsed(dc, ds, height) ==> adjustment_in_range(
        dc,
        ds,
        c.target_deposit_rate,
        interest_buffer,
        height,
    )
    &&& deposit_rate_in_range(exchange_rate.val(), s.prev_exchange_rate.val(), blocks)
    &&& fits(dr)
    &&& interest_buffer >= s.prev_interest_buffer
    &&& fits(anc)
    &&& anc <= interest_buffer
    &&& distribution_in_range(
        s,
        blocks,
        ra.threshold_deposit_rate.val(),
        dr,
        c.buffer_distribution_factor.val(),
        interest_buffer - anc,
    )
}

/// The decisions of a settlement whose values are in range.
pub open spec fn epoch_outcome(
    c: Config,
    dc: DynrateConfig,
    s: EpochState,
    ds: DynrateState,
    height: u64,
    interest_buffer: u128,
    exchange_rate: Decimal,
) -> EpochOutcome {
    let blocks = height - s.last_executed_height;
    let ra = rates_for_epoch(c, dc, ds, interest_buffer, height);
    let raw = raw_deposit_rate(exchange_rate.val(), s.prev_exchange_rate.val(), blocks);
    let dr = rate_after(raw, ra.dynrate_state.rate_delta.val(), ra.dynrate_state.update_vector);
    let anc = umul(interest_buffer - s.prev_interest_buffer, c.anc_purchase_factor.val());
    let distributed = distribution_of(
        s,
        blocks,
        ra.threshold_deposit_rate.val(),
        dr,
        c.buffer_distribution_factor.val(),
        interest_buffer - anc,
    );
    EpochOutcome {
        config: Config {
            target_deposit_rate: ra.target_deposit_rate,
            threshold_deposit_rate: ra.threshold_deposit_rate,
            ..c
        },
        dynrate_state: ra.dynrate_state,
        deposit_rate: Decimal { atomics: dr as u128 },
        anc_purchase_amount: anc as u128,
        distributed_interest: distributed as u128,
        interest_buffer: (interest_buffer - anc - distributed) as u128,
    }
}

/// A settlement moves the target deposit rate by at most the dynamic-rate
/// maximum change: the window adjusts it at most once per settlement, by a
/// bounded step, and otherwise leaves it alone.
pub proof fn lemma_epoch_rate_step_bounded(
    c: Config,
    dc: DynrateConfig,
    s: EpochState,
    ds: DynrateState,
    height: u64,
    interest_buffer: u128,
    exchange_rate: Decimal,
)
    requires
        epoch_in_range(c, dc, s, ds, height, interest_buffer, exchange_rate),
    ensures
        epoch_outcome(
            c,
            dc,
            s,
            ds,
            height,
            interest_buffer,
            exchange_rate,
        ).config.target_deposit_rate.val() <= c.target_deposit_rate.val()
            + dc.dyn_rate_maxchange.val(),
        epoch_outcome(
            c,
            dc,
            s,
            ds,
            height,
            interest_buffer,
            exchange_rate,
        ).config.target_deposit_rate.val() >= c.target_deposit_rate.val()
            - dc.dyn_rate_maxchange.val(),
{
    if window_elapsed(dc, ds, height) {
        lemma_adjustment_bounded(
            dc,
            ds,
            c.target_deposit_rate,
            c.threshold_deposit_rate,
            interest_buffer,
            height,
        );
    }
}

/// Runs one settlement at `current_height`, given the interest buffer held
/// and the market's current exchange rate. Refused with `EpochNotPassed`
/// while the epoch period has not elapsed since the last settlement.
/// When the dynamic-rate window has elapsed as well, the rates are adjusted
/// first. The realised deposit rate, moved by the window's step, decides
/// whether the buffer tops up depositors.
pub fn execute_epoch_operations(
    config: &Config,
    dynrate_config: &DynrateConfig,
    state: &EpochState,
    dynrate_state: &DynrateState,
    current_height: u64,
    interest_buffer: u128,
    exchange_rate: Decimal,
) -> (r: Result<EpochOutcome, ContractError>)
    ensures
        epoch_gate_closed(*config, *state, current_height) ==> r == Err::<
            EpochOutcome,
            ContractError,
        >(ContractError::EpochNotPassed(state.last_executed_height)),
        !epoch_gate_closed(*config, *state, current_height) ==> (r is Ok <==> epoch_in_range(
            *config,
            *dynrate_config,
            *state,
            *dynrate_state,
            current_height,
            interest_buffer,
            exchange_rate,
        )),
        r is Ok ==> r == Ok::<EpochOutcome, ContractError>(
            epoch_outcome(
                *config,
                *dynrate_config,
                *state,
                *dynrate_state,
                current_height,
                interest_buffer,
                exchange_rate,
            ),
        ),
        !epoch_gate_closed(*config, *state, current_height) ==> (r matches Err(e) ==> e.is_arithmetic()),
{
    if current_height < state.last_executed_height || current_height - state.last_executed_height
        < config.epoch_period {
        return Err(ContractError::EpochNotPassed(state.last_executed_height));
    }
    let mut new_config = *config;
    let mut new_dynrate_state = *dynrate_state;
    if dynrate_window_elapsed(dynrate_config, dynrate_state, current_height) {
        let adjustment = adjust_dynrate(
            dynrate_config,
            dynrate_state,
            config.target_deposit_rate,
            config.threshold_deposit_rate,
            interest_buffer,
            current_height,
        )?;
        new_config.target_deposit_rate = adjustment.target_deposit_rate;
        new_config.threshold_deposit_rate = adjustment.threshold_deposit_rate;
        new_dynrate_state = adjustment.dynrate_state;
    }
    let blocks: u64 = current_height - state.last_executed_height;
    let raw_rate = compute_deposit_rate(exchange_rate, state.prev_exchange_rate, blocks)?;
    let deposit_rate = update_rate(
        raw_rate,
        new_dynrate_state.rate_delta,
        new_dynrate_state.update_vector,
    )?;
    if interest_buffer < state.prev_interest_buffer {
        return Err(ContractError::Underflow);
    }
    let accrued_buffer: u128 = interest_buffer - state.prev_interest_buffer;
    let anc_purchase_amount = uint_mul_decimal(accrued_buffer, config.anc_purchase_factor)?;
    if anc_purchase_amount > interest_buffer {
        return Err(ContractError::Underflow);
    }
    let remaining: u128 = interest_buffer - anc_purchase_amount;
    let (distributed_interest, left) = compute_distribution(
        state,
        blocks,
        new_config.threshold_deposit_rate,
        deposit_rate,
        config.buffer_distribution_factor,
        remaining,
    )?;
    Ok(
        EpochOutcome {
            config: new_config,
            dynrate_state: new_dynrate_state,
            deposit_rate,
            anc_purchase_amount,
            distributed_interest,
            interest_buffer: left,
        },
    )
}

/// The snapshot that the deferred commit writes.
pub open spec fn committed_state(
    s: EpochState,
    height: u64,
    interest_buffer: u128,
    exchange_rate: Decimal,
    aterra_supply: u128,
) -> EpochState {
    EpochState {
        deposit_rate: Decimal {
            atomics: raw_deposit_rate(
                exchange_rate.val(),
                s.prev_exchange_rate.val(),
                height - s.last_executed_height,
            ) as u128,
        },
        prev_aterra_supply: aterra_supply,
        prev_interest_buffer: interest_buffer,
        prev_exchange_rate: exchange_rate,
        last_executed_height: height,
    }
}

/// The deferred commit of a settlement: only the contract itself may send
/// it. It measures the deposit rate again from the market's exchange rate,
/// now that the settlement's transfers have landed, and replaces the epoch
/// snapshot.
pub fn update_epoch_state(
    state: &EpochState,
    sender: &String,
    contract_address: &String,
    current_height: u64,
    interest_buffer: u128,
    exchange_rate: Decimal,
    aterra_supply: u128,
) -> (r: Result<EpochState, ContractError>)
    ensures
        sender@ != contract_address@ ==> r == Err::<EpochState, ContractError>(
            ContractError::Unauthorized,
        ),
        sender@ == contract_address@ && current_height < state.last_executed_height ==> r == Err::<
            EpochState,
            ContractError,
        >(ContractError::Underflow),
        sender@ == contract_address@ && current_height >= state.last_executed_height ==> (r is Ok
            <==> deposit_rate_in_range(
            exchange_rate.val(),
            state.prev_exchange_rate.val(),
            current_height - state.last_executed_height,
        )),
        r is Ok ==> r == Ok::<EpochState, ContractError>(
            committed_state(*state, current_height, interest_buffer, exchange_rate, aterra_supply),
        ),
        r matches Ok(n) ==> n.wf() && n.last_executed_height > state.last_executed_height,
{
    if !sender.eq(contract_address) {
        return Err(ContractError::Unauthorized);
    }
    if current_height < state.last_executed_height {
        return Err(ContractError::Underflow);
    }
    let blocks: u64 = current_height - state.last_executed_height;
    let deposit_rate = compute_deposit_rate(exchange_rate, state.prev_exchange_rate, blocks)?;
    proof {
        let e = exchange_rate.val();
        let p = state.prev_exchange_rate.val();
        let f = DECIMAL_FRACTIONAL as int;
        assert(e > 0) by (nonlinear_arith)
            requires
                p > 0,
                e >= 0,
                f > 0,
                (e * f) / p >= f,
        ;
    }
    Ok(
        EpochState {
            deposit_rate,
            prev_aterra_supply: aterra_supply,
            prev_interest_buffer: interest_buffer,
            prev_exchange_rate: exchange_rate,
            last_executed_height: current_height,
        },
    )
}

} // verus!
