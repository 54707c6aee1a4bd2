//! The dynamic-rate adjuster: a slow control loop that moves the target and
//! threshold deposit rates after the yield reserve's trend, a bounded step at
//! a time.

use vstd::prelude::*;

use crate::decimal::{ddiv, fits, from_int, Decimal, DECIMAL_FRACTIONAL};
use crate::error::ContractError;

verus! {

/// Parameters of the dynamic-rate window.
#[derive(Clone, Copy, Debug, PartialEq, Eq, Structural)]
pub struct DynrateConfig {
    /// Length of the window, in blocks.
    pub dyn_rate_epoch: u64,
    /// Smallest normalised change of the yield reserve that moves the rates.
    pub dyn_rate_threshold: Decimal,
    /// Largest change of the rates over one window.
    pub dyn_rate_maxchange: Decimal,
    /// Growth of the yield reserve that is expected over one window.
    pub dyn_rate_yr_increase_expectation: Decimal,
}

/// Snapshot taken when the window last elapsed.
#[derive(Clone, Copy, Debug, PartialEq, Eq, Structural)]
pub struct DynrateState {
    pub last_executed_height: u64,
    pub prev_yield_reserve: Decimal,
    /// Per-block step applied to the deposit rate.
    pub rate_delta: Decimal,
    /// Whether the yield reserve rose (the rates move up) or fell.
    pub update_vector: bool,
}

/// Outcome of one evaluation of the window.
#[derive(Clone, Copy, Debug, PartialEq, Eq, Structural)]
pub struct RateAdjustment {
    pub dynrate_state: DynrateState,
    pub target_deposit_rate: Decimal,
    pub threshold_deposit_rate: Decimal,
}

impl DynrateState {
    /// The state at instantiation: no reserve recorded, no step.
    pub fn new(height: u64) -> (r: DynrateState)
        ensures
            r.last_executed_height == height,
            r.prev_yield_reserve.val() == 0,
            r.rate_delta.val() == 0,
            r.update_vector,
    {
        DynrateState {
            last_executed_height: height,
            prev_yield_reserve: Decimal::zero(),
            rate_delta: Decimal::zero(),
            update_vector: true,
        }
    }
}

/// A rate moved by `change`: up when `direction` holds, else down, where
/// a step down larger than the rate itself leaves the rate as it was.
pub open spec fn rate_after(rate: int, change: int, direction: bool) -> int {
    if direction {
        rate + change
    } else if rate > change {
        rate - change
    } else {
        rate
    }
}

/// Moves `old_rate` by `rate_change` in the given direction.
pub fn update_rate(old_rate: Decimal, rate_change: Decimal, direction: bool) -> (r: Result<
    Decimal,
    ContractError,
>)
    ensures
        fits(rate_after(old_rate.val(), rate_change.val(), direction)) ==> r == Ok::<
            Decimal,
            ContractError,
        >(Decimal { atomics: rate_after(old_rate.val(), rate_change.val(), direction) as u128 }),
        !fits(rate_after(old_rate.val(), rate_change.val(), direction)) ==> r == Err::<
            Decimal,
            ContractError,
        >(ContractError::Overflow),
{
    if direction {
        old_rate.checked_add(rate_change)
    } else if old_rate.atomics > rate_change.atomics {
        old_rate.checked_sub(rate_change)
    } else {
        Ok(old_rate)
    }
}

/// Whether the window has elapsed and a reserve was recorded to compare
/// against.
pub open spec fn window_elapsed(dc: DynrateConfig, ds: DynrateState, height: u64) -> bool {
    ds.prev_yield_reserve.val() != 0 && height > ds.last_executed_height + dc.dyn_rate_epoch
}

/// Tells whether the dynamic-rate window is due at `current_height`.
pub fn dynrate_window_elapsed(dc: &DynrateConfig, ds: &DynrateState, current_height: u64) -> (r:
    bool)
    ensures
        r == window_elapsed(*dc, *ds, current_height),
{
    !ds.prev_yield_reserve.is_zero() && current_height > ds.last_executed_height && current_height
        - ds.last_executed_height > dc.dyn_rate_epoch
}

/// The absolute change of the reserve relative to the previous one.
pub open spec fn raw_change(yield_reserve: int, prev: int) -> int {
    if yield_reserve > prev {
        ddiv(yield_reserve - prev, prev)
    } else {
        ddiv(prev - yield_reserve, prev)
    }
}

/// The change net of the expected growth; the expectation is a floor.
pub open spec fn net_change(raw: int, expectation: int) -> int {
    if raw > expectation {
        raw - expectation
    } else {
        expectation
    }
}

/// The per-block step: the change, capped at the maximum, spread over the
/// blocks of the window.
pub open spec fn step_of(dc: DynrateConfig, change: int, blocks: int) -> int {
    let capped = if dc.dyn_rate_maxchange.val() <= change {
        dc.dyn_rate_maxchange.val()
    } else {
        change
    };
    ddiv(capped, from_int(blocks))
}

/// Every intermediate value of an adjustment is in range.
pub open spec fn adjustment_in_range(
    dc: DynrateConfig,
    ds: DynrateState,
    target: Decimal,
    interest_buffer: u128,
    height: u64,
) -> bool {
    let yr = from_int(interest_buffer as int);
    let prev = ds.prev_yield_reserve.val();
    let change = net_change(raw_change(yr, prev), dc.dyn_rate_yr_increase_expectation.val());
    let step = step_of(dc, change, height - ds.last_executed_height);
    &&& fits(yr)
    &&& prev != 0
    &&& fits(raw_change(yr, prev))
    &&& (change >= dc.dyn_rate_threshold.val() ==> fits(
        rate_after(target.val(), step, yr > prev),
    ))
}

/// The outcome of an adjustment whose values are in range.
pub open spec fn adjusted(
    dc: DynrateConfig,
    ds: DynrateState,
    target: Decimal,
    threshold: Decimal,
    interest_buffer: u128,
    height: u64,
) -> RateAdjustment {
    let yr = from_int(interest_buffer as int);
    let prev = ds.prev_yield_reserve.val();
    let up = yr > prev;
    let change = net_change(raw_change(yr, prev), dc.dyn_rate_yr_increase_expectation.val());
    let step = step_of(dc, change, height - ds.last_executed_height);
    if change >= dc.dyn_rate_threshold.val() {
        let rate = Decimal { atomics: rate_after(target.val(), step, up) as u128 };
        RateAdjustment {
            dynrate_state: DynrateState {
                last_executed_height: height,
                prev_yield_reserve: Decimal { atomics: yr as u128 },
                rate_delta: Decimal { atomics: step as u128 },
                update_vector: up,
            },
            target_deposit_rate: rate,
            threshold_deposit_rate: rate,
        }
    } else {
        RateAdjustment {
            dynrate_state: DynrateState {
                last_executed_height: height,
                prev_yield_reserve: Decimal { atomics: yr as u128 },
                rate_delta: Decimal { atomics: 0 },
                update_vector: up,
            },
            target_deposit_rate: target,
            threshold_deposit_rate: threshold,
        }
    }
}

/// Spreading a ratio over one block or more never enlarges it.
pub proof fn lemma_spread_le(x: int, blocks: int)
    requires
        x >= 0,
        blocks >= 1,
    ensures
        0 <= ddiv(x, from_int(blocks)) <= x,
{
    let f = DECIMAL_FRACTIONAL as int;
    assert(0 <= (x * f) / (blocks * f) <= (x * f) / f) by (nonlinear_arith)
        requires
            x >= 0,
            blocks >= 1,
            f > 0,
    ;
    assert((x * f) / f == x) by (nonlinear_arith)
        requires
            f > 0,
    ;
}

/// One adjustment moves the target deposit rate by at most the configured
/// maximum change, up or down, however long the window was.
pub proof fn lemma_adjustment_bounded(
    dc: DynrateConfig,
    ds: DynrateState,
    target: Decimal,
    threshold: Decimal,
    interest_buffer: u128,
    height: u64,
)
    requires
        height > ds.last_executed_height,
        adjustment_in_range(dc, ds, target, interest_buffer, height),
    ensures
        adjusted(dc, ds, target, threshold, interest_buffer, height).target_deposit_rate.val()
            <= target.val() + dc.dyn_rate_maxchange.val(),
        adjusted(dc, ds, target, threshold, interest_buffer, height).target_deposit_rate.val()
            >= target.val() - dc.dyn_rate_maxchange.val(),
{
    let yr = from_int(interest_buffer as int);
    let prev = ds.prev_yield_reserve.val();
    let change = net_change(raw_change(yr, prev), dc.dyn_rate_yr_increase_expectation.val());
    let blocks = height - ds.last_executed_height;
    let m = dc.dyn_rate_maxchange.val();
    let capped = if m <= change {
        m
    } else {
        change
    };
    assert(raw_change(yr, prev) >= 0) by (nonlinear_arith)
        requires
            prev > 0,
            yr >= 0,
            raw_change(yr, prev) == if yr > prev {
                ((yr - prev) * (DECIMAL_FRACTIONAL as int)) / prev
            } else {
                ((prev - yr) * (DECIMAL_FRACTIONAL as int)) / prev
            },
    ;
    lemma_spread_le(capped, blocks);
}

/// Evaluates the yield-reserve trend over the elapsed window and moves the
/// target and threshold deposit rates, set equal, by the per-block step; a
/// change below the threshold leaves them as they were. The new snapshot is
/// recorded either way.
pub fn adjust_dynrate(
    dc: &DynrateConfig,
    ds: &DynrateState,
    target_deposit_rate: Decimal,
    threshold_deposit_rate: Decimal,
    interest_buffer: u128,
    current_height: u64,
) -> (r: Result<RateAdjustment, ContractError>)
    requires
        current_height > ds.last_executed_height,
    ensures
        r is Ok <==> adjustment_in_range(*dc, *ds, target_deposit_rate, interest_buffer, current_height),
        r is Ok ==> r == Ok::<RateAdjustment, ContractError>(
            adjusted(
                *dc,
                *ds,
                target_deposit_rate,
                threshold_deposit_rate,
                interest_buffer,
                current_height,
            ),
        ),
        ds.prev_yield_reserve.val() == 0 && fits(from_int(interest_buffer as int)) ==> r == Err::<
            RateAdjustment,
            ContractError,
        >(ContractError::DivideByZero),
        r matches Err(e) ==> e.is_arithmetic(),
        r matches Ok(a) ==> {
            &&& a.target_deposit_rate.val() <= target_deposit_rate.val()
                + dc.dyn_rate_maxchange.val()
            &&& a.target_deposit_rate.val() >= target_deposit_rate.val()
                - dc.dyn_rate_maxchange.val()
            &&& a.dynrate_state.rate_delta.val() <= ddiv(
                dc.dyn_rate_maxchange.val(),
                from_int(current_height - ds.last_executed_height),
            )
        },
{
    let yield_reserve = Decimal::from_uint(interest_buffer)?;
    let up_down = yield_reserve.atomics > ds.prev_yield_reserve.atomics;
    let diff = if up_down {
        yield_reserve.checked_sub(ds.prev_yield_reserve)?
    } else {
        ds.prev_yield_reserve.checked_sub(yield_reserve)?
    };
    let raw = diff.checked_div(ds.prev_yield_reserve)?;
    let expectation = dc.dyn_rate_yr_increase_expectation;
    let change = if raw.atomics > expectation.atomics {
        raw.checked_sub(expectation)?
    } else {
        expectation
    };
    let mut rate_delta = Decimal::zero();
    let mut target = target_deposit_rate;
    let mut threshold = threshold_deposit_rate;
    if change.atomics >= dc.dyn_rate_threshold.atomics {
        let blocks: u64 = current_height - ds.last_executed_height;
        let capped = dc.dyn_rate_maxchange.min(change);
        let span = Decimal::from_uint(blocks as u128)?;
        proof {
            lemma_spread_le(capped.val(), blocks as int);
            lemma_spread_le(dc.dyn_rate_maxchange.val(), blocks as int);
            let f = DECIMAL_FRACTIONAL as int;
            let c = capped.val();
            let m = dc.dyn_rate_maxchange.val();
            let b = blocks as int;
            assert((c * f) / (b * f) <= (m * f) / (b * f)) by (nonlinear_arith)
                requires
                    0 <= c <= m,
                    b >= 1,
                    f > 0,
            ;
        }
        rate_delta = capped.checked_div(span)?;
        target = update_rate(target_deposit_rate, rate_delta, up_down)?;
        threshold = target;
    }
    Ok(
        RateAdjustment {
            dynrate_state: DynrateState {
                last_executed_height: current_height,
                prev_yield_reserve: yield_reserve,
                rate_delta,
                update_vector: up_down,
            },
            target_deposit_rate: target,
            threshold_deposit_rate: threshold,
        },
    )
}

} // verus!
