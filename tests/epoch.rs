use moneymarket_core::decimal::Decimal;
use moneymarket_core::dynrate::{adjust_dynrate, update_rate, DynrateConfig, DynrateState};
use moneymarket_core::epoch::{
    compute_deposit_rate, compute_distribution, execute_epoch_operations, update_epoch_state,
    Config, EpochState,
};
use moneymarket_core::error::ContractError;

fn dec(n: u128) -> Decimal {
    Decimal::from_uint(n).unwrap()
}

fn config() -> Config {
    Config {
        epoch_period: 100,
        threshold_deposit_rate: Decimal::percent(1),
        target_deposit_rate: Decimal::percent(2),
        buffer_distribution_factor: Decimal::percent(10),
        anc_purchase_factor: Decimal::percent(20),
        price_timeframe: 60,
    }
}

fn dynrate_config() -> DynrateConfig {
    DynrateConfig {
        dyn_rate_epoch: 10,
        dyn_rate_threshold: Decimal::zero(),
        dyn_rate_maxchange: Decimal::percent(1),
        dyn_rate_yr_increase_expectation: Decimal::zero(),
    }
}

fn epoch_state() -> EpochState {
    EpochState {
        deposit_rate: Decimal::zero(),
        prev_aterra_supply: 1_000_000,
        prev_interest_buffer: 0,
        prev_exchange_rate: Decimal::one(),
        last_executed_height: 0,
    }
}

#[test]
fn epoch_refused_before_period() {
    let state = EpochState {
        last_executed_height: 500,
        ..epoch_state()
    };
    let ds = DynrateState::new(0);
    for h in [0u64, 499, 500, 550, 599] {
        let r = execute_epoch_operations(
            &config(),
            &dynrate_config(),
            &state,
            &ds,
            h,
            1000,
            Decimal::one(),
        );
        assert_eq!(r, Err(ContractError::EpochNotPassed(500)));
    }
    assert!(execute_epoch_operations(
        &config(),
        &dynrate_config(),
        &state,
        &ds,
        600,
        1000,
        Decimal::one()
    )
    .is_ok());
}

#[test]
fn flat_exchange_rate_distributes_capped_buffer() {
    let ds = DynrateState::new(0);
    let o = execute_epoch_operations(
        &config(),
        &dynrate_config(),
        &epoch_state(),
        &ds,
        100,
        1000,
        Decimal::one(),
    )
    .unwrap();
    assert_eq!(o.deposit_rate, Decimal::zero());
    // 20% of the 1000 accrued buys yield
    assert_eq!(o.anc_purchase_amount, 200);
    // shortfall 1_000_000 * 100 * 1% is far above 10% of the 800 left
    assert_eq!(o.distributed_interest, 80);
    assert_eq!(o.interest_buffer, 720);
    assert_eq!(o.config, config());
    assert_eq!(o.dynrate_state, ds);
}

#[test]
fn rate_above_threshold_distributes_nothing() {
    let ds = DynrateState::new(0);
    // exchange rate 1.5 over 100 blocks: 0.005 per block, above 0.001
    let c = Config {
        threshold_deposit_rate: Decimal::permille(1),
        ..config()
    };
    let o = execute_epoch_operations(
        &c,
        &dynrate_config(),
        &epoch_state(),
        &ds,
        100,
        1000,
        Decimal::percent(150),
    )
    .unwrap();
    assert_eq!(o.deposit_rate, Decimal::permille(5));
    assert_eq!(o.distributed_interest, 0);
    assert_eq!(o.interest_buffer, 800);
}

#[test]
fn shortfall_smaller_than_cap_is_paid_in_full() {
    let ds = DynrateState::new(0);
    let state = EpochState {
        prev_aterra_supply: 1000,
        ..epoch_state()
    };
    let c = Config {
        threshold_deposit_rate: Decimal::from_atomics(1_000_000_000_000),
        buffer_distribution_factor: Decimal::one(),
        ..config()
    };
    let o = execute_epoch_operations(
        &c,
        &dynrate_config(),
        &state,
        &ds,
        100,
        1_000_000,
        Decimal::one(),
    )
    .unwrap();
    // 1000 * 100 * 10^-6 = 0.1, truncated
    assert_eq!(o.distributed_interest, 0);
    let c2 = Config {
        threshold_deposit_rate: Decimal::permille(1),
        ..c
    };
    let o2 = execute_epoch_operations(
        &c2,
        &dynrate_config(),
        &state,
        &ds,
        100,
        1_000_000,
        Decimal::one(),
    )
    .unwrap();
    // 1000 * 100 * 0.001
    assert_eq!(o2.distributed_interest, 100);
    assert_eq!(o2.interest_buffer, 800_000 - 100);
}

#[test]
fn window_adjusts_rates_within_maxchange() {
    let ds = DynrateState {
        last_executed_height: 0,
        prev_yield_reserve: dec(100),
        rate_delta: Decimal::zero(),
        update_vector: true,
    };
    let c = config();
    let o = execute_epoch_operations(
        &c,
        &dynrate_config(),
        &epoch_state(),
        &ds,
        100,
        300,
        Decimal::one(),
    )
    .unwrap();
    // reserve tripled: change 2, capped at 0.01, spread over 100 blocks
    assert_eq!(o.dynrate_state.rate_delta, Decimal::from_atomics(100_000_000_000_000));
    assert!(o.dynrate_state.update_vector);
    assert_eq!(o.dynrate_state.prev_yield_reserve, dec(300));
    assert_eq!(o.dynrate_state.last_executed_height, 100);
    assert_eq!(
        o.config.target_deposit_rate,
        Decimal::from_atomics(20_100_000_000_000_000)
    );
    assert_eq!(o.config.threshold_deposit_rate, o.config.target_deposit_rate);
    let moved = o.config.target_deposit_rate.atomics - c.target_deposit_rate.atomics;
    assert!(moved <= dynrate_config().dyn_rate_maxchange.atomics);
    // the raw deposit rate of zero is pushed up by the step
    assert_eq!(o.deposit_rate, o.dynrate_state.rate_delta);
}

#[test]
fn adjust_dynrate_falling_reserve() {
    let ds = DynrateState {
        last_executed_height: 10,
        prev_yield_reserve: dec(200),
        rate_delta: Decimal::zero(),
        update_vector: true,
    };
    let a = adjust_dynrate(
        &dynrate_config(),
        &ds,
        Decimal::percent(2),
        Decimal::percent(1),
        150,
        20,
    )
    .unwrap();
    // change 0.25 capped at 0.01 over 10 blocks
    assert_eq!(a.dynrate_state.rate_delta, Decimal::permille(1));
    assert!(!a.dynrate_state.update_vector);
    assert_eq!(a.target_deposit_rate, Decimal::permille(19));
    assert_eq!(a.threshold_deposit_rate, Decimal::permille(19));
}

#[test]
fn adjust_dynrate_below_threshold_keeps_rates() {
    let dc = DynrateConfig {
        dyn_rate_threshold: Decimal::percent(50),
        ..dynrate_config()
    };
    let ds = DynrateState {
        last_executed_height: 0,
        prev_yield_reserve: dec(100),
        rate_delta: Decimal::permille(3),
        update_vector: false,
    };
    let a = adjust_dynrate(&dc, &ds, Decimal::percent(2), Decimal::percent(1), 110, 30).unwrap();
    assert_eq!(a.dynrate_state.rate_delta, Decimal::zero());
    assert!(a.dynrate_state.update_vector);
    assert_eq!(a.dynrate_state.last_executed_height, 30);
    assert_eq!(a.target_deposit_rate, Decimal::percent(2));
    assert_eq!(a.threshold_deposit_rate, Decimal::percent(1));
}

#[test]
fn adjust_dynrate_expectation_is_a_floor() {
    let dc = DynrateConfig {
        dyn_rate_yr_increase_expectation: Decimal::percent(5),
        dyn_rate_maxchange: Decimal::one(),
        ..dynrate_config()
    };
    let ds = DynrateState {
        last_executed_height: 0,
        prev_yield_reserve: dec(100),
        rate_delta: Decimal::zero(),
        update_vector: true,
    };
    // change 0.01 is below the expectation: the expectation itself is used
    let a = adjust_dynrate(&dc, &ds, Decimal::zero(), Decimal::zero(), 101, 5).unwrap();
    assert_eq!(a.dynrate_state.rate_delta, Decimal::percent(1));
    // change 0.3 exceeds it: 0.3 - 0.05
    let b = adjust_dynrate(&dc, &ds, Decimal::zero(), Decimal::zero(), 130, 5).unwrap();
    assert_eq!(b.dynrate_state.rate_delta, Decimal::percent(5));
}

#[test]
fn adjust_dynrate_without_reserve_divides_by_zero() {
    let ds = DynrateState::new(0);
    assert_eq!(
        adjust_dynrate(&dynrate_config(), &ds, Decimal::zero(), Decimal::zero(), 5, 20),
        Err(ContractError::DivideByZero)
    );
}

#[test]
fn update_rate_directions() {
    assert_eq!(
        update_rate(Decimal::percent(5), Decimal::percent(2), true),
        Ok(Decimal::percent(7))
    );
    assert_eq!(
        update_rate(Decimal::percent(5), Decimal::percent(2), false),
        Ok(Decimal::percent(3))
    );
    assert_eq!(
        update_rate(Decimal::percent(5), Decimal::percent(6), false),
        Ok(Decimal::percent(5))
    );
    assert_eq!(
        update_rate(Decimal::from_atomics(u128::MAX), Decimal::from_atomics(1), true),
        Err(ContractError::Overflow)
    );
}

#[test]
fn deposit_rate_errors() {
    assert_eq!(
        compute_deposit_rate(Decimal::one(), Decimal::zero(), 10),
        Err(ContractError::DivideByZero)
    );
    assert_eq!(
        compute_deposit_rate(Decimal::percent(90), Decimal::one(), 10),
        Err(ContractError::Underflow)
    );
    assert_eq!(
        compute_deposit_rate(Decimal::percent(110), Decimal::one(), 0),
        Err(ContractError::DivideByZero)
    );
    assert_eq!(
        compute_deposit_rate(Decimal::from_atomics(u128::MAX), Decimal::from_atomics(1), 1),
        Err(ContractError::Overflow)
    );
    // 1.1 / 1.0 over 4 blocks
    assert_eq!(
        compute_deposit_rate(Decimal::percent(110), Decimal::one(), 4),
        Ok(Decimal::from_atomics(25_000_000_000_000_000))
    );
}

#[test]
fn epoch_errors_on_shrinking_buffer() {
    let state = EpochState {
        prev_interest_buffer: 2000,
        ..epoch_state()
    };
    let r = execute_epoch_operations(
        &config(),
        &dynrate_config(),
        &state,
        &DynrateState::new(0),
        100,
        1000,
        Decimal::one(),
    );
    assert_eq!(r, Err(ContractError::Underflow));
}

#[test]
fn distribution_overflow_is_refused() {
    let state = EpochState {
        prev_aterra_supply: u128::MAX / 2,
        ..epoch_state()
    };
    let r = compute_distribution(
        &state,
        3,
        Decimal::percent(1),
        Decimal::zero(),
        Decimal::one(),
        10,
    );
    assert_eq!(r, Err(ContractError::Overflow));
}

#[test]
fn update_epoch_state_commits_snapshot() {
    let contract = "contract".to_string();
    let state = epoch_state();
    let n = update_epoch_state(
        &state,
        &contract,
        &contract,
        200,
        555,
        Decimal::percent(102),
        42,
    )
    .unwrap();
    assert_eq!(n.last_executed_height, 200);
    assert_eq!(n.prev_interest_buffer, 555);
    assert_eq!(n.prev_aterra_supply, 42);
    assert_eq!(n.prev_exchange_rate, Decimal::percent(102));
    // 0.02 over 200 blocks
    assert_eq!(n.deposit_rate, Decimal::from_atomics(100_000_000_000_000));
}

#[test]
fn update_epoch_state_requires_contract_sender() {
    let state = epoch_state();
    let r = update_epoch_state(
        &state,
        &"someone".to_string(),
        &"contract".to_string(),
        200,
        0,
        Decimal::one(),
        0,
    );
    assert_eq!(r, Err(ContractError::Unauthorized));
}
