use lst_pool::calculator::{
    validate_lido_exchange_rate, CalculatorState, LidoCalculatorError, ValueCalculator,
};
use lst_pool::u64_ratio_floor::U64RatioFloor;
use lst_pool::{AccountId, PoolError};

fn acct(n: u64) -> AccountId {
    AccountId {
        w0: n,
        w1: 0,
        w2: 0,
        w3: 0,
    }
}

#[test]
fn jito_basic() {
    // An SPL-stake-pool-style asset quoted at its observed exchange rate:
    // each native unit is worth 1.072326756 common units.
    let calc = ValueCalculator::SplStakePool {
        last_update_epoch: 600,
        rate: U64RatioFloor {
            num: 1_072_326_756,
            denom: 1_000_000_000,
        },
    };
    assert_eq!(calc.validate(0, 600), Ok(()));
    assert_eq!(calc.to_common_value(1_000_000_000), Ok(1_072_326_756));
}

#[test]
fn spl_calculator_stale_epoch_refused() {
    let calc = ValueCalculator::SplStakePool {
        last_update_epoch: 599,
        rate: U64RatioFloor { num: 1, denom: 1 },
    };
    assert_eq!(calc.validate(0, 600), Err(PoolError::Staleness));
}

#[test]
fn generic_calculator_staleness() {
    let state = CalculatorState::init(acct(1));
    let calc = ValueCalculator::Generic {
        state,
        rate: U64RatioFloor { num: 1, denom: 1 },
    };
    // Fresh while the recorded upgrade slot matches the deployed slot.
    assert_eq!(calc.validate(0, 5), Ok(()));
    // Stale once the valuation program has been redeployed.
    assert_eq!(calc.validate(7, 5), Err(PoolError::Staleness));
}

#[test]
fn lido_exchange_rate_validation() {
    assert_eq!(validate_lido_exchange_rate(600, 600), Ok(()));
    assert_eq!(
        validate_lido_exchange_rate(599, 600),
        Err(LidoCalculatorError::ExchangeRateNotUpdatedInThisEpoch)
    );
    assert_eq!(LidoCalculatorError::ExchangeRateNotUpdatedInThisEpoch.code(), 0);

    let calc = ValueCalculator::Lido {
        exchange_rate_computed_in_epoch: 599,
        rate: U64RatioFloor { num: 1, denom: 1 },
    };
    assert_eq!(calc.validate(0, 600), Err(PoolError::Staleness));
}

#[test]
fn conversions_floor_both_ways() {
    let calc = ValueCalculator::SplStakePool {
        last_update_epoch: 0,
        rate: U64RatioFloor { num: 3, denom: 2 },
    };
    assert_eq!(calc.to_common_value(5), Ok(7));
    assert_eq!(calc.to_native_amount(7), Ok(4));
}

#[test]
fn manager_lifecycle() {
    let manager = acct(10);
    let stranger = acct(11);
    let successor = acct(12);

    let mut state = CalculatorState::init(manager);
    assert_eq!(state.last_upgrade_slot, 0);
    assert_eq!(state.verify_manager(manager), Ok(()));
    assert_eq!(state.verify_manager(stranger), Err(PoolError::Unauthorized));

    assert_eq!(
        state.update_last_upgrade_slot(stranger, 99),
        Err(PoolError::Unauthorized)
    );
    assert_eq!(state.last_upgrade_slot, 0);
    assert_eq!(state.update_last_upgrade_slot(manager, 99), Ok(()));
    assert_eq!(state.last_upgrade_slot, 99);

    assert_eq!(
        state.set_manager(stranger, successor),
        Err(PoolError::Unauthorized)
    );
    assert_eq!(state.set_manager(manager, successor), Ok(()));
    assert_eq!(state.manager, successor);
    assert_eq!(state.last_upgrade_slot, 99);
}
