use lst_pool::calculator::ValueCalculator;
use lst_pool::pool::{Pool, RebalanceState, SwapOutcome};
use lst_pool::u64_ratio_floor::U64RatioFloor;
use lst_pool::{AccountId, PoolError};

fn acct(n: u64) -> AccountId {
    AccountId {
        w0: n,
        w1: 0,
        w2: 0,
        w3: 0,
    }
}

fn unit_calc() -> ValueCalculator {
    ValueCalculator::SplStakePool {
        last_update_epoch: u64::MAX,
        rate: U64RatioFloor { num: 1, denom: 1 },
    }
}

fn admin() -> AccountId {
    acct(1)
}

/// A pool with two one-to-one assets, no fees, and the reserve balances
/// synced in: asset 0 holds `reserves_a`, asset 1 holds `reserves_b`.
fn two_asset_pool(reserves_a: u64, reserves_b: u64) -> Pool {
    let mut pool = Pool::initialize(admin(), acct(2));
    pool.add_asset(admin(), acct(100), unit_calc(), 0, 0, 0, 0)
        .unwrap();
    pool.add_asset(admin(), acct(101), unit_calc(), 0, 0, 0, 0)
        .unwrap();
    pool.sync_value(0, reserves_a, 0, 0).unwrap();
    pool.sync_value(1, reserves_b, 0, 0).unwrap();
    pool
}

#[test]
fn initialize_starts_idle_and_empty() {
    let pool = Pool::initialize(admin(), acct(2));
    assert_eq!(pool.state.admin, admin());
    assert_eq!(pool.state.rebalance_authority, admin());
    assert_eq!(pool.state.protocol_fee_beneficiary, admin());
    assert_eq!(pool.state.total_sol_value, 0);
    assert_eq!(pool.state.rebalance, RebalanceState::Idle);
    assert!(pool.assets.is_empty());
}

#[test]
fn admin_set() {
    // The pool administrator may reassign the rebalance authority.
    let mut pool = Pool::initialize(admin(), acct(2));
    let new_rebalance_authority = acct(50);
    assert_eq!(
        pool.set_rebalance_authority(admin(), new_rebalance_authority),
        Ok(())
    );
    assert_eq!(pool.state.rebalance_authority, new_rebalance_authority);
}

#[test]
fn rebalance_authority_set() {
    // The current rebalance authority may hand the role on.
    let current = acct(60);
    let mut pool = Pool::initialize(admin(), acct(2));
    pool.set_rebalance_authority(admin(), current).unwrap();

    let new_rebalance_authority = acct(61);
    assert_eq!(
        pool.set_rebalance_authority(current, new_rebalance_authority),
        Ok(())
    );
    assert_eq!(pool.state.rebalance_authority, new_rebalance_authority);
}

#[test]
fn unauthorized_signer() {
    let mut pool = Pool::initialize(admin(), acct(2));
    let payer = acct(70);
    assert_eq!(
        pool.set_rebalance_authority(payer, acct(71)),
        Err(PoolError::Unauthorized)
    );
    assert_eq!(pool.state.rebalance_authority, admin());
}

#[test]
fn set_admin_and_beneficiary_are_gated() {
    let mut pool = Pool::initialize(admin(), acct(2));
    assert_eq!(pool.set_admin(acct(9), acct(8)), Err(PoolError::Unauthorized));
    assert_eq!(pool.set_admin(admin(), acct(8)), Ok(()));
    assert_eq!(pool.state.admin, acct(8));

    assert_eq!(
        pool.set_protocol_fee_beneficiary(acct(8), acct(7)),
        Err(PoolError::Unauthorized)
    );
    assert_eq!(pool.set_protocol_fee_beneficiary(admin(), acct(7)), Ok(()));
    assert_eq!(pool.state.protocol_fee_beneficiary, acct(7));
}

#[test]
fn fee_configuration_is_bounded() {
    let mut pool = Pool::initialize(admin(), acct(2));
    assert_eq!(
        pool.set_protocol_fee_bps(admin(), 10_001),
        Err(PoolError::OutOfBoundFee)
    );
    assert_eq!(pool.set_protocol_fee_bps(admin(), 1_000), Ok(()));
    assert_eq!(pool.state.protocol_fee_bps, 1_000);

    assert_eq!(
        pool.set_lp_withdrawal_fee_bps(admin(), 10_001),
        Err(PoolError::OutOfBoundFee)
    );
    assert_eq!(pool.set_lp_withdrawal_fee_bps(admin(), 50), Ok(()));
    assert_eq!(pool.state.lp_withdrawal_fee_bps, 50);

    pool.add_asset(admin(), acct(100), unit_calc(), 0, 0, 0, 0)
        .unwrap();
    assert_eq!(
        pool.set_asset_fees(admin(), 0, 10_001, 0),
        Err(PoolError::OutOfBoundFee)
    );
    assert_eq!(pool.set_asset_fees(admin(), 0, 5, -5), Ok(()));
    assert_eq!(pool.assets[0].input_fee_bps, 5);
    assert_eq!(pool.assets[0].output_fee_bps, -5);
}

#[test]
fn start_rebalance_twice_conflicts() {
    let mut pool = two_asset_pool(1_000, 1_000);
    assert_eq!(pool.start_rebalance(admin()), Ok(()));
    assert_eq!(
        pool.state.rebalance,
        RebalanceState::Active {
            start_total_sol_value: 2_000
        }
    );
    assert_eq!(pool.start_rebalance(admin()), Err(PoolError::StateConflict));
}

#[test]
fn start_rebalance_needs_authority() {
    let mut pool = two_asset_pool(1_000, 1_000);
    assert_eq!(pool.start_rebalance(acct(99)), Err(PoolError::Unauthorized));
}

#[test]
fn end_rebalance_value_leak_guard() {
    let mut pool = two_asset_pool(1_000, 1_000);
    pool.start_rebalance(admin()).unwrap();

    // Value drained out of asset 0 during the window, beyond the tolerance:
    // the window refuses to close.
    pool.sync_value(0, 900, 0, 0).unwrap();
    assert_eq!(pool.end_rebalance(admin(), 10), Err(PoolError::StateConflict));
    assert_eq!(
        pool.state.rebalance,
        RebalanceState::Active {
            start_total_sol_value: 2_000
        }
    );

    // A drop inside the tolerance may close.
    assert_eq!(pool.end_rebalance(admin(), 100), Ok(()));
    assert_eq!(pool.state.rebalance, RebalanceState::Idle);
}

#[test]
fn end_rebalance_unchanged_value_succeeds() {
    let mut pool = two_asset_pool(1_000, 1_000);
    pool.start_rebalance(admin()).unwrap();
    assert_eq!(pool.end_rebalance(admin(), 0), Ok(()));
    assert_eq!(pool.state.rebalance, RebalanceState::Idle);

    // Increased value also closes.
    pool.start_rebalance(admin()).unwrap();
    pool.sync_value(0, 1_500, 0, 0).unwrap();
    assert_eq!(pool.end_rebalance(admin(), 0), Ok(()));
    assert_eq!(pool.state.rebalance, RebalanceState::Idle);
}

#[test]
fn end_rebalance_while_idle_conflicts() {
    let mut pool = two_asset_pool(1_000, 1_000);
    assert_eq!(pool.end_rebalance(admin(), 0), Err(PoolError::StateConflict));
}

#[test]
fn disable_input_blocked_while_rebalancing() {
    let mut pool = two_asset_pool(1_000, 1_000);
    pool.start_rebalance(admin()).unwrap();
    assert_eq!(
        pool.disable_input(admin(), 0),
        Err(PoolError::StateConflict)
    );
    assert!(!pool.assets[0].is_input_disabled);

    pool.end_rebalance(admin(), 0).unwrap();
    assert_eq!(pool.disable_input(admin(), 0), Ok(()));
    assert!(pool.assets[0].is_input_disabled);

    assert_eq!(pool.enable_input(admin(), 0), Ok(()));
    assert!(!pool.assets[0].is_input_disabled);
}

#[test]
fn registry_membership_frozen_while_rebalancing() {
    let mut pool = two_asset_pool(1_000, 1_000);
    pool.start_rebalance(admin()).unwrap();
    assert_eq!(
        pool.add_asset(admin(), acct(102), unit_calc(), 0, 0, 0, 0),
        Err(PoolError::StateConflict)
    );
    assert_eq!(
        pool.remove_asset(admin(), 0, 0, 0),
        Err(PoolError::StateConflict)
    );
}

#[test]
fn remove_asset_swaps_with_last_and_truncates() {
    let mut pool = Pool::initialize(admin(), acct(2));
    pool.add_asset(admin(), acct(100), unit_calc(), 0, 0, 0, 0)
        .unwrap();
    pool.add_asset(admin(), acct(101), unit_calc(), 0, 0, 0, 0)
        .unwrap();
    pool.add_asset(admin(), acct(102), unit_calc(), 0, 0, 0, 0)
        .unwrap();

    // Removing index 0 moves the last record into its slot: indices
    // captured before the removal are invalid afterwards.
    assert_eq!(pool.remove_asset(admin(), 0, 0, 0), Ok(()));
    assert_eq!(pool.assets.len(), 2);
    assert_eq!(pool.assets[0].mint, acct(102));
    assert_eq!(pool.assets[1].mint, acct(101));
}

#[test]
fn remove_asset_requires_empty_balances() {
    let mut pool = two_asset_pool(1_000, 1_000);
    assert_eq!(
        pool.remove_asset(admin(), 0, 5, 0),
        Err(PoolError::StateConflict)
    );
    assert_eq!(
        pool.remove_asset(admin(), 0, 0, 5),
        Err(PoolError::StateConflict)
    );
    assert_eq!(
        pool.remove_asset(admin(), 9, 0, 0),
        Err(PoolError::UnsupportedAsset)
    );
    assert_eq!(pool.remove_asset(admin(), 0, 0, 0), Ok(()));
    assert_eq!(pool.state.total_sol_value, 1_000);
    assert_eq!(pool.assets.len(), 1);
}

#[test]
fn swap_one_to_one_zero_fee_conserves_value() {
    let mut pool = two_asset_pool(0, 2_000_000_000);
    let total_before = pool.state.total_sol_value;

    let outcome = pool.swap(0, 1, 1_000_000_000, 0, 0).unwrap();
    assert_eq!(
        outcome,
        SwapOutcome {
            out_amount: 1_000_000_000,
            in_sol_value: 1_000_000_000,
            out_sol_value: 1_000_000_000,
        }
    );
    assert_eq!(pool.state.total_sol_value, total_before);
    assert_eq!(pool.assets[0].sol_value, 1_000_000_000);
    assert_eq!(pool.assets[1].sol_value, 1_000_000_000);
}

#[test]
fn swap_fee_value_stays_in_pool() {
    let mut pool = two_asset_pool(0, 2_000_000_000);
    // 1% total fee: 50 bps on each side.
    pool.set_asset_fees(admin(), 0, 50, 50).unwrap();
    pool.set_asset_fees(admin(), 1, 50, 50).unwrap();

    let outcome = pool.swap(0, 1, 1_000_000_000, 0, 0).unwrap();
    assert_eq!(outcome.in_sol_value, 1_000_000_000);
    assert_eq!(outcome.out_sol_value, 990_000_000);
    assert_eq!(outcome.out_amount, 990_000_000);
    // The fee's value stays in the pool's total.
    assert_eq!(pool.state.total_sol_value, 2_010_000_000);
}

#[test]
fn swap_rejects_bad_assets() {
    let mut pool = two_asset_pool(1_000, 1_000);
    assert_eq!(pool.swap(0, 0, 10, 0, 0), Err(PoolError::UnsupportedAsset));
    assert_eq!(pool.swap(0, 5, 10, 0, 0), Err(PoolError::UnsupportedAsset));

    pool.disable_input(admin(), 0).unwrap();
    assert_eq!(pool.swap(0, 1, 10, 0, 0), Err(PoolError::UnsupportedAsset));
}

#[test]
fn swap_allowed_while_rebalancing() {
    let mut pool = two_asset_pool(1_000, 1_000);
    pool.start_rebalance(admin()).unwrap();
    assert!(pool.swap(0, 1, 100, 0, 0).is_ok());
}

#[test]
fn swap_without_destination_value_is_math_error() {
    let mut pool = two_asset_pool(1_000, 50);
    assert_eq!(pool.swap(0, 1, 100, 0, 0), Err(PoolError::MathError));
}

#[test]
fn swap_stale_calculator_refused() {
    let mut pool = Pool::initialize(admin(), acct(2));
    pool.add_asset(admin(), acct(100), unit_calc(), 0, 0, 0, 0)
        .unwrap();
    let stale = ValueCalculator::SplStakePool {
        last_update_epoch: 0,
        rate: U64RatioFloor { num: 1, denom: 1 },
    };
    pool.add_asset(admin(), acct(101), stale, 0, 0, 0, 0)
        .unwrap();
    assert_eq!(pool.swap(0, 1, 10, 0, 1), Err(PoolError::Staleness));
}

#[test]
fn add_liquidity_proportional_mint() {
    let mut pool = two_asset_pool(1_000, 0);
    assert_eq!(pool.state.total_sol_value, 1_000);

    // Common value 100 into total 1000 with 500 liquidity tokens out:
    // floor(100 * 500 / 1000) = 50 minted.
    let minted = pool.add_liquidity(0, 100, 500, 0, 0).unwrap();
    assert_eq!(minted, 50);
    assert_eq!(pool.assets[0].sol_value, 1_100);
    assert_eq!(pool.state.total_sol_value, 1_100);
}

#[test]
fn add_liquidity_bootstraps_one_to_one() {
    let mut pool = Pool::initialize(admin(), acct(2));
    pool.add_asset(admin(), acct(100), unit_calc(), 0, 0, 0, 0)
        .unwrap();
    let minted = pool.add_liquidity(0, 777, 0, 0, 0).unwrap();
    assert_eq!(minted, 777);
    assert_eq!(pool.state.total_sol_value, 777);
}

#[test]
fn add_liquidity_rejects_disabled_input() {
    let mut pool = two_asset_pool(1_000, 0);
    pool.disable_input(admin(), 0).unwrap();
    assert_eq!(
        pool.add_liquidity(0, 100, 500, 0, 0),
        Err(PoolError::UnsupportedAsset)
    );
}

#[test]
fn remove_liquidity_proportional_share() {
    let mut pool = two_asset_pool(1_100, 0);
    // Burning 55 of 550 liquidity tokens redeems floor(55 * 1100 / 550)
    // = 110 units of value, paid out one to one.
    let out = pool.remove_liquidity(0, 55, 550, 0, 0).unwrap();
    assert_eq!(out, 110);
    assert_eq!(pool.assets[0].sol_value, 990);
    assert_eq!(pool.state.total_sol_value, 990);
}

#[test]
fn remove_liquidity_allowed_when_input_disabled() {
    let mut pool = two_asset_pool(1_000, 0);
    pool.disable_input(admin(), 0).unwrap();
    assert!(pool.remove_liquidity(0, 10, 1_000, 0, 0).is_ok());
}

#[test]
fn remove_liquidity_zero_supply_is_math_error() {
    let mut pool = two_asset_pool(1_000, 0);
    assert_eq!(
        pool.remove_liquidity(0, 10, 0, 0, 0),
        Err(PoolError::MathError)
    );
}

#[test]
fn sync_value_moves_total_by_delta() {
    let mut pool = two_asset_pool(1_000, 500);
    assert_eq!(pool.state.total_sol_value, 1_500);
    pool.sync_value(0, 1_200, 0, 0).unwrap();
    assert_eq!(pool.assets[0].sol_value, 1_200);
    assert_eq!(pool.state.total_sol_value, 1_700);
    assert_eq!(
        pool.sync_value(9, 0, 0, 0),
        Err(PoolError::UnsupportedAsset)
    );
}

#[test]
fn sync_value_stale_calculator_refused() {
    let mut pool = Pool::initialize(admin(), acct(2));
    let stale = ValueCalculator::SplStakePool {
        last_update_epoch: 4,
        rate: U64RatioFloor { num: 1, denom: 1 },
    };
    pool.add_asset(admin(), acct(100), stale, 0, 0, 0, 0)
        .unwrap();
    assert_eq!(pool.sync_value(0, 1_000, 0, 5), Err(PoolError::Staleness));
}

#[test]
fn find_asset_by_mint_walks_the_registry() {
    let pool = two_asset_pool(1_000, 500);
    assert_eq!(pool.find_asset_by_mint(acct(100)), Some(0));
    assert_eq!(pool.find_asset_by_mint(acct(101)), Some(1));
    assert_eq!(pool.find_asset_by_mint(acct(999)), None);
}

#[test]
fn check_asset_mint_guards_claimed_indices() {
    let pool = two_asset_pool(1_000, 500);
    assert_eq!(pool.check_asset_mint(0, acct(100)), Ok(()));
    assert_eq!(
        pool.check_asset_mint(0, acct(101)),
        Err(PoolError::UnsupportedAsset)
    );
    assert_eq!(
        pool.check_asset_mint(7, acct(100)),
        Err(PoolError::UnsupportedAsset)
    );
}
