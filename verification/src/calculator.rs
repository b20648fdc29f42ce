//! Per-asset value calculators: the pluggable conversion between an asset's
//! native unit and the common value unit, each variant carrying its own
//! staleness rule.
use vstd::prelude::*;

use crate::u64_ratio_floor::{ratio_apply_res, ratio_pseudo_reverse_res, U64RatioFloor};
use crate::{AccountId, PoolError};

verus! {

/// State of a generic pool calculator: its managing authority and the
/// last-observed upgrade marker of the underlying asset's valuation program.
#[derive(Clone, Copy, Debug, PartialEq, Eq, Structural)]
pub struct CalculatorState {
    pub manager: AccountId,
    pub last_upgrade_slot: u64,
}

impl CalculatorState {
    /// A freshly initialized calculator state: owned by `initial_manager`,
    /// with no upgrade observed yet.
    pub fn init(initial_manager: AccountId) -> (s: CalculatorState)
        ensures
            s == (CalculatorState { manager: initial_manager, last_upgrade_slot: 0 }),
    {
        CalculatorState { manager: initial_manager, last_upgrade_slot: 0 }
    }

    /// Checks that `signer` is the owning manager.
    pub fn verify_manager(&self, signer: AccountId) -> (res: Result<(), PoolError>)
        ensures
            res is Ok <==> signer == self.manager,
            res is Err ==> res == Err::<(), PoolError>(PoolError::Unauthorized),
    {
        if signer == self.manager {
            Ok(())
        } else {
            Err(PoolError::Unauthorized)
        }
    }

    /// Hands the calculator to a new manager; only the current manager may
    /// do so. On failure the state is unchanged.
    pub fn set_manager(&mut self, signer: AccountId, new_manager: AccountId) -> (res: Result<
        (),
        PoolError,
    >)
        ensures
            res is Ok <==> signer == old(self).manager,
            res is Err ==> res == Err::<(), PoolError>(PoolError::Unauthorized) && *final(self)
                == *old(self),
            res is Ok ==> *final(self) == (CalculatorState {
                manager: new_manager,
                ..*old(self)
            }),
    {
        if signer == self.manager {
            self.manager = new_manager;
            Ok(())
        } else {
            Err(PoolError::Unauthorized)
        }
    }

    /// Records the asset program's current deployed slot as validated; only
    /// the manager may refresh the marker. On failure the state is
    /// unchanged.
    pub fn update_last_upgrade_slot(&mut self, signer: AccountId, current_deploy_slot: u64) -> (res:
        Result<(), PoolError>)
        ensures
            res is Ok <==> signer == old(self).manager,
            res is Err ==> res == Err::<(), PoolError>(PoolError::Unauthorized) && *final(self)
                == *old(self),
            res is Ok ==> *final(self) == (CalculatorState {
                last_upgrade_slot: current_deploy_slot,
                ..*old(self)
            }),
    {
        if signer == self.manager {
            self.last_upgrade_slot = current_deploy_slot;
            Ok(())
        } else {
            Err(PoolError::Unauthorized)
        }
    }
}

/// The protocol-specific failure of the Lido-style calculator.
#[derive(Clone, Copy, Debug, PartialEq, Eq, Structural)]
pub enum LidoCalculatorError {
    /// The protocol's own exchange rate has not been updated this epoch.
    ExchangeRateNotUpdatedInThisEpoch,
}

impl LidoCalculatorError {
    /// The stable numeric code of this error kind on the wire.
    pub open spec fn spec_code(&self) -> u32 {
        0
    }

    /// Returns the stable numeric code of this error kind.
    pub fn code(&self) -> (c: u32)
        ensures
            c == self.spec_code(),
    {
        0
    }
}

/// A value calculator converts between an asset's native unit and the
/// common value unit through a flooring rate, and refuses to convert while
/// its view of the asset's valuation is stale.
#[derive(Clone, Copy, Debug, PartialEq, Eq, Structural)]
pub enum ValueCalculator {
    /// The generic calculator: refuses while the recorded upgrade marker
    /// does not match the valuation program's current deployed slot.
    Generic { state: CalculatorState, rate: U64RatioFloor },
    /// An SPL-stake-pool-style calculator: refuses while the pool's own
    /// rate has not been updated in the current epoch.
    SplStakePool { last_update_epoch: u64, rate: U64RatioFloor },
    /// A Lido-style calculator: refuses while the protocol's exchange rate
    /// has not been updated in the current epoch.
    Lido { exchange_rate_computed_in_epoch: u64, rate: U64RatioFloor },
}

/// The conversion rate a calculator applies, common units per native unit.
pub open spec fn calc_rate(c: ValueCalculator) -> U64RatioFloor {
    match c {
        ValueCalculator::Generic { rate, .. } => rate,
        ValueCalculator::SplStakePool { rate, .. } => rate,
        ValueCalculator::Lido { rate, .. } => rate,
    }
}

/// Whether a calculator accepts conversion under the observed environment:
/// `pool_program_deploy_slot` is the valuation program's current deployed
/// slot, `current_epoch` the ledger's current epoch.
pub open spec fn calc_is_fresh(
    c: ValueCalculator,
    pool_program_deploy_slot: u64,
    current_epoch: u64,
) -> bool {
    match c {
        ValueCalculator::Generic { state, .. } => state.last_upgrade_slot
            == pool_program_deploy_slot,
        ValueCalculator::SplStakePool { last_update_epoch, .. } => last_update_epoch
            >= current_epoch,
        ValueCalculator::Lido { exchange_rate_computed_in_epoch, .. } =>
            exchange_rate_computed_in_epoch >= current_epoch,
    }
}

/// The Lido-style staleness rule on its own: the exchange rate must have
/// been computed in the current epoch or later.
pub fn validate_lido_exchange_rate(exchange_rate_computed_in_epoch: u64, current_epoch: u64) -> (res:
    Result<(), LidoCalculatorError>)
    ensures
        res is Ok <==> exchange_rate_computed_in_epoch >= current_epoch,
        res is Err ==> res == Err::<(), LidoCalculatorError>(
            LidoCalculatorError::ExchangeRateNotUpdatedInThisEpoch,
        ),
{
    if exchange_rate_computed_in_epoch >= current_epoch {
        Ok(())
    } else {
        Err(LidoCalculatorError::ExchangeRateNotUpdatedInThisEpoch)
    }
}

impl ValueCalculator {
    /// Checks this calculator's own staleness rule against the observed
    /// environment; any refusal surfaces as `Staleness`.
    pub fn validate(&self, pool_program_deploy_slot: u64, current_epoch: u64) -> (res: Result<
        (),
        PoolError,
    >)
        ensures
            res is Ok <==> calc_is_fresh(*self, pool_program_deploy_slot, current_epoch),
            res is Err ==> res == Err::<(), PoolError>(PoolError::Staleness),
    {
        match self {
            ValueCalculator::Generic { state, .. } => {
                if state.last_upgrade_slot == pool_program_deploy_slot {
                    Ok(())
                } else {
                    Err(PoolError::Staleness)
                }
            },
            ValueCalculator::SplStakePool { last_update_epoch, .. } => {
                if *last_update_epoch >= current_epoch {
                    Ok(())
                } else {
                    Err(PoolError::Staleness)
                }
            },
            ValueCalculator::Lido { exchange_rate_computed_in_epoch, .. } => {
                match validate_lido_exchange_rate(*exchange_rate_computed_in_epoch, current_epoch) {
                    Ok(()) => Ok(()),
                    Err(_) => Err(PoolError::Staleness),
                }
            },
        }
    }

    /// Converts a native amount into the common value unit by flooring.
    pub fn to_common_value(&self, native_amount: u64) -> (res: Result<u64, PoolError>)
        ensures
            res == ratio_apply_res(calc_rate(*self), native_amount),
    {
        let rate = match self {
            ValueCalculator::Generic { rate, .. } => rate,
            ValueCalculator::SplStakePool { rate, .. } => rate,
            ValueCalculator::Lido { rate, .. } => rate,
        };
        rate.apply(native_amount)
    }

    /// Converts a common value back into a native amount by flooring, so a
    /// holder never receives more native units than the value covers.
    pub fn to_native_amount(&self, sol_value: u64) -> (res: Result<u64, PoolError>)
        ensures
            res == ratio_pseudo_reverse_res(calc_rate(*self), sol_value),
    {
        let rate = match self {
            ValueCalculator::Generic { rate, .. } => rate,
            ValueCalculator::SplStakePool { rate, .. } => rate,
            ValueCalculator::Lido { rate, .. } => rate,
        };
        rate.pseudo_reverse(sol_value)
    }
}

} // verus!
