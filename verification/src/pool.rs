//! The asset registry, the pool-wide state, and the operation state machine.
//!
//! Every operation is a pure state transition: it validates its
//! preconditions against the explicit state it is handed, then either
//! returns the new state or an error, in which case the state is left
//! exactly as it was (all-or-nothing).
use vstd::arithmetic::div_mod::lemma_fundamental_div_mod;
use vstd::pervasive::VecAdditionalExecFns;
use vstd::prelude::*;

use crate::calculator::{calc_is_fresh, calc_rate, ValueCalculator};
use crate::pricing::{
    price_exact_in_res, signed_fee_bps_in_bound, unsigned_fee_bps_in_bound, validate_signed_fee_bps,
    validate_unsigned_fee_bps,
};
use crate::u64_ratio_floor::{ratio_apply_res, ratio_pseudo_reverse_res};
use crate::{AccountId, PoolError};

verus! {

/// The rebalance axis of the pool: either idle, or inside a maintenance
/// window that carries the total value snapshotted when it opened.
#[derive(Clone, Copy, Debug, PartialEq, Eq, Structural)]
pub enum RebalanceState {
    Idle,
    Active { start_total_sol_value: u64 },
}

/// One registered asset: its mint identity, the derived-location seeds of
/// its reserve and fee-accumulator records, its cached common-unit value,
/// the input-disabled flag, its value calculator, and its configured
/// per-asset fees.
#[derive(Clone, Copy, Debug, PartialEq, Eq, Structural)]
pub struct AssetRecord {
    pub mint: AccountId,
    pub pool_reserves_bump: u8,
    pub protocol_fee_accumulator_bump: u8,
    pub is_input_disabled: bool,
    pub sol_value: u64,
    pub calculator: ValueCalculator,
    pub input_fee_bps: i16,
    pub output_fee_bps: i16,
}

/// The pool-wide aggregate state.
#[derive(Clone, Copy, Debug, PartialEq, Eq, Structural)]
pub struct PoolState {
    pub admin: AccountId,
    pub rebalance_authority: AccountId,
    pub protocol_fee_beneficiary: AccountId,
    pub pricing_program: AccountId,
    pub protocol_fee_bps: u16,
    pub lp_withdrawal_fee_bps: u16,
    pub total_sol_value: u64,
    pub rebalance: RebalanceState,
}

/// The whole pool: the aggregate state plus the ordered, index-addressed
/// asset registry. Removal swaps with the last record and truncates, so an
/// index is stable only within a single top-level operation.
#[derive(Clone, Debug)]
pub struct Pool {
    pub state: PoolState,
    pub assets: Vec<AssetRecord>,
}

/// A record is well formed when its configured fees are inside the signed
/// basis-point bound; this is established when the fees are stored.
pub open spec fn asset_record_wf(a: AssetRecord) -> bool {
    &&& signed_fee_bps_in_bound(a.input_fee_bps)
    &&& signed_fee_bps_in_bound(a.output_fee_bps)
}

/// The sum of all records' cached common-unit values.
pub open spec fn sum_sol_values(s: Seq<AssetRecord>) -> int
    decreases s.len(),
{
    if s.len() == 0 {
        0
    } else {
        sum_sol_values(s.drop_last()) + s.last().sol_value
    }
}

/// Replacing one record moves the sum by exactly the difference of the two
/// cached values.
pub proof fn lemma_sum_sol_values_update(s: Seq<AssetRecord>, i: int, r: AssetRecord)
    requires
        0 <= i < s.len(),
    ensures
        sum_sol_values(s.update(i, r)) == sum_sol_values(s) - s[i].sol_value + r.sol_value,
    decreases s.len(),
{
    let t = s.update(i, r);
    if i == s.len() - 1 {
        assert(t.drop_last() =~= s.drop_last());
    } else {
        lemma_sum_sol_values_update(s.drop_last(), i, r);
        assert(t.drop_last() =~= s.drop_last().update(i, r));
    }
}

/// Swap-removing one record lowers the sum by exactly that record's cached
/// value.
pub proof fn lemma_sum_sol_values_swap_remove(s: Seq<AssetRecord>, i: int)
    requires
        0 <= i < s.len(),
    ensures
        sum_sol_values(s.update(i, s.last()).drop_last()) == sum_sol_values(s)
            - s[i].sol_value,
{
    lemma_sum_sol_values_update(s, i, s.last());
}

/// The result a swap quote computes before any state is touched: the input
/// value, the fee-adjusted output value, and the native output amount.
#[derive(Clone, Copy, Debug, PartialEq, Eq, Structural)]
pub struct SwapOutcome {
    pub out_amount: u64,
    pub in_sol_value: u64,
    pub out_sol_value: u64,
}

/// What `start_rebalance` does to the pool-wide state.
pub open spec fn spec_start_rebalance(s: PoolState, signer: AccountId) -> Result<
    PoolState,
    PoolError,
> {
    if signer != s.rebalance_authority {
        Err(PoolError::Unauthorized)
    } else if !(s.rebalance is Idle) {
        Err(PoolError::StateConflict)
    } else {
        Ok(
            PoolState {
                rebalance: RebalanceState::Active { start_total_sol_value: s.total_sol_value },
                ..s
            },
        )
    }
}

/// What `end_rebalance` does to the pool-wide state: the window may only
/// close when the total value has not dropped more than `tolerance` below
/// the snapshot taken when it opened.
pub open spec fn spec_end_rebalance(s: PoolState, signer: AccountId, tolerance: u64) -> Result<
    PoolState,
    PoolError,
> {
    if signer != s.rebalance_authority {
        Err(PoolError::Unauthorized)
    } else if !(s.rebalance is Active) {
        Err(PoolError::StateConflict)
    } else if s.rebalance->start_total_sol_value > s.total_sol_value + tolerance {
        Err(PoolError::StateConflict)
    } else {
        Ok(PoolState { rebalance: RebalanceState::Idle, ..s })
    }
}

impl Pool {
    /// Stored fee configuration is always inside its bound; every operation
    /// preserves this.
    pub open spec fn wf(&self) -> bool {
        &&& unsigned_fee_bps_in_bound(self.state.protocol_fee_bps)
        &&& unsigned_fee_bps_in_bound(self.state.lp_withdrawal_fee_bps)
        &&& forall|i: int|
            0 <= i < self.assets@.len() ==> asset_record_wf(#[trigger] self.assets@[i])
    }

    /// The total value cache agrees with the registry: the pool-wide total
    /// is the sum of all records' cached values. This is not enforced on
    /// every mutation; `sync_value` repairs one record's contribution at a
    /// time.
    pub open spec fn total_consistent(&self) -> bool {
        self.state.total_sol_value == sum_sol_values(self.assets@)
    }

    /// A new pool: empty registry, zero value, no fees, idle, with every
    /// authority role held by `admin` until reassigned.
    pub fn initialize(admin: AccountId, pricing_program: AccountId) -> (p: Pool)
        ensures
            p.state == (PoolState {
                admin,
                rebalance_authority: admin,
                protocol_fee_beneficiary: admin,
                pricing_program,
                protocol_fee_bps: 0,
                lp_withdrawal_fee_bps: 0,
                total_sol_value: 0,
                rebalance: RebalanceState::Idle,
            }),
            p.assets@.len() == 0,
            p.wf(),
            p.total_consistent(),
    {
        Pool {
            state: PoolState {
                admin,
                rebalance_authority: admin,
                protocol_fee_beneficiary: admin,
                pricing_program,
                protocol_fee_bps: 0,
                lp_withdrawal_fee_bps: 0,
                total_sol_value: 0,
                rebalance: RebalanceState::Idle,
            },
            assets: Vec::new(),
        }
    }

    /// Hands the pool to a new administrator; only the current
    /// administrator may do so.
    pub fn set_admin(&mut self, signer: AccountId, new_admin: AccountId) -> (res: Result<
        (),
        PoolError,
    >)
        ensures
            res is Ok <==> signer == old(self).state.admin,
            res is Err ==> res == Err::<(), PoolError>(PoolError::Unauthorized) && *final(self)
                == *old(self),
            res is Ok ==> final(self).state == (PoolState {
                admin: new_admin,
                ..old(self).state
            }) && final(self).assets@ == old(self).assets@,
            old(self).wf() ==> final(self).wf(),
            old(self).total_consistent() ==> final(self).total_consistent(),
    {
        if signer == self.state.admin {
            self.state.admin = new_admin;
            Ok(())
        } else {
            Err(PoolError::Unauthorized)
        }
    }

    /// Reassigns the rebalance authority; the administrator or the current
    /// rebalance authority may do so.
    pub fn set_rebalance_authority(
        &mut self,
        signer: AccountId,
        new_rebalance_authority: AccountId,
    ) -> (res: Result<(), PoolError>)
        ensures
            res is Ok <==> signer == old(self).state.admin || signer == old(
                self,
            ).state.rebalance_authority,
            res is Err ==> res == Err::<(), PoolError>(PoolError::Unauthorized) && *final(self)
                == *old(self),
            res is Ok ==> final(self).state == (PoolState {
                rebalance_authority: new_rebalance_authority,
                ..old(self).state
            }) && final(self).assets@ == old(self).assets@,
            old(self).wf() ==> final(self).wf(),
            old(self).total_consistent() ==> final(self).total_consistent(),
    {
        if signer == self.state.admin || signer == self.state.rebalance_authority {
            self.state.rebalance_authority = new_rebalance_authority;
            Ok(())
        } else {
            Err(PoolError::Unauthorized)
        }
    }

    /// Reassigns the protocol-fee beneficiary; only the current beneficiary
    /// may do so.
    pub fn set_protocol_fee_beneficiary(
        &mut self,
        signer: AccountId,
        new_beneficiary: AccountId,
    ) -> (res: Result<(), PoolError>)
        ensures
            res is Ok <==> signer == old(self).state.protocol_fee_beneficiary,
            res is Err ==> res == Err::<(), PoolError>(PoolError::Unauthorized) && *final(self)
                == *old(self),
            res is Ok ==> final(self).state == (PoolState {
                protocol_fee_beneficiary: new_beneficiary,
                ..old(self).state
            }) && final(self).assets@ == old(self).assets@,
            old(self).wf() ==> final(self).wf(),
            old(self).total_consistent() ==> final(self).total_consistent(),
    {
        if signer == self.state.protocol_fee_beneficiary {
            self.state.protocol_fee_beneficiary = new_beneficiary;
            Ok(())
        } else {
            Err(PoolError::Unauthorized)
        }
    }

    /// Points the pool at another pricing module; only the administrator
    /// may do so.
    pub fn set_pricing_program(&mut self, signer: AccountId, new_pricing_program: AccountId) -> (res:
        Result<(), PoolError>)
        ensures
            res is Ok <==> signer == old(self).state.admin,
            res is Err ==> res == Err::<(), PoolError>(PoolError::Unauthorized) && *final(self)
                == *old(self),
            res is Ok ==> final(self).state == (PoolState {
                pricing_program: new_pricing_program,
                ..old(self).state
            }) && final(self).assets@ == old(self).assets@,
            old(self).wf() ==> final(self).wf(),
            old(self).total_consistent() ==> final(self).total_consistent(),
    {
        if signer == self.state.admin {
            self.state.pricing_program = new_pricing_program;
            Ok(())
        } else {
            Err(PoolError::Unauthorized)
        }
    }

    /// Sets the protocol-fee rate; only the administrator may do so, and a
    /// rate above one whole is rejected when it is configured, never at
    /// quote time.
    pub fn set_protocol_fee_bps(&mut self, signer: AccountId, new_protocol_fee_bps: u16) -> (res:
        Result<(), PoolError>)
        ensures
            res is Ok <==> signer == old(self).state.admin && unsigned_fee_bps_in_bound(
                new_protocol_fee_bps,
            ),
            signer != old(self).state.admin ==> res == Err::<(), PoolError>(PoolError::Unauthorized),
            signer == old(self).state.admin && !unsigned_fee_bps_in_bound(new_protocol_fee_bps)
                ==> res == Err::<(), PoolError>(PoolError::OutOfBoundFee),
            res is Err ==> *final(self) == *old(self),
            res is Ok ==> final(self).state == (PoolState {
                protocol_fee_bps: new_protocol_fee_bps,
                ..old(self).state
            }) && final(self).assets@ == old(self).assets@,
            old(self).wf() ==> final(self).wf(),
            old(self).total_consistent() ==> final(self).total_consistent(),
    {
        if signer != self.state.admin {
            return Err(PoolError::Unauthorized);
        }
        match validate_unsigned_fee_bps(new_protocol_fee_bps) {
            Ok(()) => {
                self.state.protocol_fee_bps = new_protocol_fee_bps;
                Ok(())
            },
            Err(_) => Err(PoolError::OutOfBoundFee),
        }
    }

    /// Sets the withdrawal fee charged when liquidity tokens are redeemed;
    /// only the administrator may do so, and a fee above one whole is
    /// rejected here, at configuration time.
    pub fn set_lp_withdrawal_fee_bps(
        &mut self,
        signer: AccountId,
        new_lp_withdrawal_fee_bps: u16,
    ) -> (res: Result<(), PoolError>)
        ensures
            res is Ok <==> signer == old(self).state.admin && unsigned_fee_bps_in_bound(
                new_lp_withdrawal_fee_bps,
            ),
            signer != old(self).state.admin ==> res == Err::<(), PoolError>(PoolError::Unauthorized),
            signer == old(self).state.admin && !unsigned_fee_bps_in_bound(new_lp_withdrawal_fee_bps)
                ==> res == Err::<(), PoolError>(PoolError::OutOfBoundFee),
            res is Err ==> *final(self) == *old(self),
            res is Ok ==> final(self).state == (PoolState {
                lp_withdrawal_fee_bps: new_lp_withdrawal_fee_bps,
                ..old(self).state
            }) && final(self).assets@ == old(self).assets@,
            old(self).wf() ==> final(self).wf(),
            old(self).total_consistent() ==> final(self).total_consistent(),
    {
        if signer != self.state.admin {
            return Err(PoolError::Unauthorized);
        }
        match validate_unsigned_fee_bps(new_lp_withdrawal_fee_bps) {
            Ok(()) => {
                self.state.lp_withdrawal_fee_bps = new_lp_withdrawal_fee_bps;
                Ok(())
            },
            Err(_) => Err(PoolError::OutOfBoundFee),
        }
    }

    /// Opens the rebalance maintenance window, snapshotting the current
    /// total value; fails while one is already open.
    pub fn start_rebalance(&mut self, signer: AccountId) -> (res: Result<(), PoolError>)
        ensures
            final(self).assets@ == old(self).assets@,
            match spec_start_rebalance(old(self).state, signer) {
                Ok(ns) => res is Ok && final(self).state == ns,
                Err(e) => res == Err::<(), PoolError>(e) && *final(self) == *old(self),
            },
            old(self).wf() ==> final(self).wf(),
            old(self).total_consistent() ==> final(self).total_consistent(),
    {
        if signer != self.state.rebalance_authority {
            return Err(PoolError::Unauthorized);
        }
        match self.state.rebalance {
            RebalanceState::Active { .. } => Err(PoolError::StateConflict),
            RebalanceState::Idle => {
                self.state.rebalance = RebalanceState::Active {
                    start_total_sol_value: self.state.total_sol_value,
                };
                Ok(())
            },
        }
    }

    /// Closes the rebalance maintenance window. The close is refused with
    /// `StateConflict` when the total value has dropped more than
    /// `tolerance` below the snapshot taken at the start: value must not
    /// leak out of the pool during maintenance.
    pub fn end_rebalance(&mut self, signer: AccountId, tolerance: u64) -> (res: Result<
        (),
        PoolError,
    >)
        ensures
            final(self).assets@ == old(self).assets@,
            match spec_end_rebalance(old(self).state, signer, tolerance) {
                Ok(ns) => res is Ok && final(self).state == ns,
                Err(e) => res == Err::<(), PoolError>(e) && *final(self) == *old(self),
            },
            old(self).wf() ==> final(self).wf(),
            old(self).total_consistent() ==> final(self).total_consistent(),
    {
        if signer != self.state.rebalance_authority {
            return Err(PoolError::Unauthorized);
        }
        match self.state.rebalance {
            RebalanceState::Idle => Err(PoolError::StateConflict),
            RebalanceState::Active { start_total_sol_value } => {
                if start_total_sol_value > self.state.total_sol_value && start_total_sol_value - self.state.total_sol_value > tolerance {
                    return Err(PoolError::StateConflict);
                }
                self.state.rebalance = RebalanceState::Idle;
                Ok(())
            },
        }
    }

    /// Registers a new asset with a zero cached value and input enabled;
    /// only the administrator may do so, never while a rebalance window is
    /// open, and only with fees inside their bound.
    pub fn add_asset(
        &mut self,
        signer: AccountId,
        mint: AccountId,
        calculator: ValueCalculator,
        input_fee_bps: i16,
        output_fee_bps: i16,
        pool_reserves_bump: u8,
        protocol_fee_accumulator_bump: u8,
    ) -> (res: Result<(), PoolError>)
        ensures
            res is Ok <==> signer == old(self).state.admin && old(self).state.rebalance is Idle
                && signed_fee_bps_in_bound(input_fee_bps) && signed_fee_bps_in_bound(
                output_fee_bps,
            ),
            signer != old(self).state.admin ==> res == Err::<(), PoolError>(PoolError::Unauthorized),
            signer == old(self).state.admin && !(old(self).state.rebalance is Idle) ==> res
                == Err::<(), PoolError>(PoolError::StateConflict),
            signer == old(self).state.admin && old(self).state.rebalance is Idle && !(
            signed_fee_bps_in_bound(input_fee_bps) && signed_fee_bps_in_bound(output_fee_bps))
                ==> res == Err::<(), PoolError>(PoolError::OutOfBoundFee),
            res is Err ==> *final(self) == *old(self),
            res is Ok ==> final(self).state == old(self).state && final(self).assets@ == old(
                self,
            ).assets@.push(
                AssetRecord {
                    mint,
                    pool_reserves_bump,
                    protocol_fee_accumulator_bump,
                    is_input_disabled: false,
                    sol_value: 0,
                    calculator,
                    input_fee_bps,
                    output_fee_bps,
                },
            ),
            old(self).wf() ==> final(self).wf(),
            old(self).total_consistent() ==> final(self).total_consistent(),
    {
        if signer != self.state.admin {
            return Err(PoolError::Unauthorized);
        }
        match self.state.rebalance {
            RebalanceState::Active { .. } => {
                return Err(PoolError::StateConflict);
            },
            RebalanceState::Idle => {},
        }
        let fees_ok = match validate_signed_fee_bps(input_fee_bps) {
            Ok(()) => matches!(validate_signed_fee_bps(output_fee_bps), Ok(())),
            Err(_) => false,
        };
        if !fees_ok {
            return Err(PoolError::OutOfBoundFee);
        }
        let record = AssetRecord {
            mint,
            pool_reserves_bump,
            protocol_fee_accumulator_bump,
            is_input_disabled: false,
            sol_value: 0,
            calculator,
            input_fee_bps,
            output_fee_bps,
        };
        self.assets.push(record);
        proof {
            assert(self.assets@.drop_last() =~= old(self).assets@);
        }
        Ok(())
    }

    /// Removes the asset at `index` by swapping it with the last record and
    /// truncating; only the administrator may do so, never while a
    /// rebalance window is open, and only once the asset's reserve and
    /// fee-accumulator balances have been emptied.
    pub fn remove_asset(
        &mut self,
        signer: AccountId,
        index: u32,
        pool_reserves_balance: u64,
        protocol_fee_accumulator_balance: u64,
    ) -> (res: Result<(), PoolError>)
        ensures
            res is Ok <==> signer == old(self).state.admin && old(self).state.rebalance is Idle
                && index < old(self).assets@.len() && pool_reserves_balance == 0
                && protocol_fee_accumulator_balance == 0 && old(self).assets@[index as int].sol_value
                <= old(self).state.total_sol_value,
            signer != old(self).state.admin ==> res == Err::<(), PoolError>(PoolError::Unauthorized),
            signer == old(self).state.admin && !(old(self).state.rebalance is Idle) ==> res
                == Err::<(), PoolError>(PoolError::StateConflict),
            signer == old(self).state.admin && old(self).state.rebalance is Idle && index >= old(
                self,
            ).assets@.len() ==> res == Err::<(), PoolError>(PoolError::UnsupportedAsset),
            signer == old(self).state.admin && old(self).state.rebalance is Idle && index < old(
                self,
            ).assets@.len() && (pool_reserves_balance != 0 || protocol_fee_accumulator_balance != 0)
                ==> res == Err::<(), PoolError>(PoolError::StateConflict),
            signer == old(self).state.admin && old(self).state.rebalance is Idle && index < old(
                self,
            ).assets@.len() && pool_reserves_balance == 0 && protocol_fee_accumulator_balance == 0
                && old(self).assets@[index as int].sol_value > old(self).state.total_sol_value
                ==> res == Err::<(), PoolError>(PoolError::MathError),
            res is Err ==> *final(self) == *old(self),
            res is Ok ==> final(self).state == (PoolState {
                total_sol_value: (old(self).state.total_sol_value - old(self).assets@[
                    index as int
                ].sol_value) as u64,
                ..old(self).state
            }) && final(self).assets@ == old(self).assets@.update(
                index as int,
                old(self).assets@.last(),
            ).drop_last(),
            old(self).wf() ==> final(self).wf(),
            old(self).total_consistent() ==> final(self).total_consistent(),
    {
        if signer != self.state.admin {
            return Err(PoolError::Unauthorized);
        }
        match self.state.rebalance {
            RebalanceState::Active { .. } => {
                return Err(PoolError::StateConflict);
            },
            RebalanceState::Idle => {},
        }
        let index = index as usize;
        if index >= self.assets.len() {
            return Err(PoolError::UnsupportedAsset);
        }
        if pool_reserves_balance != 0 || protocol_fee_accumulator_balance != 0 {
            return Err(PoolError::StateConflict);
        }
        let removed_sol_value = self.assets[index].sol_value;
        if removed_sol_value > self.state.total_sol_value {
            return Err(PoolError::MathError);
        }
        let last_index = self.assets.len() - 1;
        let last_record = self.assets[last_index];
        self.assets.set(index, last_record);
        let _ = self.assets.pop();
        self.state.total_sol_value = self.state.total_sol_value - removed_sol_value;
        proof {
            lemma_sum_sol_values_swap_remove(old(self).assets@, index as int);
        }
        Ok(())
    }

    /// Reconfigures the asset at `index` with new input- and output-side
    /// fees; only the administrator may do so, and fees outside their bound
    /// are rejected here, at configuration time.
    pub fn set_asset_fees(
        &mut self,
        signer: AccountId,
        index: u32,
        input_fee_bps: i16,
        output_fee_bps: i16,
    ) -> (res: Result<(), PoolError>)
        ensures
            res is Ok <==> signer == old(self).state.admin && index < old(self).assets@.len()
                && signed_fee_bps_in_bound(input_fee_bps) && signed_fee_bps_in_bound(
                output_fee_bps,
            ),
            signer != old(self).state.admin ==> res == Err::<(), PoolError>(PoolError::Unauthorized),
            signer == old(self).state.admin && index >= old(self).assets@.len() ==> res == Err::<
                (),
                PoolError,
            >(PoolError::UnsupportedAsset),
            signer == old(self).state.admin && index < old(self).assets@.len() && !(
            signed_fee_bps_in_bound(input_fee_bps) && signed_fee_bps_in_bound(output_fee_bps))
                ==> res == Err::<(), PoolError>(PoolError::OutOfBoundFee),
            res is Err ==> *final(self) == *old(self),
            res is Ok ==> final(self).state == old(self).state && final(self).assets@ == old(
                self,
            ).assets@.update(
                index as int,
                AssetRecord { input_fee_bps, output_fee_bps, ..old(self).assets@[index as int] },
            ),
            old(self).wf() ==> final(self).wf(),
            old(self).total_consistent() ==> final(self).total_consistent(),
    {
        if signer != self.state.admin {
            return Err(PoolError::Unauthorized);
        }
        let index = index as usize;
        if index >= self.assets.len() {
            return Err(PoolError::UnsupportedAsset);
        }
        let fees_ok = match validate_signed_fee_bps(input_fee_bps) {
            Ok(()) => matches!(validate_signed_fee_bps(output_fee_bps), Ok(())),
            Err(_) => false,
        };
        if !fees_ok {
            return Err(PoolError::OutOfBoundFee);
        }
        let record = self.assets[index];
        self.assets.set(index, AssetRecord { input_fee_bps, output_fee_bps, ..record });
        proof {
            lemma_sum_sol_values_update(
                old(self).assets@,
                index as int,
                AssetRecord { input_fee_bps, output_fee_bps, ..record },
            );
        }
        Ok(())
    }

    /// Marks the asset at `index` as refusing further input; only the
    /// administrator may do so, and never while a rebalance window is open.
    pub fn disable_input(&mut self, signer: AccountId, index: u32) -> (res: Result<(), PoolError>)
        ensures
            res is Ok <==> signer == old(self).state.admin && old(self).state.rebalance is Idle
                && index < old(self).assets@.len(),
            signer != old(self).state.admin ==> res == Err::<(), PoolError>(PoolError::Unauthorized),
            signer == old(self).state.admin && !(old(self).state.rebalance is Idle) ==> res
                == Err::<(), PoolError>(PoolError::StateConflict),
            signer == old(self).state.admin && old(self).state.rebalance is Idle && index >= old(
                self,
            ).assets@.len() ==> res == Err::<(), PoolError>(PoolError::UnsupportedAsset),
            res is Err ==> *final(self) == *old(self),
            res is Ok ==> final(self).state == old(self).state && final(self).assets@ == old(
                self,
            ).assets@.update(
                index as int,
                AssetRecord { is_input_disabled: true, ..old(self).assets@[index as int] },
            ),
            old(self).wf() ==> final(self).wf(),
            old(self).total_consistent() ==> final(self).total_consistent(),
    {
        if signer != self.state.admin {
            return Err(PoolError::Unauthorized);
        }
        match self.state.rebalance {
            RebalanceState::Active { .. } => {
                return Err(PoolError::StateConflict);
            },
            RebalanceState::Idle => {},
        }
        let index = index as usize;
        if index >= self.assets.len() {
            return Err(PoolError::UnsupportedAsset);
        }
        let record = self.assets[index];
        self.assets.set(index, AssetRecord { is_input_disabled: true, ..record });
        proof {
            lemma_sum_sol_values_update(
                old(self).assets@,
                index as int,
                AssetRecord { is_input_disabled: true, ..record },
            );
        }
        Ok(())
    }

    /// Marks the asset at `index` as accepting input again; only the
    /// administrator may do so, and never while a rebalance window is open.
    pub fn enable_input(&mut self, signer: AccountId, index: u32) -> (res: Result<(), PoolError>)
        ensures
            res is Ok <==> signer == old(self).state.admin && old(self).state.rebalance is Idle
                && index < old(self).assets@.len(),
            signer != old(self).state.admin ==> res == Err::<(), PoolError>(PoolError::Unauthorized),
            signer == old(self).state.admin && !(old(self).state.rebalance is Idle) ==> res
                == Err::<(), PoolError>(PoolError::StateConflict),
            signer == old(self).state.admin && old(self).state.rebalance is Idle && index >= old(
                self,
            ).assets@.len() ==> res == Err::<(), PoolError>(PoolError::UnsupportedAsset),
            res is Err ==> *final(self) == *old(self),
            res is Ok ==> final(self).state == old(self).state && final(self).assets@ == old(
                self,
            ).assets@.update(
                index as int,
                AssetRecord { is_input_disabled: false, ..old(self).assets@[index as int] },
            ),
            old(self).wf() ==> final(self).wf(),
            old(self).total_consistent() ==> final(self).total_consistent(),
    {
        if signer != self.state.admin {
            return Err(PoolError::Unauthorized);
        }
        match self.state.rebalance {
            RebalanceState::Active { .. } => {
                return Err(PoolError::StateConflict);
            },
            RebalanceState::Idle => {},
        }
        let index = index as usize;
        if index >= self.assets.len() {
            return Err(PoolError::UnsupportedAsset);
        }
        let record = self.assets[index];
        self.assets.set(index, AssetRecord { is_input_disabled: false, ..record });
        proof {
            lemma_sum_sol_values_update(
                old(self).assets@,
                index as int,
                AssetRecord { is_input_disabled: false, ..record },
            );
        }
        Ok(())
    }
}

/// Everything a swap computes before any state is touched, composed from
/// the calculators' flooring rates and the flat-fee quote: the source
/// amount's common value, the fee-adjusted output value, and the native
/// output amount.
pub open spec fn spec_swap_quote(src: AssetRecord, dst: AssetRecord, amount: u64) -> Result<
    SwapOutcome,
    PoolError,
> {
    match ratio_apply_res(calc_rate(src.calculator), amount) {
        Err(e) => Err(e),
        Ok(in_sol_value) => match price_exact_in_res(
            src.input_fee_bps,
            dst.output_fee_bps,
            in_sol_value,
        ) {
            Err(_) => Err(PoolError::MathError),
            Ok(out_sol_value) => match ratio_pseudo_reverse_res(
                calc_rate(dst.calculator),
                out_sol_value,
            ) {
                Err(e) => Err(e),
                Ok(out_amount) => Ok(SwapOutcome { out_amount, in_sol_value, out_sol_value }),
            },
        },
    }
}

/// How many liquidity tokens a deposit worth `sol_value` mints: the
/// depositor's proportional share of the supply, floored, so the pool
/// never over-issues; a fresh pool mints value one for one.
pub open spec fn spec_lp_tokens_to_mint(sol_value: u64, total_sol_value: u64, lp_supply: u64)
    -> int {
    if total_sol_value == 0 || lp_supply == 0 {
        sol_value as int
    } else {
        (sol_value * lp_supply) / (total_sol_value as int)
    }
}

/// The common value redeemed by burning `lp_amount` liquidity tokens: the
/// holder's proportional share of the total, floored, so the withdrawer
/// never receives more than their share.
pub open spec fn spec_lp_tokens_to_redeem(lp_amount: u64, total_sol_value: u64, lp_supply: u64)
    -> int
    recommends
        lp_supply > 0,
{
    (lp_amount * total_sol_value) / (lp_supply as int)
}

impl Pool {
    /// Finds the first registered asset with the given mint, as resolvers
    /// walking the registry on behalf of a caller do.
    pub fn find_asset_by_mint(&self, mint: AccountId) -> (res: Option<usize>)
        ensures
            match res {
                Some(i) => i < self.assets@.len() && self.assets@[i as int].mint == mint
                    && forall|j: int| 0 <= j < i ==> (#[trigger] self.assets@[j]).mint != mint,
                None => forall|j: int|
                    0 <= j < self.assets@.len() ==> (#[trigger] self.assets@[j]).mint != mint,
            },
    {
        let n = self.assets.len();
        for i in 0..n
            invariant
                n == self.assets@.len(),
                forall|j: int| 0 <= j < i ==> (#[trigger] self.assets@[j]).mint != mint,
        {
            if self.assets[i].mint == mint {
                return Some(i);
            }
        }
        None
    }

    /// Checks that the asset a caller addressed by `index` really carries
    /// the mint it claims to; a mismatch or an invalid index is refused as
    /// `UnsupportedAsset`.
    pub fn check_asset_mint(&self, index: u32, mint: AccountId) -> (res: Result<(), PoolError>)
        ensures
            res is Ok <==> index < self.assets@.len() && self.assets@[index as int].mint == mint,
            res is Err ==> res == Err::<(), PoolError>(PoolError::UnsupportedAsset),
    {
        let index = index as usize;
        if index >= self.assets.len() {
            return Err(PoolError::UnsupportedAsset);
        }
        if self.assets[index].mint == mint {
            Ok(())
        } else {
            Err(PoolError::UnsupportedAsset)
        }
    }

    /// Recomputes one asset's cached value from its current reserve
    /// balance through its calculator, and moves the pool-wide total by the
    /// same delta. Needs no authorization; fails `Staleness` when the
    /// calculator refuses the observed environment.
    pub fn sync_value(
        &mut self,
        index: u32,
        pool_reserves_balance: u64,
        pool_program_deploy_slot: u64,
        current_epoch: u64,
    ) -> (res: Result<(), PoolError>)
        ensures
            res is Err ==> *final(self) == *old(self),
            index >= old(self).assets@.len() ==> res == Err::<(), PoolError>(
                PoolError::UnsupportedAsset,
            ),
            index < old(self).assets@.len() && !calc_is_fresh(
                old(self).assets@[index as int].calculator,
                pool_program_deploy_slot,
                current_epoch,
            ) ==> res == Err::<(), PoolError>(PoolError::Staleness),
            index < old(self).assets@.len() && calc_is_fresh(
                old(self).assets@[index as int].calculator,
                pool_program_deploy_slot,
                current_epoch,
            ) ==> ({
                let record = old(self).assets@[index as int];
                let total = old(self).state.total_sol_value;
                match ratio_apply_res(calc_rate(record.calculator), pool_reserves_balance) {
                    Err(e) => res == Err::<(), PoolError>(e),
                    Ok(new_sol_value) => {
                        let ok_math = record.sol_value <= total && total - record.sol_value
                            + new_sol_value <= u64::MAX;
                        &&& !ok_math ==> res == Err::<(), PoolError>(PoolError::MathError)
                        &&& ok_math ==> res is Ok && final(self).state == (PoolState {
                            total_sol_value: (total - record.sol_value + new_sol_value) as u64,
                            ..old(self).state
                        }) && final(self).assets@ == old(self).assets@.update(
                            index as int,
                            AssetRecord { sol_value: new_sol_value, ..record },
                        )
                    },
                }
            }),
            old(self).wf() ==> final(self).wf(),
            old(self).total_consistent() ==> final(self).total_consistent(),
    {
        let index = index as usize;
        if index >= self.assets.len() {
            return Err(PoolError::UnsupportedAsset);
        }
        let record = self.assets[index];
        match record.calculator.validate(pool_program_deploy_slot, current_epoch) {
            Ok(()) => {},
            Err(e) => {
                return Err(e);
            },
        }
        let new_sol_value = match record.calculator.to_common_value(pool_reserves_balance) {
            Ok(v) => v,
            Err(e) => {
                return Err(e);
            },
        };
        if record.sol_value > self.state.total_sol_value {
            return Err(PoolError::MathError);
        }
        let total_less_old = self.state.total_sol_value - record.sol_value;
        if new_sol_value > u64::MAX - total_less_old {
            return Err(PoolError::MathError);
        }
        self.assets.set(index, AssetRecord { sol_value: new_sol_value, ..record });
        self.state.total_sol_value = total_less_old + new_sol_value;
        proof {
            lemma_sum_sol_values_update(
                old(self).assets@,
                index as int,
                AssetRecord { sol_value: new_sol_value, ..record },
            );
        }
        Ok(())
    }

    /// Exchanges `amount` native units of the source asset for native units
    /// of the destination asset: the source calculator values the input,
    /// the flat fee is charged on that value, and the destination
    /// calculator converts what is left back to native units. The fee's
    /// value stays in the pool, so on success the total value moves by
    /// exactly `in_sol_value - out_sol_value`. Registered assets with input
    /// enabled on both sides are required; a rebalance window does not
    /// block swaps.
    pub fn swap(
        &mut self,
        src_index: u32,
        dst_index: u32,
        amount: u64,
        pool_program_deploy_slot: u64,
        current_epoch: u64,
    ) -> (res: Result<SwapOutcome, PoolError>)
        requires
            old(self).wf(),
        ensures
            final(self).wf(),
            old(self).total_consistent() ==> final(self).total_consistent(),
            res is Err ==> *final(self) == *old(self),
            !(src_index < old(self).assets@.len() && dst_index < old(self).assets@.len()
                && src_index != dst_index) ==> res == Err::<SwapOutcome, PoolError>(
                PoolError::UnsupportedAsset,
            ),
            src_index < old(self).assets@.len() && dst_index < old(self).assets@.len() && src_index
                != dst_index ==> ({
                let src = old(self).assets@[src_index as int];
                let dst = old(self).assets@[dst_index as int];
                let total = old(self).state.total_sol_value;
                &&& src.is_input_disabled || dst.is_input_disabled ==> res == Err::<
                    SwapOutcome,
                    PoolError,
                >(PoolError::UnsupportedAsset)
                &&& !src.is_input_disabled && !dst.is_input_disabled && !(calc_is_fresh(
                    src.calculator,
                    pool_program_deploy_slot,
                    current_epoch,
                ) && calc_is_fresh(dst.calculator, pool_program_deploy_slot, current_epoch)) ==> res
                    == Err::<SwapOutcome, PoolError>(PoolError::Staleness)
                &&& !src.is_input_disabled && !dst.is_input_disabled && calc_is_fresh(
                    src.calculator,
                    pool_program_deploy_slot,
                    current_epoch,
                ) && calc_is_fresh(dst.calculator, pool_program_deploy_slot, current_epoch) ==> (
                match spec_swap_quote(src, dst, amount) {
                    Err(e) => res == Err::<SwapOutcome, PoolError>(e),
                    Ok(q) => {
                        let ok_math = src.sol_value + q.in_sol_value <= u64::MAX
                            && q.out_sol_value <= dst.sol_value && total + q.in_sol_value
                            <= u64::MAX && total + q.in_sol_value - q.out_sol_value >= 0;
                        &&& !ok_math ==> res == Err::<SwapOutcome, PoolError>(PoolError::MathError)
                        &&& ok_math ==> res == Ok::<SwapOutcome, PoolError>(q) && final(self).state
                            == (PoolState {
                            total_sol_value: (total + q.in_sol_value - q.out_sol_value) as u64,
                            ..old(self).state
                        }) && final(self).assets@ == old(self).assets@.update(
                            src_index as int,
                            AssetRecord {
                                sol_value: (src.sol_value + q.in_sol_value) as u64,
                                ..src
                            },
                        ).update(
                            dst_index as int,
                            AssetRecord {
                                sol_value: (dst.sol_value - q.out_sol_value) as u64,
                                ..dst
                            },
                        )
                    },
                })
            }),
    {
        let src_index = src_index as usize;
        let dst_index = dst_index as usize;
        if src_index >= self.assets.len() || dst_index >= self.assets.len() || src_index
            == dst_index {
            return Err(PoolError::UnsupportedAsset);
        }
        let src = self.assets[src_index];
        let dst = self.assets[dst_index];
        if src.is_input_disabled || dst.is_input_disabled {
            return Err(PoolError::UnsupportedAsset);
        }
        match src.calculator.validate(pool_program_deploy_slot, current_epoch) {
            Ok(()) => {},
            Err(_) => {
                return Err(PoolError::Staleness);
            },
        }
        match dst.calculator.validate(pool_program_deploy_slot, current_epoch) {
            Ok(()) => {},
            Err(_) => {
                return Err(PoolError::Staleness);
            },
        }
        let in_sol_value = match src.calculator.to_common_value(amount) {
            Ok(v) => v,
            Err(e) => {
                return Err(e);
            },
        };
        let out_sol_value = match crate::pricing::price_exact_in(
            src.input_fee_bps,
            dst.output_fee_bps,
            in_sol_value,
        ) {
            Ok(v) => v,
            Err(_) => {
                return Err(PoolError::MathError);
            },
        };
        let out_amount = match dst.calculator.to_native_amount(out_sol_value) {
            Ok(v) => v,
            Err(e) => {
                return Err(e);
            },
        };
        if in_sol_value > u64::MAX - src.sol_value || out_sol_value > dst.sol_value
            || in_sol_value > u64::MAX - self.state.total_sol_value {
            return Err(PoolError::MathError);
        }
        let grown_total = self.state.total_sol_value + in_sol_value;
        if out_sol_value > grown_total {
            return Err(PoolError::MathError);
        }
        self.assets.set(
            src_index,
            AssetRecord { sol_value: src.sol_value + in_sol_value, ..src },
        );
        self.assets.set(
            dst_index,
            AssetRecord { sol_value: dst.sol_value - out_sol_value, ..dst },
        );
        self.state.total_sol_value = grown_total - out_sol_value;
        proof {
            let src_updated = AssetRecord { sol_value: (src.sol_value + in_sol_value) as u64, ..src };
            let dst_updated = AssetRecord { sol_value: (dst.sol_value - out_sol_value) as u64, ..dst };
            lemma_sum_sol_values_update(old(self).assets@, src_index as int, src_updated);
            lemma_sum_sol_values_update(
                old(self).assets@.update(src_index as int, src_updated),
                dst_index as int,
                dst_updated,
            );
        }
        Ok(SwapOutcome { out_amount, in_sol_value, out_sol_value })
    }

    /// Deposits `amount` native units of the asset at `index` and reports
    /// how many liquidity tokens to mint: the deposit's common value as a
    /// proportional share of `lp_token_supply`, floored, so the pool never
    /// over-issues liquidity tokens relative to the value received.
    pub fn add_liquidity(
        &mut self,
        index: u32,
        amount: u64,
        lp_token_supply: u64,
        pool_program_deploy_slot: u64,
        current_epoch: u64,
    ) -> (res: Result<u64, PoolError>)
        ensures
            res is Err ==> *final(self) == *old(self),
            index >= old(self).assets@.len() ==> res == Err::<u64, PoolError>(
                PoolError::UnsupportedAsset,
            ),
            index < old(self).assets@.len() && old(self).assets@[index as int].is_input_disabled
                ==> res == Err::<u64, PoolError>(PoolError::UnsupportedAsset),
            index < old(self).assets@.len() && !old(self).assets@[index as int].is_input_disabled
                && !calc_is_fresh(
                old(self).assets@[index as int].calculator,
                pool_program_deploy_slot,
                current_epoch,
            ) ==> res == Err::<u64, PoolError>(PoolError::Staleness),
            index < old(self).assets@.len() && !old(self).assets@[index as int].is_input_disabled
                && calc_is_fresh(
                old(self).assets@[index as int].calculator,
                pool_program_deploy_slot,
                current_epoch,
            ) ==> ({
                let record = old(self).assets@[index as int];
                let total = old(self).state.total_sol_value;
                match ratio_apply_res(calc_rate(record.calculator), amount) {
                    Err(e) => res == Err::<u64, PoolError>(e),
                    Ok(sol_value) => {
                        let minted = spec_lp_tokens_to_mint(sol_value, total, lp_token_supply);
                        let ok_math = minted <= u64::MAX && record.sol_value + sol_value
                            <= u64::MAX && total + sol_value <= u64::MAX;
                        &&& !ok_math ==> res == Err::<u64, PoolError>(PoolError::MathError)
                        &&& ok_math ==> res == Ok::<u64, PoolError>(minted as u64) && final(self).state == (PoolState {
                            total_sol_value: (total + sol_value) as u64,
                            ..old(self).state
                        }) && final(self).assets@ == old(self).assets@.update(
                            index as int,
                            AssetRecord { sol_value: (record.sol_value + sol_value) as u64, ..record },
                        )
                    },
                }
            }),
            old(self).wf() ==> final(self).wf(),
            old(self).total_consistent() ==> final(self).total_consistent(),
    {
        let index = index as usize;
        if index >= self.assets.len() {
            return Err(PoolError::UnsupportedAsset);
        }
        let record = self.assets[index];
        if record.is_input_disabled {
            return Err(PoolError::UnsupportedAsset);
        }
        match record.calculator.validate(pool_program_deploy_slot, current_epoch) {
            Ok(()) => {},
            Err(e) => {
                return Err(e);
            },
        }
        let sol_value = match record.calculator.to_common_value(amount) {
            Ok(v) => v,
            Err(e) => {
                return Err(e);
            },
        };
        let total = self.state.total_sol_value;
        let minted_wide: u128 = if total == 0 || lp_token_supply == 0 {
            sol_value as u128
        } else {
            proof {
                vstd::arithmetic::mul::lemma_mul_upper_bound(
                    sol_value as int,
                    u64::MAX as int,
                    lp_token_supply as int,
                    u64::MAX as int,
                );
            }
            ((sol_value as u128) * (lp_token_supply as u128)) / (total as u128)
        };
        if minted_wide > u64::MAX as u128 {
            return Err(PoolError::MathError);
        }
        if sol_value > u64::MAX - record.sol_value || sol_value > u64::MAX - total {
            return Err(PoolError::MathError);
        }
        self.assets.set(index, AssetRecord { sol_value: record.sol_value + sol_value, ..record });
        self.state.total_sol_value = total + sol_value;
        proof {
            lemma_sum_sol_values_update(
                old(self).assets@,
                index as int,
                AssetRecord { sol_value: (record.sol_value + sol_value) as u64, ..record },
            );
        }
        Ok(minted_wide as u64)
    }

    /// Burns `lp_amount` liquidity tokens and pays out the asset at
    /// `index`: the holder's proportional share of the total value,
    /// floored, converted to native units through the asset's calculator.
    /// Withdrawal stays possible while the asset's input is disabled.
    pub fn remove_liquidity(
        &mut self,
        index: u32,
        lp_amount: u64,
        lp_token_supply: u64,
        pool_program_deploy_slot: u64,
        current_epoch: u64,
    ) -> (res: Result<u64, PoolError>)
        ensures
            res is Err ==> *final(self) == *old(self),
            index >= old(self).assets@.len() ==> res == Err::<u64, PoolError>(
                PoolError::UnsupportedAsset,
            ),
            index < old(self).assets@.len() && !calc_is_fresh(
                old(self).assets@[index as int].calculator,
                pool_program_deploy_slot,
                current_epoch,
            ) ==> res == Err::<u64, PoolError>(PoolError::Staleness),
            index < old(self).assets@.len() && calc_is_fresh(
                old(self).assets@[index as int].calculator,
                pool_program_deploy_slot,
                current_epoch,
            ) && lp_token_supply == 0 ==> res == Err::<u64, PoolError>(PoolError::MathError),
            index < old(self).assets@.len() && calc_is_fresh(
                old(self).assets@[index as int].calculator,
                pool_program_deploy_slot,
                current_epoch,
            ) && lp_token_supply > 0 ==> ({
                let record = old(self).assets@[index as int];
                let total = old(self).state.total_sol_value;
                let sol_value = spec_lp_tokens_to_redeem(lp_amount, total, lp_token_supply);
                &&& sol_value > u64::MAX ==> res == Err::<u64, PoolError>(PoolError::MathError)
                &&& sol_value <= u64::MAX ==> (match ratio_pseudo_reverse_res(
                    calc_rate(record.calculator),
                    sol_value as u64,
                ) {
                    Err(e) => res == Err::<u64, PoolError>(e),
                    Ok(out_amount) => {
                        let ok_math = sol_value <= record.sol_value && sol_value <= total;
                        &&& !ok_math ==> res == Err::<u64, PoolError>(PoolError::MathError)
                        &&& ok_math ==> res == Ok::<u64, PoolError>(out_amount) && final(self).state == (PoolState {
                            total_sol_value: (total - sol_value) as u64,
                            ..old(self).state
                        }) && final(self).assets@ == old(self).assets@.update(
                            index as int,
                            AssetRecord { sol_value: (record.sol_value - sol_value) as u64, ..record },
                        )
                    },
                })
            }),
            old(self).wf() ==> final(self).wf(),
            old(self).total_consistent() ==> final(self).total_consistent(),
    {
        let index = index as usize;
        if index >= self.assets.len() {
            return Err(PoolError::UnsupportedAsset);
        }
        let record = self.assets[index];
        match record.calculator.validate(pool_program_deploy_slot, current_epoch) {
            Ok(()) => {},
            Err(e) => {
                return Err(e);
            },
        }
        if lp_token_supply == 0 {
            return Err(PoolError::MathError);
        }
        let total = self.state.total_sol_value;
        proof {
            vstd::arithmetic::mul::lemma_mul_upper_bound(
                lp_amount as int,
                u64::MAX as int,
                total as int,
                u64::MAX as int,
            );
        }
        let sol_value_wide: u128 = ((lp_amount as u128) * (total as u128)) / (
        lp_token_supply as u128);
        if sol_value_wide > u64::MAX as u128 {
            return Err(PoolError::MathError);
        }
        let sol_value = sol_value_wide as u64;
        let out_amount = match record.calculator.to_native_amount(sol_value) {
            Ok(v) => v,
            Err(e) => {
                return Err(e);
            },
        };
        if sol_value > record.sol_value || sol_value > total {
            return Err(PoolError::MathError);
        }
        self.assets.set(index, AssetRecord { sol_value: record.sol_value - sol_value, ..record });
        self.state.total_sol_value = total - sol_value;
        proof {
            lemma_sum_sol_values_update(
                old(self).assets@,
                index as int,
                AssetRecord { sol_value: (record.sol_value - sol_value) as u64, ..record },
            );
        }
        Ok(out_amount)
    }
}

/// Minting rounds down in the pool's favor: the liquidity tokens minted
/// for a deposit never claim more than the deposit's proportional share
/// (`minted / supply <= sol_value / total`, cleared of denominators).
pub proof fn lemma_lp_mint_never_over_issues(sol_value: u64, total_sol_value: u64, lp_supply: u64)
    requires
        total_sol_value > 0,
        lp_supply > 0,
    ensures
        spec_lp_tokens_to_mint(sol_value, total_sol_value, lp_supply) * total_sol_value
            <= sol_value * lp_supply,
{
    let t = total_sol_value as int;
    let q = (sol_value * lp_supply) / t;
    lemma_fundamental_div_mod(sol_value * lp_supply, t);
    assert(q * t == t * q) by (nonlinear_arith);
}

/// Redeeming rounds down in the pool's favor: the value paid out for
/// burnt liquidity tokens never exceeds the holder's proportional share
/// (`paid / total <= lp_amount / supply`, cleared of denominators).
pub proof fn lemma_lp_redeem_never_over_pays(lp_amount: u64, total_sol_value: u64, lp_supply: u64)
    requires
        lp_supply > 0,
    ensures
        spec_lp_tokens_to_redeem(lp_amount, total_sol_value, lp_supply) * lp_supply <= lp_amount
            * total_sol_value,
{
    let s = lp_supply as int;
    let q = (lp_amount * total_sol_value) / s;
    lemma_fundamental_div_mod(lp_amount * total_sol_value, s);
    assert(q * s == s * q) by (nonlinear_arith);
}

/// Opening the rebalance window twice in a row, without closing it in
/// between, fails the second call with `StateConflict`.
pub proof fn lemma_start_rebalance_twice_conflicts(s: PoolState, signer: AccountId)
    requires
        spec_start_rebalance(s, signer) is Ok,
    ensures
        spec_start_rebalance(spec_start_rebalance(s, signer)->Ok_0, signer) == Err::<
            PoolState,
            PoolError,
        >(PoolError::StateConflict),
{
}

/// Closing the rebalance window: a drop in total value strictly beyond the
/// tolerance is refused with `StateConflict`; an unchanged or increased
/// total closes the window and returns the pool to idle.
pub proof fn lemma_end_rebalance_value_guard(s: PoolState, signer: AccountId, tolerance: u64)
    requires
        s.rebalance is Active,
        signer == s.rebalance_authority,
    ensures
        s.rebalance->start_total_sol_value > s.total_sol_value + tolerance
            ==> spec_end_rebalance(s, signer, tolerance) == Err::<PoolState, PoolError>(
            PoolError::StateConflict,
        ),
        s.total_sol_value >= s.rebalance->start_total_sol_value ==> spec_end_rebalance(
            s,
            signer,
            tolerance,
        ) == Ok::<PoolState, PoolError>(PoolState { rebalance: RebalanceState::Idle, ..s }),
{
}

} // verus!
