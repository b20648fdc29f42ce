//! A flat fee stated as a ratio `fee_num / fee_denom` that must stay at or
//! below one, charged by flooring, together with its pseudo-inverse.
use vstd::arithmetic::div_mod::{
    lemma_div_is_ordered_by_denominator, lemma_fundamental_div_mod,
    lemma_fundamental_div_mod_converse,
};
use vstd::arithmetic::mul::{lemma_mul_inequality, lemma_mul_is_distributive_sub_other_way};
use vstd::prelude::*;

use crate::u64_ratio_floor::{lemma_ratio_floor_le_amt, ratio_floor, U64RatioFloor};
use crate::PoolError;

verus! {

/// The two parts an amount is split into once a fee is charged.
#[derive(Clone, Copy, Debug, Default, PartialEq, Eq, Structural)]
pub struct AmtsAfterFee {
    pub amt_after_fee: u64,
    pub fees_charged: u64,
}

/// A fee ratio that should be at most one:
/// `fees_charged = floor(amt * fee_num / fee_denom)`.
/// A zero numerator or a zero denominator means "no fee".
#[derive(Clone, Copy, Debug, Default, PartialEq, Eq, Structural)]
pub struct U64FeeFloor {
    pub fee_num: u64,
    pub fee_denom: u64,
}

/// A zero numerator or denominator marks the fee as a no-op.
pub open spec fn fee_is_noop(fee: U64FeeFloor) -> bool {
    fee.fee_num == 0 || fee.fee_denom == 0
}

/// What `U64FeeFloor::apply` returns for every input.
pub open spec fn fee_apply_res(fee: U64FeeFloor, amt: u64) -> Result<AmtsAfterFee, PoolError> {
    if fee_is_noop(fee) {
        Ok(AmtsAfterFee { amt_after_fee: amt, fees_charged: 0 })
    } else if fee.fee_num > fee.fee_denom {
        Err(PoolError::OutOfBoundFee)
    } else {
        let fc = ratio_floor(amt, fee.fee_num, fee.fee_denom);
        Ok(AmtsAfterFee { amt_after_fee: (amt - fc) as u64, fees_charged: fc as u64 })
    }
}

/// What `U64FeeFloor::pseudo_reverse` returns for every input.
pub open spec fn fee_pseudo_reverse_res(fee: U64FeeFloor, amt_after_fee: u64) -> Result<
    u64,
    PoolError,
> {
    if fee_is_noop(fee) {
        Ok(amt_after_fee)
    } else if fee.fee_num > fee.fee_denom {
        Err(PoolError::OutOfBoundFee)
    } else if fee.fee_num == fee.fee_denom {
        Err(PoolError::MathError)
    } else {
        let q = (amt_after_fee * fee.fee_denom) / (fee.fee_denom - fee.fee_num);
        if q > u64::MAX {
            Err(PoolError::MathError)
        } else {
            Ok(q as u64)
        }
    }
}

impl U64FeeFloor {
    /// Splits `amt` into the amount kept and the fee charged.
    ///
    /// Charges no fee when `fee_num == 0 || fee_denom == 0`; rejects a fee
    /// above one (`fee_num > fee_denom`) with `OutOfBoundFee`. On success the
    /// two parts always add back up to `amt`.
    pub fn apply(&self, amt: u64) -> (res: Result<AmtsAfterFee, PoolError>)
        ensures
            res == fee_apply_res(*self, amt),
            self.fee_num <= self.fee_denom ==> res is Ok,
            res matches Ok(a) ==> a.amt_after_fee + a.fees_charged == amt && a.amt_after_fee
                <= amt,
    {
        if self.fee_num == 0 || self.fee_denom == 0 {
            return Ok(AmtsAfterFee { amt_after_fee: amt, fees_charged: 0 });
        }
        if self.fee_num > self.fee_denom {
            return Err(PoolError::OutOfBoundFee);
        }
        proof {
            lemma_ratio_floor_le_amt(amt, self.fee_num, self.fee_denom);
        }
        let fees_charged = match (U64RatioFloor { num: self.fee_num, denom: self.fee_denom })
            .apply(amt) {
            Ok(fc) => fc,
            Err(e) => {
                return Err(e);
            },
        };
        let amt_after_fee = amt - fees_charged;
        Ok(AmtsAfterFee { amt_after_fee, fees_charged })
    }

    /// Returns a possible amount that `apply` would have cut down to
    /// `amt_after_fee`.
    ///
    /// Returns `amt_after_fee` unchanged when `fee_num == 0 || fee_denom == 0`;
    /// rejects a fee above one with `OutOfBoundFee`; a fee of exactly one
    /// cannot be reversed and reports `MathError`, as does a result that
    /// overflows a `u64`.
    pub fn pseudo_reverse(&self, amt_after_fee: u64) -> (res: Result<u64, PoolError>)
        ensures
            res == fee_pseudo_reverse_res(*self, amt_after_fee),
    {
        if self.fee_num == 0 || self.fee_denom == 0 {
            return Ok(amt_after_fee);
        }
        if self.fee_num > self.fee_denom {
            return Err(PoolError::OutOfBoundFee);
        }
        if self.fee_num == self.fee_denom {
            return Err(PoolError::MathError);
        }
        proof {
            lemma_mul_inequality(amt_after_fee as int, u64::MAX as int, self.fee_denom as int);
            lemma_mul_inequality(self.fee_denom as int, u64::MAX as int, u64::MAX as int);
        }
        let y: u128 = amt_after_fee as u128;
        let dy: u128 = y * (self.fee_denom as u128);
        let d_minus_n: u128 = (self.fee_denom - self.fee_num) as u128;
        let q: u128 = dy / d_minus_n;
        if q > u64::MAX as u128 {
            Err(PoolError::MathError)
        } else {
            Ok(q as u64)
        }
    }

    /// A fee ratio is valid exactly when it is at most one.
    pub fn is_valid(&self) -> (res: bool)
        ensures
            res == (self.fee_num <= self.fee_denom),
    {
        self.fee_num <= self.fee_denom
    }
}

/// With a zero numerator or a zero denominator, both `apply` and
/// `pseudo_reverse` are identity functions: nothing is charged and nothing
/// is reconstructed.
pub proof fn lemma_noop_fee_is_identity(fee: U64FeeFloor, amt: u64)
    requires
        fee.fee_num == 0 || fee.fee_denom == 0,
    ensures
        fee_apply_res(fee, amt) == Ok::<AmtsAfterFee, PoolError>(
            AmtsAfterFee { amt_after_fee: amt, fees_charged: 0 },
        ),
        fee_pseudo_reverse_res(fee, amt) == Ok::<u64, PoolError>(amt),
{
}

/// A fee above one is rejected by both `apply` and `pseudo_reverse` with
/// `OutOfBoundFee`, as long as the zero-denominator no-op shortcut does not
/// apply first.
pub proof fn lemma_out_of_bound_fee_rejected(fee: U64FeeFloor, amt: u64)
    requires
        fee.fee_num > fee.fee_denom,
        fee.fee_denom > 0,
    ensures
        fee_apply_res(fee, amt) == Err::<AmtsAfterFee, PoolError>(PoolError::OutOfBoundFee),
        fee_pseudo_reverse_res(fee, amt) == Err::<u64, PoolError>(PoolError::OutOfBoundFee),
{
}

/// The core round-trip fact: for `0 < n < d`, flooring `y * d / (d - n)` and
/// then charging the fee on the result gives back exactly `y`.
proof fn lemma_reverse_then_apply_exact(y: u64, n: u64, d: u64)
    requires
        0 < n < d,
    ensures
        ({
            let q = (y * d) / ((d - n) as int);
            q - (q * n) / (d as int) == y
        }),
{
    let m = (d - n) as int;
    let q = (y * d) / m;
    let r = (y * d) % m;
    lemma_fundamental_div_mod(y * d, m);
    assert(y * d == q * m + r);
    assert(y * d >= 0) by (nonlinear_arith);
    assert(0 <= r < m);
    assert(q >= 0) by {
        if q < 0 {
            assert(q * m <= -m) by (nonlinear_arith)
                requires
                    q <= -1,
                    m > 0,
            ;
        }
    }
    // q is at least y: dividing y*d by the smaller m cannot fall below y*d/d.
    lemma_div_is_ordered_by_denominator(y * d, m, d as int);
    vstd::arithmetic::div_mod::lemma_div_multiples_vanish(y as int, d as int);
    assert(y * d == d * y) by (nonlinear_arith);
    assert(q >= y);
    // q*n laid out as a multiple of d plus a small remainder.
    lemma_mul_is_distributive_sub_other_way(q, d as int, m);
    assert(q * (d as int) - q * m == q * ((d as int) - m));
    assert((d as int) - m == n as int);
    assert(q * n == q * d - q * m);
    assert(q * d - (y * d - r) == (q - y) * d + r) by (nonlinear_arith);
    assert(q * n == (q - y) * d + r);
    lemma_fundamental_div_mod_converse(q * n, d as int, q - y, r);
    assert((q * n) / (d as int) == q - y);
}

/// Round-trip idempotence under floor rounding: applying a valid fee, running
/// the pseudo-reverse on the kept amount, and applying the fee once more
/// keeps exactly the same amount after fee, whenever the pseudo-reverse
/// succeeds.
pub proof fn lemma_fee_apply_round_trip(fee: U64FeeFloor, amt: u64)
    requires
        fee.fee_num <= fee.fee_denom,
    ensures
        fee_apply_res(fee, amt) is Ok,
        ({
            let aaf = fee_apply_res(fee, amt)->Ok_0.amt_after_fee;
            fee_pseudo_reverse_res(fee, aaf) matches Ok(rev) ==> {
                &&& fee_apply_res(fee, rev) is Ok
                &&& fee_apply_res(fee, rev)->Ok_0.amt_after_fee == aaf
            }
        }),
{
    let n = fee.fee_num;
    let d = fee.fee_denom;
    if fee_is_noop(fee) {
        return ;
    }
    lemma_ratio_floor_le_amt(amt, n, d);
    let aaf = fee_apply_res(fee, amt)->Ok_0.amt_after_fee;
    if n == d {
        return ;
    }
    if fee_pseudo_reverse_res(fee, aaf) is Ok {
        let rev = fee_pseudo_reverse_res(fee, aaf)->Ok_0;
        let q = (aaf * d) / ((d - n) as int);
        assert(rev == q);
        lemma_reverse_then_apply_exact(aaf, n, d);
        lemma_ratio_floor_le_amt(rev, n, d);
        assert(fee_apply_res(fee, rev)->Ok_0.amt_after_fee == q - (q * n) / (d as int));
    }
}

} // verus!
