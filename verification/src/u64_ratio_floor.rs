//! Floor-division ratio arithmetic on `u64` amounts, computed through a wide
//! `u128` intermediate so the product can never wrap.
use vstd::arithmetic::div_mod::{lemma_div_is_ordered, lemma_div_multiples_vanish};
use vstd::arithmetic::mul::{lemma_mul_inequality, lemma_mul_upper_bound};
use vstd::prelude::*;

use crate::PoolError;

verus! {

/// A ratio applied by flooring: `apply(amt) == floor(amt * num / denom)`.
#[derive(Clone, Copy, Debug, Default, PartialEq, Eq, Structural)]
pub struct U64RatioFloor {
    pub num: u64,
    pub denom: u64,
}

/// `floor(amt * num / denom)`, as an unbounded integer.
pub open spec fn ratio_floor(amt: u64, num: u64, denom: u64) -> int
    recommends
        denom > 0,
{
    (amt * num) / (denom as int)
}

/// What `U64RatioFloor::apply` returns: an error on a zero denominator or
/// when the floored product does not fit in a `u64`.
pub open spec fn ratio_apply_res(r: U64RatioFloor, amt: u64) -> Result<u64, PoolError> {
    if r.denom == 0 {
        Err(PoolError::MathError)
    } else if ratio_floor(amt, r.num, r.denom) > u64::MAX {
        Err(PoolError::MathError)
    } else {
        Ok(ratio_floor(amt, r.num, r.denom) as u64)
    }
}

/// What `U64RatioFloor::pseudo_reverse` returns: `floor(value * denom / num)`,
/// an error on a zero numerator or when the result does not fit in a `u64`.
pub open spec fn ratio_pseudo_reverse_res(r: U64RatioFloor, value: u64) -> Result<u64, PoolError> {
    if r.num == 0 {
        Err(PoolError::MathError)
    } else if ratio_floor(value, r.denom, r.num) > u64::MAX {
        Err(PoolError::MathError)
    } else {
        Ok(ratio_floor(value, r.denom, r.num) as u64)
    }
}

/// The floored ratio of `amt` never exceeds `amt` while `num <= denom`.
pub proof fn lemma_ratio_floor_le_amt(amt: u64, num: u64, denom: u64)
    requires
        num <= denom,
        denom > 0,
    ensures
        0 <= ratio_floor(amt, num, denom) <= amt,
{
    lemma_mul_inequality(num as int, denom as int, amt as int);
    assert(amt * num == num * amt) by (nonlinear_arith);
    assert(amt * denom == denom * amt) by (nonlinear_arith);
    lemma_div_is_ordered(amt * num, amt * denom, denom as int);
    lemma_div_multiples_vanish(amt as int, denom as int);
    assert(amt * num >= 0) by (nonlinear_arith);
}

impl U64RatioFloor {
    /// Computes `floor(amt * num / denom)`, reporting `MathError` when
    /// `denom == 0` or when the result overflows a `u64`.
    pub fn apply(&self, amt: u64) -> (res: Result<u64, PoolError>)
        ensures
            res == ratio_apply_res(*self, amt),
    {
        if self.denom == 0 {
            return Err(PoolError::MathError);
        }
        proof {
            lemma_mul_upper_bound(amt as int, u64::MAX as int, self.num as int, u64::MAX as int);
        }
        let prod: u128 = (amt as u128) * (self.num as u128);
        let q: u128 = prod / (self.denom as u128);
        if q > u64::MAX as u128 {
            Err(PoolError::MathError)
        } else {
            Ok(q as u64)
        }
    }

    /// Computes `floor(value * denom / num)`, a possible amount that
    /// `apply` would have floored down to `value`; reports `MathError` when
    /// `num == 0` or when the result overflows a `u64`.
    pub fn pseudo_reverse(&self, value: u64) -> (res: Result<u64, PoolError>)
        ensures
            res == ratio_pseudo_reverse_res(*self, value),
    {
        if self.num == 0 {
            return Err(PoolError::MathError);
        }
        proof {
            lemma_mul_upper_bound(value as int, u64::MAX as int, self.denom as int, u64::MAX as int);
        }
        let prod: u128 = (value as u128) * (self.denom as u128);
        let q: u128 = prod / (self.num as u128);
        if q > u64::MAX as u128 {
            Err(PoolError::MathError)
        } else {
            Ok(q as u64)
        }
    }
}

} // verus!
