//! Flat-fee pricing: fee-adjusted quotes between two assets' common-unit
//! values, and the one-sided quotes used when liquidity tokens are minted or
//! redeemed. Amounts here are already common-unit values; this module never
//! touches native-unit conversion.
use vstd::prelude::*;

use crate::instructions::PricingProgramsProgramIx;
use crate::u64_fee_floor::{fee_apply_res, U64FeeFloor};
use crate::u64_ratio_floor::{ratio_apply_res, ratio_pseudo_reverse_res, U64RatioFloor};

verus! {

/// One whole, in basis points.
pub const BPS_DENOMINATOR_I16: i16 = 10_000;

/// One whole, in basis points, as the unsigned bound.
pub const BPS_DENOMINATOR_U16: u16 = 10_000;

/// Every failure the flat-fee pricing module can report.
#[derive(Clone, Copy, Debug, PartialEq, Eq, Structural)]
pub enum FlatFeeError {
    /// The pricing module's stored state is malformed.
    InvalidProgramStateData,
    /// The wrong pricing-state record was supplied.
    IncorrectProgramState,
    /// No fee record is configured for the given asset mint.
    UnsupportedLstMint,
    /// A signed basis-point fee lies outside the allowed range.
    SignedFeeOutOfBound,
    /// An unsigned basis-point fee lies outside the allowed range.
    UnsignedFeeOutOfBound,
    /// Checked arithmetic overflowed or underflowed.
    MathError,
}

impl FlatFeeError {
    /// The stable numeric code of this error kind on the wire.
    pub open spec fn spec_code(&self) -> u32 {
        match *self {
            FlatFeeError::InvalidProgramStateData => 0,
            FlatFeeError::IncorrectProgramState => 1,
            FlatFeeError::UnsupportedLstMint => 2,
            FlatFeeError::SignedFeeOutOfBound => 3,
            FlatFeeError::UnsignedFeeOutOfBound => 4,
            FlatFeeError::MathError => 5,
        }
    }

    /// Returns the stable numeric code of this error kind.
    pub fn code(&self) -> (c: u32)
        ensures
            c == self.spec_code(),
    {
        match *self {
            FlatFeeError::InvalidProgramStateData => 0,
            FlatFeeError::IncorrectProgramState => 1,
            FlatFeeError::UnsupportedLstMint => 2,
            FlatFeeError::SignedFeeOutOfBound => 3,
            FlatFeeError::UnsignedFeeOutOfBound => 4,
            FlatFeeError::MathError => 5,
        }
    }
}

/// A signed per-asset fee may discount as well as charge: one whole in
/// either direction.
pub open spec fn signed_fee_bps_in_bound(bps: i16) -> bool {
    -BPS_DENOMINATOR_I16 <= bps <= BPS_DENOMINATOR_I16
}

/// An unsigned fee may take at most one whole.
pub open spec fn unsigned_fee_bps_in_bound(bps: u16) -> bool {
    bps <= BPS_DENOMINATOR_U16
}

/// Rejects a signed basis-point fee outside its allowed range. Fee bounds
/// are checked here, at configuration time, so quoting never fails on range.
pub fn validate_signed_fee_bps(bps: i16) -> (res: Result<(), FlatFeeError>)
    ensures
        res is Ok <==> signed_fee_bps_in_bound(bps),
        res is Err ==> res == Err::<(), FlatFeeError>(FlatFeeError::SignedFeeOutOfBound),
{
    if -BPS_DENOMINATOR_I16 <= bps && bps <= BPS_DENOMINATOR_I16 {
        Ok(())
    } else {
        Err(FlatFeeError::SignedFeeOutOfBound)
    }
}

/// Rejects an unsigned basis-point fee outside its allowed range.
pub fn validate_unsigned_fee_bps(bps: u16) -> (res: Result<(), FlatFeeError>)
    ensures
        res is Ok <==> unsigned_fee_bps_in_bound(bps),
        res is Err ==> res == Err::<(), FlatFeeError>(FlatFeeError::UnsignedFeeOutOfBound),
{
    if bps <= BPS_DENOMINATOR_U16 {
        Ok(())
    } else {
        Err(FlatFeeError::UnsignedFeeOutOfBound)
    }
}

/// The basis points kept by a quote once the input asset's input-side fee
/// and the output asset's output-side fee are both charged.
pub open spec fn spec_post_fee_bps(input_fee_bps: i16, output_fee_bps: i16) -> int {
    BPS_DENOMINATOR_I16 - input_fee_bps - output_fee_bps
}

/// What `price_exact_in` returns for every allowed input.
pub open spec fn price_exact_in_res(input_fee_bps: i16, output_fee_bps: i16, sol_value: u64)
    -> Result<u64, FlatFeeError> {
    let post = spec_post_fee_bps(input_fee_bps, output_fee_bps);
    if post < 0 {
        Err(FlatFeeError::MathError)
    } else {
        match ratio_apply_res(
            U64RatioFloor { num: post as u64, denom: BPS_DENOMINATOR_U16 as u64 },
            sol_value,
        ) {
            Ok(v) => Ok(v),
            Err(_) => Err(FlatFeeError::MathError),
        }
    }
}

/// What `price_exact_out` returns for every allowed input.
pub open spec fn price_exact_out_res(input_fee_bps: i16, output_fee_bps: i16, sol_value: u64)
    -> Result<u64, FlatFeeError> {
    let post = spec_post_fee_bps(input_fee_bps, output_fee_bps);
    if post < 0 {
        Err(FlatFeeError::MathError)
    } else {
        match ratio_pseudo_reverse_res(
            U64RatioFloor { num: post as u64, denom: BPS_DENOMINATOR_U16 as u64 },
            sol_value,
        ) {
            Ok(v) => Ok(v),
            Err(_) => Err(FlatFeeError::MathError),
        }
    }
}

/// Quotes an exchange for an exact input value: charges the input asset's
/// input-side fee plus the output asset's output-side fee on `sol_value`,
/// flooring the kept part. A combined fee above one whole, or an overflowing
/// result under a negative (premium) fee, reports `MathError`.
pub fn price_exact_in(input_fee_bps: i16, output_fee_bps: i16, sol_value: u64) -> (res: Result<
    u64,
    FlatFeeError,
>)
    requires
        signed_fee_bps_in_bound(input_fee_bps),
        signed_fee_bps_in_bound(output_fee_bps),
    ensures
        res == price_exact_in_res(input_fee_bps, output_fee_bps, sol_value),
{
    let fee_total: i32 = input_fee_bps as i32 + output_fee_bps as i32;
    let post: i32 = BPS_DENOMINATOR_I16 as i32 - fee_total;
    if post < 0 {
        return Err(FlatFeeError::MathError);
    }
    let ratio = U64RatioFloor { num: post as u64, denom: BPS_DENOMINATOR_U16 as u64 };
    match ratio.apply(sol_value) {
        Ok(v) => Ok(v),
        Err(_) => Err(FlatFeeError::MathError),
    }
}

/// Quotes an exchange for an exact output value: the value that must be put
/// in so that charging both sides' fees floors down to at most `sol_value`.
/// A combined fee of one whole or more cannot be reversed and reports
/// `MathError`, as does an overflowing result.
pub fn price_exact_out(input_fee_bps: i16, output_fee_bps: i16, sol_value: u64) -> (res: Result<
    u64,
    FlatFeeError,
>)
    requires
        signed_fee_bps_in_bound(input_fee_bps),
        signed_fee_bps_in_bound(output_fee_bps),
    ensures
        res == price_exact_out_res(input_fee_bps, output_fee_bps, sol_value),
{
    let fee_total: i32 = input_fee_bps as i32 + output_fee_bps as i32;
    let post: i32 = BPS_DENOMINATOR_I16 as i32 - fee_total;
    if post < 0 {
        return Err(FlatFeeError::MathError);
    }
    let ratio = U64RatioFloor { num: post as u64, denom: BPS_DENOMINATOR_U16 as u64 };
    match ratio.pseudo_reverse(sol_value) {
        Ok(v) => Ok(v),
        Err(_) => Err(FlatFeeError::MathError),
    }
}

/// Quotes minting liquidity tokens for a deposit worth `sol_value`: no fee
/// is charged on the way in, so the value passes through unchanged.
pub fn price_lp_tokens_to_mint(sol_value: u64) -> (res: Result<u64, FlatFeeError>)
    ensures
        res == Ok::<u64, FlatFeeError>(sol_value),
{
    Ok(sol_value)
}

/// What `price_lp_tokens_to_redeem` returns for every allowed input.
pub open spec fn price_lp_tokens_to_redeem_res(lp_withdrawal_fee_bps: u16, sol_value: u64)
    -> Result<u64, FlatFeeError>
    recommends
        unsigned_fee_bps_in_bound(lp_withdrawal_fee_bps),
{
    let fee = U64FeeFloor {
        fee_num: lp_withdrawal_fee_bps as u64,
        fee_denom: BPS_DENOMINATOR_U16 as u64,
    };
    match fee_apply_res(fee, sol_value) {
        Ok(a) => Ok(a.amt_after_fee),
        Err(_) => Err(FlatFeeError::MathError),
    }
}

/// Quotes redeeming liquidity tokens worth `sol_value`: charges the
/// configured withdrawal fee by flooring, and returns the value kept by the
/// withdrawer. Never fails for a fee within its bound.
pub fn price_lp_tokens_to_redeem(lp_withdrawal_fee_bps: u16, sol_value: u64) -> (res: Result<
    u64,
    FlatFeeError,
>)
    requires
        unsigned_fee_bps_in_bound(lp_withdrawal_fee_bps),
    ensures
        res == price_lp_tokens_to_redeem_res(lp_withdrawal_fee_bps, sol_value),
        res is Ok,
{
    let fee = U64FeeFloor {
        fee_num: lp_withdrawal_fee_bps as u64,
        fee_denom: BPS_DENOMINATOR_U16 as u64,
    };
    match fee.apply(sol_value) {
        Ok(a) => Ok(a.amt_after_fee),
        Err(_) => Err(FlatFeeError::MathError),
    }
}

/// Dispatches one decoded pricing operation to its quote: exchanges use
/// the two assets' configured fees on the operation's `sol_value`,
/// liquidity-token quotes use the configured withdrawal fee. The returned
/// value is the quote in common units.
pub fn quote_pricing_ix(
    ix: &PricingProgramsProgramIx,
    input_fee_bps: i16,
    output_fee_bps: i16,
    lp_withdrawal_fee_bps: u16,
) -> (res: Result<u64, FlatFeeError>)
    requires
        signed_fee_bps_in_bound(input_fee_bps),
        signed_fee_bps_in_bound(output_fee_bps),
        unsigned_fee_bps_in_bound(lp_withdrawal_fee_bps),
    ensures
        res == match *ix {
            PricingProgramsProgramIx::PriceExactIn(a) => price_exact_in_res(
                input_fee_bps,
                output_fee_bps,
                a.sol_value,
            ),
            PricingProgramsProgramIx::PriceExactOut(a) => price_exact_out_res(
                input_fee_bps,
                output_fee_bps,
                a.sol_value,
            ),
            PricingProgramsProgramIx::PriceLpTokensToMint(a) => Ok(a.sol_value),
            PricingProgramsProgramIx::PriceLpTokensToRedeem(a) => price_lp_tokens_to_redeem_res(
                lp_withdrawal_fee_bps,
                a.sol_value,
            ),
        },
{
    match ix {
        PricingProgramsProgramIx::PriceExactIn(a) => price_exact_in(
            input_fee_bps,
            output_fee_bps,
            a.sol_value,
        ),
        PricingProgramsProgramIx::PriceExactOut(a) => price_exact_out(
            input_fee_bps,
            output_fee_bps,
            a.sol_value,
        ),
        PricingProgramsProgramIx::PriceLpTokensToMint(a) => price_lp_tokens_to_mint(a.sol_value),
        PricingProgramsProgramIx::PriceLpTokensToRedeem(a) => price_lp_tokens_to_redeem(
            lp_withdrawal_fee_bps,
            a.sol_value,
        ),
    }
}

} // verus!
