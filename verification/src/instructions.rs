//! Wire codec for the pricing operations: a one-byte discriminant followed by
//! the two argument fields as little-endian bytes. Unknown discriminants are
//! rejected, never ignored.
use vstd::bytes::{
    lemma_auto_spec_u64_to_from_le_bytes, spec_u64_from_le_bytes, spec_u64_to_le_bytes,
    u64_from_le_bytes, u64_to_le_bytes,
};
use vstd::prelude::*;
use vstd::slice::{slice_index_get, slice_subrange};

use crate::PoolError;

verus! {

pub const PRICE_EXACT_IN_IX_DISCM: u8 = 0;

pub const PRICE_EXACT_OUT_IX_DISCM: u8 = 1;

pub const PRICE_LP_TOKENS_TO_MINT_IX_DISCM: u8 = 2;

pub const PRICE_LP_TOKENS_TO_REDEEM_IX_DISCM: u8 = 3;

/// The number of bytes every pricing operation encodes to: one discriminant
/// byte and two 8-byte fields.
pub const PRICING_IX_DATA_LEN: usize = 17;

#[derive(Clone, Copy, Debug, PartialEq, Eq, Structural)]
pub struct PriceExactInIxArgs {
    pub amount: u64,
    pub sol_value: u64,
}

#[derive(Clone, Copy, Debug, PartialEq, Eq, Structural)]
pub struct PriceExactOutIxArgs {
    pub amount: u64,
    pub sol_value: u64,
}

#[derive(Clone, Copy, Debug, PartialEq, Eq, Structural)]
pub struct PriceLpTokensToMintIxArgs {
    pub amount: u64,
    pub sol_value: u64,
}

#[derive(Clone, Copy, Debug, PartialEq, Eq, Structural)]
pub struct PriceLpTokensToRedeemIxArgs {
    pub amount: u64,
    pub sol_value: u64,
}

#[derive(Clone, Copy, Debug, PartialEq, Eq, Structural)]
pub struct PriceExactInIxData(pub PriceExactInIxArgs);

#[derive(Clone, Copy, Debug, PartialEq, Eq, Structural)]
pub struct PriceExactOutIxData(pub PriceExactOutIxArgs);

#[derive(Clone, Copy, Debug, PartialEq, Eq, Structural)]
pub struct PriceLpTokensToMintIxData(pub PriceLpTokensToMintIxArgs);

#[derive(Clone, Copy, Debug, PartialEq, Eq, Structural)]
pub struct PriceLpTokensToRedeemIxData(pub PriceLpTokensToRedeemIxArgs);

/// One decoded pricing operation, tagged by its wire discriminant.
#[derive(Clone, Copy, Debug, PartialEq, Eq, Structural)]
pub enum PricingProgramsProgramIx {
    PriceExactIn(PriceExactInIxArgs),
    PriceExactOut(PriceExactOutIxArgs),
    PriceLpTokensToMint(PriceLpTokensToMintIxArgs),
    PriceLpTokensToRedeem(PriceLpTokensToRedeemIxArgs),
}

/// The encoding shared by every pricing operation: the discriminant byte,
/// then `amount` and `sol_value` in little-endian order.
pub open spec fn spec_tagged_args_bytes(discm: u8, amount: u64, sol_value: u64) -> Seq<u8> {
    seq![discm] + spec_u64_to_le_bytes(amount) + spec_u64_to_le_bytes(sol_value)
}

/// The two fields read back from an encoded buffer, ignoring the
/// discriminant byte.
pub open spec fn spec_parsed_fields(b: Seq<u8>) -> (u64, u64)
    recommends
        b.len() >= PRICING_IX_DATA_LEN,
{
    (spec_u64_from_le_bytes(b.subrange(1, 9)), spec_u64_from_le_bytes(b.subrange(9, 17)))
}

/// The full encoding of one pricing operation.
pub open spec fn spec_pricing_ix_bytes(ix: PricingProgramsProgramIx) -> Seq<u8> {
    match ix {
        PricingProgramsProgramIx::PriceExactIn(a) => spec_tagged_args_bytes(
            PRICE_EXACT_IN_IX_DISCM,
            a.amount,
            a.sol_value,
        ),
        PricingProgramsProgramIx::PriceExactOut(a) => spec_tagged_args_bytes(
            PRICE_EXACT_OUT_IX_DISCM,
            a.amount,
            a.sol_value,
        ),
        PricingProgramsProgramIx::PriceLpTokensToMint(a) => spec_tagged_args_bytes(
            PRICE_LP_TOKENS_TO_MINT_IX_DISCM,
            a.amount,
            a.sol_value,
        ),
        PricingProgramsProgramIx::PriceLpTokensToRedeem(a) => spec_tagged_args_bytes(
            PRICE_LP_TOKENS_TO_REDEEM_IX_DISCM,
            a.amount,
            a.sol_value,
        ),
    }
}

/// What decoding a buffer into a pricing operation yields: a decoded
/// operation for the four known discriminants, an error on a short buffer or
/// an unknown discriminant. Trailing bytes are tolerated.
pub open spec fn spec_parse_pricing_ix(b: Seq<u8>) -> Result<
    PricingProgramsProgramIx,
    PoolError,
> {
    if b.len() < PRICING_IX_DATA_LEN {
        Err(PoolError::InvalidRecordData)
    } else {
        let (amount, sol_value) = spec_parsed_fields(b);
        if b[0] == PRICE_EXACT_IN_IX_DISCM {
            Ok(PricingProgramsProgramIx::PriceExactIn(PriceExactInIxArgs { amount, sol_value }))
        } else if b[0] == PRICE_EXACT_OUT_IX_DISCM {
            Ok(PricingProgramsProgramIx::PriceExactOut(PriceExactOutIxArgs { amount, sol_value }))
        } else if b[0] == PRICE_LP_TOKENS_TO_MINT_IX_DISCM {
            Ok(
                PricingProgramsProgramIx::PriceLpTokensToMint(
                    PriceLpTokensToMintIxArgs { amount, sol_value },
                ),
            )
        } else if b[0] == PRICE_LP_TOKENS_TO_REDEEM_IX_DISCM {
            Ok(
                PricingProgramsProgramIx::PriceLpTokensToRedeem(
                    PriceLpTokensToRedeemIxArgs { amount, sol_value },
                ),
            )
        } else {
            Err(PoolError::InvalidRecordData)
        }
    }
}

/// Appends the little-endian bytes of `x` to `out`.
fn write_u64_le(out: &mut Vec<u8>, x: u64)
    ensures
        final(out)@ == old(out)@ + spec_u64_to_le_bytes(x),
{
    let mut b = u64_to_le_bytes(x);
    out.append(&mut b);
}

/// Reads the two argument fields that follow the discriminant byte.
fn read_fields(buf: &[u8]) -> (r: (u64, u64))
    requires
        buf@.len() >= PRICING_IX_DATA_LEN,
    ensures
        r == spec_parsed_fields(buf@),
{
    let amount = u64_from_le_bytes(slice_subrange(buf, 1, 9));
    let sol_value = u64_from_le_bytes(slice_subrange(buf, 9, 17));
    (amount, sol_value)
}

/// Appends the shared tagged encoding to `out`.
fn write_tagged_args(out: &mut Vec<u8>, discm: u8, amount: u64, sol_value: u64)
    ensures
        final(out)@ == old(out)@ + spec_tagged_args_bytes(discm, amount, sol_value),
{
    out.push(discm);
    write_u64_le(out, amount);
    write_u64_le(out, sol_value);
    proof {
        assert(out@ =~= old(out)@ + spec_tagged_args_bytes(discm, amount, sol_value));
    }
}

impl PricingProgramsProgramIx {
    /// Decodes one pricing operation, rejecting short buffers and unknown
    /// discriminants.
    pub fn deserialize(buf: &[u8]) -> (res: Result<Self, PoolError>)
        ensures
            res == spec_parse_pricing_ix(buf@),
    {
        if buf.len() < PRICING_IX_DATA_LEN {
            return Err(PoolError::InvalidRecordData);
        }
        let discm = *slice_index_get(buf, 0);
        let (amount, sol_value) = read_fields(buf);
        if discm == PRICE_EXACT_IN_IX_DISCM {
            Ok(Self::PriceExactIn(PriceExactInIxArgs { amount, sol_value }))
        } else if discm == PRICE_EXACT_OUT_IX_DISCM {
            Ok(Self::PriceExactOut(PriceExactOutIxArgs { amount, sol_value }))
        } else if discm == PRICE_LP_TOKENS_TO_MINT_IX_DISCM {
            Ok(Self::PriceLpTokensToMint(PriceLpTokensToMintIxArgs { amount, sol_value }))
        } else if discm == PRICE_LP_TOKENS_TO_REDEEM_IX_DISCM {
            Ok(Self::PriceLpTokensToRedeem(PriceLpTokensToRedeemIxArgs { amount, sol_value }))
        } else {
            Err(PoolError::InvalidRecordData)
        }
    }

    /// Appends this operation's encoding to `writer`.
    pub fn serialize(&self, writer: &mut Vec<u8>)
        ensures
            final(writer)@ == old(writer)@ + spec_pricing_ix_bytes(*self),
    {
        match self {
            Self::PriceExactIn(args) => write_tagged_args(
                writer,
                PRICE_EXACT_IN_IX_DISCM,
                args.amount,
                args.sol_value,
            ),
            Self::PriceExactOut(args) => write_tagged_args(
                writer,
                PRICE_EXACT_OUT_IX_DISCM,
                args.amount,
                args.sol_value,
            ),
            Self::PriceLpTokensToMint(args) => write_tagged_args(
                writer,
                PRICE_LP_TOKENS_TO_MINT_IX_DISCM,
                args.amount,
                args.sol_value,
            ),
            Self::PriceLpTokensToRedeem(args) => write_tagged_args(
                writer,
                PRICE_LP_TOKENS_TO_REDEEM_IX_DISCM,
                args.amount,
                args.sol_value,
            ),
        }
    }

    /// This operation's encoding as a fresh byte vector.
    pub fn try_to_vec(&self) -> (res: Vec<u8>)
        ensures
            res@ == spec_pricing_ix_bytes(*self),
    {
        let mut data: Vec<u8> = Vec::new();
        self.serialize(&mut data);
        data
    }
}

impl PriceExactInIxData {
    /// Decodes the exact-in quote operation, rejecting any other
    /// discriminant.
    pub fn deserialize(buf: &[u8]) -> (res: Result<Self, PoolError>)
        ensures
            res is Ok <==> buf@.len() >= PRICING_IX_DATA_LEN && buf@[0]
                == PRICE_EXACT_IN_IX_DISCM,
            res matches Ok(d) ==> d == PriceExactInIxData(
                PriceExactInIxArgs {
                    amount: spec_parsed_fields(buf@).0,
                    sol_value: spec_parsed_fields(buf@).1,
                },
            ),
    {
        if buf.len() < PRICING_IX_DATA_LEN {
            return Err(PoolError::InvalidRecordData);
        }
        if *slice_index_get(buf, 0) != PRICE_EXACT_IN_IX_DISCM {
            return Err(PoolError::InvalidRecordData);
        }
        let (amount, sol_value) = read_fields(buf);
        Ok(PriceExactInIxData(PriceExactInIxArgs { amount, sol_value }))
    }

    /// Appends this operation's encoding to `writer`.
    pub fn serialize(&self, writer: &mut Vec<u8>)
        ensures
            final(writer)@ == old(writer)@ + spec_tagged_args_bytes(
                PRICE_EXACT_IN_IX_DISCM,
                self.0.amount,
                self.0.sol_value,
            ),
    {
        write_tagged_args(writer, PRICE_EXACT_IN_IX_DISCM, self.0.amount, self.0.sol_value);
    }

    /// This operation's encoding as a fresh byte vector.
    pub fn try_to_vec(&self) -> (res: Vec<u8>)
        ensures
            res@ == spec_tagged_args_bytes(
                PRICE_EXACT_IN_IX_DISCM,
                self.0.amount,
                self.0.sol_value,
            ),
    {
        let mut data: Vec<u8> = Vec::new();
        self.serialize(&mut data);
        data
    }
}

impl PriceExactOutIxData {
    /// Decodes the exact-out quote operation, rejecting any other
    /// discriminant.
    pub fn deserialize(buf: &[u8]) -> (res: Result<Self, PoolError>)
        ensures
            res is Ok <==> buf@.len() >= PRICING_IX_DATA_LEN && buf@[0]
                == PRICE_EXACT_OUT_IX_DISCM,
            res matches Ok(d) ==> d == PriceExactOutIxData(
                PriceExactOutIxArgs {
                    amount: spec_parsed_fields(buf@).0,
                    sol_value: spec_parsed_fields(buf@).1,
                },
            ),
    {
        if buf.len() < PRICING_IX_DATA_LEN {
            return Err(PoolError::InvalidRecordData);
        }
        if *slice_index_get(buf, 0) != PRICE_EXACT_OUT_IX_DISCM {
            return Err(PoolError::InvalidRecordData);
        }
        let (amount, sol_value) = read_fields(buf);
        Ok(PriceExactOutIxData(PriceExactOutIxArgs { amount, sol_value }))
    }

    /// Appends this operation's encoding to `writer`.
    pub fn serialize(&self, writer: &mut Vec<u8>)
        ensures
            final(writer)@ == old(writer)@ + spec_tagged_args_bytes(
                PRICE_EXACT_OUT_IX_DISCM,
                self.0.amount,
                self.0.sol_value,
            ),
    {
        write_tagged_args(writer, PRICE_EXACT_OUT_IX_DISCM, self.0.amount, self.0.sol_value);
    }

    /// This operation's encoding as a fresh byte vector.
    pub fn try_to_vec(&self) -> (res: Vec<u8>)
        ensures
            res@ == spec_tagged_args_bytes(
                PRICE_EXACT_OUT_IX_DISCM,
                self.0.amount,
                self.0.sol_value,
            ),
    {
        let mut data: Vec<u8> = Vec::new();
        self.serialize(&mut data);
        data
    }
}

impl PriceLpTokensToMintIxData {
    /// Decodes the liquidity-token mint quote operation, rejecting any other
    /// discriminant.
    pub fn deserialize(buf: &[u8]) -> (res: Result<Self, PoolError>)
        ensures
            res is Ok <==> buf@.len() >= PRICING_IX_DATA_LEN && buf@[0]
                == PRICE_LP_TOKENS_TO_MINT_IX_DISCM,
            res matches Ok(d) ==> d == PriceLpTokensToMintIxData(
                PriceLpTokensToMintIxArgs {
                    amount: spec_parsed_fields(buf@).0,
                    sol_value: spec_parsed_fields(buf@).1,
                },
            ),
    {
        if buf.len() < PRICING_IX_DATA_LEN {
            return Err(PoolError::InvalidRecordData);
        }
        if *slice_index_get(buf, 0) != PRICE_LP_TOKENS_TO_MINT_IX_DISCM {
            return Err(PoolError::InvalidRecordData);
        }
        let (amount, sol_value) = read_fields(buf);
        Ok(PriceLpTokensToMintIxData(PriceLpTokensToMintIxArgs { amount, sol_value }))
    }

    /// Appends this operation's encoding to `writer`.
    pub fn serialize(&self, writer: &mut Vec<u8>)
        ensures
            final(writer)@ == old(writer)@ + spec_tagged_args_bytes(
                PRICE_LP_TOKENS_TO_MINT_IX_DISCM,
                self.0.amount,
                self.0.sol_value,
            ),
    {
        write_tagged_args(
            writer,
            PRICE_LP_TOKENS_TO_MINT_IX_DISCM,
            self.0.amount,
            self.0.sol_value,
        );
    }

    /// This operation's encoding as a fresh byte vector.
    pub fn try_to_vec(&self) -> (res: Vec<u8>)
        ensures
            res@ == spec_tagged_args_bytes(
                PRICE_LP_TOKENS_TO_MINT_IX_DISCM,
                self.0.amount,
                self.0.sol_value,
            ),
    {
        let mut data: Vec<u8> = Vec::new();
        self.serialize(&mut data);
        data
    }
}

impl PriceLpTokensToRedeemIxData {
    /// Decodes the liquidity-token redeem quote operation, rejecting any
    /// other discriminant.
    pub fn deserialize(buf: &[u8]) -> (res: Result<Self, PoolError>)
        ensures
            res is Ok <==> buf@.len() >= PRICING_IX_DATA_LEN && buf@[0]
                == PRICE_LP_TOKENS_TO_REDEEM_IX_DISCM,
            res matches Ok(d) ==> d == PriceLpTokensToRedeemIxData(
                PriceLpTokensToRedeemIxArgs {
                    amount: spec_parsed_fields(buf@).0,
                    sol_value: spec_parsed_fields(buf@).1,
                },
            ),
    {
        if buf.len() < PRICING_IX_DATA_LEN {
            return Err(PoolError::InvalidRecordData);
        }
        if *slice_index_get(buf, 0) != PRICE_LP_TOKENS_TO_REDEEM_IX_DISCM {
            return Err(PoolError::InvalidRecordData);
        }
        let (amount, sol_value) = read_fields(buf);
        Ok(PriceLpTokensToRedeemIxData(PriceLpTokensToRedeemIxArgs { amount, sol_value }))
    }

    /// Appends this operation's encoding to `writer`.
    pub fn serialize(&self, writer: &mut Vec<u8>)
        ensures
            final(writer)@ == old(writer)@ + spec_tagged_args_bytes(
                PRICE_LP_TOKENS_TO_REDEEM_IX_DISCM,
                self.0.amount,
                self.0.sol_value,
            ),
    {
        write_tagged_args(
            writer,
            PRICE_LP_TOKENS_TO_REDEEM_IX_DISCM,
            self.0.amount,
            self.0.sol_value,
        );
    }

    /// This operation's encoding as a fresh byte vector.
    pub fn try_to_vec(&self) -> (res: Vec<u8>)
        ensures
            res@ == spec_tagged_args_bytes(
                PRICE_LP_TOKENS_TO_REDEEM_IX_DISCM,
                self.0.amount,
                self.0.sol_value,
            ),
    {
        let mut data: Vec<u8> = Vec::new();
        self.serialize(&mut data);
        data
    }
}

/// The tagged encoding is always 17 bytes, opens with its discriminant, and
/// parses back to exactly the fields that were written.
pub proof fn lemma_tagged_args_round_trip(discm: u8, amount: u64, sol_value: u64)
    ensures
        ({
            let b = spec_tagged_args_bytes(discm, amount, sol_value);
            &&& b.len() == PRICING_IX_DATA_LEN
            &&& b[0] == discm
            &&& spec_parsed_fields(b) == (amount, sol_value)
        }),
{
    lemma_auto_spec_u64_to_from_le_bytes();
    let b = spec_tagged_args_bytes(discm, amount, sol_value);
    assert(b.subrange(1, 9) =~= spec_u64_to_le_bytes(amount));
    assert(b.subrange(9, 17) =~= spec_u64_to_le_bytes(sol_value));
}

/// Encoding any pricing operation and decoding the bytes gives back the same
/// operation.
pub proof fn lemma_pricing_ix_round_trip(ix: PricingProgramsProgramIx)
    ensures
        spec_pricing_ix_bytes(ix).len() == PRICING_IX_DATA_LEN,
        spec_parse_pricing_ix(spec_pricing_ix_bytes(ix)) == Ok::<
            PricingProgramsProgramIx,
            PoolError,
        >(ix),
{
    match ix {
        PricingProgramsProgramIx::PriceExactIn(a) => lemma_tagged_args_round_trip(
            PRICE_EXACT_IN_IX_DISCM,
            a.amount,
            a.sol_value,
        ),
        PricingProgramsProgramIx::PriceExactOut(a) => lemma_tagged_args_round_trip(
            PRICE_EXACT_OUT_IX_DISCM,
            a.amount,
            a.sol_value,
        ),
        PricingProgramsProgramIx::PriceLpTokensToMint(a) => lemma_tagged_args_round_trip(
            PRICE_LP_TOKENS_TO_MINT_IX_DISCM,
            a.amount,
            a.sol_value,
        ),
        PricingProgramsProgramIx::PriceLpTokensToRedeem(a) => lemma_tagged_args_round_trip(
            PRICE_LP_TOKENS_TO_REDEEM_IX_DISCM,
            a.amount,
            a.sol_value,
        ),
    }
}

/// Decoding a valid buffer and re-encoding the operation reproduces the
/// first 17 bytes of the buffer: the codec keeps the wire form unique.
pub proof fn lemma_pricing_ix_reserialize(b: Seq<u8>)
    requires
        spec_parse_pricing_ix(b) is Ok,
    ensures
        spec_pricing_ix_bytes(spec_parse_pricing_ix(b)->Ok_0) == b.subrange(
            0,
            PRICING_IX_DATA_LEN as int,
        ),
{
    lemma_auto_spec_u64_to_from_le_bytes();
    let ix = spec_parse_pricing_ix(b)->Ok_0;
    assert(spec_u64_to_le_bytes(spec_u64_from_le_bytes(b.subrange(1, 9))) == b.subrange(1, 9));
    assert(spec_u64_to_le_bytes(spec_u64_from_le_bytes(b.subrange(9, 17))) == b.subrange(9, 17));
    assert(spec_pricing_ix_bytes(ix) =~= b.subrange(0, PRICING_IX_DATA_LEN as int));
}

} // verus!
