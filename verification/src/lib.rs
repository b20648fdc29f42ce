//! Value-accounting core of a multi-asset liquidity pool for liquid-staking
//! tokens: fixed-point fee and ratio arithmetic, the pool and asset-registry
//! state model, per-asset value calculators, flat-fee pricing, and the
//! operation state machine that validates and applies pool operations.
use vstd::prelude::*;

pub mod accounts;
pub mod calculator;
pub mod instructions;
pub mod pool;
pub mod pricing;
pub mod u64_fee_floor;
pub mod u64_ratio_floor;

verus! {

/// The identity of an account or authority, as 32 bytes split into four
/// little-endian words. The core only ever compares identities for equality.
#[derive(Clone, Copy, Debug, PartialEq, Eq, Structural)]
pub struct AccountId {
    pub w0: u64,
    pub w1: u64,
    pub w2: u64,
    pub w3: u64,
}

/// Every failure an operation can report. Any error aborts the whole
/// operation; callers observe exactly one of these kinds.
#[derive(Clone, Copy, Debug, PartialEq, Eq, Structural)]
pub enum PoolError {
    /// A stored record is malformed.
    InvalidRecordData,
    /// A declared account does not match the expected derived identity.
    IncorrectAccountIdentity,
    /// A required signer or writable flag is absent.
    MissingPrivilege,
    /// Checked arithmetic overflowed or underflowed.
    MathError,
    /// A fee ratio or basis-point fee is outside its allowed range.
    OutOfBoundFee,
    /// An unregistered or input-disabled asset was referenced.
    UnsupportedAsset,
    /// The operation is incompatible with the current rebalance state.
    StateConflict,
    /// The signer lacks the required role.
    Unauthorized,
    /// A value calculator's cached version marker is out of date.
    Staleness,
}

} // verus!
