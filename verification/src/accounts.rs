//! Validation of declared accounts against the identities an operation
//! expects: every account's identity must match, and every required signer
//! or writable privilege must be present, before any state is touched.
use vstd::prelude::*;

use crate::{AccountId, PoolError};

verus! {

/// One account as the caller declared it: its identity and the privilege
/// flags it carried at call time.
#[derive(Clone, Copy, Debug, PartialEq, Eq, Structural)]
pub struct DeclaredAccount {
    pub key: AccountId,
    pub is_signer: bool,
    pub is_writable: bool,
}

/// One account as the operation expects it: the derived identity it must
/// have and the privileges it must carry.
#[derive(Clone, Copy, Debug, PartialEq, Eq, Structural)]
pub struct ExpectedAccount {
    pub key: AccountId,
    pub needs_signer: bool,
    pub needs_writable: bool,
}

/// All declared identities match the expected ones, position by position.
pub open spec fn all_keys_match(declared: Seq<DeclaredAccount>, expected: Seq<ExpectedAccount>)
    -> bool {
    forall|i: int| 0 <= i < declared.len() ==> (#[trigger] declared[i]).key == expected[i].key
}

/// One declared account carries every privilege expected of it.
pub open spec fn privileges_ok(d: DeclaredAccount, e: ExpectedAccount) -> bool {
    &&& e.needs_signer ==> d.is_signer
    &&& e.needs_writable ==> d.is_writable
}

/// Every declared account carries every privilege expected of it.
pub open spec fn all_privileges_ok(declared: Seq<DeclaredAccount>, expected: Seq<ExpectedAccount>)
    -> bool {
    forall|i: int| 0 <= i < declared.len() ==> privileges_ok(
        #[trigger] declared[i],
        expected[i],
    )
}

/// Checks each declared account's identity against the expected one, then
/// each required signer and writable flag. An identity mismatch anywhere is
/// reported before any missing privilege, as `IncorrectAccountIdentity`; a
/// missing privilege as `MissingPrivilege`.
pub fn validate_accounts(declared: &Vec<DeclaredAccount>, expected: &Vec<ExpectedAccount>) -> (res:
    Result<(), PoolError>)
    requires
        declared@.len() == expected@.len(),
    ensures
        res is Ok <==> all_keys_match(declared@, expected@) && all_privileges_ok(
            declared@,
            expected@,
        ),
        !all_keys_match(declared@, expected@) ==> res == Err::<(), PoolError>(
            PoolError::IncorrectAccountIdentity,
        ),
        all_keys_match(declared@, expected@) && !all_privileges_ok(declared@, expected@) ==> res
            == Err::<(), PoolError>(PoolError::MissingPrivilege),
{
    let n = declared.len();
    for i in 0..n
        invariant
            n == declared@.len() == expected@.len(),
            forall|j: int| 0 <= j < i ==> (#[trigger] declared@[j]).key == expected@[j].key,
    {
        if declared[i].key != expected[i].key {
            return Err(PoolError::IncorrectAccountIdentity);
        }
    }
    for i in 0..n
        invariant
            n == declared@.len() == expected@.len(),
            all_keys_match(declared@, expected@),
            forall|j: int| 0 <= j < i ==> privileges_ok(#[trigger] declared@[j], expected@[j]),
    {
        let d = declared[i];
        let e = expected[i];
        if (e.needs_signer && !d.is_signer) || (e.needs_writable && !d.is_writable) {
            return Err(PoolError::MissingPrivilege);
        }
    }
    Ok(())
}

} // verus!
