use lst_pool::accounts::{validate_accounts, DeclaredAccount, ExpectedAccount};
use lst_pool::{AccountId, PoolError};

fn acct(n: u64) -> AccountId {
    AccountId {
        w0: n,
        w1: 0,
        w2: 0,
        w3: 0,
    }
}

fn declared(n: u64, is_signer: bool, is_writable: bool) -> DeclaredAccount {
    DeclaredAccount {
        key: acct(n),
        is_signer,
        is_writable,
    }
}

fn expected(n: u64, needs_signer: bool, needs_writable: bool) -> ExpectedAccount {
    ExpectedAccount {
        key: acct(n),
        needs_signer,
        needs_writable,
    }
}

#[test]
fn matching_accounts_pass() {
    let d = vec![declared(1, true, false), declared(2, false, true)];
    let e = vec![expected(1, true, false), expected(2, false, true)];
    assert_eq!(validate_accounts(&d, &e), Ok(()));
}

#[test]
fn extra_privileges_are_fine() {
    let d = vec![declared(1, true, true)];
    let e = vec![expected(1, false, false)];
    assert_eq!(validate_accounts(&d, &e), Ok(()));
}

#[test]
fn wrong_identity_refused() {
    let d = vec![declared(1, true, true), declared(3, true, true)];
    let e = vec![expected(1, false, false), expected(2, false, false)];
    assert_eq!(
        validate_accounts(&d, &e),
        Err(PoolError::IncorrectAccountIdentity)
    );
}

#[test]
fn missing_signer_refused() {
    let d = vec![declared(1, false, true)];
    let e = vec![expected(1, true, true)];
    assert_eq!(validate_accounts(&d, &e), Err(PoolError::MissingPrivilege));
}

#[test]
fn missing_writable_refused() {
    let d = vec![declared(1, true, false)];
    let e = vec![expected(1, true, true)];
    assert_eq!(validate_accounts(&d, &e), Err(PoolError::MissingPrivilege));
}

#[test]
fn identity_checked_before_privileges() {
    // The first account is missing its signer flag, but the second has the
    // wrong identity: every identity is checked first.
    let d = vec![declared(1, false, false), declared(9, true, true)];
    let e = vec![expected(1, true, false), expected(2, false, false)];
    assert_eq!(
        validate_accounts(&d, &e),
        Err(PoolError::IncorrectAccountIdentity)
    );
}
