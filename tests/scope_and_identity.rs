use fund_ledger::error::LedgerError;
use fund_ledger::identity::{get_user_id, SessionDecodeError};
use fund_ledger::password::{check_password_hash, hash_password, hex_matches, salted_bytes};
use fund_ledger::scope::{parse_id, resolve_scope, Scope, TransactionContext};

#[test]
fn resolve_scope_fund_source() {
    assert_eq!(
        resolve_scope("fund_source", "12"),
        Ok(Scope { context: TransactionContext::FundSource, id: 12 })
    );
}

#[test]
fn resolve_scope_budget_with_plus_sign() {
    assert_eq!(
        resolve_scope("budget", "+7"),
        Ok(Scope { context: TransactionContext::Budget, id: 7 })
    );
}

#[test]
fn resolve_scope_is_case_sensitive() {
    assert_eq!(resolve_scope("Budget", "7"), Err(LedgerError::NotFound));
    assert_eq!(resolve_scope("fund-source", "7"), Err(LedgerError::NotFound));
    assert_eq!(resolve_scope("", "7"), Err(LedgerError::NotFound));
}

#[test]
fn resolve_scope_checks_kind_before_id() {
    assert_eq!(resolve_scope("account", "abc"), Err(LedgerError::NotFound));
}

#[test]
fn resolve_scope_rejects_bad_identifiers() {
    assert_eq!(resolve_scope("budget", "abc"), Err(LedgerError::InvalidIdentifier));
    assert_eq!(resolve_scope("budget", "-1"), Err(LedgerError::InvalidIdentifier));
    assert_eq!(resolve_scope("budget", ""), Err(LedgerError::InvalidIdentifier));
    assert_eq!(resolve_scope("budget", "+"), Err(LedgerError::InvalidIdentifier));
    assert_eq!(resolve_scope("budget", "1 2"), Err(LedgerError::InvalidIdentifier));
}

#[test]
fn parse_id_limits() {
    assert_eq!(parse_id("0"), Ok(0));
    assert_eq!(parse_id("007"), Ok(7));
    assert_eq!(parse_id("4294967295"), Ok(4294967295));
    assert_eq!(parse_id("4294967296"), Err(LedgerError::InvalidIdentifier));
    assert_eq!(parse_id("99999999999999999999999"), Err(LedgerError::InvalidIdentifier));
}

#[test]
fn from_request_names_both_kinds() {
    assert_eq!(TransactionContext::from_request("budget"), Ok(TransactionContext::Budget));
    assert_eq!(TransactionContext::from_request("fund_source"), Ok(TransactionContext::FundSource));
    assert_eq!(TransactionContext::from_request("budgets"), Err(LedgerError::NotFound));
}

#[test]
fn get_user_id_outcomes() {
    assert_eq!(get_user_id(Ok(Some(42))), Ok(42));
    assert_eq!(get_user_id(Ok(None)), Err(LedgerError::NotAuthenticated));
    assert_eq!(get_user_id(Err(SessionDecodeError)), Err(LedgerError::SessionCorrupted));
}

#[test]
fn error_status_codes_and_messages() {
    assert_eq!(LedgerError::NotAuthenticated.status_code(), 400);
    assert_eq!(LedgerError::SessionCorrupted.status_code(), 403);
    assert_eq!(LedgerError::NotFound.status_code(), 404);
    assert_eq!(LedgerError::InvalidIdentifier.status_code(), 400);
    assert_eq!(LedgerError::Denied.status_code(), 400);
    assert_eq!(LedgerError::StorageUnavailable.status_code(), 500);
    assert_eq!(
        LedgerError::Denied.message(),
        "No appropriate fund_source or budget with that ID"
    );
    assert_eq!(LedgerError::NotFound.message(), "Page not found");
}

#[test]
fn hash_password_is_hex_sha512_of_password_plus_username() {
    let h = hash_password(b"hunter2", b"alice");
    assert_eq!(
        h,
        "b521e622c22c7a4a9a41af7b955c3d92eb754616fa6234a01751d3e3bc0a0a75e90d332b360fef7686149ba72fa61607b2ef4dd7af2c3e749c4f1ba105f9a83d"
    );
    assert_eq!(h.len(), 128);
}

#[test]
fn check_password_hash_accepts_only_the_right_password() {
    let h = hash_password(b"hunter2", b"alice");
    assert!(check_password_hash(&h, b"hunter2", b"alice"));
    assert!(!check_password_hash(&h, b"hunter3", b"alice"));
    assert!(!check_password_hash(&h, b"alice", b"hunter2"));
}

#[test]
fn salted_bytes_joins_with_plus() {
    assert_eq!(salted_bytes(b"pw", b"bob"), b"pw+bob".to_vec());
    assert_eq!(salted_bytes(b"", b""), b"+".to_vec());
}

#[test]
fn hex_matches_lower_case_digits_only() {
    assert!(hex_matches("0aff", &[10, 255]));
    assert!(!hex_matches("0AFF", &[10, 255]));
    assert!(!hex_matches("0aff", &[10, 254]));
    assert!(hex_matches("", &[]));
}
