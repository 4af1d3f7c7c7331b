use fund_ledger::error::LedgerError;
use fund_ledger::ledger::Ledger;
use fund_ledger::transactions::TRANSACTION_PAGE_SIZE;
use fund_ledger::records::{
    JsonCreateFundSource, JsonCreateTransaction, JsonCreateUser, JsonGetTransactionParams,
    JsonLoginUser,
};
use fund_ledger::scope::{Scope, TransactionContext};

fn fund_source(id: u32) -> Scope {
    Scope { context: TransactionContext::FundSource, id }
}

fn budget(id: u32) -> Scope {
    Scope { context: TransactionContext::Budget, id }
}

fn new_fund_source(name: &str) -> JsonCreateFundSource {
    JsonCreateFundSource { name: name.to_string(), default_currency: "EUR".to_string() }
}

fn tx(volume: i32, notes: Option<&str>) -> JsonCreateTransaction {
    JsonCreateTransaction { volume, notes: notes.map(|n| n.to_string()) }
}

#[test]
fn balance_sums_signed_volumes() {
    let mut l = Ledger::new();
    let f = l.create_fund_source(1, &new_fund_source("wallet"), 0).unwrap();
    for v in [100, -30, 50] {
        l.create_transaction(1, fund_source(f), &tx(v, None), 0).unwrap();
    }
    assert_eq!(l.fund_source_balance(f), 120);
}

#[test]
fn balance_of_empty_fund_source_is_zero() {
    let mut l = Ledger::new();
    let f = l.create_fund_source(1, &new_fund_source("wallet"), 0).unwrap();
    assert_eq!(l.fund_source_balance(f), 0);
    assert_eq!(l.get_fund_source(1, f).unwrap().balance, Some(0));
}

#[test]
fn balance_of_extreme_volumes_does_not_overflow() {
    let mut l = Ledger::new();
    let f = l.create_fund_source(1, &new_fund_source("wallet"), 0).unwrap();
    for _ in 0..3 {
        l.create_transaction(1, fund_source(f), &tx(i32::MAX, None), 0).unwrap();
    }
    assert_eq!(l.fund_source_balance(f), 3 * (i32::MAX as i128));
}

#[test]
fn other_user_is_denied_everywhere() {
    let mut l = Ledger::new();
    let a = 1;
    let b = 2;
    let f1 = l.create_fund_source(a, &new_fund_source("main"), 10).unwrap();
    assert_eq!(l.delete_fund_source(b, f1), Err(LedgerError::Denied));
    assert!(matches!(l.get_fund_source(b, f1), Err(LedgerError::Denied)));
    assert_eq!(
        l.create_transaction(b, fund_source(f1), &tx(5, None), 0),
        Err(LedgerError::Denied)
    );
    assert!(matches!(
        l.get_transactions(b, fund_source(f1), &JsonGetTransactionParams { page: 0 }),
        Err(LedgerError::Denied)
    ));
    assert_eq!(l.create_budget(b, f1, "food".to_string()), Err(LedgerError::Denied));
    assert!(l.get_fund_source(a, f1).is_ok());
}

#[test]
fn budget_transaction_lands_on_parent_fund_source() {
    let mut l = Ledger::new();
    let a = 1;
    let f1 = l.create_fund_source(a, &new_fund_source("main"), 10).unwrap();
    l.create_transaction(a, fund_source(f1), &tx(2000, None), 11).unwrap();
    let before = l.fund_source_balance(f1);
    let bg = l.create_budget(a, f1, "housing".to_string()).unwrap();
    let id = l.create_transaction(a, budget(bg), &tx(-500, Some("rent")), 12).unwrap();
    let row = l.transactions.iter().find(|t| t.id == id).unwrap();
    assert_eq!(row.fund_source_id, f1);
    assert_eq!(row.budget_id, Some(bg));
    assert_eq!(row.volume, -500);
    assert_eq!(row.notes.as_deref(), Some("rent"));
    assert_eq!(row.original_currency, "EUR");
    assert_eq!(l.fund_source_balance(f1), before - 500);
}

#[test]
fn budget_owner_is_parent_owner() {
    let mut l = Ledger::new();
    let f = l.create_fund_source(7, &new_fund_source("main"), 0).unwrap();
    let bg = l.create_budget(7, f, "food".to_string()).unwrap();
    assert_eq!(l.verify_owner(7, budget(bg)), Ok(()));
    assert_eq!(l.verify_owner(8, budget(bg)), Err(LedgerError::Denied));
    assert_eq!(l.resolve_owner(budget(bg)), Some(7));
    assert!(TransactionContext::Budget.check_user_id(&l, 7, bg));
    assert!(!TransactionContext::Budget.check_user_id(&l, 8, bg));
}

#[test]
fn missing_and_foreign_scopes_are_denied_alike() {
    let mut l = Ledger::new();
    let f = l.create_fund_source(1, &new_fund_source("main"), 0).unwrap();
    let missing = l.verify_owner(2, fund_source(f + 100));
    let foreign = l.verify_owner(2, fund_source(f));
    assert_eq!(missing, Err(LedgerError::Denied));
    assert_eq!(missing, foreign);
    assert_eq!(l.verify_owner(2, budget(55)), Err(LedgerError::Denied));
}

#[test]
fn deleted_parent_leaves_budget_unowned() {
    let mut l = Ledger::new();
    let f = l.create_fund_source(1, &new_fund_source("main"), 0).unwrap();
    let bg = l.create_budget(1, f, "food".to_string()).unwrap();
    assert_eq!(l.delete_fund_source(1, f), Ok(()));
    assert_eq!(l.verify_owner(1, budget(bg)), Err(LedgerError::Denied));
    assert_eq!(l.verify_owner(1, fund_source(f)), Err(LedgerError::Denied));
    assert_eq!(
        l.create_transaction(1, budget(bg), &tx(1, None), 0),
        Err(LedgerError::Denied)
    );
}

#[test]
fn zero_volume_is_accepted() {
    let mut l = Ledger::new();
    let f = l.create_fund_source(1, &new_fund_source("main"), 0).unwrap();
    assert!(l.create_transaction(1, fund_source(f), &tx(0, None), 0).is_ok());
    assert_eq!(l.transactions.len(), 1);
}

#[test]
fn pages_are_disjoint_and_cover_the_scan() {
    let mut l = Ledger::new();
    let f = l.create_fund_source(1, &new_fund_source("main"), 0).unwrap();
    let other = l.create_fund_source(1, &new_fund_source("side"), 0).unwrap();
    let n = 2 * TRANSACTION_PAGE_SIZE as i32 + 5;
    for v in 0..n {
        l.create_transaction(1, fund_source(f), &tx(v, None), 0).unwrap();
        l.create_transaction(1, fund_source(other), &tx(-v, None), 0).unwrap();
    }
    let mut all = Vec::new();
    for page in 0..4 {
        let rows = l
            .get_transactions(1, fund_source(f), &JsonGetTransactionParams { page })
            .unwrap();
        let expected = match page {
            0 | 1 => TRANSACTION_PAGE_SIZE as usize,
            2 => 5,
            _ => 0,
        };
        assert_eq!(rows.len(), expected);
        all.extend(rows.into_iter().map(|t| t.volume));
    }
    assert_eq!(all, (0..n).collect::<Vec<i32>>());
    let again = l
        .get_transactions(1, fund_source(f), &JsonGetTransactionParams { page: 1 })
        .unwrap();
    assert_eq!(again[0].volume, TRANSACTION_PAGE_SIZE as i32);
}

#[test]
fn page_far_past_the_end_is_empty() {
    let mut l = Ledger::new();
    let f = l.create_fund_source(1, &new_fund_source("main"), 0).unwrap();
    l.create_transaction(1, fund_source(f), &tx(1, None), 0).unwrap();
    let rows = l
        .get_transactions(1, fund_source(f), &JsonGetTransactionParams { page: u32::MAX })
        .unwrap();
    assert!(rows.is_empty());
}

#[test]
fn budget_listing_holds_only_budget_rows() {
    let mut l = Ledger::new();
    let f = l.create_fund_source(1, &new_fund_source("main"), 0).unwrap();
    let bg = l.create_budget(1, f, "food".to_string()).unwrap();
    l.create_transaction(1, fund_source(f), &tx(10, None), 0).unwrap();
    l.create_transaction(1, budget(bg), &tx(-3, None), 0).unwrap();
    let in_budget = l
        .get_transactions(1, budget(bg), &JsonGetTransactionParams { page: 0 })
        .unwrap();
    assert_eq!(in_budget.len(), 1);
    assert_eq!(in_budget[0].volume, -3);
    let in_fund = l
        .get_transactions(1, fund_source(f), &JsonGetTransactionParams { page: 0 })
        .unwrap();
    assert_eq!(in_fund.len(), 2);
}

#[test]
fn fund_source_view_has_balance_and_fields() {
    let mut l = Ledger::new();
    let f = l.create_fund_source(3, &new_fund_source("savings"), 99).unwrap();
    l.create_transaction(3, fund_source(f), &tx(250, None), 0).unwrap();
    let v = l.get_fund_source(3, f).unwrap();
    assert_eq!(v.id, f);
    assert_eq!(v.name, "savings");
    assert_eq!(v.default_currency, "EUR");
    assert_eq!(v.created_at, 99);
    assert_eq!(v.balance, Some(250));
}

fn user(name: &str, email: &str, password: &str) -> JsonCreateUser {
    JsonCreateUser {
        username: name.to_string(),
        email: email.to_string(),
        password: password.to_string(),
    }
}

#[test]
fn create_user_checks_lengths_and_uniqueness() {
    let mut l = Ledger::new();
    let long_name = "x".repeat(31);
    let long_email = "e".repeat(255);
    assert_eq!(
        l.create_user(&user(&long_name, "a@b.c", "pw"), 0),
        Err(LedgerError::UsernameTooLong)
    );
    assert_eq!(
        l.create_user(&user("alice", &long_email, "pw"), 0),
        Err(LedgerError::EmailTooLong)
    );
    assert!(l.create_user(&user(&"x".repeat(30), &"e".repeat(254), "pw"), 0).is_ok());
    let id = l.create_user(&user("alice", "alice@example.com", "pw"), 5).unwrap();
    assert_eq!(
        l.create_user(&user("alice", "other@example.com", "pw"), 0),
        Err(LedgerError::UsernameTaken)
    );
    assert_eq!(
        l.create_user(&user("bob", "alice@example.com", "pw"), 0),
        Err(LedgerError::EmailTaken)
    );
    let details = l.get_user_details(id).unwrap();
    assert_eq!(details.username, "alice");
    assert_eq!(details.email, "alice@example.com");
    assert_eq!(details.created_at, 5);
    assert!(matches!(l.get_user_details(id + 100), Err(LedgerError::NotAuthenticated)));
}

#[test]
fn login_user_checks_the_password() {
    let mut l = Ledger::new();
    let id = l.create_user(&user("alice", "alice@example.com", "hunter2"), 0).unwrap();
    let good = JsonLoginUser { email: "alice@example.com".to_string(), password: "hunter2".to_string() };
    let bad = JsonLoginUser { email: "alice@example.com".to_string(), password: "hunter3".to_string() };
    let unknown = JsonLoginUser { email: "nobody@example.com".to_string(), password: "hunter2".to_string() };
    assert_eq!(l.login_user(&good), Ok(id));
    assert_eq!(l.login_user(&bad), Err(LedgerError::BadCredentials));
    assert_eq!(l.login_user(&unknown), Err(LedgerError::BadCredentials));
}
