use vstd::prelude::*;

verus! {

/// Body of a request that creates a fund source.
pub struct JsonCreateFundSource {
    pub name: String,
    pub default_currency: String,
}

/// A fund source as it leaves the library: the owning user is never part of it.
pub struct JsonFundSource {
    pub id: u32,
    pub name: String,
    pub default_currency: String,
    /// Seconds since the Unix epoch.
    pub created_at: i64,
    pub balance: Option<i128>,
}

/// A transaction row of the ledger, as stored and as listed.
pub struct JsonTransaction {
    pub id: u64,
    pub fund_source_id: u32,
    pub budget_id: Option<u32>,
    /// Signed amount in minor currency units; the sign is the direction.
    pub volume: i32,
    pub original_currency: String,
    pub notes: Option<String>,
    /// Seconds since the Unix epoch.
    pub created_at: i64,
}

/// Body of a request that records a transaction.
pub struct JsonCreateTransaction {
    pub volume: i32,
    pub notes: Option<String>,
}

/// Query of a request that lists transactions: a zero-based page index.
pub struct JsonGetTransactionParams {
    pub page: u32,
}

/// Body of a registration request.
pub struct JsonCreateUser {
    pub username: String,
    pub email: String,
    pub password: String,
}

/// An account as it leaves the library: the password hash is never part of it.
pub struct JsonUserDetails {
    pub id: u32,
    pub username: String,
    pub email: String,
    /// Seconds since the Unix epoch.
    pub created_at: i64,
}

/// Body of a login request.
pub struct JsonLoginUser {
    pub email: String,
    pub password: String,
}

/// A stored account.
pub struct UserRow {
    pub id: u32,
    pub username: String,
    pub email: String,
    pub password_hash: String,
    pub created_at: i64,
}

/// A stored fund source, with its owner.
pub struct FundSourceRow {
    pub id: u32,
    pub user_id: u32,
    pub name: String,
    pub default_currency: String,
    pub created_at: i64,
}

/// A stored budget; its owner is the owner of its parent fund source.
pub struct BudgetRow {
    pub id: u32,
    pub fund_source_id: u32,
    pub name: String,
}

pub(crate) fn copy_notes(notes: &Option<String>) -> (r: Option<String>)
    ensures
        r == *notes,
{
    match notes {
        Some(n) => Some(n.clone()),
        None => None,
    }
}

impl JsonTransaction {
    /// A copy of the row, field for field.
    pub fn copy(&self) -> (r: JsonTransaction)
        ensures
            r == *self,
    {
        JsonTransaction {
            id: self.id,
            fund_source_id: self.fund_source_id,
            budget_id: self.budget_id,
            volume: self.volume,
            original_currency: self.original_currency.clone(),
            notes: copy_notes(&self.notes),
            created_at: self.created_at,
        }
    }
}

} // verus!
