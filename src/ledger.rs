use vstd::prelude::*;

use vstd::utf8::encode_utf8;

use crate::error::LedgerError;
use crate::password::spec_hash_password;
use crate::records::{BudgetRow, FundSourceRow, JsonTransaction, UserRow};
use crate::scope::{Scope, TransactionContext};

verus! {

/// The row store behind the ledger: accounts, fund sources, budgets and the
/// append-only transaction rows, each table keyed by a unique identifier.
pub struct Ledger {
    pub users: Vec<UserRow>,
    pub fund_sources: Vec<FundSourceRow>,
    pub budgets: Vec<BudgetRow>,
    pub transactions: Vec<JsonTransaction>,
    pub next_user_id: u32,
    pub next_fund_source_id: u32,
    pub next_budget_id: u32,
    pub next_transaction_id: u64,
}

impl Ledger {
    pub open spec fn username_taken(self, username: Seq<char>) -> bool {
        exists|i: int| 0 <= i < self.users@.len() && #[trigger] self.users@[i].username@ == username
    }

    pub open spec fn email_taken(self, email: Seq<char>) -> bool {
        exists|i: int| 0 <= i < self.users@.len() && #[trigger] self.users@[i].email@ == email
    }

    pub open spec fn has_user(self, id: u32) -> bool {
        exists|i: int| 0 <= i < self.users@.len() && #[trigger] self.users@[i].id == id
    }

    /// The account row with the given identifier, where there is one.
    pub open spec fn user_row(self, id: u32) -> UserRow {
        self.users@[choose|i: int| 0 <= i < self.users@.len() && #[trigger] self.users@[i].id == id]
    }

    /// The account whose email it is and whose stored hash is that of the
    /// password for the account's username.
    pub open spec fn login_matches(self, i: int, email: Seq<char>, password: Seq<char>) -> bool {
        &&& 0 <= i < self.users@.len()
        &&& self.users@[i].email@ == email
        &&& self.users@[i].password_hash@ == spec_hash_password(
            encode_utf8(password),
            encode_utf8(self.users@[i].username@),
        )
    }

    pub open spec fn has_fund_source(self, id: u32) -> bool {
        exists|i: int| 0 <= i < self.fund_sources@.len() && #[trigger] self.fund_sources@[i].id == id
    }

    /// The position of the fund source row with the given identifier.
    pub open spec fn fund_source_index(self, id: u32) -> int {
        choose|i: int| 0 <= i < self.fund_sources@.len() && #[trigger] self.fund_sources@[i].id == id
    }

    /// The fund source row with the given identifier, where there is one.
    pub open spec fn fund_source_row(self, id: u32) -> FundSourceRow {
        self.fund_sources@[self.fund_source_index(id)]
    }

    pub open spec fn has_budget(self, id: u32) -> bool {
        exists|i: int| 0 <= i < self.budgets@.len() && #[trigger] self.budgets@[i].id == id
    }

    /// The budget row with the given identifier, where there is one.
    pub open spec fn budget_row(self, id: u32) -> BudgetRow {
        self.budgets@[choose|i: int| 0 <= i < self.budgets@.len() && #[trigger] self.budgets@[i].id == id]
    }

    /// The owner of a fund source, read from its own row.
    pub open spec fn fund_source_owner(self, id: u32) -> Option<u32> {
        if self.has_fund_source(id) {
            Some(self.fund_source_row(id).user_id)
        } else {
            None
        }
    }

    /// The parent fund source of a budget.
    pub open spec fn budget_parent(self, id: u32) -> Option<u32> {
        if self.has_budget(id) {
            Some(self.budget_row(id).fund_source_id)
        } else {
            None
        }
    }

    /// The effective owner of a scope: direct for a fund source, through the
    /// parent fund source for a budget; none where a row is missing.
    pub open spec fn owner_of(self, scope: Scope) -> Option<u32> {
        match scope.context {
            TransactionContext::FundSource => self.fund_source_owner(scope.id),
            TransactionContext::Budget => match self.budget_parent(scope.id) {
                Some(parent) => self.fund_source_owner(parent),
                None => None,
            },
        }
    }

    /// Whether the user may act on the scope.
    pub open spec fn authorized(self, user_id: u32, scope: Scope) -> bool {
        self.owner_of(scope) == Some(user_id)
    }

    /// The outcome of the ownership check.
    pub open spec fn spec_verify_owner(self, user_id: u32, scope: Scope) -> Result<(), LedgerError> {
        if self.authorized(user_id, scope) {
            Ok(())
        } else {
            Err(LedgerError::Denied)
        }
    }

    /// The fund source that a transaction written under the scope belongs to.
    pub open spec fn write_target(self, scope: Scope) -> u32 {
        match scope.context {
            TransactionContext::FundSource => scope.id,
            TransactionContext::Budget => self.budget_row(scope.id).fund_source_id,
        }
    }

    /// Identifiers are unique in each table and below the table's next identifier.
    pub open spec fn wf(self) -> bool {
        &&& forall|i: int, j: int|
            #![trigger self.users@[i], self.users@[j]]
            0 <= i < self.users@.len() && 0 <= j < self.users@.len() && i != j ==> self.users@[i].id
                != self.users@[j].id
        &&& forall|i: int|
            0 <= i < self.users@.len() ==> #[trigger] self.users@[i].id < self.next_user_id
        &&& forall|i: int, j: int|
            #![trigger self.users@[i], self.users@[j]]
            0 <= i < self.users@.len() && 0 <= j < self.users@.len() && i != j ==> self.users@[i].username@
                != self.users@[j].username@ && self.users@[i].email@ != self.users@[j].email@
        &&& forall|i: int, j: int|
            #![trigger self.fund_sources@[i], self.fund_sources@[j]]
            0 <= i < self.fund_sources@.len() && 0 <= j < self.fund_sources@.len() && i != j
                ==> self.fund_sources@[i].id != self.fund_sources@[j].id
        &&& forall|i: int|
            0 <= i < self.fund_sources@.len() ==> #[trigger] self.fund_sources@[i].id
                < self.next_fund_source_id
        &&& forall|i: int, j: int|
            #![trigger self.budgets@[i], self.budgets@[j]]
            0 <= i < self.budgets@.len() && 0 <= j < self.budgets@.len() && i != j
                ==> self.budgets@[i].id != self.budgets@[j].id
        &&& forall|i: int|
            0 <= i < self.budgets@.len() ==> #[trigger] self.budgets@[i].id < self.next_budget_id
        &&& forall|i: int, j: int|
            #![trigger self.transactions@[i], self.transactions@[j]]
            0 <= i < self.transactions@.len() && 0 <= j < self.transactions@.len() && i != j
                ==> self.transactions@[i].id != self.transactions@[j].id
        &&& forall|i: int|
            0 <= i < self.transactions@.len() ==> #[trigger] self.transactions@[i].id
                < self.next_transaction_id
    }

    /// An empty store whose identifiers start at one.
    pub fn new() -> (r: Ledger)
        ensures
            r.wf(),
            r.users@.len() == 0,
            r.fund_sources@.len() == 0,
            r.budgets@.len() == 0,
            r.transactions@.len() == 0,
            r.next_user_id == 1,
            r.next_fund_source_id == 1,
            r.next_budget_id == 1,
            r.next_transaction_id == 1,
    {
        Ledger {
            users: Vec::new(),
            fund_sources: Vec::new(),
            budgets: Vec::new(),
            transactions: Vec::new(),
            next_user_id: 1,
            next_fund_source_id: 1,
            next_budget_id: 1,
            next_transaction_id: 1,
        }
    }

    pub(crate) fn find_fund_source(&self, id: u32) -> (r: Option<usize>)
        requires
            self.wf(),
        ensures
            r is None ==> !self.has_fund_source(id),
            r matches Some(i) ==> i < self.fund_sources@.len() && self.has_fund_source(id)
                && self.fund_sources@[i as int] == self.fund_source_row(id),
    {
        let mut i: usize = 0;
        while i < self.fund_sources.len()
            invariant
                self.wf(),
                0 <= i <= self.fund_sources@.len(),
                forall|k: int| 0 <= k < i ==> #[trigger] self.fund_sources@[k].id != id,
            decreases self.fund_sources@.len() - i,
        {
            if self.fund_sources[i].id == id {
                assert(self.fund_sources@[i as int].id == id);
                let ghost c = choose|k: int|
                    0 <= k < self.fund_sources@.len() && #[trigger] self.fund_sources@[k].id == id;
                assert(self.fund_sources@[c].id == id);
                assert(c == i as int) by {
                    assert(self.fund_sources@[c].id == self.fund_sources@[i as int].id);
                }
                return Some(i);
            }
            i = i + 1;
        }
        None
    }

    pub(crate) fn find_budget(&self, id: u32) -> (r: Option<usize>)
        requires
            self.wf(),
        ensures
            r is None ==> !self.has_budget(id),
            r matches Some(i) ==> i < self.budgets@.len() && self.has_budget(id)
                && self.budgets@[i as int] == self.budget_row(id),
    {
        let mut i: usize = 0;
        while i < self.budgets.len()
            invariant
                self.wf(),
                0 <= i <= self.budgets@.len(),
                forall|k: int| 0 <= k < i ==> #[trigger] self.budgets@[k].id != id,
            decreases self.budgets@.len() - i,
        {
            if self.budgets[i].id == id {
                assert(self.budgets@[i as int].id == id);
                let ghost c = choose|k: int|
                    0 <= k < self.budgets@.len() && #[trigger] self.budgets@[k].id == id;
                assert(self.budgets@[c].id == id);
                assert(c == i as int) by {
                    assert(self.budgets@[c].id == self.budgets@[i as int].id);
                }
                return Some(i);
            }
            i = i + 1;
        }
        None
    }

    /// The effective owner of a scope, looked up in the store.
    pub fn resolve_owner(&self, scope: Scope) -> (r: Option<u32>)
        requires
            self.wf(),
        ensures
            r == self.owner_of(scope),
    {
        let fund_source_id = match scope.context {
            TransactionContext::FundSource => scope.id,
            TransactionContext::Budget => match self.find_budget(scope.id) {
                Some(b) => self.budgets[b].fund_source_id,
                None => return None,
            },
        };
        match self.find_fund_source(fund_source_id) {
            Some(f) => Some(self.fund_sources[f].user_id),
            None => None,
        }
    }

    /// The ownership check that every ledger operation runs first: `Denied`
    /// alike for a scope that does not exist and for one of another user.
    pub fn verify_owner(&self, user_id: u32, scope: Scope) -> (r: Result<(), LedgerError>)
        requires
            self.wf(),
        ensures
            r == self.spec_verify_owner(user_id, scope),
    {
        if scope.context.check_user_id(self, user_id, scope.id) {
            Ok(())
        } else {
            Err(LedgerError::Denied)
        }
    }
}

impl TransactionContext {
    /// Whether the user owns the entity of this kind with the given identifier;
    /// a missing row counts as not owned.
    pub fn check_user_id(&self, ledger: &Ledger, user_id: u32, source_id: u32) -> (r: bool)
        requires
            ledger.wf(),
        ensures
            r == ledger.authorized(user_id, Scope { context: *self, id: source_id }),
    {
        match ledger.resolve_owner(Scope { context: *self, id: source_id }) {
            Some(owner) => owner == user_id,
            None => false,
        }
    }
}

/// Ownership of a budget is that of its parent fund source: the fund
/// source's owner passes the check on the budget, and every other user is
/// denied.
pub proof fn lemma_budget_owned_through_parent(ledger: Ledger, b: int, f: int, other: u32)
    requires
        ledger.wf(),
        0 <= b < ledger.budgets@.len(),
        0 <= f < ledger.fund_sources@.len(),
        ledger.budgets@[b].fund_source_id == ledger.fund_sources@[f].id,
        other != ledger.fund_sources@[f].user_id,
    ensures
        ledger.spec_verify_owner(
            ledger.fund_sources@[f].user_id,
            Scope { context: TransactionContext::Budget, id: ledger.budgets@[b].id },
        ) == Ok::<(), LedgerError>(()),
        ledger.spec_verify_owner(
            other,
            Scope { context: TransactionContext::Budget, id: ledger.budgets@[b].id },
        ) == Err::<(), LedgerError>(LedgerError::Denied),
{
    let bid = ledger.budgets@[b].id;
    assert(ledger.has_budget(bid));
    let cb = choose|i: int| 0 <= i < ledger.budgets@.len() && #[trigger] ledger.budgets@[i].id == bid;
    assert(ledger.budgets@[cb].id == ledger.budgets@[b].id);
    assert(cb == b);
    let fid = ledger.fund_sources@[f].id;
    assert(ledger.has_fund_source(fid));
    let cf = ledger.fund_source_index(fid);
    assert(ledger.fund_sources@[cf].id == ledger.fund_sources@[f].id);
    assert(cf == f);
}

/// A denied caller learns nothing of existence: the check fails with the same
/// `Denied` for a scope that does not exist and for a scope of another user.
pub proof fn lemma_denial_does_not_leak(ledger: Ledger, user_id: u32, missing: Scope, foreign: Scope)
    requires
        ledger.owner_of(missing) is None,
        ledger.owner_of(foreign) is Some,
        ledger.owner_of(foreign) != Some(user_id),
    ensures
        ledger.spec_verify_owner(user_id, missing) == Err::<(), LedgerError>(LedgerError::Denied),
        ledger.spec_verify_owner(user_id, missing) == ledger.spec_verify_owner(user_id, foreign),
{
}

/// A transaction written under a budget that the caller may act on belongs to
/// the budget's parent fund source as the store holds it at the write.
pub proof fn lemma_budget_write_goes_to_parent(ledger: Ledger, user_id: u32, scope: Scope)
    requires
        scope.context == TransactionContext::Budget,
        ledger.authorized(user_id, scope),
    ensures
        ledger.budget_parent(scope.id) == Some(ledger.write_target(scope)),
        ledger.has_fund_source(ledger.write_target(scope)),
{
}

} // verus!
