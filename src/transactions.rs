use vstd::prelude::*;

use crate::error::LedgerError;
use crate::ledger::Ledger;
use crate::records::{copy_notes, JsonCreateTransaction, JsonGetTransactionParams, JsonTransaction};
use crate::scope::{Scope, TransactionContext};

verus! {

/// Number of transactions on one page of a listing.
pub const TRANSACTION_PAGE_SIZE: u32 = 20;

/// Whether a transaction row belongs to a scope.
pub open spec fn in_scope(t: JsonTransaction, scope: Scope) -> bool {
    match scope.context {
        TransactionContext::Budget => t.budget_id == Some(scope.id),
        TransactionContext::FundSource => t.fund_source_id == scope.id,
    }
}

/// The rows of a scope, in the order in which they were written.
pub open spec fn scope_rows(txs: Seq<JsonTransaction>, scope: Scope) -> Seq<JsonTransaction>
    decreases txs.len(),
{
    if txs.len() == 0 {
        Seq::empty()
    } else {
        let rest = scope_rows(txs.drop_last(), scope);
        if in_scope(txs.last(), scope) {
            rest.push(txs.last())
        } else {
            rest
        }
    }
}

/// The page of a listing: the rows from `page * TRANSACTION_PAGE_SIZE` on, at
/// most `TRANSACTION_PAGE_SIZE` of them; empty past the end.
pub open spec fn page_of(rows: Seq<JsonTransaction>, page: nat) -> Seq<JsonTransaction> {
    let lo = page * TRANSACTION_PAGE_SIZE;
    let hi = lo + TRANSACTION_PAGE_SIZE;
    rows.subrange(
        if lo < rows.len() { lo as int } else { rows.len() as int },
        if hi < rows.len() { hi as int } else { rows.len() as int },
    )
}

/// The sum of the volumes of the rows that belong to a fund source.
pub open spec fn volume_sum(txs: Seq<JsonTransaction>, fund_source_id: u32) -> int
    decreases txs.len(),
{
    if txs.len() == 0 {
        0
    } else {
        volume_sum(txs.drop_last(), fund_source_id) + if txs.last().fund_source_id
            == fund_source_id {
            txs.last().volume as int
        } else {
            0
        }
    }
}

impl Ledger {
    /// The balance of a fund source: the sum of the volumes of all its
    /// transactions, those written under its budgets included; zero when it
    /// has none.
    pub fn fund_source_balance(&self, fund_source_id: u32) -> (r: i128)
        ensures
            r == volume_sum(self.transactions@, fund_source_id),
    {
        let mut total: i128 = 0;
        let mut i: usize = 0;
        while i < self.transactions.len()
            invariant
                0 <= i <= self.transactions@.len(),
                total == volume_sum(self.transactions@.subrange(0, i as int), fund_source_id),
                -(i as int) * 2147483648 <= total <= (i as int) * 2147483648,
            decreases self.transactions@.len() - i,
        {
            let t = &self.transactions[i];
            assert(self.transactions@.subrange(0, i + 1).drop_last() =~= self.transactions@.subrange(
                0,
                i as int,
            ));
            if t.fund_source_id == fund_source_id {
                total = total + t.volume as i128;
            }
            i = i + 1;
        }
        assert(self.transactions@.subrange(0, i as int) =~= self.transactions@);
        total
    }

    fn scope_rows_of(&self, scope: Scope) -> (r: Vec<JsonTransaction>)
        ensures
            r@ == scope_rows(self.transactions@, scope),
    {
        let mut rows: Vec<JsonTransaction> = Vec::new();
        let mut i: usize = 0;
        while i < self.transactions.len()
            invariant
                0 <= i <= self.transactions@.len(),
                rows@ == scope_rows(self.transactions@.subrange(0, i as int), scope),
            decreases self.transactions@.len() - i,
        {
            let t = &self.transactions[i];
            assert(self.transactions@.subrange(0, i + 1).drop_last() =~= self.transactions@.subrange(
                0,
                i as int,
            ));
            let keep = match scope.context {
                TransactionContext::Budget => match t.budget_id {
                    Some(b) => b == scope.id,
                    None => false,
                },
                TransactionContext::FundSource => t.fund_source_id == scope.id,
            };
            if keep {
                rows.push(t.copy());
            }
            i = i + 1;
        }
        assert(self.transactions@.subrange(0, i as int) =~= self.transactions@);
        rows
    }

    /// The listing of a scope that the caller owns: one page of its rows in
    /// the order in which they were written, empty past the last page.
    pub fn get_transactions(
        &self,
        user_id: u32,
        scope: Scope,
        parameters: &JsonGetTransactionParams,
    ) -> (r: Result<Vec<JsonTransaction>, LedgerError>)
        requires
            self.wf(),
        ensures
            !self.authorized(user_id, scope) ==> r == Err::<Vec<JsonTransaction>, LedgerError>(
                LedgerError::Denied,
            ),
            self.authorized(user_id, scope) ==> (r matches Ok(rows) && rows@ == page_of(
                scope_rows(self.transactions@, scope),
                parameters.page as nat,
            )),
    {
        if let Err(e) = self.verify_owner(user_id, scope) {
            return Err(e);
        }
        let all = self.scope_rows_of(scope);
        let lo: u64 = parameters.page as u64 * 20;
        assert(lo == parameters.page as nat * TRANSACTION_PAGE_SIZE);
        let hi: u64 = lo + TRANSACTION_PAGE_SIZE as u64;
        let n: usize = all.len();
        let start: usize = if lo < n as u64 {
            lo as usize
        } else {
            n
        };
        let end: usize = if hi < n as u64 {
            hi as usize
        } else {
            n
        };
        let mut page: Vec<JsonTransaction> = Vec::new();
        let mut k: usize = start;
        while k < end
            invariant
                start <= k <= end <= all@.len(),
                page@ == all@.subrange(start as int, k as int),
            decreases end - k,
        {
            page.push(all[k].copy());
            k = k + 1;
            assert(page@ =~= all@.subrange(start as int, k as int));
        }
        Ok(page)
    }

    /// Records a transaction under a scope that the caller owns. Under a
    /// budget the row's fund source is the budget's parent, read at the time
    /// of the write; the row's currency is that fund source's default currency.
    pub fn create_transaction(
        &mut self,
        user_id: u32,
        scope: Scope,
        new_transaction: &JsonCreateTransaction,
        created_at: i64,
    ) -> (r: Result<u64, LedgerError>)
        requires
            old(self).wf(),
        ensures
            final(self).wf(),
            !old(self).authorized(user_id, scope) ==> r == Err::<u64, LedgerError>(
                LedgerError::Denied,
            ) && *final(self) == *old(self),
            old(self).authorized(user_id, scope) && old(self).next_transaction_id == u64::MAX ==> r
                == Err::<u64, LedgerError>(LedgerError::StorageUnavailable) && *final(self) == *old(
                self,
            ),
            old(self).authorized(user_id, scope) && old(self).next_transaction_id < u64::MAX ==> {
                &&& r == Ok::<u64, LedgerError>(old(self).next_transaction_id)
                &&& final(self).transactions@ == old(self).transactions@.push(
                    JsonTransaction {
                        id: old(self).next_transaction_id,
                        fund_source_id: old(self).write_target(scope),
                        budget_id: match scope.context {
                            TransactionContext::Budget => Some(scope.id),
                            TransactionContext::FundSource => None,
                        },
                        volume: new_transaction.volume,
                        original_currency: old(self).fund_source_row(
                            old(self).write_target(scope),
                        ).default_currency,
                        notes: new_transaction.notes,
                        created_at: created_at,
                    },
                )
                &&& final(self).next_transaction_id == old(self).next_transaction_id + 1
                &&& final(self).users == old(self).users
                &&& final(self).fund_sources == old(self).fund_sources
                &&& final(self).budgets == old(self).budgets
                &&& final(self).next_user_id == old(self).next_user_id
                &&& final(self).next_fund_source_id == old(self).next_fund_source_id
                &&& final(self).next_budget_id == old(self).next_budget_id
            },
    {
        if let Err(e) = self.verify_owner(user_id, scope) {
            return Err(e);
        }
        if self.next_transaction_id == u64::MAX {
            return Err(LedgerError::StorageUnavailable);
        }
        let (fund_source_id, budget_id) = match scope.context {
            TransactionContext::FundSource => (scope.id, None),
            TransactionContext::Budget => match self.find_budget(scope.id) {
                Some(b) => (self.budgets[b].fund_source_id, Some(scope.id)),
                None => return Err(LedgerError::StorageUnavailable),
            },
        };
        let original_currency = match self.find_fund_source(fund_source_id) {
            Some(f) => self.fund_sources[f].default_currency.clone(),
            None => return Err(LedgerError::StorageUnavailable),
        };
        let id = self.next_transaction_id;
        let row = JsonTransaction {
            id,
            fund_source_id,
            budget_id,
            volume: new_transaction.volume,
            original_currency,
            notes: copy_notes(&new_transaction.notes),
            created_at,
        };
        self.transactions.push(row);
        self.next_transaction_id = id + 1;
        proof {
            let n = self.transactions@.len() - 1;
            assert forall|i: int, j: int|
                0 <= i < self.transactions@.len() && 0 <= j < self.transactions@.len() && i != j
                    implies #[trigger] self.transactions@[i].id != #[trigger] self.transactions@[j].id by {
                if i != n && j != n {
                    assert(old(self).transactions@[i] == self.transactions@[i]);
                    assert(old(self).transactions@[j] == self.transactions@[j]);
                }
                else if i == n {
                    assert(old(self).transactions@[j] == self.transactions@[j]);
                } else {
                    assert(old(self).transactions@[i] == self.transactions@[i]);
                }
            }
            assert forall|i: int| 0 <= i < self.transactions@.len()
                implies #[trigger] self.transactions@[i].id < self.next_transaction_id by {
                if i != n {
                    assert(old(self).transactions@[i] == self.transactions@[i]);
                }
            }
        }
        Ok(id)
    }
}

/// The rows of pages `0` to `n - 1` of a listing, one page after another.
pub open spec fn pages_upto(rows: Seq<JsonTransaction>, n: nat) -> Seq<JsonTransaction>
    decreases n,
{
    if n == 0 {
        Seq::empty()
    } else {
        pages_upto(rows, (n - 1) as nat) + page_of(rows, (n - 1) as nat)
    }
}

/// Paging is stable: pages `0` to `n - 1` read one after another are exactly
/// the first `n * TRANSACTION_PAGE_SIZE` rows of the unpaginated scan, in order,
/// so no row is skipped or repeated; once the pages cover every row they are
/// the whole scan.
pub proof fn lemma_pages_concatenate(rows: Seq<JsonTransaction>, n: nat)
    ensures
        pages_upto(rows, n) == rows.subrange(
            0,
            if n * TRANSACTION_PAGE_SIZE < rows.len() {
                (n * TRANSACTION_PAGE_SIZE) as int
            } else {
                rows.len() as int
            },
        ),
        n * TRANSACTION_PAGE_SIZE >= rows.len() ==> pages_upto(rows, n) == rows,
    decreases n,
{
    if n == 0 {
        assert(pages_upto(rows, n) =~= rows.subrange(0, 0));
    } else {
        lemma_pages_concatenate(rows, (n - 1) as nat);
        assert((n - 1) as nat * TRANSACTION_PAGE_SIZE + TRANSACTION_PAGE_SIZE == n
            * TRANSACTION_PAGE_SIZE);
        let hi = if n * TRANSACTION_PAGE_SIZE < rows.len() {
            (n * TRANSACTION_PAGE_SIZE) as int
        } else {
            rows.len() as int
        };
        assert(pages_upto(rows, n) =~= rows.subrange(0, hi));
    }
    if n * TRANSACTION_PAGE_SIZE >= rows.len() {
        assert(rows.subrange(0, rows.len() as int) =~= rows);
    }
}

/// Two consecutive pages of a listing share no position of the scan: the
/// first ends where the second begins.
pub proof fn lemma_consecutive_pages_disjoint(rows: Seq<JsonTransaction>, page: nat)
    ensures
        page_of(rows, page) + page_of(rows, page + 1) == rows.subrange(
            if page * TRANSACTION_PAGE_SIZE < rows.len() {
                (page * TRANSACTION_PAGE_SIZE) as int
            } else {
                rows.len() as int
            },
            if (page + 2) * TRANSACTION_PAGE_SIZE < rows.len() {
                ((page + 2) * TRANSACTION_PAGE_SIZE) as int
            } else {
                rows.len() as int
            },
        ),
{
    assert((page + 1) * TRANSACTION_PAGE_SIZE == page * TRANSACTION_PAGE_SIZE
        + TRANSACTION_PAGE_SIZE);
    assert((page + 2) * TRANSACTION_PAGE_SIZE == page * TRANSACTION_PAGE_SIZE + 2
        * TRANSACTION_PAGE_SIZE);
    let lo = if page * TRANSACTION_PAGE_SIZE < rows.len() {
        (page * TRANSACTION_PAGE_SIZE) as int
    } else {
        rows.len() as int
    };
    let hi = if (page + 2) * TRANSACTION_PAGE_SIZE < rows.len() {
        ((page + 2) * TRANSACTION_PAGE_SIZE) as int
    } else {
        rows.len() as int
    };
    assert(page_of(rows, page) + page_of(rows, page + 1) =~= rows.subrange(lo, hi));
}

/// Writing a row moves the balance of its own fund source by the row's volume
/// and leaves every other balance as it was.
pub proof fn lemma_balance_after_append(txs: Seq<JsonTransaction>, t: JsonTransaction, fund_source_id: u32)
    ensures
        volume_sum(txs.push(t), fund_source_id) == volume_sum(txs, fund_source_id) + if t.fund_source_id
            == fund_source_id {
            t.volume as int
        } else {
            0
        },
{
    assert(txs.push(t).drop_last() =~= txs);
}

} // verus!
