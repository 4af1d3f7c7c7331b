use vstd::prelude::*;

use crate::error::LedgerError;
use crate::ledger::Ledger;
use crate::records::{BudgetRow, FundSourceRow, JsonCreateFundSource, JsonFundSource};
use crate::scope::TransactionContext;
use crate::transactions::volume_sum;

verus! {

impl Ledger {
    /// Opens a fund source owned by the caller.
    pub fn create_fund_source(
        &mut self,
        user_id: u32,
        new_fund_source: &JsonCreateFundSource,
        created_at: i64,
    ) -> (r: Result<u32, LedgerError>)
        requires
            old(self).wf(),
        ensures
            final(self).wf(),
            old(self).next_fund_source_id == u32::MAX ==> r == Err::<u32, LedgerError>(
                LedgerError::StorageUnavailable,
            ) && *final(self) == *old(self),
            old(self).next_fund_source_id < u32::MAX ==> {
                &&& r == Ok::<u32, LedgerError>(old(self).next_fund_source_id)
                &&& final(self).fund_sources@ == old(self).fund_sources@.push(
                    FundSourceRow {
                        id: old(self).next_fund_source_id,
                        user_id: user_id,
                        name: new_fund_source.name,
                        default_currency: new_fund_source.default_currency,
                        created_at: created_at,
                    },
                )
                &&& final(self).next_fund_source_id == old(self).next_fund_source_id + 1
                &&& final(self).users == old(self).users
                &&& final(self).budgets == old(self).budgets
                &&& final(self).transactions == old(self).transactions
                &&& final(self).next_user_id == old(self).next_user_id
                &&& final(self).next_budget_id == old(self).next_budget_id
                &&& final(self).next_transaction_id == old(self).next_transaction_id
            },
    {
        if self.next_fund_source_id == u32::MAX {
            return Err(LedgerError::StorageUnavailable);
        }
        let id = self.next_fund_source_id;
        self.fund_sources.push(
            FundSourceRow {
                id,
                user_id,
                name: new_fund_source.name.clone(),
                default_currency: new_fund_source.default_currency.clone(),
                created_at,
            },
        );
        self.next_fund_source_id = id + 1;
        proof {
            let n = self.fund_sources@.len() - 1;
            assert forall|i: int, j: int|
                0 <= i < self.fund_sources@.len() && 0 <= j < self.fund_sources@.len() && i != j
                    implies #[trigger] self.fund_sources@[i].id != #[trigger] self.fund_sources@[j].id by {
                if i != n {
                    assert(old(self).fund_sources@[i] == self.fund_sources@[i]);
                }
                if j != n {
                    assert(old(self).fund_sources@[j] == self.fund_sources@[j]);
                }
            }
            assert forall|i: int| 0 <= i < self.fund_sources@.len()
                implies #[trigger] self.fund_sources@[i].id < self.next_fund_source_id by {
                if i != n {
                    assert(old(self).fund_sources@[i] == self.fund_sources@[i]);
                }
            }
        }
        Ok(id)
    }

    /// Removes a fund source that the caller owns; its budgets and
    /// transactions stay, and a budget whose parent is gone is owned by nobody.
    pub fn delete_fund_source(&mut self, user_id: u32, fund_source_id: u32) -> (r: Result<
        (),
        LedgerError,
    >)
        requires
            old(self).wf(),
        ensures
            final(self).wf(),
            old(self).fund_source_owner(fund_source_id) != Some(user_id) ==> r == Err::<
                (),
                LedgerError,
            >(LedgerError::Denied) && *final(self) == *old(self),
            old(self).fund_source_owner(fund_source_id) == Some(user_id) ==> {
                &&& r == Ok::<(), LedgerError>(())
                &&& final(self).fund_sources@ == old(self).fund_sources@.remove(
                    old(self).fund_source_index(fund_source_id),
                )
                &&& final(self).next_fund_source_id == old(self).next_fund_source_id
                &&& final(self).users == old(self).users
                &&& final(self).budgets == old(self).budgets
                &&& final(self).transactions == old(self).transactions
                &&& final(self).next_user_id == old(self).next_user_id
                &&& final(self).next_budget_id == old(self).next_budget_id
                &&& final(self).next_transaction_id == old(self).next_transaction_id
            },
    {
        let f = match self.find_fund_source(fund_source_id) {
            Some(f) => f,
            None => return Err(LedgerError::Denied),
        };
        if self.fund_sources[f].user_id != user_id {
            return Err(LedgerError::Denied);
        }
        proof {
            let c = old(self).fund_source_index(fund_source_id);
            assert(old(self).fund_sources@[c].id == fund_source_id);
            assert(c == f as int) by {
                assert(old(self).fund_sources@[c].id == old(self).fund_sources@[f as int].id);
            }
        }
        let _removed = self.fund_sources.remove(f);
        proof {
            let o = old(self).fund_sources@;
            let s = self.fund_sources@;
            assert(s =~= o.remove(f as int));
            assert forall|i: int, j: int|
                0 <= i < s.len() && 0 <= j < s.len() && i != j
                    implies #[trigger] s[i].id != #[trigger] s[j].id by {
                let oi = if i < f { i } else { i + 1 };
                let oj = if j < f { j } else { j + 1 };
                assert(s[i] == o[oi]);
                assert(s[j] == o[oj]);
            }
            assert forall|i: int| 0 <= i < s.len()
                implies #[trigger] s[i].id < self.next_fund_source_id by {
                let oi = if i < f { i } else { i + 1 };
                assert(s[i] == o[oi]);
            }
        }
        Ok(())
    }

    /// A fund source that the caller owns, with its balance and without its owner.
    pub fn get_fund_source(&self, user_id: u32, fund_source_id: u32) -> (r: Result<
        JsonFundSource,
        LedgerError,
    >)
        requires
            self.wf(),
        ensures
            self.fund_source_owner(fund_source_id) != Some(user_id) ==> r == Err::<
                JsonFundSource,
                LedgerError,
            >(LedgerError::Denied),
            self.fund_source_owner(fund_source_id) == Some(user_id) ==> r == Ok::<
                JsonFundSource,
                LedgerError,
            >(
                JsonFundSource {
                    id: fund_source_id,
                    name: self.fund_source_row(fund_source_id).name,
                    default_currency: self.fund_source_row(fund_source_id).default_currency,
                    created_at: self.fund_source_row(fund_source_id).created_at,
                    balance: Some(volume_sum(self.transactions@, fund_source_id) as i128),
                },
            ),
    {
        let f = match self.find_fund_source(fund_source_id) {
            Some(f) => f,
            None => return Err(LedgerError::Denied),
        };
        let row = &self.fund_sources[f];
        if row.user_id != user_id {
            return Err(LedgerError::Denied);
        }
        let balance = self.fund_source_balance(fund_source_id);
        Ok(
            JsonFundSource {
                id: fund_source_id,
                name: row.name.clone(),
                default_currency: row.default_currency.clone(),
                created_at: row.created_at,
                balance: Some(balance),
            },
        )
    }

    /// Opens a budget under a fund source that the caller owns.
    pub fn create_budget(&mut self, user_id: u32, fund_source_id: u32, name: String) -> (r: Result<
        u32,
        LedgerError,
    >)
        requires
            old(self).wf(),
        ensures
            final(self).wf(),
            old(self).fund_source_owner(fund_source_id) != Some(user_id) ==> r == Err::<
                u32,
                LedgerError,
            >(LedgerError::Denied) && *final(self) == *old(self),
            old(self).fund_source_owner(fund_source_id) == Some(user_id)
                && old(self).next_budget_id == u32::MAX ==> r == Err::<u32, LedgerError>(
                LedgerError::StorageUnavailable,
            ) && *final(self) == *old(self),
            old(self).fund_source_owner(fund_source_id) == Some(user_id)
                && old(self).next_budget_id < u32::MAX ==> {
                &&& r == Ok::<u32, LedgerError>(old(self).next_budget_id)
                &&& final(self).budgets@ == old(self).budgets@.push(
                    BudgetRow { id: old(self).next_budget_id, fund_source_id: fund_source_id, name: name },
                )
                &&& final(self).next_budget_id == old(self).next_budget_id + 1
                &&& final(self).users == old(self).users
                &&& final(self).fund_sources == old(self).fund_sources
                &&& final(self).transactions == old(self).transactions
                &&& final(self).next_user_id == old(self).next_user_id
                &&& final(self).next_fund_source_id == old(self).next_fund_source_id
                &&& final(self).next_transaction_id == old(self).next_transaction_id
            },
    {
        let owned = TransactionContext::FundSource.check_user_id(self, user_id, fund_source_id);
        if !owned {
            return Err(LedgerError::Denied);
        }
        if self.next_budget_id == u32::MAX {
            return Err(LedgerError::StorageUnavailable);
        }
        let id = self.next_budget_id;
        self.budgets.push(BudgetRow { id, fund_source_id, name });
        self.next_budget_id = id + 1;
        proof {
            let n = self.budgets@.len() - 1;
            assert forall|i: int, j: int|
                0 <= i < self.budgets@.len() && 0 <= j < self.budgets@.len() && i != j
                    implies #[trigger] self.budgets@[i].id != #[trigger] self.budgets@[j].id by {
                if i != n {
                    assert(old(self).budgets@[i] == self.budgets@[i]);
                }
                if j != n {
                    assert(old(self).budgets@[j] == self.budgets@[j]);
                }
            }
            assert forall|i: int| 0 <= i < self.budgets@.len()
                implies #[trigger] self.budgets@[i].id < self.next_budget_id by {
                if i != n {
                    assert(old(self).budgets@[i] == self.budgets@[i]);
                }
            }
        }
        Ok(id)
    }
}

} // verus!
