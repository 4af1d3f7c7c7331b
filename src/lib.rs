use vstd::prelude::*;

pub mod accounts;
pub mod error;
pub mod fund_sources;
pub mod identity;
pub mod ledger;
pub mod password;
pub mod records;
pub mod scope;
pub mod transactions;

verus! {

} // verus!
