use vstd::prelude::*;

use vstd::utf8::encode_utf8;

use crate::error::LedgerError;
use crate::ledger::Ledger;
use crate::password::{check_password_hash, hash_password, spec_hash_password};
use crate::records::{JsonCreateUser, JsonLoginUser, JsonUserDetails, UserRow};

verus! {

/// Longest username, in bytes.
pub const USERNAME_MAX_BYTES: usize = 30;

/// Longest email address, in bytes.
pub const EMAIL_MAX_BYTES: usize = 254;

impl Ledger {
    /// Registers an account. The username and the email are checked for
    /// length, then for use by another account, in that order.
    pub fn create_user(&mut self, new_user: &JsonCreateUser, created_at: i64) -> (r: Result<
        u32,
        LedgerError,
    >)
        requires
            old(self).wf(),
        ensures
            final(self).wf(),
            r is Err ==> *final(self) == *old(self),
            encode_utf8(new_user.username@).len() > USERNAME_MAX_BYTES ==> r == Err::<
                u32,
                LedgerError,
            >(LedgerError::UsernameTooLong),
            encode_utf8(new_user.username@).len() <= USERNAME_MAX_BYTES && encode_utf8(
                new_user.email@,
            ).len() > EMAIL_MAX_BYTES ==> r == Err::<u32, LedgerError>(LedgerError::EmailTooLong),
            encode_utf8(new_user.username@).len() <= USERNAME_MAX_BYTES && encode_utf8(
                new_user.email@,
            ).len() <= EMAIL_MAX_BYTES ==> {
                &&& old(self).username_taken(new_user.username@) ==> r == Err::<u32, LedgerError>(
                    LedgerError::UsernameTaken,
                )
                &&& !old(self).username_taken(new_user.username@) && old(self).email_taken(
                    new_user.email@,
                ) ==> r == Err::<u32, LedgerError>(LedgerError::EmailTaken)
                &&& !old(self).username_taken(new_user.username@) && !old(self).email_taken(
                    new_user.email@,
                ) && old(self).next_user_id == u32::MAX ==> r == Err::<u32, LedgerError>(
                    LedgerError::StorageUnavailable,
                )
                &&& !old(self).username_taken(new_user.username@) && !old(self).email_taken(
                    new_user.email@,
                ) && old(self).next_user_id < u32::MAX ==> {
                    &&& r == Ok::<u32, LedgerError>(old(self).next_user_id)
                    &&& final(self).users@.len() == old(self).users@.len() + 1
                    &&& final(self).users@.drop_last() == old(self).users@
                    &&& final(self).users@.last().id == old(self).next_user_id
                    &&& final(self).users@.last().username == new_user.username
                    &&& final(self).users@.last().email == new_user.email
                    &&& final(self).users@.last().password_hash@ == spec_hash_password(
                        encode_utf8(new_user.password@),
                        encode_utf8(new_user.username@),
                    )
                    &&& final(self).users@.last().created_at == created_at
                    &&& final(self).next_user_id == old(self).next_user_id + 1
                    &&& final(self).fund_sources == old(self).fund_sources
                    &&& final(self).budgets == old(self).budgets
                    &&& final(self).transactions == old(self).transactions
                    &&& final(self).next_fund_source_id == old(self).next_fund_source_id
                    &&& final(self).next_budget_id == old(self).next_budget_id
                    &&& final(self).next_transaction_id == old(self).next_transaction_id
                }
            },
    {
        if new_user.username.as_str().as_bytes().len() > USERNAME_MAX_BYTES {
            return Err(LedgerError::UsernameTooLong);
        }
        if new_user.email.as_str().as_bytes().len() > EMAIL_MAX_BYTES {
            return Err(LedgerError::EmailTooLong);
        }
        let mut i: usize = 0;
        while i < self.users.len()
            invariant
                *self == *old(self),
                self.wf(),
                encode_utf8(new_user.username@).len() <= USERNAME_MAX_BYTES,
                encode_utf8(new_user.email@).len() <= EMAIL_MAX_BYTES,
                0 <= i <= self.users@.len(),
                forall|k: int| 0 <= k < i ==> #[trigger] self.users@[k].username@ != new_user.username@,
            decreases self.users@.len() - i,
        {
            if self.users[i].username == new_user.username {
                assert(self.username_taken(new_user.username@));
                return Err(LedgerError::UsernameTaken);
            }
            i = i + 1;
        }
        let mut j: usize = 0;
        while j < self.users.len()
            invariant
                *self == *old(self),
                self.wf(),
                encode_utf8(new_user.username@).len() <= USERNAME_MAX_BYTES,
                encode_utf8(new_user.email@).len() <= EMAIL_MAX_BYTES,
                0 <= j <= self.users@.len(),
                forall|k: int| 0 <= k < self.users@.len() ==> #[trigger] self.users@[k].username@ != new_user.username@,
                forall|k: int| 0 <= k < j ==> #[trigger] self.users@[k].email@ != new_user.email@,
            decreases self.users@.len() - j,
        {
            if self.users[j].email == new_user.email {
                assert(self.email_taken(new_user.email@));
                return Err(LedgerError::EmailTaken);
            }
            j = j + 1;
        }
        if self.next_user_id == u32::MAX {
            return Err(LedgerError::StorageUnavailable);
        }
        let password_hash = hash_password(
            new_user.password.as_str().as_bytes(),
            new_user.username.as_str().as_bytes(),
        );
        let id = self.next_user_id;
        self.users.push(
            UserRow {
                id,
                username: new_user.username.clone(),
                email: new_user.email.clone(),
                password_hash,
                created_at,
            },
        );
        self.next_user_id = id + 1;
        proof {
            let n = self.users@.len() - 1;
            assert(self.users@.drop_last() =~= old(self).users@);
            assert forall|i: int, j: int|
                0 <= i < self.users@.len() && 0 <= j < self.users@.len() && i != j
                    implies #[trigger] self.users@[i].id != #[trigger] self.users@[j].id
                    && self.users@[i].username@ != self.users@[j].username@
                    && self.users@[i].email@ != self.users@[j].email@ by {
                if i != n {
                    assert(old(self).users@[i] == self.users@[i]);
                }
                if j != n {
                    assert(old(self).users@[j] == self.users@[j]);
                }
            }
            assert forall|i: int| 0 <= i < self.users@.len()
                implies #[trigger] self.users@[i].id < self.next_user_id by {
                if i != n {
                    assert(old(self).users@[i] == self.users@[i]);
                }
            }
        }
        Ok(id)
    }

    /// The account that the email and password open: `BadCredentials` alike
    /// for an unknown email and for a wrong password.
    pub fn login_user(&self, user_details: &JsonLoginUser) -> (r: Result<u32, LedgerError>)
        requires
            self.wf(),
        ensures
            r matches Ok(id) ==> exists|i: int|
                self.login_matches(i, user_details.email@, user_details.password@)
                    && #[trigger] self.users@[i].id == id,
            r is Err ==> r == Err::<u32, LedgerError>(LedgerError::BadCredentials) && forall|i: int|
                !#[trigger] self.login_matches(i, user_details.email@, user_details.password@),
    {
        let mut i: usize = 0;
        while i < self.users.len()
            invariant
                self.wf(),
                0 <= i <= self.users@.len(),
                forall|k: int| 0 <= k < i ==> #[trigger] self.users@[k].email@ != user_details.email@,
            decreases self.users@.len() - i,
        {
            let row = &self.users[i];
            if row.email == user_details.email {
                let ok = check_password_hash(
                    row.password_hash.as_str(),
                    user_details.password.as_str().as_bytes(),
                    row.username.as_str().as_bytes(),
                );
                if ok {
                    assert(self.login_matches(i as int, user_details.email@, user_details.password@));
                    return Ok(row.id);
                }
                assert forall|k: int|
                    !#[trigger] self.login_matches(k, user_details.email@, user_details.password@) by {
                    if 0 <= k < self.users@.len() && k != i as int {
                        assert(self.users@[k].email@ != self.users@[i as int].email@);
                    }
                }
                return Err(LedgerError::BadCredentials);
            }
            i = i + 1;
        }
        Err(LedgerError::BadCredentials)
    }

    /// The details of the signed-in account, without its password hash;
    /// `NotAuthenticated` where the account no longer exists.
    pub fn get_user_details(&self, user_id: u32) -> (r: Result<JsonUserDetails, LedgerError>)
        requires
            self.wf(),
        ensures
            !self.has_user(user_id) ==> r == Err::<JsonUserDetails, LedgerError>(
                LedgerError::NotAuthenticated,
            ),
            self.has_user(user_id) ==> r == Ok::<JsonUserDetails, LedgerError>(
                JsonUserDetails {
                    id: user_id,
                    username: self.user_row(user_id).username,
                    email: self.user_row(user_id).email,
                    created_at: self.user_row(user_id).created_at,
                },
            ),
    {
        let mut i: usize = 0;
        while i < self.users.len()
            invariant
                self.wf(),
                0 <= i <= self.users@.len(),
                forall|k: int| 0 <= k < i ==> #[trigger] self.users@[k].id != user_id,
            decreases self.users@.len() - i,
        {
            let row = &self.users[i];
            if row.id == user_id {
                let ghost c = choose|k: int|
                    0 <= k < self.users@.len() && #[trigger] self.users@[k].id == user_id;
                assert(self.users@[i as int].id == user_id);
                assert(c == i as int) by {
                    assert(self.users@[c].id == self.users@[i as int].id);
                }
                return Ok(
                    JsonUserDetails {
                        id: user_id,
                        username: row.username.clone(),
                        email: row.email.clone(),
                        created_at: row.created_at,
                    },
                );
            }
            i = i + 1;
        }
        Err(LedgerError::NotAuthenticated)
    }
}

} // verus!
