use vstd::prelude::*;

use crate::error::LedgerError;

verus! {

/// The session handle could not be decoded.
#[derive(Clone, Copy, Debug, PartialEq, Eq, Structural)]
pub struct SessionDecodeError;

/// The user identifier that a session lookup yields: the stored identifier,
/// `NotAuthenticated` when none is stored, `SessionCorrupted` when the
/// session itself could not be read.
pub fn get_user_id(stored: Result<Option<u32>, SessionDecodeError>) -> (r: Result<u32, LedgerError>)
    ensures
        stored matches Ok(Some(id)) ==> r == Ok::<u32, LedgerError>(id),
        stored matches Ok(None) ==> r == Err::<u32, LedgerError>(LedgerError::NotAuthenticated),
        stored is Err ==> r == Err::<u32, LedgerError>(LedgerError::SessionCorrupted),
{
    match stored {
        Ok(Some(user_id)) => Ok(user_id),
        Ok(None) => Err(LedgerError::NotAuthenticated),
        Err(_) => Err(LedgerError::SessionCorrupted),
    }
}

} // verus!
