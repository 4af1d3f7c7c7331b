use vstd::prelude::*;

verus! {

/// Every failure that the ledger layer can report.
#[derive(Clone, Copy, Debug, PartialEq, Eq, Structural)]
pub enum LedgerError {
    /// The session holds no user identifier.
    NotAuthenticated,
    /// The session handle could not be decoded.
    SessionCorrupted,
    /// The route does not exist (an unknown scope kind).
    NotFound,
    /// The scope identifier is not a non-negative integer.
    InvalidIdentifier,
    /// The caller does not own the scope, or the scope does not exist.
    Denied,
    /// The storage layer could not complete the operation.
    StorageUnavailable,
    /// A username longer than the allowed number of bytes.
    UsernameTooLong,
    /// An email address longer than the allowed number of bytes.
    EmailTooLong,
    /// The username belongs to an existing account.
    UsernameTaken,
    /// The email address belongs to an existing account.
    EmailTaken,
    /// No account matches the given email and password.
    BadCredentials,
}

/// The HTTP status that each failure is reported with.
pub open spec fn spec_status_code(e: LedgerError) -> u16 {
    match e {
        LedgerError::SessionCorrupted => 403,
        LedgerError::NotFound => 404,
        LedgerError::StorageUnavailable => 500,
        _ => 400,
    }
}

/// The message that each failure is reported with.
pub open spec fn spec_message(e: LedgerError) -> Seq<char> {
    match e {
        LedgerError::NotAuthenticated => "Not logged in"@,
        LedgerError::SessionCorrupted => "Session corrupted"@,
        LedgerError::NotFound => "Page not found"@,
        LedgerError::InvalidIdentifier => "ID must be integer"@,
        LedgerError::Denied => "No appropriate fund_source or budget with that ID"@,
        LedgerError::StorageUnavailable => "Storage unavailable"@,
        LedgerError::UsernameTooLong => "Username exceeds character limit (30)"@,
        LedgerError::EmailTooLong => "Email exceeds character limit (254)"@,
        LedgerError::UsernameTaken => "Username already registered"@,
        LedgerError::EmailTaken => "Email already registered"@,
        LedgerError::BadCredentials => "Could not login with those credentials"@,
    }
}

impl LedgerError {
    /// The HTTP status of this failure at the boundary.
    pub fn status_code(&self) -> (r: u16)
        ensures
            r == spec_status_code(*self),
    {
        match self {
            LedgerError::SessionCorrupted => 403,
            LedgerError::NotFound => 404,
            LedgerError::StorageUnavailable => 500,
            _ => 400,
        }
    }

    /// The human-readable message of this failure at the boundary.
    pub fn message(&self) -> (r: &'static str)
        ensures
            r@ == spec_message(*self),
    {
        match self {
            LedgerError::NotAuthenticated => "Not logged in",
            LedgerError::SessionCorrupted => "Session corrupted",
            LedgerError::NotFound => "Page not found",
            LedgerError::InvalidIdentifier => "ID must be integer",
            LedgerError::Denied => "No appropriate fund_source or budget with that ID",
            LedgerError::StorageUnavailable => "Storage unavailable",
            LedgerError::UsernameTooLong => "Username exceeds character limit (30)",
            LedgerError::EmailTooLong => "Email exceeds character limit (254)",
            LedgerError::UsernameTaken => "Username already registered",
            LedgerError::EmailTaken => "Email already registered",
            LedgerError::BadCredentials => "Could not login with those credentials",
        }
    }
}

} // verus!
