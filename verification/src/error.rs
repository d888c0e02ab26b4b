//! The errors the library reports.

use vstd::prelude::*;
use vstd::string::StringExecFns;

verus! {

/// Why a store refused a request.
#[derive(Clone, Copy, Debug, PartialEq, Eq, Structural)]
pub enum StoreError {
    /// A user with this email is already registered.
    DuplicateEmail,
    /// Nothing is stored under the key that was asked for.
    NotFound,
    /// The store could not be reached or failed to answer.
    Unavailable,
}

/// Why authentication, sign-up or login failed.
#[derive(Clone, Copy, Debug, PartialEq, Eq, Structural)]
pub enum AuthError {
    /// Sign-up with an email that is already registered.
    DuplicateEmail,
    /// No such user, or the password does not match: the two are one error.
    InvalidCredentials,
    /// The token is malformed, carries a bad signature, or has expired.
    InvalidToken,
    /// The `Authorization` header is not of the form `Bearer <token>`.
    MalformedAuthorizationHeader,
    /// The user store failed.
    StoreUnavailable,
    /// The password could not be hashed.
    HashingFailed,
    /// The token could not be signed.
    TokenIssueFailed,
    /// The system clock gave no usable time.
    ClockUnavailable,
}

/// Why a request about buddies or interactions failed.
#[derive(Clone, Copy, Debug, PartialEq, Eq, Structural)]
pub enum ServiceError {
    /// The system clock gave no usable time.
    ClockUnavailable,
    /// The store refused.
    Store(StoreError),
}

/// Why a row of the database is not a record.
#[derive(Clone, Copy, Debug, PartialEq, Eq, Structural)]
pub enum ModelError {
    /// The identifier of the record is no identifier.
    InvalidId,
    /// The identifier of the user is no identifier.
    InvalidUserId,
    /// The time of creation is no number.
    InvalidCreateTimestamp,
    /// The time of the last update is no number.
    InvalidUpdateTimestamp,
    /// The time of archiving is no number.
    InvalidDeleteTimestamp,
    /// A participant is no identifier.
    InvalidParticipant,
    /// A participant is listed twice.
    DuplicateParticipant,
}

impl AuthError {
    /// The error that a refusal of the store becomes: an email that is taken
    /// stays what it is, and every other refusal is a failure of the store.
    /// `NotFound` has no meaning of its own at this level; the callers that
    /// expect it handle it before they get here.
    pub open spec fn of_store(e: StoreError) -> AuthError {
        match e {
            StoreError::DuplicateEmail => AuthError::DuplicateEmail,
            StoreError::NotFound => AuthError::StoreUnavailable,
            StoreError::Unavailable => AuthError::StoreUnavailable,
        }
    }

    pub fn from_store(e: StoreError) -> (r: AuthError)
        ensures
            r == Self::of_store(e),
    {
        match e {
            StoreError::DuplicateEmail => AuthError::DuplicateEmail,
            StoreError::NotFound => AuthError::StoreUnavailable,
            StoreError::Unavailable => AuthError::StoreUnavailable,
        }
    }

    /// True of the failures that must look alike from outside: whoever
    /// receives one learns only that the request was not authorized.
    pub open spec fn is_unauthorized(self) -> bool {
        self == AuthError::InvalidCredentials || self == AuthError::InvalidToken || self
            == AuthError::MalformedAuthorizationHeader
    }

    /// The text that goes to the log. It tells the variants apart.
    pub open spec fn log_text(self) -> Seq<char> {
        match self {
            AuthError::DuplicateEmail => "email already registered"@,
            AuthError::InvalidCredentials => "invalid credentials"@,
            AuthError::InvalidToken => "invalid token"@,
            AuthError::MalformedAuthorizationHeader => "malformed authorization header"@,
            AuthError::StoreUnavailable => "store unavailable"@,
            AuthError::HashingFailed => "password could not be hashed"@,
            AuthError::TokenIssueFailed => "token could not be issued"@,
            AuthError::ClockUnavailable => "clock unavailable"@,
        }
    }

    pub fn message(&self) -> (r: String)
        ensures
            r@ == self.log_text(),
    {
        match self {
            AuthError::DuplicateEmail => String::from_str("email already registered"),
            AuthError::InvalidCredentials => String::from_str("invalid credentials"),
            AuthError::InvalidToken => String::from_str("invalid token"),
            AuthError::MalformedAuthorizationHeader => String::from_str(
                "malformed authorization header",
            ),
            AuthError::StoreUnavailable => String::from_str("store unavailable"),
            AuthError::HashingFailed => String::from_str("password could not be hashed"),
            AuthError::TokenIssueFailed => String::from_str("token could not be issued"),
            AuthError::ClockUnavailable => String::from_str("clock unavailable"),
        }
    }
}

} // verus!
