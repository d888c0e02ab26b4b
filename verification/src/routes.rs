//! The request boundary: the guard that turns an `Authorization` header into
//! a user, and what a caller is told when a request fails.

use crate::clock::system_seconds;
use crate::error::{AuthError, ServiceError};
use crate::service::AuthHandler;
use crate::storage::traits::AuthStore;
use crate::token::{authenticated, lemma_rejection_is_invalid_token};
use crate::types::AuthenticationRequest;
use vstd::prelude::*;
use vstd::string::{StrSliceExecFns, StringExecFns};

verus! {

/// The scheme and the one space that a header must start with.
pub open spec fn bearer_prefix() -> Seq<char> {
    seq!['B', 'e', 'a', 'r', 'e', 'r', ' ']
}

/// The token of a header of the form `Bearer <token>`: the scheme, one
/// space, and a token without a space (it may be empty). Any other header has
/// none.
pub open spec fn bearer_token(header: Seq<char>) -> Option<Seq<char>> {
    if header.len() >= 7 && header.subrange(0, 7) == bearer_prefix() && !header.subrange(
        7,
        header.len() as int,
    ).contains(' ') {
        Some(header.subrange(7, header.len() as int))
    } else {
        None
    }
}

/// What the guard answers to a header at the time `now`: a header of another
/// form is malformed, whatever it holds; the token of a well-formed one is
/// verified.
pub open spec fn header_verdict(public: Seq<u8>, header: Seq<char>, now: u64) -> Result<
    u128,
    AuthError,
> {
    match bearer_token(header) {
        Some(token) => authenticated(public, token, now),
        None => Err(AuthError::MalformedAuthorizationHeader),
    }
}

/// True when the header admits the user `user_id` at some time.
pub open spec fn admitted_sometime(public: Seq<u8>, header: Seq<char>, user_id: u128) -> bool {
    exists|now: u64| #[trigger] header_verdict(public, header, now) == Ok::<u128, AuthError>(
        user_id,
    )
}

/// True when the header is refused with the error `e` at some time.
pub open spec fn refused_sometime(public: Seq<u8>, header: Seq<char>, e: AuthError) -> bool {
    exists|now: u64| #[trigger] header_verdict(public, header, now) == Err::<u128, AuthError>(e)
}

/// What a request by `authenticated` for the data of `requested` is
/// answered: a user acts for themselves alone, and a request for another
/// user's data is no more authorized than one without a token.
pub open spec fn scope_verdict(authenticated: u128, requested: u128) -> Result<u128, AuthError> {
    if authenticated == requested {
        Ok(authenticated)
    } else {
        Err(AuthError::InvalidToken)
    }
}

/// Scopes a request to the user that the token of the request stands for.
pub fn authorize(authenticated: u128, requested: u128) -> (r: Result<u128, AuthError>)
    ensures
        r == scope_verdict(authenticated, requested),
{
    if authenticated == requested {
        Ok(authenticated)
    } else {
        Err(AuthError::InvalidToken)
    }
}

/// The character that a well-formed header holds at place `i < 7`.
fn prefix_char(i: usize) -> (c: char)
    requires
        i < 7,
    ensures
        c == bearer_prefix()[i as int],
{
    if i == 0 {
        'B'
    } else if i == 1 {
        'e'
    } else if i == 2 {
        'a'
    } else if i == 3 {
        'r'
    } else if i == 4 {
        'e'
    } else if i == 5 {
        'r'
    } else {
        ' '
    }
}

/// Takes the token out of the value of an `Authorization` header.
pub fn parse_bearer(header: &str) -> (r: Option<String>)
    ensures
        r is Some <==> bearer_token(header@) is Some,
        r matches Some(token) ==> bearer_token(header@) == Some(token@),
{
    let n = header.unicode_len();
    if n < 7 {
        return None;
    }
    let mut i: usize = 0;
    let mut well_formed = true;
    for c in it: header.chars()
        invariant
            n == header@.len(),
            it.seq() == header@,
            i == it.index(),
            well_formed <==> ((forall|j: int|
                0 <= j < i && j < 7 ==> #[trigger] header@[j] == bearer_prefix()[j]) && (forall|
                j: int,
            | 7 <= j < i ==> #[trigger] header@[j] != ' ')),
    {
        if i < 7 {
            if c != prefix_char(i) {
                well_formed = false;
            }
        } else if c == ' ' {
            well_formed = false;
        }
        i = i + 1;
    }
    if well_formed {
        let token = header.substring_char(7, n);
        proof {
            assert(header@.subrange(0, 7) =~= bearer_prefix());
            assert(!header@.subrange(7, n as int).contains(' '));
        }
        Some(String::from_str(token))
    } else {
        proof {
            if header@.subrange(0, 7) == bearer_prefix() && !header@.subrange(
                7,
                n as int,
            ).contains(' ') {
                assert forall|j: int| 0 <= j < 7 implies #[trigger] header@[j] == bearer_prefix()[j] by {
                    assert(header@.subrange(0, 7)[j] == header@[j]);
                }
                assert forall|j: int| 7 <= j < n implies #[trigger] header@[j] != ' ' by {
                    assert(header@.subrange(7, n as int)[j - 7] == header@[j]);
                }
            }
        }
        None
    }
}

/// The guard, at the time `now`.
pub fn authenticate_at<T: AuthStore>(
    handler: &AuthHandler<T>,
    authorization_header: &str,
    now: u64,
) -> (r: Result<u128, AuthError>)
    ensures
        r == header_verdict(handler.public@, authorization_header@, now),
{
    let jwt = match parse_bearer(authorization_header) {
        Some(jwt) => jwt,
        None => {
            return Err(AuthError::MalformedAuthorizationHeader);
        },
    };
    match handler.authenticate_at(&AuthenticationRequest { json_web_token: jwt }, now) {
        Ok(response) => Ok(response.user_uuid),
        Err(e) => Err(e),
    }
}

/// The guard: tells which user a request is made by, from the value of its
/// `Authorization` header. A header that is not of the form `Bearer <token>`
/// is malformed, and no token is looked at.
pub fn authenticate<T: AuthStore>(handler: &AuthHandler<T>, authorization_header: String) -> (r:
    Result<u128, AuthError>)
    ensures
        bearer_token(authorization_header@) is None <==> r == Err::<u128, AuthError>(
            AuthError::MalformedAuthorizationHeader,
        ),
        r matches Ok(user_id) ==> admitted_sometime(
            handler.public@,
            authorization_header@,
            user_id,
        ),
        r matches Err(e) ==> e == AuthError::ClockUnavailable || ((e
            == AuthError::MalformedAuthorizationHeader || e == AuthError::InvalidToken)
            && refused_sometime(handler.public@, authorization_header@, e)),
{
    if parse_bearer(authorization_header.as_str()).is_none() {
        assert(header_verdict(handler.public@, authorization_header@, 0) == Err::<
            u128,
            AuthError,
        >(AuthError::MalformedAuthorizationHeader));
        return Err(AuthError::MalformedAuthorizationHeader);
    }
    match system_seconds() {
        Some(now) => {
            let r = authenticate_at(handler, authorization_header.as_str(), now);
            proof {
                lemma_rejection_is_invalid_token(
                    handler.public@,
                    bearer_token(authorization_header@).unwrap(),
                    now,
                );
                assert(header_verdict(handler.public@, authorization_header@, now) == r);
            }
            r
        },
        None => Err(AuthError::ClockUnavailable),
    }
}

/// A header with another scheme, or none, is refused as malformed at every
/// time and under every key.
pub proof fn lemma_other_scheme_is_malformed(public: Seq<u8>, header: Seq<char>, now: u64)
    requires
        header.len() < 7 || header.subrange(0, 7) != bearer_prefix(),
    ensures
        header_verdict(public, header, now) == Err::<u128, AuthError>(
            AuthError::MalformedAuthorizationHeader,
        ),
{
}

/// How a failure is classed for the reply.
#[derive(Debug)]
pub enum ErrorType {
    /// A failure of the service itself. The text is for the log.
    Unknown(String),
    /// The request was not authorized. Nothing more is said.
    Unauthorized,
    /// The request cannot be served as it stands. The text says why.
    BadRequest(String),
}

/// A failed request.
#[derive(Debug)]
pub struct CustomError {
    pub error: ErrorType,
}

/// What a caller is told of a failed request.
#[derive(Debug)]
pub struct ErrorMessage {
    pub code: u16,
    pub message: String,
}

/// The status of a reply to a failure of the service itself.
pub const INTERNAL_SERVER_ERROR: u16 = 500;

/// The status of a reply to a request that was not authorized.
pub const UNAUTHORIZED: u16 = 401;

/// The status of a reply to a request that cannot be served as it stands.
pub const BAD_REQUEST: u16 = 400;

/// The status that a failure of the identity service is answered with.
pub open spec fn reply_code(e: AuthError) -> u16 {
    if e.is_unauthorized() {
        UNAUTHORIZED
    } else if e == AuthError::DuplicateEmail {
        BAD_REQUEST
    } else {
        INTERNAL_SERVER_ERROR
    }
}

/// The text that a failure of the identity service is answered with.
pub open spec fn reply_text(e: AuthError) -> Seq<char> {
    if e.is_unauthorized() {
        "unauthorized"@
    } else {
        e.log_text()
    }
}

/// The text that a failure of the service for buddies and interactions is
/// answered with.
pub open spec fn service_text(e: ServiceError) -> Seq<char> {
    match e {
        ServiceError::ClockUnavailable => "clock unavailable"@,
        ServiceError::Store(_) => "store failure"@,
    }
}

impl CustomError {
    pub fn unknown(message: String) -> (r: Self)
        ensures
            r.error matches ErrorType::Unknown(text) && text@ == message@,
    {
        CustomError { error: ErrorType::Unknown(message) }
    }

    /// The status and text of this failure.
    pub open spec fn reply(self) -> (u16, Seq<char>) {
        match self.error {
            ErrorType::Unknown(text) => (INTERNAL_SERVER_ERROR, text@),
            ErrorType::Unauthorized => (UNAUTHORIZED, "unauthorized"@),
            ErrorType::BadRequest(text) => (BAD_REQUEST, text@),
        }
    }

    /// Classes a failure of the identity service. The three failures of
    /// authentication become one.
    pub fn of_auth(e: AuthError) -> (r: Self)
        ensures
            r.reply() == (reply_code(e), reply_text(e)),
            e.is_unauthorized() <==> r.error is Unauthorized,
    {
        match e {
            AuthError::InvalidCredentials
            | AuthError::InvalidToken
            | AuthError::MalformedAuthorizationHeader => CustomError {
                error: ErrorType::Unauthorized,
            },
            AuthError::DuplicateEmail => CustomError { error: ErrorType::BadRequest(e.message()) },
            _ => CustomError { error: ErrorType::Unknown(e.message()) },
        }
    }

    /// Classes a failure of the service for buddies and interactions: it is
    /// a failure of the service itself.
    pub fn of_service(e: ServiceError) -> (r: Self)
        ensures
            r.error is Unknown,
            r.reply() == (INTERNAL_SERVER_ERROR, service_text(e)),
    {
        match e {
            ServiceError::ClockUnavailable => CustomError::unknown(
                String::from_str("clock unavailable"),
            ),
            ServiceError::Store(_) => CustomError::unknown(String::from_str("store failure")),
        }
    }
}

/// What a caller is told of a failed request.
pub fn error_reply(error: &CustomError) -> (r: ErrorMessage)
    ensures
        (r.code, r.message@) == error.reply(),
{
    match &error.error {
        ErrorType::Unknown(text) => ErrorMessage {
            code: INTERNAL_SERVER_ERROR,
            message: text.clone(),
        },
        ErrorType::Unauthorized => ErrorMessage {
            code: UNAUTHORIZED,
            message: String::from_str("unauthorized"),
        },
        ErrorType::BadRequest(text) => ErrorMessage { code: BAD_REQUEST, message: text.clone() },
    }
}

/// The failures of authentication are answered alike: from the reply a
/// caller cannot tell an unknown user from a wrong password, nor a malformed
/// header from a token that is forged or has expired.
pub proof fn lemma_unauthorized_replies_are_alike(a: AuthError, b: AuthError)
    requires
        a.is_unauthorized(),
        b.is_unauthorized(),
    ensures
        reply_code(a) == reply_code(b),
        reply_text(a) == reply_text(b),
{
}

} // verus!
