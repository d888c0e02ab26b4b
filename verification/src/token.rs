//! The token codec: a claim about a user is signed into a bearer token with
//! the private key, and a token is opened with the public key and checked
//! against the clock.

use crate::error::AuthError;
use crate::ident::{format_id, id_text, parse_id, parsed_id};
use vstd::prelude::*;

verus! {

/// How long a token is good for, in seconds: 72 hours.
pub const TOKEN_LIFETIME_SECONDS: u64 = 259200;

/// What a token says: who its bearer is, and until when.
#[derive(Debug)]
pub struct Claims {
    /// The user's identifier, as text.
    pub sub: String,
    /// The last second, counted from the Unix epoch, at which the token is
    /// good.
    pub exp: u64,
}

/// A claim as plain values.
pub struct ClaimsView {
    pub sub: Seq<char>,
    pub exp: u64,
}

impl View for Claims {
    type V = ClaimsView;

    open spec fn view(&self) -> ClaimsView {
        ClaimsView { sub: self.sub@, exp: self.exp }
    }
}

/// The token that `jsonwebtoken::encode` makes of the claims `sub` and `exp`
/// under RS256 with the private key in `secret`; `None` where `secret` holds
/// no RSA private key that the crate can sign with. RS256 draws nothing at
/// random, so whether a token is made, and which, rests on the key and the
/// claims alone.
pub uninterp spec fn rs256_token(secret: Seq<u8>, sub: Seq<char>, exp: u64) -> Option<Seq<char>>;

/// The claims `sub` and `exp` that `jsonwebtoken::decode` reads from a token
/// whose RS256 signature the public key in `public` confirms; `None` where
/// the key or the token is malformed, the signature does not fit, or either
/// claim is missing. The expiry is not looked at here.
pub uninterp spec fn rs256_claims(public: Seq<u8>, token: Seq<char>) -> Option<(Seq<char>, u64)>;

/// The bytes `-----BEGIN `, with which the armour of every PEM text starts.
pub open spec fn pem_begin() -> Seq<u8> {
    seq![45u8, 45u8, 45u8, 45u8, 45u8, 66u8, 69u8, 71u8, 73u8, 78u8, 32u8]
}

/// True when the bytes `-----BEGIN ` occur in `key`. A key without them is
/// no PEM text.
pub open spec fn has_pem_begin(key: Seq<u8>) -> bool {
    exists|i: int| 0 <= i && i + 11 <= key.len() && #[trigger] key.subrange(i, i + 11) == pem_begin()
}

/// `jsonwebtoken::encode` with an RS256 header, on the key that
/// `EncodingKey::from_rsa_pem` reads from `secret`. Trusted: whether a token
/// comes back, and which, is a function of the key and the two claims alone;
/// a token is never empty, being three parts joined by dots; and a key
/// without the bytes `-----BEGIN ` is refused by the PEM parser.
#[verifier::external_body]
fn rs256_sign(secret: &[u8], sub: &str, exp: u64) -> (r: Option<String>)
    ensures
        r is Some <==> rs256_token(secret@, sub@, exp) is Some,
        r matches Some(token) ==> rs256_token(secret@, sub@, exp) == Some(token@)
            && token@.len() > 0,
        !has_pem_begin(secret@) ==> r is None,
{
    let key = jsonwebtoken::EncodingKey::from_rsa_pem(secret).ok()?;
    let mut claims = serde_json::Map::new();
    claims.insert(String::from("sub"), serde_json::Value::from(sub));
    claims.insert(String::from("exp"), serde_json::Value::from(exp));
    let header = jsonwebtoken::Header::new(jsonwebtoken::Algorithm::RS256);
    jsonwebtoken::encode(&header, &claims, &key).ok()
}

/// `jsonwebtoken::decode` for RS256, on the key that
/// `DecodingKey::from_rsa_pem` reads from `public`, with the crate's own
/// expiry check switched off: the codec checks the expiry itself, against
/// the time it is given. Trusted: the result is a function of the key and the
/// token alone, and a key without the bytes `-----BEGIN ` is refused by the
/// PEM parser.
#[verifier::external_body]
fn rs256_open(public: &[u8], token: &str) -> (r: Option<(String, u64)>)
    ensures
        r is Some <==> rs256_claims(public@, token@) is Some,
        r matches Some(claims) ==> rs256_claims(public@, token@) == Some((claims.0@, claims.1)),
        !has_pem_begin(public@) ==> r is None,
{
    let key = jsonwebtoken::DecodingKey::from_rsa_pem(public).ok()?;
    let mut validation = jsonwebtoken::Validation::new(jsonwebtoken::Algorithm::RS256);
    validation.validate_exp = false;
    let data = jsonwebtoken::decode::<serde_json::Value>(token, &key, &validation).ok()?;
    let sub = data.claims.get("sub")?.as_str()?;
    let exp = data.claims.get("exp")?.as_u64()?;
    Some((String::from(sub), exp))
}

/// The second at which a token issued at `now` stops being good.
pub open spec fn expiry(now: u64) -> int {
    now + TOKEN_LIFETIME_SECONDS
}

/// The claim made for a user at the time `now`.
pub open spec fn claims_for(user_id: u128, now: u64) -> ClaimsView {
    ClaimsView { sub: id_text(user_id), exp: expiry(now) as u64 }
}

/// True when `token` is the token issued to `user_id` at the time `now` under
/// the private key in `secret`: the expiry fits in 64 bits, the token is the
/// signed claim for that user and that expiry, and the subject of the claim
/// reads back as the user's identifier.
pub open spec fn issued(secret: Seq<u8>, user_id: u128, now: u64, token: Seq<char>) -> bool {
    &&& expiry(now) <= u64::MAX
    &&& rs256_token(secret, id_text(user_id), expiry(now) as u64) == Some(token)
    &&& parsed_id(id_text(user_id)) == Some(user_id)
}

/// True when a token can be issued to `user_id` at the time `now` under the
/// private key in `secret`: the expiry fits in 64 bits and the key signs the
/// claim.
pub open spec fn can_issue(secret: Seq<u8>, user_id: u128, now: u64) -> bool {
    expiry(now) <= u64::MAX && rs256_token(secret, id_text(user_id), expiry(now) as u64) is Some
}

/// True when no token can be issued to `user_id` under the private key in
/// `secret` at some time or other.
pub open spec fn cannot_always_issue(secret: Seq<u8>, user_id: u128) -> bool {
    exists|now: u64| !#[trigger] can_issue(secret, user_id, now)
}

/// True when `token` is a token issued to `user_id` under the private key in
/// `secret`, at whatever time.
pub open spec fn issued_to(secret: Seq<u8>, user_id: u128, token: Seq<char>) -> bool {
    exists|now: u64| #[trigger] issued(secret, user_id, now, token)
}

/// What verifying `token` at the time `now` gives: its claims where the
/// signature holds and the expiry has not passed, and the one error
/// otherwise.
pub open spec fn verified_claims(public: Seq<u8>, token: Seq<char>, now: u64) -> Result<
    ClaimsView,
    AuthError,
> {
    match rs256_claims(public, token) {
        Some((sub, exp)) => if exp < now {
            Err(AuthError::InvalidToken)
        } else {
            Ok(ClaimsView { sub, exp })
        },
        None => Err(AuthError::InvalidToken),
    }
}

/// The user that `token` stands for at the time `now`.
pub open spec fn authenticated(public: Seq<u8>, token: Seq<char>, now: u64) -> Result<
    u128,
    AuthError,
> {
    match verified_claims(public, token, now) {
        Ok(claims) => match parsed_id(claims.sub) {
            Some(user_id) => Ok(user_id),
            None => Err(AuthError::InvalidToken),
        },
        Err(e) => Err(e),
    }
}

/// True when the private key signs every claim, and the public key confirms
/// what it signs and reads back the claims that were signed.
pub open spec fn keys_agree(secret: Seq<u8>, public: Seq<u8>) -> bool {
    forall|sub: Seq<char>, exp: u64|
        (#[trigger] rs256_token(secret, sub, exp)) matches Some(token) && rs256_claims(
            public,
            token,
        ) == Some((sub, exp))
}

/// True when `token` verifies at some time with the claims `claims`.
pub open spec fn verified_sometime(public: Seq<u8>, token: Seq<char>, claims: ClaimsView) -> bool {
    exists|now: u64| #[trigger]
        verified_claims(public, token, now) == Ok::<ClaimsView, AuthError>(claims)
}

/// True when `token` is rejected at some time.
pub open spec fn rejected_sometime(public: Seq<u8>, token: Seq<char>) -> bool {
    exists|now: u64| (#[trigger] verified_claims(public, token, now)) is Err
}

/// True when `token` names the user `user_id` at some time.
pub open spec fn authenticated_sometime(public: Seq<u8>, token: Seq<char>, user_id: u128) -> bool {
    exists|now: u64| #[trigger] authenticated(public, token, now) == Ok::<u128, AuthError>(user_id)
}

/// True when `token` names nobody at some time.
pub open spec fn unauthenticated_sometime(public: Seq<u8>, token: Seq<char>) -> bool {
    exists|now: u64| (#[trigger] authenticated(public, token, now)) is Err
}

impl Claims {
    /// The claim for a user at the time `now`: good for
    /// `TOKEN_LIFETIME_SECONDS` from then. `None` when the expiry is beyond
    /// what 64 bits hold.
    pub fn with_user_id(user_id: u128, now: u64) -> (r: Option<Claims>)
        ensures
            r is Some <==> expiry(now) <= u64::MAX,
            r matches Some(claims) ==> claims@ == claims_for(user_id, now) && parsed_id(
                claims@.sub,
            ) == Some(user_id),
    {
        match now.checked_add(TOKEN_LIFETIME_SECONDS) {
            Some(exp) => Some(Claims { sub: format_id(user_id), exp }),
            None => None,
        }
    }

    /// The user the claim is about; `None` when the subject is no identifier.
    pub fn get_user_id(&self) -> (r: Option<u128>)
        ensures
            r == parsed_id(self@.sub),
    {
        parse_id(self.sub.as_str())
    }
}

/// Issues a token for `user_id` at the time `now`, signed with the private
/// key in `secret`. A token is issued exactly when the expiry fits in 64
/// bits and the key signs the claim; a key that is no PEM text signs
/// nothing.
pub fn issue_token(secret: &[u8], user_id: u128, now: u64) -> (r: Result<String, AuthError>)
    ensures
        r is Ok <==> can_issue(secret@, user_id, now),
        r matches Ok(token) ==> issued(secret@, user_id, now, token@) && token@.len() > 0,
        r matches Err(e) ==> e == AuthError::TokenIssueFailed,
        !has_pem_begin(secret@) ==> r is Err,
{
    let claims = match Claims::with_user_id(user_id, now) {
        Some(claims) => claims,
        None => {
            return Err(AuthError::TokenIssueFailed);
        },
    };
    match rs256_sign(secret, claims.sub.as_str(), claims.exp) {
        Some(token) => Ok(token),
        None => Err(AuthError::TokenIssueFailed),
    }
}

/// Verifies `token` at the time `now` with the public key in `public`. Every
/// failure is the same error: a malformed token, a signature that does not
/// fit, and an expiry that has passed cannot be told apart.
pub fn verify_token(public: &[u8], token: &str, now: u64) -> (r: Result<Claims, AuthError>)
    ensures
        match r {
            Ok(claims) => verified_claims(public@, token@, now) == Ok::<ClaimsView, AuthError>(
                claims@,
            ),
            Err(e) => verified_claims(public@, token@, now) == Err::<ClaimsView, AuthError>(e),
        },
{
    match rs256_open(public, token) {
        Some((sub, exp)) => {
            if exp < now {
                proof {
                    lemma_expired_token_is_rejected(public@, token@, now);
                }
                Err(AuthError::InvalidToken)
            } else {
                Ok(Claims { sub, exp })
            }
        },
        None => Err(AuthError::InvalidToken),
    }
}

/// A token whose expiry has passed is rejected, whatever its signature.
pub proof fn lemma_expired_token_is_rejected(public: Seq<u8>, token: Seq<char>, now: u64)
    requires
        rs256_claims(public, token) matches Some(claims) && claims.1 < now,
    ensures
        verified_claims(public, token, now) == Err::<ClaimsView, AuthError>(
            AuthError::InvalidToken,
        ),
        authenticated(public, token, now) == Err::<u128, AuthError>(AuthError::InvalidToken),
{
}

/// Every rejection is the same error: from the error alone a malformed
/// token, a signature that does not fit, an expiry that has passed and a
/// subject that is no identifier cannot be told apart.
pub proof fn lemma_rejection_is_invalid_token(public: Seq<u8>, token: Seq<char>, now: u64)
    ensures
        verified_claims(public, token, now) matches Err(e) ==> e == AuthError::InvalidToken,
        authenticated(public, token, now) matches Err(e) ==> e == AuthError::InvalidToken,
{
}

/// The round trip: under keys that agree, a token issued to a user verifies
/// at any time up to its expiry, and names that user.
pub proof fn lemma_issued_token_names_its_user(
    secret: Seq<u8>,
    public: Seq<u8>,
    user_id: u128,
    issued_at: u64,
    checked_at: u64,
    token: Seq<char>,
)
    requires
        keys_agree(secret, public),
        issued(secret, user_id, issued_at, token),
        checked_at <= expiry(issued_at),
    ensures
        verified_claims(public, token, checked_at) == Ok::<ClaimsView, AuthError>(
            claims_for(user_id, issued_at),
        ),
        authenticated(public, token, checked_at) == Ok::<u128, AuthError>(user_id),
{
}

} // verus!
