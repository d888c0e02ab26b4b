//! The credential hasher: a password becomes a salted bcrypt digest, and a
//! password is held against a digest.

use crate::error::AuthError;
use vstd::prelude::*;
use vstd::utf8::encode_utf8;

verus! {

/// The longest password, in bytes of UTF-8, that is hashed. bcrypt reads 72
/// bytes, of which the last is the terminator; a longer password would be cut
/// short and is refused instead.
pub const MAX_PASSWORD_BYTES: usize = 71;

/// What `bcrypt::verify` answers for a password and a digest: whether they
/// match, or `None` where the digest is malformed.
pub uninterp spec fn bcrypt_verdict(password: Seq<char>, digest: Seq<char>) -> Option<bool>;

/// True when the digest is well formed and was made from this password.
pub open spec fn digest_accepts(password: Seq<char>, digest: Seq<char>) -> bool {
    bcrypt_verdict(password, digest) == Some(true)
}

/// The length of a password in bytes of UTF-8, as `str::len` counts it.
pub open spec fn password_len(password: Seq<char>) -> usize {
    encode_utf8(password).len() as usize
}

/// `bcrypt::hash` at the crate's default cost, with a salt that the crate
/// draws at random. Trusted: a digest that comes back verifies against the
/// password it was made from. Two calls on one password may differ.
#[verifier::external_body]
fn bcrypt_hash(password: &str) -> (r: Option<String>)
    ensures
        r matches Some(digest) ==> bcrypt_verdict(password@, digest@) == Some(true),
{
    bcrypt::hash(password, bcrypt::DEFAULT_COST).ok()
}

/// `bcrypt::verify`. Trusted: the answer is a function of the password and
/// the digest alone.
#[verifier::external_body]
fn bcrypt_verify(password: &str, digest: &str) -> (r: Option<bool>)
    ensures
        r == bcrypt_verdict(password@, digest@),
{
    bcrypt::verify(password, digest).ok()
}

/// Hashes a password. A password of more than `MAX_PASSWORD_BYTES` bytes is
/// refused; otherwise the digest, if there is one, accepts the password.
pub fn hash_password(password: &str) -> (r: Result<String, AuthError>)
    ensures
        password_len(password@) > MAX_PASSWORD_BYTES ==> r is Err,
        r matches Ok(digest) ==> digest_accepts(password@, digest@),
        r matches Err(e) ==> e == AuthError::HashingFailed,
{
    if password.len() > MAX_PASSWORD_BYTES {
        return Err(AuthError::HashingFailed);
    }
    match bcrypt_hash(password) {
        Some(digest) => Ok(digest),
        None => Err(AuthError::HashingFailed),
    }
}

/// Holds a password against a digest. A malformed digest accepts nothing.
pub fn verify_password(password: &str, digest: &str) -> (r: bool)
    ensures
        r == digest_accepts(password@, digest@),
{
    match bcrypt_verify(password, digest) {
        Some(matches) => matches,
        None => false,
    }
}

} // verus!
