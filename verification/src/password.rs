use vstd::prelude::*;

use crate::error::Error;

use argon2::password_hash::rand_core::OsRng;
use argon2::password_hash::{PasswordHash, PasswordHasher, PasswordVerifier, SaltString};
use argon2::Argon2;

verus! {

/// Whether `digest` is a well-formed password digest that the hasher accepts
/// for `password`. Verification recomputes the digest from the salt and the
/// parameters carried inside the digest string, so the outcome depends on the
/// password and the digest alone.
pub uninterp spec fn digest_matches(password: Seq<char>, digest: Seq<char>) -> bool;

/// Relies on `Argon2::hash_password` of the argon2 crate: it draws a fresh
/// random salt, and its output is a self-describing PHC string -- beginning
/// with `'$'` and carrying algorithm, parameters and salt -- that
/// `Argon2::verify_password` accepts for the same password.
#[verifier::external_body]
fn argon2_hash(password: &str) -> (r: Option<String>)
    ensures
        r matches Some(d) ==> digest_matches(password@, d@) && d@.len() > 0 && d@[0] == '$',
{
    let salt = SaltString::generate(&mut OsRng);
    match Argon2::default().hash_password(password.as_bytes(), &salt) {
        Ok(digest) => Some(digest.to_string()),
        Err(_) => None,
    }
}

/// Relies on `Argon2::verify_password` of the argon2 crate: deterministic in
/// the password and the digest; a malformed digest fails closed.
#[verifier::external_body]
fn argon2_verify(password: &str, digest: &str) -> (r: bool)
    ensures
        r == digest_matches(password@, digest@),
{
    match PasswordHash::new(digest) {
        Ok(parsed) => Argon2::default().verify_password(password.as_bytes(), &parsed).is_ok(),
        Err(_) => false,
    }
}

/// One-way salted hashing. Each call salts afresh, so two digests of the same
/// password differ, yet each verifies against it; the digest is a
/// self-describing PHC string, so verification needs no side channel. A
/// hashing failure is an internal-error condition, never a silently accepted
/// password.
pub fn hash_password(password: &String) -> (r: Result<String, Error>)
    ensures
        r matches Ok(d) ==> digest_matches(password@, d@) && d@.len() > 0 && d@[0] == '$',
        r matches Err(e) ==> e == Error::InternalServerError,
{
    match argon2_hash(password.as_str()) {
        Some(digest) => Ok(digest),
        None => Err(Error::InternalServerError),
    }
}

/// Constant-time verification of a password against a stored digest.
/// Fails closed: a malformed digest or a mismatch is `Unauthorized`,
/// never a crash and never a skipped check.
pub fn validate_password(password: &str, password_hash: &str) -> (r: Result<bool, Error>)
    ensures
        r matches Ok(b) ==> b && digest_matches(password@, password_hash@),
        r matches Err(e) ==> e == Error::Unauthorized && !digest_matches(password@, password_hash@),
{
    if argon2_verify(password, password_hash) {
        Ok(true)
    } else {
        Err(Error::Unauthorized)
    }
}

} // verus!
