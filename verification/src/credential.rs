//! Password hashing and verification.
//!
//! Hashes are produced with Argon2id under a fresh random salt and
//! stored as self-describing PHC strings; verification re-derives the
//! digest with the parameters and salt embedded in the stored string
//! and compares in constant time. A malformed stored hash counts as a
//! mismatch, never as a fault.

use vstd::prelude::*;

use argon2::password_hash::rand_core::OsRng;
use argon2::password_hash::rand_core::RngCore;
use argon2::password_hash::PasswordHash;
use argon2::password_hash::PasswordHasher;
use argon2::password_hash::PasswordVerifier;
use argon2::password_hash::SaltString;

use crate::errors::AuthError;

verus! {

/// Whether Argon2id verification of `password` against the stored
/// PHC-encoded hash `stored` succeeds. The outcome is a function of the
/// two strings alone: the salt and all parameters are embedded in
/// `stored`, and a string that does not parse as a PHC hash matches
/// nothing.
pub uninterp spec fn credential_matches(password: Seq<char>, stored: Seq<char>) -> bool;

/// Relies on `argon2::Argon2::hash_password` (Argon2id, default
/// parameters) under a fresh salt drawn from the operating system's
/// entropy source, and on `argon2::Argon2::verify_password` re-deriving
/// that digest: every hash this returns verifies against the password
/// it was derived from. Returns `None` only if the entropy source or
/// the hasher fails.
#[verifier::external_body]
fn argon2_hash(password: &str) -> (r: Option<String>)
    ensures
        r matches Some(h) ==> credential_matches(password@, h@),
{
    let mut raw_salt = [0u8; 16];
    if OsRng.try_fill_bytes(&mut raw_salt).is_err() {
        return None;
    }
    let salt = match SaltString::encode_b64(&raw_salt) {
        Ok(s) => s,
        Err(_) => return None,
    };
    match argon2::Argon2::default().hash_password(password.as_bytes(), &salt) {
        Ok(h) => Some(h.to_string()),
        Err(_) => None,
    }
}

/// Relies on `password_hash::PasswordHash::new` and
/// `argon2::Argon2::verify_password`: re-derives the digest with the
/// parameters and salt embedded in `stored` and compares in constant
/// time, so the result is deterministic in the two strings. A `stored`
/// that does not parse is reported as a mismatch.
#[verifier::external_body]
fn argon2_verify(password: &str, stored: &str) -> (r: bool)
    ensures
        r == credential_matches(password@, stored@),
{
    match PasswordHash::new(stored) {
        Ok(parsed) => {
            argon2::Argon2::default().verify_password(password.as_bytes(), &parsed).is_ok()
        },
        Err(_) => false,
    }
}

/// Hashes a raw password under a fresh random salt.
///
/// On success the returned PHC string verifies against `password`;
/// the only failure is `HashingFailure`, raised when the entropy
/// source or the hasher gives out.
pub fn hash_password(password: &str) -> (r: Result<String, AuthError>)
    ensures
        r matches Ok(h) ==> credential_matches(password@, h@),
        r matches Err(e) ==> e == AuthError::HashingFailure,
{
    match argon2_hash(password) {
        Some(h) => Ok(h),
        None => Err(AuthError::HashingFailure),
    }
}

/// Verifies a raw password against a stored PHC hash string.
///
/// Returns exactly whether the credential matches; malformed stored
/// hashes yield `false` rather than an error.
pub fn verify_password(password: &str, stored: &str) -> (r: bool)
    ensures
        r == credential_matches(password@, stored@),
{
    argon2_verify(password, stored)
}

} // verus!
