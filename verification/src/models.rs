//! Value types of the credential and token core.
//!
//! Identities are 128-bit subject identifiers (the numeric value of a
//! UUID); instants are Unix timestamps in whole seconds.

use vstd::prelude::*;

verus! {

/// A stored user record, as the external user store hands it back:
/// identifier, profile fields, the PHC-encoded password hash, and the
/// record's creation and update instants.
#[derive(Clone, Debug)]
pub struct User {
    pub id: u128,
    pub username: String,
    pub email: String,
    pub password_hash: String,
    pub created_at: i64,
    pub updated_at: i64,
}

/// The data a registration request carries; the password is still raw.
#[derive(Clone, Debug)]
pub struct NewUser {
    pub username: String,
    pub email: String,
    pub password: String,
}

/// The public view of a stored user: everything but the password hash.
#[derive(Clone, Debug)]
pub struct UserProfile {
    pub id: u128,
    pub username: String,
    pub email: String,
    pub created_at: i64,
    pub updated_at: i64,
}

/// The claims signed into a token: the subject identifier and the
/// expiry instant in Unix seconds.
#[derive(Clone, Copy, Debug, PartialEq, Eq, Structural)]
pub struct AuthClaims {
    pub sub: u128,
    pub exp: i64,
}

/// The two signed tokens returned to a client at login, register and
/// refresh; the server keeps no record of them.
#[derive(Clone, Debug)]
pub struct TokenPair {
    pub access_token: String,
    pub refresh_token: String,
}

} // verus!
