//! Error kinds of the credential and token core, and the wire-level error
//! descriptors that handlers attach to rejected requests.

use vstd::prelude::*;

verus! {

/// Every failure the core can report.
///
/// `ConfigError` is a startup-time fault (bad secret or expiry
/// configuration); the rest are per-request rejections.
#[derive(Clone, Copy, Debug, PartialEq, Eq, Structural)]
pub enum AuthError {
    /// Missing or malformed configuration (signing secret, expiry spec).
    ConfigError,
    /// Unknown email or wrong password; deliberately one kind for both.
    InvalidCredentials,
    /// The store rejected an insert, e.g. a unique-email conflict.
    DuplicateIdentity,
    /// A presented token is malformed, wrongly signed, or expired.
    TokenInvalid,
    /// A request carried no usable bearer credential.
    Unauthorized,
    /// The entropy source failed while salting a new password hash.
    HashingFailure,
    /// A lookup by identifier found no user.
    UserNotFound,
}

/// A wire-level error descriptor: a stable machine code and a human
/// description, as surfaced in rejection responses.
#[derive(Clone, Copy, Debug, PartialEq, Eq)]
pub struct ApiError {
    pub code: &'static str,
    pub description: &'static str,
}

impl ApiError {
    /// Builds a descriptor from its code and description.
    pub fn new(code: &'static str, description: &'static str) -> (r: Self)
        ensures
            r.code == code,
            r.description == description,
    {
        ApiError { code, description }
    }
}

/// The descriptor for a login rejected with `AuthError::InvalidCredentials`.
pub fn invalid_credentials() -> (r: ApiError)
    ensures
        r.code@ == "INVALID_CREDENTIALS"@,
{
    ApiError::new("INVALID_CREDENTIALS", "Email or password is incorrect")
}

/// The descriptor for a request whose bearer credential was missing or bad.
pub fn unauthorized() -> (r: ApiError)
    ensures
        r.code@ == "UNAUTHORIZED"@,
{
    ApiError::new("UNAUTHORIZED", "Authorization token is missing or invalid")
}

/// The descriptor for a request that failed input validation.
pub fn validation_failed() -> (r: ApiError)
    ensures
        r.code@ == "VALIDATION_FAILED"@,
{
    ApiError::new("VALIDATION_FAILED", "One or more fields failed validation")
}

/// The descriptor for a registration that collided with an existing user.
pub fn user_already_exists() -> (r: ApiError)
    ensures
        r.code@ == "USER_ALREADY_EXISTS"@,
{
    ApiError::new("USER_ALREADY_EXISTS", "A user with these credentials already exists")
}

/// The descriptor for any unexpected server-side failure.
pub fn internal_server_error() -> (r: ApiError)
    ensures
        r.code@ == "INTERNAL_SERVER_ERROR"@,
{
    ApiError::new("INTERNAL_SERVER_ERROR", "An unexpected error occurred")
}

} // verus!
