//! Request and response shapes of the wire contract.
//!
//! The generic JSON envelope of the HTTP layer stays at the boundary;
//! here are its typed counterparts: what a login request carries, and
//! the success envelopes around tokens, profiles and empty payloads.

use vstd::prelude::*;

use crate::models::TokenPair;
use crate::models::UserProfile;

verus! {

/// The body of a login request: the credential pair to check.
#[derive(Clone, Debug)]
pub struct LoginRequest {
    pub email: String,
    pub password: String,
}

/// The body of a successful register, login or refresh response.
#[derive(Clone, Debug)]
pub struct TokenResponse {
    pub access_token: String,
    pub refresh_token: String,
}

impl TokenResponse {
    /// Carries an issued token pair over into the response shape,
    /// both strings unchanged.
    pub fn from_pair(pair: TokenPair) -> (r: TokenResponse)
        ensures
            r.access_token@ == pair.access_token@,
            r.refresh_token@ == pair.refresh_token@,
    {
        TokenResponse { access_token: pair.access_token, refresh_token: pair.refresh_token }
    }
}

/// The success envelope around a token response.
#[derive(Clone, Debug)]
pub struct ApiResponseTokenEnvelope {
    pub status: String,
    pub code: u16,
    pub message: String,
    pub data: TokenResponse,
}

impl ApiResponseTokenEnvelope {
    /// Wraps token data in the stock success envelope.
    pub fn success(data: TokenResponse) -> (r: ApiResponseTokenEnvelope)
        ensures
            r.status@ == "success"@,
            r.code == 200,
            r.message@ == "OK"@,
            r.data == data,
    {
        ApiResponseTokenEnvelope {
            status: "success".to_owned(),
            code: 200,
            message: "OK".to_owned(),
            data,
        }
    }
}

/// The success envelope around a user profile.
#[derive(Clone, Debug)]
pub struct ApiResponseUserProfileEnvelope {
    pub status: String,
    pub code: u16,
    pub message: String,
    pub data: UserProfile,
}

impl ApiResponseUserProfileEnvelope {
    /// Wraps a profile in the stock success envelope.
    pub fn success(data: UserProfile) -> (r: ApiResponseUserProfileEnvelope)
        ensures
            r.status@ == "success"@,
            r.code == 200,
            r.message@ == "OK"@,
            r.data == data,
    {
        ApiResponseUserProfileEnvelope {
            status: "success".to_owned(),
            code: 200,
            message: "OK".to_owned(),
            data,
        }
    }
}

/// The success envelope of a response that carries no payload, such
/// as a logout acknowledgement.
#[derive(Clone, Debug)]
pub struct ApiResponseEmptyEnvelope {
    pub status: String,
    pub code: u16,
    pub message: String,
}

impl ApiResponseEmptyEnvelope {
    /// The stock success envelope with nothing inside.
    pub fn success() -> (r: ApiResponseEmptyEnvelope)
        ensures
            r.status@ == "success"@,
            r.code == 200,
            r.message@ == "OK"@,
    {
        ApiResponseEmptyEnvelope { status: "success".to_owned(), code: 200, message: "OK".to_owned() }
    }
}

} // verus!
