//! The register / login / refresh / logout rules.
//!
//! The external user store is not called from here: its lookup and
//! insert responses come in as plain values, and every decision taken
//! on them is verified. Unknown email and wrong password are rejected
//! with one and the same error, so a caller cannot tell the two apart.

use vstd::prelude::*;

use crate::credential::credential_matches;
use crate::credential::verify_password;
use crate::errors::AuthError;
use crate::models::TokenPair;
use crate::models::User;
use crate::token::generate_access_token;
use crate::token::issue_token_pair;
use crate::token::jwt_claims_of;
use crate::token::jwt_token_of;
use crate::token::validate_refresh_token;
use crate::token::validate_token_spec;
use crate::token::TokenConfig;

verus! {

/// Completes a registration, given the store's response to the
/// insert: `None` when the store rejected the new record (a
/// unique-email conflict), `Some` with the stored row otherwise.
///
/// A rejected insert fails with `DuplicateIdentity`; an accepted one
/// yields a token pair for the new identity — owed whenever neither
/// expiry instant overflows an `i64` — whose claims carry the stored
/// identifier and the configured expiries counted from `now`.
pub fn register_user(cfg: &TokenConfig, inserted: &Option<User>, now: i64) -> (r: Result<
    TokenPair,
    AuthError,
>)
    requires
        cfg.wf(),
    ensures
        r is Ok <==> (inserted is Some && now + cfg.access_expiry_secs <= i64::MAX && now
            + cfg.refresh_expiry_secs <= i64::MAX),
        inserted is None ==> r == Err::<TokenPair, AuthError>(AuthError::DuplicateIdentity),
        r matches Ok(p) ==> (inserted matches Some(u) && jwt_claims_of(cfg.secret@, p.access_token@)
            == Some((u.id, (now + cfg.access_expiry_secs) as i64)) && jwt_claims_of(
            cfg.secret@,
            p.refresh_token@,
        ) == Some((u.id, (now + cfg.refresh_expiry_secs) as i64))),
        (inserted is Some && r is Err) ==> r == Err::<TokenPair, AuthError>(AuthError::ConfigError),
{
    match inserted {
        Some(u) => issue_token_pair(cfg, u.id, now),
        None => Err(AuthError::DuplicateIdentity),
    }
}

/// Decides a login, given the store's lookup-by-email response, and
/// issues the token pair when the credential matches.
///
/// An absent user and a non-matching password fail with the identical
/// `InvalidCredentials` value, which is what keeps the error channel
/// free of user-enumeration hints. A matching credential is owed its
/// token pair whenever neither expiry instant overflows an `i64`; on
/// success both tokens carry the found user's identifier.
pub fn authenticate_user(
    cfg: &TokenConfig,
    lookup: &Option<User>,
    password: &str,
    now: i64,
) -> (r: Result<TokenPair, AuthError>)
    requires
        cfg.wf(),
    ensures
        r is Ok <==> (lookup matches Some(u) && credential_matches(password@, u.password_hash@)
            && now + cfg.access_expiry_secs <= i64::MAX && now + cfg.refresh_expiry_secs
            <= i64::MAX),
        lookup is None ==> r == Err::<TokenPair, AuthError>(AuthError::InvalidCredentials),
        (lookup matches Some(u) && !credential_matches(password@, u.password_hash@)) ==> r == Err::<
            TokenPair,
            AuthError,
        >(AuthError::InvalidCredentials),
        r matches Ok(p) ==> (lookup matches Some(u) && jwt_claims_of(cfg.secret@, p.access_token@)
            == Some((u.id, (now + cfg.access_expiry_secs) as i64)) && jwt_claims_of(
            cfg.secret@,
            p.refresh_token@,
        ) == Some((u.id, (now + cfg.refresh_expiry_secs) as i64))),
        (lookup matches Some(u) && credential_matches(password@, u.password_hash@) && r is Err)
            ==> r == Err::<TokenPair, AuthError>(AuthError::ConfigError),
{
    match lookup {
        Some(u) => {
            if verify_password(password, u.password_hash.as_str()) {
                issue_token_pair(cfg, u.id, now)
            } else {
                Err(AuthError::InvalidCredentials)
            }
        },
        None => Err(AuthError::InvalidCredentials),
    }
}

/// Exchanges a refresh token for a fresh access token.
///
/// The presented token is validated at `now`; failure is reported as
/// `Unauthorized`. A valid token is owed its exchange whenever the
/// new expiry instant fits an `i64`: the pair then holds a newly
/// issued access token for the validated subject and, unchanged, the
/// very refresh token string that was presented — there is no
/// rotation.
pub fn refresh_token_pair(cfg: &TokenConfig, refresh_token: &str, now: i64) -> (r: Result<
    TokenPair,
    AuthError,
>)
    requires
        cfg.wf(),
    ensures
        r is Ok <==> (validate_token_spec(cfg.secret@, refresh_token@, now) is Ok && now
            + cfg.access_expiry_secs <= i64::MAX),
        validate_token_spec(cfg.secret@, refresh_token@, now) is Err ==> r == Err::<
            TokenPair,
            AuthError,
        >(AuthError::Unauthorized),
        r matches Ok(p) ==> (validate_token_spec(cfg.secret@, refresh_token@, now) matches Ok(c)
            && p.refresh_token@ == refresh_token@ && p.access_token@ == jwt_token_of(
            cfg.secret@,
            c.sub,
            (now + cfg.access_expiry_secs) as i64,
        ) && jwt_claims_of(cfg.secret@, p.access_token@) == Some(
            (c.sub, (now + cfg.access_expiry_secs) as i64),
        )),
        r matches Err(e) ==> e == AuthError::Unauthorized || e == AuthError::ConfigError,
{
    let claims = match validate_refresh_token(cfg, refresh_token, now) {
        Ok(c) => c,
        Err(_) => return Err(AuthError::Unauthorized),
    };
    let access_token = match generate_access_token(cfg, claims.sub, now) {
        Ok(t) => t,
        Err(e) => return Err(e),
    };
    Ok(TokenPair { access_token, refresh_token: refresh_token.to_owned() })
}

/// Acknowledges a logout.
///
/// The presented refresh token is validated only to reject garbage
/// input; beyond that nothing happens server-side, deliberately: the
/// system is stateless, keeps no token store, and treats logout as a
/// client-side token discard.
pub fn logout_user(cfg: &TokenConfig, refresh_token: &str, now: i64) -> (r: Result<(), AuthError>)
    ensures
        r is Ok <==> validate_token_spec(cfg.secret@, refresh_token@, now) is Ok,
        r matches Err(e) ==> e == AuthError::Unauthorized,
{
    match validate_refresh_token(cfg, refresh_token, now) {
        Ok(_) => Ok(()),
        Err(_) => Err(AuthError::Unauthorized),
    }
}

} // verus!
