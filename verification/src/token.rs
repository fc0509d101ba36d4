//! Issuing and validating signed bearer tokens.
//!
//! A token carries the claims `{sub, exp}`: the subject identifier and
//! an expiry instant in Unix seconds. Tokens are signed with HMAC
//! (HS256) under the process-wide signing secret. Access and refresh
//! tokens deliberately share one claim shape and one validation path:
//! nothing in a token says which of the two it was issued as.
//!
//! Validation fails closed: a malformed structure, a signature that
//! does not verify, and an expiry at or before the given instant are
//! all reported as `TokenInvalid`.

use vstd::prelude::*;

use crate::duration::duration_seconds_spec;
use crate::duration::parse_duration;
use crate::errors::AuthError;
use crate::models::AuthClaims;
use crate::models::TokenPair;

verus! {

/// The claims that decoding a token under a given secret yields, or
/// `None` when the token is rejected. Decoding is deterministic in the
/// secret and the token string: the signature check recomputes an HMAC
/// and the claim extraction is plain parsing.
pub uninterp spec fn jwt_claims_of(secret: Seq<char>, token: Seq<char>) -> Option<(u128, i64)>;

/// The compact token string that encoding the claims `{sub, exp}`
/// under a given secret produces. Encoding is deterministic in its
/// three arguments: the header is fixed, the claim order is fixed,
/// and the HMAC signature is a function of secret and message — so
/// identical inputs give the identical token string.
pub uninterp spec fn jwt_token_of(secret: Seq<char>, sub: u128, exp: i64) -> Seq<char>;

/// Relies on `jsonwebtoken::encode` with the default header (HS256)
/// and a secret key: signing is plain HMAC, which accepts a key of any
/// length and cannot fail, and serializing the fixed claims map cannot
/// fail either, so a token always comes back. It carries exactly the
/// claims `{sub, exp}` it was given, signed with the secret, so
/// decoding it under the same secret yields them back.
#[verifier::external_body]
fn jwt_encode(secret: &str, sub: u128, exp: i64) -> (r: Option<String>)
    ensures
        r is Some,
        r matches Some(t) ==> t@ == jwt_token_of(secret@, sub, exp) && jwt_claims_of(secret@, t@)
            == Some((sub, exp)),
{
    let mut claims = serde_json::Map::new();
    let subject = uuid::Uuid::from_u128(sub).to_string();
    claims.insert("sub".to_string(), serde_json::Value::String(subject));
    claims.insert("exp".to_string(), serde_json::Value::from(exp));
    let key = jsonwebtoken::EncodingKey::from_secret(secret.as_bytes());
    jsonwebtoken::encode(&jsonwebtoken::Header::default(), &serde_json::Value::Object(claims), &key).ok()
}

/// Relies on `jsonwebtoken::decode` restricted to HS256: it verifies
/// the token's HMAC signature against the secret and parses the claim
/// payload; the expiry is not checked here but by the callers, against
/// an instant they are given. The result is deterministic in the
/// secret and the token.
#[verifier::external_body]
fn jwt_decode(secret: &str, token: &str) -> (r: Option<(u128, i64)>)
    ensures
        r == jwt_claims_of(secret@, token@),
{
    let mut validation = jsonwebtoken::Validation::new(jsonwebtoken::Algorithm::HS256);
    validation.validate_exp = false;
    validation.required_spec_claims = std::collections::HashSet::new();
    let key = jsonwebtoken::DecodingKey::from_secret(secret.as_bytes());
    let data = jsonwebtoken::decode::<serde_json::Value>(token, &key, &validation).ok()?;
    let sub = uuid::Uuid::parse_str(data.claims.get("sub")?.as_str()?).ok()?.as_u128();
    let exp = data.claims.get("exp")?.as_i64()?;
    Some((sub, exp))
}

/// The signing secret and the configured access and refresh expiries,
/// read once at startup and immutable afterwards.
#[derive(Clone, Debug)]
pub struct TokenConfig {
    pub secret: String,
    pub access_expiry_secs: i64,
    pub refresh_expiry_secs: i64,
}

impl TokenConfig {
    /// A usable configuration: a non-empty secret and strictly
    /// positive expiries, as `from_settings` establishes. Positivity
    /// keeps every issued token's expiry strictly after its issuance
    /// instant.
    pub open spec fn wf(self) -> bool {
        self.secret@.len() > 0 && 0 < self.access_expiry_secs && 0 < self.refresh_expiry_secs
    }

    /// Builds the configuration from the raw settings values.
    ///
    /// Fails with `ConfigError` exactly when the secret is empty or
    /// either expiry string does not parse as a positive duration that
    /// fits an `i64` of seconds — a zero expiry would issue tokens
    /// already expired at birth. Deployment faults are meant to
    /// surface here, at startup, never per-request.
    pub fn from_settings(secret: &str, access_expiry: &str, refresh_expiry: &str) -> (r: Result<
        TokenConfig,
        AuthError,
    >)
        ensures
            r matches Ok(c) ==> c.wf() && c.secret@ == secret@ && duration_seconds_spec(
                access_expiry@,
            ) == Some(c.access_expiry_secs as int) && duration_seconds_spec(refresh_expiry@)
                == Some(c.refresh_expiry_secs as int),
            r is Err <==> secret@.len() == 0 || !(duration_seconds_spec(access_expiry@) matches Some(
                a,
            ) && 1 <= a <= i64::MAX) || !(duration_seconds_spec(refresh_expiry@) matches Some(b)
                && 1 <= b <= i64::MAX),
            r matches Err(e) ==> e == AuthError::ConfigError,
    {
        if secret.unicode_len() == 0 {
            return Err(AuthError::ConfigError);
        }
        let access_expiry_secs = match parse_duration(access_expiry) {
            Ok(d) => d,
            Err(e) => return Err(e),
        };
        let refresh_expiry_secs = match parse_duration(refresh_expiry) {
            Ok(d) => d,
            Err(e) => return Err(e),
        };
        if access_expiry_secs == 0 || refresh_expiry_secs == 0 {
            return Err(AuthError::ConfigError);
        }
        Ok(TokenConfig { secret: secret.to_owned(), access_expiry_secs, refresh_expiry_secs })
    }
}

/// What validating `token` under `secret` at instant `now` returns:
/// the claims when the token decodes and is not yet expired, and
/// `TokenInvalid` otherwise. An expiry equal to `now` counts as
/// expired.
pub open spec fn validate_token_spec(secret: Seq<char>, token: Seq<char>, now: i64) -> Result<
    AuthClaims,
    AuthError,
> {
    match jwt_claims_of(secret, token) {
        Some(c) => if c.1 > now {
            Ok(AuthClaims { sub: c.0, exp: c.1 })
        } else {
            Err(AuthError::TokenInvalid)
        },
        None => Err(AuthError::TokenInvalid),
    }
}

/// Issues an access token for `user_id` at instant `now`, expiring
/// after the configured access expiry.
///
/// Succeeds exactly when the expiry instant fits an `i64`; signing
/// itself cannot fail. The result is the one token string that
/// encoding `(user_id, now + access_expiry_secs)` under the secret
/// produces — identical inputs give the identical token — and its
/// claims are exactly that pair. An absurd expiry is the sole
/// failure, a `ConfigError`.
pub fn generate_access_token(cfg: &TokenConfig, user_id: u128, now: i64) -> (r: Result<
    String,
    AuthError,
>)
    requires
        cfg.wf(),
    ensures
        r is Ok <==> now + cfg.access_expiry_secs <= i64::MAX,
        r matches Ok(t) ==> t@ == jwt_token_of(
            cfg.secret@,
            user_id,
            (now + cfg.access_expiry_secs) as i64,
        ) && jwt_claims_of(cfg.secret@, t@) == Some(
            (user_id, (now + cfg.access_expiry_secs) as i64),
        ),
        r matches Err(e) ==> e == AuthError::ConfigError,
{
    match now.checked_add(cfg.access_expiry_secs) {
        Some(exp) => match jwt_encode(cfg.secret.as_str(), user_id, exp) {
            Some(t) => Ok(t),
            None => Err(AuthError::ConfigError),
        },
        None => Err(AuthError::ConfigError),
    }
}

/// Issues a refresh token for `user_id` at instant `now`, expiring
/// after the configured refresh expiry.
///
/// Succeeds exactly when the expiry instant fits an `i64`; signing
/// itself cannot fail. The result is the one token string that
/// encoding `(user_id, now + refresh_expiry_secs)` under the secret
/// produces, and its claims are exactly that pair. An absurd expiry
/// is the sole failure, a `ConfigError`.
pub fn generate_refresh_token(cfg: &TokenConfig, user_id: u128, now: i64) -> (r: Result<
    String,
    AuthError,
>)
    requires
        cfg.wf(),
    ensures
        r is Ok <==> now + cfg.refresh_expiry_secs <= i64::MAX,
        r matches Ok(t) ==> t@ == jwt_token_of(
            cfg.secret@,
            user_id,
            (now + cfg.refresh_expiry_secs) as i64,
        ) && jwt_claims_of(cfg.secret@, t@) == Some(
            (user_id, (now + cfg.refresh_expiry_secs) as i64),
        ),
        r matches Err(e) ==> e == AuthError::ConfigError,
{
    match now.checked_add(cfg.refresh_expiry_secs) {
        Some(exp) => match jwt_encode(cfg.secret.as_str(), user_id, exp) {
            Some(t) => Ok(t),
            None => Err(AuthError::ConfigError),
        },
        None => Err(AuthError::ConfigError),
    }
}

/// Issues the access and refresh tokens a client receives at login,
/// register and refresh.
///
/// Succeeds exactly when neither expiry instant overflows an `i64`.
/// On success both tokens carry `user_id` as subject, with their
/// respective configured expiries counted from `now`, and each is the
/// one string that encoding those claims under the secret produces.
pub fn issue_token_pair(cfg: &TokenConfig, user_id: u128, now: i64) -> (r: Result<
    TokenPair,
    AuthError,
>)
    requires
        cfg.wf(),
    ensures
        r is Ok <==> (now + cfg.access_expiry_secs <= i64::MAX && now + cfg.refresh_expiry_secs
            <= i64::MAX),
        r matches Ok(p) ==> p.access_token@ == jwt_token_of(
            cfg.secret@,
            user_id,
            (now + cfg.access_expiry_secs) as i64,
        ) && p.refresh_token@ == jwt_token_of(
            cfg.secret@,
            user_id,
            (now + cfg.refresh_expiry_secs) as i64,
        ) && jwt_claims_of(cfg.secret@, p.access_token@) == Some(
            (user_id, (now + cfg.access_expiry_secs) as i64),
        ) && jwt_claims_of(cfg.secret@, p.refresh_token@) == Some(
            (user_id, (now + cfg.refresh_expiry_secs) as i64),
        ),
        r matches Err(e) ==> e == AuthError::ConfigError,
{
    let access_token = match generate_access_token(cfg, user_id, now) {
        Ok(t) => t,
        Err(e) => return Err(e),
    };
    let refresh_token = match generate_refresh_token(cfg, user_id, now) {
        Ok(t) => t,
        Err(e) => return Err(e),
    };
    Ok(TokenPair { access_token, refresh_token })
}

/// Validates a presented access token at instant `now`.
///
/// Returns exactly `validate_token_spec`: the claims when the token
/// decodes under the secret and its expiry lies strictly after `now`,
/// and `TokenInvalid` otherwise, whether the structure is malformed,
/// the signature wrong, or the token expired.
pub fn validate_access_token(cfg: &TokenConfig, token: &str, now: i64) -> (r: Result<
    AuthClaims,
    AuthError,
>)
    ensures
        r == validate_token_spec(cfg.secret@, token@, now),
{
    validate_token(cfg, token, now)
}

/// Validates a presented refresh token at instant `now`.
///
/// Refresh tokens share the access tokens' signing and validation
/// rules, so this is the same check as `validate_access_token`: the
/// two kinds are structurally indistinguishable.
pub fn validate_refresh_token(cfg: &TokenConfig, token: &str, now: i64) -> (r: Result<
    AuthClaims,
    AuthError,
>)
    ensures
        r == validate_token_spec(cfg.secret@, token@, now),
{
    validate_token(cfg, token, now)
}

fn validate_token(cfg: &TokenConfig, token: &str, now: i64) -> (r: Result<AuthClaims, AuthError>)
    ensures
        r == validate_token_spec(cfg.secret@, token@, now),
{
    match jwt_decode(cfg.secret.as_str(), token) {
        Some(p) => {
            if p.1 > now {
                Ok(AuthClaims { sub: p.0, exp: p.1 })
            } else {
                Err(AuthError::TokenInvalid)
            }
        },
        None => Err(AuthError::TokenInvalid),
    }
}

/// Round trip: a token whose claims are `(sub, exp)` — in particular
/// any token just issued for `sub` — validates, at every instant
/// strictly before `exp`, to exactly those claims; the subject comes
/// back unchanged.
pub proof fn lemma_validate_round_trip(
    secret: Seq<char>,
    token: Seq<char>,
    sub: u128,
    exp: i64,
    now: i64,
)
    requires
        jwt_claims_of(secret, token) == Some((sub, exp)),
        now < exp,
    ensures
        validate_token_spec(secret, token, now) == Ok::<AuthClaims, AuthError>(
            AuthClaims { sub, exp },
        ),
{
}

/// Expiry: a token whose expiry instant is at or before `now` is
/// rejected at `now`, however valid its signature; a correctly signed
/// but expired token never validates.
pub proof fn lemma_expired_token_rejected(
    secret: Seq<char>,
    token: Seq<char>,
    sub: u128,
    exp: i64,
    now: i64,
)
    requires
        jwt_claims_of(secret, token) == Some((sub, exp)),
        exp <= now,
    ensures
        validate_token_spec(secret, token, now) == Err::<AuthClaims, AuthError>(
            AuthError::TokenInvalid,
        ),
{
}

} // verus!
