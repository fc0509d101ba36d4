//! The request-time authentication guard.
//!
//! Every protected endpoint runs the same extraction: read the
//! `Authorization` header, require the exact `"Bearer "` prefix,
//! validate the remainder as an access token, and expose the validated
//! subject. Each step fails with `Unauthorized`; nothing is cached
//! across requests.

use vstd::prelude::*;

use crate::errors::AuthError;
use crate::token::validate_access_token;
use crate::token::validate_token_spec;
use crate::token::TokenConfig;

verus! {

/// The subject identifier a request authenticated as.
#[derive(Clone, Copy, Debug, PartialEq, Eq, Structural)]
pub struct AuthenticatedUser(pub u128);

/// The token carried after an exact `"Bearer "` prefix, or `None`
/// when the header does not start with that prefix.
pub open spec fn bearer_token_spec(header: Seq<char>) -> Option<Seq<char>> {
    if header.len() >= 7 && header.subrange(0, 7) == "Bearer "@ {
        Some(header.subrange(7, header.len() as int))
    } else {
        None
    }
}

/// Strips the `"Bearer "` prefix from an `Authorization` header.
///
/// Returns the remainder exactly when the header starts with that
/// prefix, spelled and cased exactly so, and `None` otherwise.
pub fn extract_bearer_token<'a>(header: &'a str) -> (r: Option<&'a str>)
    ensures
        match r {
            Some(t) => bearer_token_spec(header@) == Some(t@),
            None => bearer_token_spec(header@) is None,
        },
{
    let n = header.unicode_len();
    if n < 7 {
        return None;
    }
    proof {
        reveal_strlit("Bearer ");
    }
    if header.get_char(0) != 'B' || header.get_char(1) != 'e' || header.get_char(2) != 'a'
        || header.get_char(3) != 'r' || header.get_char(4) != 'e' || header.get_char(5) != 'r'
        || header.get_char(6) != ' ' {
        proof {
            if header@.subrange(0, 7) == "Bearer "@ {
                assert(header@[0] == header@.subrange(0, 7)[0]);
                assert(header@[1] == header@.subrange(0, 7)[1]);
                assert(header@[2] == header@.subrange(0, 7)[2]);
                assert(header@[3] == header@.subrange(0, 7)[3]);
                assert(header@[4] == header@.subrange(0, 7)[4]);
                assert(header@[5] == header@.subrange(0, 7)[5]);
                assert(header@[6] == header@.subrange(0, 7)[6]);
                assert(false);
            }
        }
        return None;
    }
    proof {
        assert(header@.subrange(0, 7) =~= "Bearer "@);
    }
    Some(header.substring_char(7, n))
}

/// Authenticates a request from its `Authorization` header at
/// instant `now`.
///
/// Succeeds exactly when the header is present, carries the
/// `"Bearer "` prefix, and the remainder validates as an unexpired
/// token under the configured secret; the result is then that token's
/// subject. Every failure is the one `Unauthorized` kind.
pub fn authenticate_bearer(cfg: &TokenConfig, header: Option<&str>, now: i64) -> (r: Result<
    AuthenticatedUser,
    AuthError,
>)
    ensures
        header is None ==> r == Err::<AuthenticatedUser, AuthError>(AuthError::Unauthorized),
        header matches Some(h) ==> match bearer_token_spec(h@) {
            Some(t) => match validate_token_spec(cfg.secret@, t, now) {
                Ok(c) => r == Ok::<AuthenticatedUser, AuthError>(AuthenticatedUser(c.sub)),
                Err(_) => r == Err::<AuthenticatedUser, AuthError>(AuthError::Unauthorized),
            },
            None => r == Err::<AuthenticatedUser, AuthError>(AuthError::Unauthorized),
        },
{
    let h = match header {
        Some(h) => h,
        None => return Err(AuthError::Unauthorized),
    };
    let token = match extract_bearer_token(h) {
        Some(t) => t,
        None => return Err(AuthError::Unauthorized),
    };
    match validate_access_token(cfg, token, now) {
        Ok(c) => Ok(AuthenticatedUser(c.sub)),
        Err(_) => Err(AuthError::Unauthorized),
    }
}

} // verus!
