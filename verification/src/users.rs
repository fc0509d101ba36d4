//! The profile view of a stored user.

use vstd::prelude::*;

use crate::errors::AuthError;
use crate::models::User;
use crate::models::UserProfile;

verus! {

/// Builds the public profile from the store's lookup-by-id response.
///
/// An absent user fails with `UserNotFound`; a found one yields its
/// profile with every field carried over unchanged — and without the
/// password hash, which has no public view.
pub fn service_get_profile(lookup: Option<User>) -> (r: Result<UserProfile, AuthError>)
    ensures
        r is Ok <==> lookup is Some,
        r matches Ok(p) ==> (lookup matches Some(u) && p.id == u.id && p.username@ == u.username@
            && p.email@ == u.email@ && p.created_at == u.created_at && p.updated_at
            == u.updated_at),
        r matches Err(e) ==> e == AuthError::UserNotFound,
{
    match lookup {
        Some(u) => Ok(
            UserProfile {
                id: u.id,
                username: u.username,
                email: u.email,
                created_at: u.created_at,
                updated_at: u.updated_at,
            },
        ),
        None => Err(AuthError::UserNotFound),
    }
}

} // verus!
