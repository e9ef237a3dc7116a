//! The user api: what a request for a user is answered with.

use vstd::prelude::*;
use crate::error_response::Errors;
use crate::models::GitHubUserInfo;

verus! {

/// A user as the api describes it.
#[derive(Debug)]
pub struct UserResponse {
    pub id: u128,
    pub name: String,
    pub avatar_url: String,
}

/// The answer to a request for a user, from what looking the user's GitHub
/// account up came to: the user's id, name and avatar; `404` when there is
/// none; `500` with the failure's text when the lookup failed.
pub fn get_user(lookup: Result<Option<GitHubUserInfo>, String>) -> (res: Result<UserResponse, Errors>)
    ensures
        match lookup {
            Err(e) => res matches Err(Errors::InternalError(m)) && m == e,
            Ok(None) => res matches Err(Errors::NotFound),
            Ok(Some(u)) => res matches Ok(r) && r.id == u.user_id && r.name == u.name && r.avatar_url == u.avatar_url,
        },
{
    match lookup {
        Err(e) => Err(Errors::InternalError(e)),
        Ok(None) => Err(Errors::NotFound),
        Ok(Some(u)) => Ok(UserResponse { id: u.user_id, name: u.name, avatar_url: u.avatar_url }),
    }
}

} // verus!
