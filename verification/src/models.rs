//! The records that the server stores and exchanges.

use vstd::prelude::*;
use crate::ids::{is_uuid_v4, uuid_new_v4};

verus! {

/// An organization.
#[derive(Debug)]
pub struct Organization {
    pub id: u128,
    pub name: String,
}

/// A user of the system.
#[derive(Debug, Clone, Copy, PartialEq, Eq, Structural)]
pub struct User {
    pub id: u128,
}

/// The membership of a user in an organization.
#[derive(Debug, Clone, Copy, PartialEq, Eq, Structural)]
pub struct OrganizationUser {
    pub user_id: u128,
    pub organization_id: u128,
}

/// A stored GitHub login in progress: the session it belongs to, the csrf
/// token and pkce verifier of its authorization request, and the url to
/// return to once it has finished.
#[derive(Debug)]
pub struct GitHubLoginSessionInformation {
    pub id: u128,
    pub session_id: u128,
    pub csrf_token: String,
    pub pkce_verifier: String,
    pub return_url: String,
}

/// A GitHub login to be stored.
#[derive(Debug)]
pub struct NewGitHubLoginSessionInformation<'a, 'b> {
    pub id: u128,
    pub session_id: u128,
    pub csrf_token: &'a str,
    pub pkce_verifier: &'b str,
    pub return_url: &'b str,
}

impl<'a, 'b> NewGitHubLoginSessionInformation<'a, 'b> {
    /// A login record for `session_id` under a freshly drawn random id.
    pub fn new(session_id: u128, csrf_token: &'a str, pkce_verifier: &'b str, return_url: &'b str) -> (res: Self)
        ensures
            res.session_id == session_id,
            res.csrf_token == csrf_token,
            res.pkce_verifier == pkce_verifier,
            res.return_url == return_url,
            is_uuid_v4(res.id),
    {
        NewGitHubLoginSessionInformation {
            id: uuid_new_v4(),
            session_id,
            csrf_token,
            pkce_verifier,
            return_url,
        }
    }
}

/// The GitHub account linked to a user of the system.
#[derive(Debug)]
pub struct GitHubUserInfo {
    pub id: i32,
    pub login: String,
    pub name: String,
    pub email: Option<String>,
    pub avatar_url: String,
    pub user_id: u128,
}

/// The fields of a linked GitHub account that are refreshed on each login.
#[derive(Debug)]
pub struct GitHubUserInfoUpdate {
    pub login: String,
    pub name: String,
    pub email: Option<String>,
    pub avatar_url: String,
}

/// A named piece of data that the system keeps, such as a generated secret.
#[derive(Debug)]
pub struct SystemData {
    pub key: String,
    pub content: Vec<u8>,
}

} // verus!
