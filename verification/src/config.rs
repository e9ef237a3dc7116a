//! The server's configuration.

use vstd::prelude::*;

verus! {

/// Where the frontend, the database and GitHub's OAuth application are, and
/// where this server listens.
#[derive(Debug)]
pub struct Configuration {
    pub frontend_url: String,
    pub port: u16,
    pub database_url: String,
    pub github_client_id: String,
    pub github_client_secret: String,
    pub hostname: String,
    pub host_binding: String,
}

} // verus!
