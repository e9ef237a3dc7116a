//! Verified core of the build-counter API server: error responses,
//! return-url checks, JWT handling, the GitHub login flow and the
//! bookkeeping around users and stored secrets.

pub mod strings;
pub mod error_response;
pub mod ids;
pub mod return_url;
pub mod models;
pub mod jwt;
pub mod config;
pub mod github_client_info;
pub mod users;
pub mod frontend_url;
pub mod redirect;
pub mod session;
pub mod user_management;
pub mod jwt_secret;
pub mod startup;
pub mod utils;
pub mod api_user;
