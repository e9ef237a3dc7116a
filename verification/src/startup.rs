//! The errors that can stop the server from starting.

use vstd::prelude::*;
use vstd::std_specs::convert::FromSpecImpl;

verus! {

#[verifier::external_type_specification]
#[verifier::external_body]
pub struct ExIoError(std::io::Error);

/// Why the server could not start.
#[derive(Debug)]
pub enum StartupError {
    /// The configuration could not be read; the message says why.
    ConfigError(String),
    /// Binding or running the server failed.
    IO(std::io::Error),
}

impl From<String> for StartupError {
    fn from(s: String) -> (res: Self) {
        StartupError::ConfigError(s)
    }
}

impl FromSpecImpl<String> for StartupError {
    open spec fn obeys_from_spec() -> bool {
        true
    }

    open spec fn from_spec(v: String) -> StartupError {
        StartupError::ConfigError(v)
    }
}

impl From<std::io::Error> for StartupError {
    fn from(e: std::io::Error) -> (res: Self) {
        StartupError::IO(e)
    }
}

impl FromSpecImpl<std::io::Error> for StartupError {
    open spec fn obeys_from_spec() -> bool {
        true
    }

    open spec fn from_spec(v: std::io::Error) -> StartupError {
        StartupError::IO(v)
    }
}

/// The text of an i/o error, from its `Display` (`ToString::to_string`).
/// Nothing is promised of it: the operating system words it.
#[verifier::external_body]
fn io_error_text(e: &std::io::Error) -> (res: String) {
    e.to_string()
}

/// The prefix of the text of a configuration error.
pub open spec fn config_error_prefix() -> Seq<char> {
    "Failed to get configs: "@
}

/// The prefix of the text of an i/o error.
pub open spec fn io_error_prefix() -> Seq<char> {
    "IO Error: "@
}

impl StartupError {
    /// The text the error is displayed as: `Failed to get configs: <message>`
    /// or `IO Error: <error>`.
    pub fn to_display_string(&self) -> (res: String)
        ensures
            match self {
                StartupError::ConfigError(m) => res@ == config_error_prefix() + m@,
                StartupError::IO(_) => res@.len() >= io_error_prefix().len()
                    && res@.take(io_error_prefix().len() as int) == io_error_prefix(),
            },
    {
        match self {
            StartupError::ConfigError(message) => {
                let mut s = String::from_str("Failed to get configs: ");
                s.append(message.as_str());
                s
            },
            StartupError::IO(e) => {
                let mut s = String::from_str("IO Error: ");
                let text = io_error_text(e);
                s.append(text.as_str());
                assert(s@.take(io_error_prefix().len() as int) =~= io_error_prefix());
                s
            },
        }
    }
}

} // verus!
