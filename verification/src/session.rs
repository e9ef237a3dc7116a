//! The browser session that a login is tied to.

use vstd::prelude::*;
use crate::ids::{is_uuid_v4, uuid_new_v4};

verus! {

/// The key under which the session id is kept in the session cookie.
pub const SESSION_ID_KEY: &'static str = "session_id";

/// A browser session, identified by a random id.
#[derive(Debug, Clone, Copy, PartialEq, Eq, Structural)]
pub struct Session {
    pub id: u128,
}

impl Session {
    /// The session of a request: the id its cookie already holds, or a freshly
    /// drawn random one (which the caller stores back into the cookie).
    pub fn resolve(existing: Option<u128>) -> (res: Session)
        ensures
            existing matches Some(id) ==> res.id == id,
            existing is None ==> is_uuid_v4(res.id),
    {
        match existing {
            Some(id) => Session { id },
            None => Session { id: uuid_new_v4() },
        }
    }
}

} // verus!
