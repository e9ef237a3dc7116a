//! A redirection to another url.

use vstd::prelude::*;

verus! {

/// A response that sends the client to another url.
#[derive(Debug)]
pub struct Redirect {
    pub to: String,
}

impl Redirect {
    pub fn to(v: String) -> (res: Redirect)
        ensures
            res.to == v,
    {
        Redirect { to: v }
    }
}

} // verus!
