//! The configured url of the frontend that users log in from.

use vstd::prelude::*;

verus! {

/// The url of the frontend.
#[derive(Debug)]
pub struct FrontendUrl(String);

impl FrontendUrl {
    pub closed spec fn view_url(self) -> Seq<char> {
        self.0@
    }

    /// The frontend url read from the configuration.
    pub fn new(url: String) -> (res: FrontendUrl)
        ensures
            res.view_url() == url@,
    {
        FrontendUrl(url)
    }

    pub fn value(&self) -> (res: &str)
        ensures
            res@ == self.view_url(),
    {
        self.0.as_str()
    }
}

} // verus!
