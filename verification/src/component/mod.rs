//! Components: installing, listing and removing binaries.

pub mod install;

use vstd::prelude::*;

verus! {

/// What carries out the requests on components, with the token that it presents to the
/// server of releases.
#[derive(Debug)]
pub struct ComponentManager {
    pub github_token: Option<String>,
}

impl ComponentManager {
    /// A manager with the given token.
    pub fn new(github_token: Option<String>) -> (r: Self)
        ensures
            r.github_token == github_token,
    {
        ComponentManager { github_token }
    }
}

} // verus!
