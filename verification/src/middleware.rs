//! The GitHub user a request is made for.

use vstd::prelude::*;

verus! {

/// The identifier of the GitHub user behind a request.
#[derive(Clone, Copy, Debug, PartialEq, Eq, Structural)]
pub struct GitHubUserId {
    pub id: i32,
}

impl GitHubUserId {
    /// The identifier of a request that names no user: `-1`, which GitHub
    /// gives to nobody.
    pub fn default() -> (user: Self)
        ensures
            user.id == -1,
    {
        GitHubUserId { id: -1 }
    }
}

} // verus!
