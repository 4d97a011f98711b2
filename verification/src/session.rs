//! What the login endpoints answer.

use vstd::prelude::*;

verus! {

/// The body of the answer to "am I logged in?": a JSON object whose `result`
/// tells whether the request came with a valid identity.
pub fn is_logged_in(identified: bool) -> (body: &'static str)
    ensures
        body@ == (if identified {
            "{\"result\": true}"@
        } else {
            "{\"result\": false}"@
        }),
{
    if identified {
        "{\"result\": true}"
    } else {
        "{\"result\": false}"
    }
}

} // verus!
