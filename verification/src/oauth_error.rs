//! Failures of the authorization endpoints.

use vstd::prelude::*;

verus! {

/// A request to the authorization endpoints that cannot be served.
#[derive(Clone, Copy, Debug, PartialEq, Eq, Structural)]
pub enum OauthError {
    BadRequest,
}

impl OauthError {
    /// The HTTP status the error is answered with: 400, bad request.
    pub fn status_code(&self) -> (code: u16)
        ensures
            code == 400,
    {
        match self {
            OauthError::BadRequest => 400,
        }
    }

    /// The text the error is shown as.
    pub fn message(&self) -> (text: String)
        ensures
            text@ == "bad request"@,
    {
        match self {
            OauthError::BadRequest => "bad request".to_owned(),
        }
    }
}

} // verus!
