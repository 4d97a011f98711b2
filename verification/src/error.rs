//! Error values of the HTTP surface, with the status each one is answered
//! with and the text it is shown as.

use vstd::prelude::*;

pub mod db;

verus! {

/// A database transaction that failed.
#[derive(Clone, Copy, Debug, PartialEq, Eq, Structural)]
pub struct Db;

impl Db {
    /// The HTTP status the error is answered with: 500, internal server
    /// error.
    pub fn status_code(&self) -> (code: u16)
        ensures
            code == 500,
    {
        500
    }

    /// The text the error is shown as: its own name.
    pub fn message(&self) -> (text: String)
        ensures
            text@ == "Db"@,
    {
        "Db".to_owned()
    }
}

/// A request of the login flow that cannot be served.
#[derive(Clone, Copy, Debug, PartialEq, Eq, Structural)]
pub enum Oauth {
    BadRequest,
}

impl Oauth {
    /// The HTTP status the error is answered with: 400, bad request.
    pub fn status_code(&self) -> (code: u16)
        ensures
            code == 400,
    {
        match self {
            Oauth::BadRequest => 400,
        }
    }

    /// The text the error is shown as.
    pub fn message(&self) -> (text: String)
        ensures
            text@ == "bad request"@,
    {
        match self {
            Oauth::BadRequest => "bad request".to_owned(),
        }
    }
}

/// The bearer of a request, read from its `authorization` header: `header`
/// is `None` where the request has no such header, and holds `None` where
/// the header's value is not visible ASCII text. Either way the request is a
/// bad one.
pub fn authorization(header: Option<Option<String>>) -> (r: Result<String, Oauth>)
    ensures
        match header {
            Some(Some(value)) => r == Ok::<String, Oauth>(value),
            _ => r == Err::<String, Oauth>(Oauth::BadRequest),
        },
{
    match header {
        Some(Some(value)) => Ok(value),
        _ => Err(Oauth::BadRequest),
    }
}

} // verus!
