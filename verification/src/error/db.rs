//! Failures of the database layer.

use vstd::prelude::*;

verus! {

/// What went wrong in the database layer.
#[derive(Clone, Copy, Debug, PartialEq, Eq, Structural)]
pub enum Db {
    FailedTransaction,
}

impl Db {
    /// The HTTP status the error is answered with: 500, internal server
    /// error.
    pub fn status_code(&self) -> (code: u16)
        ensures
            code == 500,
    {
        match self {
            Db::FailedTransaction => 500,
        }
    }

    /// The text the error is shown as.
    pub fn message(&self) -> (text: String)
        ensures
            text@ == "failed transaction"@,
    {
        match self {
            Db::FailedTransaction => "failed transaction".to_owned(),
        }
    }
}

} // verus!
