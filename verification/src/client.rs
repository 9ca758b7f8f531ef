//! Errors of the Confluence REST client.

use vstd::prelude::*;

verus! {

/// Errors produced by the Confluence API client.
#[derive(Debug)]
#[non_exhaustive]
pub enum Error {
    /// No endpoint is implemented yet.
    NotImplemented,
}

/// The message that describes `e` to a user.
pub open spec fn client_error_message(e: &Error) -> Seq<char> {
    match e {
        Error::NotImplemented => "confluence-api: not yet implemented"@,
    }
}

impl Error {
    /// The message that describes this error to a user.
    pub fn message(&self) -> (r: String)
        ensures
            r@ == client_error_message(self),
    {
        match self {
            Error::NotImplemented => String::from_str("confluence-api: not yet implemented"),
        }
    }
}

} // verus!
