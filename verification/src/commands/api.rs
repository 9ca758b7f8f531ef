//! `confluence api`: an authenticated request to any Confluence REST
//! endpoint.

use vstd::prelude::*;

use crate::context::Context;

verus! {

/// Arguments of `confluence api`.
#[derive(Debug)]
pub struct Args {
    /// HTTP method.
    pub method: String,
    /// Endpoint path.
    pub path: String,
    /// Request body (raw string).
    pub body: Option<String>,
    /// Path of a file whose contents are the request body.
    pub input: Option<String>,
}

/// What `confluence api` answers.
pub open spec fn api_message() -> Seq<char> {
    "`api` is not yet implemented (M0 skeleton; lands in M1)"@
}

/// Runs `confluence api`: it reports that it is not implemented yet.
pub fn run(args: Args, ctx: &Context) -> (r: Result<(), String>)
    ensures
        r matches Err(m) && m@ == api_message(),
{
    Err(String::from_str("`api` is not yet implemented (M0 skeleton; lands in M1)"))
}

} // verus!
