//! `confluence search`: CQL search.

use vstd::prelude::*;

use crate::context::Context;

verus! {

/// Arguments of `confluence search`.
#[derive(Debug)]
pub struct Args {
    /// CQL query string.
    pub cql: String,
    /// Maximum number of results to return.
    pub limit: u32,
}

/// What `confluence search` answers.
pub open spec fn search_message() -> Seq<char> {
    "`search` is not yet implemented (M0 skeleton; lands in M2)"@
}

/// Runs `confluence search`: it reports that it is not implemented yet.
pub fn run(args: Args, ctx: &Context) -> (r: Result<(), String>)
    ensures
        r matches Err(m) && m@ == search_message(),
{
    Err(String::from_str("`search` is not yet implemented (M0 skeleton; lands in M2)"))
}

} // verus!
