//! Per-invocation context shared across command handlers.

use vstd::prelude::*;

use crate::output::OutputFormat;

verus! {

/// The parsed global flags of one invocation.
#[derive(Debug)]
pub struct Context {
    pub host: Option<String>,
    pub output: OutputFormat,
    pub verbose: u8,
    pub no_color: bool,
}

impl Context {
    /// A context holding the given flags.
    pub fn new(host: Option<String>, output: OutputFormat, verbose: u8, no_color: bool) -> (r: Self)
        ensures
            r.host == host,
            r.output == output,
            r.verbose == verbose,
            r.no_color == no_color,
    {
        Context { host, output, verbose, no_color }
    }
}

} // verus!
