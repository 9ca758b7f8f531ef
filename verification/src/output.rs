//! Output format selection for the command-line tool.

use vstd::prelude::*;

verus! {

/// How command output is rendered.
#[derive(Debug, Clone, Copy, PartialEq, Eq, Structural)]
pub enum OutputFormat {
    Human,
    Json,
    Tsv,
}

/// The format in effect: `--json` is shorthand for `--output json`.
pub fn effective_format(json: bool, output: OutputFormat) -> (r: OutputFormat)
    ensures
        r == (if json {
            OutputFormat::Json
        } else {
            output
        }),
{
    if json {
        OutputFormat::Json
    } else {
        output
    }
}

} // verus!
