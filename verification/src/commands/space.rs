//! `confluence space`: list and inspect spaces.

use vstd::prelude::*;

use crate::context::Context;

verus! {

/// Arguments of `confluence space`.
#[derive(Debug)]
pub struct Args {
    pub command: SpaceCommand,
}

/// Subcommands of `confluence space`.
#[derive(Debug)]
pub enum SpaceCommand {
    /// List spaces visible to the active user.
    List { limit: u32 },
    /// Show details for a single space.
    View { key: String },
}

/// What `confluence space` answers.
pub open spec fn space_message(args: &Args) -> Seq<char> {
    match args.command {
        SpaceCommand::List { .. } => "`space list` is not yet implemented (M0 skeleton; lands in M2)"@,
        SpaceCommand::View { .. } => "`space view` is not yet implemented (M0 skeleton; lands in M2)"@,
    }
}

/// Runs `confluence space`: every subcommand reports that it is not
/// implemented yet.
pub fn run(args: Args, ctx: &Context) -> (r: Result<(), String>)
    ensures
        r matches Err(m) && m@ == space_message(&args),
{
    match args.command {
        SpaceCommand::List { .. } => Err(
            String::from_str("`space list` is not yet implemented (M0 skeleton; lands in M2)"),
        ),
        SpaceCommand::View { .. } => Err(
            String::from_str("`space view` is not yet implemented (M0 skeleton; lands in M2)"),
        ),
    }
}

} // verus!
