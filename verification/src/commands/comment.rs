//! `confluence comment`: page comments.

use vstd::prelude::*;

use crate::context::Context;

verus! {

/// Arguments of `confluence comment`.
#[derive(Debug)]
pub struct Args {
    pub command: CommentCommand,
}

/// Subcommands of `confluence comment`.
#[derive(Debug)]
pub enum CommentCommand {
    /// Add a comment to a page; `file` holds the comment body.
    Add { page_id: String, file: String },
    /// List comments on a page.
    List { page_id: String },
}

/// What `confluence comment` answers.
pub open spec fn comment_message(args: &Args) -> Seq<char> {
    match args.command {
        CommentCommand::Add { .. } => "`comment add` is not yet implemented (M0 skeleton; lands in M4)"@,
        CommentCommand::List { .. } => "`comment list` is not yet implemented (M0 skeleton; lands in M4)"@,
    }
}

/// Runs `confluence comment`: every subcommand reports that it is not
/// implemented yet.
pub fn run(args: Args, ctx: &Context) -> (r: Result<(), String>)
    ensures
        r matches Err(m) && m@ == comment_message(&args),
{
    match args.command {
        CommentCommand::Add { .. } => Err(
            String::from_str("`comment add` is not yet implemented (M0 skeleton; lands in M4)"),
        ),
        CommentCommand::List { .. } => Err(
            String::from_str("`comment list` is not yet implemented (M0 skeleton; lands in M4)"),
        ),
    }
}

} // verus!
