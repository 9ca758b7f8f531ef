//! `confluence page`: view, list, create, edit, delete pages.

use vstd::prelude::*;

use crate::context::Context;

verus! {

/// Arguments of `confluence page`.
#[derive(Debug)]
pub struct Args {
    pub command: PageCommand,
}

/// Subcommands of `confluence page`.
#[derive(Debug)]
pub enum PageCommand {
    /// Print a page by ID in the given body representation.
    View { id: String, body: String },
    /// List pages, optionally within a space.
    List { space: Option<String>, limit: u32 },
    /// Create a new page from the body in `file`.
    Create { space: String, title: String, file: String, parent: Option<String> },
    /// Update an existing page from the body in `file`.
    Edit { id: String, file: String, message: Option<String>, minor_edit: bool, force: bool },
    /// Delete a page.
    Delete { id: String, yes: bool },
}

/// What `confluence page` answers.
pub open spec fn page_message(args: &Args) -> Seq<char> {
    match args.command {
        PageCommand::View { .. } => "`page view` is not yet implemented (M0 skeleton; lands in M2)"@,
        PageCommand::List { .. } => "`page list` is not yet implemented (M0 skeleton; lands in M2)"@,
        PageCommand::Create { .. } => "`page create` is not yet implemented (M0 skeleton; lands in M3)"@,
        PageCommand::Edit { .. } => "`page edit` is not yet implemented (M0 skeleton; lands in M3)"@,
        PageCommand::Delete { .. } => "`page delete` is not yet implemented (M0 skeleton; lands in M3)"@,
    }
}

/// Runs `confluence page`: every subcommand reports that it is not
/// implemented yet.
pub fn run(args: Args, ctx: &Context) -> (r: Result<(), String>)
    ensures
        r matches Err(m) && m@ == page_message(&args),
{
    match args.command {
        PageCommand::View { .. } => Err(
            String::from_str("`page view` is not yet implemented (M0 skeleton; lands in M2)"),
        ),
        PageCommand::List { .. } => Err(
            String::from_str("`page list` is not yet implemented (M0 skeleton; lands in M2)"),
        ),
        PageCommand::Create { .. } => Err(
            String::from_str("`page create` is not yet implemented (M0 skeleton; lands in M3)"),
        ),
        PageCommand::Edit { .. } => Err(
            String::from_str("`page edit` is not yet implemented (M0 skeleton; lands in M3)"),
        ),
        PageCommand::Delete { .. } => Err(
            String::from_str("`page delete` is not yet implemented (M0 skeleton; lands in M3)"),
        ),
    }
}

} // verus!
