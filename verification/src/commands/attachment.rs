//! `confluence attachment`: upload, download, list attachments.

use vstd::prelude::*;

use crate::context::Context;

verus! {

/// Arguments of `confluence attachment`.
#[derive(Debug)]
pub struct Args {
    pub command: AttachmentCommand,
}

/// Subcommands of `confluence attachment`.
#[derive(Debug)]
pub enum AttachmentCommand {
    /// Upload a file as an attachment to a page.
    Upload { page_id: String, file: String },
    /// List attachments on a page.
    List { page_id: String },
    /// Download an attachment by ID, to `out` if given.
    Download { attachment_id: String, out: Option<String> },
}

/// What `confluence attachment` answers.
pub open spec fn attachment_message(args: &Args) -> Seq<char> {
    match args.command {
        AttachmentCommand::Upload { .. } => "`attachment upload` is not yet implemented (M0 skeleton; lands in M4)"@,
        AttachmentCommand::List { .. } => "`attachment list` is not yet implemented (M0 skeleton; lands in M4)"@,
        AttachmentCommand::Download { .. } => "`attachment download` is not yet implemented (M0 skeleton; lands in M4)"@,
    }
}

/// Runs `confluence attachment`: every subcommand reports that it is not
/// implemented yet.
pub fn run(args: Args, ctx: &Context) -> (r: Result<(), String>)
    ensures
        r matches Err(m) && m@ == attachment_message(&args),
{
    match args.command {
        AttachmentCommand::Upload { .. } => Err(
            String::from_str("`attachment upload` is not yet implemented (M0 skeleton; lands in M4)"),
        ),
        AttachmentCommand::List { .. } => Err(
            String::from_str("`attachment list` is not yet implemented (M0 skeleton; lands in M4)"),
        ),
        AttachmentCommand::Download { .. } => Err(
            String::from_str("`attachment download` is not yet implemented (M0 skeleton; lands in M4)"),
        ),
    }
}

} // verus!
