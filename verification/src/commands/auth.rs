//! `confluence auth`: manage stored credentials and the active host.

use vstd::prelude::*;

use crate::context::Context;

verus! {

/// Arguments of `confluence auth`.
#[derive(Debug)]
pub struct Args {
    pub command: AuthCommand,
}

/// Subcommands of `confluence auth`.
#[derive(Debug)]
pub enum AuthCommand {
    /// Log in to a Confluence host with an API token.
    Login,
    /// Remove a stored credential.
    Logout,
    /// Show the active host and any other configured hosts.
    Status,
    /// Switch the active host.
    Switch { host: String },
}

/// What `confluence auth` answers.
pub open spec fn auth_message(args: &Args) -> Seq<char> {
    match args.command {
        AuthCommand::Login => "`auth login` is not yet implemented (M0 skeleton; lands in M1)"@,
        AuthCommand::Logout => "`auth logout` is not yet implemented (M0 skeleton; lands in M1)"@,
        AuthCommand::Status => "`auth status` is not yet implemented (M0 skeleton; lands in M1)"@,
        AuthCommand::Switch { .. } => "`auth switch` is not yet implemented (M0 skeleton; lands in M1)"@,
    }
}

/// Runs `confluence auth`: every subcommand reports that it is not
/// implemented yet.
pub fn run(args: Args, ctx: &Context) -> (r: Result<(), String>)
    ensures
        r matches Err(m) && m@ == auth_message(&args),
{
    match args.command {
        AuthCommand::Login => Err(
            String::from_str("`auth login` is not yet implemented (M0 skeleton; lands in M1)"),
        ),
        AuthCommand::Logout => Err(
            String::from_str("`auth logout` is not yet implemented (M0 skeleton; lands in M1)"),
        ),
        AuthCommand::Status => Err(
            String::from_str("`auth status` is not yet implemented (M0 skeleton; lands in M1)"),
        ),
        AuthCommand::Switch { .. } => Err(
            String::from_str("`auth switch` is not yet implemented (M0 skeleton; lands in M1)"),
        ),
    }
}

} // verus!
