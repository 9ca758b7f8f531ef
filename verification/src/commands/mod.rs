//! Top-level command dispatch of the command-line tool.

use vstd::prelude::*;

use crate::context::Context;

pub mod api;
pub mod attachment;
pub mod auth;
pub mod comment;
pub mod page;
pub mod search;
pub mod space;

verus! {

/// The top-level commands.
#[derive(Debug)]
pub enum Command {
    /// Authenticate with a Confluence host and manage stored credentials.
    Auth(auth::Args),
    /// Read, create, update, and delete pages.
    Page(page::Args),
    /// Search content using CQL.
    Search(search::Args),
    /// List and inspect spaces.
    Space(space::Args),
    /// Upload, download, and list page attachments.
    Attachment(attachment::Args),
    /// Add and list comments on pages.
    Comment(comment::Args),
    /// Make an authenticated request to an arbitrary REST endpoint.
    Api(api::Args),
}

/// What the tool answers to `command`.
pub open spec fn command_message(command: &Command) -> Seq<char> {
    match command {
        Command::Auth(a) => auth::auth_message(a),
        Command::Page(a) => page::page_message(a),
        Command::Search(_) => search::search_message(),
        Command::Space(a) => space::space_message(a),
        Command::Attachment(a) => attachment::attachment_message(a),
        Command::Comment(a) => comment::comment_message(a),
        Command::Api(_) => api::api_message(),
    }
}

/// Runs `command` by handing it to the handler of its noun.
pub fn dispatch(command: Command, ctx: &Context) -> (r: Result<(), String>)
    ensures
        r matches Err(m) && m@ == command_message(&command),
{
    match command {
        Command::Auth(args) => auth::run(args, ctx),
        Command::Page(args) => page::run(args, ctx),
        Command::Search(args) => search::run(args, ctx),
        Command::Space(args) => space::run(args, ctx),
        Command::Attachment(args) => attachment::run(args, ctx),
        Command::Comment(args) => comment::run(args, ctx),
        Command::Api(args) => api::run(args, ctx),
    }
}

} // verus!
