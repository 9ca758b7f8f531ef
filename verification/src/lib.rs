//! Credential storage, host registry and command surface of the
//! `confluence` command-line tool for Atlassian Confluence.
//!
//! - [`Credential`] and the redacted [`SecretString`] wrapper.
//! - The [`AuthStore`] interface, the in-memory [`MemoryStore`], and the
//!   keyring steps of the production store ([`keyring_store`]).
//! - The host registry ([`hosts`]): logins, logouts and switches, with the
//!   active host always a registered one.
//! - The [`Auth`] façade over any store.
//! - Config paths ([`Paths`]) and the command surface ([`commands`]).

pub mod auth;
pub mod client;
pub mod commands;
pub mod context;
pub mod credential;
pub mod error;
pub mod hosts;
pub mod keyring_store;
pub mod output;
pub mod outside;
pub mod paths;
pub mod secret;
pub mod sorted_map;
pub mod store;
pub mod text;

pub use crate::auth::{Auth, Status};
pub use crate::credential::{AuthMethod, Credential};
pub use crate::error::{Error, Result};
pub use crate::hosts::{validate_host, HostEntry, Hosts, HostsFile, Timestamp};
pub use crate::paths::Paths;
pub use crate::secret::SecretString;
pub use crate::store::{AuthStore, MemoryStore};
