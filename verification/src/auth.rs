//! The high-level [`Auth`] façade that command handlers call.
//!
//! It owns a store (any [`AuthStore`]), so the same handler code works
//! against the keyring-backed store and against [`crate::MemoryStore`].

use vstd::prelude::*;

use crate::credential::{AuthMethod, Credential};
use crate::error::Error;
use crate::hosts::{is_valid_host, validate_host, HostEntry, Timestamp};
use crate::secret::SecretString;
use crate::sorted_map::{entries_view, is_sorted_listing, lemma_listing_entry};
use crate::store::{AuthStore, StoreView};
use crate::text::{compare_str, Order};

verus! {

/// User-visible summary of one host's auth state.
#[derive(Debug, Clone, PartialEq, Eq)]
pub struct Status {
    pub host: String,
    pub email: String,
    pub auth_method: AuthMethod,
    /// `true` if the store currently yields a secret for this host.
    pub token_present: bool,
    /// `true` if this host is the current default.
    pub is_default: bool,
}

/// The row for `host` in the listing `hosts`: the first row with that key,
/// or `HostNotFound` when there is none.
pub fn find_host_entry(hosts: &Vec<(String, HostEntry)>, host: &str) -> (r: Result<HostEntry, Error>)
    ensures
        r matches Ok(e) ==> exists|i: int|
            0 <= i < hosts@.len() && #[trigger] hosts@[i].0@ == host@ && e@ == hosts@[i].1@ && forall|
                j: int,
            | 0 <= j < i ==> #[trigger] hosts@[j].0@ != host@,
        r is Err ==> (forall|i: int| 0 <= i < hosts@.len() ==> #[trigger] hosts@[i].0@ != host@) && (
        r matches Err(Error::HostNotFound(h)) && h@ == host@),
{
    let n = hosts.len();
    let mut i: usize = 0;
    while i < n
        invariant
            i <= n == hosts@.len(),
            forall|j: int| 0 <= j < i ==> #[trigger] hosts@[j].0@ != host@,
        decreases n - i,
    {
        if compare_str(hosts[i].0.as_str(), host) == Order::Equal {
            return Ok(hosts[i].1.duplicate());
        }
        i = i + 1;
    }
    Err(Error::HostNotFound(host.to_owned()))
}

/// In an increasing listing of `m`, the row found for a key is the map's
/// entry for it, and a key not found is not in the map.
proof fn lemma_found_in_listing(
    v: Seq<(String, HostEntry)>,
    m: Map<Seq<char>, crate::hosts::HostEntryView>,
    host: Seq<char>,
    r: Result<HostEntry, Error>,
)
    requires
        is_sorted_listing(entries_view(v), m),
        r matches Ok(e) ==> exists|i: int|
            0 <= i < v.len() && #[trigger] v[i].0@ == host && e@ == v[i].1@,
        r is Err ==> forall|i: int| 0 <= i < v.len() ==> #[trigger] v[i].0@ != host,
    ensures
        r matches Ok(e) ==> m.dom().contains(host) && e@ == m[host],
        r is Err ==> !m.dom().contains(host),
{
    let l = entries_view(v);
    if let Ok(e) = r {
        let i = choose|i: int| 0 <= i < v.len() && #[trigger] v[i].0@ == host && e@ == v[i].1@;
        lemma_listing_entry(l, i);
    } else {
        if m.dom().contains(host) {
            let i = crate::sorted_map::listing_index(l, host);
            assert(v[i].0@ == l[i].0);
        }
    }
}

/// The host a status report is about: the given one once validated, else
/// the default; `NoActiveHost` when neither is there.
pub fn resolve_host(host: Option<&str>, default: &Option<String>) -> (r: Result<String, Error>)
    ensures
        match host {
            Some(h) => {
                &&& is_valid_host(h@) ==> (r matches Ok(s) && s@ == h@)
                &&& !is_valid_host(h@) ==> (r matches Err(Error::InvalidHost(x)) && x@ == h@)
            },
            None => match default {
                Some(d) => r matches Ok(s) && s@ == d@,
                None => r matches Err(Error::NoActiveHost),
            },
        },
{
    match host {
        Some(h) => {
            validate_host(h)?;
            Ok(h.to_owned())
        },
        None => match default {
            Some(d) => Ok(d.clone()),
            None => Err(Error::NoActiveHost),
        },
    }
}

/// Top-level auth API over a store.
pub struct Auth<S: AuthStore> {
    store: S,
}

impl<S: AuthStore> Auth<S> {
    /// The state of the underlying store.
    pub closed spec fn state(&self) -> StoreView {
        self.store.state()
    }

    /// Whether the underlying store fails only on an invalid or unknown
    /// host.
    pub closed spec fn never_fails(&self) -> bool {
        self.store.never_fails()
    }

    /// Wraps a store.
    pub fn with_store(store: S) -> (r: Self)
        ensures
            r.state() == store.state(),
            r.never_fails() == store.never_fails(),
    {
        Auth { store }
    }

    /// Registers or updates a host's credential. The host becomes the
    /// default if no default was set. An invalid host is refused before
    /// the store is touched.
    pub fn login(&mut self, host: &str, email: &str, token: SecretString) -> (r: Result<(), Error>)
        ensures
            !is_valid_host(host@) ==> final(self).state() == old(self).state() && (r matches Err(
                Error::InvalidHost(h),
            ) && h@ == host@),
            r is Ok ==> exists|t: Timestamp| #[trigger]
                old(self).state().stored(host@, email@, token@, t) == final(self).state(),
            final(self).never_fails() == old(self).never_fails(),
            old(self).never_fails() && is_valid_host(host@) ==> r is Ok,
    {
        validate_host(host)?;
        let cred = Credential::api_token(email, token);
        self.store.put(host, email, cred)
    }

    /// Forgets the credential and metadata for `host`; if it was the
    /// default, the least remaining host becomes the default.
    pub fn logout(&mut self, host: &str) -> (r: Result<(), Error>)
        ensures
            !is_valid_host(host@) ==> final(self).state() == old(self).state() && (r matches Err(
                Error::InvalidHost(h),
            ) && h@ == host@),
            r is Ok ==> old(self).state().registry.hosts.dom().contains(host@) && final(self).state()
                == old(self).state().removed(host@),
            !old(self).state().registry.hosts.dom().contains(host@) ==> r is Err
                && final(self).state() == old(self).state(),
            final(self).never_fails() == old(self).never_fails(),
            old(self).never_fails() && is_valid_host(host@) && !old(
                self,
            ).state().registry.hosts.dom().contains(host@) ==> final(self).state() == old(
                self,
            ).state() && (r matches Err(Error::HostNotFound(h)) && h@ == host@),
            old(self).never_fails() && is_valid_host(host@) && old(
                self,
            ).state().registry.hosts.dom().contains(host@) ==> r is Ok,
    {
        validate_host(host)?;
        self.store.remove(host)
    }

    /// All registered hosts and their metadata, in host order.
    pub fn list(&self) -> (r: Result<Vec<(String, HostEntry)>, Error>)
        ensures
            r matches Ok(v) ==> is_sorted_listing(entries_view(v@), self.state().registry.hosts),
            self.never_fails() ==> r is Ok,
    {
        self.store.list_hosts()
    }

    /// Switches the active default host.
    pub fn switch(&mut self, host: &str) -> (r: Result<(), Error>)
        ensures
            !is_valid_host(host@) ==> final(self).state() == old(self).state() && (r matches Err(
                Error::InvalidHost(h),
            ) && h@ == host@),
            r is Ok ==> old(self).state().registry.hosts.dom().contains(host@) && final(self).state()
                == old(self).state().switched(host@),
            !old(self).state().registry.hosts.dom().contains(host@) ==> r is Err
                && final(self).state() == old(self).state(),
            final(self).never_fails() == old(self).never_fails(),
            old(self).never_fails() && is_valid_host(host@) && !old(
                self,
            ).state().registry.hosts.dom().contains(host@) ==> final(self).state() == old(
                self,
            ).state() && (r matches Err(Error::HostNotFound(h)) && h@ == host@),
            old(self).never_fails() && is_valid_host(host@) && old(
                self,
            ).state().registry.hosts.dom().contains(host@) ==> r is Ok,
    {
        validate_host(host)?;
        self.store.set_default_host(host)
    }

    /// The currently active host and its metadata, if any. A default that
    /// names no registered host is `HostNotFound`.
    pub fn active(&self) -> (r: Result<Option<(String, HostEntry)>, Error>)
        ensures
            r matches Ok(None) ==> self.state().registry.default is None,
            r matches Ok(Some(p)) ==> {
                &&& self.state().registry.default == Some(p.0@)
                &&& self.state().registry.hosts.dom().contains(p.0@)
                &&& p.1@ == self.state().registry.hosts[p.0@]
            },
            self.never_fails() ==> (match self.state().registry.default {
                None => r matches Ok(None),
                Some(d) => if self.state().registry.hosts.dom().contains(d) {
                    r matches Ok(Some(_))
                } else {
                    r matches Err(Error::HostNotFound(x)) && x@ == d
                },
            }),
    {
        let host = match self.store.default_host() {
            Ok(Some(h)) => h,
            Ok(None) => {
                return Ok(None);
            },
            Err(e) => {
                return Err(e);
            },
        };
        let hosts = match self.store.list_hosts() {
            Ok(v) => v,
            Err(e) => {
                return Err(e);
            },
        };
        let found = find_host_entry(&hosts, host.as_str());
        proof {
            lemma_found_in_listing(hosts@, self.state().registry.hosts, host@, found);
        }
        match found {
            Ok(entry) => Ok(Some((host, entry))),
            Err(e) => Err(e),
        }
    }

    /// The credential for `host`.
    pub fn credential(&self, host: &str) -> (r: Result<Credential, Error>)
        ensures
            !is_valid_host(host@) ==> (r matches Err(Error::InvalidHost(h)) && h@ == host@),
            r matches Ok(c) ==> {
                &&& self.state().registry.hosts.dom().contains(host@)
                &&& c@.email == self.state().registry.hosts[host@].email
                &&& self.state().secrets.dom().contains(host@)
                &&& c@.token == self.state().secrets[host@]
            },
            self.never_fails() && is_valid_host(host@) && !self.state().registry.hosts.dom().contains(
                host@,
            ) ==> (r matches Err(Error::HostNotFound(h)) && h@ == host@),
            self.never_fails() && is_valid_host(host@) && self.state().registry.hosts.dom().contains(
                host@,
            ) ==> r is Ok,
    {
        validate_host(host)?;
        self.store.get(host)
    }

    /// A non-secret summary of `host` (the default host when `None`).
    pub fn status(&self, host: Option<&str>) -> (r: Result<Status, Error>)
        ensures
            r matches Ok(s) ==> {
                let reg = self.state().registry;
                &&& reg.hosts.dom().contains(s.host@)
                &&& match host {
                    Some(h) => s.host@ == h@ && is_valid_host(h@),
                    None => reg.default == Some(s.host@),
                }
                &&& s.email@ == reg.hosts[s.host@].email
                &&& s.auth_method == reg.hosts[s.host@].auth_method
                &&& s.is_default == (reg.default == Some(s.host@))
                &&& s.token_present ==> self.state().secrets.dom().contains(s.host@)
            },
            host is None && self.state().registry.default is None ==> r is Err,
            host matches Some(h) && !is_valid_host(h@) ==> r is Err,
            self.never_fails() ==> (match host {
                Some(h) => if !is_valid_host(h@) {
                    r matches Err(Error::InvalidHost(x)) && x@ == h@
                } else if !self.state().registry.hosts.dom().contains(h@) {
                    r matches Err(Error::HostNotFound(x)) && x@ == h@
                } else {
                    r matches Ok(s) && s.token_present
                },
                None => match self.state().registry.default {
                    None => r matches Err(Error::NoActiveHost),
                    Some(d) => if !self.state().registry.hosts.dom().contains(d) {
                        r matches Err(Error::HostNotFound(x)) && x@ == d
                    } else {
                        r matches Ok(s) && s.token_present == is_valid_host(d)
                    },
                },
            }),
    {
        let default = self.store.default_host()?;
        let resolved = resolve_host(host, &default)?;
        let hosts = self.store.list_hosts()?;
        let found = find_host_entry(&hosts, resolved.as_str());
        proof {
            lemma_found_in_listing(hosts@, self.state().registry.hosts, resolved@, found);
        }
        let entry = found?;
        let token_present = match self.store.get(resolved.as_str()) {
            Ok(_) => true,
            Err(_) => false,
        };
        let is_default = match &default {
            Some(d) => compare_str(d.as_str(), resolved.as_str()) == Order::Equal,
            None => false,
        };
        Ok(
            Status {
                host: resolved,
                email: entry.email,
                auth_method: entry.auth_method,
                token_present,
                is_default,
            },
        )
    }

    /// The diagnostic rendering of the façade: it shows nothing of the
    /// store.
    pub fn debug_repr(&self) -> (r: String)
        ensures
            r@ == "Auth { .. }"@,
    {
        String::from_str("Auth { .. }")
    }
}

} // verus!
