//! The credential-storage interface and the in-memory store.
//!
//! Every consumer goes through [`AuthStore`], so the production keyring
//! backend can be swapped for [`MemoryStore`]. A store's state is a host
//! registry together with the secret stored for each host.

use vstd::prelude::*;

use crate::credential::Credential;
use crate::error::Error;
use crate::hosts::{
    is_valid_host, opt_view, validate_host, HostEntry, HostsFile, HostsFileView, Timestamp,
};
use crate::secret::SecretString;
use crate::sorted_map::{entries_view, is_sorted_listing, SortedMap};

verus! {

/// A store's state as plain values: the registry and each host's secret.
pub struct StoreView {
    pub registry: HostsFileView,
    pub secrets: Map<Seq<char>, Seq<char>>,
}

impl StoreView {
    /// The state after `host` logged in with `email` and `token` at `now`.
    pub open spec fn stored(self, host: Seq<char>, email: Seq<char>, token: Seq<char>, now: Timestamp) -> Self {
        StoreView {
            registry: self.registry.registered(host, email, now),
            secrets: self.secrets.insert(host, token),
        }
    }

    /// The state after `host` logged out.
    pub open spec fn removed(self, host: Seq<char>) -> Self {
        StoreView { registry: self.registry.unregistered(host), secrets: self.secrets.remove(host) }
    }

    /// The state with `host` as the default.
    pub open spec fn switched(self, host: Seq<char>) -> Self {
        StoreView { registry: self.registry.with_default(host), secrets: self.secrets }
    }

    /// The registry is well formed and exactly the registered hosts have a
    /// secret.
    pub open spec fn well_formed(self) -> bool {
        &&& self.registry.well_formed()
        &&& self.secrets.dom() == self.registry.hosts.dom()
    }
}

/// A credential stored for a host is what a later read of that host
/// gives back: its secret and the email it was stored under.
pub proof fn law_read_after_store(
    v: StoreView,
    host: Seq<char>,
    email: Seq<char>,
    token: Seq<char>,
    now: Timestamp,
)
    ensures
        v.stored(host, email, token, now).registry.hosts.dom().contains(host),
        v.stored(host, email, token, now).secrets.dom().contains(host),
        v.stored(host, email, token, now).secrets[host] == token,
        v.stored(host, email, token, now).registry.hosts[host].email == email,
{
}

/// Storing, removing and switching to a registered host keep a store well
/// formed.
pub proof fn law_store_operations_keep_well_formed(
    v: StoreView,
    host: Seq<char>,
    email: Seq<char>,
    token: Seq<char>,
    now: Timestamp,
)
    requires
        v.well_formed(),
    ensures
        v.stored(host, email, token, now).well_formed(),
        v.removed(host).well_formed(),
        v.registry.hosts.dom().contains(host) ==> v.switched(host).well_formed(),
{
    crate::hosts::law_login_keeps_well_formed(v.registry, host, email, now);
    crate::hosts::law_logout_keeps_well_formed(v.registry, host);
    assert(v.stored(host, email, token, now).secrets.dom() =~= v.stored(
        host,
        email,
        token,
        now,
    ).registry.hosts.dom());
    assert(v.removed(host).secrets.dom() =~= v.removed(host).registry.hosts.dom());
}

/// Switching to a host twice is the same as switching to it once: the
/// second switch changes nothing.
pub proof fn law_switch_idempotent(v: StoreView, host: Seq<char>)
    ensures
        v.switched(host).switched(host) == v.switched(host),
{
    crate::hosts::law_switch_to_default_changes_nothing(v.registry.with_default(host), host);
}

/// Logging out of a host that was just logged into for the first time
/// restores the store as it was, secrets included.
pub proof fn law_logout_undoes_login(
    v: StoreView,
    host: Seq<char>,
    email: Seq<char>,
    token: Seq<char>,
    now: Timestamp,
)
    requires
        v.well_formed(),
        !v.registry.hosts.dom().contains(host),
    ensures
        v.stored(host, email, token, now).removed(host) == v,
{
    crate::hosts::law_logout_undoes_login(v.registry, host, email, now);
    assert(!v.secrets.dom().contains(host));
    assert(v.stored(host, email, token, now).removed(host).secrets =~= v.secrets);
}

/// Storage backend for credentials and the host registry.
///
/// `Send + Sync`, so a store can be handed between threads. The contracts
/// below are what every backend promises when a call succeeds. When and
/// why a backend fails is up to it (the keyring backend depends on the OS
/// keyring and the filesystem), except for a backend that declares itself
/// `never_fails`: it answers every call itself and fails only where the
/// contracts name an invalid or unknown host.
pub trait AuthStore: Send + Sync {
    /// The store's current state.
    spec fn state(&self) -> StoreView;

    /// Whether the store depends on nothing outside itself, so that its
    /// calls fail only on an invalid or unknown host.
    spec fn never_fails(&self) -> bool;

    /// All registered hosts and their non-secret metadata, in host order.
    fn list_hosts(&self) -> (r: Result<Vec<(String, HostEntry)>, Error>)
        ensures
            r matches Ok(v) ==> is_sorted_listing(entries_view(v@), self.state().registry.hosts),
            self.never_fails() ==> r is Ok,
    ;

    /// The credential stored for `host`: the registered email and the
    /// stored secret. A host without an entry is never found.
    fn get(&self, host: &str) -> (r: Result<Credential, Error>)
        ensures
            r matches Ok(c) ==> {
                &&& self.state().registry.hosts.dom().contains(host@)
                &&& self.state().secrets.dom().contains(host@)
                &&& c@.email == self.state().registry.hosts[host@].email
                &&& c@.token == self.state().secrets[host@]
            },
            self.never_fails() && !is_valid_host(host@) ==> (r matches Err(Error::InvalidHost(h))
                && h@ == host@),
            self.never_fails() && is_valid_host(host@) && !self.state().registry.hosts.dom().contains(
                host@,
            ) ==> (r matches Err(Error::HostNotFound(h)) && h@ == host@),
            self.never_fails() && is_valid_host(host@) && self.state().registry.hosts.dom().contains(
                host@,
            ) ==> r is Ok,
    ;

    /// Persists a credential for `host` under `email`, overwriting any
    /// previous one. The host becomes the default if there was none.
    fn put(&mut self, host: &str, email: &str, cred: Credential) -> (r: Result<(), Error>)
        ensures
            r is Ok ==> exists|t: Timestamp| #[trigger]
                old(self).state().stored(host@, email@, cred@.token, t) == final(self).state(),
            final(self).never_fails() == old(self).never_fails(),
            old(self).never_fails() && !is_valid_host(host@) ==> final(self).state() == old(
                self,
            ).state() && (r matches Err(Error::InvalidHost(h)) && h@ == host@),
            old(self).never_fails() && is_valid_host(host@) ==> r is Ok,
    ;

    /// Deletes the host entry and its secret. A host that was never
    /// registered is an error, not a silent success, and changes nothing.
    fn remove(&mut self, host: &str) -> (r: Result<(), Error>)
        ensures
            r is Ok ==> old(self).state().registry.hosts.dom().contains(host@) && final(self).state()
                == old(self).state().removed(host@),
            !old(self).state().registry.hosts.dom().contains(host@) ==> r is Err
                && final(self).state() == old(self).state(),
            final(self).never_fails() == old(self).never_fails(),
            old(self).never_fails() && !is_valid_host(host@) ==> final(self).state() == old(
                self,
            ).state() && (r matches Err(Error::InvalidHost(h)) && h@ == host@),
            old(self).never_fails() && is_valid_host(host@) && !old(
                self,
            ).state().registry.hosts.dom().contains(host@) ==> final(self).state() == old(
                self,
            ).state() && (r matches Err(Error::HostNotFound(h)) && h@ == host@),
            old(self).never_fails() && is_valid_host(host@) && old(
                self,
            ).state().registry.hosts.dom().contains(host@) ==> r is Ok,
    ;

    /// The active host, or `None` if no host has been logged into.
    fn default_host(&self) -> (r: Result<Option<String>, Error>)
        ensures
            r matches Ok(d) ==> opt_view(d) == self.state().registry.default,
            self.never_fails() ==> r is Ok,
    ;

    /// Sets the active host. A host that is not registered is an error and
    /// changes nothing.
    fn set_default_host(&mut self, host: &str) -> (r: Result<(), Error>)
        ensures
            r is Ok ==> old(self).state().registry.hosts.dom().contains(host@) && final(self).state()
                == old(self).state().switched(host@),
            !old(self).state().registry.hosts.dom().contains(host@) ==> r is Err
                && final(self).state() == old(self).state(),
            final(self).never_fails() == old(self).never_fails(),
            old(self).never_fails() && !is_valid_host(host@) ==> final(self).state() == old(
                self,
            ).state() && (r matches Err(Error::InvalidHost(h)) && h@ == host@),
            old(self).never_fails() && is_valid_host(host@) && !old(
                self,
            ).state().registry.hosts.dom().contains(host@) ==> final(self).state() == old(
                self,
            ).state() && (r matches Err(Error::HostNotFound(h)) && h@ == host@),
            old(self).never_fails() && is_valid_host(host@) && old(
                self,
            ).state().registry.hosts.dom().contains(host@) ==> r is Ok,
    ;
}

/// In-memory store: registry and secrets held in the process, nothing on
/// disk.
pub struct MemoryStore {
    registry: HostsFile,
    secrets: SortedMap<SecretString>,
}

impl MemoryStore {
    #[verifier::type_invariant]
    closed spec fn consistent(&self) -> bool {
        StoreView { registry: self.registry@, secrets: self.secrets@ }.well_formed()
    }

    /// The store's state.
    pub closed spec fn view_state(&self) -> StoreView {
        StoreView { registry: self.registry@, secrets: self.secrets@ }
    }

    /// An empty store.
    pub fn new() -> (r: Self)
        ensures
            r.view_state().registry.default is None,
            r.view_state().registry.hosts == Map::<Seq<char>, crate::hosts::HostEntryView>::empty(),
            r.view_state().secrets == Map::<Seq<char>, Seq<char>>::empty(),
            r.view_state().well_formed(),
    {
        let registry = HostsFile::new();
        let secrets = SortedMap::new();
        assert(secrets@.dom() =~= registry@.hosts.dom());
        MemoryStore { registry, secrets }
    }

    /// Takes the state out, leaving an empty store behind.
    fn take_parts(&mut self) -> (r: (HostsFile, SortedMap<SecretString>))
        ensures
            (StoreView { registry: r.0@, secrets: r.1@ }) == old(self).view_state(),
            (StoreView { registry: r.0@, secrets: r.1@ }).well_formed(),
    {
        proof {
            use_type_invariant(&*self);
        }
        let mut st = MemoryStore::new();
        std::mem::swap(self, &mut st);
        proof {
            use_type_invariant(&st);
        }
        let MemoryStore { registry, secrets } = st;
        (registry, secrets)
    }
}

impl Default for MemoryStore {
    fn default() -> (r: Self)
        ensures
            r.view_state().registry.default is None,
            r.view_state().registry.hosts == Map::<Seq<char>, crate::hosts::HostEntryView>::empty(),
            r.view_state().secrets == Map::<Seq<char>, Seq<char>>::empty(),
    {
        MemoryStore::new()
    }
}

impl AuthStore for MemoryStore {
    open spec fn state(&self) -> StoreView {
        self.view_state()
    }

    /// The in-memory store depends on nothing outside the process.
    open spec fn never_fails(&self) -> bool {
        true
    }

    fn list_hosts(&self) -> (r: Result<Vec<(String, HostEntry)>, Error>)
        ensures
            r is Ok,
            self.state().well_formed(),
    {
        proof {
            use_type_invariant(self);
        }
        Ok(self.registry.entries())
    }

    fn get(&self, host: &str) -> (r: Result<Credential, Error>)
        ensures
            !is_valid_host(host@) ==> (r matches Err(Error::InvalidHost(h)) && h@ == host@),
            is_valid_host(host@) && !self.state().registry.hosts.dom().contains(host@) ==> (r matches Err(
                Error::HostNotFound(h),
            ) && h@ == host@),
            is_valid_host(host@) && self.state().registry.hosts.dom().contains(host@) ==> r is Ok,
            self.state().well_formed(),
    {
        proof {
            use_type_invariant(self);
        }
        validate_host(host)?;
        let meta = match self.registry.hosts.get(host) {
            Some(m) => m,
            None => {
                return Err(Error::HostNotFound(host.to_owned()));
            },
        };
        let token = match self.secrets.get(host) {
            Some(t) => t,
            None => {
                return Err(Error::HostNotFound(host.to_owned()));
            },
        };
        let copy = SecretString::new(token.expose().to_owned());
        Ok(Credential::api_token(meta.email.as_str(), copy))
    }

    fn put(&mut self, host: &str, email: &str, cred: Credential) -> (r: Result<(), Error>)
        ensures
            !is_valid_host(host@) ==> final(self).state() == old(self).state() && (r matches Err(
                Error::InvalidHost(h),
            ) && h@ == host@),
            is_valid_host(host@) ==> r is Ok,
            final(self).state().well_formed(),
    {
        proof {
            use_type_invariant(&*self);
        }
        validate_host(host)?;
        let ghost tok = cred@.token;
        let Credential::ApiToken { token, .. } = cred;
        let (mut registry, mut secrets) = self.take_parts();
        let ghost before = StoreView { registry: registry@, secrets: secrets@ };
        registry.register_now(host, email);
        secrets.insert(host.to_owned(), token);
        let ghost t = choose|t: Timestamp| registry@ == #[trigger] before.registry.registered(host@, email@, t);
        assert(StoreView { registry: registry@, secrets: secrets@ } == before.stored(host@, email@, tok, t));
        proof {
            crate::hosts::law_login_keeps_well_formed(before.registry, host@, email@, t);
            assert(secrets@.dom() =~= registry@.hosts.dom());
        }
        *self = MemoryStore { registry, secrets };
        assert(old(self).state().stored(host@, email@, tok, t) == self.state());
        Ok(())
    }

    fn remove(&mut self, host: &str) -> (r: Result<(), Error>)
        ensures
            !is_valid_host(host@) ==> final(self).state() == old(self).state() && (r matches Err(
                Error::InvalidHost(h),
            ) && h@ == host@),
            is_valid_host(host@) && !old(self).state().registry.hosts.dom().contains(host@)
                ==> final(self).state() == old(self).state() && (r matches Err(
                Error::HostNotFound(h),
            ) && h@ == host@),
            is_valid_host(host@) && old(self).state().registry.hosts.dom().contains(host@) ==> r is Ok,
            final(self).state().well_formed(),
    {
        proof {
            use_type_invariant(&*self);
        }
        validate_host(host)?;
        if !self.registry.hosts.contains_key(host) {
            return Err(Error::HostNotFound(host.to_owned()));
        }
        let (mut registry, mut secrets) = self.take_parts();
        let ghost before = StoreView { registry: registry@, secrets: secrets@ };
        registry.unregister(host);
        let _ = secrets.remove(host);
        proof {
            crate::hosts::law_logout_keeps_well_formed(before.registry, host@);
            assert(secrets@.dom() =~= registry@.hosts.dom());
        }
        *self = MemoryStore { registry, secrets };
        Ok(())
    }

    fn default_host(&self) -> (r: Result<Option<String>, Error>)
        ensures
            r is Ok,
            self.state().well_formed(),
    {
        proof {
            use_type_invariant(self);
        }
        let d = match &self.registry.default {
            Some(h) => Some(h.clone()),
            None => None,
        };
        Ok(d)
    }

    fn set_default_host(&mut self, host: &str) -> (r: Result<(), Error>)
        ensures
            !is_valid_host(host@) ==> final(self).state() == old(self).state() && (r matches Err(
                Error::InvalidHost(h),
            ) && h@ == host@),
            is_valid_host(host@) && !old(self).state().registry.hosts.dom().contains(host@)
                ==> final(self).state() == old(self).state() && (r matches Err(
                Error::HostNotFound(h),
            ) && h@ == host@),
            is_valid_host(host@) && old(self).state().registry.hosts.dom().contains(host@) ==> r is Ok,
            final(self).state().well_formed(),
    {
        proof {
            use_type_invariant(&*self);
        }
        validate_host(host)?;
        if !self.registry.hosts.contains_key(host) {
            return Err(Error::HostNotFound(host.to_owned()));
        }
        let (mut registry, secrets) = self.take_parts();
        let _ = registry.make_default(host);
        *self = MemoryStore { registry, secrets };
        Ok(())
    }
}

} // verus!
