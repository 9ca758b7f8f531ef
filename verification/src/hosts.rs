//! The host registry: the contents of `hosts.toml` and the rules by which
//! logins, logouts and switches change it.
//!
//! A registry maps each host to its non-secret metadata (email, auth
//! method tag, creation time) and names the active default host. Hosts are
//! kept in lexicographic order, so listings are deterministic. Reading and
//! writing the file itself happens outside this crate; the rule for an
//! empty file and the decision whether a write is needed are here.

use vstd::prelude::*;

use crate::credential::AuthMethod;
use crate::error::Error;
use crate::paths::{platform_separator, tmp_sibling, tmp_sibling_path, Separator};
use crate::sorted_map::{
    entries_view, entry_view, is_sorted_listing, keys_increasing, least_key, least_key_opt,
    lemma_listing_insert, lemma_sorted_listing_unique, listing_map, SortedMap,
};
use crate::text::{
    chars_of, compare_str, has_char, has_substring, has_white_space, is_white_space, lemma_seq_lt_total,
    lemma_seq_lt_transitive, range_has_char, range_has_scheme_separator, range_has_white_space,
    seq_lt, trim, trim_bounds, Order,
};

verus! {

/// A point in time: whole seconds since the Unix epoch and the nanoseconds
/// past that second.
#[derive(Clone, Copy, PartialEq, Eq, Structural, Debug)]
pub struct Timestamp {
    pub secs: i64,
    pub nanos: u32,
}

/// `std::time::SystemTime::now`: the system clock's current reading.
/// Nothing is stated of it: it depends on the clock.
#[verifier::external_body]
fn system_now() -> (t: std::time::SystemTime) {
    std::time::SystemTime::now()
}

/// `SystemTime::duration_since(UNIX_EPOCH)` on `t`, as whole seconds and
/// sub-second nanoseconds: `Ok` with the time elapsed since the epoch or,
/// for a reading before the epoch, `Err` with the time until it
/// (`SystemTimeError::duration`). The sub-second part is
/// `Duration::subsec_nanos`, which is documented to stay below one
/// second. How far `t` lies from the epoch depends on the clock and is
/// not stated.
#[verifier::external_body]
fn offset_from_epoch(t: &std::time::SystemTime) -> (r: Result<(u64, u32), (u64, u32)>)
    ensures
        match r {
            Ok(d) => d.1 < 1_000_000_000,
            Err(d) => d.1 < 1_000_000_000,
        },
{
    match t.duration_since(std::time::UNIX_EPOCH) {
        Ok(d) => Ok((d.as_secs(), d.subsec_nanos())),
        Err(e) => Err((e.duration().as_secs(), e.duration().subsec_nanos())),
    }
}

/// `x` held to the range of `i64`.
pub open spec fn clamp_i64(x: int) -> int {
    if x < i64::MIN {
        i64::MIN as int
    } else if x > i64::MAX {
        i64::MAX as int
    } else {
        x
    }
}

/// The timestamp of a clock reading that lies `offset` away from the Unix
/// epoch, as seconds and nanoseconds: after it (`Ok`) or before it
/// (`Err`). Before the epoch the time counts back from the whole second
/// at or below it, so the nanoseconds stay within one second; seconds
/// beyond the range of `i64` are held to it.
pub fn timestamp_from_epoch_offset(offset: Result<(u64, u32), (u64, u32)>) -> (t: Timestamp)
    requires
        match offset {
            Ok(d) => d.1 < 1_000_000_000,
            Err(d) => d.1 < 1_000_000_000,
        },
    ensures
        t.nanos < 1_000_000_000,
        match offset {
            Ok(d) => t.secs == clamp_i64(d.0 as int) && t.nanos == d.1,
            Err(d) => if d.1 == 0 {
                t.secs == clamp_i64(-(d.0 as int)) && t.nanos == 0
            } else {
                t.secs == clamp_i64(-(d.0 as int) - 1) && t.nanos == 1_000_000_000 - d.1
            },
        },
{
    let max: u64 = 9_223_372_036_854_775_807;
    match offset {
        Ok((s, n)) => {
            let secs: i64 = if s <= max {
                s as i64
            } else {
                i64::MAX
            };
            Timestamp { secs, nanos: n }
        },
        Err((s, n)) => {
            let back: i64 = if s <= max {
                -(s as i64)
            } else {
                i64::MIN
            };
            if n == 0 {
                Timestamp { secs: back, nanos: 0 }
            } else {
                let secs: i64 = if back == i64::MIN {
                    i64::MIN
                } else {
                    back - 1
                };
                Timestamp { secs, nanos: 1_000_000_000 - n }
            }
        },
    }
}

/// The current time by the system clock.
pub(crate) fn current_time() -> (t: Timestamp)
    ensures
        t.nanos < 1_000_000_000,
{
    let now = system_now();
    timestamp_from_epoch_offset(offset_from_epoch(&now))
}

/// One row of `hosts.toml`.
#[derive(Clone, PartialEq, Eq, Debug)]
pub struct HostEntry {
    /// The user's Atlassian account email.
    pub email: String,
    /// What kind of credential is stored for this host.
    pub auth_method: AuthMethod,
    /// When the user first logged into this host.
    pub created_at: Timestamp,
}

/// A registry row as plain values.
pub struct HostEntryView {
    pub email: Seq<char>,
    pub auth_method: AuthMethod,
    pub created_at: Timestamp,
}

impl View for HostEntry {
    type V = HostEntryView;

    open spec fn view(&self) -> HostEntryView {
        HostEntryView { email: self.email@, auth_method: self.auth_method, created_at: self.created_at }
    }
}

impl HostEntry {
    /// A copy of this row.
    pub fn duplicate(&self) -> (r: Self)
        ensures
            r@ == self@,
    {
        HostEntry { email: self.email.clone(), auth_method: self.auth_method, created_at: self.created_at }
    }
}

/// The characters of an optional string.
pub open spec fn opt_view(o: Option<String>) -> Option<Seq<char>> {
    match o {
        Some(s) => Some(s@),
        None => None,
    }
}

/// The full contents of `hosts.toml`.
#[derive(Debug)]
pub struct HostsFile {
    /// The active host: what commands default to when no host is given.
    pub default: Option<String>,
    /// Map from host string to its non-secret metadata, in host order.
    pub hosts: SortedMap<HostEntry>,
}

/// The registry as plain values.
pub struct HostsFileView {
    pub default: Option<Seq<char>>,
    pub hosts: Map<Seq<char>, HostEntryView>,
}

impl View for HostsFile {
    type V = HostsFileView;

    open spec fn view(&self) -> HostsFileView {
        HostsFileView { default: opt_view(self.default), hosts: self.hosts@ }
    }
}

impl HostsFileView {
    /// The registry after `host` logged in with `email` at time `now`: the
    /// row is written (keeping its creation time if it existed), and the
    /// host becomes the default if there was none.
    pub open spec fn registered(self, host: Seq<char>, email: Seq<char>, now: Timestamp) -> Self {
        let created_at = if self.hosts.dom().contains(host) {
            self.hosts[host].created_at
        } else {
            now
        };
        HostsFileView {
            default: if self.default is None {
                Some(host)
            } else {
                self.default
            },
            hosts: self.hosts.insert(
                host,
                HostEntryView { email, auth_method: AuthMethod::ApiToken, created_at },
            ),
        }
    }

    /// The registry after `host` logged out: the row is gone, and if it was
    /// the default, the least remaining host (if any) becomes the default.
    pub open spec fn unregistered(self, host: Seq<char>) -> Self {
        let hosts = self.hosts.remove(host);
        HostsFileView {
            default: if self.default == Some(host) {
                least_key_opt(hosts)
            } else {
                self.default
            },
            hosts,
        }
    }

    /// The registry with `host` as the default.
    pub open spec fn with_default(self, host: Seq<char>) -> Self {
        HostsFileView { default: Some(host), hosts: self.hosts }
    }

    /// The registry's default names a registered host, and there is a
    /// default exactly when some host is registered.
    pub open spec fn well_formed(self) -> bool {
        &&& self.hosts.dom().finite()
        &&& (self.default is None <==> self.hosts.dom().is_empty())
        &&& (self.default matches Some(d) ==> self.hosts.dom().contains(d))
    }
}

impl HostsFile {
    /// An empty registry with no default.
    pub fn new() -> (r: Self)
        ensures
            r@.default is None,
            r@.hosts == Map::<Seq<char>, HostEntryView>::empty(),
            r@.well_formed(),
    {
        HostsFile { default: None, hosts: SortedMap::new() }
    }

    /// Records that `host` logged in with `email` at time `now`.
    pub fn register(&mut self, host: &str, email: &str, now: Timestamp)
        ensures
            final(self)@ == old(self)@.registered(host@, email@, now),
    {
        let created_at = match self.hosts.get(host) {
            Some(e) => e.created_at,
            None => now,
        };
        let entry = HostEntry { email: email.to_owned(), auth_method: AuthMethod::ApiToken, created_at };
        self.hosts.insert(host.to_owned(), entry);
        if self.default.is_none() {
            self.default = Some(host.to_owned());
        }
        assert(self@.hosts == old(self)@.registered(host@, email@, now).hosts);
    }

    /// Records that `host` logged in with `email` now, by the system clock.
    pub fn register_now(&mut self, host: &str, email: &str)
        ensures
            exists|t: Timestamp|
                #![trigger old(self)@.registered(host@, email@, t)]
                t.nanos < 1_000_000_000 && final(self)@ == old(self)@.registered(
                    host@,
                    email@,
                    t,
                ),
    {
        let now = current_time();
        self.register(host, email, now);
    }

    /// Records that `host` logged out.
    pub fn unregister(&mut self, host: &str)
        ensures
            final(self)@ == old(self)@.unregistered(host@),
    {
        let _ = self.hosts.remove(host);
        let is_default = match &self.default {
            Some(d) => compare_str(d.as_str(), host) == Order::Equal,
            None => false,
        };
        if is_default {
            self.default = match self.hosts.first_key() {
                Some(k) => Some(k.clone()),
                None => None,
            };
        }
    }

    /// Makes `host` the default; fails with `HostNotFound` when it is not
    /// registered, leaving the registry unchanged.
    pub fn make_default(&mut self, host: &str) -> (r: Result<(), Error>)
        ensures
            old(self)@.hosts.dom().contains(host@) ==> r is Ok && final(self)@ == old(self)@.with_default(
                host@,
            ),
            !old(self)@.hosts.dom().contains(host@) ==> final(self)@ == old(self)@ && (r matches Err(
                Error::HostNotFound(h),
            ) && h@ == host@),
    {
        if !self.hosts.contains_key(host) {
            return Err(Error::HostNotFound(host.to_owned()));
        }
        self.default = Some(host.to_owned());
        Ok(())
    }

    /// The registry's rows in increasing host order, copied out.
    pub fn entries(&self) -> (r: Vec<(String, HostEntry)>)
        ensures
            is_sorted_listing(entries_view(r@), self@.hosts),
    {
        let src = self.hosts.entries();
        let ghost l = entries_view(src@);
        let mut out: Vec<(String, HostEntry)> = Vec::new();
        let n = src.len();
        let mut i: usize = 0;
        while i < n
            invariant
                i <= n == src@.len(),
                l == entries_view(src@),
                entries_view(out@) == l.take(i as int),
            decreases n - i,
        {
            let k = src[i].0.clone();
            let e = src[i].1.duplicate();
            assert(entry_view((k, e)) == l[i as int]);
            let ghost before = out@;
            assert(entries_view(before).len() == before.len());
            assert(before.len() == i);
            out.push((k, e));
            assert(out@ == before.push((k, e)));
            assert forall|j: int| 0 <= j < i + 1 implies #[trigger] entries_view(out@)[j] == l.take(
                i + 1,
            )[j] by {
                if j < i {
                    assert(entries_view(before)[j] == l.take(i as int)[j]);
                    assert(out@[j] == before[j]);
                }
            }
            assert(entries_view(out@) =~= l.take(i + 1));
            i = i + 1;
        }
        assert(l.take(n as int) =~= l);
        out
    }

    /// A copy of the registry.
    pub fn duplicate(&self) -> (r: Self)
        ensures
            r@ == self@,
    {
        let src = self.hosts.entries();
        let ghost l = entries_view(src@);
        let mut hosts: SortedMap<HostEntry> = SortedMap::new();
        let n = src.len();
        let mut i: usize = 0;
        while i < n
            invariant
                i <= n == src@.len(),
                l == entries_view(src@),
                keys_increasing(l),
                hosts@ == listing_map(l.take(i as int)),
            decreases n - i,
        {
            let k = src[i].0.clone();
            let e = src[i].1.duplicate();
            proof {
                assert(keys_increasing(l.take(i as int)));
                lemma_listing_insert(l.take(i as int), i as int, l[i as int].0, l[i as int].1);
                assert(l.take(i as int).insert(i as int, (l[i as int].0, l[i as int].1)) =~= l.take(
                    i + 1,
                ));
            }
            hosts.insert(k, e);
            i = i + 1;
        }
        assert(l.take(n as int) =~= l);
        let default = match &self.default {
            Some(d) => Some(d.clone()),
            None => None,
        };
        HostsFile { default, hosts }
    }

    /// Whether the two registries hold the same contents.
    pub fn same_as(&self, other: &HostsFile) -> (r: bool)
        ensures
            r == (self@ == other@),
    {
        let same_default = match &self.default {
            Some(a) => match &other.default {
                Some(b) => compare_str(a.as_str(), b.as_str()) == Order::Equal,
                None => false,
            },
            None => other.default.is_none(),
        };
        let a = self.hosts.entries();
        let b = other.hosts.entries();
        let ghost la = entries_view(a@);
        let ghost lb = entries_view(b@);
        proof {
            if self@.hosts == other@.hosts {
                lemma_sorted_listing_unique(la, lb);
            }
        }
        if !same_default {
            assert(self@.default != other@.default);
            return false;
        }
        assert(self@.default == other@.default);
        if a.len() != b.len() {
            assert(la.len() != lb.len());
            return false;
        }
        let n = a.len();
        let mut i: usize = 0;
        while i < n
            invariant
                i <= n == a@.len() == b@.len(),
                la == entries_view(a@),
                lb == entries_view(b@),
                forall|j: int| 0 <= j < i ==> #[trigger] la[j] == lb[j],
                self@.hosts == other@.hosts ==> la == lb,
            decreases n - i,
        {
            let x = &a[i];
            let y = &b[i];
            assert(la[i as int] == entry_view(a@[i as int]));
            assert(lb[i as int] == entry_view(b@[i as int]));
            if !(x.0 == y.0 && x.1.email == y.1.email && x.1.auth_method == y.1.auth_method
                && x.1.created_at == y.1.created_at) {
                assert(la[i as int] != lb[i as int]);
                assert(la != lb);
                return false;
            }
            assert(x.1@ == y.1@);
            assert(la[i as int] == lb[i as int]);
            i = i + 1;
        }
        assert(la =~= lb);
        assert(self@.hosts == other@.hosts);
        true
    }
}

/// Every finite, non-empty map has a least key: it is in the map and
/// precedes every other key.
pub proof fn lemma_least_key_exists<W>(m: Map<Seq<char>, W>)
    requires
        m.dom().finite(),
        !m.dom().is_empty(),
    ensures
        m.dom().contains(least_key(m)),
        forall|q: Seq<char>| #[trigger] m.dom().contains(q) && q != least_key(m) ==> seq_lt(least_key(m), q),
    decreases m.dom().len(),
{
    let k = m.dom().choose();
    let rest = m.remove(k);
    assert(rest.dom() =~= m.dom().remove(k));
    let w: Seq<char> = if rest.dom().is_empty() {
        k
    } else {
        lemma_least_key_exists(rest);
        let k2 = least_key(rest);
        lemma_seq_lt_total(k, k2);
        if seq_lt(k, k2) {
            assert forall|q: Seq<char>| #[trigger] m.dom().contains(q) && q != k implies seq_lt(k, q) by {
                if q != k2 {
                    assert(rest.dom().contains(q));
                    lemma_seq_lt_transitive(k, k2, q);
                }
            }
            k
        } else {
            assert forall|q: Seq<char>| #[trigger] m.dom().contains(q) && q != k2 implies seq_lt(k2, q) by {
                if q != k {
                    assert(rest.dom().contains(q));
                }
            }
            k2
        }
    };
    if rest.dom().is_empty() {
        assert forall|q: Seq<char>| #[trigger] m.dom().contains(q) && q != k implies seq_lt(k, q) by {
            assert(rest.dom().contains(q));
        }
    }
    assert(m.dom().contains(w) && forall|q: Seq<char>| #[trigger]
        m.dom().contains(q) && q != w ==> seq_lt(w, q));
}

/// Logging in keeps the registry well formed: the default stays a
/// registered host, and there is one exactly when a host is registered.
pub proof fn law_login_keeps_well_formed(v: HostsFileView, host: Seq<char>, email: Seq<char>, now: Timestamp)
    requires
        v.well_formed(),
    ensures
        v.registered(host, email, now).well_formed(),
{
    let r = v.registered(host, email, now);
    assert(r.hosts.dom().contains(host));
}

/// Logging out keeps the registry well formed: if the default host left,
/// the least remaining host (or none) takes its place.
pub proof fn law_logout_keeps_well_formed(v: HostsFileView, host: Seq<char>)
    requires
        v.well_formed(),
    ensures
        v.unregistered(host).well_formed(),
{
    let r = v.unregistered(host);
    if v.default == Some(host) && !r.hosts.dom().is_empty() {
        lemma_least_key_exists(r.hosts);
    }
    if let Some(d) = v.default {
        if d != host {
            assert(r.hosts.dom().contains(d));
        }
    }
}

/// Switching to a registered host keeps the registry well formed.
pub proof fn law_switch_keeps_well_formed(v: HostsFileView, host: Seq<char>)
    requires
        v.well_formed(),
        v.hosts.dom().contains(host),
    ensures
        v.with_default(host).well_formed(),
{
}

/// The first login becomes the default; later logins leave the default
/// where it is.
pub proof fn law_login_default(v: HostsFileView, host: Seq<char>, email: Seq<char>, now: Timestamp)
    ensures
        v.default is None ==> v.registered(host, email, now).default == Some(host),
        v.default is Some ==> v.registered(host, email, now).default == v.default,
        v.registered(host, email, now).hosts[host].email == email,
{
}

/// A first login records its row with the email given and the time of
/// that login, and leaves every other row as it was.
pub proof fn law_first_login_records_time(
    v: HostsFileView,
    host: Seq<char>,
    email: Seq<char>,
    now: Timestamp,
    other: Seq<char>,
)
    requires
        !v.hosts.dom().contains(host),
    ensures
        v.registered(host, email, now).hosts[host].created_at == now,
        v.registered(host, email, now).hosts[host].email == email,
        other != host ==> v.registered(host, email, now).hosts.dom().contains(other)
            == v.hosts.dom().contains(other),
        other != host && v.hosts.dom().contains(other) ==> v.registered(host, email, now).hosts[other]
            == v.hosts[other],
{
}

/// Logging in again keeps the time of the first login.
pub proof fn law_relogin_keeps_created_at(
    v: HostsFileView,
    host: Seq<char>,
    e1: Seq<char>,
    t1: Timestamp,
    e2: Seq<char>,
    t2: Timestamp,
)
    ensures
        v.registered(host, e1, t1).registered(host, e2, t2).hosts[host].created_at == v.registered(
            host,
            e1,
            t1,
        ).hosts[host].created_at,
        v.registered(host, e1, t1).registered(host, e2, t2).hosts[host].email == e2,
{
}

/// Switching to the host that already is the default changes nothing, so
/// nothing needs to be written back.
pub proof fn law_switch_to_default_changes_nothing(v: HostsFileView, host: Seq<char>)
    requires
        v.default == Some(host),
    ensures
        v.with_default(host) == v,
{
}

/// Logging out of a host that was just logged into for the first time
/// restores the registry as it was before.
pub proof fn law_logout_undoes_login(v: HostsFileView, host: Seq<char>, email: Seq<char>, now: Timestamp)
    requires
        v.well_formed(),
        !v.hosts.dom().contains(host),
    ensures
        v.registered(host, email, now).unregistered(host) == v,
{
    let r = v.registered(host, email, now);
    let u = r.unregistered(host);
    assert(u.hosts =~= v.hosts);
    if v.default is None {
        assert(v.hosts.dom() =~= Set::<Seq<char>>::empty());
        assert(u.hosts.dom().is_empty());
    } else {
        assert(v.default != Some(host));
    }
}

impl Default for HostsFile {
    fn default() -> (r: Self)
        ensures
            r@.default is None,
            r@.hosts == Map::<Seq<char>, HostEntryView>::empty(),
    {
        HostsFile::new()
    }
}

/// Whether `host` is acceptable as a host name: it is non-empty, holds no
/// white space, no `://` and no `/`, and neither starts nor ends with `.`.
pub open spec fn is_valid_host(host: Seq<char>) -> bool {
    &&& host.len() > 0
    &&& !has_white_space(host)
    &&& !has_substring(host, seq![':', '/', '/'])
    &&& host[0] != '.'
    &&& host.last() != '.'
    &&& !has_char(host, '/')
}

/// A host passes validation exactly when it is non-empty, none of its
/// characters is white space or `/`, it holds no `://`, and it neither
/// starts nor ends with `.`.
pub proof fn law_valid_host_characters(host: Seq<char>)
    ensures
        is_valid_host(host) <==> {
            &&& host.len() > 0
            &&& forall|i: int| 0 <= i < host.len() ==> !is_white_space(#[trigger] host[i])
            &&& forall|i: int| 0 <= i < host.len() ==> #[trigger] host[i] != '/'
            &&& forall|i: int|
                0 <= i && i + 3 <= host.len() ==> !(#[trigger] host[i] == ':' && host[i + 1] == '/'
                    && host[i + 2] == '/')
            &&& host[0] != '.'
            &&& host[host.len() - 1] != '.'
        },
{
    let sep = seq![':', '/', '/'];
    if has_substring(host, sep) {
        let i = choose|i: int|
            0 <= i && i + sep.len() <= host.len() && #[trigger] host.subrange(i, i + sep.len()) == sep;
        assert(host.subrange(i, i + 3)[0] == host[i]);
        assert(host.subrange(i, i + 3)[1] == host[i + 1]);
        assert(host.subrange(i, i + 3)[2] == host[i + 2]);
    }
    if forall|i: int|
        0 <= i && i + 3 <= host.len() ==> !(#[trigger] host[i] == ':' && host[i + 1] == '/' && host[
            i + 2] == '/') {
        assert forall|i: int| 0 <= i && i + sep.len() <= host.len() implies #[trigger] host.subrange(
            i,
            i + sep.len(),
        ) != sep by {
            if host.subrange(i, i + 3) == sep {
                assert(host.subrange(i, i + 3)[0] == host[i]);
                assert(host.subrange(i, i + 3)[1] == host[i + 1]);
                assert(host.subrange(i, i + 3)[2] == host[i + 2]);
            }
        }
    }
}

/// Validates a host string before it reaches the filesystem or keyring.
pub fn validate_host(host: &str) -> (r: Result<(), Error>)
    ensures
        r is Ok <==> is_valid_host(host@),
        !is_valid_host(host@) ==> (r matches Err(Error::InvalidHost(h)) && h@ == host@),
{
    let cs = chars_of(host);
    let n = cs.len();
    assert(cs@.subrange(0, n as int) =~= cs@);
    let bad = n == 0 || range_has_white_space(&cs, 0, n) || range_has_scheme_separator(&cs, 0, n)
        || cs[0] == '.' || cs[n - 1] == '.' || range_has_char(&cs, 0, n, '/');
    if bad {
        return Err(Error::InvalidHost(host.to_owned()));
    }
    Ok(())
}

/// Whether a file's text is empty once white space is trimmed; such a file
/// reads as an empty registry.
pub fn is_blank(text: &str) -> (r: bool)
    ensures
        r == (trim(text@).len() == 0),
{
    let cs = chars_of(text);
    let (lo, hi) = trim_bounds(&cs);
    lo == hi
}

/// Filesystem-backed view of the host registry: the location of
/// `hosts.toml`. Reading and writing it happen outside this crate.
#[derive(Clone, Debug)]
pub struct Hosts {
    path: String,
    separator: Separator,
}

impl Hosts {
    /// A registry rooted at `path`. Does not touch the filesystem.
    pub fn open(path: String) -> (r: Self)
        ensures
            r.spec_path() == path@,
            r.spec_separator() == '/' || r.spec_separator() == '\\',
    {
        Hosts { path, separator: platform_separator() }
    }

    /// The location of `hosts.toml`.
    pub fn path(&self) -> (r: &str)
        ensures
            r@ == self.spec_path(),
    {
        self.path.as_str()
    }

    /// The temporary file that an atomic write of the registry goes
    /// through, beside it.
    pub fn tmp_path(&self) -> (r: String)
        ensures
            r@ == tmp_sibling_path(self.spec_path(), self.spec_separator()),
    {
        tmp_sibling(self.path.as_str(), self.separator)
    }

    /// The location of `hosts.toml`, as characters.
    pub closed spec fn spec_path(&self) -> Seq<char> {
        self.path@
    }

    /// The platform's main path separator.
    pub closed spec fn spec_separator(&self) -> char {
        self.separator.spec_char()
    }
}

/// Whether writing the registry back is needed after an update: exactly
/// when its contents changed.
pub fn needs_write(before: &HostsFile, after: &HostsFile) -> (r: bool)
    ensures
        r == (before@ != after@),
{
    !before.same_as(after)
}

/// Whether an update of the registry under the file lock, which turned
/// `before` into `after` and ended in `outcome`, is written back: only
/// when it succeeded and changed the registry.
pub fn should_write<T>(before: &HostsFile, after: &HostsFile, outcome: &Result<T, Error>) -> (r: bool)
    ensures
        r == (outcome is Ok && before@ != after@),
{
    match outcome {
        Ok(_) => needs_write(before, after),
        Err(_) => false,
    }
}

} // verus!
