//! The keyring side of the production store: secrets live in the OS
//! keyring under the service `"confluence-cli"` and the host as account.
//!
//! Keyring failures are mapped here into the crate's [`Error`]. The
//! metadata side (`hosts.toml`) is read and written outside this crate;
//! each step below takes the registry it needs as an argument.

use vstd::prelude::*;

use keyring::Entry;

use crate::credential::Credential;
use crate::error::Error;
use crate::hosts::{is_valid_host, validate_host, HostsFile};
use crate::secret::SecretString;

verus! {

/// Service name of every keyring entry. Matches the binary name.
pub const SERVICE: &'static str = "confluence-cli";

/// A keyring failure, sorted by the variant of `keyring::Error`.
pub enum KeyringFailure {
    /// `NoEntry`: the keyring has no credential for the entry.
    NoEntry,
    /// `PlatformFailure`: the platform's secure storage failed. Holds the
    /// platform error's rendering, a diagnostic and never a secret.
    PlatformFailure(String),
    /// `NoStorageAccess`: the secure storage could not be accessed (for
    /// example, it is locked). Holds the platform error's rendering.
    NoStorageAccess(String),
    /// Any other variant, kept whole.
    Other(keyring::Error),
}

/// The failure that a `keyring::Error` is sorted into by its variant.
pub uninterp spec fn failure_of(e: keyring::Error) -> KeyringFailure;

/// Sorts a `keyring::Error` by its variant: `NoEntry`, `PlatformFailure`
/// and `NoStorageAccess` each to the failure of the same name, the
/// platform error they carry rendered with `to_string`; any other
/// variant moved into `Other` whole. The result depends on the error
/// alone and is named [`failure_of`]; which variant an opaque
/// `keyring::Error` has is not stated.
#[verifier::external_body]
fn failure_kind(e: keyring::Error) -> (r: KeyringFailure)
    ensures
        r == failure_of(e),
{
    match e {
        keyring::Error::NoEntry => KeyringFailure::NoEntry,
        keyring::Error::PlatformFailure(inner) => KeyringFailure::PlatformFailure(inner.to_string()),
        keyring::Error::NoStorageAccess(inner) => KeyringFailure::NoStorageAccess(inner.to_string()),
        other => KeyringFailure::Other(other),
    }
}

/// `keyring::Entry::new(service, account)`. Whether it succeeds depends on
/// the platform's credential store; nothing is promised of the result.
/// Every entry this crate opens lies under the service [`SERVICE`], so
/// callers must pass it.
#[verifier::external_body]
fn entry_for(service: &str, account: &str) -> (r: Result<Entry, keyring::Error>)
    requires
        service@ == SERVICE@,
{
    Entry::new(service, account)
}

/// `keyring::Entry::get_password`. What it returns depends on the OS
/// keyring's contents; nothing is promised of the result.
#[verifier::external_body]
fn entry_password(e: &Entry) -> (r: Result<String, keyring::Error>) {
    e.get_password()
}

/// `keyring::Entry::set_password`. Its outcome depends on the OS keyring;
/// nothing is promised of the result.
#[verifier::external_body]
fn entry_store_password(e: &Entry, password: &str) -> (r: Result<(), keyring::Error>) {
    e.set_password(password)
}

/// `keyring::Entry::delete_credential`. Its outcome depends on the OS
/// keyring; nothing is promised of the result.
#[verifier::external_body]
fn entry_delete(e: &Entry) -> (r: Result<(), keyring::Error>) {
    e.delete_credential()
}

/// Where the secret of a host lives in the keyring.
pub struct KeyringAddress {
    pub service: String,
    pub account: String,
}

/// The keyring address of `host`'s secret: the service [`SERVICE`] and the
/// host as account.
pub fn keyring_address(host: &str) -> (r: KeyringAddress)
    ensures
        r.service@ == SERVICE@,
        r.account@ == host@,
{
    KeyringAddress { service: SERVICE.to_owned(), account: host.to_owned() }
}

/// What a login writes into the keyring.
pub struct SecretWrite {
    pub address: KeyringAddress,
    pub secret: SecretString,
}

/// The keyring write that stores `cred` for `host`: the address of
/// `host`'s secret and the credential's token as the secret.
pub fn secret_write(host: &str, cred: Credential) -> (r: SecretWrite)
    ensures
        r.address.service@ == SERVICE@,
        r.address.account@ == host@,
        r.secret@ == cred@.token,
{
    let Credential::ApiToken { token, .. } = cred;
    SecretWrite { address: keyring_address(host), secret: token }
}

/// The error that a keyring failure `f` for `host` maps to.
pub open spec fn failure_error(host: Seq<char>, f: KeyringFailure, e: Error) -> bool {
    match f {
        KeyringFailure::NoEntry => e matches Error::HostNotFound(h) && h@ == host,
        KeyringFailure::PlatformFailure(m) => e matches Error::KeyringUnavailable { message }
            && message@ == m@,
        KeyringFailure::NoStorageAccess(m) => e matches Error::KeyringUnavailable { message }
            && message@ == m@,
        KeyringFailure::Other(s) => e matches Error::Keyring { host: h, source } && h@ == host
            && source == s,
    }
}

/// Whether `e` is an error that a keyring operation for `host` can end in:
/// the host has no entry, the keyring is unavailable, or the keyring
/// failed for that host.
pub open spec fn is_keyring_error(host: Seq<char>, e: Error) -> bool {
    ||| e matches Error::HostNotFound(h) && h@ == host
    ||| e is KeyringUnavailable
    ||| e matches Error::Keyring { host: h, .. } && h@ == host
}

/// Maps a keyring failure for `host` into the crate's error: a missing
/// entry is `HostNotFound`, a failing or inaccessible platform store is
/// `KeyringUnavailable` with its diagnostic, anything else is `Keyring`
/// for that host.
pub fn classify_failure(host: &str, f: KeyringFailure) -> (r: Error)
    ensures
        failure_error(host@, f, r),
        is_keyring_error(host@, r),
{
    match f {
        KeyringFailure::NoEntry => Error::HostNotFound(host.to_owned()),
        KeyringFailure::PlatformFailure(message) => Error::KeyringUnavailable { message },
        KeyringFailure::NoStorageAccess(message) => Error::KeyringUnavailable { message },
        KeyringFailure::Other(source) => Error::Keyring { host: host.to_owned(), source },
    }
}

/// Maps a `keyring::Error` for `host` into the crate's error, by
/// [`classify_failure`] of its variant.
pub fn classify_keyring_error(host: &str, source: keyring::Error) -> (r: Error)
    ensures
        failure_error(host@, failure_of(source), r),
        is_keyring_error(host@, r),
{
    classify_failure(host, failure_kind(source))
}

/// A keyring result with its failure sorted by variant.
fn sorted<T>(r: Result<T, keyring::Error>) -> (s: Result<T, KeyringFailure>)
    ensures
        r matches Ok(v) ==> s == Ok::<T, KeyringFailure>(v),
        r matches Err(e) ==> s == Err::<T, KeyringFailure>(failure_of(e)),
{
    match r {
        Ok(v) => Ok(v),
        Err(e) => Err(failure_kind(e)),
    }
}

/// The outcome of a keyring operation for `host`: success as it came, a
/// failure classified.
pub fn keyring_outcome<T>(host: &str, r: Result<T, KeyringFailure>) -> (out: Result<T, Error>)
    ensures
        match r {
            Ok(v) => out == Ok::<T, Error>(v),
            Err(f) => out matches Err(e) && failure_error(host@, f, e),
        },
        out matches Err(e) ==> is_keyring_error(host@, e),
{
    match r {
        Ok(v) => Ok(v),
        Err(f) => Err(classify_failure(host, f)),
    }
}

/// The keyring entry at `address`, its creation failure classified for
/// the account.
fn keyring_entry(address: &KeyringAddress) -> (r: Result<Entry, Error>)
    requires
        address.service@ == SERVICE@,
    ensures
        r matches Err(e) ==> is_keyring_error(address.account@, e),
{
    keyring_outcome(address.account.as_str(), sorted(entry_for(address.service.as_str(), address.account.as_str())))
}

/// The credential that a keyring read for `host` gives, with `email` from
/// the registry: the password read is the token; a failure is classified.
pub fn credential_from_keyring(email: &str, host: &str, r: Result<String, KeyringFailure>) -> (out:
    Result<Credential, Error>)
    ensures
        match r {
            Ok(p) => out matches Ok(c) && c@.token == p@ && c@.email == email@,
            Err(f) => out matches Err(e) && failure_error(host@, f, e),
        },
        out matches Err(e) ==> is_keyring_error(host@, e),
{
    match r {
        Ok(password) => Ok(Credential::api_token(email, SecretString::new(password))),
        Err(f) => Err(classify_failure(host, f)),
    }
}

/// The outcome of deleting `host`'s secret from the keyring: a missing
/// entry counts as deleted, any other failure is classified.
pub fn delete_outcome(host: &str, r: Result<(), KeyringFailure>) -> (out: Result<(), Error>)
    ensures
        match r {
            Ok(()) => out is Ok,
            Err(KeyringFailure::NoEntry) => out is Ok,
            Err(f) => out matches Err(e) && failure_error(host@, f, e),
        },
        out matches Err(e) ==> is_keyring_error(host@, e),
{
    match r {
        Ok(()) => Ok(()),
        Err(KeyringFailure::NoEntry) => Ok(()),
        Err(f) => Err(classify_failure(host, f)),
    }
}

/// Reads the credential of `host`: the email from the registry `file`,
/// the secret from the OS keyring.
pub fn keyring_get(host: &str, file: &HostsFile) -> (r: Result<Credential, Error>)
    ensures
        !is_valid_host(host@) ==> (r matches Err(Error::InvalidHost(h)) && h@ == host@),
        is_valid_host(host@) && !file@.hosts.dom().contains(host@) ==> (r matches Err(
            Error::HostNotFound(h),
        ) && h@ == host@),
        is_valid_host(host@) ==> (r matches Err(e) ==> is_keyring_error(host@, e)),
        r matches Ok(c) ==> file@.hosts.dom().contains(host@) && c@.email == file@.hosts[host@].email,
{
    validate_host(host)?;
    let meta = match file.hosts.get(host) {
        Some(m) => m,
        None => {
            return Err(Error::HostNotFound(host.to_owned()));
        },
    };
    let address = keyring_address(host);
    let entry = keyring_entry(&address)?;
    credential_from_keyring(meta.email.as_str(), host, sorted(entry_password(&entry)))
}

/// Writes the secret of `cred` for `host` into the OS keyring. This comes
/// first when logging in, so that a failure leaves no metadata row
/// without a secret.
pub fn keyring_put(host: &str, cred: Credential) -> (r: Result<(), Error>)
    ensures
        !is_valid_host(host@) ==> (r matches Err(Error::InvalidHost(h)) && h@ == host@),
        is_valid_host(host@) ==> (r matches Err(e) ==> is_keyring_error(host@, e)),
{
    validate_host(host)?;
    let write = secret_write(host, cred);
    let entry = keyring_entry(&write.address)?;
    keyring_outcome(host, sorted(entry_store_password(&entry, write.secret.expose())))
}

/// Deletes the secret of `host` from the OS keyring, after checking that
/// the registry `file` has a row for it. A keyring without the entry is
/// fine: the registry row is the source of truth.
pub fn keyring_remove(host: &str, file: &HostsFile) -> (r: Result<(), Error>)
    ensures
        !is_valid_host(host@) ==> (r matches Err(Error::InvalidHost(h)) && h@ == host@),
        is_valid_host(host@) && !file@.hosts.dom().contains(host@) ==> (r matches Err(
            Error::HostNotFound(h),
        ) && h@ == host@),
        is_valid_host(host@) ==> (r matches Err(e) ==> is_keyring_error(host@, e)),
        r is Ok ==> is_valid_host(host@) && file@.hosts.dom().contains(host@),
{
    validate_host(host)?;
    if !file.hosts.contains_key(host) {
        return Err(Error::HostNotFound(host.to_owned()));
    }
    let address = keyring_address(host);
    let entry = keyring_entry(&address)?;
    delete_outcome(host, sorted(entry_delete(&entry)))
}

} // verus!
