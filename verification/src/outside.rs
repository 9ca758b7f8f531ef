//! Declarations of the outside types that values of this crate carry.

use vstd::prelude::*;

use keyring::Entry as KeyringEntry;
use keyring::Error as KeyringError;
use toml::de::Error as TomlDeError;
use toml::ser::Error as TomlSerError;

verus! {

/// `keyring::Error`, the error of the OS keyring crate; carried through
/// as the source of [`Error::Keyring`].
#[verifier::external_type_specification]
#[verifier::external_body]
pub struct ExKeyringError(KeyringError);

/// `keyring::Entry`, a handle on one credential in the OS keyring.
#[verifier::external_type_specification]
#[verifier::external_body]
pub struct ExKeyringEntry(KeyringEntry);

/// `std::io::Error`, carried through as the source of [`Error::ConfigIo`].
#[verifier::external_type_specification]
#[verifier::external_body]
pub struct ExIoError(std::io::Error);

/// `toml::de::Error`, carried through as the source of
/// [`Error::ConfigParse`].
#[verifier::external_type_specification]
#[verifier::external_body]
pub struct ExTomlDeError(TomlDeError);

/// `toml::ser::Error`, carried through as the source of
/// [`Error::ConfigSerialize`].
#[verifier::external_type_specification]
#[verifier::external_body]
pub struct ExTomlSerError(TomlSerError);

/// `std::time::SystemTime`, one reading of the system clock.
#[verifier::external_type_specification]
#[verifier::external_body]
pub struct ExSystemTime(std::time::SystemTime);

} // verus!
