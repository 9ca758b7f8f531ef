//! The error type of the auth/storage layer and its messages.
//!
//! The variant payloads are log-safe: no secret, no raw token. Paths are
//! carried as strings.

use vstd::prelude::*;

verus! {

/// All errors produced by the auth/storage layer.
#[derive(Debug)]
#[non_exhaustive]
#[allow(inconsistent_fields)]
pub enum Error {
    /// The requested host is not registered in `hosts.toml`.
    HostNotFound(String),
    /// No `default` host is set and the caller did not specify one.
    NoActiveHost,
    /// The OS keyring backend reports that there is no usable keyring
    /// service.
    KeyringUnavailable {
        /// Best-effort diagnostic. Never contains secret material.
        message: String,
    },
    /// A keyring operation failed for a specific host.
    Keyring { host: String, source: keyring::Error },
    /// Read or write of an on-disk config file failed at the IO layer.
    ConfigIo { path: String, source: std::io::Error },
    /// A config file is present but does not parse as TOML of our schema.
    ConfigParse { path: String, source: Box<toml::de::Error> },
    /// Serializing the host registry back to TOML failed.
    ConfigSerialize(Box<toml::ser::Error>),
    /// The supplied host string failed validation.
    InvalidHost(String),
    /// No platform config directory could be determined.
    NoConfigDir,
    /// Reserved for the encrypted-file fallback store.
    EncryptedFile(String),
}

/// Result of the auth/storage layer.
pub type Result<T> = std::result::Result<T, Error>;

/// The message that describes `e` to a user.
pub open spec fn error_message(e: &Error) -> Seq<char> {
    match e {
        Error::HostNotFound(h) => "no credentials registered for host `"@ + h@ + "`"@,
        Error::NoActiveHost => "no active host; run `confluence auth login` or `confluence auth switch <host>`"@,
        Error::KeyringUnavailable { message } => "OS keyring unavailable: "@ + message@,
        Error::Keyring { host, .. } => "keyring operation failed for host `"@ + host@ + "`"@,
        Error::ConfigIo { path, .. } => "failed to access config file `"@ + path@ + "`"@,
        Error::ConfigParse { path, .. } => "failed to parse config file `"@ + path@ + "`"@,
        Error::ConfigSerialize(_) => "failed to serialize config file"@,
        Error::InvalidHost(h) => "invalid host `"@ + h@
            + "`: must be a non-empty hostname without scheme or path"@,
        Error::NoConfigDir => "could not determine a platform config directory for `confluence`"@,
        Error::EncryptedFile(m) => "encrypted-file store error: "@ + m@,
    }
}

/// `a`, `b` and `c` one after the other.
pub fn concat3(a: &str, b: &str, c: &str) -> (r: String)
    ensures
        r@ == a@ + b@ + c@,
{
    let mut r = String::from_str(a);
    r.append(b);
    r.append(c);
    r
}

impl Error {
    /// The message that describes this error to a user. It never holds a
    /// secret: no variant carries one.
    pub fn message(&self) -> (r: String)
        ensures
            r@ == error_message(self),
    {
        proof {
            reveal_strlit("");
            assert(""@ =~= Seq::<char>::empty());
        }
        match self {
            Error::HostNotFound(h) => concat3(
                "no credentials registered for host `",
                h.as_str(),
                "`",
            ),
            Error::NoActiveHost => String::from_str(
                "no active host; run `confluence auth login` or `confluence auth switch <host>`",
            ),
            Error::KeyringUnavailable { message } => concat3(
                "OS keyring unavailable: ",
                message.as_str(),
                "",
            ),
            Error::Keyring { host, .. } => concat3(
                "keyring operation failed for host `",
                host.as_str(),
                "`",
            ),
            Error::ConfigIo { path, .. } => concat3(
                "failed to access config file `",
                path.as_str(),
                "`",
            ),
            Error::ConfigParse { path, .. } => concat3(
                "failed to parse config file `",
                path.as_str(),
                "`",
            ),
            Error::ConfigSerialize(_) => String::from_str("failed to serialize config file"),
            Error::InvalidHost(h) => concat3(
                "invalid host `",
                h.as_str(),
                "`: must be a non-empty hostname without scheme or path",
            ),
            Error::NoConfigDir => String::from_str(
                "could not determine a platform config directory for `confluence`",
            ),
            Error::EncryptedFile(m) => concat3("encrypted-file store error: ", m.as_str(), ""),
        }
    }
}

} // verus!
