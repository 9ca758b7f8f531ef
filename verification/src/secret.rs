//! Memory-safe wrapper for secret strings.
//!
//! [`SecretString`] holds its text in a [`zeroize::Zeroizing`] buffer, which
//! is wiped on drop. Its rendering for diagnostics is a fixed redacted
//! text, and it is not `Clone`: the only way to the text is
//! [`SecretString::expose`].

use vstd::prelude::*;

use zeroize::Zeroizing;

verus! {

/// A `zeroize::Zeroizing<String>` buffer, held in a private field. The
/// buffer is opaque; the text it holds is named by `buffer_text`.
#[verifier::external_body]
pub struct SecretBuffer {
    inner: Zeroizing<String>,
}

/// The text that a secret buffer holds.
pub uninterp spec fn buffer_text(b: SecretBuffer) -> Seq<char>;

/// `Zeroizing::new`: moves the string into the wrapper, which holds it
/// unchanged (`Zeroizing(value)` in the crate's source).
#[verifier::external_body]
fn buffer_new(s: String) -> (b: SecretBuffer)
    ensures
        buffer_text(b) == s@,
{
    SecretBuffer { inner: Zeroizing::new(s) }
}

/// `Deref` of `Zeroizing` followed by `String::as_str`: borrows the held
/// string (`&self.0` in the crate's source).
#[verifier::external_body]
fn buffer_as_str(b: &SecretBuffer) -> (r: &str)
    ensures
        r@ == buffer_text(*b),
{
    b.inner.as_str()
}

/// A string that is wiped from memory when dropped and never appears in
/// diagnostics.
pub struct SecretString(SecretBuffer);

impl View for SecretString {
    type V = Seq<char>;

    closed spec fn view(&self) -> Seq<char> {
        buffer_text(self.0)
    }
}

/// The rendering of any secret in diagnostics.
pub open spec fn redacted_secret() -> Seq<char> {
    "SecretString(<redacted>)"@
}

impl SecretString {
    /// Wraps the supplied string, taking ownership of it.
    pub fn new(s: String) -> (r: Self)
        ensures
            r@ == s@,
    {
        SecretString(buffer_new(s))
    }

    /// Borrows the secret text.
    pub fn expose(&self) -> (r: &str)
        ensures
            r@ == self@,
    {
        buffer_as_str(&self.0)
    }

    /// The diagnostic rendering of the secret: a fixed text that does not
    /// depend on the secret.
    pub fn debug_repr(&self) -> (r: String)
        ensures
            r@ == redacted_secret(),
    {
        String::from_str("SecretString(<redacted>)")
    }
}

} // verus!
