//! The [`Credential`] enum (the in-memory secret) and the [`AuthMethod`]
//! tag (its on-disk shadow, the only part that is ever persisted).

use vstd::prelude::*;

use crate::secret::{redacted_secret, SecretString};

verus! {

/// On-disk tag for what kind of credential is associated with a host.
#[derive(Clone, Copy, PartialEq, Eq, Structural, Debug)]
#[non_exhaustive]
pub enum AuthMethod {
    /// Atlassian Cloud API token.
    ApiToken,
}

/// All credential shapes the crate knows about.
#[non_exhaustive]
pub enum Credential {
    /// Atlassian Cloud API token paired with the user's email.
    ApiToken {
        /// The user's Atlassian account email. Not a secret on its own.
        email: String,
        /// The API token. Wiped on drop, never rendered.
        token: SecretString,
    },
}

/// A credential as plain values: the email and the secret text.
pub struct CredentialView {
    pub email: Seq<char>,
    pub token: Seq<char>,
}

impl View for Credential {
    type V = CredentialView;

    open spec fn view(&self) -> CredentialView {
        match self {
            Credential::ApiToken { email, token } => CredentialView { email: email@, token: token@ },
        }
    }
}

/// `s` rendered as a Rust string literal, the way `Debug` renders a `str`
/// (quoted, with escapes).
pub uninterp spec fn debug_quoted(s: Seq<char>) -> Seq<char>;

/// `<str as Debug>::fmt` through `format!("{:?}", ..)`: the quoted and
/// escaped rendering of `s`. What the escapes are is not stated; the
/// result is named as a function of the characters of `s` alone.
#[verifier::external_body]
fn quote_debug(s: &str) -> (r: String)
    ensures
        r@ == debug_quoted(s@),
{
    format!("{:?}", s)
}

/// The diagnostic rendering of a credential with email `email`: the shape
/// of a derived `Debug`, with the token redacted.
pub open spec fn credential_rendering(email: Seq<char>) -> Seq<char> {
    "ApiToken { email: "@ + debug_quoted(email) + ", token: "@ + redacted_secret() + " }"@
}

impl Credential {
    /// An API-token credential for `email`.
    pub fn api_token(email: &str, token: SecretString) -> (r: Self)
        ensures
            r@.email == email@,
            r@.token == token@,
    {
        Credential::ApiToken { email: email.to_owned(), token }
    }

    /// The on-disk `auth_method` tag of this credential.
    pub fn method(&self) -> (r: AuthMethod)
        ensures
            match self {
                Credential::ApiToken { .. } => r == AuthMethod::ApiToken,
            },
    {
        match self {
            Credential::ApiToken { .. } => AuthMethod::ApiToken,
        }
    }

    /// The email address of the credential.
    pub fn email(&self) -> (r: &str)
        ensures
            r@ == self@.email,
    {
        match self {
            Credential::ApiToken { email, .. } => email.as_str(),
        }
    }

    /// The secret of the credential.
    pub fn token(&self) -> (r: &SecretString)
        ensures
            r@ == self@.token,
    {
        match self {
            Credential::ApiToken { token, .. } => token,
        }
    }

    /// The diagnostic rendering of the credential. It depends on the email
    /// alone: the token appears only as the redacted marker.
    pub fn debug_repr(&self) -> (r: String)
        ensures
            r@ == credential_rendering(self@.email),
    {
        match self {
            Credential::ApiToken { email, token } => {
                let mut r = String::from_str("ApiToken { email: ");
                let q = quote_debug(email.as_str());
                r.append(q.as_str());
                r.append(", token: ");
                let t = token.debug_repr();
                r.append(t.as_str());
                r.append(" }");
                r
            },
        }
    }
}

/// A credential's rendering never depends on its secret: two credentials
/// with the same email render alike, whatever their tokens.
pub proof fn lemma_rendering_ignores_token(a: CredentialView, b: CredentialView)
    requires
        a.email == b.email,
    ensures
        credential_rendering(a.email) == credential_rendering(b.email),
{
}

} // verus!
