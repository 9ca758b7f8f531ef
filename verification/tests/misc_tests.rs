use confluence::client;
use confluence::commands::{auth, dispatch, page, search, Command};
use confluence::context::Context;
use confluence::output::{effective_format, OutputFormat};
use confluence::{AuthMethod, Credential, Error, SecretString};

#[test]
fn debug_is_redacted() {
    let s = SecretString::new("super-secret".to_owned());
    let rendered = s.debug_repr();
    assert_eq!(rendered, "SecretString(<redacted>)");
    assert!(!rendered.contains("super-secret"));
}

#[test]
fn expose_returns_inner() {
    let s = SecretString::new("abc".to_owned());
    assert_eq!(s.expose(), "abc");
}

#[test]
fn credential_method_matches_variant() {
    let c = Credential::api_token("a@b.test", SecretString::new("x".to_owned()));
    assert_eq!(c.method(), AuthMethod::ApiToken);
    assert_eq!(c.email(), "a@b.test");
}

#[test]
fn credential_debug_does_not_leak_token() {
    let c = Credential::api_token("a@b.test", SecretString::new("topsecret".to_owned()));
    let rendered = c.debug_repr();
    assert!(!rendered.contains("topsecret"));
    assert!(rendered.contains("<redacted>"));
}

#[test]
fn credential_debug_has_the_derived_shape() {
    let c = Credential::api_token("a\"b", SecretString::new("t".to_owned()));
    assert_eq!(
        c.debug_repr(),
        "ApiToken { email: \"a\\\"b\", token: SecretString(<redacted>) }"
    );
}

#[test]
fn error_messages() {
    assert_eq!(
        Error::HostNotFound("h.example".to_owned()).message(),
        "no credentials registered for host `h.example`"
    );
    assert_eq!(
        Error::NoActiveHost.message(),
        "no active host; run `confluence auth login` or `confluence auth switch <host>`"
    );
    assert_eq!(
        Error::InvalidHost("a b".to_owned()).message(),
        "invalid host `a b`: must be a non-empty hostname without scheme or path"
    );
    assert_eq!(
        Error::KeyringUnavailable { message: "no DBus".to_owned() }.message(),
        "OS keyring unavailable: no DBus"
    );
    assert_eq!(
        Error::NoConfigDir.message(),
        "could not determine a platform config directory for `confluence`"
    );
    assert_eq!(
        Error::EncryptedFile("x".to_owned()).message(),
        "encrypted-file store error: x"
    );
    assert_eq!(
        client::Error::NotImplemented.message(),
        "confluence-api: not yet implemented"
    );
}

fn ctx() -> Context {
    Context::new(None, OutputFormat::Human, 0, false)
}

#[test]
fn context_keeps_the_flags() {
    let c = Context::new(Some("h.example".to_owned()), OutputFormat::Tsv, 2, true);
    assert_eq!(c.host.as_deref(), Some("h.example"));
    assert_eq!(c.output, OutputFormat::Tsv);
    assert_eq!(c.verbose, 2);
    assert!(c.no_color);
}

#[test]
fn json_flag_overrides_output() {
    assert_eq!(effective_format(true, OutputFormat::Tsv), OutputFormat::Json);
    assert_eq!(effective_format(false, OutputFormat::Tsv), OutputFormat::Tsv);
}

#[test]
fn commands_report_not_implemented() {
    let c = ctx();
    let r = dispatch(
        Command::Auth(auth::Args { command: auth::AuthCommand::Switch { host: "h".to_owned() } }),
        &c,
    );
    assert_eq!(
        r,
        Err("`auth switch` is not yet implemented (M0 skeleton; lands in M1)".to_owned())
    );
    let r = dispatch(
        Command::Page(page::Args {
            command: page::PageCommand::Delete { id: "1".to_owned(), yes: true },
        }),
        &c,
    );
    assert_eq!(
        r,
        Err("`page delete` is not yet implemented (M0 skeleton; lands in M3)".to_owned())
    );
    let r = dispatch(
        Command::Search(search::Args { cql: "type=page".to_owned(), limit: 25 }),
        &c,
    );
    assert_eq!(
        r,
        Err("`search` is not yet implemented (M0 skeleton; lands in M2)".to_owned())
    );
}

#[test]
fn credential_rendering_ignores_the_token() {
    let a = Credential::api_token("a@b.test", SecretString::new("one".to_owned()));
    let b = Credential::api_token("a@b.test", SecretString::new("two".to_owned()));
    assert_eq!(a.debug_repr(), b.debug_repr());
    assert_eq!(a.token().expose(), "one");
}
