use confluence::hosts::HostsFile;
use confluence::keyring_store::{
    classify_failure, classify_keyring_error, credential_from_keyring, delete_outcome,
    keyring_address, keyring_get, keyring_outcome, keyring_put, keyring_remove, secret_write,
    KeyringFailure, SERVICE,
};
use confluence::{AuthStore, Credential, Error, MemoryStore, SecretString};

fn cred(email: &str, tok: &str) -> Credential {
    Credential::api_token(email, SecretString::new(tok.to_owned()))
}

#[test]
fn put_then_get_roundtrips() {
    let mut s = MemoryStore::new();
    s.put("h.example", "u@e.test", cred("u@e.test", "tok"))
        .unwrap();
    let got = s.get("h.example").unwrap();
    match got {
        Credential::ApiToken { email, token } => {
            assert_eq!(email, "u@e.test");
            assert_eq!(token.expose(), "tok");
        }
        _ => panic!("unexpected credential shape"),
    }
}

#[test]
fn first_put_becomes_default() {
    let mut s = MemoryStore::new();
    assert_eq!(s.default_host().unwrap(), None);
    s.put("h.example", "u@e.test", cred("u@e.test", "tok"))
        .unwrap();
    assert_eq!(s.default_host().unwrap().as_deref(), Some("h.example"));
}

#[test]
fn remove_unknown_is_error() {
    let mut s = MemoryStore::new();
    assert!(matches!(s.remove("h.example"), Err(Error::HostNotFound(_))));
}

#[test]
fn remove_default_picks_a_new_default() {
    let mut s = MemoryStore::new();
    s.put("a.example", "u@e.test", cred("u@e.test", "1"))
        .unwrap();
    s.put("b.example", "u@e.test", cred("u@e.test", "2"))
        .unwrap();
    s.set_default_host("b.example").unwrap();
    s.remove("b.example").unwrap();
    assert_eq!(s.default_host().unwrap().as_deref(), Some("a.example"));
}

#[test]
fn set_default_unknown_is_error() {
    let mut s = MemoryStore::new();
    assert!(matches!(
        s.set_default_host("nope.example"),
        Err(Error::HostNotFound(_))
    ));
}

#[test]
fn put_with_invalid_host_changes_nothing() {
    let mut s = MemoryStore::new();
    assert!(matches!(
        s.put("a b", "u@e.test", cred("u@e.test", "1")),
        Err(Error::InvalidHost(h)) if h == "a b"
    ));
    assert!(s.list_hosts().unwrap().is_empty());
    assert_eq!(s.default_host().unwrap(), None);
}

#[test]
fn put_then_remove_restores_empty_store() {
    let mut s = MemoryStore::new();
    s.put("h.example", "u@e.test", cred("u@e.test", "1")).unwrap();
    s.remove("h.example").unwrap();
    assert!(s.list_hosts().unwrap().is_empty());
    assert_eq!(s.default_host().unwrap(), None);
    assert!(matches!(s.get("h.example"), Err(Error::HostNotFound(_))));
}

#[test]
fn get_of_invalid_host_is_invalid_host() {
    let s = MemoryStore::new();
    assert!(matches!(s.get("https://x"), Err(Error::InvalidHost(_))));
}

#[test]
fn classify_no_entry_maps_to_host_not_found() {
    let mapped = classify_keyring_error("h.example", keyring::Error::NoEntry);
    assert!(matches!(mapped, Error::HostNotFound(h) if h == "h.example"));
}

#[test]
fn classify_platform_failure_maps_to_keyring_unavailable() {
    let inner: Box<dyn std::error::Error + Send + Sync> = "no DBus".into();
    let mapped = classify_keyring_error("h.example", keyring::Error::PlatformFailure(inner));
    assert!(matches!(mapped, Error::KeyringUnavailable { .. }));
}

#[test]
fn classify_no_storage_access_carries_the_diagnostic() {
    let inner: Box<dyn std::error::Error + Send + Sync> = "locked".into();
    let mapped = classify_keyring_error("h.example", keyring::Error::NoStorageAccess(inner));
    assert!(matches!(mapped, Error::KeyringUnavailable { message } if message == "locked"));
}

#[test]
fn classify_other_failure_keeps_the_host() {
    let mapped = classify_keyring_error(
        "h.example",
        keyring::Error::Invalid("user".to_owned(), "too long".to_owned()),
    );
    assert!(matches!(mapped, Error::Keyring { host, .. } if host == "h.example"));
}

#[test]
fn classify_failure_maps_each_kind() {
    assert!(matches!(
        classify_failure("h.example", KeyringFailure::NoEntry),
        Error::HostNotFound(h) if h == "h.example"
    ));
    assert!(matches!(
        classify_failure("h.example", KeyringFailure::PlatformFailure("no DBus".to_owned())),
        Error::KeyringUnavailable { message } if message == "no DBus"
    ));
    assert!(matches!(
        classify_failure("h.example", KeyringFailure::NoStorageAccess("locked".to_owned())),
        Error::KeyringUnavailable { message } if message == "locked"
    ));
    assert!(matches!(
        classify_failure("h.example", KeyringFailure::Other(keyring::Error::BadEncoding(vec![0xff]))),
        Error::Keyring { host, source: keyring::Error::BadEncoding(_) } if host == "h.example"
    ));
}

#[test]
fn keyring_address_is_service_and_host() {
    let a = keyring_address("h.example");
    assert_eq!(a.service, "confluence-cli");
    assert_eq!(a.account, "h.example");
}

#[test]
fn secret_write_carries_the_token_not_the_email() {
    let w = secret_write("h.example", cred("u@e.test", "tok"));
    assert_eq!(w.address.service, SERVICE);
    assert_eq!(w.address.account, "h.example");
    assert_eq!(w.secret.expose(), "tok");
}

#[test]
fn credential_from_keyring_takes_the_password_as_token() {
    let c = credential_from_keyring("u@e.test", "h.example", Ok("pw".to_owned())).unwrap();
    assert_eq!(c.email(), "u@e.test");
    assert_eq!(c.token().expose(), "pw");
    assert!(matches!(
        credential_from_keyring("u@e.test", "h.example", Err(KeyringFailure::NoEntry)),
        Err(Error::HostNotFound(h)) if h == "h.example"
    ));
    assert!(matches!(
        credential_from_keyring(
            "u@e.test",
            "h.example",
            Err(KeyringFailure::NoStorageAccess("locked".to_owned()))
        ),
        Err(Error::KeyringUnavailable { message }) if message == "locked"
    ));
}

#[test]
fn deleting_a_missing_entry_is_success() {
    assert!(delete_outcome("h.example", Ok(())).is_ok());
    assert!(delete_outcome("h.example", Err(KeyringFailure::NoEntry)).is_ok());
    assert!(matches!(
        delete_outcome("h.example", Err(KeyringFailure::PlatformFailure("no DBus".to_owned()))),
        Err(Error::KeyringUnavailable { message }) if message == "no DBus"
    ));
    assert!(matches!(
        delete_outcome(
            "h.example",
            Err(KeyringFailure::Other(keyring::Error::TooLong("user".to_owned(), 8)))
        ),
        Err(Error::Keyring { host, .. }) if host == "h.example"
    ));
}

#[test]
fn keyring_outcome_passes_success_and_classifies_failure() {
    assert_eq!(keyring_outcome::<u8>("h.example", Ok(7)).unwrap(), 7);
    assert!(matches!(
        keyring_outcome::<()>("h.example", Err(KeyringFailure::NoEntry)),
        Err(Error::HostNotFound(h)) if h == "h.example"
    ));
}

#[test]
fn remove_unknown_returns_host_not_found() {
    let file = HostsFile::new();
    assert!(matches!(
        keyring_remove("nope.example", &file),
        Err(Error::HostNotFound(_))
    ));
}

#[test]
fn set_default_unknown_returns_host_not_found() {
    let mut file = HostsFile::new();
    assert!(matches!(
        file.make_default("nope.example"),
        Err(Error::HostNotFound(_))
    ));
}

#[test]
fn keyring_get_of_unregistered_host_is_host_not_found() {
    let file = HostsFile::new();
    assert!(matches!(
        keyring_get("nope.example", &file),
        Err(Error::HostNotFound(h)) if h == "nope.example"
    ));
}

#[test]
fn keyring_steps_reject_invalid_hosts() {
    let file = HostsFile::new();
    assert!(matches!(keyring_get("a/b", &file), Err(Error::InvalidHost(_))));
    assert!(matches!(keyring_remove("a/b", &file), Err(Error::InvalidHost(_))));
    assert!(matches!(
        keyring_put("a/b", cred("u@e.test", "t")),
        Err(Error::InvalidHost(_))
    ));
}

#[test]
fn service_constant_matches_binary_name() {
    assert_eq!(SERVICE, "confluence-cli");
}
