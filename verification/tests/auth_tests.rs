use confluence::{Auth, AuthMethod, Credential, Error, MemoryStore, SecretString};

fn fresh() -> Auth<MemoryStore> {
    Auth::with_store(MemoryStore::new())
}

#[test]
fn login_then_list_returns_one_entry() {
    let mut a = fresh();
    a.login("h.example", "u@e.test", SecretString::new("tok".to_owned()))
        .unwrap();
    let hosts = a.list().unwrap();
    assert_eq!(hosts.len(), 1);
    assert_eq!(hosts[0].0, "h.example");
    assert_eq!(hosts[0].1.email, "u@e.test");
    assert_eq!(hosts[0].1.auth_method, AuthMethod::ApiToken);
}

#[test]
fn first_login_becomes_default_then_switch_changes_it() {
    let mut a = fresh();
    a.login("a.example", "u@e.test", SecretString::new("1".to_owned()))
        .unwrap();
    a.login("b.example", "u@e.test", SecretString::new("2".to_owned()))
        .unwrap();
    let active = a.active().unwrap().unwrap();
    assert_eq!(active.0, "a.example");
    a.switch("b.example").unwrap();
    assert_eq!(a.active().unwrap().unwrap().0, "b.example");
}

#[test]
fn logout_removes_and_reassigns_default() {
    let mut a = fresh();
    a.login("a.example", "u@e.test", SecretString::new("1".to_owned()))
        .unwrap();
    a.login("b.example", "u@e.test", SecretString::new("2".to_owned()))
        .unwrap();
    a.logout("a.example").unwrap();
    let hosts = a.list().unwrap();
    assert_eq!(hosts.len(), 1);
    assert_eq!(hosts[0].0, "b.example");
    assert_eq!(a.active().unwrap().unwrap().0, "b.example");
}

#[test]
fn status_without_args_uses_default() {
    let mut a = fresh();
    a.login("h.example", "u@e.test", SecretString::new("tok".to_owned()))
        .unwrap();
    let s = a.status(None).unwrap();
    assert_eq!(s.host, "h.example");
    assert_eq!(s.email, "u@e.test");
    assert!(s.token_present);
    assert!(s.is_default);
}

#[test]
fn status_with_no_hosts_is_no_active_host() {
    let a = fresh();
    assert!(matches!(a.status(None), Err(Error::NoActiveHost)));
}

#[test]
fn status_for_unknown_host_is_host_not_found() {
    let mut a = fresh();
    a.login("h.example", "u@e.test", SecretString::new("tok".to_owned()))
        .unwrap();
    assert!(matches!(
        a.status(Some("nope.example")),
        Err(Error::HostNotFound(_))
    ));
}

#[test]
fn switch_to_unknown_host_is_host_not_found() {
    let mut a = fresh();
    a.login("h.example", "u@e.test", SecretString::new("tok".to_owned()))
        .unwrap();
    assert!(matches!(
        a.switch("nope.example"),
        Err(Error::HostNotFound(_))
    ));
}

#[test]
fn invalid_host_string_is_rejected_before_storage() {
    let mut a = fresh();
    assert!(matches!(
        a.login(
            "https://x.example",
            "u@e.test",
            SecretString::new("t".to_owned())
        ),
        Err(Error::InvalidHost(_))
    ));
}

#[test]
fn credential_round_trips_via_auth() {
    let mut a = fresh();
    a.login(
        "h.example",
        "u@e.test",
        SecretString::new("supertok".to_owned()),
    )
    .unwrap();
    let c = a.credential("h.example").unwrap();
    match c {
        Credential::ApiToken { token, .. } => {
            assert_eq!(token.expose(), "supertok");
        }
        _ => panic!("unexpected credential shape"),
    }
}

#[test]
fn status_of_non_default_host_is_not_default() {
    let mut a = fresh();
    a.login("a.example", "a@e.test", SecretString::new("1".to_owned()))
        .unwrap();
    a.login("b.example", "b@e.test", SecretString::new("2".to_owned()))
        .unwrap();
    let s = a.status(Some("b.example")).unwrap();
    assert_eq!(s.host, "b.example");
    assert_eq!(s.email, "b@e.test");
    assert!(!s.is_default);
    assert!(s.token_present);
}

#[test]
fn status_with_invalid_host_is_invalid_host() {
    let a = fresh();
    assert!(matches!(a.status(Some("x x")), Err(Error::InvalidHost(_))));
}

#[test]
fn list_is_in_host_order() {
    let mut a = fresh();
    for h in ["c.example", "a.example", "b.example"] {
        a.login(h, "u@e.test", SecretString::new("t".to_owned())).unwrap();
    }
    let names: Vec<String> = a.list().unwrap().into_iter().map(|(h, _)| h).collect();
    assert_eq!(names, vec!["a.example", "b.example", "c.example"]);
    // The first login stays the default.
    assert_eq!(a.active().unwrap().unwrap().0, "c.example");
}

#[test]
fn logout_of_default_picks_least_remaining_host() {
    let mut a = fresh();
    for h in ["c.example", "b.example", "d.example"] {
        a.login(h, "u@e.test", SecretString::new("t".to_owned())).unwrap();
    }
    a.logout("c.example").unwrap();
    assert_eq!(a.active().unwrap().unwrap().0, "b.example");
    a.logout("b.example").unwrap();
    assert_eq!(a.active().unwrap().unwrap().0, "d.example");
    a.logout("d.example").unwrap();
    assert!(a.active().unwrap().is_none());
}

#[test]
fn relogin_updates_email_and_keeps_created_at() {
    let mut a = fresh();
    a.login("h.example", "old@e.test", SecretString::new("1".to_owned()))
        .unwrap();
    let first = a.list().unwrap()[0].1.clone();
    a.login("h.example", "new@e.test", SecretString::new("2".to_owned()))
        .unwrap();
    let second = a.list().unwrap()[0].1.clone();
    assert_eq!(second.email, "new@e.test");
    assert_eq!(second.created_at, first.created_at);
    let c = a.credential("h.example").unwrap();
    assert_eq!(c.token().expose(), "2");
    assert_eq!(c.email(), "new@e.test");
}

#[test]
fn logout_unknown_host_is_host_not_found() {
    let mut a = fresh();
    assert!(matches!(a.logout("nope.example"), Err(Error::HostNotFound(_))));
}

#[test]
fn credential_for_unknown_host_is_host_not_found() {
    let a = fresh();
    assert!(matches!(a.credential("nope.example"), Err(Error::HostNotFound(_))));
}

#[test]
fn auth_debug_shows_nothing_of_the_store() {
    let a = fresh();
    assert_eq!(a.debug_repr(), "Auth { .. }");
}

#[test]
fn switching_twice_changes_nothing_more() {
    let mut a = fresh();
    a.login("a.example", "u@e.test", SecretString::new("1".to_owned())).unwrap();
    a.login("b.example", "u@e.test", SecretString::new("2".to_owned())).unwrap();
    a.switch("b.example").unwrap();
    let listed = a.list().unwrap().len();
    a.switch("b.example").unwrap();
    assert_eq!(a.list().unwrap().len(), listed);
    let (h, _) = a.active().unwrap().unwrap();
    assert_eq!(h, "b.example");
}
