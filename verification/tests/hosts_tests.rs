use confluence::hosts::{
    is_blank, needs_write, should_write, timestamp_from_epoch_offset, HostsFile, Timestamp,
};
use confluence::paths::{join, tmp_sibling, Separator};
use confluence::{validate_host, AuthMethod, Hosts, Paths};

#[test]
fn validate_host_accepts_normal_input() {
    assert!(validate_host("your-org.atlassian.net").is_ok());
    assert!(validate_host("sub.host.example").is_ok());
}

#[test]
fn validate_host_rejects_bad_input() {
    assert!(validate_host("").is_err());
    assert!(validate_host("  ").is_err());
    assert!(validate_host("https://x.example").is_err());
    assert!(validate_host("x.example/path").is_err());
    assert!(validate_host(".x.example").is_err());
    assert!(validate_host("x.example.").is_err());
    assert!(validate_host("x x.example").is_err());
}

#[test]
fn validate_host_refuses_any_white_space() {
    assert!(matches!(validate_host(" a"), Err(confluence::Error::InvalidHost(h)) if h == " a"));
    assert!(validate_host("h.example\t").is_err());
    assert!(validate_host("h.example\u{3000}").is_err());
    assert!(validate_host("h.\u{00A0}example").is_err());
    assert!(validate_host("a:b").is_ok());
    assert!(validate_host(" . ").is_err());
}

#[test]
fn tmp_path_appends_to_the_file_name() {
    let h = Hosts::open("/x/hosts.toml".to_owned());
    assert_eq!(h.tmp_path(), "/x/hosts.toml.tmp");
}

#[test]
fn tmp_sibling_of_a_directory_like_path() {
    assert_eq!(tmp_sibling("/cfg/", Separator::Slash), "/cfg.tmp");
    assert_eq!(tmp_sibling("..", Separator::Slash), "../.hosts.toml.tmp.tmp");
    assert_eq!(tmp_sibling("a/.", Separator::Slash), "a.tmp");
    assert_eq!(tmp_sibling("", Separator::Slash), ".hosts.toml.tmp.tmp");
    assert_eq!(tmp_sibling("/", Separator::Slash), "/.hosts.toml.tmp.tmp");
    assert_eq!(tmp_sibling(".", Separator::Slash), "./.hosts.toml.tmp.tmp");
    assert_eq!(tmp_sibling("a//b", Separator::Slash), "a/b.tmp");
    assert_eq!(tmp_sibling("a/b..", Separator::Slash), "a/b...tmp");
    assert_eq!(tmp_sibling("c:\\cfg", Separator::Backslash), "c:\\cfg.tmp");
    assert_eq!(tmp_sibling("c:\\cfg\\", Separator::Backslash), "c:\\cfg.tmp");
    assert_eq!(tmp_sibling("C:", Separator::Backslash), "C:.hosts.toml.tmp.tmp");
    assert_eq!(tmp_sibling("a/b", Separator::Backslash), "a\\b.tmp");
}

fn std_tmp_sibling(target: &str) -> String {
    let target = std::path::Path::new(target);
    let name = match target.file_name() {
        Some(n) => format!("{}.tmp", n.to_str().unwrap()),
        None => ".hosts.toml.tmp.tmp".to_owned(),
    };
    target.with_file_name(name).to_str().unwrap().to_owned()
}

#[test]
fn tmp_sibling_agrees_with_std_paths_here() {
    if std::path::MAIN_SEPARATOR != '/' {
        return;
    }
    for p in [
        "/x/hosts.toml", "hosts.toml", "/cfg/", "..", "a/..", "a/.", "a/./", "", "/", "//", ".",
        "./", "./a", "a//b", "a/./b", "/a/b/.", "a/b..", "...", "a/.b", "//x//",
    ] {
        assert_eq!(tmp_sibling(p, Separator::Slash), std_tmp_sibling(p), "path {:?}", p);
    }
}

#[test]
fn join_agrees_with_std_paths_here() {
    if std::path::MAIN_SEPARATOR != '/' {
        return;
    }
    for d in ["/cfg", "/cfg/", "", "C:", "a//", "."] {
        let expected = std::path::Path::new(d).join("hosts.toml");
        assert_eq!(join(d, "hosts.toml", Separator::Slash), expected.to_str().unwrap());
    }
}

#[test]
fn join_uses_the_given_separator() {
    assert_eq!(join("c:\\cfg", "hosts.toml", Separator::Backslash), "c:\\cfg\\hosts.toml");
    assert_eq!(join("c:/cfg/", "hosts.toml", Separator::Backslash), "c:/cfg/hosts.toml");
    assert_eq!(join("/cfg\\", "hosts.toml", Separator::Slash), "/cfg\\/hosts.toml");
    assert_eq!(join("C:", "hosts.toml", Separator::Backslash), "C:hosts.toml");
    assert_eq!(join("C:", "hosts.toml", Separator::Slash), "C:/hosts.toml");
    assert_eq!(Separator::Backslash.as_char(), '\\');
}

#[test]
fn with_root_resolves_hosts_file() {
    let root = "/tmp/example/config";
    let paths = Paths::with_root(root);
    assert_eq!(paths.config_dir(), root);
    assert_eq!(paths.hosts_file(), "/tmp/example/config/hosts.toml");
}

#[test]
fn hosts_file_after_trailing_separator_and_empty_root() {
    assert_eq!(Paths::with_root("/cfg/").hosts_file(), "/cfg/hosts.toml");
    assert_eq!(Paths::with_root("").hosts_file(), "hosts.toml");
}

#[test]
fn hosts_open_keeps_the_path() {
    let h = Hosts::open("/x/hosts.toml".to_owned());
    assert_eq!(h.path(), "/x/hosts.toml");
}

#[test]
fn blank_text_reads_as_empty() {
    assert!(is_blank(""));
    assert!(is_blank(" \n\t "));
    assert!(!is_blank(" default = \"h\" "));
}

fn t(secs: i64) -> Timestamp {
    Timestamp { secs, nanos: 0 }
}

#[test]
fn register_sets_default_once_and_keeps_created_at() {
    let mut f = HostsFile::new();
    f.register("a.example", "a@e.test", t(10));
    f.register("b.example", "b@e.test", t(20));
    assert_eq!(f.default.as_deref(), Some("a.example"));
    f.register("a.example", "new@e.test", t(30));
    let rows = f.entries();
    assert_eq!(rows.len(), 2);
    assert_eq!(rows[0].0, "a.example");
    assert_eq!(rows[0].1.email, "new@e.test");
    assert_eq!(rows[0].1.created_at, t(10));
    assert_eq!(rows[0].1.auth_method, AuthMethod::ApiToken);
    assert_eq!(rows[1].1.created_at, t(20));
}

#[test]
fn unregister_default_moves_to_least_host() {
    let mut f = HostsFile::new();
    f.register("m.example", "u@e.test", t(1));
    f.register("z.example", "u@e.test", t(2));
    f.register("b.example", "u@e.test", t(3));
    f.unregister("m.example");
    assert_eq!(f.default.as_deref(), Some("b.example"));
    f.unregister("z.example");
    assert_eq!(f.default.as_deref(), Some("b.example"));
    f.unregister("b.example");
    assert_eq!(f.default, None);
    assert!(f.entries().is_empty());
}

#[test]
fn login_then_logout_of_new_host_restores_registry() {
    let mut f = HostsFile::new();
    f.register("a.example", "u@e.test", t(1));
    let before = f.duplicate();
    f.register("b.example", "u@e.test", t(2));
    assert!(needs_write(&before, &f));
    f.unregister("b.example");
    assert!(!needs_write(&before, &f));
    assert!(f.same_as(&before));
}

#[test]
fn needs_write_sees_default_and_row_changes() {
    let mut a = HostsFile::new();
    a.register("a.example", "u@e.test", t(1));
    let mut b = a.duplicate();
    assert!(!needs_write(&a, &b));
    b.make_default("a.example").unwrap();
    assert!(!needs_write(&a, &b));
    b.register("a.example", "v@e.test", t(5));
    assert!(needs_write(&a, &b));
    let mut c = a.duplicate();
    c.default = None;
    assert!(needs_write(&a, &c));
}

#[test]
fn timestamps_after_the_epoch_keep_their_parts() {
    assert_eq!(
        timestamp_from_epoch_offset(Ok((1_700_000_000, 5))),
        Timestamp { secs: 1_700_000_000, nanos: 5 }
    );
    assert_eq!(
        timestamp_from_epoch_offset(Ok((u64::MAX, 0))),
        Timestamp { secs: i64::MAX, nanos: 0 }
    );
}

#[test]
fn timestamps_before_the_epoch_count_back() {
    assert_eq!(timestamp_from_epoch_offset(Err((3, 0))), Timestamp { secs: -3, nanos: 0 });
    assert_eq!(
        timestamp_from_epoch_offset(Err((3, 250_000_000))),
        Timestamp { secs: -4, nanos: 750_000_000 }
    );
    assert_eq!(
        timestamp_from_epoch_offset(Err((u64::MAX, 1))),
        Timestamp { secs: i64::MIN, nanos: 999_999_999 }
    );
}

#[test]
fn only_a_successful_change_is_written() {
    let before = HostsFile::new();
    let mut after = HostsFile::new();
    after.register("h.example", "u@e.test", t(1));
    let ok: confluence::Result<()> = Ok(());
    let failed: confluence::Result<()> = Err(confluence::Error::NoActiveHost);
    assert!(should_write(&before, &after, &ok));
    assert!(!should_write(&before, &after, &failed));
    assert!(!should_write(&before, &before.duplicate(), &ok));
}
