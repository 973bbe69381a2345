use shlonk::args::{default_config_path, Args};
use shlonk::auth::{authorized, credential_matches, Operation};
use shlonk::config::{default_port, Config, ConfigReadingError};
use shlonk::listing::{find_name, find_repeat};
use shlonk::mapping::{default_permanent, Redirection, Url, STATUS_PERMANENT, STATUS_TEMPORARY};

#[test]
fn default_port_is_8080() {
    assert_eq!(default_port(), 8080);
}

#[test]
fn default_permanent_is_false() {
    assert!(!default_permanent());
}

#[test]
fn permanent_mapping_resolves_to_301() {
    let mapping = Url::new("https://example.com/a?b=c".to_string(), true);
    assert_eq!(
        mapping.resolve(),
        Redirection { status: 301, location: "https://example.com/a?b=c".to_string() }
    );
    assert_eq!(STATUS_PERMANENT, 301);
}

#[test]
fn temporary_mapping_resolves_to_302() {
    let mapping = Url::new("https://example.com".to_string(), false);
    assert_eq!(
        mapping.resolve(),
        Redirection { status: 302, location: "https://example.com".to_string() }
    );
    assert_eq!(STATUS_TEMPORARY, 302);
}

#[test]
fn clone_keeps_the_mapping() {
    let mapping = Url::new("https://example.com".to_string(), true);
    let copy = mapping.clone();
    assert_eq!(copy, mapping);
    assert_eq!(copy.url, "https://example.com");
    assert!(copy.permanent);
}

#[test]
fn read_is_always_authorized() {
    let secret = Some("abc".to_string());
    assert!(authorized(&secret, None, Operation::Read));
    assert!(authorized(&secret, Some("x"), Operation::Read));
    assert!(authorized(&None, None, Operation::Read));
    assert!(authorized(&None, Some("x"), Operation::Read));
}

#[test]
fn changes_need_the_secret() {
    let secret = Some("abc".to_string());
    for operation in [Operation::Add, Operation::Modify, Operation::Delete] {
        assert!(authorized(&secret, Some("abc"), operation));
        assert!(!authorized(&secret, Some("abcd"), operation));
        assert!(!authorized(&secret, Some(""), operation));
        assert!(!authorized(&secret, None, operation));
        assert!(authorized(&None, None, operation));
        assert!(!authorized(&None, Some("abc"), operation));
        assert!(!authorized(&None, Some(""), operation));
    }
}

#[test]
fn credential_matches_compares_text() {
    assert!(credential_matches(&Some("s3cret".to_string()), Some("s3cret")));
    assert!(!credential_matches(&Some("s3cret".to_string()), Some("S3cret")));
    assert!(!credential_matches(&Some("s3cret".to_string()), Some("other!")));
    assert!(credential_matches(&Some(String::new()), Some("")));
    assert!(!credential_matches(&Some(String::new()), None));
    assert!(credential_matches(&None, None));
}

#[test]
fn find_name_gives_the_first_place() {
    let urls = vec![
        ("a".to_string(), Url::new("https://a.test".to_string(), false)),
        ("b".to_string(), Url::new("https://b.test".to_string(), false)),
        ("a".to_string(), Url::new("https://a2.test".to_string(), false)),
    ];
    assert_eq!(find_name(&urls, "a"), Some(0));
    assert_eq!(find_name(&urls, "b"), Some(1));
    assert_eq!(find_name(&urls, "c"), None);
    assert_eq!(find_name(&Vec::new(), "a"), None);
}

#[test]
fn find_repeat_gives_the_first_repeated_place() {
    let mut urls = vec![
        ("a".to_string(), Url::new("https://a.test".to_string(), false)),
        ("b".to_string(), Url::new("https://b.test".to_string(), false)),
        ("c".to_string(), Url::new("https://c.test".to_string(), false)),
    ];
    assert_eq!(find_repeat(&urls), None);
    urls.push(("c".to_string(), Url::new("https://c.test".to_string(), false)));
    urls.push(("a".to_string(), Url::new("https://a.test".to_string(), false)));
    assert_eq!(find_repeat(&urls), Some(3));
    assert_eq!(find_repeat(&Vec::new()), None);
}

#[test]
fn new_config_has_defaults() {
    let config = Config::new();
    assert!(config.urls.is_empty());
    assert_eq!(config.port, 8080);
    assert_eq!(config.secret, None);
}

#[test]
fn config_find_looks_names_up() {
    let mut config = Config::new();
    config.urls.push(("x".to_string(), Url::new("https://x.test".to_string(), false)));
    config.urls.push(("y".to_string(), Url::new("https://y.test".to_string(), true)));
    assert_eq!(config.find("y"), Some(1));
    assert_eq!(config.find("x"), Some(0));
    assert_eq!(config.find("z"), None);
}

#[test]
fn error_messages() {
    assert_eq!(
        ConfigReadingError::IoError("No such file or directory (os error 2)".to_string()).message(),
        "IO error: No such file or directory (os error 2)"
    );
    assert_eq!(
        ConfigReadingError::YamlError("missing field `urls`".to_string()).message(),
        "YAML error: missing field `urls`"
    );
    assert_eq!(
        ConfigReadingError::DuplicateName("foo".to_string()).message(),
        "duplicate name: foo"
    );
}

#[test]
fn args_default_to_the_system_path() {
    let args = Args::new();
    assert_eq!(args.config, "/etc/shlonk/config.yml");
    assert_eq!(args.port, None);
    assert_eq!(default_config_path(), "/etc/shlonk/config.yml");
}

#[test]
fn given_port_overrides_the_configured_one() {
    let mut args = Args::new();
    assert_eq!(args.listen_port(8080), 8080);
    args.port = Some(9090);
    assert_eq!(args.listen_port(8080), 9090);
}
