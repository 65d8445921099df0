use std::collections::HashMap;

use container_init::cli::Args;
use container_init::config::{AwsConfig, Config, Source};
use container_init::paths::{is_absolute_path, parent_dir};

#[test]
fn absoluteness() {
    assert!(is_absolute_path("/"));
    assert!(is_absolute_path("/etc/app/db-pass"));
    assert!(!is_absolute_path(""));
    assert!(!is_absolute_path("etc/app"));
    assert!(!is_absolute_path("./x"));
}

#[test]
fn parent_of_nested_path() {
    assert_eq!(parent_dir("/etc/app/db-pass"), Some("/etc/app".to_owned()));
}

#[test]
fn parent_of_top_level_file_is_root() {
    assert_eq!(parent_dir("/db-pass"), Some("/".to_owned()));
}

#[test]
fn root_has_no_parent() {
    assert_eq!(parent_dir("/"), None);
    assert_eq!(parent_dir("///"), None);
}

#[test]
fn trailing_and_repeated_separators() {
    assert_eq!(parent_dir("/etc/app/"), Some("/etc".to_owned()));
    assert_eq!(parent_dir("/a//b"), Some("/a".to_owned()));
    assert_eq!(parent_dir("//a"), Some("/".to_owned()));
}

#[test]
fn parent_agrees_with_std_path() {
    for p in ["/etc/app/db-pass", "/db-pass", "/", "/etc/app/", "/a//b"] {
        let expected = std::path::Path::new(p)
            .parent()
            .map(|q| q.to_str().unwrap().to_owned());
        assert_eq!(parent_dir(p), expected, "path {:?}", p);
    }
}

#[test]
fn parent_of_non_ascii_path() {
    assert_eq!(parent_dir("/etc/\u{00e4}pp/geheim"), Some("/etc/\u{00e4}pp".to_owned()));
}

#[test]
fn default_log_level_is_info() {
    assert_eq!(Config::default_log_level(), "INFO");
}

#[test]
fn configuration_carries_entries() {
    let mut files = HashMap::new();
    files.insert(
        "/etc/app/db-pass".to_owned(),
        Source {
            source_arn: "arn:aws:secretsmanager:eu-west-1:123456789012:secret:db-pass".to_owned(),
        },
    );
    let config = Config {
        aws: AwsConfig {
            region: Some("eu-west-1".to_owned()),
            assume_role_arn: None,
            assume_role_external_id: None,
        },
        files,
        log_level: Config::default_log_level(),
    };
    assert_eq!(config.files.len(), 1);
    assert_eq!(
        config.files["/etc/app/db-pass"].source_arn,
        "arn:aws:secretsmanager:eu-west-1:123456789012:secret:db-pass"
    );
    let args = Args { config: None };
    assert!(args.config.is_none());
}
