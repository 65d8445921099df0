use container_init::provisioner::{Error, ProvisionEntry, SecretPayload, Start};

fn entry(path: &str, reference: &str) -> ProvisionEntry {
    ProvisionEntry {
        destination_path: path.to_owned(),
        secret_reference: reference.to_owned(),
    }
}

#[test]
fn relative_path_rejected_without_io() {
    let e = entry("etc/app/db-pass", "arn:aws:secretsmanager:eu-west-1:123456789012:secret:x");
    match e.start() {
        Start::Fail { outcome } => {
            assert_eq!(outcome.destination_path, "etc/app/db-pass");
            match outcome.result {
                Err(Error::InvalidPath { path }) => assert_eq!(path, "etc/app/db-pass"),
                _ => panic!("expected InvalidPath"),
            }
        }
        _ => panic!("a relative destination must be rejected before any operation"),
    }
}

#[test]
fn empty_path_rejected() {
    let e = entry("", "ref");
    assert!(matches!(e.start(), Start::Fail { .. }));
}

#[test]
fn binary_payload_provisioned_exactly() {
    let e = entry(
        "/etc/app/db-pass",
        "arn:aws:secretsmanager:eu-west-1:123456789012:secret:db-pass",
    );
    let dir = match e.start() {
        Start::CreateParentDir { dir } => dir,
        _ => panic!("expected a parent directory to prepare"),
    };
    assert_eq!(dir, "/etc/app");
    assert!(e.after_dir_creation(Ok(())).is_ok());
    let payload = SecretPayload {
        binary: Some(b"s3cr3t".to_vec()),
        text: None,
    };
    let plan = match e.after_fetch(Ok(payload)) {
        Ok(plan) => plan,
        Err(_) => panic!("a fetched payload must lead to a write"),
    };
    assert_eq!(plan.data, b"s3cr3t".to_vec());
    assert!(!plan.empty_payload);
    let outcome = e.after_write(Ok(()));
    assert_eq!(outcome.destination_path, "/etc/app/db-pass");
    assert!(outcome.result.is_ok());
}

#[test]
fn text_payload_written_as_utf8_bytes() {
    let e = entry("/etc/app/token", "ref");
    let payload = SecretPayload {
        binary: None,
        text: Some("pa\u{00df}word".to_owned()),
    };
    let plan = e.after_fetch(Ok(payload)).ok().unwrap();
    assert_eq!(plan.data, "pa\u{00df}word".as_bytes().to_vec());
    assert!(!plan.empty_payload);
}

#[test]
fn binary_form_preferred_over_text() {
    let e = entry("/etc/app/token", "ref");
    let payload = SecretPayload {
        binary: Some(vec![0u8, 159u8, 146u8]),
        text: Some("ignored".to_owned()),
    };
    let plan = e.after_fetch(Ok(payload)).ok().unwrap();
    assert_eq!(plan.data, vec![0u8, 159u8, 146u8]);
}

#[test]
fn empty_payload_succeeds_with_warning() {
    let e = entry("/etc/app/placeholder", "ref");
    let payload = SecretPayload {
        binary: None,
        text: None,
    };
    let plan = e.after_fetch(Ok(payload)).ok().unwrap();
    assert!(plan.data.is_empty());
    assert!(plan.empty_payload, "an empty payload is a warning, not an error");
    let outcome = e.after_write(Ok(()));
    assert!(outcome.result.is_ok(), "an empty payload must still complete as a success");
}

#[test]
fn empty_text_payload_counts_as_empty() {
    let e = entry("/etc/app/placeholder", "ref");
    let payload = SecretPayload {
        binary: None,
        text: Some(String::new()),
    };
    let plan = e.after_fetch(Ok(payload)).ok().unwrap();
    assert!(plan.data.is_empty());
    assert!(plan.empty_payload);
}

#[test]
fn fetch_failure_names_the_reference() {
    let e = entry(
        "/etc/app/missing",
        "arn:aws:secretsmanager:eu-west-1:123456789012:secret:gone",
    );
    let outcome = match e.after_fetch(Err("secret not found".to_owned())) {
        Err(outcome) => outcome,
        Ok(_) => panic!("a fetch failure must conclude the entry"),
    };
    assert_eq!(outcome.destination_path, "/etc/app/missing");
    match outcome.result {
        Err(Error::SecretFetchFailed { reference, cause }) => {
            assert_eq!(
                reference,
                "arn:aws:secretsmanager:eu-west-1:123456789012:secret:gone"
            );
            assert_eq!(cause, "secret not found");
        }
        _ => panic!("expected SecretFetchFailed"),
    }
}

#[test]
fn dir_creation_failure_concludes_entry() {
    let e = entry("/etc/app/db-pass", "ref");
    let outcome = match e.after_dir_creation(Err("permission denied".to_owned())) {
        Err(outcome) => outcome,
        Ok(_) => panic!("a directory failure must conclude the entry"),
    };
    match outcome.result {
        Err(Error::DirectoryCreationFailed { cause }) => assert_eq!(cause, "permission denied"),
        _ => panic!("expected DirectoryCreationFailed"),
    }
}

#[test]
fn write_failure_concludes_entry() {
    let e = entry("/etc/app/db-pass", "ref");
    let outcome = e.after_write(Err("disk full".to_owned()));
    match outcome.result {
        Err(Error::WriteFailed { cause }) => assert_eq!(cause, "disk full"),
        _ => panic!("expected WriteFailed"),
    }
}

#[test]
fn root_destination_has_no_parent_to_prepare() {
    let e = entry("/", "ref");
    assert!(matches!(e.start(), Start::FetchSecret));
}
