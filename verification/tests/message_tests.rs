use safe_nlt::Error;

#[test]
fn resolution_message_is_exact() {
    assert_eq!(Error::Resolution.message(), "Failed to obtain user's home path");
}

#[test]
fn not_found_message_is_exact() {
    assert_eq!(
        Error::NotFound.message(),
        "Failed to find the contact info of the genesis vault"
    );
}

#[test]
fn io_message_carries_the_os_detail() {
    let e = Error::Io {
        path: "./vaults/safe-vault-genesis/safe_vault.log".to_string(),
        detail: "No such file or directory (os error 2)".to_string(),
    };
    assert_eq!(
        e.message(),
        "Failed to obtain the contact info of the genesis vault: No such file or directory (os error 2)"
    );
}

#[test]
fn launch_message_carries_path_arguments_and_detail() {
    let e = Error::Launch {
        bin: "/opt/bin/safe_vault".to_string(),
        args: vec!["--first".to_string(), "--root-dir".to_string(), "./v/g".to_string()],
        detail: "Permission denied (os error 13)".to_string(),
    };
    assert_eq!(
        e.message(),
        "Failed to run '/opt/bin/safe_vault' with args '[\"--first\", \"--root-dir\", \"./v/g\"]': Permission denied (os error 13)"
    );
}

#[test]
fn launch_message_with_no_arguments() {
    let e = Error::Launch {
        bin: "/b".to_string(),
        args: Vec::new(),
        detail: "boom".to_string(),
    };
    assert_eq!(e.message(), "Failed to run '/b' with args '[]': boom");
}
