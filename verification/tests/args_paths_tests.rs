use safe_nlt::digits::u8_to_string;
use safe_nlt::paths::default_vault_bin_path;
use safe_nlt::paths::follower_vault_dir;
use safe_nlt::paths::genesis_log_path;
use safe_nlt::paths::genesis_vault_dir;
use safe_nlt::paths::get_vault_bin_path;
use safe_nlt::vault_args::common_vault_args;
use safe_nlt::vault_args::follower_vault_args;
use safe_nlt::vault_args::genesis_vault_args;
use safe_nlt::vault_args::verbosity_arg;

fn as_strs(v: &[String]) -> Vec<&str> {
    v.iter().map(|s| s.as_str()).collect()
}

#[test]
fn verbosity_level_zero_yields_no_argument() {
    assert!(common_vault_args(0).is_empty());
}

#[test]
fn verbosity_level_three_is_one_vvv_token() {
    let args = common_vault_args(3);
    assert_eq!(as_strs(&args), vec!["-vvv"]);
    assert_eq!(verbosity_arg(3), "-vvv");
    assert_eq!(verbosity_arg(1), "-v");
}

#[test]
fn default_path_is_under_home() {
    assert_eq!(
        default_vault_bin_path("/home/alice", false),
        "/home/alice/.safe/vault/safe_vault"
    );
}

#[test]
fn default_path_on_windows_has_exe_suffix() {
    assert_eq!(
        default_vault_bin_path("/home/alice", true),
        "/home/alice/.safe/vault/safe_vault.exe"
    );
}

#[test]
fn explicit_override_is_returned_unchanged() {
    let r = get_vault_bin_path(Some("/opt/bin/safe_vault".to_string()), false);
    assert_eq!(r.unwrap(), "/opt/bin/safe_vault");
}

#[test]
fn genesis_argument_list_is_exact() {
    let dir = genesis_vault_dir("./vaults");
    assert_eq!(dir, "./vaults/safe-vault-genesis");
    let args = genesis_vault_args(0, dir.as_str());
    assert_eq!(
        as_strs(&args),
        vec![
            "--first",
            "--root-dir",
            "./vaults/safe-vault-genesis",
            "--log-dir",
            "./vaults/safe-vault-genesis",
        ]
    );
}

#[test]
fn follower_argument_list_is_exact() {
    let dir = follower_vault_dir("./vaults", 2);
    assert_eq!(dir, "./vaults/safe-vault-2");
    let args = follower_vault_args(2, dir.as_str(), "[127.0.0.1:1234]");
    assert_eq!(
        as_strs(&args),
        vec![
            "-vv",
            "--root-dir",
            "./vaults/safe-vault-2",
            "--log-dir",
            "./vaults/safe-vault-2",
            "--hard-coded-contacts",
            "[127.0.0.1:1234]",
        ]
    );
}

#[test]
fn genesis_log_path_is_under_genesis_dir() {
    assert_eq!(
        genesis_log_path("./vaults"),
        "./vaults/safe-vault-genesis/safe_vault.log"
    );
}

#[test]
fn decimal_rendering_of_indices() {
    assert_eq!(u8_to_string(0), "0");
    assert_eq!(u8_to_string(7), "7");
    assert_eq!(u8_to_string(10), "10");
    assert_eq!(u8_to_string(42), "42");
    assert_eq!(u8_to_string(100), "100");
    assert_eq!(u8_to_string(255), "255");
}
