//! Filesystem locations used by a run: where the vault executable is
//! found and where each instance's output directory lives.
//!
//! Paths are plain strings joined with `/`; they are handed to the
//! spawned processes as opaque arguments.

use vstd::prelude::*;

use crate::digits::spec_decimal;
use crate::digits::u8_to_string;
use crate::errors::Error;

verus! {

/// The name of the vault executable on the given platform flavour.
pub open spec fn default_bin_name(windows: bool) -> Seq<char> {
    if windows {
        "safe_vault.exe"@
    } else {
        "safe_vault"@
    }
}

/// The default location of the vault executable under a home directory.
pub open spec fn default_bin_path_spec(home: Seq<char>, windows: bool) -> Seq<char> {
    home + "/.safe/vault/"@ + default_bin_name(windows)
}

/// The genesis vault's output directory under the vaults directory.
pub open spec fn genesis_dir_spec(vaults_dir: Seq<char>) -> Seq<char> {
    vaults_dir + "/safe-vault-genesis"@
}

/// A follower vault's output directory under the vaults directory.
pub open spec fn follower_dir_spec(vaults_dir: Seq<char>, index: nat) -> Seq<char> {
    vaults_dir + "/safe-vault-"@ + spec_decimal(index)
}

/// The log file the genesis vault is expected to write into its output
/// directory.
pub open spec fn genesis_log_path_spec(vaults_dir: Seq<char>) -> Seq<char> {
    genesis_dir_spec(vaults_dir) + "/safe_vault.log"@
}

/// The platform-dependent executable name.
pub fn default_executable_name(windows: bool) -> (r: &'static str)
    ensures
        r@ == default_bin_name(windows),
{
    if windows {
        "safe_vault.exe"
    } else {
        "safe_vault"
    }
}

/// The default executable path under the given home directory:
/// `<home>/.safe/vault/<executable-name>`.
pub fn default_vault_bin_path(home: &str, windows: bool) -> (r: String)
    ensures
        r@ == default_bin_path_spec(home@, windows),
{
    let mut s = home.to_owned();
    s.append("/.safe/vault/");
    s.append(default_executable_name(windows));
    s
}

/// Relies on `directories::BaseDirs::new` and `BaseDirs::home_dir`: the
/// user's home directory as the operating environment reports it, or
/// `None` when it cannot be determined. Nothing is promised of the
/// value, which depends on the environment alone.
#[verifier::external_body]
fn user_home_dir() -> Option<String> {
    directories::BaseDirs::new().map(|b| b.home_dir().display().to_string())
}

/// Resolves the vault executable's location: an explicit override is
/// returned unchanged; otherwise the default path under the user's home
/// directory is built, and resolution fails only when no home directory
/// can be determined. No filesystem existence check is made.
pub fn get_vault_bin_path(vault_path: Option<String>, windows: bool) -> (r: Result<String, Error>)
    ensures
        match vault_path {
            Some(p) => r matches Ok(b) && b@ == p@,
            None => match r {
                Ok(b) => exists|home: Seq<char>| b@ == default_bin_path_spec(home, windows),
                Err(e) => e is Resolution,
            },
        },
{
    match vault_path {
        Some(p) => Ok(p),
        None => match user_home_dir() {
            Some(home) => {
                let bin = default_vault_bin_path(home.as_str(), windows);
                proof {
                    assert(bin@ == default_bin_path_spec(home@, windows));
                }
                Ok(bin)
            },
            None => Err(Error::Resolution),
        },
    }
}

/// The genesis output directory, `<vaults-dir>/safe-vault-genesis`.
pub fn genesis_vault_dir(vaults_dir: &str) -> (r: String)
    ensures
        r@ == genesis_dir_spec(vaults_dir@),
{
    let mut s = vaults_dir.to_owned();
    s.append("/safe-vault-genesis");
    s
}

/// A follower's output directory, `<vaults-dir>/safe-vault-<index>`.
pub fn follower_vault_dir(vaults_dir: &str, index: u8) -> (r: String)
    ensures
        r@ == follower_dir_spec(vaults_dir@, index as nat),
{
    let mut s = vaults_dir.to_owned();
    s.append("/safe-vault-");
    let num = u8_to_string(index);
    s.append(num.as_str());
    s
}

/// The genesis log path, `<vaults-dir>/safe-vault-genesis/safe_vault.log`.
pub fn genesis_log_path(vaults_dir: &str) -> (r: String)
    ensures
        r@ == genesis_log_path_spec(vaults_dir@),
{
    let mut s = genesis_vault_dir(vaults_dir);
    s.append("/safe_vault.log");
    s
}

} // verus!
