//! Construction of the argument lists handed to each vault process.
//!
//! Genesis receives `--first`; every follower instead receives
//! `--hard-coded-contacts` with the bracketed contact string scraped from
//! the genesis log. Both receive `--root-dir` and `--log-dir` pointing at
//! the instance's own output directory, and, when the vault verbosity
//! level is positive, a single `-v...` token with one `v` per level.

use vstd::prelude::*;

use crate::verbosity_flag;

verus! {

/// The views of a list of argument strings.
pub open spec fn strings_view(args: Seq<String>) -> Seq<Seq<char>> {
    args.map_values(|a: String| a@)
}

/// The arguments common to genesis and followers: nothing at verbosity
/// zero, otherwise the one `-v...` token.
pub open spec fn common_args_spec(vaults_verbosity: nat) -> Seq<Seq<char>> {
    if vaults_verbosity == 0 {
        Seq::empty()
    } else {
        seq![verbosity_flag(vaults_verbosity)]
    }
}

/// The genesis vault's argument list.
pub open spec fn genesis_args_spec(vaults_verbosity: nat, genesis_dir: Seq<char>) -> Seq<
    Seq<char>,
> {
    common_args_spec(vaults_verbosity) + seq![
        "--first"@,
        "--root-dir"@,
        genesis_dir,
        "--log-dir"@,
        genesis_dir,
    ]
}

/// A follower vault's argument list.
pub open spec fn follower_args_spec(
    vaults_verbosity: nat,
    vault_dir: Seq<char>,
    contact: Seq<char>,
) -> Seq<Seq<char>> {
    common_args_spec(vaults_verbosity) + seq![
        "--root-dir"@,
        vault_dir,
        "--log-dir"@,
        vault_dir,
        "--hard-coded-contacts"@,
        contact,
    ]
}

/// Builds the `-v...` verbosity token for a positive level; for level 0
/// the result is just `-` and is never passed on.
pub fn verbosity_arg(level: u8) -> (s: String)
    ensures
        s@ == verbosity_flag(level as nat),
{
    let mut s = String::from_str("-");
    proof {
        reveal_strlit("-");
        reveal_strlit("v");
        assert(s@ =~= verbosity_flag(0));
    }
    let mut k: u8 = 0;
    while k < level
        invariant
            k <= level,
            s@ == verbosity_flag(k as nat),
        decreases level - k,
    {
        s.append("v");
        proof {
            reveal_strlit("v");
            assert(s@ =~= verbosity_flag((k + 1) as nat));
        }
        k = k + 1;
    }
    s
}

/// The arguments shared by every instance of one run.
pub fn common_vault_args(vaults_verbosity: u8) -> (args: Vec<String>)
    ensures
        strings_view(args@) == common_args_spec(vaults_verbosity as nat),
{
    let mut args: Vec<String> = Vec::new();
    if vaults_verbosity > 0 {
        args.push(verbosity_arg(vaults_verbosity));
    }
    proof {
        assert(strings_view(args@) =~~= common_args_spec(vaults_verbosity as nat));
    }
    args
}

/// Builds the genesis vault's argument list for the given output
/// directory.
pub fn genesis_vault_args(vaults_verbosity: u8, genesis_dir: &str) -> (args: Vec<String>)
    ensures
        strings_view(args@) == genesis_args_spec(vaults_verbosity as nat, genesis_dir@),
{
    let mut args = common_vault_args(vaults_verbosity);
    args.push(String::from_str("--first"));
    args.push(String::from_str("--root-dir"));
    args.push(genesis_dir.to_owned());
    args.push(String::from_str("--log-dir"));
    args.push(genesis_dir.to_owned());
    proof {
        assert(strings_view(args@) =~~= genesis_args_spec(
            vaults_verbosity as nat,
            genesis_dir@,
        ));
    }
    args
}

/// Builds a follower vault's argument list for the given output
/// directory and (already bracketed) genesis contact string.
pub fn follower_vault_args(vaults_verbosity: u8, vault_dir: &str, contact: &str) -> (args: Vec<
    String,
>)
    ensures
        strings_view(args@) == follower_args_spec(vaults_verbosity as nat, vault_dir@, contact@),
{
    let mut args = common_vault_args(vaults_verbosity);
    args.push(String::from_str("--root-dir"));
    args.push(vault_dir.to_owned());
    args.push(String::from_str("--log-dir"));
    args.push(vault_dir.to_owned());
    args.push(String::from_str("--hard-coded-contacts"));
    args.push(contact.to_owned());
    proof {
        assert(strings_view(args@) =~~= follower_args_spec(
            vaults_verbosity as nat,
            vault_dir@,
            contact@,
        ));
    }
    args
}

/// Properties of the verbosity token: it is one `-` followed by `level`
/// letters `v`, so for a positive level it is never equal to any `--`
/// long flag.
pub proof fn lemma_verbosity_flag_shape(level: nat)
    ensures
        verbosity_flag(level).len() == level + 1,
        verbosity_flag(level)[0] == '-',
        forall|k: int| 1 <= k <= level ==> verbosity_flag(level)[k] == 'v',
    decreases level,
{
    if level > 0 {
        lemma_verbosity_flag_shape((level - 1) as nat);
    }
}

} // verus!
