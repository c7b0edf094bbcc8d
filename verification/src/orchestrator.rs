//! The launch sequence: resolve the executable once, launch the
//! genesis vault, wait, scrape its log for the contact information,
//! then launch each follower in increasing index order with a wait
//! after every launch. Any failure terminates the run at once.

use vstd::prelude::*;

use crate::environment::Effect;
use crate::environment::VaultEnv;
use crate::environment::is_launch;
use crate::environment::launch_args;
use crate::environment::launch_bin;
use crate::environment::launch_ok;
use crate::vault_args::strings_view;
use crate::errors::Error;
use crate::paths::default_bin_path_spec;
use crate::paths::follower_dir_spec;
use crate::paths::genesis_dir_spec;
use crate::paths::genesis_log_path_spec;
use crate::paths::genesis_log_path;
use crate::paths::genesis_vault_dir;
use crate::paths::get_vault_bin_path;
use crate::paths::follower_vault_dir;
use crate::scrape::bracketed;
use crate::scrape::grep_connection_info;
use crate::scrape::lines_of;
use crate::scrape::scrape_lines;
use crate::vault_args::follower_args_spec;
use crate::vault_args::follower_vault_args;
use crate::vault_args::genesis_args_spec;
use crate::vault_args::genesis_vault_args;

verus! {

/// One run's configuration, immutable once parsed.
pub struct Config {
    /// Verbosity level of the tool itself (progress reporting only).
    pub verbosity: u8,
    /// Explicit location of the vault executable, if any.
    pub vault_path: Option<String>,
    /// Seconds to wait after each launch.
    pub interval: u64,
    /// Directory under which every instance's output directory lives.
    pub vaults_dir: String,
    /// Number of instances to launch, the first being the genesis.
    pub num_vaults: u8,
    /// Verbosity level handed to each vault.
    pub vaults_verbosity: u8,
}

/// `bin` is a location the executable resolution can return for this
/// configuration: the override itself when one is given, else the
/// default path under some home directory.
pub open spec fn resolved_bin(c: Config, windows: bool, bin: Seq<char>) -> bool {
    match c.vault_path {
        Some(p) => bin == p@,
        None => exists|home: Seq<char>| bin == default_bin_path_spec(home, windows),
    }
}

/// The contact string a log text yields: the bracketed capture of its
/// first matching line.
pub open spec fn contact_of(content: Seq<char>) -> Seq<char> {
    match scrape_lines(lines_of(content)) {
        Some(cap) => bracketed(cap),
        None => Seq::empty(),
    }
}

/// The genesis launch attempt.
pub open spec fn genesis_launch_effect(c: Config, bin: Seq<char>, ok: bool) -> Effect {
    Effect::Launch {
        bin,
        args: genesis_args_spec(c.vaults_verbosity as nat, genesis_dir_spec(c.vaults_dir@)),
        ok,
    }
}

/// The launch attempt of the follower with the given index.
pub open spec fn follower_launch_effect(
    c: Config,
    bin: Seq<char>,
    contact: Seq<char>,
    i: int,
    ok: bool,
) -> Effect {
    Effect::Launch {
        bin,
        args: follower_args_spec(
            c.vaults_verbosity as nat,
            follower_dir_spec(c.vaults_dir@, i as nat),
            contact,
        ),
        ok,
    }
}

/// The effects up to and including the genesis log read: a successful
/// genesis launch, one wait, and the read with the given outcome.
pub open spec fn scrape_prefix(c: Config, bin: Seq<char>, content: Option<Seq<char>>) -> Seq<
    Effect,
> {
    seq![
        genesis_launch_effect(c, bin, true),
        Effect::Sleep { secs: c.interval },
        Effect::Read { path: genesis_log_path_spec(c.vaults_dir@), content },
    ]
}

/// The effects of successfully launching followers 2 through `n`, in
/// index order, each launch followed by one wait.
pub open spec fn followers_trace(c: Config, bin: Seq<char>, contact: Seq<char>, n: int) -> Seq<
    Effect,
>
    decreases n,
{
    if n < 2 {
        Seq::empty()
    } else {
        followers_trace(c, bin, contact, n - 1) + seq![
            follower_launch_effect(c, bin, contact, n, true),
            Effect::Sleep { secs: c.interval },
        ]
    }
}

/// A completed run: every instance launched, each launch attempt
/// followed by one wait, the contact scraped from the genesis log read.
pub open spec fn ok_outcome(
    c: Config,
    windows: bool,
    bin: Seq<char>,
    content: Seq<char>,
    t: Seq<Effect>,
) -> bool {
    &&& resolved_bin(c, windows, bin)
    &&& scrape_lines(lines_of(content)) is Some
    &&& t == scrape_prefix(c, bin, Some(content)) + followers_trace(
        c,
        bin,
        contact_of(content),
        c.num_vaults as int,
    )
}

/// A run that ended at a failed genesis launch.
pub open spec fn genesis_fail_outcome(
    c: Config,
    windows: bool,
    bin: Seq<char>,
    t: Seq<Effect>,
) -> bool {
    resolved_bin(c, windows, bin) && t == seq![genesis_launch_effect(c, bin, false)]
}

/// A run that ended at the failed launch of follower `k`: followers
/// below `k` were launched, no index beyond `k` was attempted.
pub open spec fn follower_fail_outcome(
    c: Config,
    windows: bool,
    bin: Seq<char>,
    content: Seq<char>,
    k: int,
    t: Seq<Effect>,
) -> bool {
    &&& resolved_bin(c, windows, bin)
    &&& scrape_lines(lines_of(content)) is Some
    &&& 2 <= k <= c.num_vaults as int
    &&& t == scrape_prefix(c, bin, Some(content)) + followers_trace(
        c,
        bin,
        contact_of(content),
        k - 1,
    ) + seq![follower_launch_effect(c, bin, contact_of(content), k, false)]
}

/// A run that ended because the genesis log could not be read.
pub open spec fn io_fail_outcome(c: Config, windows: bool, bin: Seq<char>, t: Seq<Effect>) -> bool {
    resolved_bin(c, windows, bin) && t == scrape_prefix(c, bin, None)
}

/// A run that ended because no line of the genesis log carried the
/// contact marker.
pub open spec fn notfound_outcome(
    c: Config,
    windows: bool,
    bin: Seq<char>,
    content: Seq<char>,
    t: Seq<Effect>,
) -> bool {
    &&& resolved_bin(c, windows, bin)
    &&& scrape_lines(lines_of(content)) is None
    &&& t == scrape_prefix(c, bin, Some(content))
}

/// What a run leaves in the effect trace, by result: the full launch
/// sequence on success, and on each error exactly the effects up to
/// the failing step. A launch error carries the failing attempt's own
/// binary path and argument list; an I/O error carries the log path
/// that could not be read.
pub open spec fn run_post(c: Config, windows: bool, t: Seq<Effect>, r: Result<(), Error>) -> bool {
    match r {
        Ok(_) => exists|bin: Seq<char>, content: Seq<char>| ok_outcome(c, windows, bin, content, t),
        Err(e) => match e {
            Error::Resolution => c.vault_path is None && t == Seq::<Effect>::empty(),
            Error::Launch { bin: ebin, args: eargs, detail: _ } => {
                &&& (exists|bin: Seq<char>| genesis_fail_outcome(c, windows, bin, t)) || (exists|
                    bin: Seq<char>,
                    content: Seq<char>,
                    k: int,
                | follower_fail_outcome(c, windows, bin, content, k, t))
                &&& t.len() >= 1
                &&& is_launch(t.last())
                &&& !launch_ok(t.last())
                &&& ebin@ == launch_bin(t.last())
                &&& strings_view(eargs@) == launch_args(t.last())
            },
            Error::Io { path: epath, detail: _ } => (exists|bin: Seq<char>|
                io_fail_outcome(c, windows, bin, t)) && epath@ == genesis_log_path_spec(
                c.vaults_dir@,
            ),
            Error::NotFound => exists|bin: Seq<char>, content: Seq<char>|
                notfound_outcome(c, windows, bin, content, t),
        },
    }
}

/// Runs the whole launch sequence against the given environment. The
/// effects it appends to the environment's trace are exactly what
/// `run_post` states for the returned result.
#[verifier::loop_isolation(false)]
pub fn run<E: VaultEnv>(env: &mut E, config: &Config) -> (r: Result<(), Error>)
    ensures
        old(env).trace().len() <= final(env).trace().len(),
        final(env).trace().take(old(env).trace().len() as int) == old(env).trace(),
        run_post(
            *config,
            old(env).windows(),
            final(env).trace().skip(old(env).trace().len() as int),
            r,
        ),
{
    let ghost t0 = env.trace();
    let windows = env.is_windows();
    let override_path: Option<String> = match &config.vault_path {
        Some(p) => Some(p.clone()),
        None => None,
    };
    let bin = match get_vault_bin_path(override_path, windows) {
        Ok(b) => b,
        Err(e) => {
            proof {
                assert(env.trace().skip(t0.len() as int) =~= Seq::<Effect>::empty());
                assert(env.trace().take(t0.len() as int) =~= t0);
            }
            return Err(e);
        },
    };
    proof {
        assert(resolved_bin(*config, windows, bin@));
    }
    let genesis_dir = genesis_vault_dir(config.vaults_dir.as_str());
    let g_args = genesis_vault_args(config.vaults_verbosity, genesis_dir.as_str());
    match env.launch_vault(&bin, &g_args) {
        Ok(_) => {},
        Err(e) => {
            proof {
                assert(env.trace().take(t0.len() as int) =~= t0);
                assert(env.trace().skip(t0.len() as int) =~= seq![
                    genesis_launch_effect(*config, bin@, false),
                ]);
                assert(genesis_fail_outcome(
                    *config,
                    windows,
                    bin@,
                    env.trace().skip(t0.len() as int),
                ));
            }
            return Err(e);
        },
    }
    env.sleep_secs(config.interval);
    let log_path = genesis_log_path(config.vaults_dir.as_str());
    let content = match env.read_log_file(&log_path) {
        Ok(c) => c,
        Err(e) => {
            proof {
                assert(env.trace().take(t0.len() as int) =~= t0);
                assert(env.trace().skip(t0.len() as int) =~= scrape_prefix(*config, bin@, None));
                assert(io_fail_outcome(*config, windows, bin@, env.trace().skip(t0.len() as int)));
            }
            return Err(e);
        },
    };
    let contact = match grep_connection_info(content.as_str()) {
        Ok(s) => s,
        Err(e) => {
            proof {
                assert(env.trace().take(t0.len() as int) =~= t0);
                assert(env.trace().skip(t0.len() as int) =~= scrape_prefix(
                    *config,
                    bin@,
                    Some(content@),
                ));
                assert(notfound_outcome(
                    *config,
                    windows,
                    bin@,
                    content@,
                    env.trace().skip(t0.len() as int),
                ));
            }
            return Err(e);
        },
    };
    proof {
        assert(contact@ == contact_of(content@));
    }
    let ghost base = t0 + scrape_prefix(*config, bin@, Some(content@));
    proof {
        assert(env.trace() =~= base + followers_trace(*config, bin@, contact_of(content@), 1));
    }
    let num = config.num_vaults;
    let mut i: u16 = 2;
    while i <= num as u16
        invariant
            2 <= i,
            i == 2 || i <= num as u16 + 1,
            env.trace() == base + followers_trace(*config, bin@, contact_of(content@), i as int
                - 1),
            env.windows() == old(env).windows(),
        decreases num as u16 + 1 - i,
    {
        let dir = follower_vault_dir(config.vaults_dir.as_str(), i as u8);
        let f_args = follower_vault_args(config.vaults_verbosity, dir.as_str(), contact.as_str());
        let ghost before = env.trace();
        match env.launch_vault(&bin, &f_args) {
            Ok(_) => {},
            Err(e) => {
                proof {
                    assert(env.trace().take(t0.len() as int) =~= t0);
                    assert(env.trace().skip(t0.len() as int) =~= scrape_prefix(
                        *config,
                        bin@,
                        Some(content@),
                    ) + followers_trace(*config, bin@, contact_of(content@), i as int - 1) + seq![
                        follower_launch_effect(*config, bin@, contact_of(content@), i as int, false),
                    ]);
                    assert(follower_fail_outcome(
                        *config,
                        windows,
                        bin@,
                        content@,
                        i as int,
                        env.trace().skip(t0.len() as int),
                    ));
                }
                return Err(e);
            },
        }
        env.sleep_secs(config.interval);
        proof {
            assert(followers_trace(*config, bin@, contact_of(content@), i as int)
                == followers_trace(*config, bin@, contact_of(content@), i as int - 1) + seq![
                follower_launch_effect(*config, bin@, contact_of(content@), i as int, true),
                Effect::Sleep { secs: config.interval },
            ]);
            assert(env.trace() =~= base + followers_trace(
                *config,
                bin@,
                contact_of(content@),
                i as int,
            ));
        }
        i = i + 1;
    }
    proof {
        assert(env.trace().take(t0.len() as int) =~= t0);
        assert(env.trace().skip(t0.len() as int) =~= scrape_prefix(*config, bin@, Some(content@))
            + followers_trace(*config, bin@, contact_of(content@), num as int));
        assert(ok_outcome(*config, windows, bin@, content@, env.trace().skip(t0.len() as int)));
    }
    Ok(())
}

} // verus!
