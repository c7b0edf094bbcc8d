//! Laws of the launch sequence, stated over the effect trace a run
//! appends to its environment (see `run_post`).

use vstd::prelude::*;

use crate::digits::lemma_spec_decimal_len;
use crate::environment::Effect;
use crate::environment::is_launch;
use crate::environment::launch_args;
use crate::environment::launch_bin;
use crate::environment::launch_ok;
use crate::environment::read_content;
use crate::environment::sleep_secs_of;
use crate::errors::Error;
use crate::orchestrator::Config;
use crate::orchestrator::contact_of;
use crate::orchestrator::follower_fail_outcome;
use crate::orchestrator::genesis_fail_outcome;
use crate::orchestrator::io_fail_outcome;
use crate::orchestrator::notfound_outcome;
use crate::orchestrator::ok_outcome;
use crate::orchestrator::followers_trace;
use crate::orchestrator::follower_launch_effect;
use crate::orchestrator::genesis_launch_effect;
use crate::orchestrator::run_post;
use crate::orchestrator::scrape_prefix;
use crate::paths::follower_dir_spec;
use crate::scrape::lines_of;
use crate::scrape::scrape_lines;
use crate::vault_args::common_args_spec;
use crate::vault_args::follower_args_spec;
use crate::vault_args::lemma_verbosity_flag_shape;
use crate::vault_args::genesis_args_spec;
use crate::vault_args::strings_view;
use crate::verbosity_flag;

verus! {

/// How many launch attempts a trace holds.
pub open spec fn count_launches(t: Seq<Effect>) -> int
    decreases t.len(),
{
    if t.len() == 0 {
        0
    } else {
        count_launches(t.drop_last()) + if is_launch(t.last()) {
            1int
        } else {
            0int
        }
    }
}

/// The total seconds a trace spends sleeping.
pub open spec fn total_sleep(t: Seq<Effect>) -> int
    decreases t.len(),
{
    if t.len() == 0 {
        0
    } else {
        total_sleep(t.drop_last()) + sleep_secs_of(t.last())
    }
}

/// The text a read effect returned, where it returned one.
pub open spec fn read_text(e: Effect) -> Seq<char> {
    match read_content(e) {
        Some(c) => c,
        None => Seq::empty(),
    }
}

proof fn lemma_counts_concat(a: Seq<Effect>, b: Seq<Effect>)
    ensures
        count_launches(a + b) == count_launches(a) + count_launches(b),
        total_sleep(a + b) == total_sleep(a) + total_sleep(b),
    decreases b.len(),
{
    if b.len() == 0 {
        assert(a + b =~= a);
    } else {
        assert((a + b).drop_last() =~= a + b.drop_last());
        assert((a + b).last() == b.last());
        lemma_counts_concat(a, b.drop_last());
    }
}

proof fn lemma_counts_pair(a: Effect, b: Effect)
    ensures
        count_launches(seq![a, b]) == (if is_launch(a) {
            1int
        } else {
            0int
        }) + (if is_launch(b) {
            1int
        } else {
            0int
        }),
        total_sleep(seq![a, b]) == sleep_secs_of(a) + sleep_secs_of(b),
{
    let e = Seq::<Effect>::empty();
    let sa = seq![a];
    let sab = seq![a, b];
    assert(sab.drop_last() =~= sa);
    assert(sa.drop_last() =~= e);
    assert(sab.last() == b);
    assert(sa.last() == a);
    assert(count_launches(e) == 0);
    assert(total_sleep(e) == 0);
    assert(count_launches(sa) == if is_launch(a) {
        1int
    } else {
        0int
    });
    assert(total_sleep(sa) == sleep_secs_of(a));
}

proof fn lemma_counts_prefix(c: Config, bin: Seq<char>, content: Option<Seq<char>>)
    ensures
        scrape_prefix(c, bin, content).len() == 3,
        count_launches(scrape_prefix(c, bin, content)) == 1,
        total_sleep(scrape_prefix(c, bin, content)) == c.interval as int,
{
    let p = scrape_prefix(c, bin, content);
    assert(p.drop_last() =~= seq![
        genesis_launch_effect(c, bin, true),
        Effect::Sleep { secs: c.interval },
    ]);
    lemma_counts_pair(genesis_launch_effect(c, bin, true), Effect::Sleep { secs: c.interval });
    assert(p.last() == Effect::Read { path: crate::paths::genesis_log_path_spec(c.vaults_dir@), content });
}

/// The shape of the follower part of a trace: alternating launch
/// attempts (indices 2 through `n`, in order, each successful) and
/// waits of the configured interval.
pub proof fn lemma_followers_trace_shape(c: Config, bin: Seq<char>, contact: Seq<char>, n: int)
    ensures
        followers_trace(c, bin, contact, n).len() == if n < 2 {
            0int
        } else {
            2 * (n - 1)
        },
        count_launches(followers_trace(c, bin, contact, n)) == if n < 2 {
            0int
        } else {
            n - 1
        },
        total_sleep(followers_trace(c, bin, contact, n)) == if n < 2 {
            0int
        } else {
            (n - 1) * c.interval as int
        },
        forall|k: int|
            0 <= k < followers_trace(c, bin, contact, n).len() ==> #[trigger] followers_trace(
                c,
                bin,
                contact,
                n,
            )[k] == if k % 2 == 0 {
                follower_launch_effect(c, bin, contact, k / 2 + 2, true)
            } else {
                Effect::Sleep { secs: c.interval }
            },
    decreases n,
{
    if n >= 2 {
        let prev = followers_trace(c, bin, contact, n - 1);
        let pair = seq![
            follower_launch_effect(c, bin, contact, n, true),
            Effect::Sleep { secs: c.interval },
        ];
        lemma_followers_trace_shape(c, bin, contact, n - 1);
        lemma_counts_concat(prev, pair);
        lemma_counts_pair(
            follower_launch_effect(c, bin, contact, n, true),
            Effect::Sleep { secs: c.interval },
        );
        assert(followers_trace(c, bin, contact, n) == prev + pair);
        assert(total_sleep(pair) == c.interval as int);
        if n == 2 {
            assert(total_sleep(prev) == 0);
            assert(1 * c.interval as int == c.interval as int) by (nonlinear_arith);
            assert((n - 1) * c.interval as int == c.interval as int);
        } else {
            assert((n - 2) * c.interval as int + c.interval as int == (n - 1) * c.interval as int)
                by (nonlinear_arith);
        }
        assert forall|k: int| 0 <= k < followers_trace(c, bin, contact, n).len() implies #[trigger]
            followers_trace(c, bin, contact, n)[k] == if k % 2 == 0 {
            follower_launch_effect(c, bin, contact, k / 2 + 2, true)
        } else {
            Effect::Sleep { secs: c.interval }
        } by {
            if k < prev.len() {
                assert(followers_trace(c, bin, contact, n)[k] == prev[k]);
            } else {
                assert(followers_trace(c, bin, contact, n)[k] == pair[k - prev.len()]);
                assert(prev.len() == 2 * (n - 2));
                if k == prev.len() {
                    assert(k % 2 == 0 && k / 2 + 2 == n);
                } else {
                    assert(k % 2 == 1);
                }
            }
        }
    }
}

proof fn lemma_genesis_args_first(vv: nat, gdir: Seq<char>)
    ensures
        genesis_args_spec(vv, gdir).contains("--first"@),
{
    let ga = genesis_args_spec(vv, gdir);
    let base = common_args_spec(vv).len() as int;
    assert(ga[base] == "--first"@);
    assert(ga.contains("--first"@));
}

proof fn lemma_follower_args_no_first(vv: nat, dir: Seq<char>, contact: Seq<char>)
    requires
        dir.len() >= 8,
        contact.len() >= 1,
        contact[0] == '[',
    ensures
        !follower_args_spec(vv, dir, contact).contains("--first"@),
{
    reveal_strlit("--first");
    reveal_strlit("--root-dir");
    reveal_strlit("--log-dir");
    reveal_strlit("--hard-coded-contacts");
    lemma_verbosity_flag_shape(vv);
    let fa = follower_args_spec(vv, dir, contact);
    let f = "--first"@;
    if fa.contains(f) {
        let j = choose|j: int| 0 <= j < fa.len() && fa[j] == f;
        let base = common_args_spec(vv).len() as int;
        if j < base {
            assert(fa[j] == verbosity_flag(vv));
            assert(verbosity_flag(vv)[1] == 'v');
            assert(f[1] == '-');
            assert(false);
        } else if j == base {
            assert(fa[j] == "--root-dir"@);
            assert(f.len() == 7 && "--root-dir"@.len() == 10);
            assert(false);
        } else if j == base + 1 {
            assert(fa[j] == dir);
            assert(f.len() == 7);
            assert(false);
        } else if j == base + 2 {
            assert(fa[j] == "--log-dir"@);
            assert(f.len() == 7 && "--log-dir"@.len() == 9);
            assert(false);
        } else if j == base + 3 {
            assert(fa[j] == dir);
            assert(f.len() == 7);
            assert(false);
        } else if j == base + 4 {
            assert(fa[j] == "--hard-coded-contacts"@);
            assert(f.len() == 7 && "--hard-coded-contacts"@.len() == 21);
            assert(false);
        } else {
            assert(fa[j] == contact);
            assert(f[0] == '-');
            assert(false);
        }
    }
}

proof fn lemma_follower_dir_len(vaults_dir: Seq<char>, index: nat)
    ensures
        follower_dir_spec(vaults_dir, index).len() >= 13,
{
    reveal_strlit("/safe-vault-");
    lemma_spec_decimal_len(index);
}

proof fn lemma_contact_of_bracket(content: Seq<char>)
    requires
        scrape_lines(lines_of(content)) is Some,
    ensures
        contact_of(content).len() >= 2,
        contact_of(content)[0] == '[',
{
}

/// For every instance count, a run that completes makes exactly one
/// launch attempt per instance: one genesis plus one per follower,
/// i.e. `num_vaults` attempts when `num_vaults >= 1`, and exactly the
/// genesis attempt when `num_vaults == 0`.
pub proof fn lemma_launch_count(c: Config, windows: bool, t: Seq<Effect>, r: Result<(), Error>)
    requires
        run_post(c, windows, t, r),
        r is Ok,
    ensures
        count_launches(t) == if c.num_vaults == 0 {
            1int
        } else {
            c.num_vaults as int
        },
{
    let (bin, content) = choose|bin: Seq<char>, content: Seq<char>|
        ok_outcome(c, windows, bin, content, t);
    let ct = contact_of(content);
    let n = c.num_vaults as int;
    lemma_counts_prefix(c, bin, Some(content));
    lemma_followers_trace_shape(c, bin, ct, n);
    lemma_counts_concat(scrape_prefix(c, bin, Some(content)), followers_trace(c, bin, ct, n));
}

/// A run of `num_vaults` instances with interval `interval` sleeps at
/// least `interval * num_vaults` seconds in total: one wait after the
/// genesis launch and one after every follower launch.
pub proof fn lemma_total_wait(c: Config, windows: bool, t: Seq<Effect>, r: Result<(), Error>)
    requires
        run_post(c, windows, t, r),
        r is Ok,
    ensures
        total_sleep(t) >= c.interval as int * c.num_vaults as int,
{
    let (bin, content) = choose|bin: Seq<char>, content: Seq<char>|
        ok_outcome(c, windows, bin, content, t);
    let ct = contact_of(content);
    let n = c.num_vaults as int;
    lemma_counts_prefix(c, bin, Some(content));
    lemma_followers_trace_shape(c, bin, ct, n);
    lemma_counts_concat(scrape_prefix(c, bin, Some(content)), followers_trace(c, bin, ct, n));
    if n == 0 {
        assert(c.interval as int * 0 == 0);
    } else if n == 1 {
        assert(c.interval as int * 1 == c.interval as int);
    } else {
        assert(c.interval as int + (n - 1) * c.interval as int == c.interval as int * n)
            by (nonlinear_arith);
    }
}

/// The genesis launch attempt is the first effect of every trace that
/// holds one, and its argument list contains `--first`; no other
/// launch attempt's argument list contains `--first`.
pub proof fn lemma_first_flag(c: Config, windows: bool, t: Seq<Effect>, r: Result<(), Error>)
    requires
        run_post(c, windows, t, r),
        !(r matches Err(Error::Resolution)),
    ensures
        t.len() >= 1,
        is_launch(t[0]),
        launch_args(t[0]).contains("--first"@),
        forall|k: int|
            1 <= k < t.len() && is_launch(#[trigger] t[k]) ==> !launch_args(t[k]).contains(
                "--first"@,
            ),
{
    let vv = c.vaults_verbosity as nat;
    match r {
        Ok(_) => {
            let (bin, content) = choose|bin: Seq<char>, content: Seq<char>|
                ok_outcome(c, windows, bin, content, t);
            let ct = contact_of(content);
            let n = c.num_vaults as int;
            let p = scrape_prefix(c, bin, Some(content));
            let ft = followers_trace(c, bin, ct, n);
            lemma_counts_prefix(c, bin, Some(content));
            lemma_followers_trace_shape(c, bin, ct, n);
            lemma_genesis_args_first(vv, crate::paths::genesis_dir_spec(c.vaults_dir@));
            lemma_contact_of_bracket(content);
            assert(t[0] == p[0]);
            assert forall|k: int| 1 <= k < t.len() && is_launch(#[trigger] t[k]) implies
                !launch_args(t[k]).contains("--first"@) by {
                if k < 3 {
                    assert(t[k] == p[k]);
                    assert(!is_launch(t[k]));
                } else {
                    assert(t[k] == ft[k - 3]);
                    if (k - 3) % 2 == 0 {
                        let idx = (k - 3) / 2 + 2;
                        lemma_follower_dir_len(c.vaults_dir@, idx as nat);
                        lemma_follower_args_no_first(
                            vv,
                            follower_dir_spec(c.vaults_dir@, idx as nat),
                            ct,
                        );
                    } else {
                        assert(!is_launch(t[k]));
                    }
                }
            }
        },
        Err(e) => match e {
            Error::Resolution => {
                assert(false);
            },
            Error::Launch { .. } => {
                if exists|bin: Seq<char>| genesis_fail_outcome(c, windows, bin, t) {
                    let bin = choose|bin: Seq<char>| genesis_fail_outcome(c, windows, bin, t);
                    lemma_genesis_args_first(vv, crate::paths::genesis_dir_spec(c.vaults_dir@));
                    assert(t[0] == genesis_launch_effect(c, bin, false));
                } else {
                    let (bin, content, kf) = choose|bin: Seq<char>, content: Seq<char>, kf: int|
                        follower_fail_outcome(c, windows, bin, content, kf, t);
                    let ct = contact_of(content);
                    let p = scrape_prefix(c, bin, Some(content));
                    let ft = followers_trace(c, bin, ct, kf - 1);
                    lemma_counts_prefix(c, bin, Some(content));
                    lemma_followers_trace_shape(c, bin, ct, kf - 1);
                    lemma_genesis_args_first(vv, crate::paths::genesis_dir_spec(c.vaults_dir@));
                    lemma_contact_of_bracket(content);
                    assert(t[0] == p[0]);
                    assert forall|k: int| 1 <= k < t.len() && is_launch(#[trigger] t[k]) implies
                        !launch_args(t[k]).contains("--first"@) by {
                        if k < 3 {
                            assert(t[k] == p[k]);
                            assert(!is_launch(t[k]));
                        } else if k < 3 + ft.len() {
                            assert(t[k] == ft[k - 3]);
                            if (k - 3) % 2 == 0 {
                                let idx = (k - 3) / 2 + 2;
                                lemma_follower_dir_len(c.vaults_dir@, idx as nat);
                                lemma_follower_args_no_first(
                                    vv,
                                    follower_dir_spec(c.vaults_dir@, idx as nat),
                                    ct,
                                );
                            } else {
                                assert(!is_launch(t[k]));
                            }
                        } else {
                            assert(t[k] == follower_launch_effect(c, bin, ct, kf, false));
                            lemma_follower_dir_len(c.vaults_dir@, kf as nat);
                            lemma_follower_args_no_first(
                                vv,
                                follower_dir_spec(c.vaults_dir@, kf as nat),
                                ct,
                            );
                        }
                    }
                }
            },
            Error::Io { .. } => {
                let bin = choose|bin: Seq<char>| io_fail_outcome(c, windows, bin, t);
                let p = scrape_prefix(c, bin, None);
                lemma_counts_prefix(c, bin, None);
                lemma_genesis_args_first(vv, crate::paths::genesis_dir_spec(c.vaults_dir@));
                assert(t[0] == p[0]);
                assert forall|k: int| 1 <= k < t.len() && is_launch(#[trigger] t[k]) implies
                    !launch_args(t[k]).contains("--first"@) by {
                    assert(t[k] == p[k]);
                    assert(!is_launch(t[k]));
                }
            },
            Error::NotFound => {
                let (bin, content) = choose|bin: Seq<char>, content: Seq<char>|
                    notfound_outcome(c, windows, bin, content, t);
                let p = scrape_prefix(c, bin, Some(content));
                lemma_counts_prefix(c, bin, Some(content));
                lemma_genesis_args_first(vv, crate::paths::genesis_dir_spec(c.vaults_dir@));
                assert(t[0] == p[0]);
                assert forall|k: int| 1 <= k < t.len() && is_launch(#[trigger] t[k]) implies
                    !launch_args(t[k]).contains("--first"@) by {
                    assert(t[k] == p[k]);
                    assert(!is_launch(t[k]));
                }
            },
        },
    }
}

/// Every follower launch of a completed run carries the very same
/// `--hard-coded-contacts` value as its last argument, preceded by the
/// flag itself: the bracketed capture of the text that the genesis log
/// read (the third effect of the trace) returned.
pub proof fn lemma_same_contacts(c: Config, windows: bool, t: Seq<Effect>, r: Result<(), Error>)
    requires
        run_post(c, windows, t, r),
        r is Ok,
    ensures
        t.len() >= 3,
        read_content(t[2]) is Some,
        scrape_lines(lines_of(read_text(t[2]))) is Some,
        forall|k: int|
            3 <= k < t.len() && is_launch(#[trigger] t[k]) ==> launch_args(t[k]).len() >= 2
                && launch_args(t[k])[launch_args(t[k]).len() - 2] == "--hard-coded-contacts"@
                && launch_args(t[k]).last() == contact_of(read_text(t[2])),
{
    let (bin, content) = choose|bin: Seq<char>, content: Seq<char>|
        ok_outcome(c, windows, bin, content, t);
    let ct = contact_of(content);
    let n = c.num_vaults as int;
    let p = scrape_prefix(c, bin, Some(content));
    let ft = followers_trace(c, bin, ct, n);
    lemma_counts_prefix(c, bin, Some(content));
    lemma_followers_trace_shape(c, bin, ct, n);
    assert(t[2] == p[2]);
    assert(read_text(t[2]) == content);
    assert forall|k: int| 3 <= k < t.len() && is_launch(#[trigger] t[k]) implies launch_args(
        t[k],
    ).len() >= 2 && launch_args(t[k])[launch_args(t[k]).len() - 2] == "--hard-coded-contacts"@
        && launch_args(t[k]).last() == contact_of(read_text(t[2])) by {
        assert(t[k] == ft[k - 3]);
        if (k - 3) % 2 == 0 {
            let idx = (k - 3) / 2 + 2;
            let fa = follower_args_spec(
                c.vaults_verbosity as nat,
                follower_dir_spec(c.vaults_dir@, idx as nat),
                ct,
            );
            assert(launch_args(t[k]) == fa);
            assert(fa.len() == common_args_spec(c.vaults_verbosity as nat).len() + 6);
            assert(fa[fa.len() - 2] == "--hard-coded-contacts"@);
            assert(fa.last() == ct);
        } else {
            assert(!is_launch(t[k]));
        }
    }
}

/// The genesis-log read decides between the two scraping errors: a
/// failed read surfaces as the `Io` error and never as `NotFound`;
/// `NotFound` comes only when the log was read and no line of it
/// carried the marker.
pub proof fn lemma_read_failure_is_io(c: Config, windows: bool, t: Seq<Effect>, r: Result<
    (),
    Error,
>)
    requires
        run_post(c, windows, t, r),
    ensures
        r matches Err(Error::Io { .. }) ==> t.len() == 3 && t[2] is Read && read_content(t[2])
            is None,
        r matches Err(Error::NotFound) ==> t.len() == 3 && t[2] is Read && read_content(t[2])
            is Some && scrape_lines(lines_of(read_text(t[2]))) is None,
        t.len() >= 3 && t[2] is Read && read_content(t[2]) is None ==> r matches Err(
            Error::Io { .. },
        ),
{
    match r {
        Ok(_) => {
            let (bin, content) = choose|bin: Seq<char>, content: Seq<char>|
                ok_outcome(c, windows, bin, content, t);
            lemma_counts_prefix(c, bin, Some(content));
            lemma_followers_trace_shape(c, bin, contact_of(content), c.num_vaults as int);
            assert(t[2] == scrape_prefix(c, bin, Some(content))[2]);
        },
        Err(e) => match e {
            Error::Resolution => {
                assert(t.len() == 0);
            },
            Error::Launch { .. } => {
                if exists|bin: Seq<char>| genesis_fail_outcome(c, windows, bin, t) {
                    let bin = choose|bin: Seq<char>| genesis_fail_outcome(c, windows, bin, t);
                    assert(t.len() == 1);
                } else {
                    let (bin, content, kf) = choose|bin: Seq<char>, content: Seq<char>, kf: int|
                        follower_fail_outcome(c, windows, bin, content, kf, t);
                    lemma_counts_prefix(c, bin, Some(content));
                    lemma_followers_trace_shape(c, bin, contact_of(content), kf - 1);
                    assert(t[2] == scrape_prefix(c, bin, Some(content))[2]);
                }
            },
            Error::Io { .. } => {
                let bin = choose|bin: Seq<char>| io_fail_outcome(c, windows, bin, t);
                lemma_counts_prefix(c, bin, None);
                assert(t[2] == scrape_prefix(c, bin, None)[2]);
            },
            Error::NotFound => {
                let (bin, content) = choose|bin: Seq<char>, content: Seq<char>|
                    notfound_outcome(c, windows, bin, content, t);
                lemma_counts_prefix(c, bin, Some(content));
                assert(t[2] == scrape_prefix(c, bin, Some(content))[2]);
                assert(read_text(t[2]) == content);
            },
        },
    }
}

/// A launch failure terminates the run at that attempt: the failed
/// launch is the last effect of the trace — no later instance is
/// attempted — every earlier launch attempt had succeeded, and the
/// error names the failing attempt's own binary path and argument
/// list.
pub proof fn lemma_fail_stops(c: Config, windows: bool, t: Seq<Effect>, r: Result<(), Error>)
    requires
        run_post(c, windows, t, r),
        r matches Err(Error::Launch { .. }),
    ensures
        t.len() >= 1,
        is_launch(t.last()),
        !launch_ok(t.last()),
        forall|k: int|
            0 <= k < t.len() - 1 && is_launch(#[trigger] t[k]) ==> launch_ok(t[k]),
        r matches Err(Error::Launch { bin: eb, args: ea, detail: _ }) ==> eb@ == launch_bin(
            t.last(),
        ) && strings_view(ea@) == launch_args(t.last()),
{
    if exists|bin: Seq<char>| genesis_fail_outcome(c, windows, bin, t) {
        let bin = choose|bin: Seq<char>| genesis_fail_outcome(c, windows, bin, t);
        assert(t.last() == genesis_launch_effect(c, bin, false));
    } else {
        let (bin, content, kf) = choose|bin: Seq<char>, content: Seq<char>, kf: int|
            follower_fail_outcome(c, windows, bin, content, kf, t);
        let ct = contact_of(content);
        let p = scrape_prefix(c, bin, Some(content));
        let ft = followers_trace(c, bin, ct, kf - 1);
        lemma_counts_prefix(c, bin, Some(content));
        lemma_followers_trace_shape(c, bin, ct, kf - 1);
        assert(t.last() == follower_launch_effect(c, bin, ct, kf, false));
        assert forall|k: int| 0 <= k < t.len() - 1 && is_launch(#[trigger] t[k]) implies launch_ok(
            t[k],
        ) by {
            if k < 3 {
                assert(t[k] == p[k]);
            } else {
                assert(t[k] == ft[k - 3]);
            }
        }
    }
}

} // verus!
