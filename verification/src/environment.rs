//! The capability interface the orchestrator runs against, and a
//! scripted implementation of it.
//!
//! Every operating-system effect of a run — spawning a vault process,
//! sleeping, reading the genesis log — goes through a `VaultEnv`. The
//! trait records each effect in a ghost trace, so the orchestrator's
//! contract can speak about the exact sequence of effects a run
//! performs. Spawned processes are fire-and-forget: a launch effect
//! carries no handle, only the attempt and whether the spawn call
//! succeeded.

use vstd::prelude::*;

use crate::errors::Error;
use crate::vault_args::strings_view;

verus! {

/// One operating-system effect of a run.
pub enum Effect {
    /// A spawn attempt of the vault binary with the given argument
    /// list; `ok` says whether the spawn call succeeded.
    Launch { bin: Seq<char>, args: Seq<Seq<char>>, ok: bool },
    /// A blocking wait of the given number of seconds.
    Sleep { secs: u64 },
    /// A read of the file at the given path; `content` is its text, or
    /// `None` when the read failed.
    Read { path: Seq<char>, content: Option<Seq<char>> },
}

/// Whether an effect is a launch attempt.
pub open spec fn is_launch(e: Effect) -> bool {
    e is Launch
}

/// The binary path of a launch effect.
pub open spec fn launch_bin(e: Effect) -> Seq<char> {
    match e {
        Effect::Launch { bin, .. } => bin,
        _ => Seq::empty(),
    }
}

/// The argument list of a launch effect.
pub open spec fn launch_args(e: Effect) -> Seq<Seq<char>> {
    match e {
        Effect::Launch { args, .. } => args,
        _ => Seq::empty(),
    }
}

/// Whether a launch effect's spawn call succeeded.
pub open spec fn launch_ok(e: Effect) -> bool {
    match e {
        Effect::Launch { ok, .. } => ok,
        _ => false,
    }
}

/// The seconds of a sleep effect, and zero for any other effect.
pub open spec fn sleep_secs_of(e: Effect) -> int {
    match e {
        Effect::Sleep { secs } => secs as int,
        _ => 0,
    }
}

/// The content a read effect returned.
pub open spec fn read_content(e: Effect) -> Option<Seq<char>> {
    match e {
        Effect::Read { content, .. } => content,
        _ => None,
    }
}

/// The environment a run performs its effects against: the operating
/// system in the real program, a script in tests. Each method appends
/// exactly one effect to the trace; what an effect returns (whether a
/// spawn succeeds, what a file holds) is the environment's to decide.
pub trait VaultEnv: Sized {
    /// The effects performed so far, oldest first.
    spec fn trace(&self) -> Seq<Effect>;

    /// Whether this platform names executables the Windows way.
    spec fn windows(&self) -> bool;

    /// The platform flavour, for resolving the executable name.
    fn is_windows(&self) -> (r: bool)
        ensures
            r == self.windows(),
    ;

    /// Attempts to spawn the vault binary with the given arguments,
    /// detached, without waiting on it. A failure carries the
    /// offending path and argument list.
    fn launch_vault(&mut self, bin: &String, args: &Vec<String>) -> (r: Result<(), Error>)
        ensures
            final(self).trace() == old(self).trace().push(
                Effect::Launch { bin: bin@, args: strings_view(args@), ok: r is Ok },
            ),
            final(self).windows() == old(self).windows(),
            r matches Err(e) ==> e matches Error::Launch { bin: ebin, args: eargs, detail: _ }
                && ebin@ == bin@ && strings_view(eargs@) == strings_view(args@),
    ;

    /// Blocks for the given number of seconds.
    fn sleep_secs(&mut self, secs: u64)
        ensures
            final(self).trace() == old(self).trace().push(Effect::Sleep { secs }),
            final(self).windows() == old(self).windows(),
    ;

    /// Reads the whole file at the given path as text. A failure
    /// carries the offending path.
    fn read_log_file(&mut self, path: &String) -> (r: Result<String, Error>)
        ensures
            final(self).trace() == old(self).trace().push(
                Effect::Read {
                    path: path@,
                    content: match r {
                        Ok(c) => Some(c@),
                        Err(_) => None,
                    },
                },
            ),
            final(self).windows() == old(self).windows(),
            r matches Err(e) ==> e matches Error::Io { path: epath, detail: _ } && epath@
                == path@,
    ;
}

/// An executable record of one effect, as a scripted environment keeps
/// it for inspection.
pub enum EffectRec {
    Launch { bin: String, args: Vec<String>, ok: bool },
    Sleep { secs: u64 },
    Read { path: String, content: Option<String> },
}

/// The ghost effect an executable record stands for.
pub open spec fn effect_view(e: EffectRec) -> Effect {
    match e {
        EffectRec::Launch { bin, args, ok } => Effect::Launch {
            bin: bin@,
            args: strings_view(args@),
            ok,
        },
        EffectRec::Sleep { secs } => Effect::Sleep { secs },
        EffectRec::Read { path, content } => Effect::Read {
            path: path@,
            content: match content {
                Some(c) => Some(c@),
                None => None,
            },
        },
    }
}

/// Copies a list of argument strings.
fn clone_strings(v: &Vec<String>) -> (r: Vec<String>)
    ensures
        r@.len() == v@.len(),
        forall|k: int| 0 <= k < v@.len() ==> r@[k]@ == v@[k]@,
{
    let mut r: Vec<String> = Vec::new();
    let mut k: usize = 0;
    while k < v.len()
        invariant
            k <= v@.len(),
            r@.len() == k,
            forall|j: int| 0 <= j < k ==> r@[j]@ == v@[j]@,
        decreases v@.len() - k,
    {
        r.push(v[k].clone());
        k = k + 1;
    }
    r
}

/// An environment that performs no real effect: spawn and read
/// outcomes are taken from scripts, and every effect is recorded for
/// inspection. Tests drive the orchestrator with it.
pub struct ScriptedEnv {
    /// Platform flavour to report.
    pub windows_flavour: bool,
    /// Outcome of each coming launch, front first; an exhausted script
    /// launches successfully.
    pub launch_script: Vec<bool>,
    /// Content of each coming file read, front first; an exhausted
    /// script fails the read.
    pub read_script: Vec<Option<String>>,
    /// Every effect performed, oldest first.
    pub events: Vec<EffectRec>,
}

impl ScriptedEnv {
    /// A scripted environment with the given scripts and an empty
    /// trace.
    pub fn new(windows_flavour: bool, launch_script: Vec<bool>, read_script: Vec<Option<String>>) -> (r:
        ScriptedEnv)
        ensures
            r.trace() == Seq::<Effect>::empty(),
            r.windows() == windows_flavour,
    {
        let r = ScriptedEnv { windows_flavour, launch_script, read_script, events: Vec::new() };
        proof {
            assert(r.trace() =~= Seq::<Effect>::empty());
        }
        r
    }
}

impl VaultEnv for ScriptedEnv {
    open spec fn trace(&self) -> Seq<Effect> {
        self.events@.map_values(|e: EffectRec| effect_view(e))
    }

    open spec fn windows(&self) -> bool {
        self.windows_flavour
    }

    fn is_windows(&self) -> (r: bool) {
        self.windows_flavour
    }

    fn launch_vault(&mut self, bin: &String, args: &Vec<String>) -> (r: Result<(), Error>)
        ensures
            r is Ok == (old(self).launch_script@.len() == 0 || old(self).launch_script@[0]),
            final(self).launch_script@ == if old(self).launch_script@.len() == 0 {
                old(self).launch_script@
            } else {
                old(self).launch_script@.skip(1)
            },
            final(self).read_script == old(self).read_script,
    {
        let ok = if self.launch_script.len() > 0 {
            self.launch_script.remove(0)
        } else {
            true
        };
        let args_copy = clone_strings(args);
        proof {
            assert(strings_view(args_copy@) =~= strings_view(args@));
        }
        self.events.push(EffectRec::Launch { bin: bin.clone(), args: args_copy, ok });
        proof {
            assert(self.trace() =~~= old(self).trace().push(
                Effect::Launch { bin: bin@, args: strings_view(args@), ok },
            ));
        }
        if ok {
            Ok(())
        } else {
            let err_args = clone_strings(args);
            proof {
                assert(strings_view(err_args@) =~= strings_view(args@));
            }
            Err(
                Error::Launch {
                    bin: bin.clone(),
                    args: err_args,
                    detail: String::from_str("the script refused the spawn"),
                },
            )
        }
    }

    fn sleep_secs(&mut self, secs: u64)
        ensures
            final(self).launch_script == old(self).launch_script,
            final(self).read_script == old(self).read_script,
    {
        self.events.push(EffectRec::Sleep { secs });
        proof {
            assert(self.trace() =~~= old(self).trace().push(Effect::Sleep { secs }));
        }
    }

    fn read_log_file(&mut self, path: &String) -> (r: Result<String, Error>)
        ensures
            r is Ok == (old(self).read_script@.len() > 0 && old(self).read_script@[0] is Some),
            r matches Ok(c) ==> old(self).read_script@[0] matches Some(s) && c@ == s@,
            final(self).read_script@ == if old(self).read_script@.len() == 0 {
                old(self).read_script@
            } else {
                old(self).read_script@.skip(1)
            },
            final(self).launch_script == old(self).launch_script,
    {
        let outcome = if self.read_script.len() > 0 {
            self.read_script.remove(0)
        } else {
            None
        };
        match outcome {
            Some(content) => {
                self.events.push(
                    EffectRec::Read { path: path.clone(), content: Some(content.clone()) },
                );
                proof {
                    assert(self.trace() =~~= old(self).trace().push(
                        Effect::Read { path: path@, content: Some(content@) },
                    ));
                }
                Ok(content)
            },
            None => {
                self.events.push(EffectRec::Read { path: path.clone(), content: None });
                proof {
                    assert(self.trace() =~~= old(self).trace().push(
                        Effect::Read { path: path@, content: None },
                    ));
                }
                Err(
                    Error::Io {
                        path: path.clone(),
                        detail: String::from_str("the script refused the read"),
                    },
                )
            },
        }
    }
}

} // verus!
