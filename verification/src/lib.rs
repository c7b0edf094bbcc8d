//! A local test-network bootstrapper: launches a configurable number of
//! vault worker processes, wiring the genesis instance's contact
//! information into every follower's startup arguments.

use vstd::prelude::*;

pub mod digits;
pub mod environment;
pub mod errors;
pub mod laws;
pub mod orchestrator;
pub mod paths;
pub mod scrape;
pub mod vault_args;

pub use errors::Error;
pub use orchestrator::Config;
pub use orchestrator::run;

verus! {

/// One `v` per verbosity level, preceded by a single `-`; e.g. level 3
/// is the token `-vvv`.
pub open spec fn verbosity_flag(level: nat) -> Seq<char>
    decreases level,
{
    if level == 0 {
        seq!['-']
    } else {
        verbosity_flag((level - 1) as nat).push('v')
    }
}

} // verus!
