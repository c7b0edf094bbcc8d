//! The error taxonomy of the bootstrapper. Every error is terminal to a
//! run — there is no retry or partial-completion reporting — and each is
//! converted to a descriptive string carrying the operation and the
//! relevant path and arguments.

use vstd::prelude::*;

use crate::vault_args::strings_view;

verus! {

/// Why a run of the bootstrapper stopped early.
#[derive(Debug)]
pub enum Error {
    /// The default location of the vault executable could not be built
    /// because the user's home directory could not be determined.
    Resolution,
    /// Spawning a vault process failed; carries the binary path and the
    /// argument list that were handed to the spawn call, and the
    /// operating system's description of the failure.
    Launch { bin: String, args: Vec<String>, detail: String },
    /// The genesis vault's log file could not be read; carries its path
    /// and the operating system's description of the failure.
    Io { path: String, detail: String },
    /// The genesis vault's log was read, but no line of it carried the
    /// contact information.
    NotFound,
}

/// An argument as it appears in a message: wrapped in double quotes.
pub open spec fn quoted(a: Seq<char>) -> Seq<char> {
    seq!['"'] + a + seq!['"']
}

/// An argument list as it appears in a message: each argument quoted,
/// separated by comma and space.
pub open spec fn args_listing(args: Seq<Seq<char>>) -> Seq<char>
    decreases args.len(),
{
    if args.len() == 0 {
        Seq::empty()
    } else if args.len() == 1 {
        quoted(args[0])
    } else {
        args_listing(args.drop_last()) + ", "@ + quoted(args.last())
    }
}

/// The full text of each error's message.
pub open spec fn message_of(e: Error) -> Seq<char> {
    match e {
        Error::Resolution => "Failed to obtain user's home path"@,
        Error::Launch { bin, args, detail } => "Failed to run '"@ + bin@ + "' with args '["@
            + args_listing(strings_view(args@)) + "]': "@ + detail@,
        Error::Io { path: _, detail } => "Failed to obtain the contact info of the genesis vault: "@
            + detail@,
        Error::NotFound => "Failed to find the contact info of the genesis vault"@,
    }
}

impl Error {
    /// The error's descriptive message, in place of `Display`: the
    /// operation that failed, together with the offending path and
    /// full argument list for a spawn failure, and the
    /// operating-system detail for spawn and read failures. The text
    /// is `message_of` exactly.
    pub fn message(&self) -> (m: String)
        ensures
            m@ == message_of(*self),
    {
        match self {
            Error::Resolution => String::from_str("Failed to obtain user's home path"),
            Error::NotFound => String::from_str(
                "Failed to find the contact info of the genesis vault",
            ),
            Error::Io { path: _, detail } => {
                let mut m = String::from_str(
                    "Failed to obtain the contact info of the genesis vault: ",
                );
                m.append(detail.as_str());
                m
            },
            Error::Launch { bin, args, detail } => {
                let mut m = String::from_str("Failed to run '");
                m.append(bin.as_str());
                m.append("' with args '[");
                let ghost head = "Failed to run '"@ + bin@ + "' with args '["@;
                proof {
                    assert(m@ =~= head + args_listing(strings_view(args@).take(0)));
                }
                let mut k: usize = 0;
                while k < args.len()
                    invariant
                        k <= args@.len(),
                        m@ == head + args_listing(strings_view(args@).take(k as int)),
                    decreases args@.len() - k,
                {
                    if k > 0 {
                        m.append(", ");
                    }
                    m.append("\"");
                    m.append(args[k].as_str());
                    m.append("\"");
                    proof {
                        reveal_strlit(", ");
                        reveal_strlit("\"");
                        let sv = strings_view(args@);
                        assert(sv.take(k as int + 1).drop_last() =~= sv.take(k as int));
                        assert(sv.take(k as int + 1).last() == args@[k as int]@);
                        assert(m@ =~= head + args_listing(sv.take(k as int + 1)));
                    }
                    k = k + 1;
                }
                m.append("]': ");
                m.append(detail.as_str());
                proof {
                    assert(strings_view(args@).take(args@.len() as int) =~= strings_view(args@));
                    assert(m@ =~= message_of(*self));
                }
                m
            },
        }
    }
}

} // verus!
