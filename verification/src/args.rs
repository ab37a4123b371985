//! The flags of the command line.

use crate::annotation::FlakyPolicy;
use crate::text::{same_text, texts};
use vstd::prelude::*;

verus! {

/// What the command line asks for.
#[derive(Clone, Copy, Debug, PartialEq, Eq, Structural)]
pub enum Invocation {
    /// Check the annotations, under this policy for flaky code.
    Check(FlakyPolicy),
    /// Print the version, and nothing else.
    Version,
    /// The flag at this position is not known.
    UnknownFlag(usize),
}

/// The policy that a flag selects, if it is one of the three policy flags.
pub open spec fn flag_policy(flag: Seq<char>) -> Option<FlakyPolicy> {
    if flag == "--flaky=not-tested"@ {
        Some(FlakyPolicy::NotTested)
    } else if flag == "--flaky=maybe-tested"@ {
        Some(FlakyPolicy::MaybeTested)
    } else if flag == "--flaky=tested"@ {
        Some(FlakyPolicy::Tested)
    } else {
        None
    }
}

/// What is asked for after one more flag. Once the version is asked for, or
/// a flag is not known, later flags are not looked at.
pub open spec fn with_flag(so_far: Invocation, index: int, flag: Seq<char>) -> Invocation {
    match so_far {
        Invocation::Check(_) => if flag == "--version"@ {
            Invocation::Version
        } else {
            match flag_policy(flag) {
                Some(policy) => Invocation::Check(policy),
                None => Invocation::UnknownFlag(index as usize),
            }
        },
        _ => so_far,
    }
}

/// What the flags ask for, read from the first to the last. Without a
/// policy flag, flaky code is maybe tested; of several policy flags the last
/// counts.
pub open spec fn invocation(flags: Seq<Seq<char>>) -> Invocation
    decreases flags.len(),
{
    if flags.len() == 0 {
        Invocation::Check(FlakyPolicy::MaybeTested)
    } else {
        with_flag(invocation(flags.drop_last()), flags.len() - 1, flags.last())
    }
}

/// Reads one flag.
pub fn read_flag(so_far: Invocation, index: usize, flag: &str) -> (next: Invocation)
    ensures
        next == with_flag(so_far, index as int, flag@),
{
    match so_far {
        Invocation::Check(_) => {
            if same_text(flag, "--version") {
                Invocation::Version
            } else if same_text(flag, "--flaky=not-tested") {
                Invocation::Check(FlakyPolicy::NotTested)
            } else if same_text(flag, "--flaky=maybe-tested") {
                Invocation::Check(FlakyPolicy::MaybeTested)
            } else if same_text(flag, "--flaky=tested") {
                Invocation::Check(FlakyPolicy::Tested)
            } else {
                Invocation::UnknownFlag(index)
            }
        },
        _ => so_far,
    }
}

/// Reads the flags of the command line: what follows the name of the
/// program and that of the subcommand.
pub fn process_args(flags: &Vec<String>) -> (asked: Invocation)
    ensures
        asked == invocation(texts(flags@)),
{
    let ghost all = texts(flags@);
    let mut asked = Invocation::Check(FlakyPolicy::default());
    let mut index: usize = 0;
    while index < flags.len()
        invariant
            index <= flags.len(),
            all == texts(flags@),
            asked == invocation(all.take(index as int)),
        decreases flags.len() - index,
    {
        proof {
            assert(all.take(index + 1).drop_last() == all.take(index as int));
            assert(all.take(index + 1).last() == flags@[index as int]@);
        }
        asked = read_flag(asked, index, flags[index].as_str());
        index += 1;
    }
    assert(all.take(index as int) == all);
    asked
}

} // verus!
