//! Deploying without any output.
use crate::text::same_text;
use vstd::prelude::*;

pub mod laws;

verus! {

/// Whether a text is among the arguments.
pub open spec fn has_argument(args: Seq<String>, name: Seq<char>) -> bool {
    exists|i: int| 0 <= i < args.len() && (#[trigger] args[i])@ == name
}

/// Whether a text is among the arguments.
pub fn contains_argument(args: &Vec<String>, name: &str) -> (r: bool)
    ensures
        r == has_argument(args@, name@),
{
    let mut i: usize = 0;
    while i < args.len()
        invariant
            i <= args.len(),
            forall|k: int| 0 <= k < i ==> (#[trigger] args@[k])@ != name@,
        decreases args.len() - i,
    {
        if same_text(&args[i], name) {
            assert(args@[i as int]@ == name@);
            return true;
        }
        i += 1;
    }
    false
}

/// Whether the arguments ask for a plain deployment without output, and for nothing
/// else.
pub open spec fn asks_for_silent_deployment(args: Seq<String>) -> bool {
    args.len() == 2 && has_argument(args, "--deploy"@) && has_argument(args, "--silent"@)
}

/// Whether the arguments ask for a plain deployment without output, in either
/// order, and for nothing else.
pub fn valid_arguments(args: &Vec<String>) -> (r: bool)
    ensures
        r == asks_for_silent_deployment(args@),
{
    args.len() == 2 && contains_argument(args, "--deploy") && contains_argument(args, "--silent")
}

/// Whether a silent deployment succeeded: its process was started, and ended well.
pub fn run(status: Option<bool>) -> (r: bool)
    ensures
        r == (status == Some(true)),
{
    match status {
        Some(success) => success,
        None => false,
    }
}

} // verus!
