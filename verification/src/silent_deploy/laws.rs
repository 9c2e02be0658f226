//! Which arguments ask for a deployment without output.
#[allow(unused_imports)]
use super::asks_for_silent_deployment;
use vstd::prelude::*;

verus! {

/// The two arguments are taken in either order, and nothing else with them or in their
/// place.
pub proof fn law_order_of_arguments_does_not_matter(args: Seq<String>)
    ensures
        asks_for_silent_deployment(args) <==> args.len() == 2 && ((args[0]@ == "--deploy"@
            && args[1]@ == "--silent"@) || (args[0]@ == "--silent"@ && args[1]@ == "--deploy"@)),
{
    reveal_strlit("--deploy");
    reveal_strlit("--silent");
    assert("--deploy"@[2] == 'd');
    assert("--silent"@[2] == 's');
    if args.len() == 2 {
        assert(args[0]@ == args[0]@ && args[1]@ == args[1]@);
    }
}

} // verus!
