//! Which themes are tried for a name.
#[allow(unused_imports)]
use super::{candidates_for, theme_name, ThemeFactory};
use vstd::prelude::*;

verus! {

/// No theme is tried twice, and the one that shows nothing only where it is asked for, and
/// then alone; a name that is not known leads to the newest theme first.
pub proof fn law_each_theme_is_tried_once(preferred: Seq<char>)
    ensures
        candidates_for(preferred).no_duplicates(),
        candidates_for(preferred).contains(ThemeFactory::Void) <==> preferred == "void"@,
        preferred == "void"@ ==> candidates_for(preferred).len() == 1,
        preferred != "void"@ ==> candidates_for(preferred).len() == 3,
        (forall|theme: ThemeFactory| #[trigger] theme_name(theme) != preferred)
            ==> candidates_for(preferred)[0] == ThemeFactory::Eleven,
{
    if preferred == "void"@ {
        assert(candidates_for(preferred)[0] == ThemeFactory::Void);
        assert(theme_name(ThemeFactory::Void) == preferred);
    }
    if preferred == "ten"@ {
        assert(theme_name(ThemeFactory::Ten) == preferred);
    }
    if preferred == "abc"@ {
        assert(theme_name(ThemeFactory::Abc) == preferred);
    }
}

/// The other themes keep the order of their age, whichever is preferred.
pub proof fn law_fallbacks_keep_their_order(preferred: Seq<char>)
    requires
        preferred != "void"@,
    ensures
        candidates_for(preferred)[0] != ThemeFactory::Eleven ==> candidates_for(preferred)[1]
            == ThemeFactory::Eleven,
        candidates_for(preferred)[0] == ThemeFactory::Eleven ==> candidates_for(preferred)[1]
            == ThemeFactory::Ten,
        candidates_for(preferred)[0] != ThemeFactory::Abc ==> candidates_for(preferred)[2]
            == ThemeFactory::Abc,
{
}

/// Themes are told apart by their names.
pub proof fn law_names_tell_themes_apart(a: ThemeFactory, b: ThemeFactory)
    ensures
        theme_name(a) == theme_name(b) ==> a == b,
{
    super::lemma_names_differ();
}

} // verus!
