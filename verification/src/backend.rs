//! The built-in themes, and the order in which they are tried.
use crate::text::same_text;
use crate::theme_api::ThemeCapabilities;
use vstd::prelude::*;

pub mod laws;

verus! {

/// A built-in theme.
#[derive(Clone, Copy, Debug, PartialEq, Eq, Structural)]
pub enum ThemeFactory {
    Eleven,
    Ten,
    Abc,
    /// Shows nothing.
    Void,
}

/// The name that a theme is configured by.
pub open spec fn theme_name(theme: ThemeFactory) -> Seq<char> {
    match theme {
        ThemeFactory::Eleven => "eleven"@,
        ThemeFactory::Ten => "ten"@,
        ThemeFactory::Abc => "abc"@,
        ThemeFactory::Void => "void"@,
    }
}

impl ThemeFactory {
    /// The name that the theme is configured by.
    pub fn name(&self) -> (r: &'static str)
        ensures
            r@ == theme_name(*self),
    {
        match self {
            ThemeFactory::Eleven => "eleven",
            ThemeFactory::Ten => "ten",
            ThemeFactory::Abc => "abc",
            ThemeFactory::Void => "void",
        }
    }

    /// What the theme shows besides candidates: only the classic one shows the
    /// composition.
    pub fn capabilities(&self) -> (r: ThemeCapabilities)
        ensures
            r == (ThemeCapabilities {
                preedit: *self == ThemeFactory::Abc,
                resident: false,
                mode_indicator: false,
            }),
    {
        match self {
            ThemeFactory::Abc => ThemeCapabilities {
                preedit: true,
                resident: false,
                mode_indicator: false,
            },
            _ => ThemeCapabilities::candidates_only(),
        }
    }
}

/// The themes to try for a configured name: the one that shows nothing only by
/// itself; otherwise the named one first, and the others as they are listed.
pub open spec fn candidates_for(preferred: Seq<char>) -> Seq<ThemeFactory> {
    if preferred == "void"@ {
        seq![ThemeFactory::Void]
    } else if preferred == "ten"@ {
        seq![ThemeFactory::Ten, ThemeFactory::Eleven, ThemeFactory::Abc]
    } else if preferred == "abc"@ {
        seq![ThemeFactory::Abc, ThemeFactory::Eleven, ThemeFactory::Ten]
    } else {
        seq![ThemeFactory::Eleven, ThemeFactory::Ten, ThemeFactory::Abc]
    }
}

/// The names are told apart by their texts.
pub(crate) proof fn lemma_names_differ()
    ensures
        "void"@ != "ten"@,
        "void"@ != "abc"@,
        "void"@ != "eleven"@,
        "ten"@ != "abc"@,
        "ten"@ != "eleven"@,
        "abc"@ != "eleven"@,
{
    reveal_strlit("void");
    reveal_strlit("ten");
    reveal_strlit("abc");
    reveal_strlit("eleven");
    assert("ten"@[0] == 't');
    assert("abc"@[0] == 'a');
    assert("void"@.len() == 4);
    assert("eleven"@.len() == 6);
}

/// The themes to try for a configured name, in order.
pub fn theme_candidates(preferred: &str) -> (r: Vec<ThemeFactory>)
    ensures
        r@ == candidates_for(preferred@),
{
    let mut themes: Vec<ThemeFactory> = Vec::new();
    if same_text(preferred, "void") {
        themes.push(ThemeFactory::Void);
        assert(themes@ =~= candidates_for(preferred@));
        return themes;
    }
    // The named theme moves to the front; the others keep their order.
    let first: ThemeFactory = if same_text(preferred, "ten") {
        ThemeFactory::Ten
    } else if same_text(preferred, "abc") {
        ThemeFactory::Abc
    } else {
        ThemeFactory::Eleven
    };
    themes.push(first);
    if first != ThemeFactory::Eleven {
        themes.push(ThemeFactory::Eleven);
    }
    if first != ThemeFactory::Ten {
        themes.push(ThemeFactory::Ten);
    }
    if first != ThemeFactory::Abc {
        themes.push(ThemeFactory::Abc);
    }
    assert(themes@ =~= candidates_for(preferred@));
    themes
}

/// Whether a theme of that name is built in.
pub fn supports_theme(name: &str) -> (r: bool)
    ensures
        r == (name@ == "eleven"@ || name@ == "ten"@ || name@ == "abc"@ || name@ == "void"@),
{
    let themes: Vec<ThemeFactory> = theme_candidates(name);
    let mut i: usize = 0;
    while i < themes.len()
        invariant
            i <= themes.len(),
            themes@ == candidates_for(name@),
            forall|j: int| 0 <= j < i ==> theme_name(#[trigger] themes[j]) != name@,
        decreases themes.len() - i,
    {
        if same_text(themes[i].name(), name) {
            return true;
        }
        i += 1;
    }
    proof {
        lemma_names_differ();
        let s = candidates_for(name@);
        assert(themes@ == s);
        if name@ == "void"@ || name@ == "eleven"@ || name@ == "ten"@ || name@ == "abc"@ {
            assert(theme_name(themes[0]) == name@);
        }
    }
    false
}

/// Every built-in theme but the one that shows nothing stays as a fallback,
/// whichever is preferred; the preferred one is tried first.
pub proof fn law_preference_keeps_the_fallbacks(preferred: Seq<char>)
    requires
        preferred != "void"@,
    ensures
        candidates_for(preferred).to_multiset() == seq![
            ThemeFactory::Eleven,
            ThemeFactory::Ten,
            ThemeFactory::Abc,
        ].to_multiset(),
        preferred == "eleven"@ || preferred == "ten"@ || preferred == "abc"@ ==> theme_name(
            candidates_for(preferred)[0],
        ) == preferred,
{
    lemma_names_differ();
    broadcast use vstd::seq_lib::group_to_multiset_ensures;

    let plain = seq![ThemeFactory::Eleven, ThemeFactory::Ten, ThemeFactory::Abc];
    let empty = Seq::<ThemeFactory>::empty();
    assert(plain =~= empty.push(ThemeFactory::Eleven).push(ThemeFactory::Ten).push(
        ThemeFactory::Abc,
    ));
    if preferred == "ten"@ {
        assert(candidates_for(preferred) =~= empty.push(ThemeFactory::Ten).push(
            ThemeFactory::Eleven,
        ).push(ThemeFactory::Abc));
        assert(candidates_for(preferred).to_multiset() =~= plain.to_multiset());
    } else if preferred == "abc"@ {
        assert(candidates_for(preferred) =~= empty.push(ThemeFactory::Abc).push(
            ThemeFactory::Eleven,
        ).push(ThemeFactory::Ten));
        assert(candidates_for(preferred).to_multiset() =~= plain.to_multiset());
    }
}

} // verus!
