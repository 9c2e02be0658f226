//! Facts about filtered sequences that loops over lists rest on.
use vstd::prelude::*;

verus! {

/// Filtering one more element of a sequence appends it or leaves it out.
pub proof fn lemma_filter_take<A>(s: Seq<A>, keep: spec_fn(A) -> bool, i: int)
    requires
        0 <= i < s.len(),
    ensures
        s.take(i + 1).filter(keep) == (if keep(s[i]) {
            s.take(i).filter(keep).push(s[i])
        } else {
            s.take(i).filter(keep)
        }),
{
    reveal(Seq::filter);
    assert(s.take(i + 1).drop_last() =~= s.take(i));
    assert(s.take(i + 1).last() == s[i]);
}

/// A filtered sequence is no longer, holds only what is kept, and holds each
/// kept element of the whole.
pub proof fn lemma_filter_members<A>(s: Seq<A>, keep: spec_fn(A) -> bool)
    ensures
        s.filter(keep).len() <= s.len(),
        forall|i: int| 0 <= i < s.filter(keep).len() ==> keep(#[trigger] s.filter(keep)[i]),
        forall|i: int| 0 <= i < s.filter(keep).len() ==> s.contains(#[trigger] s.filter(keep)[i]),
        forall|i: int| 0 <= i < s.len() && keep(#[trigger] s[i]) ==> s.filter(keep).contains(s[i]),
    decreases s.len(),
{
    reveal(Seq::filter);
    if s.len() > 0 {
        let rest = s.drop_last();
        lemma_filter_members(rest, keep);
        let f = s.filter(keep);
        let g = rest.filter(keep);
        assert forall|i: int| 0 <= i < f.len() implies s.contains(#[trigger] f[i]) by {
            if i < g.len() {
                assert(f[i] == g[i]);
                let k = choose|k: int| 0 <= k < rest.len() && rest[k] == g[i];
                assert(s[k] == f[i]);
            } else {
                assert(f[i] == s[s.len() - 1]);
            }
        }
        assert forall|i: int| 0 <= i < s.len() && keep(#[trigger] s[i]) implies f.contains(
            s[i],
        ) by {
            if i < s.len() - 1 {
                assert(rest[i] == s[i]);
                let k = choose|k: int| 0 <= k < g.len() && g[k] == rest[i];
                assert(f[k] == s[i]);
            } else {
                assert(f[f.len() - 1] == s[i]);
            }
        }
    }
}

/// Elements of a filtered sequence stand in it in the order of the whole: a
/// relation between every earlier and later element is kept.
pub proof fn lemma_filter_pairwise<A>(
    s: Seq<A>,
    keep: spec_fn(A) -> bool,
    related: spec_fn(A, A) -> bool,
)
    requires
        forall|i: int, j: int| 0 <= i < j < s.len() ==> related(#[trigger] s[i], #[trigger] s[j]),
    ensures
        forall|i: int, j: int|
            0 <= i < j < s.filter(keep).len() ==> related(
                #[trigger] s.filter(keep)[i],
                #[trigger] s.filter(keep)[j],
            ),
    decreases s.len(),
{
    reveal(Seq::filter);
    if s.len() > 0 {
        let rest = s.drop_last();
        lemma_filter_pairwise(rest, keep, related);
        lemma_filter_members(rest, keep);
        let f = s.filter(keep);
        let g = rest.filter(keep);
        assert forall|i: int, j: int| 0 <= i < j < f.len() implies related(
            #[trigger] f[i],
            #[trigger] f[j],
        ) by {
            if j < g.len() {
                assert(f[i] == g[i] && f[j] == g[j]);
            } else {
                assert(f[i] == g[i]);
                let k = choose|k: int| 0 <= k < rest.len() && rest[k] == g[i];
                assert(s[k] == f[i]);
                assert(f[j] == s[s.len() - 1]);
            }
        }
    }
}

/// The first place whose element satisfies a predicate.
pub open spec fn first_index<A>(s: Seq<A>, p: spec_fn(A) -> bool) -> Option<int>
    decreases s.len(),
{
    if s.len() == 0 {
        None
    } else {
        match first_index(s.drop_last(), p) {
            Some(i) => Some(i),
            None => if p(s.last()) {
                Some(s.len() - 1)
            } else {
                None
            },
        }
    }
}

/// The first place is a place, its element satisfies the predicate, and no
/// earlier one does; where there is none, no element does.
pub proof fn lemma_first_index<A>(s: Seq<A>, p: spec_fn(A) -> bool)
    ensures
        match first_index(s, p) {
            Some(i) => 0 <= i < s.len() && p(s[i]) && forall|j: int|
                0 <= j < i ==> !p(#[trigger] s[j]),
            None => forall|j: int| 0 <= j < s.len() ==> !p(#[trigger] s[j]),
        },
    decreases s.len(),
{
    if s.len() > 0 {
        let rest = s.drop_last();
        lemma_first_index(rest, p);
        match first_index(rest, p) {
            Some(i) => {
                assert(rest[i] == s[i]);
                assert forall|j: int| 0 <= j < i implies !p(#[trigger] s[j]) by {
                    assert(rest[j] == s[j]);
                }
            },
            None => {
                assert forall|j: int| 0 <= j < s.len() - 1 implies !p(#[trigger] s[j]) by {
                    assert(rest[j] == s[j]);
                }
            },
        }
    }
}

/// A place whose element satisfies the predicate, with none before it, is the
/// first; where no element satisfies it, there is none.
pub proof fn lemma_first_index_is<A>(s: Seq<A>, p: spec_fn(A) -> bool, found: Option<int>)
    requires
        match found {
            Some(i) => 0 <= i < s.len() && p(s[i]) && forall|j: int|
                0 <= j < i ==> !p(#[trigger] s[j]),
            None => forall|j: int| 0 <= j < s.len() ==> !p(#[trigger] s[j]),
        },
    ensures
        first_index(s, p) == found,
{
    lemma_first_index(s, p);
    match (first_index(s, p), found) {
        (Some(a), Some(b)) => {
            if a < b {
                assert(!p(s[a]));
            } else if b < a {
                assert(!p(s[b]));
            }
        },
        (Some(a), None) => {
            assert(!p(s[a]));
        },
        (None, Some(b)) => {
            assert(!p(s[b]));
        },
        (None, None) => {},
    }
}

} // verus!
