//! What a connection keeps of the layouts that its hosts send, and when it may be given
//! up.
#[allow(unused_imports)]
use super::{
    layout_context, layouts_bounded, of_other_context, outlives, priority_of, retires_before,
    with_layout, InputPriority, InputRetireCandidate, InputState,
};
#[allow(unused_imports)]
use crate::list::lemma_filter_members;
#[allow(unused_imports)]
use crate::message::LayoutUpdate;
use vstd::prelude::*;

verus! {

/// The layout that arrives last is kept as it is, and is the last of the queue.
pub proof fn law_newest_layout_is_kept(layouts: Seq<LayoutUpdate>, update: LayoutUpdate)
    ensures
        with_layout(layouts, update).len() > 0,
        with_layout(layouts, update).last() == update,
{
}

/// While there is room, a layout takes the place of none but that of its own context; where
/// there is none, only the oldest leaves. Layouts that stay are as they were.
pub proof fn law_layouts_of_other_contexts_stay(
    layouts: Seq<LayoutUpdate>,
    update: LayoutUpdate,
    i: int,
)
    requires
        layouts_bounded(layouts),
        0 <= i < layouts.len(),
        layouts[i].token is Some,
        update.token is Some,
        layouts[i].token->0.context_id != update.token->0.context_id,
        layouts.len() < 32 || i > 0,
    ensures
        with_layout(layouts, update).contains(layouts[i]),
{
    let keep = of_other_context(layout_context(update));
    lemma_filter_members(layouts, keep);
    let others = layouts.filter(keep);
    assert(keep(layouts[i]));
    assert(others.contains(layouts[i]));
    let k = choose|k: int| 0 <= k < others.len() && others[k] == layouts[i];
    layouts.lemma_filter_len(keep);
    if others.len() >= 32 {
        lemma_all_kept(layouts, keep);
        assert(others == layouts);
        assert(with_layout(layouts, update)[i - 1] == layouts[i]);
    } else {
        assert(with_layout(layouts, update)[k] == layouts[i]);
    }
}

/// A filter that drops nothing keeps the list.
proof fn lemma_all_kept(s: Seq<LayoutUpdate>, keep: spec_fn(LayoutUpdate) -> bool)
    requires
        s.filter(keep).len() >= s.len(),
    ensures
        s.filter(keep) == s,
    decreases s.len(),
{
    reveal(Seq::filter);
    s.lemma_filter_len(keep);
    if s.len() > 0 {
        let rest = s.drop_last();
        rest.lemma_filter_len(keep);
        lemma_all_kept(rest, keep);
        assert(rest.push(s.last()) =~= s);
    } else {
        assert(s.filter(keep) =~= s);
    }
}

/// Of one context no two layouts wait, and never more than thirty-two wait.
pub proof fn law_one_layout_waits_per_context(
    layouts: Seq<LayoutUpdate>,
    i: int,
    j: int,
)
    requires
        layouts_bounded(layouts),
        0 <= i < j < layouts.len(),
        layouts[i].token is Some && layouts[j].token is Some,
    ensures
        layouts.len() <= 32,
        layouts[i].token->0.context_id != layouts[j].token->0.context_id,
{
}

/// Forgetting a context drops its layouts and those that name none, and no other.
pub proof fn law_forgetting_keeps_other_contexts(
    layouts: Seq<LayoutUpdate>,
    context: u64,
    update: LayoutUpdate,
)
    ensures
        layouts.filter(outlives(context)).contains(update) <==> layouts.contains(update) && (
        update.token matches Some(token) && token.context_id != context),
{
    lemma_filter_members(layouts, outlives(context));
    let kept = layouts.filter(outlives(context));
    if layouts.contains(update) && (update.token matches Some(token) && token.context_id
        != context) {
        let i = choose|i: int| 0 <= i < layouts.len() && layouts[i] == update;
        assert(outlives(context)(layouts[i]));
    }
    if kept.contains(update) {
        let k = choose|k: int| 0 <= k < kept.len() && kept[k] == update;
        assert(outlives(context)(kept[k]));
    }
}

/// A focused connection is given up after one that only composes, and that after one that
/// does neither; of two alike the one that has been quiet for longer goes first.
pub proof fn law_quiet_connections_go_first(
    a: InputState,
    b: InputState,
    last_a: u64,
    last_b: u64,
    transport_a: u64,
    transport_b: u64,
)
    ensures
        ({
            let first = InputRetireCandidate {
                priority: priority_of(a),
                last_request: last_a,
                transport: transport_a,
            };
            let second = InputRetireCandidate {
                priority: priority_of(b),
                last_request: last_b,
                transport: transport_b,
            };
            &&& !a.focused && b.focused ==> retires_before(first, second)
            &&& !a.focused && !a.composing && !b.focused && b.composing ==> retires_before(
                first,
                second,
            )
            &&& a.focused == b.focused && (a.focused || a.composing == b.composing) && last_a
                < last_b ==> retires_before(first, second)
        }),
{
}

} // verus!
