//! What the server keeps of an input connection: how busy it is, and the latest
//! layout of each of its contexts.
#[allow(unused_imports)]
use crate::list::{lemma_filter_members, lemma_filter_pairwise, lemma_filter_take};
use crate::message::{ContextToken, LayoutUpdate};
#[allow(unused_imports)]
use crate::session_route::token_of;
use vstd::prelude::*;

pub mod laws;

verus! {

/// Number of contexts whose layouts a connection keeps.
pub const LAYOUT_CAPACITY: usize = 32;

/// How much a connection is in use, from the first to be given up to the last.
#[derive(Clone, Copy, Debug, PartialEq, Eq, Structural)]
pub enum InputPriority {
    /// No context is focused, and none composes.
    Inactive,
    /// A context composes, and none is focused.
    Composing,
    /// A context is focused.
    Focused,
}

/// The place of a priority in the order of retirement.
pub open spec fn priority_rank(priority: InputPriority) -> int {
    match priority {
        InputPriority::Inactive => 0,
        InputPriority::Composing => 1,
        InputPriority::Focused => 2,
    }
}

/// The place of a priority in the order of retirement.
pub fn rank(priority: InputPriority) -> (r: u8)
    ensures
        r == priority_rank(priority),
{
    match priority {
        InputPriority::Inactive => 0,
        InputPriority::Composing => 1,
        InputPriority::Focused => 2,
    }
}

/// A connection that could be retired, as it was when it was looked at.
#[derive(Clone, Copy, Debug, PartialEq, Eq, Structural)]
pub struct InputRetireCandidate {
    pub priority: InputPriority,
    /// When the transport last saw a request, in milliseconds.
    pub last_request: u64,
    /// What the transport needs to retire exactly this state.
    pub transport: u64,
}

/// Whether one candidate is retired before another: the less used first, then
/// the one that has been quiet for longer, then by transport.
pub open spec fn retires_before(a: InputRetireCandidate, b: InputRetireCandidate) -> bool {
    let (p, q) = (priority_rank(a.priority), priority_rank(b.priority));
    p < q || (p == q && (a.last_request < b.last_request || (a.last_request == b.last_request
        && a.transport < b.transport)))
}

impl InputRetireCandidate {
    /// Whether this candidate is retired before another.
    pub fn before(&self, other: &InputRetireCandidate) -> (r: bool)
        ensures
            r == retires_before(*self, *other),
    {
        let p: u8 = rank(self.priority);
        let q: u8 = rank(other.priority);
        if p != q {
            p < q
        } else if self.last_request != other.last_request {
            self.last_request < other.last_request
        } else {
            self.transport < other.transport
        }
    }
}

/// The input state of a connection, gathered from all its contexts.
#[derive(Clone, Copy, Debug, PartialEq, Eq, Structural)]
pub struct InputState {
    /// Whether the engine has reported the connection yet.
    pub registered: bool,
    pub focused: bool,
    pub composing: bool,
}

/// How much a connection in a given state is in use.
pub open spec fn priority_of(state: InputState) -> InputPriority {
    if state.focused {
        InputPriority::Focused
    } else if state.composing {
        InputPriority::Composing
    } else {
        InputPriority::Inactive
    }
}

/// How much a connection is in use: a focused context counts most, then one
/// that composes.
pub fn priority(state: &InputState) -> (r: InputPriority)
    ensures
        r == priority_of(*state),
{
    if state.focused {
        InputPriority::Focused
    } else if state.composing {
        InputPriority::Composing
    } else {
        InputPriority::Inactive
    }
}

/// The context that a layout belongs to; zero where it names none.
pub open spec fn layout_context(update: LayoutUpdate) -> u64 {
    match update.token {
        Some(token) => token.context_id,
        None => 0,
    }
}

/// The context that a layout belongs to; zero where it names none.
pub fn context_id(update: &LayoutUpdate) -> (r: u64)
    ensures
        r == layout_context(*update),
{
    match &update.token {
        Some(token) => token.context_id,
        None => 0,
    }
}

/// Layouts of other contexts than a given one.
pub open spec fn of_other_context(context: u64) -> spec_fn(LayoutUpdate) -> bool {
    |update: LayoutUpdate| layout_context(update) != context
}

/// Layouts that outlive a given context: those that name another one.
pub open spec fn outlives(context: u64) -> spec_fn(LayoutUpdate) -> bool {
    |update: LayoutUpdate| update.token is Some && layout_context(update) != context
}

/// What the queue of layouts becomes when one arrives: it replaces the one of
/// its context, and the oldest makes room where there is none.
pub open spec fn with_layout(layouts: Seq<LayoutUpdate>, update: LayoutUpdate) -> Seq<
    LayoutUpdate,
> {
    let others = layouts.filter(of_other_context(layout_context(update)));
    if others.len() >= LAYOUT_CAPACITY {
        others.drop_first().push(update)
    } else {
        others.push(update)
    }
}

/// No two layouts belong to one context, and there are no more than fit.
pub open spec fn layouts_bounded(layouts: Seq<LayoutUpdate>) -> bool {
    &&& layouts.len() <= LAYOUT_CAPACITY
    &&& forall|i: int, j: int|
        0 <= i < j < layouts.len() ==> layout_context(#[trigger] layouts[i]) != layout_context(
            #[trigger] layouts[j],
        )
}

/// The server's side of one input connection.
pub struct ClientConnection {
    input: InputState,
    layouts: Vec<LayoutUpdate>,
}

impl ClientConnection {
    /// What the engine has reported of the connection.
    pub closed spec fn input(&self) -> InputState {
        self.input
    }

    /// The layouts that wait, oldest first.
    pub closed spec fn layouts(&self) -> Seq<LayoutUpdate> {
        self.layouts@
    }

    /// At most one layout per context waits, and no more than fit.
    pub open spec fn wf(&self) -> bool {
        layouts_bounded(self.layouts())
    }

    /// A connection of which nothing is known yet.
    pub fn new() -> (r: Self)
        ensures
            r.wf(),
            r.input() == (InputState { registered: false, focused: false, composing: false }),
            r.layouts() == Seq::<LayoutUpdate>::empty(),
    {
        ClientConnection {
            input: InputState { registered: false, focused: false, composing: false },
            layouts: Vec::new(),
        }
    }

    /// Stores the layout of a context in place of the one that it had; the
    /// oldest layout leaves where there is no room.
    pub fn push_layout(&mut self, update: LayoutUpdate)
        requires
            old(self).wf(),
        ensures
            final(self).wf(),
            final(self).layouts() == with_layout(old(self).layouts(), update),
            final(self).input() == old(self).input(),
    {
        let key: u64 = context_id(&update);
        let ghost all = self.layouts@;
        let ghost keep = of_other_context(key);
        let mut others: Vec<LayoutUpdate> = Vec::new();
        let mut i: usize = 0;
        assert(all.take(0).filter(keep) =~= Seq::<LayoutUpdate>::empty()) by {
            reveal(Seq::filter);
        }
        while i < self.layouts.len()
            invariant
                i <= self.layouts.len(),
                all == self.layouts@,
                keep == of_other_context(key),
                others@ == all.take(i as int).filter(keep),
            decreases self.layouts.len() - i,
        {
            proof {
                lemma_filter_take(all, keep, i as int);
            }
            if context_id(&self.layouts[i]) != key {
                others.push(self.layouts[i]);
            }
            i += 1;
        }
        proof {
            assert(all.take(all.len() as int) =~= all);
            lemma_filter_members(all, keep);
            lemma_filter_pairwise(
                all,
                keep,
                |a: LayoutUpdate, b: LayoutUpdate| layout_context(a) != layout_context(b),
            );
        }
        if others.len() >= LAYOUT_CAPACITY {
            let ghost full = others@;
            others.remove(0);
            assert(others@ =~= full.drop_first());
        }
        others.push(update);
        self.layouts = others;
        assert(self.layouts() =~= with_layout(all, update));
        assert forall|i: int, j: int|
            0 <= i < j < self.layouts().len() implies layout_context(
            #[trigger] self.layouts()[i],
        ) != layout_context(#[trigger] self.layouts()[j]) by {
            let kept = all.filter(keep);
            let shift: int = if kept.len() >= LAYOUT_CAPACITY { 1 } else { 0 };
            assert(self.layouts()[i] == kept[i + shift]);
            if j < self.layouts().len() - 1 {
                assert(self.layouts()[j] == kept[j + shift]);
            }
        }
    }

    /// Takes out the oldest layout that carries exactly the given token.
    pub fn take_layout_for(&mut self, token: Option<&ContextToken>) -> (r: Option<LayoutUpdate>)
        requires
            old(self).wf(),
        ensures
            final(self).wf(),
            final(self).input() == old(self).input(),
            match r {
                Some(update) => exists|i: int|
                    {
                        &&& 0 <= i < old(self).layouts().len()
                        &&& #[trigger] old(self).layouts()[i] == update
                        &&& update.token == token_of(token)
                        &&& forall|j: int|
                            0 <= j < i ==> (#[trigger] old(self).layouts()[j]).token != token_of(
                                token,
                            )
                        &&& final(self).layouts() == old(self).layouts().remove(i)
                    },
                None => final(self).layouts() == old(self).layouts() && forall|j: int|
                    0 <= j < old(self).layouts().len() ==> (#[trigger] old(
                        self,
                    ).layouts()[j]).token != token_of(token),
            },
    {
        let wanted: Option<ContextToken> = match token {
            Some(t) => Some(*t),
            None => None,
        };
        let ghost all = self.layouts@;
        let mut i: usize = 0;
        while i < self.layouts.len()
            invariant
                i <= self.layouts.len(),
                all == self.layouts@,
                all == old(self).layouts(),
                self.input == old(self).input(),
                old(self).wf(),
                wanted == token_of(token),
                forall|j: int| 0 <= j < i ==> (#[trigger] all[j]).token != wanted,
            decreases self.layouts.len() - i,
        {
            if self.layouts[i].token == wanted {
                let update: LayoutUpdate = self.layouts.remove(i);
                assert(all[i as int] == update);
                assert(self.layouts() =~= all.remove(i as int));
                assert forall|a: int, b: int|
                    0 <= a < b < self.layouts().len() implies layout_context(
                    #[trigger] self.layouts()[a],
                ) != layout_context(#[trigger] self.layouts()[b]) by {
                    let a0 = if a < i { a } else { a + 1 };
                    let b0 = if b < i { b } else { b + 1 };
                    assert(self.layouts()[a] == all[a0] && self.layouts()[b] == all[b0]);
                }
                return Some(update);
            }
            i += 1;
        }
        None
    }

    /// Drops the layouts of a context that is gone, and those that name none.
    pub fn forget_layout(&mut self, context: u64)
        requires
            old(self).wf(),
        ensures
            final(self).wf(),
            final(self).layouts() == old(self).layouts().filter(outlives(context)),
            final(self).input() == old(self).input(),
    {
        let ghost all = self.layouts@;
        let ghost keep = outlives(context);
        let mut others: Vec<LayoutUpdate> = Vec::new();
        let mut i: usize = 0;
        assert(all.take(0).filter(keep) =~= Seq::<LayoutUpdate>::empty()) by {
            reveal(Seq::filter);
        }
        while i < self.layouts.len()
            invariant
                i <= self.layouts.len(),
                all == self.layouts@,
                keep == outlives(context),
                others@ == all.take(i as int).filter(keep),
            decreases self.layouts.len() - i,
        {
            proof {
                lemma_filter_take(all, keep, i as int);
            }
            if self.layouts[i].token.is_some() && context_id(&self.layouts[i]) != context {
                others.push(self.layouts[i]);
            }
            i += 1;
        }
        proof {
            assert(all.take(all.len() as int) =~= all);
            lemma_filter_members(all, keep);
            lemma_filter_pairwise(
                all,
                keep,
                |a: LayoutUpdate, b: LayoutUpdate| layout_context(a) != layout_context(b),
            );
        }
        self.layouts = others;
    }

    /// Stores what the engine reports of the connection. The result is whether
    /// the transport may now count the connection as idle.
    pub fn set_input_state(&mut self, focused: bool, composing: bool) -> (idle: bool)
        ensures
            final(self).input() == (InputState { registered: true, focused, composing }),
            final(self).layouts() == old(self).layouts(),
            idle == (!focused && !composing),
    {
        self.input = InputState { registered: true, focused, composing };
        !focused && !composing
    }

    /// The connection as a candidate for retirement, where the engine knows it
    /// and the transport offers it: its last request and its handle.
    pub fn reclaim_candidate(&self, transport: Option<(u64, u64)>) -> (r: Option<
        InputRetireCandidate,
    >)
        ensures
            r == (match transport {
                Some((last_request, handle)) if self.input().registered => Some(
                    InputRetireCandidate {
                        priority: priority_of(self.input()),
                        last_request,
                        transport: handle,
                    },
                ),
                _ => None,
            }),
    {
        if !self.input.registered {
            return None;
        }
        match transport {
            Some((last_request, handle)) => Some(
                InputRetireCandidate {
                    priority: priority(&self.input),
                    last_request,
                    transport: handle,
                },
            ),
            None => None,
        }
    }

    /// What the transport is asked to retire: the candidate, if the connection
    /// is still used as much as when the candidate was taken.
    pub fn reclaim(&self, expected: InputRetireCandidate) -> (r: Option<u64>)
        ensures
            r == (if self.input().registered && priority_of(self.input()) == expected.priority {
                Some(expected.transport)
            } else {
                None
            }),
    {
        if !self.input.registered || priority(&self.input) != expected.priority {
            return None;
        }
        Some(expected.transport)
    }
}

/// A flood of layouts of one context leaves exactly the last one waiting, at
/// the end of the queue, beside the layouts of other contexts.
pub proof fn law_layout_flood_keeps_the_last(
    layouts: Seq<LayoutUpdate>,
    first: LayoutUpdate,
    last: LayoutUpdate,
)
    requires
        layouts_bounded(layouts),
        layout_context(first) == layout_context(last),
    ensures
        with_layout(with_layout(layouts, first), last) == with_layout(layouts, last),
{
    let keep = of_other_context(layout_context(last));
    let others = layouts.filter(keep);
    lemma_filter_members(layouts, keep);
    let room = if others.len() >= LAYOUT_CAPACITY { others.drop_first() } else { others };
    let queue = room.push(first);
    assert(with_layout(layouts, first) == queue);
    lemma_filter_all(room, keep);
    lemma_filter_take(queue, keep, room.len() as int);
    assert(queue.take(room.len() as int) =~= room);
    assert(queue.take(room.len() as int + 1) =~= queue);
    assert(queue.filter(keep) =~= room);
}

/// A filter that keeps every element changes nothing.
proof fn lemma_filter_all(s: Seq<LayoutUpdate>, keep: spec_fn(LayoutUpdate) -> bool)
    requires
        forall|i: int| 0 <= i < s.len() ==> keep(#[trigger] s[i]),
    ensures
        s.filter(keep) == s,
    decreases s.len(),
{
    reveal(Seq::filter);
    if s.len() > 0 {
        let rest = s.drop_last();
        assert forall|i: int| 0 <= i < rest.len() implies keep(#[trigger] rest[i]) by {
            assert(rest[i] == s[i]);
        }
        lemma_filter_all(rest, keep);
        assert(rest.push(s.last()) =~= s);
    } else {
        assert(s.filter(keep) =~= s);
    }
}

/// Once a context is forgotten, no layout of it is left to be taken.
pub proof fn law_forgotten_context_has_no_layout(layouts: Seq<LayoutUpdate>, context: u64)
    ensures
        forall|i: int|
            0 <= i < layouts.filter(outlives(context)).len() ==> layout_context(
                #[trigger] layouts.filter(outlives(context))[i],
            ) != context,
{
    lemma_filter_members(layouts, outlives(context));
}

/// The order of retirement is total: of two different candidates exactly one
/// goes first. A focused connection goes after every other.
pub proof fn law_retirement_order_is_total(a: InputRetireCandidate, b: InputRetireCandidate)
    ensures
        a != b ==> (retires_before(a, b) <==> !retires_before(b, a)),
        !retires_before(a, a),
        a.priority == InputPriority::Focused && b.priority != InputPriority::Focused
            ==> retires_before(b, a),
{
}

} // verus!
