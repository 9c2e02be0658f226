//! Which connections get a slot: a handshake only waits, an input claims a slot,
//! and where none is free a less used connection is asked to leave.
use crate::client_connection::InputRetireCandidate;
#[allow(unused_imports)]
use crate::client_connection::{law_retirement_order_is_total, retires_before, InputPriority};
use vstd::prelude::*;

pub mod laws;

verus! {

/// Number of connections that may wait for a slot.
pub const PENDING_LIMIT: usize = 4;

/// How long a connection may wait for a slot, in milliseconds.
pub const ADMISSION_TIMEOUT: u64 = 2000;

/// The slots, who has them, and how many wait.
#[derive(Debug, PartialEq, Eq)]
pub struct Gate {
    pub limit: usize,
    /// The connections that have a slot.
    pub active: Vec<u64>,
    pub pending: usize,
}

#[verifier::ext_equal]
pub ghost struct GateView {
    pub limit: nat,
    pub active: Seq<u64>,
    pub pending: nat,
}

impl View for Gate {
    type V = GateView;

    open spec fn view(&self) -> GateView {
        GateView {
            limit: self.limit as nat,
            active: self.active@,
            pending: self.pending as nat,
        }
    }
}

/// One connection's way to a slot.
#[derive(Debug, PartialEq, Eq)]
pub struct Admission {
    pub id: u64,
    pub admitted: bool,
    /// The time, in milliseconds, up to which the connection waits for a slot.
    pub deadline: u64,
}

/// What every state of admission keeps to: no more slots are taken than there are,
/// nobody has two, and no more wait than may.
pub open spec fn gate_wf(g: GateView) -> bool {
    &&& g.active.len() <= g.limit
    &&& g.active.no_duplicates()
    &&& g.pending <= PENDING_LIMIT
}

/// A connection that could be asked to leave.
pub type Peer = (InputRetireCandidate, u64);

/// Whether one connection is asked to leave before another.
pub open spec fn leaves_before(a: Peer, b: Peer) -> bool {
    retires_before(a.0, b.0) || (a.0 == b.0 && a.1 < b.1)
}

/// Whether no connection stands before one that leaves before it.
pub open spec fn in_leaving_order(peers: Seq<Peer>) -> bool {
    forall|i: int, j: int|
        0 <= i < j < peers.len() ==> !leaves_before(#[trigger] peers[j], #[trigger] peers[i])
}

/// The connections that have a slot and could leave, but for the one that asks.
pub open spec fn eligible(
    peers: Seq<(u64, Option<InputRetireCandidate>)>,
    id: u64,
    active: Seq<u64>,
) -> Seq<Peer>
    decreases peers.len(),
{
    if peers.len() == 0 {
        Seq::empty()
    } else {
        let before = eligible(peers.drop_last(), id, active);
        let (peer, candidate) = peers.last();
        match candidate {
            Some(rank) if peer != id && active.contains(peer) => before.push((rank, peer)),
            _ => before,
        }
    }
}

/// How the claim for a slot goes on.
#[derive(Debug, PartialEq, Eq)]
pub enum PromoteStep {
    /// The connection has a slot.
    Admitted,
    /// Ask these to leave, one after another, until one does; then wait.
    Retire(Vec<Peer>),
}

/// What a connection that waits for a slot may see.
#[derive(Clone, Copy, Debug, PartialEq, Eq, Structural)]
pub enum PromoteEvent {
    /// A slot was handed to it.
    Permit,
    /// There will be no more slots.
    Closed,
    /// The connection is lost.
    Disconnected,
    /// Another connection's state has changed.
    Changed,
    /// The time is over.
    Deadline,
}

/// What follows.
#[derive(Clone, Copy, Debug, PartialEq, Eq, Structural)]
pub enum PromoteOutcome {
    Admitted,
    Refused,
    /// Claim again.
    Retry,
    /// Go on waiting.
    Wait,
}

/// Admission after a connection got a slot.
pub open spec fn admitted_gate(g: GateView, id: u64) -> GateView {
    GateView { active: g.active.push(id), pending: (g.pending - 1) as nat, ..g }
}

/// All but one connection.
pub open spec fn other_than(id: u64) -> spec_fn(u64) -> bool {
    |a: u64| a != id
}

/// Admission after a connection is gone.
pub open spec fn left_gate(g: GateView, id: u64, admitted: bool) -> GateView {
    GateView {
        active: g.active.filter(other_than(id)),
        pending: if admitted {
            g.pending
        } else {
            (g.pending - 1) as nat
        },
        ..g
    }
}

/// Whether a connection stands in a list.
fn holds(list: &Vec<u64>, id: u64) -> (r: bool)
    ensures
        r == list@.contains(id),
{
    let mut i: usize = 0;
    while i < list.len()
        invariant
            i <= list.len(),
            forall|k: int| 0 <= k < i ==> list@[k] != id,
        decreases list.len() - i,
    {
        if list[i] == id {
            assert(list@[i as int] == id);
            return true;
        }
        i += 1;
    }
    false
}

/// Whether one connection is asked to leave before another.
fn before(a: &Peer, b: &Peer) -> (r: bool)
    ensures
        r == leaves_before(*a, *b),
{
    if a.0.before(&b.0) {
        return true;
    }
    if a.0 == b.0 {
        return a.1 < b.1;
    }
    false
}

/// The order of leaving is total and transitive.
proof fn lemma_leaving_order(a: Peer, b: Peer, c: Peer)
    ensures
        leaves_before(a, b) && leaves_before(b, c) ==> leaves_before(a, c),
        leaves_before(a, b) ==> !leaves_before(b, a),
        !leaves_before(a, b) && !leaves_before(b, a) ==> a == b,
{
    law_retirement_order_is_total(a.0, b.0);
}

/// Puts a connection at its place in the order.
fn insert_ordered(list: &mut Vec<Peer>, peer: Peer)
    requires
        in_leaving_order(old(list)@),
    ensures
        in_leaving_order(final(list)@),
        final(list)@.to_multiset() =~= old(list)@.to_multiset().insert(peer),
{
    let ghost start = list@;
    let mut i: usize = 0;
    while i < list.len() && !before(&peer, &list[i])
        invariant
            i <= list.len(),
            list@ == start,
            forall|k: int| 0 <= k < i ==> !leaves_before(peer, #[trigger] start[k]),
        decreases list.len() - i,
    {
        i += 1;
    }
    list.insert(i, peer);
    proof {
        broadcast use vstd::seq_lib::group_to_multiset_ensures;

        assert(list@ == start.insert(i as int, peer));
        assert forall|a: int, b: int| 0 <= a < b < list@.len() implies !leaves_before(
            #[trigger] list@[b],
            #[trigger] list@[a],
        ) by {
            let place = i as int;
            if a == place {
                // Everything behind the place stood behind one that the new
                // connection leaves before.
                let first = start[place];
                let later = start[b - 1];
                assert(leaves_before(peer, first));
                if b - 1 > place {
                    assert(!leaves_before(later, first));
                }
                lemma_leaving_order(later, peer, first);
                lemma_leaving_order(peer, later, first);
                lemma_leaving_order(peer, first, later);
            } else if b == place {
                assert(!leaves_before(peer, start[a]));
            } else {
                let a0 = if a < place { a } else { a - 1 };
                let b0 = if b < place { b } else { b - 1 };
                assert(list@[a] == start[a0] && list@[b] == start[b0]);
            }
        }
    }
}

impl Gate {
    /// Admission with free slots, and nobody waiting.
    pub fn new(limit: usize) -> (r: Self)
        ensures
            r@ == (GateView { limit: limit as nat, active: Seq::empty(), pending: 0 }),
            gate_wf(r@),
    {
        let r = Gate { limit, active: Vec::new(), pending: 0 };
        assert(r.active@ =~= Seq::<u64>::empty());
        r
    }

    /// Lets a connection wait for a slot, where there is room to wait.
    pub fn start(&mut self, id: u64, now: u64) -> (r: Option<Admission>)
        requires
            gate_wf(old(self)@),
            now <= u64::MAX - ADMISSION_TIMEOUT,
        ensures
            gate_wf(final(self)@),
            r is Some <==> old(self)@.pending < PENDING_LIMIT,
            match r {
                Some(admission) => admission == (Admission {
                    id,
                    admitted: false,
                    deadline: (now + ADMISSION_TIMEOUT) as u64,
                }) && final(self)@ == (GateView {
                    pending: old(self)@.pending + 1,
                    ..old(self)@
                }),
                None => final(self)@ == old(self)@,
            },
    {
        if self.pending >= PENDING_LIMIT {
            return None;
        }
        self.pending = self.pending + 1;
        Some(Admission { id, admitted: false, deadline: now + ADMISSION_TIMEOUT })
    }

    /// The connections to ask to leave, in order.
    fn retire_order(&self, id: u64, peers: &Vec<(u64, Option<InputRetireCandidate>)>) -> (r: Vec<
        Peer,
    >)
        ensures
            in_leaving_order(r@),
            r@.to_multiset() =~= eligible(peers@, id, self@.active).to_multiset(),
    {
        let ghost all = peers@;
        let mut list: Vec<Peer> = Vec::new();
        let mut i: usize = 0;
        assert(all.take(0) =~= Seq::<(u64, Option<InputRetireCandidate>)>::empty());
        while i < peers.len()
            invariant
                i <= peers.len(),
                all == peers@,
                in_leaving_order(list@),
                list@.to_multiset() =~= eligible(
                    all.take(i as int),
                    id,
                    self@.active,
                ).to_multiset(),
            decreases peers.len() - i,
        {
            proof {
                broadcast use vstd::seq_lib::group_to_multiset_ensures;

                assert(all.take(i + 1).drop_last() =~= all.take(i as int));
                assert(all.take(i + 1).last() == all[i as int]);
            }
            let (peer, candidate): (u64, Option<InputRetireCandidate>) = peers[i];
            if let Some(rank) = candidate {
                if peer != id && holds(&self.active, peer) {
                    insert_ordered(&mut list, (rank, peer));
                }
            }
            i += 1;
        }
        assert(all.take(all.len() as int) =~= all);
        list
    }

    /// Claims a slot for a connection. Where none is free, the less used
    /// connections that have one are asked to leave.
    pub fn promote(
        &mut self,
        admission: &mut Admission,
        peers: &Vec<(u64, Option<InputRetireCandidate>)>,
    ) -> (r: PromoteStep)
        requires
            gate_wf(old(self)@),
            !old(admission).admitted ==> old(self)@.pending > 0 && !old(self)@.active.contains(
                old(admission).id,
            ),
        ensures
            gate_wf(final(self)@),
            final(admission).id == old(admission).id,
            final(admission).deadline == old(admission).deadline,
            final(admission).admitted == (r is Admitted),
            match r {
                PromoteStep::Admitted => if old(admission).admitted {
                    final(self)@ == old(self)@
                } else {
                    old(self)@.active.len() < old(self)@.limit && final(self)@ == admitted_gate(
                        old(self)@,
                        old(admission).id,
                    )
                },
                PromoteStep::Retire(list) => {
                    &&& !old(admission).admitted
                    &&& old(self)@.active.len() >= old(self)@.limit
                    &&& final(self)@ == old(self)@
                    &&& in_leaving_order(list@)
                    &&& list@.to_multiset() =~= eligible(
                        peers@,
                        old(admission).id,
                        old(self)@.active,
                    ).to_multiset()
                },
            },
    {
        if admission.admitted {
            return PromoteStep::Admitted;
        }
        if self.active.len() < self.limit {
            self.take_slot(admission);
            return PromoteStep::Admitted;
        }
        PromoteStep::Retire(self.retire_order(admission.id, peers))
    }

    /// Takes a slot.
    fn take_slot(&mut self, admission: &mut Admission)
        requires
            gate_wf(old(self)@),
            old(self)@.active.len() < old(self)@.limit,
            old(self)@.pending > 0,
            !old(self)@.active.contains(old(admission).id),
        ensures
            gate_wf(final(self)@),
            final(self)@ == admitted_gate(old(self)@, old(admission).id),
            *final(admission) == (Admission { admitted: true, ..*old(admission) }),
    {
        self.active.push(admission.id);
        self.pending = self.pending - 1;
        admission.admitted = true;
    }

    /// Takes what a waiting connection saw; `retired` says whether another one was
    /// asked to leave and agreed, since then only its slot is waited for.
    pub fn waited(&mut self, admission: &mut Admission, event: PromoteEvent, retired: bool) -> (r:
        PromoteOutcome)
        requires
            gate_wf(old(self)@),
            !old(admission).admitted,
            old(self)@.pending > 0,
            !old(self)@.active.contains(old(admission).id),
            event == PromoteEvent::Permit ==> old(self)@.active.len() < old(self)@.limit,
        ensures
            gate_wf(final(self)@),
            r == (match event {
                PromoteEvent::Permit => PromoteOutcome::Admitted,
                PromoteEvent::Closed | PromoteEvent::Disconnected | PromoteEvent::Deadline =>
                    PromoteOutcome::Refused,
                PromoteEvent::Changed => if retired {
                    PromoteOutcome::Wait
                } else {
                    PromoteOutcome::Retry
                },
            }),
            if r == PromoteOutcome::Admitted {
                final(self)@ == admitted_gate(old(self)@, old(admission).id) && *final(admission)
                    == (Admission { admitted: true, ..*old(admission) })
            } else {
                final(self)@ == old(self)@ && *final(admission) == *old(admission)
            },
    {
        match event {
            PromoteEvent::Permit => {
                self.take_slot(admission);
                PromoteOutcome::Admitted
            },
            PromoteEvent::Closed | PromoteEvent::Disconnected | PromoteEvent::Deadline =>
                PromoteOutcome::Refused,
            PromoteEvent::Changed => if retired {
                PromoteOutcome::Wait
            } else {
                PromoteOutcome::Retry
            },
        }
    }

    /// Lets a connection go: its slot, or its place among those that wait, is free.
    pub fn leave(&mut self, admission: Admission)
        requires
            gate_wf(old(self)@),
            !admission.admitted ==> old(self)@.pending > 0,
        ensures
            gate_wf(final(self)@),
            final(self)@ == left_gate(old(self)@, admission.id, admission.admitted),
            !final(self)@.active.contains(admission.id),
    {
        if !admission.admitted {
            self.pending = self.pending - 1;
        }
        let id: u64 = admission.id;
        let ghost all = self.active@;
        let ghost keep = other_than(id);
        let mut rest: Vec<u64> = Vec::new();
        let mut i: usize = 0;
        proof {
            reveal(Seq::filter);
            assert(all.take(0).filter(keep) =~= Seq::<u64>::empty());
        }
        while i < self.active.len()
            invariant
                i <= self.active.len(),
                all == self.active@,
                keep == other_than(id),
                rest@ == all.take(i as int).filter(keep),
            decreases self.active.len() - i,
        {
            proof {
                crate::list::lemma_filter_take(all, keep, i as int);
            }
            if self.active[i] != id {
                rest.push(self.active[i]);
            }
            i += 1;
        }
        proof {
            assert(all.take(all.len() as int) =~= all);
            crate::list::lemma_filter_members(all, keep);
            crate::list::lemma_filter_pairwise(all, keep, |a: u64, b: u64| a != b);
            let kept = all.filter(keep);
            assert forall|a: int, b: int| 0 <= a < kept.len() && 0 <= b < kept.len() && a
                != b implies kept[a] != kept[b] by {
                if a < b {
                    assert((|a: u64, b: u64| a != b)(kept[a], kept[b]));
                } else {
                    assert((|a: u64, b: u64| a != b)(kept[b], kept[a]));
                }
            }
        }
        self.active = rest;
    }
}

impl Admission {
    /// Whether the connection still waits for a slot.
    pub fn pending(&self) -> (r: bool)
        ensures
            r == !self.admitted,
    {
        !self.admitted
    }
}

/// The first to be asked to leave is one that no other leaves before: a connection
/// with the focus is asked only where every other has it too.
pub proof fn law_focused_connections_leave_last(list: Seq<Peer>, i: int)
    requires
        in_leaving_order(list),
        0 <= i < list.len(),
        list[0].0.priority == InputPriority::Focused,
    ensures
        list[i].0.priority == InputPriority::Focused,
{
    law_retirement_order_is_total(list[0].0, list[i].0);
    if i > 0 {
        assert(!leaves_before(list[i], list[0]));
    }
}

/// Leaving makes room: after a connection that waited is gone, another may wait.
pub proof fn law_leaving_makes_room(g: GateView, id: u64)
    requires
        gate_wf(g),
        g.pending > 0,
    ensures
        left_gate(g, id, false).pending < PENDING_LIMIT,
{
}

} // verus!
