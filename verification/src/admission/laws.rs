//! Who gets a slot, who is asked to leave for it, and what leaving frees.
#[allow(unused_imports)]
use super::{
    admitted_gate, eligible, gate_wf, in_leaving_order, leaves_before, left_gate, other_than,
    GateView, Peer,
};
#[allow(unused_imports)]
use crate::client_connection::{InputPriority, InputRetireCandidate};
#[allow(unused_imports)]
use crate::list::lemma_filter_members;
use vstd::prelude::*;

verus! {

/// A connection that gets a slot has it, beside all that had one, and no longer waits.
pub proof fn law_admitted_connection_has_a_slot(g: GateView, id: u64, other: u64)
    requires
        g.pending > 0,
    ensures
        admitted_gate(g, id).active.contains(id),
        g.active.contains(other) ==> admitted_gate(g, id).active.contains(other),
        admitted_gate(g, id).active.contains(other) ==> other == id || g.active.contains(other),
        admitted_gate(g, id).active.len() == g.active.len() + 1,
        admitted_gate(g, id).pending == g.pending - 1,
        admitted_gate(g, id).limit == g.limit,
{
    let next = admitted_gate(g, id).active;
    assert(next[next.len() - 1] == id);
    if g.active.contains(other) {
        let k = choose|k: int| 0 <= k < g.active.len() && g.active[k] == other;
        assert(next[k] == other);
    }
    if next.contains(other) {
        let k = choose|k: int| 0 <= k < next.len() && next[k] == other;
        if k < g.active.len() {
            assert(g.active[k] == other);
        }
    }
}

/// A connection that is gone has no slot, and all others keep theirs; one that waited frees
/// its place among those that wait, one that did not frees none.
pub proof fn law_leaving_frees_one_place(g: GateView, id: u64, admitted: bool, other: u64)
    requires
        !admitted ==> g.pending > 0,
    ensures
        !left_gate(g, id, admitted).active.contains(id),
        other != id ==> (left_gate(g, id, admitted).active.contains(other)
            <==> g.active.contains(other)),
        left_gate(g, id, admitted).pending == (if admitted {
            g.pending as int
        } else {
            g.pending - 1
        }),
        left_gate(g, id, admitted).limit == g.limit,
{
    lemma_filter_members(g.active, other_than(id));
    let kept = left_gate(g, id, admitted).active;
    if kept.contains(id) {
        let k = choose|k: int| 0 <= k < kept.len() && kept[k] == id;
        assert(other_than(id)(kept[k]));
    }
    if other != id && g.active.contains(other) {
        let k = choose|k: int| 0 <= k < g.active.len() && g.active[k] == other;
        assert(other_than(id)(g.active[k]));
    }
}

/// Only connections that have a slot and could leave are asked to, with the state in which
/// they were found; the one that asks never is, and every other one that could leave is.
pub proof fn law_only_others_with_a_slot_are_asked(
    peers: Seq<(u64, Option<InputRetireCandidate>)>,
    id: u64,
    active: Seq<u64>,
    peer: u64,
    rank: InputRetireCandidate,
)
    ensures
        eligible(peers, id, active).contains((rank, peer)) <==> peer != id && active.contains(peer)
            && peers.contains((peer, Some(rank))),
    decreases peers.len(),
{
    if peers.len() > 0 {
        let rest = peers.drop_last();
        law_only_others_with_a_slot_are_asked(rest, id, active, peer, rank);
        let before = eligible(rest, id, active);
        let all = eligible(peers, id, active);
        let last = peers.last();
        if all.contains((rank, peer)) {
            let k = choose|k: int| 0 <= k < all.len() && all[k] == (rank, peer);
            if k < before.len() {
                assert(before[k] == (rank, peer));
                let i = choose|i: int| 0 <= i < rest.len() && rest[i] == (peer, Some(rank));
                assert(peers[i] == (peer, Some(rank)));
            } else {
                assert(peers[peers.len() - 1] == (peer, Some(rank)));
            }
        }
        if peer != id && active.contains(peer) && peers.contains((peer, Some(rank))) {
            let i = choose|i: int| 0 <= i < peers.len() && peers[i] == (peer, Some(rank));
            if i < rest.len() {
                assert(rest[i] == (peer, Some(rank)));
                let k = choose|k: int| 0 <= k < before.len() && before[k] == (rank, peer);
                assert(all[k] == (rank, peer));
            } else {
                assert(all[all.len() - 1] == (rank, peer));
            }
        }
    }
}

/// Of two that are asked to leave, the one that is not focused comes first; of two used alike
/// the one that has been quiet for longer does.
pub proof fn law_least_used_is_asked_first(list: Seq<Peer>, i: int, j: int)
    requires
        in_leaving_order(list),
        0 <= i < j < list.len(),
    ensures
        list[i].0.priority == InputPriority::Focused ==> list[j].0.priority
            == InputPriority::Focused,
        list[i].0.priority == InputPriority::Composing ==> list[j].0.priority
            != InputPriority::Inactive,
        list[i].0.priority == list[j].0.priority ==> list[i].0.last_request
            <= list[j].0.last_request,
{
    assert(!leaves_before(list[j], list[i]));
}

/// Of two different connections exactly one leaves before the other, and of three the order
/// goes through; equal ones stand by their numbers.
pub proof fn law_leaving_order_is_total(a: Peer, b: Peer, c: Peer)
    ensures
        !leaves_before(a, a),
        leaves_before(a, b) ==> !leaves_before(b, a),
        leaves_before(a, b) && leaves_before(b, c) ==> leaves_before(a, c),
        a.0 == b.0 ==> (leaves_before(a, b) <==> a.1 < b.1),
        a.1 != b.1 ==> leaves_before(a, b) || leaves_before(b, a),
{
    crate::client_connection::law_retirement_order_is_total(a.0, b.0);
}

} // verus!
