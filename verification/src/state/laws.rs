//! Which frame the mailbox holds, and which frames may be shown at all.
#[allow(unused_imports)]
use super::{
    accepts_frame, after_disconnect, after_render, after_step, frame_fault, items_bytes,
    same_frame_content, snapshot_fault, MailboxStep, MailboxView, Owner,
};
#[allow(unused_imports)]
use crate::message::{RenderItemView, RenderRect, RenderSnapshotView};
#[allow(unused_imports)]
use crate::text::byte_len;
use vstd::prelude::*;

verus! {

/// As long as the mailbox is open, a numbered frame of a connection that is newer than all
/// others takes the window over: it is what waits, and its connection is the owner.
pub proof fn law_newer_connection_takes_over(m: MailboxView, owner: Owner, s: RenderSnapshotView)
    requires
        !m.closed,
        owner > m.newest_owner,
        s.sequence > 0,
    ensures
        accepts_frame(m, owner, s.sequence),
        after_render(m, owner, s).pending == Some((owner, Some(s))),
        after_render(m, owner, s).owner == Some(owner),
        after_render(m, owner, s).newest_owner == owner,
        after_render(m, owner, s).latest_sequence == s.sequence,
        !after_render(m, owner, s).closed,
        after_render(m, owner, s).wake_pending == m.wake_pending,
{
}

/// A later frame of the owner takes the place of whatever waits, be it an earlier frame.
pub proof fn law_later_frame_replaces_what_waits(
    m: MailboxView,
    owner: Owner,
    first: RenderSnapshotView,
    second: RenderSnapshotView,
)
    requires
        accepts_frame(m, owner, first.sequence),
        first.sequence < second.sequence,
    ensures
        ({
            let one = after_render(m, owner, first);
            let two = after_render(one, owner, second);
            &&& one.pending == Some((owner, Some(first)))
            &&& accepts_frame(one, owner, second.sequence)
            &&& two.pending == Some((owner, Some(second)))
            &&& two.owner == Some(owner)
            &&& two.latest_sequence == second.sequence
        }),
{
}

/// A frame that is not accepted changes nothing; none is that has no number, comes from an
/// older connection, or comes to a closed mailbox.
pub proof fn law_refused_frame_changes_nothing(m: MailboxView, owner: Owner, s: RenderSnapshotView)
    ensures
        m.closed || owner < m.newest_owner || s.sequence == 0 ==> after_render(m, owner, s) == m,
        owner == m.newest_owner && (m.owner != Some(owner) || s.sequence <= m.latest_sequence)
            ==> after_render(m, owner, s) == m,
{
}

/// Losing the owner's connection hides its frame, and drops one that still waits; losing
/// any other changes nothing.
pub proof fn law_lost_owner_is_hidden(m: MailboxView, owner: Owner)
    ensures
        !m.closed && m.owner == Some(owner) ==> after_disconnect(m, owner).pending == Some(
            (owner, None::<RenderSnapshotView>),
        ) && after_disconnect(m, owner).owner is None && after_disconnect(m, owner).newest_owner
            == m.newest_owner && after_disconnect(m, owner).latest_sequence == m.latest_sequence
            && !after_disconnect(m, owner).closed,
        m.closed || m.owner != Some(owner) ==> after_disconnect(m, owner) == m,
{
}

/// The texts of two lists are as long together as each for itself, and those of one item as
/// its three texts.
pub proof fn law_lengths_of_items_add_up(a: Seq<RenderItemView>, b: Seq<RenderItemView>)
    ensures
        items_bytes(a + b) == items_bytes(a) + items_bytes(b),
        a.len() == 1 ==> items_bytes(a) == byte_len(a[0].primary_text) + byte_len(
            a[0].secondary_text,
        ) + byte_len(a[0].kind),
    decreases b.len(),
{
    if a.len() == 1 {
        assert(a.drop_last() =~= Seq::<RenderItemView>::empty());
        assert(items_bytes(a.drop_last()) == 0);
    }
    if b.len() == 0 {
        assert(a + b =~= a);
    } else {
        law_lengths_of_items_add_up(a, b.drop_last());
        assert((a + b).drop_last() =~= a + b.drop_last());
    }
}

/// Whether a text is short enough for a frame, and has no NUL.
pub open spec fn fits(text: Seq<char>) -> bool {
    byte_len(text) <= 4096 && forall|i: int| 0 <= i < text.len() ==> #[trigger] text[i] != '\0'
}

/// Whether all texts of an item fit.
pub open spec fn item_fits(item: RenderItemView) -> bool {
    fits(item.primary_text) && fits(item.secondary_text) && fits(item.kind)
}

/// A frame may be shown exactly when it has at most 256 items whose texts fit, each and all
/// together, its selection and its page lie within what there is, and its anchor, if valid,
/// has its edges in order and within a million pixels.
pub proof fn law_sound_frames_are_accepted(s: RenderSnapshotView)
    ensures
        snapshot_fault(s) is None <==> {
            &&& s.items.len() <= 256
            &&& forall|i: int| 0 <= i < s.items.len() ==> item_fits(#[trigger] s.items[i])
            &&& items_bytes(s.items) <= 65536
            &&& s.selected_index < s.items.len() || (s.items.len() == 0 && s.selected_index == 0)
            &&& s.page_start + s.items.len() <= 0xffff_ffff
            &&& s.total_item_count is Some ==> s.page_start + s.items.len()
                <= s.total_item_count->0
            &&& s.anchor is Some && s.anchor->0.valid ==> {
                let a = s.anchor->0;
                -1_000_000 <= a.left <= a.right <= 1_000_000 && -1_000_000 <= a.top <= a.bottom
                    <= 1_000_000
            }
        },
{
    assert forall|i: int| 0 <= i < s.items.len() implies item_fits(#[trigger] s.items[i])
        == super::item_allowed(s.items[i]) by {}
    if snapshot_fault(s) is None {
        assert forall|i: int| 0 <= i < s.items.len() implies item_fits(#[trigger] s.items[i]) by {
            assert(super::item_allowed(s.items[i]));
        }
    }
}

/// What the theme interface finds wrong with a composition refuses the frame, before all
/// else; without a composition it is not heard.
pub proof fn law_preedit_is_checked_first(s: RenderSnapshotView, found: Seq<char>)
    ensures
        s.preedit is Some ==> frame_fault(s, Some(found)) == Some(found),
        s.preedit is None ==> frame_fault(s, Some(found)) == frame_fault(s, None),
        frame_fault(s, None) is None <==> snapshot_fault(s) is None,
{
}

/// Sameness of content is that of every row, the composition, the selection, the pages and
/// the session with its revision and token: it goes both ways and can be passed on, and a
/// change of any of them ends it.
pub proof fn law_same_content_is_an_equality(
    a: RenderSnapshotView,
    b: RenderSnapshotView,
    c: RenderSnapshotView,
)
    ensures
        same_frame_content(a, a),
        same_frame_content(a, b) ==> same_frame_content(b, a),
        same_frame_content(a, b) && same_frame_content(b, c) ==> same_frame_content(a, c),
        same_frame_content(a, b) ==> a == (RenderSnapshotView {
            sequence: a.sequence,
            active: a.active,
            visible: a.visible,
            ascii_mode: a.ascii_mode,
            anchor: a.anchor,
            mode_indicator: a.mode_indicator,
            ..b
        }),
{
}

/// Taking what waits leaves nothing behind and lets the window be woken again; it changes
/// neither the owner nor which frames are accepted.
pub proof fn law_what_is_taken_is_gone(m: MailboxView, owner: Owner, sequence: u64)
    ensures
        ({
            let after = after_step(m, MailboxStep::Take);
            &&& after.pending is None
            &&& !after.wake_pending
            &&& after.owner == m.owner
            &&& accepts_frame(after, owner, sequence) == accepts_frame(m, owner, sequence)
        }),
        after_step(m, MailboxStep::Wake).wake_pending,
        after_step(m, MailboxStep::Wake).pending == m.pending,
        after_step(m, MailboxStep::Wake).owner == m.owner,
{
}

/// Closing drops what waits, and sealing keeps it; after either, nothing more is accepted.
pub proof fn law_closed_mailbox_accepts_nothing(m: MailboxView, owner: Owner, sequence: u64)
    ensures
        after_step(m, MailboxStep::Close).closed,
        after_step(m, MailboxStep::Close).pending is None,
        after_step(m, MailboxStep::Seal).closed,
        after_step(m, MailboxStep::Seal).pending == m.pending,
        !accepts_frame(after_step(m, MailboxStep::Close), owner, sequence),
        !accepts_frame(after_step(m, MailboxStep::Seal), owner, sequence),
{
}

} // verus!
