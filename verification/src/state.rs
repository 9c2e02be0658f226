//! The renderer's mailbox of one pending frame, and what a frame may hold.
use crate::message::{RenderItem, RenderRect, RenderSnapshot};
#[allow(unused_imports)]
use crate::message::{RenderItemView, RenderSnapshotView};
use crate::text::{contains_nul, len_bytes};
#[allow(unused_imports)]
use crate::theme_window::text_view;
use vstd::prelude::*;

pub mod laws;

verus! {

/// A connection that may show frames; a newer connection has a larger number.
pub type Owner = u64;

/// Number of items that a frame may hold.
pub const MAX_ITEMS: usize = 256;

/// The frame that waits for the window, and who may replace it.
pub struct Mailbox {
    pub owner: Option<Owner>,
    newest_owner: Owner,
    pub pending: Option<(Owner, Option<RenderSnapshot>)>,
    pub wake_pending: bool,
    pub closed: bool,
    latest_sequence: u64,
}

/// What the mailbox holds, over the content of its frame.
#[verifier::ext_equal]
pub ghost struct MailboxView {
    pub owner: Option<Owner>,
    pub newest_owner: Owner,
    pub pending: Option<(Owner, Option<RenderSnapshotView>)>,
    pub wake_pending: bool,
    pub closed: bool,
    pub latest_sequence: u64,
}

/// The view of a pending frame, or of a pending request to hide.
pub open spec fn pending_view(pending: Option<(Owner, Option<RenderSnapshot>)>) -> Option<
    (Owner, Option<RenderSnapshotView>),
> {
    match pending {
        Some((owner, Some(snapshot))) => Some((owner, Some(snapshot@))),
        Some((owner, None)) => Some((owner, None)),
        None => None,
    }
}

/// Whether a frame of a connection is accepted: the mailbox is open, the frame is
/// numbered, and the connection is newer than every other, or is the owner and
/// the frame is newer than its last.
pub open spec fn accepts_frame(m: MailboxView, owner: Owner, sequence: u64) -> bool {
    &&& !m.closed
    &&& sequence != 0
    &&& (owner > m.newest_owner || (owner == m.newest_owner && m.owner == Some(owner) && sequence
        > m.latest_sequence))
}

/// What the mailbox holds after a frame was offered.
pub open spec fn after_render(m: MailboxView, owner: Owner, snapshot: RenderSnapshotView) -> MailboxView {
    if accepts_frame(m, owner, snapshot.sequence) {
        MailboxView {
            owner: Some(owner),
            newest_owner: owner,
            pending: Some((owner, Some(snapshot))),
            latest_sequence: snapshot.sequence,
            ..m
        }
    } else {
        m
    }
}

/// What the mailbox holds after a connection was lost.
pub open spec fn after_disconnect(m: MailboxView, owner: Owner) -> MailboxView {
    if !m.closed && m.owner == Some(owner) {
        MailboxView { owner: None, pending: Some((owner, None)), ..m }
    } else {
        m
    }
}

impl View for Mailbox {
    type V = MailboxView;

    closed spec fn view(&self) -> MailboxView {
        MailboxView {
            owner: self.owner,
            newest_owner: self.newest_owner,
            pending: pending_view(self.pending),
            wake_pending: self.wake_pending,
            closed: self.closed,
            latest_sequence: self.latest_sequence,
        }
    }
}

impl Default for Mailbox {
    fn default() -> (r: Self)
        ensures
            r@ == (MailboxView {
                owner: None,
                newest_owner: 0,
                pending: None,
                wake_pending: false,
                closed: false,
                latest_sequence: 0,
            }),
    {
        Mailbox {
            owner: None,
            newest_owner: 0,
            pending: None,
            wake_pending: false,
            closed: false,
            latest_sequence: 0,
        }
    }
}

impl Mailbox {
    /// Notes that the window is about to be woken. The result is whether it has
    /// to be: one wake serves every frame until the pending one is taken.
    pub fn schedule_wake(&mut self) -> (r: bool)
        ensures
            r == !old(self)@.wake_pending,
            final(self)@ == after_step(old(self)@, MailboxStep::Wake),
    {
        if self.wake_pending {
            return false;
        }
        self.wake_pending = true;
        true
    }

    /// Takes what is pending, and lets the next frame wake the window again.
    pub fn take_pending(&mut self) -> (r: Option<(Owner, Option<RenderSnapshot>)>)
        ensures
            pending_view(r) == old(self)@.pending,
            final(self)@ == after_step(old(self)@, MailboxStep::Take),
    {
        self.wake_pending = false;
        self.pending.take()
    }

    /// Offers a frame. The result is whether it was accepted; it then replaces
    /// whatever was pending, and its connection owns the window.
    pub fn render(&mut self, owner: Owner, snapshot: RenderSnapshot) -> (r: bool)
        ensures
            r == accepts_frame(old(self)@, owner, snapshot@.sequence),
            final(self)@ == after_render(old(self)@, owner, snapshot@),
    {
        if self.closed || owner < self.newest_owner || snapshot.sequence == 0 || (owner
            == self.newest_owner && (self.owner != Some(owner) || snapshot.sequence
            <= self.latest_sequence)) {
            return false;
        }
        self.latest_sequence = snapshot.sequence;
        self.newest_owner = owner;
        self.owner = Some(owner);
        self.pending = Some((owner, Some(snapshot)));
        true
    }

    /// Hides what a lost connection shows, if it still owns the window. The
    /// result is whether it did.
    pub fn disconnect(&mut self, owner: Owner) -> (r: bool)
        ensures
            r == (!old(self)@.closed && old(self)@.owner == Some(owner)),
            final(self)@ == after_disconnect(old(self)@, owner),
    {
        if self.closed || self.owner != Some(owner) {
            return false;
        }
        self.owner = None;
        self.pending = Some((owner, None));
        true
    }

    /// Closes the mailbox for good and drops what is pending.
    pub fn close(&mut self)
        ensures
            final(self)@ == after_step(old(self)@, MailboxStep::Close),
    {
        self.closed = true;
        self.pending = None;
    }

    /// Closes the mailbox for what is still to come; what waits stays.
    pub fn seal(&mut self)
        ensures
            final(self)@ == after_step(old(self)@, MailboxStep::Seal),
    {
        self.closed = true;
    }

    /// Whether a connection's frame is the one that is shown.
    pub fn is_owner(&self, owner: Owner) -> (r: bool)
        ensures
            r == (!self@.closed && self@.owner == Some(owner)),
    {
        !self.closed && self.owner == Some(owner)
    }

    /// The connection whose frame is shown.
    pub fn shown_owner(&self) -> (r: Option<Owner>)
        ensures
            r == self@.owner,
    {
        self.owner
    }

    /// Whether nothing more is accepted.
    pub fn is_closed(&self) -> (r: bool)
        ensures
            r == self@.closed,
    {
        self.closed
    }

    /// Number of the last frame that was accepted.
    pub fn latest_sequence(&self) -> (r: u64)
        ensures
            r == self@.latest_sequence,
    {
        self.latest_sequence
    }
}

/// One thing that happens to a mailbox.
pub ghost enum MailboxStep {
    Render(Owner, RenderSnapshotView),
    Disconnect(Owner),
    Wake,
    Take,
    Seal,
    Close,
}

/// What a mailbox holds after one step.
pub open spec fn after_step(m: MailboxView, step: MailboxStep) -> MailboxView {
    match step {
        MailboxStep::Render(owner, snapshot) => after_render(m, owner, snapshot),
        MailboxStep::Disconnect(owner) => after_disconnect(m, owner),
        MailboxStep::Wake => MailboxView { wake_pending: true, ..m },
        MailboxStep::Take => MailboxView { wake_pending: false, pending: None, ..m },
        MailboxStep::Seal => MailboxView { closed: true, ..m },
        MailboxStep::Close => MailboxView { closed: true, pending: None, ..m },
    }
}

/// What a mailbox holds after a history of steps.
pub open spec fn after_steps(m: MailboxView, steps: Seq<MailboxStep>) -> MailboxView
    decreases steps.len(),
{
    if steps.len() == 0 {
        m
    } else {
        after_step(after_steps(m, steps.drop_last()), steps.last())
    }
}

/// An owner is the newest that has ever shown a frame.
pub open spec fn mailbox_wf(m: MailboxView) -> bool {
    m.owner matches Some(owner) ==> owner == m.newest_owner
}

/// In every state, an owner is the newest connection that has shown a frame; the
/// newest connection never gets older.
pub proof fn law_owner_is_newest(m: MailboxView, steps: Seq<MailboxStep>)
    requires
        mailbox_wf(m),
    ensures
        mailbox_wf(after_steps(m, steps)),
        after_steps(m, steps).newest_owner >= m.newest_owner,
    decreases steps.len(),
{
    if steps.len() > 0 {
        law_owner_is_newest(m, steps.drop_last());
    }
}

/// A connection that was superseded by a newer one never shows a frame again,
/// whatever it sends.
pub proof fn law_superseded_owner_cannot_reclaim(
    m: MailboxView,
    newer: Owner,
    first: RenderSnapshotView,
    steps: Seq<MailboxStep>,
    older: Owner,
    snapshot: RenderSnapshotView,
)
    requires
        mailbox_wf(m),
        accepts_frame(m, newer, first.sequence),
        older < newer,
    ensures
        !accepts_frame(
            after_steps(after_render(m, newer, first), steps),
            older,
            snapshot.sequence,
        ),
{
    law_owner_is_newest(after_render(m, newer, first), steps);
}

/// A connection that was disconnected never shows a frame again, whatever it sends
/// and whatever happens in between.
pub proof fn law_disconnected_owner_cannot_reclaim(
    m: MailboxView,
    owner: Owner,
    steps: Seq<MailboxStep>,
    sequence: u64,
)
    requires
        mailbox_wf(m),
        m.owner == Some(owner),
    ensures
        !accepts_frame(after_steps(after_disconnect(m, owner), steps), owner, sequence),
{
    lemma_gone_stays_gone(after_disconnect(m, owner), owner, steps);
}

/// A connection that is not the owner, and no newer than all others, stays so.
proof fn lemma_gone_stays_gone(m: MailboxView, owner: Owner, steps: Seq<MailboxStep>)
    requires
        mailbox_wf(m),
        owner <= m.newest_owner,
        m.closed || m.owner != Some(owner),
    ensures
        mailbox_wf(after_steps(m, steps)),
        owner <= after_steps(m, steps).newest_owner,
        after_steps(m, steps).closed || after_steps(m, steps).owner != Some(owner),
    decreases steps.len(),
{
    if steps.len() > 0 {
        lemma_gone_stays_gone(m, owner, steps.drop_last());
    }
}

/// A closed mailbox stays closed: it accepts no frame and no disconnection, in
/// any later state.
pub proof fn law_close_is_terminal(m: MailboxView, steps: Seq<MailboxStep>, owner: Owner, sequence: u64)
    requires
        m.closed,
    ensures
        after_steps(m, steps).closed,
        !accepts_frame(after_steps(m, steps), owner, sequence),
        after_disconnect(after_steps(m, steps), owner) == after_steps(m, steps),
    decreases steps.len(),
{
    if steps.len() > 0 {
        law_close_is_terminal(m, steps.drop_last(), owner, sequence);
    }
}

/// While one connection owns the window, the numbers of the frames that it shows
/// only grow: after a frame was accepted, an equal or lower number is refused in
/// every later state, whether or not the frame was taken, until a newer
/// connection takes over.
pub proof fn law_sequence_never_goes_back(
    m: MailboxView,
    owner: Owner,
    shown: RenderSnapshotView,
    steps: Seq<MailboxStep>,
    replayed: u64,
)
    requires
        mailbox_wf(m),
        accepts_frame(m, owner, shown.sequence),
        replayed <= shown.sequence,
    ensures
        !accepts_frame(after_steps(after_render(m, owner, shown), steps), owner, replayed),
{
    let start = after_render(m, owner, shown);
    lemma_sequence_grows(start, steps);
    law_owner_is_newest(start, steps);
}

/// Until a newer connection takes over, the number of the last frame only grows.
proof fn lemma_sequence_grows(m: MailboxView, steps: Seq<MailboxStep>)
    requires
        mailbox_wf(m),
    ensures
        after_steps(m, steps).newest_owner > m.newest_owner || (after_steps(m, steps).newest_owner
            == m.newest_owner && after_steps(m, steps).latest_sequence >= m.latest_sequence),
    decreases steps.len(),
{
    if steps.len() > 0 {
        lemma_sequence_grows(m, steps.drop_last());
        law_owner_is_newest(m, steps.drop_last());
    }
}

/// Whether a text may stand in a frame: at most 4096 bytes, and no NUL.
pub open spec fn text_allowed(text: Seq<char>) -> bool {
    crate::text::byte_len(text) <= 4096 && !crate::text::has_nul(text)
}

/// Whether the texts of an item may stand in a frame.
pub open spec fn item_allowed(item: RenderItemView) -> bool {
    text_allowed(item.primary_text) && text_allowed(item.secondary_text) && text_allowed(item.kind)
}

/// Number of bytes of all texts of a list of items.
pub open spec fn items_bytes(items: Seq<RenderItemView>) -> nat
    decreases items.len(),
{
    if items.len() == 0 {
        0
    } else {
        items_bytes(items.drop_last()) + crate::text::byte_len(items.last().primary_text)
            + crate::text::byte_len(items.last().secondary_text) + crate::text::byte_len(
            items.last().kind,
        )
    }
}

/// Whether the selection lies on the page, and the page within what is counted.
pub open spec fn indices_allowed(s: RenderSnapshotView) -> bool {
    let count = s.items.len();
    &&& if count == 0 {
        s.selected_index == 0
    } else {
        s.selected_index < count
    }
    &&& s.page_start + count <= u32::MAX
    &&& s.total_item_count matches Some(total) ==> s.page_start + count <= total
}

/// Whether an anchor has its edges in order and within a million pixels.
pub open spec fn anchor_allowed(anchor: RenderRect) -> bool {
    anchor.valid ==> {
        &&& anchor.left <= anchor.right
        &&& anchor.top <= anchor.bottom
        &&& -1_000_000 <= anchor.left <= 1_000_000
        &&& -1_000_000 <= anchor.right <= 1_000_000
        &&& -1_000_000 <= anchor.top <= 1_000_000
        &&& -1_000_000 <= anchor.bottom <= 1_000_000
    }
}

/// What is wrong with a frame, the first of several faults; none if it may be shown.
pub open spec fn snapshot_fault(s: RenderSnapshotView) -> Option<Seq<char>> {
    if s.items.len() > MAX_ITEMS {
        Some("snapshot exceeds 256 items"@)
    } else if exists|i: int| 0 <= i < s.items.len() && !item_allowed(#[trigger] s.items[i]) {
        Some("snapshot text exceeds 4096 bytes or contains NUL"@)
    } else if items_bytes(s.items) > 65536 {
        Some("snapshot text exceeds 64 KiB"@)
    } else if !indices_allowed(s) {
        Some("invalid snapshot index/count"@)
    } else if s.anchor matches Some(anchor) && !anchor_allowed(anchor) {
        Some("invalid snapshot anchor"@)
    } else {
        None
    }
}

/// Why a frame is refused, if it is: what the theme interface finds wrong with its
/// preedit comes first. Without a preedit there is nothing for it to find.
pub open spec fn frame_fault(s: RenderSnapshotView, checked: Option<Seq<char>>) -> Option<
    Seq<char>,
> {
    if s.preedit is Some && checked is Some {
        checked
    } else {
        snapshot_fault(s)
    }
}

/// Number of bytes of a text, where it may stand in a frame.
fn allowed_len(text: &str) -> (r: Option<usize>)
    ensures
        r == (if text_allowed(text@) { Some(crate::text::byte_len(text@) as usize) } else { None }),
        r matches Some(n) ==> n <= 4096,
{
    let len: usize = len_bytes(text);
    if len > 4096 || contains_nul(text) {
        None
    } else {
        Some(len)
    }
}

/// Number of bytes of an item's texts, where they may stand in a frame.
fn item_len(item: &RenderItem) -> (r: Option<usize>)
    ensures
        r is Some == item_allowed(item@),
        r matches Some(n) ==> n <= 3 * 4096 && n == crate::text::byte_len(item@.primary_text)
            + crate::text::byte_len(item@.secondary_text) + crate::text::byte_len(item@.kind),
{
    let primary: usize = match allowed_len(item.primary_text.as_str()) {
        Some(n) => n,
        None => return None,
    };
    let secondary: usize = match allowed_len(item.secondary_text.as_str()) {
        Some(n) => n,
        None => return None,
    };
    let kind: usize = match allowed_len(item.kind.as_str()) {
        Some(n) => n,
        None => return None,
    };
    Some(primary + secondary + kind)
}

/// Whether the anchor's four edges are in order and within a million pixels.
fn anchor_ok(anchor: &RenderRect) -> (r: bool)
    ensures
        r == anchor_allowed(*anchor),
{
    !anchor.valid || (anchor.left <= anchor.right && anchor.top <= anchor.bottom && -1_000_000
        <= anchor.left && anchor.left <= 1_000_000 && -1_000_000 <= anchor.right && anchor.right
        <= 1_000_000 && -1_000_000 <= anchor.top && anchor.top <= 1_000_000 && -1_000_000
        <= anchor.bottom && anchor.bottom <= 1_000_000)
}

/// Whether the selection and the counts fit together.
fn indices_ok(snapshot: &RenderSnapshot) -> (r: bool)
    requires
        snapshot.items.len() <= MAX_ITEMS,
    ensures
        r == indices_allowed(snapshot@),
{
    let count: u32 = snapshot.items.len() as u32;
    if count == 0 {
        if snapshot.selected_index != 0 {
            return false;
        }
    } else if snapshot.selected_index >= count {
        return false;
    }
    match snapshot.page_start.checked_add(count) {
        None => false,
        Some(end) => match snapshot.total_item_count {
            Some(total) => end <= total,
            None => true,
        },
    }
}

/// Checks a frame before it is shown: its preedit, of which `checked` is the error
/// that the theme interface found, then the number and size of its texts, its
/// indices and its anchor. The first fault is the error.
pub fn validate(snapshot: &RenderSnapshot, checked: Option<String>) -> (r: Result<(), String>)
    ensures
        match frame_fault(snapshot@, text_view(checked)) {
            Some(fault) => r matches Err(error) && error@ == fault,
            None => r is Ok,
        },
{
    if snapshot.preedit.is_some() {
        if let Some(error) = checked {
            return Err(error);
        }
    }
    if snapshot.items.len() > MAX_ITEMS {
        return Err("snapshot exceeds 256 items".to_owned());
    }
    let ghost items = snapshot@.items;
    let mut bytes: usize = 0;
    let mut i: usize = 0;
    assert(items.take(0) =~= Seq::<RenderItemView>::empty());
    while i < snapshot.items.len()
        invariant
            i <= snapshot.items.len() <= MAX_ITEMS,
            items == snapshot@.items,
            frame_fault(snapshot@, text_view(checked)) == snapshot_fault(snapshot@),
            bytes <= i * 3 * 4096,
            bytes == items_bytes(items.take(i as int)),
            forall|j: int| 0 <= j < i ==> item_allowed(#[trigger] items[j]),
        decreases snapshot.items.len() - i,
    {
        match item_len(&snapshot.items[i]) {
            Some(n) => {
                assert(items[i as int] == snapshot.items[i as int]@);
                assert(items.take(i + 1).drop_last() =~= items.take(i as int));
                bytes = bytes + n;
            },
            None => {
                assert(!item_allowed(items[i as int]));
                return Err("snapshot text exceeds 4096 bytes or contains NUL".to_owned());
            },
        }
        i += 1;
    }
    assert(items.take(items.len() as int) =~= items);
    if bytes > 65536 {
        return Err("snapshot text exceeds 64 KiB".to_owned());
    }
    if !indices_ok(snapshot) {
        return Err("invalid snapshot index/count".to_owned());
    }
    if let Some(anchor) = &snapshot.anchor {
        if !anchor_ok(anchor) {
            return Err("invalid snapshot anchor".to_owned());
        }
    }
    Ok(())
}

/// Whether two frames have the same content, wherever they are shown.
pub open spec fn same_frame_content(a: RenderSnapshotView, b: RenderSnapshotView) -> bool {
    &&& a.session_id == b.session_id
    &&& a.preedit == b.preedit
    &&& a.token == b.token
    &&& a.revision == b.revision
    &&& a.items == b.items
    &&& a.selected_index == b.selected_index
    &&& a.page_start == b.page_start
    &&& a.total_item_count == b.total_item_count
    &&& a.can_page_previous == b.can_page_previous
    &&& a.can_page_next == b.can_page_next
}

/// Whether two items are the same.
fn same_render_item(a: &RenderItem, b: &RenderItem) -> (r: bool)
    ensures
        r == (a@ == b@),
{
    let r: bool = a.primary_text == b.primary_text && a.secondary_text == b.secondary_text
        && a.enabled == b.enabled && a.kind == b.kind;
    assert(r == (a@ == b@));
    r
}

/// Whether two lists hold the same items.
fn same_render_items(a: &Vec<RenderItem>, b: &Vec<RenderItem>) -> (r: bool)
    ensures
        r == (crate::message::item_views(a@) == crate::message::item_views(b@)),
{
    let ghost x = crate::message::item_views(a@);
    let ghost y = crate::message::item_views(b@);
    if a.len() != b.len() {
        assert(x.len() != y.len());
        return false;
    }
    let mut i: usize = 0;
    while i < a.len()
        invariant
            a.len() == b.len(),
            i <= a.len(),
            x == crate::message::item_views(a@),
            y == crate::message::item_views(b@),
            forall|j: int| 0 <= j < i ==> (#[trigger] a[j])@ == b[j]@,
        decreases a.len() - i,
    {
        if !same_render_item(&a[i], &b[i]) {
            assert(x[i as int] != y[i as int]);
            return false;
        }
        i += 1;
    }
    assert(x =~= y);
    true
}

/// Whether two frames have the same content, wherever they are shown: a frame
/// that only moves keeps what was laid out for it.
pub fn same_content(a: &RenderSnapshot, b: &RenderSnapshot) -> (r: bool)
    ensures
        r == same_frame_content(a@, b@),
{
    let same_preedit: bool = match (&a.preedit, &b.preedit) {
        (Some(p), Some(q)) => {
            let same: bool = p.text == q.text && p.cursor_utf16 == q.cursor_utf16;
            assert(same == (p@ == q@));
            same
        },
        (None, None) => true,
        _ => false,
    };
    a.session_id == b.session_id && same_preedit && a.token == b.token && a.revision == b.revision
        && same_render_items(&a.items, &b.items) && a.selected_index == b.selected_index
        && a.page_start == b.page_start && a.total_item_count == b.total_item_count
        && a.can_page_previous == b.can_page_previous && a.can_page_next == b.can_page_next
}

/// A frame that is moved, renumbered, shown or hidden keeps its content.
pub proof fn law_layout_only_keeps_content(
    s: RenderSnapshotView,
    anchor: Option<RenderRect>,
    sequence: u64,
    visible: bool,
)
    ensures
        same_frame_content(s, RenderSnapshotView { anchor, sequence, visible, ..s }),
{
}

} // verus!
