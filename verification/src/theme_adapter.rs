//! Between the protocol's frames and what a theme is given.
use crate::message::{ModeIndicatorReason, RenderSnapshot};
#[allow(unused_imports)]
use crate::message::{RenderItemView, RenderSnapshotView};
use crate::state::Owner;
use crate::theme_api::{Anchor, CandidateItem, CandidateView, EventSink, Preedit, ThemeModeIndicator};
#[allow(unused_imports)]
use crate::theme_api::{CandidateItemView, CandidateViewView, FrameView, PreeditView};
use vstd::prelude::*;

pub mod laws;

verus! {

/// An item, as a theme is given it.
pub open spec fn theme_item(item: RenderItemView) -> CandidateItemView {
    CandidateItemView {
        primary_text: item.primary_text,
        secondary_text: item.secondary_text,
        enabled: item.enabled,
    }
}

/// A frame, as a theme is given it: its content, without the identity of the
/// session. An indicator without a reason is left out.
pub open spec fn theme_view(s: RenderSnapshotView, content_id: u64) -> CandidateViewView {
    CandidateViewView {
        content_id,
        visible: s.visible,
        active: s.active,
        ascii_mode: s.ascii_mode,
        mode_indicator: match s.mode_indicator {
            Some(m) if m.reason != ModeIndicatorReason::Unspecified => Some(
                ThemeModeIndicator { id: m.id, ascii_mode: m.ascii_mode, reason: m.reason },
            ),
            _ => None,
        },
        preedit: match s.preedit {
            Some(p) => Some(PreeditView { text: p.text, cursor: p.cursor_utf16 }),
            None => None,
        },
        anchor: match s.anchor {
            Some(r) => Some(
                Anchor {
                    left: r.left,
                    top: r.top,
                    right: r.right,
                    bottom: r.bottom,
                    valid: r.valid,
                },
            ),
            None => None,
        },
        items: Seq::new(s.items.len(), |i: int| theme_item(s.items[i])),
        selected_index: s.selected_index,
        page_start: s.page_start,
        total_item_count: s.total_item_count,
        can_page_previous: s.can_page_previous,
        can_page_next: s.can_page_next,
    }
}

/// Copies a frame into what a theme is given, under the number of its content.
pub fn view(snapshot: &RenderSnapshot, content_id: u64) -> (r: CandidateView)
    ensures
        r@ == theme_view(snapshot@, content_id),
{
    let mut items: Vec<CandidateItem> = Vec::new();
    let mut i: usize = 0;
    while i < snapshot.items.len()
        invariant
            i <= snapshot.items.len(),
            items.len() == i,
            forall|j: int| 0 <= j < i ==> (#[trigger] items[j])@ == theme_item(snapshot.items[j]@),
        decreases snapshot.items.len() - i,
    {
        items.push(
            CandidateItem {
                primary_text: snapshot.items[i].primary_text.clone(),
                secondary_text: snapshot.items[i].secondary_text.clone(),
                enabled: snapshot.items[i].enabled,
            },
        );
        i += 1;
    }
    let r = CandidateView {
        content_id,
        visible: snapshot.visible,
        active: snapshot.active,
        ascii_mode: snapshot.ascii_mode,
        mode_indicator: match snapshot.mode_indicator {
            Some(m) => if m.reason != ModeIndicatorReason::Unspecified {
                Some(
                    ThemeModeIndicator { id: m.id, ascii_mode: m.ascii_mode, reason: m.reason },
                )
            } else {
                None
            },
            None => None,
        },
        preedit: match &snapshot.preedit {
            Some(p) => Some(Preedit { text: p.text.clone(), cursor: p.cursor_utf16 }),
            None => None,
        },
        anchor: match snapshot.anchor {
            Some(r) => Some(
                Anchor {
                    left: r.left,
                    top: r.top,
                    right: r.right,
                    bottom: r.bottom,
                    valid: r.valid,
                },
            ),
            None => None,
        },
        items,
        selected_index: snapshot.selected_index,
        page_start: snapshot.page_start,
        total_item_count: snapshot.total_item_count,
        can_page_previous: snapshot.can_page_previous,
        can_page_next: snapshot.can_page_next,
    };
    assert(r@.items =~= theme_view(snapshot@, content_id).items);
    r
}

/// The identity of a frame of a connection, and the actions that it allows.
pub open spec fn frame_of(owner: Owner, s: RenderSnapshotView) -> FrameView {
    FrameView {
        owner,
        session_id: s.session_id,
        token: s.token,
        revision: s.revision,
        enabled: Seq::new(s.items.len(), |i: int| s.items[i].enabled),
        previous: s.can_page_previous,
        next: s.can_page_next,
    }
}

/// What takes the actions of a frame. It keeps the frame's identity: later
/// frames do not change what it answers.
pub fn events(owner: Owner, snapshot: &RenderSnapshot) -> (r: EventSink)
    ensures
        r@ == frame_of(owner, snapshot@),
{
    let mut enabled: Vec<bool> = Vec::new();
    let mut i: usize = 0;
    while i < snapshot.items.len()
        invariant
            i <= snapshot.items.len(),
            enabled.len() == i,
            forall|j: int| 0 <= j < i ==> #[trigger] enabled[j] == snapshot.items[j]@.enabled,
        decreases snapshot.items.len() - i,
    {
        enabled.push(snapshot.items[i].enabled);
        i += 1;
    }
    assert(enabled@ =~= frame_of(owner, snapshot@).enabled);
    EventSink::new(
        owner,
        snapshot.session_id,
        snapshot.token,
        snapshot.revision,
        enabled,
        snapshot.can_page_previous,
        snapshot.can_page_next,
    )
}

/// Whatever a theme reports of a frame, the event carries the frame's own
/// session, token and revision, and names an item only if the frame has it
/// enabled.
pub proof fn law_events_keep_the_frame_identity(
    owner: Owner,
    s: RenderSnapshotView,
    action: crate::theme_api::UiAction,
)
    ensures
        frame_of(owner, s).owner == owner,
        frame_of(owner, s).session_id == s.session_id,
        frame_of(owner, s).token == s.token,
        frame_of(owner, s).revision == s.revision,
        crate::theme_api::frame_action(frame_of(owner, s), action) matches Some(
            (crate::message::RendererEventAction::ItemInvoked, i),
        ) ==> i < s.items.len() && s.items[i as int].enabled,
{
}

} // verus!
