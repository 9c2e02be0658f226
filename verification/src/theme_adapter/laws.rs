//! What of a frame reaches a theme, and what of a theme's events reaches the frame.
#[allow(unused_imports)]
use super::{frame_of, theme_view};
#[allow(unused_imports)]
use crate::message::{ModeIndicatorReason, RendererEvent, RendererEventAction, RenderSnapshotView};
#[allow(unused_imports)]
use crate::state::{same_frame_content, Owner};
#[allow(unused_imports)]
use crate::theme_api::{same_view_content, sent, UiAction};
use vstd::prelude::*;

verus! {

/// Row by row, a theme is given the texts of the frame's items in their order, with what
/// may be chosen, what is selected and which pages there are.
pub proof fn law_theme_gets_every_row(s: RenderSnapshotView, content_id: u64)
    ensures
        ({
            let view = theme_view(s, content_id);
            &&& view.items.len() == s.items.len()
            &&& forall|i: int|
                #![trigger view.items[i]]
                0 <= i < s.items.len() ==> view.items[i].primary_text == s.items[i].primary_text
                    && view.items[i].secondary_text == s.items[i].secondary_text
                    && view.items[i].enabled == s.items[i].enabled
            &&& view.selected_index == s.selected_index
            &&& view.page_start == s.page_start
            &&& view.total_item_count == s.total_item_count
            &&& view.can_page_previous == s.can_page_previous
            &&& view.can_page_next == s.can_page_next
            &&& view.content_id == content_id
            &&& view.visible == s.visible
            &&& view.active == s.active
            &&& view.ascii_mode == s.ascii_mode
        }),
{
}

/// A theme is given the composition with its cursor, the place of the input and the mode
/// indicator as the frame has them; only an indicator without a reason is left out.
pub proof fn law_theme_gets_text_and_place(s: RenderSnapshotView, content_id: u64)
    ensures
        ({
            let view = theme_view(s, content_id);
            &&& view.preedit is Some <==> s.preedit is Some
            &&& s.preedit is Some ==> view.preedit->0.text == s.preedit->0.text
                && view.preedit->0.cursor == s.preedit->0.cursor_utf16
            &&& view.anchor is Some <==> s.anchor is Some
            &&& s.anchor is Some ==> view.anchor->0.left == s.anchor->0.left
                && view.anchor->0.top == s.anchor->0.top && view.anchor->0.right
                == s.anchor->0.right && view.anchor->0.bottom == s.anchor->0.bottom
                && view.anchor->0.valid == s.anchor->0.valid
            &&& view.mode_indicator is Some <==> s.mode_indicator is Some
                && s.mode_indicator->0.reason != ModeIndicatorReason::Unspecified
            &&& view.mode_indicator is Some ==> view.mode_indicator->0.id
                == s.mode_indicator->0.id && view.mode_indicator->0.ascii_mode
                == s.mode_indicator->0.ascii_mode && view.mode_indicator->0.reason
                == s.mode_indicator->0.reason
        }),
{
}

/// A click on a row of a frame comes back as the invocation of that row, with the frame's
/// session, token and revision, to the connection that sent the frame; of a row that cannot
/// be chosen, or that the frame does not have, nothing comes back.
pub proof fn law_click_comes_back_for_its_row(owner: Owner, s: RenderSnapshotView, row: u32)
    ensures
        sent(frame_of(owner, s), UiAction::ItemInvoked(row)) == (if row < s.items.len()
            && s.items[row as int].enabled {
            Some(
                (
                    owner,
                    RendererEvent {
                        session_id: s.session_id,
                        token: s.token,
                        revision: s.revision,
                        action: RendererEventAction::ItemInvoked,
                        item_index: row,
                    },
                ),
            )
        } else {
            None
        }),
{
}

/// Whether an event is the given action of a frame, on its way to the frame's connection.
pub open spec fn answers(
    event: Option<(Owner, RendererEvent)>,
    owner: Owner,
    s: RenderSnapshotView,
    action: RendererEventAction,
) -> bool {
    event matches Some((to, event)) && to == owner && event.session_id == s.session_id
        && event.token == s.token && event.revision == s.revision && event.action == action
}

/// Turning a page comes back as such, in its own direction, exactly where the frame offers
/// that page; dismissing the frame and opening the emoji panel always do.
pub proof fn law_buttons_come_back_as_they_are(owner: Owner, s: RenderSnapshotView)
    ensures
        ({
            let frame = frame_of(owner, s);
            let previous = sent(frame, UiAction::NavigatePrevious);
            let next = sent(frame, UiAction::NavigateNext);
            let dismiss = sent(frame, UiAction::Dismiss);
            let emoji = sent(frame, UiAction::OpenEmojiPanel);
            &&& if s.can_page_previous {
                answers(previous, owner, s, RendererEventAction::NavigatePrevious)
            } else {
                previous is None
            }
            &&& if s.can_page_next {
                answers(next, owner, s, RendererEventAction::NavigateNext)
            } else {
                next is None
            }
            &&& answers(dismiss, owner, s, RendererEventAction::Dismiss)
            &&& answers(emoji, owner, s, RendererEventAction::OpenEmojiPanel)
        }),
{
}

/// Frames of one content are one to a theme: it is given the same rows, composition,
/// selection and pages, and their events come back alike.
pub proof fn law_same_content_looks_the_same(
    a: RenderSnapshotView,
    b: RenderSnapshotView,
    content_id: u64,
    owner: Owner,
)
    requires
        same_frame_content(a, b),
    ensures
        theme_view(a, content_id).items == theme_view(b, content_id).items,
        theme_view(a, content_id).preedit == theme_view(b, content_id).preedit,
        same_view_content(theme_view(a, content_id), theme_view(b, content_id)),
        frame_of(owner, a) == frame_of(owner, b),
{
    assert(theme_view(a, content_id).items =~= theme_view(b, content_id).items);
    assert(frame_of(owner, a) =~= frame_of(owner, b));
}

/// Frames that a theme would show or answer differently are not of one content.
pub proof fn law_different_looks_are_different_content(
    a: RenderSnapshotView,
    b: RenderSnapshotView,
    content_id: u64,
    owner: Owner,
)
    ensures
        !same_view_content(theme_view(a, content_id), theme_view(b, content_id))
            ==> !same_frame_content(a, b),
        frame_of(owner, a) != frame_of(owner, b) ==> !same_frame_content(a, b),
        a.preedit != b.preedit ==> !same_frame_content(a, b),
        a.items != b.items ==> !same_view_content(theme_view(a, content_id), theme_view(b, content_id))
            || exists|i: int| 0 <= i < a.items.len() && (#[trigger] a.items[i]).kind != b.items[i].kind,
{
    assert(same_frame_content(a, b) ==> theme_view(a, content_id).items =~= theme_view(
        b,
        content_id,
    ).items);
    assert(same_frame_content(a, b) ==> frame_of(owner, a) =~= frame_of(owner, b));
    let x = theme_view(a, content_id);
    let y = theme_view(b, content_id);
    if a.items != b.items && same_view_content(x, y) {
        assert(x.items.len() == a.items.len() && y.items.len() == b.items.len());
        if forall|i: int| 0 <= i < a.items.len() ==> (#[trigger] a.items[i]).kind == b.items[i].kind {
            assert forall|i: int| 0 <= i < a.items.len() implies a.items[i] == b.items[i] by {
                assert(x.items[i] == y.items[i]);
                assert(a.items[i].kind == b.items[i].kind);
            }
            assert(a.items =~= b.items);
        }
    }
}

/// Two views that differ in their rows, their selection or their pages differ in content;
/// so do two of different numbers.
pub proof fn law_views_differ_by_what_they_show(
    a: crate::theme_api::CandidateViewView,
    b: crate::theme_api::CandidateViewView,
)
    ensures
        same_view_content(a, b) ==> a.items == b.items && a.selected_index == b.selected_index
            && a.page_start == b.page_start && a.total_item_count == b.total_item_count
            && a.can_page_previous == b.can_page_previous && a.can_page_next == b.can_page_next
            && a.content_id == b.content_id,
{
}

} // verus!
