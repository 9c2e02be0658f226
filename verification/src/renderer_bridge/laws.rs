//! What a frame shows of a session's state, and what reaches the renderer of it.
#[allow(unused_imports)]
use super::{
    bridge_lost, bridge_next, bridge_round, snapshot_of, BridgeAction, BridgeEvent, BridgePhase,
};
#[allow(unused_imports)]
use crate::message::{
    CandidateView, KeyEventResponseView, RenderItemView, RenderRect, RenderSnapshotView,
    RendererEvent,
};
use vstd::prelude::*;

verus! {

/// Whether a frame has a row for each candidate of a page, in the page's order, with the
/// candidate's text and comment.
pub open spec fn shows_page(frame: RenderSnapshotView, page: Seq<CandidateView>) -> bool {
    &&& frame.items.len() == page.len()
    &&& forall|i: int|
        #![trigger frame.items[i]]
        0 <= i < page.len() ==> frame.items[i].primary_text == page[i].text
            && frame.items[i].secondary_text == page[i].comment && frame.items[i].enabled
}

/// Whether a frame shows a composed text with its cursor exactly where the renderer, and
/// not the host, is to show it.
pub open spec fn shows_text(
    frame: RenderSnapshotView,
    external: bool,
    text: Seq<char>,
    cursor: u32,
) -> bool {
    match frame.preedit {
        Some(preedit) => external && preedit.text == text && preedit.cursor_utf16 == cursor,
        None => !external,
    }
}

/// Row by row, a frame shows the candidates of the state that it was made of, in their
/// order, marks the one that is selected, and offers the pages that there are.
pub proof fn law_frame_shows_the_page_in_order(
    session_id: u64,
    revision: u64,
    response: KeyEventResponseView,
    anchor: RenderRect,
)
    ensures
        ({
            let frame = snapshot_of(session_id, revision, response, anchor);
            &&& shows_page(frame, response.candidates)
            &&& frame.selected_index == response.selected_candidate
            &&& frame.page_start == response.page_start
            &&& frame.can_page_previous == response.can_page_previous
            &&& frame.can_page_next == response.can_page_next
            &&& frame.total_item_count is None
        }),
{
}

/// Two states with different pages, or with different composed texts that the renderer is
/// to show, never give the same frame.
pub proof fn law_different_pages_give_different_frames(
    session_id: u64,
    revision: u64,
    a: KeyEventResponseView,
    b: KeyEventResponseView,
    anchor: RenderRect,
)
    requires
        snapshot_of(session_id, revision, a, anchor) == snapshot_of(
            session_id,
            revision,
            b,
            anchor,
        ),
    ensures
        a.candidates == b.candidates,
        a.selected_candidate == b.selected_candidate,
        (a.external_preedit && a.composing) == (b.external_preedit && b.composing),
        a.external_preedit && a.composing ==> a.composition == b.composition
            && a.composition_cursor == b.composition_cursor,
{
    let first = snapshot_of(session_id, revision, a, anchor);
    let second = snapshot_of(session_id, revision, b, anchor);
    assert(a.candidates.len() == first.items.len());
    assert(b.candidates.len() == second.items.len());
    assert forall|i: int| 0 <= i < a.candidates.len() implies a.candidates[i]
        == b.candidates[i] by {
        assert(first.items[i].primary_text == a.candidates[i].text);
        assert(second.items[i].primary_text == b.candidates[i].text);
        assert(first.items[i].secondary_text == a.candidates[i].comment);
        assert(second.items[i].secondary_text == b.candidates[i].comment);
    }
    assert(a.candidates =~= b.candidates);
}

/// A frame shows the composed text exactly where something is composed that the host does
/// not show; it is visible exactly where there is something to show and a valid place for
/// it, and that place is the one that was given.
pub proof fn law_frame_is_visible_where_it_can_be(
    session_id: u64,
    revision: u64,
    response: KeyEventResponseView,
    anchor: RenderRect,
)
    ensures
        ({
            let frame = snapshot_of(session_id, revision, response, anchor);
            let external = response.external_preedit && response.composing;
            &&& shows_text(frame, external, response.composition, response.composition_cursor)
            &&& frame.visible <==> anchor.valid && (response.candidates.len() > 0 || external)
            &&& frame.anchor == Some(anchor)
            &&& frame.active
        }),
{
}

/// A frame carries what a click on it is checked against: its session, its revision and
/// its token; and the mode. It shows no indicator by itself.
pub proof fn law_frame_names_its_state(
    session_id: u64,
    revision: u64,
    response: KeyEventResponseView,
    anchor: RenderRect,
)
    ensures
        ({
            let frame = snapshot_of(session_id, revision, response, anchor);
            &&& frame.session_id == session_id
            &&& frame.revision == revision
            &&& frame.token == response.token
            &&& frame.ascii_mode == response.ascii_mode
            &&& frame.mode_indicator is None
        }),
{
}

/// While the renderer is there, every newer frame is sent, and everything that the user
/// does is handed on once, as it is; after that the bridge waits again.
pub proof fn law_serving_passes_everything_on(event: RendererEvent, wanted: bool)
    ensures
        bridge_next(BridgePhase::Serving, BridgeEvent::FrameChanged, wanted) == (
            BridgePhase::Serving,
            seq![BridgeAction::PublishLatest],
        ),
        bridge_next(BridgePhase::Serving, BridgeEvent::User(event), wanted).0
            == BridgePhase::Serving,
        bridge_next(BridgePhase::Serving, BridgeEvent::User(event), wanted).1.len() == 2,
        bridge_next(BridgePhase::Serving, BridgeEvent::User(event), wanted).1[0]
            == BridgeAction::Forward(event),
        bridge_next(BridgePhase::Serving, BridgeEvent::User(event), wanted).1[1]
            == BridgeAction::AwaitAny,
        bridge_next(BridgePhase::Serving, BridgeEvent::Published(true), wanted) == (
            BridgePhase::Serving,
            seq![BridgeAction::AwaitAny],
        ),
        bridge_next(BridgePhase::Serving, BridgeEvent::Unrelated, wanted) == (
            BridgePhase::Serving,
            seq![BridgeAction::AwaitAny],
        ),
{
}

/// What the user did is handed to the engine in no other phase, and for no other event.
pub proof fn law_only_user_actions_are_forwarded(
    phase: BridgePhase,
    event: BridgeEvent,
    wanted: bool,
    action: RendererEvent,
)
    ensures
        bridge_next(phase, event, wanted).1.contains(BridgeAction::Forward(action)) ==> phase
            == BridgePhase::Serving && event == BridgeEvent::User(action),
{
}

/// The renderer is connected to once it is wanted, and not before; an attempt that failed
/// is made again after a pause.
pub proof fn law_renderer_is_connected_when_wanted(phase: BridgePhase, event: BridgeEvent)
    requires
        event == BridgeEvent::Started || event == BridgeEvent::FrameChanged,
    ensures
        bridge_next(BridgePhase::Waiting, event, true) == (
            BridgePhase::Connecting,
            seq![BridgeAction::Connect],
        ),
        bridge_next(BridgePhase::Waiting, event, false) == (
            BridgePhase::Waiting,
            seq![BridgeAction::AwaitFrame],
        ),
        bridge_next(BridgePhase::Connecting, BridgeEvent::ConnectFailed, true).0
            == BridgePhase::Waiting,
        bridge_next(BridgePhase::Connecting, BridgeEvent::ConnectFailed, true).1
            == seq![BridgeAction::Sleep(250)],
        bridge_next(BridgePhase::Connecting, BridgeEvent::ConnectFailed, false)
            == bridge_next(BridgePhase::Connecting, BridgeEvent::ConnectFailed, true),
{
}

/// A renderer that is connected is asked what it can show; once it has answered, or has
/// not, the engine knows and is woken, and the latest frame goes out.
pub proof fn law_connected_renderer_is_asked_and_served(supported: Option<bool>, wanted: bool)
    ensures
        bridge_next(BridgePhase::Connecting, BridgeEvent::Connected, wanted) == (
            BridgePhase::Asking,
            seq![BridgeAction::AskCapability(2000)],
        ),
        ({
            let (phase, actions) = bridge_next(
                BridgePhase::Asking,
                BridgeEvent::Capability(supported),
                wanted,
            );
            &&& phase == BridgePhase::Serving
            &&& actions.len() == 3
            &&& actions[0] == BridgeAction::SetPreedit(supported == Some(true))
            &&& actions[1] == BridgeAction::WakeEngine
            &&& actions[2] == BridgeAction::PublishLatest
        }),
{
}

/// Where there will be no more frames the bridge ends, and leaves no connection open; it
/// then does nothing any more.
pub proof fn law_bridge_ends_with_its_frames(event: BridgeEvent, wanted: bool)
    ensures
        bridge_next(BridgePhase::Waiting, BridgeEvent::FramesEnded, wanted).0
            == BridgePhase::Ended,
        bridge_next(BridgePhase::Serving, BridgeEvent::FramesEnded, wanted) == (
            BridgePhase::Ended,
            seq![BridgeAction::Disconnect],
        ),
        bridge_next(BridgePhase::Ended, event, wanted) == (
            BridgePhase::Ended,
            Seq::<BridgeAction>::empty(),
        ),
{
}

/// A connection that is lost is closed before another round begins: at once where the
/// renderer is wanted, else with the next frame.
pub proof fn law_lost_connection_is_closed(event: BridgeEvent, wanted: bool)
    requires
        event == BridgeEvent::Lost || event == BridgeEvent::Published(false),
    ensures
        ({
            let (phase, actions) = bridge_next(BridgePhase::Serving, event, wanted);
            &&& actions.len() == 4
            &&& actions[2] == BridgeAction::Disconnect
            &&& wanted ==> phase == BridgePhase::Connecting && actions[3] == BridgeAction::Connect
            &&& !wanted ==> phase == BridgePhase::Waiting && actions[3] == BridgeAction::AwaitFrame
        }),
{
}

} // verus!
