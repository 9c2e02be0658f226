//! What the server hands to the renderer, and how the link to it is kept.
use crate::message::{
    Candidate, KeyEventResponse, RenderItem, RenderPreedit, RenderRect,
    RenderSnapshot, RendererEvent,
};
#[allow(unused_imports)]
use crate::message::{
    CandidateView, KeyEventResponseView, RenderItemView, RenderPreeditView, RenderSnapshotView,
};
use vstd::prelude::*;

pub mod laws;

verus! {

/// The row that shows a candidate.
pub open spec fn candidate_item(candidate: CandidateView) -> RenderItemView {
    RenderItemView {
        primary_text: candidate.text,
        secondary_text: candidate.comment,
        enabled: true,
        kind: "candidate"@,
    }
}

/// Whether the renderer shows the composition of a response.
pub open spec fn shows_preedit(response: KeyEventResponseView) -> bool {
    response.external_preedit && response.composing
}

/// What the renderer shows for a response: its page of candidates and, where
/// the composition is external, its text; visible where there is something to
/// show and a valid place to show it.
pub open spec fn snapshot_of(
    session_id: u64,
    revision: u64,
    response: KeyEventResponseView,
    anchor: RenderRect,
) -> RenderSnapshotView {
    RenderSnapshotView {
        sequence: 0,
        session_id,
        revision,
        active: true,
        visible: (response.candidates.len() > 0 || shows_preedit(response)) && anchor.valid,
        ascii_mode: response.ascii_mode,
        preedit: if shows_preedit(response) {
            Some(
                RenderPreeditView {
                    text: response.composition,
                    cursor_utf16: response.composition_cursor,
                },
            )
        } else {
            None
        },
        anchor: Some(anchor),
        items: Seq::new(
            response.candidates.len(),
            |i: int| candidate_item(response.candidates[i]),
        ),
        selected_index: response.selected_candidate,
        page_start: response.page_start,
        total_item_count: None,
        can_page_previous: response.can_page_previous,
        can_page_next: response.can_page_next,
        token: response.token,
        mode_indicator: None,
    }
}

/// Builds what the renderer shows for a response. The sequence stays zero until
/// the snapshot is published.
pub fn render_snapshot(
    session_id: u64,
    revision: u64,
    response: &KeyEventResponse,
    anchor: &RenderRect,
) -> (r: RenderSnapshot)
    ensures
        r@ == snapshot_of(session_id, revision, response@, *anchor),
{
    let mut items: Vec<RenderItem> = Vec::new();
    let mut i: usize = 0;
    while i < response.candidates.len()
        invariant
            i <= response.candidates.len(),
            items.len() == i,
            forall|j: int|
                0 <= j < i ==> (#[trigger] items[j])@ == candidate_item(response.candidates[j]@),
        decreases response.candidates.len() - i,
    {
        let candidate: &Candidate = &response.candidates[i];
        items.push(
            RenderItem {
                primary_text: candidate.text.clone(),
                secondary_text: candidate.comment.clone(),
                enabled: true,
                kind: "candidate".to_owned(),
            },
        );
        i += 1;
    }
    let external: bool = response.external_preedit && response.composing;
    let r = RenderSnapshot {
        sequence: 0,
        session_id,
        revision,
        active: true,
        visible: (response.candidates.len() > 0 || external) && anchor.valid,
        ascii_mode: response.ascii_mode,
        preedit: if external {
            Some(
                RenderPreedit {
                    text: response.composition.clone(),
                    cursor_utf16: response.composition_cursor,
                },
            )
        } else {
            None
        },
        anchor: Some(*anchor),
        items,
        selected_index: response.selected_candidate,
        page_start: response.page_start,
        total_item_count: None,
        can_page_previous: response.can_page_previous,
        can_page_next: response.can_page_next,
        token: response.token,
        mode_indicator: None,
    };
    assert(r@.items =~= snapshot_of(session_id, revision, response@, *anchor).items);
    r
}

/// A snapshot is visible only where it has a valid anchor and something to show.
pub proof fn law_visible_snapshot_has_content(
    session_id: u64,
    revision: u64,
    response: KeyEventResponseView,
    anchor: RenderRect,
)
    ensures
        snapshot_of(session_id, revision, response, anchor).visible ==> anchor.valid && (
        snapshot_of(session_id, revision, response, anchor).items.len() > 0 || snapshot_of(
            session_id,
            revision,
            response,
            anchor,
        ).preedit is Some),
{
}

/// The slot that holds the latest snapshot, and what the renderer can show.
pub struct RendererPublisher {
    preedit: bool,
    snapshot: Option<RenderSnapshot>,
    sequence: u64,
}

impl RendererPublisher {
    /// The snapshot that waits for the renderer.
    pub closed spec fn latest_view(&self) -> Option<RenderSnapshotView> {
        match self.snapshot {
            Some(s) => Some(s@),
            None => None,
        }
    }

    /// Number of snapshots published so far.
    pub closed spec fn published(&self) -> u64 {
        self.sequence
    }

    /// Whether the renderer shows compositions.
    pub closed spec fn preedit(&self) -> bool {
        self.preedit
    }

    /// An empty slot, and a renderer of which nothing is known.
    pub fn channel() -> (r: Self)
        ensures
            r.latest_view() is None,
            r.published() == 0,
            !r.preedit(),
    {
        RendererPublisher { preedit: false, snapshot: None, sequence: 0 }
    }

    /// Puts a snapshot into the slot in place of the one that was there, and
    /// numbers it by the order of publication, whatever number it came with.
    pub fn publish(&mut self, snapshot: RenderSnapshot)
        requires
            old(self).published() < u64::MAX,
        ensures
            final(self).published() == old(self).published() + 1,
            final(self).latest_view() == Some(
                RenderSnapshotView { sequence: final(self).published(), ..snapshot@ },
            ),
            final(self).preedit() == old(self).preedit(),
    {
        let mut snapshot = snapshot;
        let ghost before = snapshot@;
        self.sequence = self.sequence + 1;
        snapshot.sequence = self.sequence;
        assert(snapshot@ == (RenderSnapshotView { sequence: self.sequence, ..before }));
        self.snapshot = Some(snapshot);
    }

    /// The snapshot that waits for the renderer.
    pub fn latest(&self) -> (r: Option<&RenderSnapshot>)
        ensures
            match r {
                Some(s) => self.latest_view() == Some(s@),
                None => self.latest_view() is None,
            },
    {
        match &self.snapshot {
            Some(s) => Some(s),
            None => None,
        }
    }

    /// Whether the renderer was last found to show compositions.
    pub fn supports_preedit(&self) -> (r: bool)
        ensures
            r == self.preedit(),
    {
        self.preedit
    }

    /// Stores what was found out about the renderer.
    pub fn set_preedit(&mut self, supported: bool)
        ensures
            final(self).preedit() == supported,
            final(self).published() == old(self).published(),
            final(self).latest_view() == old(self).latest_view(),
    {
        self.preedit = supported;
    }
}

/// Whether the renderer's answer to the question for its preedit capability
/// says yes: only the JSON text `true` does.
pub fn preedit_capability(json: &Option<String>) -> (r: bool)
    ensures
        r == (json matches Some(text) && text@ == "true"@),
{
    match json {
        Some(text) => *text == "true".to_owned(),
        None => false,
    }
}

/// How long to wait before the renderer is tried again, in milliseconds.
pub const RECONNECT_DELAY: u64 = 250;

/// How long the renderer may take to tell what it can show, in milliseconds.
pub const CAPABILITY_TIMEOUT: u64 = 2000;

/// Where the way to the renderer stands.
#[derive(Clone, Copy, Debug, PartialEq, Eq, Structural)]
pub enum BridgePhase {
    /// Nothing to show yet.
    Waiting,
    Connecting,
    /// The renderer is asked what it can show.
    Asking,
    /// Frames go out, and the user's actions come in.
    Serving,
    Ended,
}

/// What happens on the way to the renderer.
#[derive(Clone, Copy, Debug, PartialEq, Eq, Structural)]
pub enum BridgeEvent {
    /// The task has started, or has waited before another attempt.
    Started,
    /// There is a newer frame.
    FrameChanged,
    /// There will be no more frames.
    FramesEnded,
    Connected,
    ConnectFailed,
    /// What the renderer can show; none where it did not tell, or not in time.
    Capability(Option<bool>),
    /// Whether the frame went out.
    Published(bool),
    User(RendererEvent),
    /// Some of the renderer's messages were missed, or are of no concern.
    Unrelated,
    /// The renderer's messages have ended, or the connection is lost.
    Lost,
}

/// What the bridge does.
#[derive(Clone, Copy, Debug, PartialEq, Eq, Structural)]
pub enum BridgeAction {
    /// Wait for a newer frame.
    AwaitFrame,
    Connect,
    /// Wait for some milliseconds before another attempt.
    Sleep(u64),
    /// Ask what the renderer can show, and wait for some milliseconds at most.
    AskCapability(u64),
    SetPreedit(bool),
    WakeEngine,
    /// Send the latest frame, where there is one.
    PublishLatest,
    /// Wait for a newer frame, a message, or the end of the connection.
    AwaitAny,
    /// Hand the action to the engine, if there is room.
    Forward(RendererEvent),
    Disconnect,
}

/// How a round begins: at once where the renderer is wanted in any case, and else
/// with the first visible frame.
pub open spec fn bridge_round(wanted: bool) -> (BridgePhase, Seq<BridgeAction>) {
    if wanted {
        (BridgePhase::Connecting, seq![BridgeAction::Connect])
    } else {
        (BridgePhase::Waiting, seq![BridgeAction::AwaitFrame])
    }
}

/// How a connection ends: the engine learns that no renderer shows compositions.
pub open spec fn bridge_lost(wanted: bool) -> (BridgePhase, Seq<BridgeAction>) {
    (
        bridge_round(wanted).0,
        seq![
            BridgeAction::SetPreedit(false),
            BridgeAction::WakeEngine,
            BridgeAction::Disconnect,
        ] + bridge_round(wanted).1,
    )
}

/// What follows an event; `wanted` says whether the renderer is wanted in any case,
/// or the latest frame is visible. What does not belong to a phase changes nothing.
pub open spec fn bridge_next(phase: BridgePhase, event: BridgeEvent, wanted: bool) -> (
    BridgePhase,
    Seq<BridgeAction>,
) {
    match (phase, event) {
        (BridgePhase::Waiting, BridgeEvent::Started | BridgeEvent::FrameChanged) => bridge_round(
            wanted,
        ),
        (BridgePhase::Waiting, BridgeEvent::FramesEnded) => (BridgePhase::Ended, Seq::empty()),
        (BridgePhase::Connecting, BridgeEvent::ConnectFailed) => (
            BridgePhase::Waiting,
            seq![BridgeAction::Sleep(RECONNECT_DELAY)],
        ),
        (BridgePhase::Connecting, BridgeEvent::Connected) => (
            BridgePhase::Asking,
            seq![BridgeAction::AskCapability(CAPABILITY_TIMEOUT)],
        ),
        (BridgePhase::Asking, BridgeEvent::Capability(supported)) => (
            BridgePhase::Serving,
            seq![
                BridgeAction::SetPreedit(supported == Some(true)),
                BridgeAction::WakeEngine,
                BridgeAction::PublishLatest,
            ],
        ),
        (BridgePhase::Serving, BridgeEvent::Published(true)) => (
            BridgePhase::Serving,
            seq![BridgeAction::AwaitAny],
        ),
        (BridgePhase::Serving, BridgeEvent::Published(false) | BridgeEvent::Lost) => bridge_lost(
            wanted,
        ),
        (BridgePhase::Serving, BridgeEvent::FrameChanged) => (
            BridgePhase::Serving,
            seq![BridgeAction::PublishLatest],
        ),
        (BridgePhase::Serving, BridgeEvent::FramesEnded) => (
            BridgePhase::Ended,
            seq![BridgeAction::Disconnect],
        ),
        (BridgePhase::Serving, BridgeEvent::User(event)) => (
            BridgePhase::Serving,
            seq![BridgeAction::Forward(event), BridgeAction::AwaitAny],
        ),
        (BridgePhase::Serving, BridgeEvent::Unrelated) => (
            BridgePhase::Serving,
            seq![BridgeAction::AwaitAny],
        ),
        _ => (phase, Seq::empty()),
    }
}

/// How a round begins.
fn begin_round(wanted: bool) -> (r: (BridgePhase, Vec<BridgeAction>))
    ensures
        (r.0, r.1@) == bridge_round(wanted),
{
    let mut actions: Vec<BridgeAction> = Vec::new();
    let phase: BridgePhase = if wanted {
        actions.push(BridgeAction::Connect);
        BridgePhase::Connecting
    } else {
        actions.push(BridgeAction::AwaitFrame);
        BridgePhase::Waiting
    };
    assert(actions@ =~= bridge_round(wanted).1);
    (phase, actions)
}

/// How a connection ends.
fn lose(wanted: bool) -> (r: (BridgePhase, Vec<BridgeAction>))
    ensures
        (r.0, r.1@) == bridge_lost(wanted),
{
    let (phase, mut round): (BridgePhase, Vec<BridgeAction>) = begin_round(wanted);
    let mut actions: Vec<BridgeAction> = Vec::new();
    actions.push(BridgeAction::SetPreedit(false));
    actions.push(BridgeAction::WakeEngine);
    actions.push(BridgeAction::Disconnect);
    actions.append(&mut round);
    assert(actions@ =~= bridge_lost(wanted).1);
    (phase, actions)
}

/// What follows an event on the way to the renderer.
pub fn spawn(phase: BridgePhase, event: BridgeEvent, wanted: bool) -> (r: (
    BridgePhase,
    Vec<BridgeAction>,
))
    ensures
        (r.0, r.1@) == bridge_next(phase, event, wanted),
{
    let mut actions: Vec<BridgeAction> = Vec::new();
    let next: BridgePhase = match (phase, event) {
        (BridgePhase::Waiting, BridgeEvent::Started | BridgeEvent::FrameChanged) => {
            return begin_round(wanted);
        },
        (BridgePhase::Waiting, BridgeEvent::FramesEnded) => BridgePhase::Ended,
        (BridgePhase::Connecting, BridgeEvent::ConnectFailed) => {
            actions.push(BridgeAction::Sleep(RECONNECT_DELAY));
            BridgePhase::Waiting
        },
        (BridgePhase::Connecting, BridgeEvent::Connected) => {
            actions.push(BridgeAction::AskCapability(CAPABILITY_TIMEOUT));
            BridgePhase::Asking
        },
        (BridgePhase::Asking, BridgeEvent::Capability(supported)) => {
            actions.push(BridgeAction::SetPreedit(supported == Some(true)));
            actions.push(BridgeAction::WakeEngine);
            actions.push(BridgeAction::PublishLatest);
            BridgePhase::Serving
        },
        (BridgePhase::Serving, BridgeEvent::Published(sent)) => {
            if !sent {
                return lose(wanted);
            }
            actions.push(BridgeAction::AwaitAny);
            BridgePhase::Serving
        },
        (BridgePhase::Serving, BridgeEvent::Lost) => {
            return lose(wanted);
        },
        (BridgePhase::Serving, BridgeEvent::FrameChanged) => {
            actions.push(BridgeAction::PublishLatest);
            BridgePhase::Serving
        },
        (BridgePhase::Serving, BridgeEvent::FramesEnded) => {
            actions.push(BridgeAction::Disconnect);
            BridgePhase::Ended
        },
        (BridgePhase::Serving, BridgeEvent::User(event)) => {
            actions.push(BridgeAction::Forward(event));
            actions.push(BridgeAction::AwaitAny);
            BridgePhase::Serving
        },
        (BridgePhase::Serving, BridgeEvent::Unrelated) => {
            actions.push(BridgeAction::AwaitAny);
            BridgePhase::Serving
        },
        _ => phase,
    };
    assert(actions@ =~= bridge_next(phase, event, wanted).1);
    (next, actions)
}

/// Whenever a renderer is lost, the engine is told that none shows compositions,
/// and woken, before anything else.
pub proof fn law_lost_renderer_is_reported(event: BridgeEvent, wanted: bool)
    requires
        event == BridgeEvent::Lost || event == BridgeEvent::Published(false),
    ensures
        ({
            let actions = bridge_next(BridgePhase::Serving, event, wanted).1;
            &&& actions.len() >= 3
            &&& actions[0] == BridgeAction::SetPreedit(false)
            &&& actions[1] == BridgeAction::WakeEngine
        }),
{
}

/// A renderer is believed to show compositions only where it said so.
pub proof fn law_preedit_needs_a_clear_yes(
    phase: BridgePhase,
    event: BridgeEvent,
    wanted: bool,
)
    ensures
        bridge_next(phase, event, wanted).1.contains(BridgeAction::SetPreedit(true)) ==> event
            == BridgeEvent::Capability(Some(true)),
{
}

} // verus!
