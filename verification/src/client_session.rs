//! One input session: what librime's answers and the host's layouts make of it.
use crate::message::{
    ContextAction, ContextToken, FailureCode, KeyEventResponse, LayoutUpdate, ModeIndicator,
    ModeIndicatorReason, RenderRect, RenderSnapshot,
};
#[allow(unused_imports)]
use crate::message::{KeyEventResponseView, RenderSnapshotView};
use crate::renderer_bridge::render_snapshot;
use crate::session_route::SessionRoute;
use crate::text::same_text;
use vstd::prelude::*;

pub mod laws;

verus! {

/// How long a host may take to tell where a mode indicator goes, in milliseconds.
pub const MODE_INDICATOR_LAYOUT_TIMEOUT: u64 = 800;

/// Which changes of the input mode are shown.
#[derive(Clone, Copy, Debug, PartialEq, Eq, Structural)]
pub enum InputModeIndicatorPolicy {
    /// When a field gains the focus, and when the user switches.
    FocusAndSwitch,
    /// When the user switches.
    SwitchOnly,
    Never,
}

/// The policy of a setting.
pub open spec fn policy_of(setting: Option<Seq<char>>) -> InputModeIndicatorPolicy {
    match setting {
        Some(text) => if text == "focus_and_switch"@ {
            InputModeIndicatorPolicy::FocusAndSwitch
        } else if text == "never"@ {
            InputModeIndicatorPolicy::Never
        } else {
            InputModeIndicatorPolicy::SwitchOnly
        },
        None => InputModeIndicatorPolicy::SwitchOnly,
    }
}

impl InputModeIndicatorPolicy {
    /// The policy of a setting; a missing or unknown value means switches only.
    pub fn from_settings(setting: Option<&str>) -> (r: Self)
        ensures
            r == policy_of(
                match setting {
                    Some(text) => Some(text@),
                    None => None,
                },
            ),
    {
        match setting {
            Some(text) => if same_text(text, "focus_and_switch") {
                InputModeIndicatorPolicy::FocusAndSwitch
            } else if same_text(text, "never") {
                InputModeIndicatorPolicy::Never
            } else {
                InputModeIndicatorPolicy::SwitchOnly
            },
            None => InputModeIndicatorPolicy::SwitchOnly,
        }
    }

    /// Whether a change of the given kind is shown.
    pub fn allows(self, reason: ModeIndicatorReason) -> (r: bool)
        ensures
            r == policy_allows(self, reason),
    {
        match self {
            InputModeIndicatorPolicy::FocusAndSwitch => true,
            InputModeIndicatorPolicy::SwitchOnly => reason == ModeIndicatorReason::UserSwitch,
            InputModeIndicatorPolicy::Never => false,
        }
    }
}

/// Whether a change of the given kind is shown.
pub open spec fn policy_allows(
    policy: InputModeIndicatorPolicy,
    reason: ModeIndicatorReason,
) -> bool {
    match policy {
        InputModeIndicatorPolicy::FocusAndSwitch => true,
        InputModeIndicatorPolicy::SwitchOnly => reason == ModeIndicatorReason::UserSwitch,
        InputModeIndicatorPolicy::Never => false,
    }
}

/// A mode indicator that waits for its place.
#[derive(Clone, Copy, Debug, PartialEq, Eq, Structural)]
pub struct PendingModeIndicator {
    pub id: u64,
    pub ascii_mode: bool,
    pub reason: ModeIndicatorReason,
    /// The time, in milliseconds, from which on a place comes too late.
    pub expires_at: u64,
}

/// One input session.
pub struct ClientSession {
    pub id: u64,
    /// Whether the host shows the composition, and not the renderer.
    pub inline_preedit: bool,
    pub connection_id: u64,
    /// Whether the connection is still there.
    pub alive: bool,
    /// Grows with the session's state; what was made on another is refused.
    pub revision: u64,
    pub route: SessionRoute,
    pub anchor: RenderRect,
    /// The revision that a layout must have seen before anything is shown.
    pub waiting_for_layout: Option<u64>,
    /// The revision of the last layout that was taken.
    pub latest_layout_revision: Option<u64>,
    pub pending_mode_indicator: Option<PendingModeIndicator>,
    pub last_response: KeyEventResponse,
}

#[verifier::ext_equal]
pub ghost struct ClientSessionView {
    pub id: u64,
    pub inline_preedit: bool,
    pub connection_id: u64,
    pub alive: bool,
    pub revision: u64,
    pub route: SessionRoute,
    pub anchor: RenderRect,
    pub waiting_for_layout: Option<u64>,
    pub latest_layout_revision: Option<u64>,
    pub pending_mode_indicator: Option<PendingModeIndicator>,
    pub last_response: KeyEventResponseView,
}

impl View for ClientSession {
    type V = ClientSessionView;

    open spec fn view(&self) -> ClientSessionView {
        ClientSessionView {
            id: self.id,
            inline_preedit: self.inline_preedit,
            connection_id: self.connection_id,
            alive: self.alive,
            revision: self.revision,
            route: self.route,
            anchor: self.anchor,
            waiting_for_layout: self.waiting_for_layout,
            latest_layout_revision: self.latest_layout_revision,
            pending_mode_indicator: self.pending_mode_indicator,
            last_response: self.last_response@,
        }
    }
}

/// The revision after a given one; after the last comes zero.
pub open spec fn next_revision(revision: u64) -> u64 {
    if revision == u64::MAX {
        0
    } else {
        (revision + 1) as u64
    }
}

/// The revision after a given one; after the last comes zero.
pub fn advance(revision: u64) -> (r: u64)
    ensures
        r == next_revision(revision),
{
    if revision == u64::MAX {
        0
    } else {
        revision + 1
    }
}

/// Hands out the next number of a mode indicator.
pub fn allocate_mode_indicator_id(next: &mut u64) -> (id: u64)
    requires
        *old(next) < u64::MAX,
    ensures
        id == *old(next),
        *final(next) == id + 1,
{
    let id: u64 = *next;
    *next = id + 1;
    id
}

/// Asks the host for the place of a mode indicator, where the policy shows it and
/// nothing is being composed. An indicator that waits is replaced.
pub fn request_mode_indicator(
    client: &mut ClientSession,
    response: &mut KeyEventResponse,
    next_id: &mut u64,
    policy: InputModeIndicatorPolicy,
    reason: ModeIndicatorReason,
    ascii_mode: bool,
    now: u64,
)
    requires
        *old(next_id) < u64::MAX,
        now <= u64::MAX - MODE_INDICATOR_LAYOUT_TIMEOUT,
    ensures
        (Outcome {
            client: final(client)@,
            response: final(response)@,
            next_indicator: *final(next_id),
        }) == with_indicator(
            old(client)@,
            old(response)@,
            Some((reason, ascii_mode)),
            policy,
            *old(next_id),
            now,
        ),
{
    if !policy.allows(reason) || response.composing {
        return;
    }
    let id: u64 = allocate_mode_indicator_id(next_id);
    client.pending_mode_indicator = Some(
        PendingModeIndicator {
            id,
            ascii_mode,
            reason,
            expires_at: now + MODE_INDICATOR_LAYOUT_TIMEOUT,
        },
    );
    response.mode_indicator_request_id = Some(id);
}

/// What a host is told of a response: where the renderer shows the composition,
/// the host's own stays empty.
pub open spec fn hosted(response: KeyEventResponseView) -> KeyEventResponseView {
    if response.external_preedit {
        KeyEventResponseView { composition: Seq::empty(), composition_cursor: 0, ..response }
    } else {
        response
    }
}

/// What a host is told of a response: where the renderer shows the composition,
/// the host's own stays empty. What is committed, and that something is being
/// composed, stays.
pub fn host_response(response: KeyEventResponse) -> (r: KeyEventResponse)
    ensures
        r@ == hosted(response@),
{
    let mut response = response;
    if response.external_preedit {
        response.composition = String::new();
        response.composition_cursor = 0;
    }
    response
}

/// Whether a response starts a composition.
pub open spec fn starts_composition(
    previous: KeyEventResponseView,
    next: KeyEventResponseView,
) -> bool {
    !previous.composing && next.composing && next.state_updated
}

/// Forgets the caret's place when a composition starts: the candidates wait for
/// the place of this composition. The result is whether they do.
pub fn reset_anchor_for_new_composition(
    previous: &KeyEventResponse,
    next: &KeyEventResponse,
    anchor: &mut RenderRect,
) -> (r: bool)
    ensures
        r == starts_composition(previous@, next@),
        *final(anchor) == (if r { crate::message::no_rect() } else { *old(anchor) }),
{
    if !previous.composing && next.composing && next.state_updated {
        *anchor = RenderRect::default();
        return true;
    }
    false
}

/// Whether a layout is as new as it has to be: no older than what the session
/// waits for, nor than the last one taken. A host that does not say is believed.
pub open spec fn layout_current(
    revision: Option<u64>,
    waiting: Option<u64>,
    latest: Option<u64>,
) -> bool {
    revision matches Some(r) ==> (waiting matches Some(w) ==> r >= w) && (latest matches Some(l)
        ==> r >= l)
}

/// Whether a layout is as new as it has to be.
pub fn layout_matches_pending(
    revision: Option<u64>,
    waiting_for_layout: Option<u64>,
    latest_layout_revision: Option<u64>,
) -> (r: bool)
    ensures
        r == layout_current(revision, waiting_for_layout, latest_layout_revision),
{
    match revision {
        None => true,
        Some(revision) => {
            let required: bool = match waiting_for_layout {
                Some(required) => revision >= required,
                None => true,
            };
            let accepted: bool = match latest_layout_revision {
                Some(accepted) => revision >= accepted,
                None => true,
            };
            required && accepted
        },
    }
}

/// Something for the server to do.
#[derive(Debug, PartialEq, Eq)]
pub enum Effect {
    /// Answer a request; number zero is an update that nobody asked for.
    Reply { connection_id: u64, request_id: u64, response: KeyEventResponse },
    /// Refuse a request.
    Failure { connection_id: u64, request_id: u64, code: FailureCode, message: String },
    /// Confirm that a context is open.
    InputOpened { connection_id: u64, request_id: u64, token: Option<ContextToken> },
    /// Hand a frame to the renderer.
    Publish(RenderSnapshot),
    /// Drop the layouts of a context.
    ForgetLayout { connection_id: u64, context_id: u64 },
    /// Tell a connection how busy it is.
    SetInputState { connection_id: u64, focused: bool, composing: bool },
    /// Set the mode of a new session, and take no answer.
    SetAsciiMode { session_id: u64, ascii_mode: bool },
    /// Destroy a session in librime.
    DropSession(u64),
}

pub ghost enum EffectView {
    Reply { connection_id: u64, request_id: u64, response: KeyEventResponseView },
    Failure { connection_id: u64, request_id: u64, code: FailureCode, message: Seq<char> },
    InputOpened { connection_id: u64, request_id: u64, token: Option<ContextToken> },
    Publish(RenderSnapshotView),
    ForgetLayout { connection_id: u64, context_id: u64 },
    SetInputState { connection_id: u64, focused: bool, composing: bool },
    SetAsciiMode { session_id: u64, ascii_mode: bool },
    DropSession(u64),
}

impl View for Effect {
    type V = EffectView;

    open spec fn view(&self) -> EffectView {
        match *self {
            Effect::Reply { connection_id, request_id, response } => EffectView::Reply {
                connection_id,
                request_id,
                response: response@,
            },
            Effect::Failure { connection_id, request_id, code, message } => EffectView::Failure {
                connection_id,
                request_id,
                code,
                message: message@,
            },
            Effect::InputOpened { connection_id, request_id, token } => EffectView::InputOpened {
                connection_id,
                request_id,
                token,
            },
            Effect::Publish(snapshot) => EffectView::Publish(snapshot@),
            Effect::ForgetLayout { connection_id, context_id } => EffectView::ForgetLayout {
                connection_id,
                context_id,
            },
            Effect::SetInputState { connection_id, focused, composing } =>
                EffectView::SetInputState { connection_id, focused, composing },
            Effect::SetAsciiMode { session_id, ascii_mode } => EffectView::SetAsciiMode {
                session_id,
                ascii_mode,
            },
            Effect::DropSession(id) => EffectView::DropSession(id),
        }
    }
}

/// The views of a list of effects, in order.
pub open spec fn effect_views(s: Seq<Effect>) -> Seq<EffectView> {
    Seq::new(s.len(), |i: int| s[i]@)
}

/// The answer that goes out for a response: what the host is told of it, and
/// whether the engine may be used in secure fields.
pub open spec fn answered(
    connection_id: u64,
    request_id: u64,
    response: KeyEventResponseView,
    allow: bool,
) -> EffectView {
    EffectView::Reply {
        connection_id,
        request_id,
        response: hosted(
            KeyEventResponseView { allow_rime_in_secure_fields: Some(allow), ..response },
        ),
    }
}

/// The answer that goes out for a response.
pub fn reply(
    connection_id: u64,
    request_id: u64,
    response: KeyEventResponse,
    allow_rime_in_secure_fields: bool,
) -> (r: Effect)
    ensures
        r@ == answered(connection_id, request_id, response@, allow_rime_in_secure_fields),
{
    let mut response = response;
    response.allow_rime_in_secure_fields = Some(allow_rime_in_secure_fields);
    Effect::Reply { connection_id, request_id, response: host_response(response) }
}

/// The refusal of a request.
pub open spec fn refused(
    connection_id: u64,
    request_id: u64,
    code: FailureCode,
    message: Seq<char>,
) -> Seq<EffectView> {
    seq![EffectView::Failure { connection_id, request_id, code, message }]
}

/// The refusal of a request.
pub fn failure(connection_id: u64, request_id: u64, code: FailureCode, message: &str) -> (r: Vec<
    Effect,
>)
    ensures
        effect_views(r@) == refused(connection_id, request_id, code, message@),
{
    let mut effects: Vec<Effect> = Vec::new();
    effects.push(
        Effect::Failure { connection_id, request_id, code, message: message.to_owned() },
    );
    assert(effect_views(effects@) =~= refused(connection_id, request_id, code, message@));
    effects
}

/// What a session remembers of a response: all of it where it describes a new
/// state, and its mode and the token in any case.
pub open spec fn remembered(
    last: KeyEventResponseView,
    response: KeyEventResponseView,
    token: Option<ContextToken>,
) -> KeyEventResponseView {
    let base = if response.state_updated {
        KeyEventResponseView { mode_indicator_request_id: None, ..response }
    } else {
        last
    };
    KeyEventResponseView {
        ascii_mode: if response.ascii_mode is Some {
            response.ascii_mode
        } else {
            base.ascii_mode
        },
        token,
        ..base
    }
}

/// What becomes of a session, what it answers, and the next number of a mode
/// indicator.
#[verifier::ext_equal]
pub ghost struct Outcome {
    pub client: ClientSessionView,
    pub response: KeyEventResponseView,
    pub next_indicator: u64,
}

/// Whether the renderer shows what is being composed.
pub open spec fn external(
    c: ClientSessionView,
    response: KeyEventResponseView,
    supports_preedit: bool,
) -> bool {
    response.composing && supports_preedit && !c.inline_preedit
}

/// Whether the mode was known before, is known now, and has changed.
pub open spec fn switched(before: Option<bool>, after: Option<bool>) -> bool {
    before is Some && after is Some && before != after
}

/// Whether something of the session was on the screen.
pub open spec fn was_visible(c: ClientSessionView) -> bool {
    c.anchor.valid && (c.last_response.candidates.len() > 0 || (c.last_response.external_preedit
        && c.last_response.composing))
}

/// The frame of an active session that has nothing to show yet.
pub open spec fn blank_snapshot(
    session_id: u64,
    revision: u64,
    token: Option<ContextToken>,
    ascii_mode: Option<bool>,
) -> RenderSnapshotView {
    RenderSnapshotView {
        session_id,
        revision,
        token,
        active: true,
        ascii_mode,
        ..crate::message::empty_snapshot()
    }
}

/// The frame that takes a session off the screen.
pub open spec fn gone_snapshot(
    session_id: u64,
    revision: u64,
    token: Option<ContextToken>,
) -> RenderSnapshotView {
    RenderSnapshotView { session_id, revision, token, ..crate::message::empty_snapshot() }
}

/// A session and a response, with the mode indicator that is asked for: a single
/// one waits, and the answer carries its number. While something is being
/// composed none is asked for.
pub open spec fn with_indicator(
    c: ClientSessionView,
    response: KeyEventResponseView,
    shown: Option<(ModeIndicatorReason, bool)>,
    policy: InputModeIndicatorPolicy,
    next_indicator: u64,
    now: u64,
) -> Outcome {
    match shown {
        Some((reason, ascii_mode)) if policy_allows(policy, reason) && !response.composing =>
            Outcome {
                client: ClientSessionView {
                    pending_mode_indicator: Some(
                        PendingModeIndicator {
                            id: next_indicator,
                            ascii_mode,
                            reason,
                            expires_at: (now + MODE_INDICATOR_LAYOUT_TIMEOUT) as u64,
                        },
                    ),
                    ..c
                },
                response: KeyEventResponseView {
                    mode_indicator_request_id: Some(next_indicator),
                    ..response
                },
                next_indicator: (next_indicator + 1) as u64,
            },
        _ => Outcome { client: c, response, next_indicator },
    }
}

/// A response with what the session adds to it.
pub open spec fn completed(
    c: ClientSessionView,
    response: KeyEventResponseView,
    revision: u64,
    supports_preedit: bool,
) -> KeyEventResponseView {
    KeyEventResponseView {
        external_preedit: external(c, response, supports_preedit),
        token: c.route.token,
        revision,
        ..response
    }
}

/// The session's revision after librime's answer to a key: a new one where the
/// answer describes a new state.
pub open spec fn key_revision(c: ClientSessionView, response: KeyEventResponseView) -> u64 {
    if response.state_updated {
        next_revision(c.revision)
    } else {
        c.revision
    }
}

/// A session after librime's answer to a key, before any mode indicator. A new
/// composition forgets the caret's place, and waits for the place of its own.
pub open spec fn key_settled(
    c: ClientSessionView,
    response: KeyEventResponseView,
    supports_preedit: bool,
) -> ClientSessionView {
    let revision = key_revision(c, response);
    let starts = starts_composition(c.last_response, response);
    ClientSessionView {
        revision,
        anchor: if starts {
            crate::message::no_rect()
        } else {
            c.anchor
        },
        waiting_for_layout: if starts {
            Some(revision)
        } else if response.state_updated && !response.composing {
            None
        } else {
            c.waiting_for_layout
        },
        pending_mode_indicator: if response.composing {
            None
        } else {
            c.pending_mode_indicator
        },
        last_response: remembered(
            c.last_response,
            completed(c, response, revision, supports_preedit),
            c.route.token,
        ),
        ..c
    }
}

/// What librime's answer to a key does to a session, and what is answered.
#[verifier::opaque]
pub open spec fn after_key(
    c: ClientSessionView,
    response: KeyEventResponseView,
    supports_preedit: bool,
    policy: InputModeIndicatorPolicy,
    next_indicator: u64,
    now: u64,
) -> Outcome {
    with_indicator(
        key_settled(c, response, supports_preedit),
        completed(c, response, key_revision(c, response), supports_preedit),
        if switched(c.last_response.ascii_mode, response.ascii_mode) {
            Some((ModeIndicatorReason::UserSwitch, response.ascii_mode->0))
        } else {
            None
        },
        policy,
        next_indicator,
        now,
    )
}

/// What is shown after a key: while a composition waits for its place, a frame
/// without candidates, and only where that changes what is shown. Whether anything
/// was visible, and the mode, are those of the session before the key.
pub open spec fn key_frame(
    after: ClientSessionView,
    visible: bool,
    mode: Option<bool>,
    state_updated: bool,
    focus_changed: bool,
) -> Option<RenderSnapshotView> {
    if after.waiting_for_layout is Some {
        if visible || focus_changed || mode != after.last_response.ascii_mode {
            Some(
                blank_snapshot(
                    after.id,
                    after.revision,
                    after.route.token,
                    after.last_response.ascii_mode,
                ),
            )
        } else {
            None
        }
    } else if state_updated || focus_changed {
        Some(
            crate::renderer_bridge::snapshot_of(
                after.id,
                after.revision,
                after.last_response,
                after.anchor,
            ),
        )
    } else {
        None
    }
}

/// Whether a command ends what is being composed, and what waits for a place.
pub open spec fn ends_composition(action: ContextAction) -> bool {
    action == ContextAction::Blur || action == ContextAction::Cancel || action
        == ContextAction::Submit || action == ContextAction::HostTerminated
}

/// The mode that a command makes known to the user, and why.
pub open spec fn indicated(
    action: ContextAction,
    before: Option<bool>,
    after: Option<bool>,
) -> Option<(ModeIndicatorReason, bool)> {
    if action == ContextAction::Focus && after is Some {
        Some((ModeIndicatorReason::Focus, after->0))
    } else if action == ContextAction::ToggleAscii && switched(before, after) {
        Some((ModeIndicatorReason::UserSwitch, after->0))
    } else {
        None
    }
}

/// A session after librime's answer to a command, before any mode indicator.
pub open spec fn command_settled(
    c: ClientSessionView,
    action: ContextAction,
    response: KeyEventResponseView,
    supports_preedit: bool,
) -> ClientSessionView {
    let revision = next_revision(c.revision);
    ClientSessionView {
        revision,
        waiting_for_layout: if ends_composition(action) || (response.state_updated
            && !response.composing) {
            None
        } else {
            c.waiting_for_layout
        },
        pending_mode_indicator: if ends_composition(action) || response.composing {
            None
        } else {
            c.pending_mode_indicator
        },
        last_response: remembered(
            c.last_response,
            completed(c, response, revision, supports_preedit),
            c.route.token,
        ),
        ..c
    }
}

/// What librime's answer to a command does to a session, and what is answered.
#[verifier::opaque]
pub open spec fn after_command(
    c: ClientSessionView,
    action: ContextAction,
    response: KeyEventResponseView,
    supports_preedit: bool,
    policy: InputModeIndicatorPolicy,
    next_indicator: u64,
    now: u64,
) -> Outcome {
    with_indicator(
        command_settled(c, action, response, supports_preedit),
        completed(c, response, next_revision(c.revision), supports_preedit),
        indicated(action, c.last_response.ascii_mode, response.ascii_mode),
        policy,
        next_indicator,
        now,
    )
}

/// What is shown after a command: the session where it is the active one, and
/// nothing where it no longer is.
pub open spec fn command_frame(
    c: ClientSessionView,
    was_active: bool,
    is_active: bool,
) -> Option<RenderSnapshotView> {
    if is_active {
        Some(crate::renderer_bridge::snapshot_of(c.id, c.revision, c.last_response, c.anchor))
    } else if was_active {
        Some(gone_snapshot(c.id, c.revision, c.route.token))
    } else {
        None
    }
}

/// What librime's answer to a click does to a session.
pub open spec fn after_click(
    c: ClientSessionView,
    response: KeyEventResponseView,
    supports_preedit: bool,
) -> (ClientSessionView, KeyEventResponseView, RenderSnapshotView) {
    let revision = next_revision(c.revision);
    let full = completed(c, response, revision, supports_preedit);
    (
        ClientSessionView {
            revision,
            waiting_for_layout: if response.composing {
                c.waiting_for_layout
            } else {
                None
            },
            last_response: full,
            ..c
        },
        full,
        crate::renderer_bridge::snapshot_of(c.id, revision, full, c.anchor),
    )
}

/// A session whose composition goes back to the host, since no renderer shows it
/// any more.
pub open spec fn back_inline(c: ClientSessionView) -> ClientSessionView {
    let revision = next_revision(c.revision);
    ClientSessionView {
        revision,
        last_response: KeyEventResponseView {
            external_preedit: false,
            revision,
            ..c.last_response
        },
        ..c
    }
}

/// What the host is told when a composition goes back to it: the state as it is,
/// without committing or opening anything again.
pub open spec fn inline_again(last: KeyEventResponseView) -> KeyEventResponseView {
    KeyEventResponseView {
        commit_text: Seq::empty(),
        open_emoji_panel: false,
        state_updated: true,
        eaten: false,
        ..last
    }
}

/// The caret's place that a layout brings.
pub open spec fn layout_anchor(update: LayoutUpdate) -> RenderRect {
    match update.anchor {
        Some(anchor) => anchor,
        None => crate::message::no_rect(),
    }
}

/// What a layout does to a session, and what it shows. The answer to a mode
/// indicator's question shows the indicator, in time and while nothing is being
/// composed; it does not move the candidates. Any other layout moves them, unless
/// it is too old.
pub open spec fn after_layout(c: ClientSessionView, update: LayoutUpdate, now: u64) -> (
    ClientSessionView,
    Option<RenderSnapshotView>,
) {
    let anchor = layout_anchor(update);
    match update.mode_indicator_request_id {
        Some(request_id) => match c.pending_mode_indicator {
            Some(pending) if pending.id == request_id => (
                ClientSessionView { pending_mode_indicator: None, ..c },
                if now < pending.expires_at && anchor.valid && !c.last_response.composing {
                    Some(
                        RenderSnapshotView {
                            mode_indicator: Some(
                                ModeIndicator {
                                    id: pending.id,
                                    ascii_mode: pending.ascii_mode,
                                    reason: pending.reason,
                                },
                            ),
                            ..crate::renderer_bridge::snapshot_of(
                                c.id,
                                c.revision,
                                c.last_response,
                                anchor,
                            )
                        },
                    )
                } else {
                    None
                },
            ),
            _ => (c, None),
        },
        None => if layout_current(update.revision, c.waiting_for_layout, c.latest_layout_revision) {
            let ready = c.waiting_for_layout is Some && anchor.valid;
            let waiting = if ready {
                None
            } else {
                c.waiting_for_layout
            };
            (
                ClientSessionView {
                    latest_layout_revision: if update.revision is Some {
                        update.revision
                    } else {
                        c.latest_layout_revision
                    },
                    waiting_for_layout: waiting,
                    anchor,
                    ..c
                },
                if (c.anchor != anchor || ready) && waiting is None && (
                c.last_response.candidates.len() > 0 || c.last_response.external_preedit) {
                    Some(
                        crate::renderer_bridge::snapshot_of(
                            c.id,
                            c.revision,
                            c.last_response,
                            anchor,
                        ),
                    )
                } else {
                    None
                },
            )
        } else {
            (c, None)
        },
    }
}

/// The view of an optional frame.
pub open spec fn frame_view(snapshot: Option<RenderSnapshot>) -> Option<RenderSnapshotView> {
    match snapshot {
        Some(s) => Some(s@),
        None => None,
    }
}

impl ClientSession {
    /// Stores what the session remembers of a response.
    fn remember(&mut self, response: &KeyEventResponse)
        ensures
            final(self)@ == (ClientSessionView {
                last_response: remembered(
                    old(self)@.last_response,
                    response@,
                    old(self)@.route.token,
                ),
                ..old(self)@
            }),
    {
        if response.state_updated {
            self.last_response = response.clone();
            self.last_response.mode_indicator_request_id = None;
        }
        if response.ascii_mode.is_some() {
            self.last_response.ascii_mode = response.ascii_mode;
        }
        self.last_response.token = self.route.token;
    }

    /// Adds to a response what the session knows.
    fn complete(&self, response: KeyEventResponse, supports_preedit: bool) -> (r: KeyEventResponse)
        ensures
            r@ == completed(self@, response@, self@.revision, supports_preedit),
    {
        let mut response = response;
        response.external_preedit = response.composing && supports_preedit && !self.inline_preedit;
        response.token = self.route.token;
        response.revision = self.revision;
        response
    }

    /// Takes over librime's answer to a key, before any mode indicator. The
    /// result is the whole response.
    fn settle_key(&mut self, response: KeyEventResponse, supports_preedit: bool) -> (r:
        KeyEventResponse)
        ensures
            final(self)@ == key_settled(old(self)@, response@, supports_preedit),
            r@ == completed(
                old(self)@,
                response@,
                key_revision(old(self)@, response@),
                supports_preedit,
            ),
    {
        let mut anchor: RenderRect = self.anchor;
        let anchor_reset: bool = reset_anchor_for_new_composition(
            &self.last_response,
            &response,
            &mut anchor,
        );
        self.anchor = anchor;
        if response.state_updated {
            self.revision = advance(self.revision);
        }
        let response: KeyEventResponse = self.complete(response, supports_preedit);
        if anchor_reset {
            self.waiting_for_layout = Some(response.revision);
        } else if response.state_updated && !response.composing {
            self.waiting_for_layout = None;
        }
        if response.composing {
            self.pending_mode_indicator = None;
        }
        self.remember(&response);
        response
    }

    /// Takes librime's answer to a key. The result is what is answered.
    pub fn finish_key(
        &mut self,
        response: KeyEventResponse,
        supports_preedit: bool,
        policy: InputModeIndicatorPolicy,
        next_indicator: &mut u64,
        now: u64,
    ) -> (r: KeyEventResponse)
        requires
            *old(next_indicator) < u64::MAX,
            now <= u64::MAX - MODE_INDICATOR_LAYOUT_TIMEOUT,
        ensures
            (Outcome { client: final(self)@, response: r@, next_indicator: *final(next_indicator) })
                == after_key(
                old(self)@,
                response@,
                supports_preedit,
                policy,
                *old(next_indicator),
                now,
            ),
    {
        reveal(after_key);
        let before: Option<bool> = self.last_response.ascii_mode;
        let mut response: KeyEventResponse = self.settle_key(response, supports_preedit);
        if let (Some(previous), Some(mode)) = (before, response.ascii_mode) {
            if previous != mode {
                request_mode_indicator(
                    self,
                    &mut response,
                    next_indicator,
                    policy,
                    ModeIndicatorReason::UserSwitch,
                    mode,
                    now,
                );
            }
        }
        response
    }

    /// Whether something of the session is on the screen.
    pub fn visible(&self) -> (r: bool)
        ensures
            r == was_visible(self@),
    {
        self.anchor.valid && (self.last_response.candidates.len() > 0 || (
        self.last_response.external_preedit && self.last_response.composing))
    }

    /// What is shown after a key: whether anything was visible, and the mode, are
    /// those of the session before it.
    pub fn show_key(
        &self,
        visible: bool,
        mode: Option<bool>,
        state_updated: bool,
        focus_changed: bool,
    ) -> (r: Option<RenderSnapshot>)
        ensures
            frame_view(r) == key_frame(self@, visible, mode, state_updated, focus_changed),
    {
        if self.waiting_for_layout.is_some() {
            // The host has not told the place of this composition yet, so no
            // frame may hold its candidates.
            if visible || focus_changed || mode != self.last_response.ascii_mode {
                let mut blank: RenderSnapshot = RenderSnapshot::default();
                blank.session_id = self.id;
                blank.revision = self.revision;
                blank.token = self.route.token;
                blank.active = true;
                blank.ascii_mode = self.last_response.ascii_mode;
                Some(blank)
            } else {
                None
            }
        } else if state_updated || focus_changed {
            Some(render_snapshot(self.id, self.revision, &self.last_response, &self.anchor))
        } else {
            None
        }
    }

    /// Takes over librime's answer to a command, before any mode indicator. The
    /// result is the whole response.
    fn settle_command(
        &mut self,
        action: ContextAction,
        response: KeyEventResponse,
        supports_preedit: bool,
    ) -> (r: KeyEventResponse)
        ensures
            final(self)@ == command_settled(old(self)@, action, response@, supports_preedit),
            r@ == completed(
                old(self)@,
                response@,
                next_revision(old(self)@.revision),
                supports_preedit,
            ),
    {
        self.revision = advance(self.revision);
        let response: KeyEventResponse = self.complete(response, supports_preedit);
        let ends: bool = action == ContextAction::Blur || action == ContextAction::Cancel || action
            == ContextAction::Submit || action == ContextAction::HostTerminated;
        if ends || (response.state_updated && !response.composing) {
            self.waiting_for_layout = None;
        }
        if ends || response.composing {
            self.pending_mode_indicator = None;
        }
        self.remember(&response);
        response
    }

    /// Takes librime's answer to a command. The result is what is answered.
    pub fn finish_command(
        &mut self,
        action: ContextAction,
        response: KeyEventResponse,
        supports_preedit: bool,
        policy: InputModeIndicatorPolicy,
        next_indicator: &mut u64,
        now: u64,
    ) -> (r: KeyEventResponse)
        requires
            *old(next_indicator) < u64::MAX,
            now <= u64::MAX - MODE_INDICATOR_LAYOUT_TIMEOUT,
        ensures
            (Outcome { client: final(self)@, response: r@, next_indicator: *final(next_indicator) })
                == after_command(
                old(self)@,
                action,
                response@,
                supports_preedit,
                policy,
                *old(next_indicator),
                now,
            ),
    {
        reveal(after_command);
        let before: Option<bool> = self.last_response.ascii_mode;
        let mut response: KeyEventResponse = self.settle_command(
            action,
            response,
            supports_preedit,
        );
        let shown: Option<(ModeIndicatorReason, bool)> = match (action, before, response.ascii_mode) {
            (ContextAction::Focus, _, Some(mode)) => Some((ModeIndicatorReason::Focus, mode)),
            (ContextAction::ToggleAscii, Some(previous), Some(mode)) => if previous != mode {
                Some((ModeIndicatorReason::UserSwitch, mode))
            } else {
                None
            },
            _ => None,
        };
        if let Some((reason, mode)) = shown {
            request_mode_indicator(
                self,
                &mut response,
                next_indicator,
                policy,
                reason,
                mode,
                now,
            );
        }
        response
    }

    /// What is shown after a command.
    pub fn show_command(&self, was_active: bool, is_active: bool) -> (r: Option<RenderSnapshot>)
        ensures
            frame_view(r) == command_frame(self@, was_active, is_active),
    {
        if is_active {
            Some(render_snapshot(self.id, self.revision, &self.last_response, &self.anchor))
        } else if was_active {
            let mut gone: RenderSnapshot = RenderSnapshot::default();
            gone.session_id = self.id;
            gone.revision = self.revision;
            gone.token = self.route.token;
            Some(gone)
        } else {
            None
        }
    }

    /// Takes librime's answer to a click. The result is what is answered, and
    /// what is shown.
    pub fn finish_click(&mut self, response: KeyEventResponse, supports_preedit: bool) -> (r: (
        KeyEventResponse,
        RenderSnapshot,
    ))
        ensures
            ({
                let (client, full, snapshot) = after_click(
                    old(self)@,
                    response@,
                    supports_preedit,
                );
                &&& final(self)@ == client
                &&& r.0@ == full
                &&& r.1@ == snapshot
            }),
    {
        let mut response = response;
        response.external_preedit = response.composing && supports_preedit && !self.inline_preedit;
        self.revision = advance(self.revision);
        response.token = self.route.token;
        response.revision = self.revision;
        if !response.composing {
            self.waiting_for_layout = None;
        }
        self.last_response = response.clone();
        let snapshot: RenderSnapshot = render_snapshot(
            self.id,
            self.revision,
            &response,
            &self.anchor,
        );
        (response, snapshot)
    }

    /// Gives the composition back to the host. The result is what the host is
    /// told.
    pub fn restore_inline(&mut self) -> (r: KeyEventResponse)
        ensures
            final(self)@ == back_inline(old(self)@),
            r@ == inline_again(back_inline(old(self)@).last_response),
    {
        self.last_response.external_preedit = false;
        self.revision = advance(self.revision);
        self.last_response.revision = self.revision;
        let mut response: KeyEventResponse = self.last_response.clone();
        response.commit_text = String::new();
        response.open_emoji_panel = false;
        response.state_updated = true;
        response.eaten = false;
        response
    }

    /// Takes a layout. The result is what is shown.
    pub fn place(&mut self, update: LayoutUpdate, now: u64) -> (r: Option<RenderSnapshot>)
        ensures
            (final(self)@, frame_view(r)) == after_layout(old(self)@, update, now),
    {
        let anchor: RenderRect = match update.anchor {
            Some(anchor) => anchor,
            None => RenderRect::default(),
        };
        match update.mode_indicator_request_id {
            Some(request_id) => {
                let pending: PendingModeIndicator = match self.pending_mode_indicator {
                    Some(pending) => pending,
                    None => return None,
                };
                if pending.id != request_id {
                    return None;
                }
                self.pending_mode_indicator = None;
                if now < pending.expires_at && anchor.valid && !self.last_response.composing {
                    let mut snapshot: RenderSnapshot = render_snapshot(
                        self.id,
                        self.revision,
                        &self.last_response,
                        &anchor,
                    );
                    snapshot.mode_indicator = Some(
                        ModeIndicator {
                            id: pending.id,
                            ascii_mode: pending.ascii_mode,
                            reason: pending.reason,
                        },
                    );
                    Some(snapshot)
                } else {
                    None
                }
            },
            None => {
                if !layout_matches_pending(
                    update.revision,
                    self.waiting_for_layout,
                    self.latest_layout_revision,
                ) {
                    return None;
                }
                if update.revision.is_some() {
                    self.latest_layout_revision = update.revision;
                }
                let ready: bool = self.waiting_for_layout.is_some() && anchor.valid;
                if ready {
                    self.waiting_for_layout = None;
                }
                if self.anchor != anchor || ready {
                    self.anchor = anchor;
                    if self.waiting_for_layout.is_none() && (self.last_response.candidates.len() > 0
                        || self.last_response.external_preedit) {
                        return Some(
                            render_snapshot(
                                self.id,
                                self.revision,
                                &self.last_response,
                                &self.anchor,
                            ),
                        );
                    }
                }
                None
            },
        }
    }
}

} // verus!
