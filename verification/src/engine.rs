//! All input sessions, and which of them a message, a click or a layout concerns.
//!
//! The engine does not call librime. Where a session has to be asked, a step ends
//! with the calls to make, in order, and the next step takes the answer of the
//! last of them.
use crate::client_session::{
    failure, reply, ClientSession, Effect, InputModeIndicatorPolicy,
};
#[allow(unused_imports)]
use crate::client_session::{
    after_click, after_command, after_key, answered, command_frame, effect_views, frame_view,
    gone_snapshot, key_frame, next_revision, refused, was_visible, ClientSessionView, EffectView,
    MODE_INDICATOR_LAYOUT_TIMEOUT,
};
#[allow(unused_imports)]
use crate::list::{first_index, lemma_first_index, lemma_first_index_is};
use crate::message::{
    ContextAction, ContextCommand, ContextToken, FailureCode, KeyEvent, KeyEventResponse,
    RenderRect, RenderSnapshot, RendererEvent,
};
#[allow(unused_imports)]
use crate::message::{empty_response, no_rect, token_valid, KeyEventResponseView, RenderSnapshotView};
use crate::session_route::{valid_token, SessionRoute};
#[allow(unused_imports)]
use crate::session_route::{observes, observes_command};
use vstd::prelude::*;

pub mod history;
pub mod idle;
pub mod laws;
pub mod requests;

verus! {

/// Number of events that may wait for the engine.
pub const QUEUE_CAPACITY: usize = 128;

/// Number of input contexts that one connection may open.
pub const MAX_CONTEXTS: usize = 32;

/// What a client asks of the engine.
#[derive(Clone, Copy, Debug, PartialEq, Eq, Structural)]
pub enum Request {
    OpenInput(Option<ContextToken>),
    Key(KeyEvent),
    Command(ContextCommand),
    /// A message that is not for the engine.
    Other,
}

/// The token that a request carries.
pub open spec fn request_token(request: Request) -> Option<ContextToken> {
    match request {
        Request::OpenInput(token) => token,
        Request::Key(key) => key.token,
        Request::Command(command) => command.token,
        Request::Other => None,
    }
}

/// A call of a session in librime.
#[derive(Clone, Copy, Debug, PartialEq, Eq, Structural)]
pub enum RimeCall {
    /// Set the mode, and take no answer.
    SetAsciiMode(bool),
    /// Set the mode, and answer with the session's state.
    SetAsciiModeResponse(bool),
    ContextAction(ContextAction),
    ProcessKey(KeyEvent),
    RendererEvent(RendererEvent),
}

/// What the answer of a call is for.
#[derive(Clone, Copy, Debug, PartialEq, Eq, Structural)]
pub enum CallKind {
    Key { focus_changed: bool },
    Command { action: ContextAction, was_active: bool },
    Click,
}

/// Calls that a session waits for.
#[derive(Debug, PartialEq, Eq)]
pub struct PendingCall {
    pub session_id: u64,
    pub connection_id: u64,
    pub request_id: u64,
    /// To be made in order; the answer of the last one counts.
    pub calls: Vec<RimeCall>,
    pub kind: CallKind,
}

#[verifier::ext_equal]
pub ghost struct PendingCallView {
    pub session_id: u64,
    pub connection_id: u64,
    pub request_id: u64,
    pub calls: Seq<RimeCall>,
    pub kind: CallKind,
}

impl View for PendingCall {
    type V = PendingCallView;

    open spec fn view(&self) -> PendingCallView {
        PendingCallView {
            session_id: self.session_id,
            connection_id: self.connection_id,
            request_id: self.request_id,
            calls: self.calls@,
            kind: self.kind,
        }
    }
}

/// A context that waits for its session in librime.
#[derive(Clone, Copy, Debug, PartialEq, Eq, Structural)]
pub struct PendingOpen {
    pub session_id: u64,
    pub connection_id: u64,
    pub request_id: u64,
    pub token: ContextToken,
}

/// How a request goes on.
#[derive(Debug, PartialEq, Eq)]
pub enum MessageStep {
    Done(Vec<Effect>),
    /// Create a session in librime, and report.
    Open(PendingOpen),
    /// Make calls, and report the last answer.
    Call(PendingCall),
}

pub ghost enum StepView {
    Done(Seq<EffectView>),
    Open(PendingOpen),
    Call(PendingCallView),
}

impl View for MessageStep {
    type V = StepView;

    open spec fn view(&self) -> StepView {
        match *self {
            MessageStep::Done(effects) => StepView::Done(effect_views(effects@)),
            MessageStep::Open(pending) => StepView::Open(pending),
            MessageStep::Call(pending) => StepView::Call(pending@),
        }
    }
}

/// All input sessions.
pub struct Engine {
    global_ascii: Option<bool>,
    allow_rime_in_secure_fields: bool,
    input_mode_indicator: InputModeIndicatorPolicy,
    clients: Vec<ClientSession>,
    active_client: Option<u64>,
    next_session: u64,
    next_mode_indicator: u64,
}

#[verifier::ext_equal]
pub ghost struct EngineView {
    /// The mode that all sessions share; none where each has its own.
    pub global_ascii: Option<bool>,
    pub allow_rime_in_secure_fields: bool,
    pub input_mode_indicator: InputModeIndicatorPolicy,
    /// The sessions, in the order in which they were opened.
    pub clients: Seq<ClientSessionView>,
    /// The session that the renderer shows.
    pub active_client: Option<u64>,
    pub next_session: u64,
    pub next_mode_indicator: u64,
}

/// An engine without sessions, with what its settings say.
pub open spec fn fresh_engine(
    settings: Option<(Option<bool>, Option<bool>, Option<bool>)>,
    input_mode_indicator: InputModeIndicatorPolicy,
) -> EngineView {
    EngineView {
        global_ascii: match settings {
            Some((Some(true), mode, _)) => Some(mode == Some(true)),
            _ => None,
        },
        allow_rime_in_secure_fields: settings matches Some((_, _, Some(true))),
        input_mode_indicator,
        clients: Seq::empty(),
        active_client: None,
        next_session: 1,
        next_mode_indicator: 1,
    }
}

/// The views of a list of sessions, in order.
pub open spec fn client_views(s: Seq<ClientSession>) -> Seq<ClientSessionView> {
    Seq::new(s.len(), |i: int| s[i]@)
}

impl View for Engine {
    type V = EngineView;

    closed spec fn view(&self) -> EngineView {
        EngineView {
            global_ascii: self.global_ascii,
            allow_rime_in_secure_fields: self.allow_rime_in_secure_fields,
            input_mode_indicator: self.input_mode_indicator,
            clients: client_views(self.clients@),
            active_client: self.active_client,
            next_session: self.next_session,
            next_mode_indicator: self.next_mode_indicator,
        }
    }
}

/// The sessions with a given number.
pub open spec fn has_id(id: u64) -> spec_fn(ClientSessionView) -> bool {
    |c: ClientSessionView| c.id == id
}

/// The sessions of one context of one connection.
pub open spec fn in_context(connection_id: u64, context_id: u64) -> spec_fn(
    ClientSessionView,
) -> bool {
    |c: ClientSessionView|
        c.connection_id == connection_id && (c.route.token matches Some(t) && t.context_id
            == context_id)
}

/// The sessions whose connection is there.
pub open spec fn is_alive() -> spec_fn(ClientSessionView) -> bool {
    |c: ClientSessionView| c.alive
}

/// Number of sessions of a connection.
pub open spec fn contexts_of(clients: Seq<ClientSessionView>, connection_id: u64) -> nat
    decreases clients.len(),
{
    if clients.len() == 0 {
        0
    } else {
        contexts_of(clients.drop_last(), connection_id) + if clients.last().connection_id
            == connection_id {
            1nat
        } else {
            0nat
        }
    }
}

/// Whether two sessions belong to one context.
pub open spec fn same_context(a: ClientSessionView, b: ClientSessionView) -> bool {
    a.connection_id == b.connection_id && a.route.token is Some && b.route.token is Some
        && a.route.token->0.context_id == b.route.token->0.context_id
}

/// Whether an earlier session and a later one stand in order: by number, and not
/// of one context.
pub open spec fn in_order(a: ClientSessionView, b: ClientSessionView) -> bool {
    a.id < b.id && !same_context(a, b)
}

/// What a single session keeps to.
pub open spec fn client_wf(c: ClientSessionView, next_session: u64, next_indicator: u64) -> bool {
    &&& 1 <= c.id < next_session
    &&& token_valid(c.route.token)
    &&& c.pending_mode_indicator matches Some(p) ==> 1 <= p.id < next_indicator
}

/// What every state of the engine keeps to: numbers are never handed out twice,
/// each session has a valid token, no two sessions have one context, a
/// connection has no more contexts than it may, and the active session exists.
pub open spec fn engine_wf(e: EngineView) -> bool {
    &&& 1 <= e.next_session
    &&& 1 <= e.next_mode_indicator
    &&& forall|i: int|
        0 <= i < e.clients.len() ==> client_wf(
            #[trigger] e.clients[i],
            e.next_session,
            e.next_mode_indicator,
        )
    &&& forall|i: int, j: int|
        0 <= i < j < e.clients.len() ==> in_order(#[trigger] e.clients[i], #[trigger] e.clients[j])
    &&& forall|connection_id: u64| #[trigger]
        contexts_of(e.clients, connection_id) <= MAX_CONTEXTS
    &&& e.active_client matches Some(id) ==> exists|i: int|
        0 <= i < e.clients.len() && #[trigger] e.clients[i].id == id
}

/// Whether any session of a connection has the focus.
pub open spec fn any_focused(clients: Seq<ClientSessionView>, connection_id: u64) -> bool {
    exists|i: int|
        0 <= i < clients.len() && #[trigger] clients[i].connection_id == connection_id
            && clients[i].route.focused
}

/// Whether any session of a connection composes.
pub open spec fn any_composing(clients: Seq<ClientSessionView>, connection_id: u64) -> bool {
    exists|i: int|
        0 <= i < clients.len() && #[trigger] clients[i].connection_id == connection_id
            && clients[i].last_response.composing
}

/// How busy a connection is.
pub open spec fn input_state(clients: Seq<ClientSessionView>, connection_id: u64) -> EffectView {
    EffectView::SetInputState {
        connection_id,
        focused: any_focused(clients, connection_id),
        composing: any_composing(clients, connection_id),
    }
}

/// A session that was just opened.
pub open spec fn new_client(pending: PendingOpen, inline_preedit: bool) -> ClientSessionView {
    ClientSessionView {
        id: pending.session_id,
        inline_preedit,
        connection_id: pending.connection_id,
        alive: true,
        revision: 0,
        route: SessionRoute { token: Some(pending.token), focused: false },
        anchor: no_rect(),
        waiting_for_layout: None,
        latest_layout_revision: None,
        pending_mode_indicator: None,
        last_response: empty_response(),
    }
}

/// The call that sets the shared mode, where there is one.
pub open spec fn shared_mode_call(global_ascii: Option<bool>) -> Seq<RimeCall> {
    match global_ascii {
        Some(ascii) => seq![RimeCall::SetAsciiMode(ascii)],
        None => Seq::empty(),
    }
}

/// The calls for a command: the shared mode is set where it counts, and then the
/// command itself.
pub open spec fn command_calls(command: ContextCommand, global_ascii: Option<bool>) -> Seq<
    RimeCall,
> {
    let mode = if command.action == ContextAction::Focus || command.action
        == ContextAction::ToggleAscii {
        shared_mode_call(global_ascii)
    } else {
        Seq::empty()
    };
    mode.push(
        match (command.action, command.ascii_mode) {
            (ContextAction::SetAscii, Some(ascii)) => RimeCall::SetAsciiModeResponse(ascii),
            _ => RimeCall::ContextAction(command.action),
        },
    )
}

/// The session that is active after a command.
pub open spec fn active_after(active: Option<u64>, id: u64, action: ContextAction) -> Option<u64> {
    if action == ContextAction::Focus {
        Some(id)
    } else if (action == ContextAction::Blur || action == ContextAction::HostTerminated) && active
        == Some(id) {
        None
    } else {
        active
    }
}

/// Whether the session has the focus after a command.
pub open spec fn focused_after(focused: bool, action: ContextAction) -> bool {
    if action == ContextAction::Focus {
        true
    } else if action == ContextAction::Blur || action == ContextAction::HostTerminated {
        false
    } else {
        focused
    }
}

/// What a key does before librime is asked: the session takes the focus.
pub open spec fn begin_key(e: EngineView, i: int, connection_id: u64, request_id: u64, key: KeyEvent) -> (
    EngineView,
    StepView,
) {
    let c = e.clients[i];
    if !observes(c.route.token, key.token) {
        (
            e,
            StepView::Done(
                refused(
                    connection_id,
                    request_id,
                    FailureCode::StaleContext,
                    "stale or mismatched key context"@,
                ),
            ),
        )
    } else {
        let client = ClientSessionView {
            route: SessionRoute { token: key.token, focused: true },
            ..c
        };
        (
            EngineView {
                clients: e.clients.update(i, client),
                active_client: Some(c.id),
                ..e
            },
            StepView::Call(
                PendingCallView {
                    session_id: c.id,
                    connection_id,
                    request_id,
                    calls: shared_mode_call(e.global_ascii).push(RimeCall::ProcessKey(key)),
                    kind: CallKind::Key { focus_changed: e.active_client != Some(c.id) },
                },
            ),
        )
    }
}

/// What a command does before librime is asked. The session was found by the
/// context that the command names, so a focus does not move it to another.
pub open spec fn begin_command(
    e: EngineView,
    i: int,
    connection_id: u64,
    request_id: u64,
    command: ContextCommand,
) -> (EngineView, StepView) {
    let c = e.clients[i];
    let action = command.action;
    if action == ContextAction::Unspecified {
        (
            e,
            StepView::Done(
                refused(
                    connection_id,
                    request_id,
                    FailureCode::InvalidArgument,
                    "unknown context action"@,
                ),
            ),
        )
    } else if !observes_command(c.route.token, command.token, action) {
        (
            e,
            StepView::Done(
                refused(
                    connection_id,
                    request_id,
                    FailureCode::StaleContext,
                    "stale or mismatched command context"@,
                ),
            ),
        )
    } else {
        let client = ClientSessionView {
            route: SessionRoute {
                token: command.token,
                focused: focused_after(c.route.focused, action),
            },
            ..c
        };
        let next = EngineView {
            clients: e.clients.update(i, client),
            active_client: active_after(e.active_client, c.id, action),
            ..e
        };
        if action == ContextAction::SetAscii && command.ascii_mode is None {
            (
                next,
                StepView::Done(
                    refused(
                        connection_id,
                        request_id,
                        FailureCode::InvalidArgument,
                        "SetAscii requires ascii_mode"@,
                    ),
                ),
            )
        } else {
            (
                next,
                StepView::Call(
                    PendingCallView {
                        session_id: c.id,
                        connection_id,
                        request_id,
                        calls: command_calls(command, e.global_ascii),
                        kind: CallKind::Command {
                            action,
                            was_active: e.active_client == Some(c.id),
                        },
                    },
                ),
            )
        }
    }
}

/// What destroying a context does: the host is answered, a shown session leaves
/// the screen, and nothing of it stays.
pub open spec fn destroyed(
    e: EngineView,
    i: int,
    connection_id: u64,
    request_id: u64,
    token: Option<ContextToken>,
) -> (EngineView, StepView) {
    let c = e.clients[i];
    if !observes(c.route.token, token) {
        (
            e,
            StepView::Done(
                refused(
                    connection_id,
                    request_id,
                    FailureCode::StaleContext,
                    "stale destroy context"@,
                ),
            ),
        )
    } else {
        let revision = next_revision(c.revision);
        let clients = e.clients.remove(i);
        let shown = e.active_client == Some(c.id);
        let answer = answered(
            connection_id,
            request_id,
            KeyEventResponseView { token, revision, ..empty_response() },
            e.allow_rime_in_secure_fields,
        );
        let frame = if shown {
            seq![EffectView::Publish(gone_snapshot(c.id, revision, token))]
        } else {
            Seq::empty()
        };
        (
            EngineView {
                clients,
                active_client: if shown {
                    None
                } else {
                    e.active_client
                },
                ..e
            },
            StepView::Done(
                seq![answer] + frame + seq![
                    EffectView::DropSession(c.id),
                    EffectView::ForgetLayout { connection_id, context_id: token->0.context_id },
                    input_state(clients, connection_id),
                ],
            ),
        )
    }
}

/// What a message does before librime is asked. A message of a lost connection
/// does nothing. Only opening creates a context; opening it again with the same
/// token only confirms it.
pub open spec fn begin(
    e: EngineView,
    connection_id: u64,
    alive: bool,
    request_id: u64,
    request: Request,
) -> (EngineView, StepView) {
    let token = request_token(request);
    if !alive {
        (e, StepView::Done(Seq::empty()))
    } else if !token_valid(token) {
        (
            e,
            StepView::Done(
                refused(
                    connection_id,
                    request_id,
                    FailureCode::InvalidArgument,
                    "input token required"@,
                ),
            ),
        )
    } else {
        match first_index(e.clients, in_context(connection_id, token->0.context_id)) {
            None => match request {
                Request::OpenInput(_) => if contexts_of(e.clients, connection_id) >= MAX_CONTEXTS {
                    (
                        e,
                        StepView::Done(
                            refused(
                                connection_id,
                                request_id,
                                FailureCode::InvalidArgument,
                                "too many input contexts"@,
                            ),
                        ),
                    )
                } else {
                    (
                        EngineView { next_session: (e.next_session + 1) as u64, ..e },
                        StepView::Open(
                            PendingOpen {
                                session_id: e.next_session,
                                connection_id,
                                request_id,
                                token: token->0,
                            },
                        ),
                    )
                },
                _ => (
                    e,
                    StepView::Done(
                        refused(
                            connection_id,
                            request_id,
                            FailureCode::InvalidArgument,
                            "OpenInput required before input"@,
                        ),
                    ),
                ),
            },
            Some(i) => match request {
                Request::OpenInput(_) => (
                    e,
                    StepView::Done(
                        if e.clients[i].route.token != token {
                            refused(
                                connection_id,
                                request_id,
                                FailureCode::InvalidArgument,
                                "input already opened; use context commands"@,
                            )
                        } else {
                            seq![EffectView::InputOpened { connection_id, request_id, token }]
                        },
                    ),
                ),
                Request::Key(key) => begin_key(e, i, connection_id, request_id, key),
                Request::Command(command) => if command.action == ContextAction::Destroy {
                    destroyed(e, i, connection_id, request_id, command.token)
                } else {
                    begin_command(e, i, connection_id, request_id, command)
                },
                Request::Other => (e, StepView::Done(Seq::empty())),
            },
        }
    }
}

/// Whether a context can be opened as it waits for it: nothing has taken its
/// number or its place since.
pub open spec fn can_open(e: EngineView, pending: PendingOpen) -> bool {
    &&& 1 <= pending.session_id < e.next_session
    &&& forall|i: int|
        0 <= i < e.clients.len() ==> (#[trigger] e.clients[i]).id < pending.session_id
    &&& token_valid(Some(pending.token))
    &&& first_index(e.clients, in_context(pending.connection_id, pending.token.context_id)) is None
    &&& contexts_of(e.clients, pending.connection_id) < MAX_CONTEXTS
}

/// What the outcome of creating a session in librime does. A new session gets the
/// shared mode, or else the mode of its application; a missing setting leaves the
/// composition to the host.
pub open spec fn after_open(
    e: EngineView,
    pending: PendingOpen,
    created: bool,
    app_ascii: Option<bool>,
    app_inline_preedit: Option<bool>,
) -> (EngineView, Seq<EffectView>) {
    if !created {
        (
            e,
            refused(
                pending.connection_id,
                pending.request_id,
                FailureCode::Internal,
                "session creation failed"@,
            ),
        )
    } else {
        let mode = if e.global_ascii is Some {
            e.global_ascii
        } else {
            app_ascii
        };
        let inline_preedit = app_inline_preedit matches Some(inline) ==> inline;
        let set = match mode {
            Some(ascii_mode) => seq![
                EffectView::SetAsciiMode { session_id: pending.session_id, ascii_mode },
            ],
            None => Seq::empty(),
        };
        (
            EngineView { clients: e.clients.push(new_client(pending, inline_preedit)), ..e },
            set.push(
                EffectView::InputOpened {
                    connection_id: pending.connection_id,
                    request_id: pending.request_id,
                    token: Some(pending.token),
                },
            ),
        )
    }
}

/// The frame as an effect, where there is one.
pub open spec fn publish(frame: Option<RenderSnapshotView>) -> Seq<EffectView> {
    match frame {
        Some(snapshot) => seq![EffectView::Publish(snapshot)],
        None => Seq::empty(),
    }
}

/// The shared mode after an answer that reports one.
pub open spec fn shared_mode_after(global_ascii: Option<bool>, reported: Option<bool>) -> Option<
    bool,
> {
    if global_ascii is Some && reported is Some {
        reported
    } else {
        global_ascii
    }
}

/// What the answer to a key does.
pub open spec fn after_key_call(
    e: EngineView,
    i: int,
    pending: PendingCallView,
    focus_changed: bool,
    response: KeyEventResponseView,
    supports_preedit: bool,
    now: u64,
) -> (EngineView, Seq<EffectView>) {
    let c = e.clients[i];
    let outcome = after_key(
        c,
        response,
        supports_preedit,
        e.input_mode_indicator,
        e.next_mode_indicator,
        now,
    );
    (
        EngineView {
            global_ascii: shared_mode_after(e.global_ascii, response.ascii_mode),
            clients: e.clients.update(i, outcome.client),
            next_mode_indicator: outcome.next_indicator,
            ..e
        },
        seq![
            answered(
                pending.connection_id,
                pending.request_id,
                outcome.response,
                e.allow_rime_in_secure_fields,
            ),
        ] + publish(
            key_frame(
                outcome.client,
                was_visible(c),
                c.last_response.ascii_mode,
                response.state_updated,
                focus_changed,
            ),
        ),
    )
}

/// What the answer to a command does.
pub open spec fn after_command_call(
    e: EngineView,
    i: int,
    pending: PendingCallView,
    action: ContextAction,
    was_active: bool,
    response: KeyEventResponseView,
    supports_preedit: bool,
    now: u64,
) -> (EngineView, Seq<EffectView>) {
    let c = e.clients[i];
    let outcome = after_command(
        c,
        action,
        response,
        supports_preedit,
        e.input_mode_indicator,
        e.next_mode_indicator,
        now,
    );
    (
        EngineView {
            global_ascii: if action == ContextAction::ToggleAscii {
                shared_mode_after(e.global_ascii, response.ascii_mode)
            } else {
                e.global_ascii
            },
            clients: e.clients.update(i, outcome.client),
            next_mode_indicator: outcome.next_indicator,
            ..e
        },
        seq![
            answered(
                pending.connection_id,
                pending.request_id,
                outcome.response,
                e.allow_rime_in_secure_fields,
            ),
        ] + publish(command_frame(outcome.client, was_active, e.active_client == Some(c.id))),
    )
}

/// What the answer to a click does.
pub open spec fn after_click_call(
    e: EngineView,
    i: int,
    response: KeyEventResponseView,
    supports_preedit: bool,
) -> (EngineView, Seq<EffectView>) {
    let c = e.clients[i];
    let (client, full, snapshot) = after_click(c, response, supports_preedit);
    (
        EngineView { clients: e.clients.update(i, client), ..e },
        seq![
            answered(c.connection_id, 0, full, e.allow_rime_in_secure_fields),
            EffectView::Publish(snapshot),
        ],
    )
}

/// What the answer of a session does.
pub open spec fn after_call(
    e: EngineView,
    i: int,
    pending: PendingCallView,
    response: KeyEventResponseView,
    supports_preedit: bool,
    now: u64,
) -> (EngineView, Seq<EffectView>) {
    match pending.kind {
        CallKind::Key { focus_changed } => after_key_call(
            e,
            i,
            pending,
            focus_changed,
            response,
            supports_preedit,
            now,
        ),
        CallKind::Command { action, was_active } => after_command_call(
            e,
            i,
            pending,
            action,
            was_active,
            response,
            supports_preedit,
            now,
        ),
        CallKind::Click => after_click_call(e, i, response, supports_preedit),
    }
}

/// A key changes neither the session's number, connection and route nor, but
/// for a number that was just handed out, its indicator.
proof fn lemma_key_keeps(
    c: ClientSessionView,
    response: KeyEventResponseView,
    supports_preedit: bool,
    policy: InputModeIndicatorPolicy,
    next_session: u64,
    next_indicator: u64,
    now: u64,
)
    requires
        client_wf(c, next_session, next_indicator),
        1 <= next_indicator < u64::MAX,
    ensures
        ({
            let outcome = after_key(
                c,
                response,
                supports_preedit,
                policy,
                next_indicator,
                now,
            );
            &&& outcome.client.id == c.id
            &&& outcome.client.connection_id == c.connection_id
            &&& outcome.client.route == c.route
            &&& client_wf(outcome.client, next_session, outcome.next_indicator)
            &&& next_indicator <= outcome.next_indicator
        }),
{
    reveal(after_key);
}

/// A command changes neither the session's number, connection and route nor, but
/// for a number that was just handed out, its indicator.
proof fn lemma_command_keeps(
    c: ClientSessionView,
    action: ContextAction,
    response: KeyEventResponseView,
    supports_preedit: bool,
    policy: InputModeIndicatorPolicy,
    next_session: u64,
    next_indicator: u64,
    now: u64,
)
    requires
        client_wf(c, next_session, next_indicator),
        1 <= next_indicator < u64::MAX,
    ensures
        ({
            let outcome = after_command(
                c,
                action,
                response,
                supports_preedit,
                policy,
                next_indicator,
                now,
            );
            &&& outcome.client.id == c.id
            &&& outcome.client.connection_id == c.connection_id
            &&& outcome.client.route == c.route
            &&& client_wf(outcome.client, next_session, outcome.next_indicator)
            &&& next_indicator <= outcome.next_indicator
        }),
{
    reveal(after_command);
}

/// Replacing a session by one of the same connection keeps the counts.
proof fn lemma_contexts_update(
    clients: Seq<ClientSessionView>,
    i: int,
    c: ClientSessionView,
    connection_id: u64,
)
    requires
        0 <= i < clients.len(),
        c.connection_id == clients[i].connection_id,
    ensures
        contexts_of(clients.update(i, c), connection_id) == contexts_of(clients, connection_id),
    decreases clients.len(),
{
    let updated = clients.update(i, c);
    if i < clients.len() - 1 {
        assert(updated.drop_last() =~= clients.drop_last().update(i, c));
        lemma_contexts_update(clients.drop_last(), i, c, connection_id);
    } else {
        assert(updated.drop_last() =~= clients.drop_last());
    }
}

/// Without one of its sessions, a connection has no more than before.
proof fn lemma_contexts_remove(clients: Seq<ClientSessionView>, i: int, connection_id: u64)
    requires
        0 <= i < clients.len(),
    ensures
        contexts_of(clients.remove(i), connection_id) <= contexts_of(clients, connection_id),
    decreases clients.len(),
{
    let rest = clients.remove(i);
    if i < clients.len() - 1 {
        assert(rest.drop_last() =~= clients.drop_last().remove(i));
        assert(rest.last() == clients.last());
        lemma_contexts_remove(clients.drop_last(), i, connection_id);
    } else {
        assert(rest =~= clients.drop_last());
    }
}

/// Of the sessions that stay, a connection has no more than before.
proof fn lemma_contexts_filter(
    clients: Seq<ClientSessionView>,
    keep: spec_fn(ClientSessionView) -> bool,
    connection_id: u64,
)
    ensures
        contexts_of(clients.filter(keep), connection_id) <= contexts_of(clients, connection_id),
    decreases clients.len(),
{
    reveal(Seq::filter);
    if clients.len() > 0 {
        lemma_contexts_filter(clients.drop_last(), keep, connection_id);
        let kept = clients.drop_last().filter(keep);
        if keep(clients.last()) {
            assert(kept.push(clients.last()).drop_last() =~= kept);
        }
    }
}

/// Replacing a session by one that has its number, connection and context, and
/// keeps to what a session keeps to, leaves the engine in order.
proof fn lemma_wf_update(
    e: EngineView,
    i: int,
    c: ClientSessionView,
    active: Option<u64>,
    global_ascii: Option<bool>,
    next_indicator: u64,
)
    requires
        engine_wf(e),
        0 <= i < e.clients.len(),
        c.id == e.clients[i].id,
        c.connection_id == e.clients[i].connection_id,
        c.route.token is Some,
        c.route.token->0.context_id == e.clients[i].route.token->0.context_id,
        e.next_mode_indicator <= next_indicator,
        client_wf(c, e.next_session, next_indicator),
        active == e.active_client || active is None || active == Some(c.id),
    ensures
        engine_wf(
            EngineView {
                clients: e.clients.update(i, c),
                active_client: active,
                global_ascii,
                next_mode_indicator: next_indicator,
                ..e
            },
        ),
{
    let clients = e.clients.update(i, c);
    assert forall|k: int| 0 <= k < clients.len() implies client_wf(
        #[trigger] clients[k],
        e.next_session,
        next_indicator,
    ) by {
        assert(client_wf(e.clients[k], e.next_session, e.next_mode_indicator));
    }
    assert forall|k: int, l: int| 0 <= k < l < clients.len() implies in_order(
        #[trigger] clients[k],
        #[trigger] clients[l],
    ) by {
        assert(in_order(e.clients[k], e.clients[l]));
        assert(client_wf(e.clients[k], e.next_session, e.next_mode_indicator));
        assert(client_wf(e.clients[l], e.next_session, e.next_mode_indicator));
    }
    assert forall|connection_id: u64| #[trigger]
        contexts_of(clients, connection_id) <= MAX_CONTEXTS by {
        lemma_contexts_update(e.clients, i, c, connection_id);
        assert(contexts_of(e.clients, connection_id) <= MAX_CONTEXTS);
    }
    if let Some(id) = active {
        if id == c.id {
            assert(clients[i].id == id);
        } else {
            let k = choose|k: int| 0 <= k < e.clients.len() && #[trigger] e.clients[k].id == id;
            assert(clients[k].id == id);
        }
    }
}

/// Without one of its sessions, the engine stays in order.
proof fn lemma_wf_remove(e: EngineView, i: int)
    requires
        engine_wf(e),
        0 <= i < e.clients.len(),
    ensures
        engine_wf(
            EngineView {
                clients: e.clients.remove(i),
                active_client: if e.active_client == Some(e.clients[i].id) {
                    None
                } else {
                    e.active_client
                },
                ..e
            },
        ),
{
    let clients = e.clients.remove(i);
    assert forall|k: int, l: int| 0 <= k < l < clients.len() implies in_order(
        #[trigger] clients[k],
        #[trigger] clients[l],
    ) by {
        let k0 = if k < i { k } else { k + 1 };
        let l0 = if l < i { l } else { l + 1 };
        assert(clients[k] == e.clients[k0] && clients[l] == e.clients[l0]);
        assert(in_order(e.clients[k0], e.clients[l0]));
    }
    assert forall|k: int| 0 <= k < clients.len() implies client_wf(
        #[trigger] clients[k],
        e.next_session,
        e.next_mode_indicator,
    ) by {
        let k0 = if k < i { k } else { k + 1 };
        assert(clients[k] == e.clients[k0]);
    }
    assert forall|connection_id: u64| #[trigger]
        contexts_of(clients, connection_id) <= MAX_CONTEXTS by {
        lemma_contexts_remove(e.clients, i, connection_id);
        assert(contexts_of(e.clients, connection_id) <= MAX_CONTEXTS);
    }
    if let Some(id) = e.active_client {
        if id != e.clients[i].id {
            let k = choose|k: int| 0 <= k < e.clients.len() && #[trigger] e.clients[k].id == id;
            let k0 = if k < i { k } else { k - 1 };
            assert(clients[k0].id == id);
        }
    }
}

/// The place of a session's number is the only one that has it.
proof fn lemma_session_place(e: EngineView, i: int)
    requires
        engine_wf(e),
        0 <= i < e.clients.len(),
    ensures
        first_index(e.clients, has_id(e.clients[i].id)) == Some(i),
{
    assert forall|j: int| 0 <= j < i implies !has_id(e.clients[i].id)(#[trigger] e.clients[j]) by {
        assert(in_order(e.clients[j], e.clients[i]));
    }
    lemma_first_index_is(e.clients, has_id(e.clients[i].id), Some(i));
}

impl Engine {
    /// What every state of the engine keeps to.
    pub open spec fn wf(&self) -> bool {
        engine_wf(self@)
    }

    /// An engine without sessions. `settings` holds whether all sessions share one
    /// mode, that mode, and whether the engine may be used in secure fields, each
    /// where it was readable; none where there are no settings.
    pub fn new(
        settings: Option<(Option<bool>, Option<bool>, Option<bool>)>,
        input_mode_indicator: InputModeIndicatorPolicy,
    ) -> (r: Self)
        ensures
            r.wf(),
            r@ == fresh_engine(settings, input_mode_indicator),
    {
        let (global_ascii, allow): (Option<bool>, bool) = match settings {
            Some((shared, mode, secure)) => {
                let shared: bool = match shared {
                    Some(value) => value,
                    None => false,
                };
                let mode: bool = match mode {
                    Some(value) => value,
                    None => false,
                };
                let secure: bool = match secure {
                    Some(value) => value,
                    None => false,
                };
                (
                    if shared {
                        Some(mode)
                    } else {
                        None
                    },
                    secure,
                )
            },
            None => (None, false),
        };
        let r = Engine {
            global_ascii,
            allow_rime_in_secure_fields: allow,
            input_mode_indicator,
            clients: Vec::new(),
            active_client: None,
            next_session: 1,
            next_mode_indicator: 1,
        };
        assert(r@.clients =~= Seq::<ClientSessionView>::empty());
        r
    }

    /// The place of a context's session.
    fn find_context(&self, connection_id: u64, context_id: u64) -> (r: Option<usize>)
        ensures
            match r {
                Some(i) => i < self.clients.len() && first_index(
                    self@.clients,
                    in_context(connection_id, context_id),
                ) == Some(i as int),
                None => first_index(self@.clients, in_context(connection_id, context_id)) is None,
            },
    {
        let ghost p = in_context(connection_id, context_id);
        let mut i: usize = 0;
        while i < self.clients.len()
            invariant
                i <= self.clients.len(),
                p == in_context(connection_id, context_id),
                forall|j: int| 0 <= j < i ==> !p(#[trigger] self@.clients[j]),
            decreases self.clients.len() - i,
        {
            assert(self@.clients[i as int] == self.clients[i as int]@);
            let found: bool = self.clients[i].connection_id == connection_id
                && match &self.clients[i].route.token {
                Some(token) => token.context_id == context_id,
                None => false,
            };
            if found {
                proof {
                    lemma_first_index_is(self@.clients, p, Some(i as int));
                }
                return Some(i);
            }
            i += 1;
        }
        proof {
            lemma_first_index_is(self@.clients, p, None);
        }
        None
    }

    /// The place of a session.
    fn find_session(&self, id: u64) -> (r: Option<usize>)
        ensures
            match r {
                Some(i) => i < self.clients.len() && first_index(self@.clients, has_id(id)) == Some(
                    i as int,
                ),
                None => first_index(self@.clients, has_id(id)) is None,
            },
    {
        let ghost p = has_id(id);
        let mut i: usize = 0;
        while i < self.clients.len()
            invariant
                i <= self.clients.len(),
                p == has_id(id),
                forall|j: int| 0 <= j < i ==> !p(#[trigger] self@.clients[j]),
            decreases self.clients.len() - i,
        {
            assert(self@.clients[i as int] == self.clients[i as int]@);
            if self.clients[i].id == id {
                proof {
                    lemma_first_index_is(self@.clients, p, Some(i as int));
                }
                return Some(i);
            }
            i += 1;
        }
        proof {
            lemma_first_index_is(self@.clients, p, None);
        }
        None
    }

    /// Number of sessions of a connection.
    fn count_contexts(&self, connection_id: u64) -> (r: usize)
        ensures
            r == contexts_of(self@.clients, connection_id),
    {
        let ghost all = self@.clients;
        let mut count: usize = 0;
        let mut i: usize = 0;
        assert(all.take(0) =~= Seq::<ClientSessionView>::empty());
        while i < self.clients.len()
            invariant
                i <= self.clients.len(),
                all == self@.clients,
                count <= i,
                count == contexts_of(all.take(i as int), connection_id),
            decreases self.clients.len() - i,
        {
            assert(all[i as int] == self.clients[i as int]@);
            assert(all.take(i + 1).drop_last() =~= all.take(i as int));
            if self.clients[i].connection_id == connection_id {
                count += 1;
            }
            i += 1;
        }
        assert(all.take(all.len() as int) =~= all);
        count
    }

    /// How busy a connection is: whether a session of it has the focus, and
    /// whether one composes.
    fn connection_state(&self, connection_id: u64) -> (r: Effect)
        ensures
            r@ == input_state(self@.clients, connection_id),
    {
        let ghost all = self@.clients;
        let mut focused: bool = false;
        let mut composing: bool = false;
        let mut i: usize = 0;
        while i < self.clients.len()
            invariant
                i <= self.clients.len(),
                all == self@.clients,
                focused == exists|k: int|
                    0 <= k < i && #[trigger] all[k].connection_id == connection_id
                        && all[k].route.focused,
                composing == exists|k: int|
                    0 <= k < i && #[trigger] all[k].connection_id == connection_id
                        && all[k].last_response.composing,
            decreases self.clients.len() - i,
        {
            assert(all[i as int] == self.clients[i as int]@);
            let ghost before_focused = focused;
            let ghost before_composing = composing;
            if self.clients[i].connection_id == connection_id {
                if self.clients[i].route.focused {
                    assert(all[i as int].connection_id == connection_id);
                    focused = true;
                }
                if self.clients[i].last_response.composing {
                    assert(all[i as int].connection_id == connection_id);
                    composing = true;
                }
            }
            i += 1;
        }
        Effect::SetInputState { connection_id, focused, composing }
    }

    /// The call that sets the shared mode, where there is one.
    fn shared_mode_calls(&self) -> (r: Vec<RimeCall>)
        ensures
            r@ == shared_mode_call(self@.global_ascii),
    {
        let mut calls: Vec<RimeCall> = Vec::new();
        if let Some(ascii) = self.global_ascii {
            calls.push(RimeCall::SetAsciiMode(ascii));
        }
        assert(calls@ =~= shared_mode_call(self@.global_ascii));
        calls
    }

    /// A key of an open context.
    fn key(&mut self, i: usize, connection_id: u64, request_id: u64, key: KeyEvent) -> (r:
        MessageStep)
        requires
            old(self).wf(),
            i < old(self)@.clients.len(),
            token_valid(key.token),
            old(self)@.clients[i as int].route.token->0.context_id == key.token->0.context_id,
        ensures
            final(self).wf(),
            (final(self)@, r@) == begin_key(old(self)@, i as int, connection_id, request_id, key),
            r matches MessageStep::Call(p) ==> first_index(
                final(self)@.clients,
                has_id(p.session_id),
            ) is Some,
    {
        let ghost e = self@;
        assert(e.clients[i as int] == self.clients[i as int]@);
        let mut route: SessionRoute = self.clients[i].route;
        if !route.observe(key.token.as_ref()) {
            return MessageStep::Done(
                failure(
                    connection_id,
                    request_id,
                    FailureCode::StaleContext,
                    "stale or mismatched key context",
                ),
            );
        }
        route.focused = true;
        let id: u64 = self.clients[i].id;
        let focus_changed: bool = self.active_client != Some(id);
        self.active_client = Some(id);
        self.clients[i].route = route;
        let mut calls: Vec<RimeCall> = self.shared_mode_calls();
        calls.push(RimeCall::ProcessKey(key));
        proof {
            let c = ClientSessionView { route, ..e.clients[i as int] };
            assert(self@.clients =~= e.clients.update(i as int, c));
            lemma_wf_update(
                e,
                i as int,
                c,
                self@.active_client,
                e.global_ascii,
                e.next_mode_indicator,
            );
            assert(self@ == (EngineView {
                clients: e.clients.update(i as int, c),
                active_client: Some(id),
                ..e
            }));
            lemma_session_place(self@, i as int);
        }
        MessageStep::Call(
            PendingCall {
                session_id: id,
                connection_id,
                request_id,
                calls,
                kind: CallKind::Key { focus_changed },
            },
        )
    }

    /// A command for an open context, other than its end.
    fn command(
        &mut self,
        i: usize,
        connection_id: u64,
        request_id: u64,
        command: ContextCommand,
    ) -> (r: MessageStep)
        requires
            old(self).wf(),
            i < old(self)@.clients.len(),
            token_valid(command.token),
            old(self)@.clients[i as int].route.token->0.context_id == command.token->0.context_id,
        ensures
            final(self).wf(),
            (final(self)@, r@) == begin_command(
                old(self)@,
                i as int,
                connection_id,
                request_id,
                command,
            ),
            r matches MessageStep::Call(p) ==> first_index(
                final(self)@.clients,
                has_id(p.session_id),
            ) is Some,
    {
        let ghost e = self@;
        let ghost c = e.clients[i as int];
        assert(c == self.clients[i as int]@);
        assert(client_wf(c, e.next_session, e.next_mode_indicator));
        let action: ContextAction = command.action;
        if action == ContextAction::Unspecified {
            return MessageStep::Done(
                failure(
                    connection_id,
                    request_id,
                    FailureCode::InvalidArgument,
                    "unknown context action",
                ),
            );
        }
        let mut route: SessionRoute = self.clients[i].route;
        if !route.observe_command(command.token.as_ref(), action) {
            return MessageStep::Done(
                failure(
                    connection_id,
                    request_id,
                    FailureCode::StaleContext,
                    "stale or mismatched command context",
                ),
            );
        }
        let id: u64 = self.clients[i].id;
        let was_active: bool = self.active_client == Some(id);
        if action == ContextAction::Focus {
            route.focused = true;
            self.active_client = Some(id);
        } else if action == ContextAction::Blur || action == ContextAction::HostTerminated {
            route.focused = false;
            if was_active {
                self.active_client = None;
            }
        }
        self.clients[i].route = route;
        proof {
            let client = ClientSessionView { route, ..c };
            assert(self@.clients =~= e.clients.update(i as int, client));
            lemma_wf_update(
                e,
                i as int,
                client,
                self@.active_client,
                e.global_ascii,
                e.next_mode_indicator,
            );
            assert(self@ == (EngineView {
                clients: e.clients.update(i as int, client),
                active_client: self@.active_client,
                ..e
            }));
            lemma_session_place(self@, i as int);
        }
        let last: RimeCall = match (action, command.ascii_mode) {
            (ContextAction::SetAscii, None) => {
                return MessageStep::Done(
                    failure(
                        connection_id,
                        request_id,
                        FailureCode::InvalidArgument,
                        "SetAscii requires ascii_mode",
                    ),
                );
            },
            (ContextAction::SetAscii, Some(ascii)) => RimeCall::SetAsciiModeResponse(ascii),
            _ => RimeCall::ContextAction(action),
        };
        let mut calls: Vec<RimeCall> = if action == ContextAction::Focus || action
            == ContextAction::ToggleAscii {
            self.shared_mode_calls()
        } else {
            Vec::new()
        };
        calls.push(last);
        assert(calls@ =~= command_calls(command, e.global_ascii));
        MessageStep::Call(
            PendingCall {
                session_id: id,
                connection_id,
                request_id,
                calls,
                kind: CallKind::Command { action, was_active },
            },
        )
    }

    /// The end of an open context.
    fn destroy(
        &mut self,
        i: usize,
        connection_id: u64,
        request_id: u64,
        token: Option<ContextToken>,
    ) -> (r: MessageStep)
        requires
            old(self).wf(),
            i < old(self)@.clients.len(),
            token_valid(token),
        ensures
            final(self).wf(),
            (final(self)@, r@) == destroyed(
                old(self)@,
                i as int,
                connection_id,
                request_id,
                token,
            ),
            r is Done,
    {
        let ghost e = self@;
        let ghost c = e.clients[i as int];
        assert(c == self.clients[i as int]@);
        let mut route: SessionRoute = self.clients[i].route;
        if !route.observe(token.as_ref()) {
            return MessageStep::Done(
                failure(
                    connection_id,
                    request_id,
                    FailureCode::StaleContext,
                    "stale destroy context",
                ),
            );
        }
        let context_id: u64 = match token {
            Some(token) => token.context_id,
            None => 0,
        };
        let id: u64 = self.clients[i].id;
        let revision: u64 = crate::client_session::advance(self.clients[i].revision);
        let mut response: KeyEventResponse = KeyEventResponse::default();
        response.token = token;
        response.revision = revision;
        let mut effects: Vec<Effect> = Vec::new();
        effects.push(reply(connection_id, request_id, response, self.allow_rime_in_secure_fields));
        if self.active_client == Some(id) {
            let mut gone: RenderSnapshot = RenderSnapshot::default();
            gone.session_id = id;
            gone.token = token;
            gone.revision = revision;
            effects.push(Effect::Publish(gone));
            self.active_client = None;
        }
        self.clients.remove(i);
        proof {
            assert(self@.clients =~= e.clients.remove(i as int));
            lemma_wf_remove(e, i as int);
        }
        effects.push(Effect::DropSession(id));
        effects.push(Effect::ForgetLayout { connection_id, context_id });
        effects.push(self.connection_state(connection_id));
        proof {
            let next = destroyed(e, i as int, connection_id, request_id, token);
            assert(self@ == next.0);
            assert(effect_views(effects@) =~= next.1->Done_0);
        }
        MessageStep::Done(effects)
    }

    /// Takes a message of a client. A message that is refused changes nothing,
    /// but for a command that lacks its mode.
    pub fn message(
        &mut self,
        connection_id: u64,
        alive: bool,
        request_id: u64,
        request: Request,
    ) -> (r: MessageStep)
        requires
            old(self).wf(),
            old(self)@.next_session < u64::MAX,
        ensures
            final(self).wf(),
            (final(self)@, r@) == begin(old(self)@, connection_id, alive, request_id, request),
            r matches MessageStep::Open(p) ==> can_open(final(self)@, p),
            r matches MessageStep::Call(p) ==> first_index(
                final(self)@.clients,
                has_id(p.session_id),
            ) is Some,
    {
        let ghost e = self@;
        if !alive {
            let none: Vec<Effect> = Vec::new();
            assert(effect_views(none@) =~= Seq::<EffectView>::empty());
            return MessageStep::Done(none);
        }
        let token: Option<ContextToken> = match request {
            Request::OpenInput(token) => token,
            Request::Key(key) => key.token,
            Request::Command(command) => command.token,
            Request::Other => None,
        };
        if !valid_token(token.as_ref()) {
            return MessageStep::Done(
                failure(
                    connection_id,
                    request_id,
                    FailureCode::InvalidArgument,
                    "input token required",
                ),
            );
        }
        let token: ContextToken = match token {
            Some(token) => token,
            None => ContextToken::default(),
        };
        match self.find_context(connection_id, token.context_id) {
            None => match request {
                Request::OpenInput(_) => {
                    if self.count_contexts(connection_id) >= MAX_CONTEXTS {
                        return MessageStep::Done(
                            failure(
                                connection_id,
                                request_id,
                                FailureCode::InvalidArgument,
                                "too many input contexts",
                            ),
                        );
                    }
                    let session_id: u64 = self.next_session;
                    self.next_session = session_id + 1;
                    assert(self@ == (EngineView { next_session: (session_id + 1) as u64, ..e }));
                    assert forall|k: int| 0 <= k < self@.clients.len() implies client_wf(
                        #[trigger] self@.clients[k],
                        self@.next_session,
                        self@.next_mode_indicator,
                    ) by {
                        assert(client_wf(e.clients[k], e.next_session, e.next_mode_indicator));
                    }
                    MessageStep::Open(
                        PendingOpen { session_id, connection_id, request_id, token },
                    )
                },
                _ => MessageStep::Done(
                    failure(
                        connection_id,
                        request_id,
                        FailureCode::InvalidArgument,
                        "OpenInput required before input",
                    ),
                ),
            },
            Some(i) => {
                proof {
                    lemma_first_index(e.clients, in_context(connection_id, token.context_id));
                    assert(e.clients[i as int] == self.clients[i as int]@);
                }
                match request {
                    Request::OpenInput(_) => {
                        if self.clients[i].route.token != Some(token) {
                            return MessageStep::Done(
                                failure(
                                    connection_id,
                                    request_id,
                                    FailureCode::InvalidArgument,
                                    "input already opened; use context commands",
                                ),
                            );
                        }
                        let mut effects: Vec<Effect> = Vec::new();
                        effects.push(
                            Effect::InputOpened { connection_id, request_id, token: Some(token) },
                        );
                        assert(effect_views(effects@) =~= seq![
                            EffectView::InputOpened {
                                connection_id,
                                request_id,
                                token: Some(token),
                            },
                        ]);
                        MessageStep::Done(effects)
                    },
                    Request::Key(key) => self.key(i, connection_id, request_id, key),
                    Request::Command(command) => {
                        if command.action == ContextAction::Destroy {
                            self.destroy(i, connection_id, request_id, command.token)
                        } else {
                            self.command(i, connection_id, request_id, command)
                        }
                    },
                    Request::Other => {
                        let none: Vec<Effect> = Vec::new();
                        assert(effect_views(none@) =~= Seq::<EffectView>::empty());
                        MessageStep::Done(none)
                    },
                }
            },
        }
    }

    /// Takes the outcome of creating a session in librime.
    pub fn opened(
        &mut self,
        pending: PendingOpen,
        created: bool,
        app_ascii: Option<bool>,
        app_inline_preedit: Option<bool>,
    ) -> (r: Vec<Effect>)
        requires
            old(self).wf(),
            can_open(old(self)@, pending),
        ensures
            final(self).wf(),
            (final(self)@, effect_views(r@)) == after_open(
                old(self)@,
                pending,
                created,
                app_ascii,
                app_inline_preedit,
            ),
    {
        let ghost e = self@;
        if !created {
            return failure(
                pending.connection_id,
                pending.request_id,
                FailureCode::Internal,
                "session creation failed",
            );
        }
        let mut effects: Vec<Effect> = Vec::new();
        let mode: Option<bool> = if self.global_ascii.is_some() {
            self.global_ascii
        } else {
            app_ascii
        };
        if let Some(ascii_mode) = mode {
            effects.push(Effect::SetAsciiMode { session_id: pending.session_id, ascii_mode });
        }
        let inline_preedit: bool = match app_inline_preedit {
            Some(inline) => inline,
            None => true,
        };
        let client = ClientSession {
            id: pending.session_id,
            inline_preedit,
            connection_id: pending.connection_id,
            alive: true,
            revision: 0,
            route: SessionRoute { token: Some(pending.token), focused: false },
            anchor: RenderRect::default(),
            waiting_for_layout: None,
            latest_layout_revision: None,
            pending_mode_indicator: None,
            last_response: KeyEventResponse::default(),
        };
        let ghost c = client@;
        assert(c == new_client(pending, inline_preedit));
        self.clients.push(client);
        effects.push(
            Effect::InputOpened {
                connection_id: pending.connection_id,
                request_id: pending.request_id,
                token: Some(pending.token),
            },
        );
        proof {
            assert(self@.clients =~= e.clients.push(c));
            let next = after_open(e, pending, created, app_ascii, app_inline_preedit);
            assert(self@ == next.0);
            assert(effect_views(effects@) =~= next.1);
            lemma_wf_push(e, c);
        }
        effects
    }
}

impl Engine {
    /// Takes the last answer of the calls that a session waited for.
    pub fn finish(
        &mut self,
        pending: PendingCall,
        response: KeyEventResponse,
        supports_preedit: bool,
        now: u64,
    ) -> (r: Vec<Effect>)
        requires
            old(self).wf(),
            first_index(old(self)@.clients, has_id(pending.session_id)) is Some,
            old(self)@.next_mode_indicator < u64::MAX,
            now <= u64::MAX - MODE_INDICATOR_LAYOUT_TIMEOUT,
        ensures
            final(self).wf(),
            (final(self)@, effect_views(r@)) == after_call(
                old(self)@,
                first_index(old(self)@.clients, has_id(pending.session_id))->0,
                pending@,
                response@,
                supports_preedit,
                now,
            ),
    {
        let i: usize = match self.find_session(pending.session_id) {
            Some(i) => i,
            None => {
                return Vec::new();
            },
        };
        proof {
            lemma_first_index(self@.clients, has_id(pending.session_id));
        }
        match pending.kind {
            CallKind::Key { focus_changed } => self.finish_key(
                i,
                pending,
                focus_changed,
                response,
                supports_preedit,
                now,
            ),
            CallKind::Command { action, was_active } => self.finish_command(
                i,
                pending,
                action,
                was_active,
                response,
                supports_preedit,
                now,
            ),
            CallKind::Click => self.finish_click(i, response, supports_preedit),
        }
    }

    /// Takes the answer to a key.
    #[verifier::rlimit(60)]
    #[verifier::spinoff_prover]
    fn finish_key(
        &mut self,
        i: usize,
        pending: PendingCall,
        focus_changed: bool,
        response: KeyEventResponse,
        supports_preedit: bool,
        now: u64,
    ) -> (r: Vec<Effect>)
        requires
            old(self).wf(),
            i < old(self)@.clients.len(),
            old(self)@.next_mode_indicator < u64::MAX,
            now <= u64::MAX - MODE_INDICATOR_LAYOUT_TIMEOUT,
        ensures
            final(self).wf(),
            (final(self)@, effect_views(r@)) == after_key_call(
                old(self)@,
                i as int,
                pending@,
                focus_changed,
                response@,
                supports_preedit,
                now,
            ),
    {
        let ghost e = self@;
        let ghost c = e.clients[i as int];
        assert(c == self.clients[i as int]@);
        assert(client_wf(c, e.next_session, e.next_mode_indicator));
        let ghost outcome = after_key(
            c,
            response@,
            supports_preedit,
            e.input_mode_indicator,
            e.next_mode_indicator,
            now,
        );
        proof {
            lemma_key_keeps(
                c,
                response@,
                supports_preedit,
                e.input_mode_indicator,
                e.next_session,
                e.next_mode_indicator,
                now,
            );
        }
        let allow: bool = self.allow_rime_in_secure_fields;
        let state_updated: bool = response.state_updated;
        if self.global_ascii.is_some() && response.ascii_mode.is_some() {
            self.global_ascii = response.ascii_mode;
        }
        let visible: bool = self.clients[i].visible();
        let mode: Option<bool> = self.clients[i].last_response.ascii_mode;
        let mut next: u64 = self.next_mode_indicator;
        let policy: InputModeIndicatorPolicy = self.input_mode_indicator;
        let answer: KeyEventResponse = self.clients[i].finish_key(
            response,
            supports_preedit,
            policy,
            &mut next,
            now,
        );
        self.next_mode_indicator = next;
        assert(self@.clients =~= e.clients.update(i as int, outcome.client));
        let frame: Option<RenderSnapshot> = self.clients[i].show_key(
            visible,
            mode,
            state_updated,
            focus_changed,
        );
        proof {
            lemma_wf_update(
                e,
                i as int,
                outcome.client,
                e.active_client,
                self@.global_ascii,
                self@.next_mode_indicator,
            );
        }
        answer_and_show(pending.connection_id, pending.request_id, answer, allow, frame)
    }

    /// Takes the answer to a command.
    #[verifier::rlimit(60)]
    #[verifier::spinoff_prover]
    fn finish_command(
        &mut self,
        i: usize,
        pending: PendingCall,
        action: ContextAction,
        was_active: bool,
        response: KeyEventResponse,
        supports_preedit: bool,
        now: u64,
    ) -> (r: Vec<Effect>)
        requires
            old(self).wf(),
            i < old(self)@.clients.len(),
            old(self)@.next_mode_indicator < u64::MAX,
            now <= u64::MAX - MODE_INDICATOR_LAYOUT_TIMEOUT,
        ensures
            final(self).wf(),
            (final(self)@, effect_views(r@)) == after_command_call(
                old(self)@,
                i as int,
                pending@,
                action,
                was_active,
                response@,
                supports_preedit,
                now,
            ),
    {
        let ghost e = self@;
        let ghost c = e.clients[i as int];
        assert(c == self.clients[i as int]@);
        assert(client_wf(c, e.next_session, e.next_mode_indicator));
        let ghost outcome = after_command(
            c,
            action,
            response@,
            supports_preedit,
            e.input_mode_indicator,
            e.next_mode_indicator,
            now,
        );
        proof {
            lemma_command_keeps(
                c,
                action,
                response@,
                supports_preedit,
                e.input_mode_indicator,
                e.next_session,
                e.next_mode_indicator,
                now,
            );
        }
        let allow: bool = self.allow_rime_in_secure_fields;
        if action == ContextAction::ToggleAscii && self.global_ascii.is_some()
            && response.ascii_mode.is_some() {
            self.global_ascii = response.ascii_mode;
        }
        let is_active: bool = self.active_client == Some(self.clients[i].id);
        let mut next: u64 = self.next_mode_indicator;
        let policy: InputModeIndicatorPolicy = self.input_mode_indicator;
        let answer: KeyEventResponse = self.clients[i].finish_command(
            action,
            response,
            supports_preedit,
            policy,
            &mut next,
            now,
        );
        self.next_mode_indicator = next;
        assert(self@.clients =~= e.clients.update(i as int, outcome.client));
        let frame: Option<RenderSnapshot> = self.clients[i].show_command(was_active, is_active);
        proof {
            lemma_wf_update(
                e,
                i as int,
                outcome.client,
                e.active_client,
                self@.global_ascii,
                self@.next_mode_indicator,
            );
        }
        answer_and_show(pending.connection_id, pending.request_id, answer, allow, frame)
    }

    /// Takes the answer to a click.
    fn finish_click(&mut self, i: usize, response: KeyEventResponse, supports_preedit: bool) -> (r:
        Vec<Effect>)
        requires
            old(self).wf(),
            i < old(self)@.clients.len(),
        ensures
            final(self).wf(),
            (final(self)@, effect_views(r@)) == after_click_call(
                old(self)@,
                i as int,
                response@,
                supports_preedit,
            ),
    {
        let ghost e = self@;
        let ghost c = e.clients[i as int];
        assert(c == self.clients[i as int]@);
        assert(client_wf(c, e.next_session, e.next_mode_indicator));
        let connection_id: u64 = self.clients[i].connection_id;
        let allow: bool = self.allow_rime_in_secure_fields;
        let (answer, snapshot): (KeyEventResponse, RenderSnapshot) = self.clients[i].finish_click(
            response,
            supports_preedit,
        );
        let ghost client = self.clients[i as int]@;
        assert(self@.clients =~= e.clients.update(i as int, client));
        proof {
            lemma_wf_update(
                e,
                i as int,
                client,
                e.active_client,
                e.global_ascii,
                e.next_mode_indicator,
            );
        }
        answer_and_show(connection_id, 0, answer, allow, Some(snapshot))
    }

    /// Takes what the user did in the renderer's window. Only what was done on the
    /// latest state of the active session, with its focus and its token, asks
    /// librime for anything.
    pub fn renderer_event(&self, event: RendererEvent) -> (r: Option<PendingCall>)
        ensures
            match r {
                Some(pending) => click_accepted(self@, event) && pending@ == (PendingCallView {
                    session_id: event.session_id,
                    connection_id: self@.clients[first_index(
                        self@.clients,
                        has_id(event.session_id),
                    )->0].connection_id,
                    request_id: 0,
                    calls: seq![RimeCall::RendererEvent(event)],
                    kind: CallKind::Click,
                }) && first_index(self@.clients, has_id(pending.session_id)) is Some,
                None => !click_accepted(self@, event),
            },
    {
        let i: usize = match self.find_session(event.session_id) {
            Some(i) => i,
            None => {
                return None;
            },
        };
        assert(self@.clients[i as int] == self.clients[i as int]@);
        if self.active_client != Some(event.session_id) || !self.clients[i].alive
            || !self.clients[i].route.accepts_ui(&event, self.clients[i].revision) {
            return None;
        }
        let mut calls: Vec<RimeCall> = Vec::new();
        calls.push(RimeCall::RendererEvent(event));
        assert(calls@ =~= seq![RimeCall::RendererEvent(event)]);
        Some(
            PendingCall {
                session_id: event.session_id,
                connection_id: self.clients[i].connection_id,
                request_id: 0,
                calls,
                kind: CallKind::Click,
            },
        )
    }

    /// Notes that a connection is gone. Its sessions end with the next sweep.
    pub fn connection_closed(&mut self, connection_id: u64)
        requires
            old(self).wf(),
        ensures
            final(self).wf(),
            final(self)@ == (EngineView {
                clients: without_connection(old(self)@.clients, connection_id),
                ..old(self)@
            }),
    {
        let ghost e = self@;
        let mut i: usize = 0;
        while i < self.clients.len()
            invariant
                i <= self.clients.len() == e.clients.len(),
                forall|j: int|
                    0 <= j < e.clients.len() ==> (#[trigger] self.clients[j])@ == (if j < i {
                        lost(e.clients[j], connection_id)
                    } else {
                        e.clients[j]
                    }),
                self@ == (EngineView { clients: self@.clients, ..e }),
            decreases self.clients.len() - i,
        {
            assert(self.clients[i as int]@ == e.clients[i as int]);
            if self.clients[i].connection_id == connection_id {
                self.clients[i].alive = false;
            }
            i += 1;
        }
        proof {
            let clients = without_connection(e.clients, connection_id);
            assert(self@.clients =~= clients);
            lemma_wf_map(e, clients);
        }
    }

    /// The layout that the engine looks for: that of the active session's token,
    /// on its connection, while the connection is there.
    pub fn layout_wanted(&self) -> (r: Option<(u64, Option<ContextToken>)>)
        ensures
            r == wanted_layout(self@),
    {
        let id: u64 = match self.active_client {
            Some(id) => id,
            None => {
                return None;
            },
        };
        match self.find_session(id) {
            Some(i) => {
                assert(self@.clients[i as int] == self.clients[i as int]@);
                if self.clients[i].alive {
                    Some((self.clients[i].connection_id, self.clients[i].route.token))
                } else {
                    None
                }
            },
            None => None,
        }
    }
}

/// The answer that goes out for a response, and the frame, where there is one.
fn answer_and_show(
    connection_id: u64,
    request_id: u64,
    response: KeyEventResponse,
    allow: bool,
    frame: Option<RenderSnapshot>,
) -> (r: Vec<Effect>)
    ensures
        effect_views(r@) == seq![answered(connection_id, request_id, response@, allow)] + publish(
            frame_view(frame),
        ),
{
    let mut effects: Vec<Effect> = Vec::new();
    effects.push(reply(connection_id, request_id, response, allow));
    if let Some(snapshot) = frame {
        effects.push(Effect::Publish(snapshot));
    }
    assert(effect_views(effects@) =~= seq![
        answered(connection_id, request_id, response@, allow),
    ] + publish(frame_view(frame)));
    effects
}

/// Whether a click is accepted: on the active session, which is there, and has
/// the focus, the event's token and its revision.
pub open spec fn click_accepted(e: EngineView, event: RendererEvent) -> bool {
    match first_index(e.clients, has_id(event.session_id)) {
        Some(i) => {
            let c = e.clients[i];
            e.active_client == Some(event.session_id) && c.alive && c.route.focused && c.route.token
                == event.token && event.revision == c.revision
        },
        None => false,
    }
}

/// A session after a connection was lost.
pub open spec fn lost(c: ClientSessionView, connection_id: u64) -> ClientSessionView {
    if c.connection_id == connection_id {
        ClientSessionView { alive: false, ..c }
    } else {
        c
    }
}

/// The sessions after a connection was lost.
pub open spec fn without_connection(clients: Seq<ClientSessionView>, connection_id: u64) -> Seq<
    ClientSessionView,
> {
    Seq::new(clients.len(), |i: int| lost(clients[i], connection_id))
}

/// The layout that the engine looks for.
pub open spec fn wanted_layout(e: EngineView) -> Option<(u64, Option<ContextToken>)> {
    match e.active_client {
        Some(id) => match first_index(e.clients, has_id(id)) {
            Some(i) if e.clients[i].alive => Some(
                (e.clients[i].connection_id, e.clients[i].route.token),
            ),
            _ => None,
        },
        None => None,
    }
}

/// Counting depends on the connections alone.
proof fn lemma_contexts_same(
    a: Seq<ClientSessionView>,
    b: Seq<ClientSessionView>,
    connection_id: u64,
)
    requires
        a.len() == b.len(),
        forall|i: int|
            0 <= i < a.len() ==> (#[trigger] a[i]).connection_id == b[i].connection_id,
    ensures
        contexts_of(a, connection_id) == contexts_of(b, connection_id),
    decreases a.len(),
{
    if a.len() > 0 {
        assert forall|i: int| 0 <= i < a.drop_last().len() implies (#[trigger] a.drop_last()[
            i]).connection_id == b.drop_last()[i].connection_id by {
            assert(a[i].connection_id == b[i].connection_id);
        }
        lemma_contexts_same(a.drop_last(), b.drop_last(), connection_id);
        assert(a[a.len() - 1].connection_id == b[a.len() - 1].connection_id);
    }
}

/// Sessions that keep their numbers, connections, tokens and indicators keep the
/// engine in order.
proof fn lemma_wf_map(e: EngineView, clients: Seq<ClientSessionView>)
    requires
        engine_wf(e),
        clients.len() == e.clients.len(),
        forall|i: int|
            0 <= i < clients.len() ==> {
                let (c, d) = (#[trigger] clients[i], e.clients[i]);
                &&& c.id == d.id
                &&& c.connection_id == d.connection_id
                &&& c.route == d.route
                &&& c.pending_mode_indicator == d.pending_mode_indicator
            },
    ensures
        engine_wf(EngineView { clients, ..e }),
{
    assert forall|k: int| 0 <= k < clients.len() implies client_wf(
        #[trigger] clients[k],
        e.next_session,
        e.next_mode_indicator,
    ) by {
        assert(client_wf(e.clients[k], e.next_session, e.next_mode_indicator));
    }
    assert forall|k: int, l: int| 0 <= k < l < clients.len() implies in_order(
        #[trigger] clients[k],
        #[trigger] clients[l],
    ) by {
        assert(in_order(e.clients[k], e.clients[l]));
    }
    assert forall|connection_id: u64| #[trigger]
        contexts_of(clients, connection_id) <= MAX_CONTEXTS by {
        lemma_contexts_same(clients, e.clients, connection_id);
        assert(contexts_of(e.clients, connection_id) <= MAX_CONTEXTS);
    }
    if let Some(id) = e.active_client {
        let k = choose|k: int| 0 <= k < e.clients.len() && #[trigger] e.clients[k].id == id;
        assert(clients[k].id == id);
    }
}

/// With a session of a new context, of a newer number, the engine stays in order.
proof fn lemma_wf_push(e: EngineView, c: ClientSessionView)
    requires
        engine_wf(e),
        client_wf(c, e.next_session, e.next_mode_indicator),
        forall|i: int| 0 <= i < e.clients.len() ==> (#[trigger] e.clients[i]).id < c.id,
        first_index(
            e.clients,
            in_context(c.connection_id, c.route.token->0.context_id),
        ) is None,
        contexts_of(e.clients, c.connection_id) < MAX_CONTEXTS,
    ensures
        engine_wf(EngineView { clients: e.clients.push(c), ..e }),
{
    let clients = e.clients.push(c);
    lemma_first_index(e.clients, in_context(c.connection_id, c.route.token->0.context_id));
    assert forall|k: int, l: int| 0 <= k < l < clients.len() implies in_order(
        #[trigger] clients[k],
        #[trigger] clients[l],
    ) by {
        if l < e.clients.len() {
            assert(in_order(e.clients[k], e.clients[l]));
        } else {
            assert(clients[k] == e.clients[k]);
            assert(!in_context(c.connection_id, c.route.token->0.context_id)(e.clients[k]));
        }
    }
    assert forall|connection_id: u64| #[trigger]
        contexts_of(clients, connection_id) <= MAX_CONTEXTS by {
        assert(clients.drop_last() =~= e.clients);
        assert(contexts_of(e.clients, connection_id) <= MAX_CONTEXTS);
    }
    if let Some(id) = e.active_client {
        let k = choose|k: int| 0 <= k < e.clients.len() && #[trigger] e.clients[k].id == id;
        assert(clients[k].id == id);
    }
}

} // verus!
