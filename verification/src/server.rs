//! The server process: what its arguments ask for, who is answered without the
//! engine, what a connection may send before it has a slot, and when it all ends.
use crate::admission::{Admission, Gate, PENDING_LIMIT};
#[allow(unused_imports)]
use crate::admission::{gate_wf, GateView, ADMISSION_TIMEOUT};
use crate::engine::Request;
use crate::message::{
    ContextAction, ContextCommand, ContextToken, FailureCode, KeyEvent, LayoutUpdate,
};
use crate::silent_deploy::{contains_argument, valid_arguments};
#[allow(unused_imports)]
use crate::silent_deploy::{asks_for_silent_deployment, has_argument};
use crate::text::same_text;
use vstd::prelude::*;

pub mod laws;

verus! {

/// Number of connections that may have a slot.
pub const MAX_CONNECTIONS: usize = 128;

/// What a client sends.
#[derive(Debug, PartialEq, Eq)]
pub enum ClientPayload {
    Layout(LayoutUpdate),
    IdentifyService,
    Ping(String),
    Shutdown,
    OpenInput(Option<ContextToken>),
    Key(KeyEvent),
    Command(ContextCommand),
    LogEvent,
    /// Anything else, or nothing.
    Other,
}

pub ghost enum ClientPayloadView {
    Layout(LayoutUpdate),
    IdentifyService,
    Ping(Seq<char>),
    Shutdown,
    OpenInput(Option<ContextToken>),
    Key(KeyEvent),
    Command(ContextCommand),
    LogEvent,
    Other,
}

impl View for ClientPayload {
    type V = ClientPayloadView;

    open spec fn view(&self) -> ClientPayloadView {
        match *self {
            ClientPayload::Layout(update) => ClientPayloadView::Layout(update),
            ClientPayload::IdentifyService => ClientPayloadView::IdentifyService,
            ClientPayload::Ping(text) => ClientPayloadView::Ping(text@),
            ClientPayload::Shutdown => ClientPayloadView::Shutdown,
            ClientPayload::OpenInput(token) => ClientPayloadView::OpenInput(token),
            ClientPayload::Key(key) => ClientPayloadView::Key(key),
            ClientPayload::Command(command) => ClientPayloadView::Command(command),
            ClientPayload::LogEvent => ClientPayloadView::LogEvent,
            ClientPayload::Other => ClientPayloadView::Other,
        }
    }
}

/// What is answered without the engine.
#[derive(Debug, PartialEq, Eq)]
pub enum ControlReply {
    /// Who the service is, and whether it is ready.
    Identity { ready: bool },
    Pong(String),
    Failure { code: FailureCode, message: String },
    Shutdown { accepted: bool, message: String },
}

pub ghost enum ControlReplyView {
    Identity { ready: bool },
    Pong(Seq<char>),
    Failure { code: FailureCode, message: Seq<char> },
    Shutdown { accepted: bool, message: Seq<char> },
}

impl View for ControlReply {
    type V = ControlReplyView;

    open spec fn view(&self) -> ControlReplyView {
        match *self {
            ControlReply::Identity { ready } => ControlReplyView::Identity { ready },
            ControlReply::Pong(text) => ControlReplyView::Pong(text@),
            ControlReply::Failure { code, message } => ControlReplyView::Failure {
                code,
                message: message@,
            },
            ControlReply::Shutdown { accepted, message } => ControlReplyView::Shutdown {
                accepted,
                message: message@,
            },
        }
    }
}

/// The answer to a message that needs neither the engine nor a session; none where
/// the message needs them.
pub open spec fn control_answer(payload: ClientPayloadView, ready: bool) -> Option<
    ControlReplyView,
> {
    match payload {
        ClientPayloadView::IdentifyService => Some(ControlReplyView::Identity { ready }),
        ClientPayloadView::Ping(text) => if ready {
            Some(ControlReplyView::Pong(text))
        } else {
            Some(
                ControlReplyView::Failure {
                    code: FailureCode::NotReady,
                    message: "engine not ready"@,
                },
            )
        },
        ClientPayloadView::Shutdown => Some(
            ControlReplyView::Shutdown { accepted: true, message: "server shutdown accepted"@ },
        ),
        _ => None,
    }
}

/// The answer to a message that needs neither the engine nor a session. It carries
/// the request's number.
pub fn control_reply(request_id: u64, payload: &ClientPayload, ready: bool) -> (r: Option<
    (u64, ControlReply),
>)
    ensures
        match r {
            Some((id, reply)) => id == request_id && control_answer(payload@, ready) == Some(
                reply@,
            ),
            None => control_answer(payload@, ready) is None,
        },
{
    match payload {
        ClientPayload::IdentifyService => Some((request_id, ControlReply::Identity { ready })),
        ClientPayload::Ping(text) => if ready {
            Some((request_id, ControlReply::Pong(text.clone())))
        } else {
            Some(
                (
                    request_id,
                    ControlReply::Failure {
                        code: FailureCode::NotReady,
                        message: "engine not ready".to_owned(),
                    },
                ),
            )
        },
        ClientPayload::Shutdown => Some(
            (
                request_id,
                ControlReply::Shutdown {
                    accepted: true,
                    message: "server shutdown accepted".to_owned(),
                },
            ),
        ),
        _ => None,
    }
}

/// What a connection's reader remembers.
#[derive(Clone, Copy, Debug, PartialEq, Eq, Structural)]
pub struct Reader {
    /// Whether the connection waits for a slot.
    pub pending: bool,
    /// The context that it opened while it waits.
    pub opened: Option<ContextToken>,
    /// Whether it has set the mode while it waits.
    pub mode_restored: bool,
}

/// What the reader does with a message.
#[derive(Debug, PartialEq, Eq)]
pub enum ReaderStep {
    StoreLayout(LayoutUpdate),
    /// Answer, and close where that fails.
    Reply { request_id: u64, reply: ControlReply },
    /// Answer, tell the server to stop, and close.
    ReplyAndStop { request_id: u64, reply: ControlReply },
    /// Claim a slot, and report.
    Promote(Request),
    /// Hand the request to the engine, and close where its queue is full.
    Forward(Request),
    /// Note that the client sent a diagnostic, without its text.
    Log,
    Ignore,
    Close,
}

pub ghost enum ReaderStepView {
    StoreLayout(LayoutUpdate),
    Reply { request_id: u64, reply: ControlReplyView },
    ReplyAndStop { request_id: u64, reply: ControlReplyView },
    Promote(Request),
    Forward(Request),
    Log,
    Ignore,
    Close,
}

impl View for ReaderStep {
    type V = ReaderStepView;

    open spec fn view(&self) -> ReaderStepView {
        match *self {
            ReaderStep::StoreLayout(update) => ReaderStepView::StoreLayout(update),
            ReaderStep::Reply { request_id, reply } => ReaderStepView::Reply {
                request_id,
                reply: reply@,
            },
            ReaderStep::ReplyAndStop { request_id, reply } => ReaderStepView::ReplyAndStop {
                request_id,
                reply: reply@,
            },
            ReaderStep::Promote(request) => ReaderStepView::Promote(request),
            ReaderStep::Forward(request) => ReaderStepView::Forward(request),
            ReaderStep::Log => ReaderStepView::Log,
            ReaderStep::Ignore => ReaderStepView::Ignore,
            ReaderStep::Close => ReaderStepView::Close,
        }
    }
}

/// Whether a token continues an opened context: the same context and connection,
/// and no older.
pub open spec fn continues(opened: Option<ContextToken>, token: Option<ContextToken>) -> bool {
    opened matches Some(o) && (token matches Some(t) && t.context_id == o.context_id
        && t.connection_epoch == o.connection_epoch && t.generation >= o.generation)
}

/// The token by which a message claims a slot: that of a key, or of a focus.
pub open spec fn claim_token(payload: ClientPayloadView) -> Option<ContextToken> {
    match payload {
        ClientPayloadView::Key(key) => key.token,
        ClientPayloadView::Command(command) => if command.action == ContextAction::Focus {
            command.token
        } else {
            None
        },
        _ => None,
    }
}

/// Whether a command sets the mode of the context that was opened, for the first
/// time.
pub open spec fn restores_mode(reader: Reader, command: ContextCommand) -> bool {
    command.action == ContextAction::SetAscii && command.ascii_mode is Some && !reader.mode_restored
        && reader.opened is Some && command.token == reader.opened
}

/// What a reader with a slot does with a message.
pub open spec fn dispatched(payload: ClientPayloadView) -> ReaderStepView {
    match payload {
        ClientPayloadView::OpenInput(token) => ReaderStepView::Forward(Request::OpenInput(token)),
        ClientPayloadView::Key(key) => ReaderStepView::Forward(Request::Key(key)),
        ClientPayloadView::Command(command) => ReaderStepView::Forward(Request::Command(command)),
        ClientPayloadView::LogEvent => ReaderStepView::Log,
        _ => ReaderStepView::Ignore,
    }
}

/// What a reader that waits for a slot does with a message: one context may be
/// opened and its mode set once; a key or the focus of that context claims a slot.
pub open spec fn waiting_step(reader: Reader, payload: ClientPayloadView) -> (
    Reader,
    ReaderStepView,
) {
    match payload {
        ClientPayloadView::OpenInput(token) => if reader.opened is None {
            (Reader { opened: token, ..reader }, dispatched(payload))
        } else {
            (reader, ReaderStepView::Close)
        },
        ClientPayloadView::LogEvent => (reader, dispatched(payload)),
        ClientPayloadView::Command(command) => if restores_mode(reader, command) {
            (Reader { mode_restored: true, ..reader }, dispatched(payload))
        } else if continues(reader.opened, claim_token(payload)) {
            (reader, ReaderStepView::Promote(Request::Command(command)))
        } else {
            (reader, ReaderStepView::Close)
        },
        ClientPayloadView::Key(key) => if continues(reader.opened, claim_token(payload)) {
            (reader, ReaderStepView::Promote(Request::Key(key)))
        } else {
            (reader, ReaderStepView::Close)
        },
        _ => (reader, ReaderStepView::Close),
    }
}

/// What a reader does with a message.
pub open spec fn reader_step(
    reader: Reader,
    request_id: u64,
    payload: ClientPayloadView,
    ready: bool,
) -> (Reader, ReaderStepView) {
    match (payload, control_answer(payload, ready)) {
        (ClientPayloadView::Layout(update), _) => (reader, ReaderStepView::StoreLayout(update)),
        (ClientPayloadView::Shutdown, Some(reply)) => (
            reader,
            ReaderStepView::ReplyAndStop { request_id, reply },
        ),
        (_, Some(reply)) => (reader, ReaderStepView::Reply { request_id, reply }),
        (_, None) => if reader.pending {
            waiting_step(reader, payload)
        } else {
            (reader, dispatched(payload))
        },
    }
}

/// Whether a token continues an opened context.
fn token_continues(opened: &Option<ContextToken>, token: &Option<ContextToken>) -> (r: bool)
    ensures
        r == continues(*opened, *token),
{
    match (opened, token) {
        (Some(opened), Some(token)) => token.context_id == opened.context_id
            && token.connection_epoch == opened.connection_epoch && token.generation
            >= opened.generation,
        _ => false,
    }
}

/// What a reader with a slot does with a message.
fn dispatch(payload: ClientPayload) -> (r: ReaderStep)
    ensures
        r@ == dispatched(payload@),
{
    match payload {
        ClientPayload::OpenInput(token) => ReaderStep::Forward(Request::OpenInput(token)),
        ClientPayload::Key(key) => ReaderStep::Forward(Request::Key(key)),
        ClientPayload::Command(command) => ReaderStep::Forward(Request::Command(command)),
        ClientPayload::LogEvent => ReaderStep::Log,
        _ => ReaderStep::Ignore,
    }
}

/// A reader after its claim for a slot was answered, and what it does.
pub open spec fn after_claim(reader: Reader, admitted: bool, request: Request) -> (
    Reader,
    ReaderStepView,
) {
    if admitted {
        (Reader { pending: false, ..reader }, ReaderStepView::Forward(request))
    } else {
        (reader, ReaderStepView::Close)
    }
}

impl Reader {
    /// A reader of a new connection; `pending` says whether it waits for a slot.
    pub fn new(pending: bool) -> (r: Self)
        ensures
            r == (Reader { pending, opened: None, mode_restored: false }),
    {
        Reader { pending, opened: None, mode_restored: false }
    }

    /// Takes a message while the connection waits for a slot.
    fn wait(&mut self, payload: ClientPayload) -> (r: ReaderStep)
        ensures
            (*final(self), r@) == waiting_step(*old(self), payload@),
    {
        match payload {
            ClientPayload::OpenInput(token) => {
                if self.opened.is_some() {
                    return ReaderStep::Close;
                }
                self.opened = token;
                dispatch(payload)
            },
            ClientPayload::LogEvent => dispatch(payload),
            ClientPayload::Command(command) => {
                if command.action == ContextAction::SetAscii && command.ascii_mode.is_some()
                    && !self.mode_restored && self.opened.is_some() && command.token
                    == self.opened {
                    self.mode_restored = true;
                    return dispatch(payload);
                }
                let token: Option<ContextToken> = if command.action == ContextAction::Focus {
                    command.token
                } else {
                    None
                };
                if token_continues(&self.opened, &token) {
                    ReaderStep::Promote(Request::Command(command))
                } else {
                    ReaderStep::Close
                }
            },
            ClientPayload::Key(key) => if token_continues(&self.opened, &key.token) {
                ReaderStep::Promote(Request::Key(key))
            } else {
                ReaderStep::Close
            },
            _ => ReaderStep::Close,
        }
    }

    /// Takes a message.
    pub fn receive(&mut self, request_id: u64, payload: ClientPayload, ready: bool) -> (r:
        ReaderStep)
        ensures
            (*final(self), r@) == reader_step(*old(self), request_id, payload@, ready),
    {
        if let ClientPayload::Layout(update) = payload {
            return ReaderStep::StoreLayout(update);
        }
        if let Some((request_id, reply)) = control_reply(request_id, &payload, ready) {
            return match payload {
                ClientPayload::Shutdown => ReaderStep::ReplyAndStop { request_id, reply },
                _ => ReaderStep::Reply { request_id, reply },
            };
        }
        if self.pending {
            self.wait(payload)
        } else {
            dispatch(payload)
        }
    }

    /// Takes the outcome of the claim for a slot.
    pub fn promoted(&mut self, admitted: bool, request: Request) -> (r: ReaderStep)
        ensures
            (*final(self), r@) == after_claim(*old(self), admitted, request),
    {
        if admitted {
            self.pending = false;
            ReaderStep::Forward(request)
        } else {
            ReaderStep::Close
        }
    }
}

/// The connections that the server serves.
pub struct Connections {
    pub ids: Vec<u64>,
    pub next_client_id: u64,
    pub gate: Gate,
}

/// The number after a given one; zero is not used.
pub open spec fn following_id(id: u64) -> u64 {
    if id == u64::MAX {
        1
    } else {
        (id + 1) as u64
    }
}

/// Whether a new connection is taken: there is room for it, and it may wait.
pub open spec fn takes_connection(count: nat, gate: GateView) -> bool {
    count < MAX_CONNECTIONS + PENDING_LIMIT && gate.pending < PENDING_LIMIT
}

impl Connections {
    /// A server without connections.
    pub fn new() -> (r: Self)
        ensures
            r.ids@ == Seq::<u64>::empty(),
            r.next_client_id == 1,
            gate_wf(r.gate@),
            r.gate@ == (GateView {
                limit: MAX_CONNECTIONS as nat,
                active: Seq::empty(),
                pending: 0,
            }),
    {
        Connections { ids: Vec::new(), next_client_id: 1, gate: Gate::new(MAX_CONNECTIONS) }
    }

    /// Takes a new connection, where there is room for it, under a number of its
    /// own. A connection for which there is no room is dropped.
    pub fn accept(&mut self, now: u64) -> (r: Option<Admission>)
        requires
            gate_wf(old(self).gate@),
            now <= u64::MAX - ADMISSION_TIMEOUT,
        ensures
            gate_wf(final(self).gate@),
            r is Some <==> takes_connection(old(self).ids@.len(), old(self).gate@),
            match r {
                Some(admission) => {
                    &&& admission == (Admission {
                        id: old(self).next_client_id,
                        admitted: false,
                        deadline: (now + ADMISSION_TIMEOUT) as u64,
                    })
                    &&& final(self).ids@ == old(self).ids@.push(admission.id)
                    &&& final(self).next_client_id == following_id(old(self).next_client_id)
                    &&& final(self).gate@ == (GateView {
                        pending: old(self).gate@.pending + 1,
                        ..old(self).gate@
                    })
                },
                None => {
                    &&& final(self).ids@ == old(self).ids@
                    &&& final(self).gate@ == old(self).gate@
                    &&& final(self).next_client_id == (if old(self).ids@.len() < MAX_CONNECTIONS
                        + PENDING_LIMIT {
                        following_id(old(self).next_client_id)
                    } else {
                        old(self).next_client_id
                    })
                },
            },
    {
        if self.ids.len() >= MAX_CONNECTIONS + PENDING_LIMIT {
            return None;
        }
        let id: u64 = self.next_client_id;
        self.next_client_id = if id == u64::MAX {
            1
        } else {
            id + 1
        };
        match self.gate.start(id, now) {
            Some(admission) => {
                self.ids.push(id);
                Some(admission)
            },
            None => None,
        }
    }

    /// Forgets a connection whose reader has ended.
    pub fn ended(&mut self, id: u64)
        ensures
            final(self).ids@ == old(self).ids@.filter(crate::admission::other_than(id)),
            final(self).gate == old(self).gate,
            final(self).next_client_id == old(self).next_client_id,
    {
        let ghost all = self.ids@;
        let ghost keep = crate::admission::other_than(id);
        let mut rest: Vec<u64> = Vec::new();
        let mut i: usize = 0;
        proof {
            reveal(Seq::filter);
            assert(all.take(0).filter(keep) =~= Seq::<u64>::empty());
        }
        while i < self.ids.len()
            invariant
                i <= self.ids.len(),
                all == self.ids@,
                keep == crate::admission::other_than(id),
                rest@ == all.take(i as int).filter(keep),
            decreases self.ids.len() - i,
        {
            proof {
                crate::list::lemma_filter_take(all, keep, i as int);
            }
            if self.ids[i] != id {
                rest.push(self.ids[i]);
            }
            i += 1;
        }
        assert(all.take(all.len() as int) =~= all);
        self.ids = rest;
    }
}

/// Whether the renderer is connected before anything is shown: where the renderer
/// shows compositions, or the theme is a WASM module. Settings that could not be
/// read do not count.
pub fn eager_renderer(settings: Option<(Option<bool>, Option<String>)>) -> (r: bool)
    ensures
        r == (settings matches Some((external, theme)) && (external == Some(true) || (
        theme matches Some(name) && name@ == "wasm"@))),
{
    match settings {
        Some((external, theme)) => {
            let external: bool = match external {
                Some(external) => external,
                None => false,
            };
            let wasm: bool = match theme {
                Some(theme) => same_text(&theme, "wasm"),
                None => false,
            };
            external || wasm
        },
        None => false,
    }
}

/// What ends the server, or lets it go on.
#[derive(Debug, PartialEq, Eq)]
pub enum ServeEvent {
    /// The process that started the server is gone.
    ParentExited,
    ShutdownRequested,
    EngineFinished,
    /// A connection's reader has ended.
    ReaderEnded(u64),
    Accepted,
    ListenerFailed(String),
}

/// What follows an event.
#[derive(Debug, PartialEq, Eq)]
pub enum ServeStep {
    /// Stop; where there was an error of the listener, end with it.
    Stop(Option<String>),
    Forget(u64),
    Admit,
}

/// What follows an event.
pub open spec fn step_after(event: ServeEvent) -> ServeStep {
    match event {
        ServeEvent::ParentExited | ServeEvent::ShutdownRequested | ServeEvent::EngineFinished =>
            ServeStep::Stop(None),
        ServeEvent::ReaderEnded(id) => ServeStep::Forget(id),
        ServeEvent::Accepted => ServeStep::Admit,
        ServeEvent::ListenerFailed(error) => ServeStep::Stop(Some(error)),
    }
}

/// What follows an event.
pub fn serve_step(event: ServeEvent) -> (r: ServeStep)
    ensures
        r == step_after(event),
{
    match event {
        ServeEvent::ParentExited | ServeEvent::ShutdownRequested | ServeEvent::EngineFinished =>
            ServeStep::Stop(None),
        ServeEvent::ReaderEnded(id) => ServeStep::Forget(id),
        ServeEvent::Accepted => ServeStep::Admit,
        ServeEvent::ListenerFailed(error) => ServeStep::Stop(Some(error)),
    }
}

/// How the server ends: with the engine's error, and else with the listener's.
pub fn serve_result(engine: Result<(), String>, listener_error: Option<String>) -> (r: Result<
    (),
    String,
>)
    ensures
        r == (match (engine, listener_error) {
            (Err(error), _) => Err::<(), String>(error),
            (Ok(()), Some(error)) => Err::<(), String>(error),
            (Ok(()), None) => Ok::<(), String>(()),
        }),
{
    match engine {
        Err(error) => Err(error),
        Ok(()) => match listener_error {
            Some(error) => Err(error),
            None => Ok(()),
        },
    }
}

/// What the process is started for.
#[derive(Clone, Copy, Debug, PartialEq, Eq, Structural)]
pub enum Launch {
    /// Deploy without any output.
    SilentDeploy,
    /// Fail without any output: the arguments do not go together.
    SilentFailure,
    /// Deploy, and show how it goes.
    DeployUi,
    Deploy,
    Serve,
}

/// What the arguments ask for.
pub open spec fn launch_of(args: Seq<String>) -> Launch {
    if has_argument(args, "--silent"@) {
        if asks_for_silent_deployment(args) {
            Launch::SilentDeploy
        } else {
            Launch::SilentFailure
        }
    } else if has_argument(args, "--deploy-ui"@) {
        Launch::DeployUi
    } else if has_argument(args, "--deploy"@) {
        Launch::Deploy
    } else {
        Launch::Serve
    }
}

/// What the arguments ask for.
pub fn launch(args: &Vec<String>) -> (r: Launch)
    ensures
        r == launch_of(args@),
{
    if contains_argument(args, "--silent") {
        if valid_arguments(args) {
            Launch::SilentDeploy
        } else {
            Launch::SilentFailure
        }
    } else if contains_argument(args, "--deploy-ui") {
        Launch::DeployUi
    } else if contains_argument(args, "--deploy") {
        Launch::Deploy
    } else {
        Launch::Serve
    }
}

/// What comes of finding another server at work: a deployment fails, and a server
/// has nothing to do.
pub fn already_running(launch: Launch, error: String) -> (r: Result<(), String>)
    ensures
        r == (if launch == Launch::Deploy {
            Err::<(), String>(error)
        } else {
            Ok::<(), String>(())
        }),
{
    if launch == Launch::Deploy {
        Err(error)
    } else {
        Ok(())
    }
}

/// While a connection waits for a slot, none of its keys reaches the engine, and no
/// command but the one that sets its mode once.
pub proof fn law_waiting_connections_do_not_reach_the_engine(
    reader: Reader,
    request_id: u64,
    payload: ClientPayloadView,
    ready: bool,
)
    requires
        reader.pending,
    ensures
        ({
            let (next, step) = reader_step(reader, request_id, payload, ready);
            step matches ReaderStepView::Forward(request) ==> match request {
                Request::Key(_) => false,
                Request::Command(command) => !reader.mode_restored && next.mode_restored
                    && command.action == ContextAction::SetAscii,
                _ => true,
            }
        }),
{
}

/// A slot is claimed only by a key or a focus of the context that was opened.
pub proof fn law_only_the_opened_context_claims_a_slot(
    reader: Reader,
    request_id: u64,
    payload: ClientPayloadView,
    ready: bool,
)
    ensures
        reader_step(reader, request_id, payload, ready).1 is Promote ==> reader.pending
            && continues(reader.opened, claim_token(payload)),
{
}

/// Pings and shutdowns are answered whatever the engine does, and never reach it.
pub proof fn law_control_needs_no_engine(
    reader: Reader,
    request_id: u64,
    payload: ClientPayloadView,
    ready: bool,
)
    requires
        payload is Ping || payload is Shutdown || payload is IdentifyService,
    ensures
        reader_step(reader, request_id, payload, ready).0 == reader,
        reader_step(reader, request_id, payload, ready).1 is Reply || reader_step(
            reader,
            request_id,
            payload,
            ready,
        ).1 is ReplyAndStop,
{
}

} // verus!
