//! What becomes of every message of a client, before and after it has a slot, and what the
//! process is started for.
#[allow(unused_imports)]
use super::{
    after_claim, control_answer, following_id, launch_of, reader_step, step_after,
    takes_connection, ClientPayloadView, ControlReplyView, Launch, Reader, ReaderStepView,
    ServeEvent, ServeStep,
};
#[allow(unused_imports)]
use crate::admission::GateView;
#[allow(unused_imports)]
use crate::engine::Request;
#[allow(unused_imports)]
use crate::message::{
    ContextAction, ContextCommand, ContextToken, FailureCode, KeyEvent, LayoutUpdate,
};
#[allow(unused_imports)]
use crate::silent_deploy::{asks_for_silent_deployment, has_argument};
use vstd::prelude::*;

verus! {

/// With a slot, every key, command and opening reaches the engine as it was sent, and
/// nothing else does.
pub proof fn law_requests_reach_the_engine_unchanged(
    reader: Reader,
    request_id: u64,
    key: KeyEvent,
    command: ContextCommand,
    token: Option<ContextToken>,
    ready: bool,
)
    requires
        !reader.pending,
    ensures
        reader_step(reader, request_id, ClientPayloadView::Key(key), ready) == (
            reader,
            ReaderStepView::Forward(Request::Key(key)),
        ),
        reader_step(reader, request_id, ClientPayloadView::Command(command), ready) == (
            reader,
            ReaderStepView::Forward(Request::Command(command)),
        ),
        reader_step(reader, request_id, ClientPayloadView::OpenInput(token), ready) == (
            reader,
            ReaderStepView::Forward(Request::OpenInput(token)),
        ),
        reader_step(reader, request_id, ClientPayloadView::LogEvent, ready) == (
            reader,
            ReaderStepView::Log,
        ),
        reader_step(reader, request_id, ClientPayloadView::Other, ready) == (
            reader,
            ReaderStepView::Ignore,
        ),
{
}

/// A layout is stored as it was sent, whether or not its connection has a slot.
pub proof fn law_layouts_are_stored_unchanged(
    reader: Reader,
    request_id: u64,
    update: LayoutUpdate,
    ready: bool,
)
    ensures
        reader_step(reader, request_id, ClientPayloadView::Layout(update), ready) == (
            reader,
            ReaderStepView::StoreLayout(update),
        ),
{
}

/// A ping is answered with its own text once the engine is ready, and refused before that;
/// who the service is, and whether it is ready, is always told; a shutdown is accepted, and
/// ends the server. Each answer carries the number of its request.
pub proof fn law_control_messages_are_answered(
    reader: Reader,
    request_id: u64,
    text: Seq<char>,
    ready: bool,
)
    ensures
        reader_step(reader, request_id, ClientPayloadView::Ping(text), ready).1 matches
            ReaderStepView::Reply { request_id: about, reply } && about == request_id && (if ready {
            reply == ControlReplyView::Pong(text)
        } else {
            reply matches ControlReplyView::Failure { code, .. } && code == FailureCode::NotReady
        }),
        reader_step(reader, request_id, ClientPayloadView::IdentifyService, ready).1 == (
        ReaderStepView::Reply { request_id, reply: ControlReplyView::Identity { ready } }),
        reader_step(reader, request_id, ClientPayloadView::Shutdown, ready).1 matches
            ReaderStepView::ReplyAndStop { request_id: about, reply } && about == request_id && (
        reply matches ControlReplyView::Shutdown { accepted, .. } && accepted),
{
}

/// While it waits for a slot, a connection may open one context; a second opening closes
/// it.
pub proof fn law_waiting_connection_opens_one_context(
    reader: Reader,
    request_id: u64,
    token: ContextToken,
    second: Option<ContextToken>,
    ready: bool,
)
    requires
        reader.pending,
        reader.opened is None,
    ensures
        ({
            let (next, step) = reader_step(
                reader,
                request_id,
                ClientPayloadView::OpenInput(Some(token)),
                ready,
            );
            &&& step == ReaderStepView::Forward(Request::OpenInput(Some(token)))
            &&& next.opened == Some(token)
            &&& next.pending
            &&& reader_step(next, request_id, ClientPayloadView::OpenInput(second), ready).1
                == ReaderStepView::Close
        }),
{
}

/// The first key of the context that a waiting connection has opened, and a focus of it,
/// claim a slot with the request itself; a key or a command of any other context closes the
/// connection.
pub proof fn law_use_of_the_opened_context_claims_a_slot(
    reader: Reader,
    request_id: u64,
    opened: ContextToken,
    key: KeyEvent,
    command: ContextCommand,
    ready: bool,
)
    requires
        reader.pending,
        reader.opened == Some(opened),
        command.action == ContextAction::Focus,
        command.token == key.token,
    ensures
        ({
            let fits = key.token matches Some(t) && t.context_id == opened.context_id
                && t.connection_epoch == opened.connection_epoch && t.generation
                >= opened.generation;
            let by_key = reader_step(reader, request_id, ClientPayloadView::Key(key), ready).1;
            let by_focus = reader_step(
                reader,
                request_id,
                ClientPayloadView::Command(command),
                ready,
            ).1;
            &&& fits ==> by_key == ReaderStepView::Promote(Request::Key(key)) && by_focus
                == ReaderStepView::Promote(Request::Command(command))
            &&& !fits ==> by_key == ReaderStepView::Close && by_focus == ReaderStepView::Close
        }),
{
}

/// The mode of the context that a waiting connection has opened may be set once; every other
/// command but a focus closes the connection.
pub proof fn law_waiting_connection_sets_its_mode_once(
    reader: Reader,
    request_id: u64,
    command: ContextCommand,
    ready: bool,
)
    requires
        reader.pending,
        command.action != ContextAction::Focus,
    ensures
        ({
            let (next, step) = reader_step(
                reader,
                request_id,
                ClientPayloadView::Command(command),
                ready,
            );
            let sets = command.action == ContextAction::SetAscii && command.ascii_mode is Some
                && reader.opened is Some && command.token == reader.opened;
            if sets && !reader.mode_restored {
                step == ReaderStepView::Forward(Request::Command(command)) && next.mode_restored
            } else {
                step == ReaderStepView::Close && next == reader
            }
        }),
{
}

/// A new connection is taken exactly while fewer than a hundred and thirty-two are there and
/// fewer than four wait; the numbers of connections are never zero, and no two that follow
/// each other are the same.
pub proof fn law_connections_are_limited(count: nat, gate: GateView, id: u64)
    ensures
        takes_connection(count, gate) <==> count < 132 && gate.pending < 4,
        following_id(id) != 0,
        following_id(id) != id,
        id < u64::MAX ==> following_id(id) == id + 1,
{
}

/// What the process is started for: nothing but the deployment without output is done where
/// silence is asked for; else a deployment with a window comes before one without, and
/// without any of these words the process serves.
pub proof fn law_arguments_decide_the_launch(args: Seq<String>)
    ensures
        has_argument(args, "--silent"@) <==> launch_of(args) == Launch::SilentDeploy || launch_of(
            args,
        ) == Launch::SilentFailure,
        !has_argument(args, "--silent"@) && has_argument(args, "--deploy-ui"@) ==> launch_of(args)
            == Launch::DeployUi,
        !has_argument(args, "--silent"@) && !has_argument(args, "--deploy-ui"@) ==> (launch_of(args)
            == Launch::Deploy <==> has_argument(args, "--deploy"@)),
        !has_argument(args, "--silent"@) && !has_argument(args, "--deploy-ui"@) && !has_argument(
            args,
            "--deploy"@,
        ) ==> launch_of(args) == Launch::Serve,
        launch_of(args) == Launch::SilentDeploy ==> asks_for_silent_deployment(args),
{
}

/// A connection that gets a slot waits no more, and its message goes on to the engine; one
/// that gets none is closed, and nothing of it goes on.
pub proof fn law_claim_is_answered(reader: Reader, request: Request)
    ensures
        after_claim(reader, true, request).1 == ReaderStepView::Forward(request),
        !after_claim(reader, true, request).0.pending,
        after_claim(reader, true, request).0.opened == reader.opened,
        after_claim(reader, false, request).1 == ReaderStepView::Close,
        after_claim(reader, false, request).0 == reader,
{
}

/// The server goes on for connections that come and go, and stops for everything else; only
/// a failure to take connections is reported.
pub proof fn law_server_stops_for_a_reason(event: ServeEvent)
    ensures
        event is Accepted <==> step_after(event) is Admit,
        event is ReaderEnded <==> step_after(event) is Forget,
        event is ReaderEnded ==> step_after(event)->Forget_0 == event->ReaderEnded_0,
        step_after(event) is Stop <==> event is ParentExited || event is ShutdownRequested
            || event is EngineFinished || event is ListenerFailed,
        step_after(event) matches ServeStep::Stop(Some(error)) ==> event
            == ServeEvent::ListenerFailed(error),
        event is ListenerFailed ==> step_after(event) == ServeStep::Stop(
            Some(event->ListenerFailed_0),
        ),
{
}

} // verus!
