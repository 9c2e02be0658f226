//! What holds of the engine after every history of requests, answers and lost
//! connections.
#[allow(unused_imports)]
use super::idle::{after_idle, lemma_wf_swept, placed, restored, swept};
#[allow(unused_imports)]
use super::{
    active_after, after_call, after_click_call, after_command_call, after_key_call, after_open,
    begin, begin_command, begin_key, can_open, client_wf, contexts_of, destroyed, engine_wf,
    focused_after, has_id, in_context, in_order, lemma_command_keeps, lemma_key_keeps,
    lemma_session_place, lemma_wf_map, lemma_wf_push, lemma_wf_remove, lemma_wf_update,
    new_client, request_token, same_context, shared_mode_after, without_connection, CallKind,
    EngineView, PendingCallView, PendingOpen, Request, StepView, MAX_CONTEXTS,
};
#[allow(unused_imports)]
use crate::client_session::{
    after_click, after_command, after_key, after_layout, refused, ClientSessionView, EffectView,
    MODE_INDICATOR_LAYOUT_TIMEOUT,
};
#[allow(unused_imports)]
use crate::list::{first_index, lemma_first_index};
#[allow(unused_imports)]
use crate::message::{
    token_valid, ContextAction, ContextCommand, ContextToken, FailureCode, KeyEvent,
    KeyEventResponseView, LayoutUpdate,
};
#[allow(unused_imports)]
use crate::session_route::SessionRoute;
use vstd::prelude::*;

verus! {

/// One thing that happens to the engine.
pub ghost enum EngineStep {
    Message { connection_id: u64, alive: bool, request_id: u64, request: Request },
    Opened {
        opening: PendingOpen,
        created: bool,
        app_ascii: Option<bool>,
        app_inline_preedit: Option<bool>,
    },
    Finished {
        call: PendingCallView,
        response: KeyEventResponseView,
        supports_preedit: bool,
        now: u64,
    },
    ConnectionClosed(u64),
    Idle { layout: Option<LayoutUpdate>, supports_preedit: bool, now: u64 },
}

/// Whether a step can be taken: a context that was asked for can still be opened, a
/// session that was asked is still there, and no number has come to its end.
pub open spec fn step_allowed(e: EngineView, step: EngineStep) -> bool {
    match step {
        EngineStep::Message { .. } => e.next_session < u64::MAX,
        EngineStep::Opened { opening, .. } => can_open(e, opening),
        EngineStep::Finished { call, now, .. } => {
            &&& first_index(e.clients, has_id(call.session_id)) is Some
            &&& e.next_mode_indicator < u64::MAX
            &&& now <= u64::MAX - MODE_INDICATOR_LAYOUT_TIMEOUT
        },
        EngineStep::ConnectionClosed(_) => true,
        EngineStep::Idle { .. } => true,
    }
}

/// The engine after a step.
pub open spec fn after_step(e: EngineView, step: EngineStep) -> EngineView {
    match step {
        EngineStep::Message { connection_id, alive, request_id, request } => begin(
            e,
            connection_id,
            alive,
            request_id,
            request,
        ).0,
        EngineStep::Opened { opening, created, app_ascii, app_inline_preedit } => after_open(
            e,
            opening,
            created,
            app_ascii,
            app_inline_preedit,
        ).0,
        EngineStep::Finished { call, response, supports_preedit, now } => after_call(
            e,
            first_index(e.clients, has_id(call.session_id))->0,
            call,
            response,
            supports_preedit,
            now,
        ).0,
        EngineStep::ConnectionClosed(connection_id) => EngineView {
            clients: without_connection(e.clients, connection_id),
            ..e
        },
        EngineStep::Idle { layout, supports_preedit, now } => after_idle(
            e,
            layout,
            supports_preedit,
            now,
        ).0,
    }
}

/// The engine after a history.
pub open spec fn after_history(e: EngineView, steps: Seq<EngineStep>) -> EngineView
    decreases steps.len(),
{
    if steps.len() == 0 {
        e
    } else {
        after_step(after_history(e, steps.drop_last()), steps.last())
    }
}

/// Whether every step of a history can be taken when it is its turn.
pub open spec fn history_allowed(e: EngineView, steps: Seq<EngineStep>) -> bool
    decreases steps.len(),
{
    steps.len() == 0 || (history_allowed(e, steps.drop_last()) && step_allowed(
        after_history(e, steps.drop_last()),
        steps.last(),
    ))
}

/// Whether an engine is as it was made.
pub open spec fn is_new(e: EngineView) -> bool {
    &&& e.clients == Seq::<ClientSessionView>::empty()
    &&& e.active_client is None
    &&& e.next_session == 1
    &&& e.next_mode_indicator == 1
}

/// A key for an open context leaves the engine in order.
proof fn lemma_key_begins(e: EngineView, i: int, connection_id: u64, request_id: u64, key: KeyEvent)
    requires
        engine_wf(e),
        0 <= i < e.clients.len(),
        token_valid(key.token),
        e.clients[i].route.token->0.context_id == key.token->0.context_id,
    ensures
        engine_wf(begin_key(e, i, connection_id, request_id, key).0),
{
    let c = e.clients[i];
    let client = ClientSessionView {
        route: SessionRoute { token: key.token, focused: true },
        ..c
    };
    assert(client_wf(c, e.next_session, e.next_mode_indicator));
    lemma_wf_update(e, i, client, Some(c.id), e.global_ascii, e.next_mode_indicator);
}

/// A command for an open context leaves the engine in order.
proof fn lemma_command_begins(
    e: EngineView,
    i: int,
    connection_id: u64,
    request_id: u64,
    command: ContextCommand,
)
    requires
        engine_wf(e),
        0 <= i < e.clients.len(),
        token_valid(command.token),
        e.clients[i].route.token->0.context_id == command.token->0.context_id,
    ensures
        engine_wf(begin_command(e, i, connection_id, request_id, command).0),
{
    let c = e.clients[i];
    let client = ClientSessionView {
        route: SessionRoute {
            token: command.token,
            focused: focused_after(c.route.focused, command.action),
        },
        ..c
    };
    let active = active_after(e.active_client, c.id, command.action);
    assert(client_wf(c, e.next_session, e.next_mode_indicator));
    lemma_wf_update(e, i, client, active, e.global_ascii, e.next_mode_indicator);
}

/// A message leaves the engine in order.
proof fn lemma_message_keeps(
    e: EngineView,
    connection_id: u64,
    alive: bool,
    request_id: u64,
    request: Request,
)
    requires
        engine_wf(e),
        e.next_session < u64::MAX,
    ensures
        engine_wf(begin(e, connection_id, alive, request_id, request).0),
{
    let token = request_token(request);
    if alive && token_valid(token) {
        let context_id = token->0.context_id;
        lemma_first_index(e.clients, in_context(connection_id, context_id));
        match first_index(e.clients, in_context(connection_id, context_id)) {
            None => {
                let next = EngineView { next_session: (e.next_session + 1) as u64, ..e };
                assert forall|k: int| 0 <= k < next.clients.len() implies client_wf(
                    #[trigger] next.clients[k],
                    next.next_session,
                    next.next_mode_indicator,
                ) by {
                    assert(client_wf(e.clients[k], e.next_session, e.next_mode_indicator));
                }
                assert(engine_wf(next));
            },
            Some(i) => match request {
                Request::Key(key) => {
                    lemma_key_begins(e, i, connection_id, request_id, key);
                },
                Request::Command(command) => {
                    if command.action == ContextAction::Destroy {
                        lemma_wf_remove(e, i);
                    } else {
                        lemma_command_begins(e, i, connection_id, request_id, command);
                    }
                },
                _ => {},
            },
        }
    }
}

/// The answer of a session leaves the engine in order.
proof fn lemma_answer_keeps(
    e: EngineView,
    i: int,
    pending: PendingCallView,
    response: KeyEventResponseView,
    supports_preedit: bool,
    now: u64,
)
    requires
        engine_wf(e),
        0 <= i < e.clients.len(),
        e.next_mode_indicator < u64::MAX,
    ensures
        engine_wf(after_call(e, i, pending, response, supports_preedit, now).0),
{
    let c = e.clients[i];
    let policy = e.input_mode_indicator;
    let next = e.next_mode_indicator;
    assert(client_wf(c, e.next_session, next));
    match pending.kind {
        CallKind::Key { .. } => {
            lemma_key_keeps(c, response, supports_preedit, policy, e.next_session, next, now);
            let outcome = after_key(c, response, supports_preedit, policy, next, now);
            lemma_wf_update(
                e,
                i,
                outcome.client,
                e.active_client,
                shared_mode_after(e.global_ascii, response.ascii_mode),
                outcome.next_indicator,
            );
        },
        CallKind::Command { action, .. } => {
            lemma_command_keeps(
                c,
                action,
                response,
                supports_preedit,
                policy,
                e.next_session,
                next,
                now,
            );
            let outcome = after_command(c, action, response, supports_preedit, policy, next, now);
            let mode = if action == ContextAction::ToggleAscii {
                shared_mode_after(e.global_ascii, response.ascii_mode)
            } else {
                e.global_ascii
            };
            lemma_wf_update(
                e,
                i,
                outcome.client,
                e.active_client,
                mode,
                outcome.next_indicator,
            );
        },
        CallKind::Click => {
            let client = after_click(c, response, supports_preedit).0;
            lemma_wf_update(e, i, client, e.active_client, e.global_ascii, next);
        },
    }
}

/// What happens between requests leaves the engine in order.
proof fn lemma_idle_keeps(
    e: EngineView,
    layout: Option<LayoutUpdate>,
    supports_preedit: bool,
    now: u64,
)
    requires
        engine_wf(e),
    ensures
        engine_wf(after_idle(e, layout, supports_preedit, now).0),
{
    let inline = restored(e, supports_preedit).0;
    if !supports_preedit {
        lemma_wf_map(e, inline.clients);
    }
    let moved = placed(inline, layout, now).0;
    if let (Some(id), Some(update)) = (inline.active_client, layout) {
        lemma_first_index(inline.clients, has_id(id));
        if let Some(i) = first_index(inline.clients, has_id(id)) {
            let c = inline.clients[i];
            assert(client_wf(c, inline.next_session, inline.next_mode_indicator));
            lemma_wf_update(
                inline,
                i,
                after_layout(c, update, now).0,
                inline.active_client,
                inline.global_ascii,
                inline.next_mode_indicator,
            );
        }
    }
    assert(engine_wf(moved));
    lemma_wf_swept(moved);
}

/// Every step that can be taken leaves the engine in order.
pub proof fn law_every_step_keeps_order(e: EngineView, step: EngineStep)
    requires
        engine_wf(e),
        step_allowed(e, step),
    ensures
        engine_wf(after_step(e, step)),
{
    match step {
        EngineStep::Message { connection_id, alive, request_id, request } => {
            lemma_message_keeps(e, connection_id, alive, request_id, request);
        },
        EngineStep::Opened { opening, created, app_inline_preedit, .. } => {
            if created {
                let inline = app_inline_preedit matches Some(inline) ==> inline;
                lemma_wf_push(e, new_client(opening, inline));
            }
        },
        EngineStep::Finished { call, response, supports_preedit, now } => {
            lemma_first_index(e.clients, has_id(call.session_id));
            let i = first_index(e.clients, has_id(call.session_id))->0;
            lemma_answer_keeps(e, i, call, response, supports_preedit, now);
        },
        EngineStep::ConnectionClosed(connection_id) => {
            lemma_wf_map(e, without_connection(e.clients, connection_id));
        },
        EngineStep::Idle { layout, supports_preedit, now } => {
            lemma_idle_keeps(e, layout, supports_preedit, now);
        },
    }
}

/// Every history leaves the engine in order.
pub proof fn law_every_history_keeps_order(e: EngineView, steps: Seq<EngineStep>)
    requires
        engine_wf(e),
        history_allowed(e, steps),
    ensures
        engine_wf(after_history(e, steps)),
    decreases steps.len(),
{
    if steps.len() > 0 {
        law_every_history_keeps_order(e, steps.drop_last());
        law_every_step_keeps_order(after_history(e, steps.drop_last()), steps.last());
    }
}

/// Whatever clients ask for, and in whatever order, no connection ever has more
/// sessions than it may, no context has two, and no two have one number.
pub proof fn law_sessions_stay_within_limits(
    e: EngineView,
    steps: Seq<EngineStep>,
    connection_id: u64,
)
    requires
        is_new(e),
        history_allowed(e, steps),
    ensures
        contexts_of(after_history(e, steps).clients, connection_id) <= 32,
        forall|i: int, j: int|
            0 <= i < j < after_history(e, steps).clients.len() ==> ({
                let (a, b) = (
                    #[trigger] after_history(e, steps).clients[i],
                    #[trigger] after_history(e, steps).clients[j],
                );
                !same_context(a, b) && a.id < b.id
            }),
{
    law_every_history_keeps_order(e, steps);
    let clients = after_history(e, steps).clients;
    assert(contexts_of(clients, connection_id) <= MAX_CONTEXTS);
    assert forall|i: int, j: int| 0 <= i < j < clients.len() implies !same_context(
        #[trigger] clients[i],
        #[trigger] clients[j],
    ) && clients[i].id < clients[j].id by {
        assert(in_order(clients[i], clients[j]));
    }
}

/// A connection that has as many contexts as it may is refused another, and nothing
/// changes.
pub proof fn law_one_context_too_many_is_refused(
    e: EngineView,
    connection_id: u64,
    request_id: u64,
    token: ContextToken,
)
    requires
        token_valid(Some(token)),
        contexts_of(e.clients, connection_id) >= 32,
        first_index(e.clients, in_context(connection_id, token.context_id)) is None,
    ensures
        begin(e, connection_id, true, request_id, Request::OpenInput(Some(token))) == (
            e,
            StepView::Done(
                refused(
                    connection_id,
                    request_id,
                    FailureCode::InvalidArgument,
                    "too many input contexts"@,
                ),
            ),
        ),
{
}

/// A context that is opened again with the token that it has is confirmed, and no
/// session is made for it.
pub proof fn law_opening_again_only_confirms(
    e: EngineView,
    connection_id: u64,
    request_id: u64,
    token: ContextToken,
    i: int,
)
    requires
        token_valid(Some(token)),
        first_index(e.clients, in_context(connection_id, token.context_id)) == Some(i),
        e.clients[i].route.token == Some(token),
    ensures
        begin(e, connection_id, true, request_id, Request::OpenInput(Some(token))) == (
            e,
            StepView::Done(
                seq![
                    EffectView::InputOpened { connection_id, request_id, token: Some(token) },
                ],
            ),
        ),
{
}

/// Between a request and the answer of librime nothing has to be looked at again: a
/// context that a message asks to open can be opened, and a session that it asks is
/// there.
pub proof fn law_what_a_message_waits_for_can_be_taken(
    e: EngineView,
    connection_id: u64,
    request_id: u64,
    request: Request,
)
    requires
        engine_wf(e),
        e.next_session < u64::MAX,
    ensures
        ({
            let (next, step) = begin(e, connection_id, true, request_id, request);
            &&& step matches StepView::Open(pending) ==> can_open(next, pending)
            &&& step matches StepView::Call(pending) ==> first_index(
                next.clients,
                has_id(pending.session_id),
            ) is Some
        }),
{
    let token = request_token(request);
    let (next, step) = begin(e, connection_id, true, request_id, request);
    lemma_message_keeps(e, connection_id, true, request_id, request);
    if token_valid(token) {
        let wanted = in_context(connection_id, token->0.context_id);
        lemma_first_index(e.clients, wanted);
        match first_index(e.clients, wanted) {
            None => {
                assert forall|k: int| 0 <= k < e.clients.len() implies (
                #[trigger] e.clients[k]).id < e.next_session by {
                    assert(client_wf(e.clients[k], e.next_session, e.next_mode_indicator));
                }
            },
            Some(i) => {
                if step is Call {
                    assert(next.clients[i].id == e.clients[i].id);
                    lemma_session_place(next, i);
                }
            },
        }
    }
}

} // verus!
