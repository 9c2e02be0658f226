//! What becomes of every request: which session it reaches, what librime is asked, who is
//! answered, and what stays as it was.
#[allow(unused_imports)]
use super::idle::{after_idle, connections_of, dropped, inline_effects, lost_active, placed, restored, swept};
#[allow(unused_imports)]
use super::{
    after_call, after_click_call, after_command_call, after_key_call, after_open, begin, can_open,
    click_accepted, client_wf, contexts_of, engine_wf, fresh_engine, has_id, in_context, in_order, is_alive, same_context,
    lemma_session_place, new_client, wanted_layout, without_connection, CallKind, EngineView,
    PendingCallView, PendingOpen, Request, RimeCall, StepView,
};
#[allow(unused_imports)]
use crate::client_session::laws::{same_text_answer, shown_after_key};
#[allow(unused_imports)]
use crate::client_session::{
    after_click, after_command, after_key, ClientSessionView, EffectView, InputModeIndicatorPolicy,
};
#[allow(unused_imports)]
use crate::list::{first_index, lemma_filter_members, lemma_first_index, lemma_first_index_is};
#[allow(unused_imports)]
use crate::message::{
    token_valid, ContextAction, ContextCommand, ContextToken, FailureCode, KeyEvent,
    KeyEventResponseView, LayoutUpdate, RendererEvent,
};
#[allow(unused_imports)]
use crate::renderer_bridge::laws::{shows_page, shows_text};
use vstd::prelude::*;

verus! {

/// Whether a session is that of a context of a connection, and a token of the same life of
/// the connection, no older than the session's, names it.
pub open spec fn addresses(c: ClientSessionView, connection_id: u64, token: Option<ContextToken>) ->
    bool {
    &&& c.connection_id == connection_id
    &&& token matches Some(t) && t.context_id != 0 && t.connection_epoch != 0 && t.generation != 0
    &&& c.route.token matches Some(own) && own.context_id == token->0.context_id
        && own.connection_epoch == token->0.connection_epoch && own.generation
        <= token->0.generation
}

/// A context has one session, and it is found by its context.
proof fn lemma_context_place(e: EngineView, i: int, connection_id: u64, context_id: u64)
    requires
        engine_wf(e),
        0 <= i < e.clients.len(),
        e.clients[i].connection_id == connection_id,
        e.clients[i].route.token is Some,
        e.clients[i].route.token->0.context_id == context_id,
    ensures
        first_index(e.clients, in_context(connection_id, context_id)) == Some(i),
{
    let p = in_context(connection_id, context_id);
    assert forall|j: int| 0 <= j < i implies !p(#[trigger] e.clients[j]) by {
        assert(in_order(e.clients[j], e.clients[i]));
    }
    lemma_first_index_is(e.clients, p, Some(i));
}

/// Whether two states of the engine have the same sessions but for one.
pub open spec fn others_stay(before: EngineView, after: EngineView, i: int) -> bool {
    &&& after.clients.len() == before.clients.len()
    &&& forall|j: int|
        0 <= j < before.clients.len() && j != i ==> #[trigger] after.clients[j]
            == before.clients[j]
    &&& after.next_session == before.next_session
    &&& after.allow_rime_in_secure_fields == before.allow_rime_in_secure_fields
    &&& after.input_mode_indicator == before.input_mode_indicator
}

/// A key of an open context is handed to librime for the session of that context, after the
/// mode that all sessions share; it takes the focus, and becomes the session that is shown.
pub proof fn law_key_reaches_the_session_of_its_context(
    e: EngineView,
    i: int,
    connection_id: u64,
    request_id: u64,
    key: KeyEvent,
)
    requires
        engine_wf(e),
        0 <= i < e.clients.len(),
        addresses(e.clients[i], connection_id, key.token),
    ensures
        ({
            let (next, step) = begin(e, connection_id, true, request_id, Request::Key(key));
            let id = e.clients[i].id;
            &&& step matches StepView::Call(pending) && {
                &&& pending.session_id == id
                &&& pending.connection_id == connection_id
                &&& pending.request_id == request_id
                &&& pending.calls.last() == RimeCall::ProcessKey(key)
                &&& e.global_ascii matches Some(mode) ==> pending.calls.len() == 2
                    && pending.calls[0] == RimeCall::SetAsciiMode(mode)
                &&& e.global_ascii is None ==> pending.calls.len() == 1
                &&& pending.kind == (CallKind::Key { focus_changed: e.active_client != Some(id) })
            }
            &&& next.active_client == Some(id)
            &&& next.clients[i].route.focused && next.clients[i].route.token == key.token
            &&& next.clients[i].last_response == e.clients[i].last_response
            &&& next.global_ascii == e.global_ascii
            &&& others_stay(e, next, i)
        }),
{
    lemma_context_place(e, i, connection_id, key.token->0.context_id);
}

/// A command of an open context is handed to librime for the session of that context. A
/// mode that is restored is the one that the command names; a command that names none is
/// refused.
pub proof fn law_command_reaches_the_session_of_its_context(
    e: EngineView,
    i: int,
    connection_id: u64,
    request_id: u64,
    command: ContextCommand,
)
    requires
        engine_wf(e),
        0 <= i < e.clients.len(),
        addresses(e.clients[i], connection_id, command.token),
        command.action != ContextAction::Destroy,
        command.action != ContextAction::Unspecified,
    ensures
        ({
            let (next, step) = begin(e, connection_id, true, request_id, Request::Command(command));
            let id = e.clients[i].id;
            let lacks = command.action == ContextAction::SetAscii && command.ascii_mode is None;
            let shares = command.action == ContextAction::Focus || command.action
                == ContextAction::ToggleAscii;
            &&& lacks ==> (step matches StepView::Done(effects) && effects.len() == 1 && (
            effects[0] matches EffectView::Failure { connection_id: to, request_id: about, code, .. }
                && to == connection_id && about == request_id && code
                == FailureCode::InvalidArgument))
            &&& !lacks ==> (step matches StepView::Call(pending) && {
                &&& pending.session_id == id
                &&& pending.connection_id == connection_id
                &&& pending.request_id == request_id
                &&& command.action == ContextAction::SetAscii ==> pending.calls.last()
                    == RimeCall::SetAsciiModeResponse(command.ascii_mode->0)
                &&& command.action != ContextAction::SetAscii ==> pending.calls.last()
                    == RimeCall::ContextAction(command.action)
                &&& pending.calls.len() == (if shares && e.global_ascii is Some {
                    2int
                } else {
                    1int
                })
                &&& shares && e.global_ascii is Some ==> pending.calls[0]
                    == RimeCall::SetAsciiMode(e.global_ascii->0)
                &&& pending.kind == (CallKind::Command {
                    action: command.action,
                    was_active: e.active_client == Some(id),
                })
            })
            &&& next.clients[i].route.token == command.token
            &&& next.clients[i].last_response == e.clients[i].last_response
            &&& others_stay(e, next, i)
        }),
{
    lemma_context_place(e, i, connection_id, command.token->0.context_id);
}

/// A focus gives a session the focus and shows it; a blur and the end of its host take the
/// focus, and the screen where it had it; no other command moves either.
pub proof fn law_focus_follows_the_commands(
    e: EngineView,
    i: int,
    connection_id: u64,
    request_id: u64,
    command: ContextCommand,
)
    requires
        engine_wf(e),
        0 <= i < e.clients.len(),
        addresses(e.clients[i], connection_id, command.token),
        command.action != ContextAction::Destroy,
        command.action != ContextAction::Unspecified,
    ensures
        ({
            let next = begin(e, connection_id, true, request_id, Request::Command(command)).0;
            let id = e.clients[i].id;
            let leaves = command.action == ContextAction::Blur || command.action
                == ContextAction::HostTerminated;
            &&& command.action == ContextAction::Focus ==> next.clients[i].route.focused
                && next.active_client == Some(id)
            &&& leaves ==> !next.clients[i].route.focused && next.active_client == (
            if e.active_client == Some(id) {
                None
            } else {
                e.active_client
            })
            &&& command.action != ContextAction::Focus && !leaves ==> next.clients[i].route.focused
                == e.clients[i].route.focused && next.active_client == e.active_client
        }),
{
    lemma_context_place(e, i, connection_id, command.token->0.context_id);
}

/// A context that is destroyed is answered, its session ends in librime and in the engine,
/// and its layouts are forgotten; where it was shown it leaves the screen. No other session
/// ends.
pub proof fn law_destroying_ends_one_session(
    e: EngineView,
    i: int,
    connection_id: u64,
    request_id: u64,
    command: ContextCommand,
)
    requires
        engine_wf(e),
        0 <= i < e.clients.len(),
        addresses(e.clients[i], connection_id, command.token),
        command.action == ContextAction::Destroy,
    ensures
        ({
            let (next, step) = begin(e, connection_id, true, request_id, Request::Command(command));
            let id = e.clients[i].id;
            let shown = e.active_client == Some(id);
            &&& next.clients == e.clients.remove(i)
            &&& next.active_client == (if shown {
                None
            } else {
                e.active_client
            })
            &&& step matches StepView::Done(effects) && {
                &&& effects.len() == (if shown {
                    5int
                } else {
                    4int
                })
                &&& effects[0] matches EffectView::Reply { connection_id: to, request_id: about, response }
                    && to == connection_id && about == request_id && response.token
                    == command.token && response.commit_text.len() == 0 && !response.composing
                    && response.revision != e.clients[i].revision
                &&& shown ==> (effects[1] matches EffectView::Publish(frame) && !frame.visible
                    && frame.items.len() == 0 && frame.session_id == id)
                &&& effects[effects.len() - 3] == EffectView::DropSession(id)
                &&& effects[effects.len() - 2] == (EffectView::ForgetLayout {
                    connection_id,
                    context_id: command.token->0.context_id,
                })
                &&& effects[effects.len() - 1] is SetInputState
            }
        }),
{
    lemma_context_place(e, i, connection_id, command.token->0.context_id);
}

/// A connection is told that it is focused, or that it composes, exactly where one of its
/// sessions is, or does.
pub proof fn law_connections_learn_how_busy_they_are(
    clients: Seq<ClientSessionView>,
    connection_id: u64,
    i: int,
)
    requires
        0 <= i < clients.len(),
        clients[i].connection_id == connection_id,
    ensures
        super::input_state(clients, connection_id) matches EffectView::SetInputState {
            connection_id: to,
            focused,
            composing,
        } && to == connection_id && (clients[i].route.focused ==> focused) && (
        clients[i].last_response.composing ==> composing),
{
}

/// A connection none of whose sessions is focused, or composes, is told so.
pub proof fn law_idle_connections_learn_that_they_are(
    clients: Seq<ClientSessionView>,
    connection_id: u64,
)
    requires
        forall|i: int|
            0 <= i < clients.len() && (#[trigger] clients[i]).connection_id == connection_id
                ==> !clients[i].route.focused && !clients[i].last_response.composing,
    ensures
        super::input_state(clients, connection_id) == (EffectView::SetInputState {
            connection_id,
            focused: false,
            composing: false,
        }),
{
}

/// A new context of a connection that may have another gets a session of its own, under the
/// next number; nothing else changes before librime has answered.
pub proof fn law_new_context_is_opened(
    e: EngineView,
    connection_id: u64,
    request_id: u64,
    token: ContextToken,
)
    requires
        engine_wf(e),
        e.next_session < u64::MAX,
        token_valid(Some(token)),
        super::contexts_of(e.clients, connection_id) < 32,
        forall|i: int|
            0 <= i < e.clients.len() && (#[trigger] e.clients[i]).connection_id == connection_id
                ==> e.clients[i].route.token->0.context_id != token.context_id,
    ensures
        ({
            let (next, step) = begin(
                e,
                connection_id,
                true,
                request_id,
                Request::OpenInput(Some(token)),
            );
            &&& step matches StepView::Open(pending) && pending.session_id == e.next_session
                && pending.connection_id == connection_id && pending.request_id == request_id
                && pending.token == token
            &&& next.next_session == e.next_session + 1
            &&& next.clients == e.clients
            &&& next.active_client == e.active_client
            &&& next.global_ascii == e.global_ascii
        }),
{
    let p = in_context(connection_id, token.context_id);
    assert forall|i: int| 0 <= i < e.clients.len() implies !p(#[trigger] e.clients[i]) by {
        assert(client_wf(e.clients[i], e.next_session, e.next_mode_indicator));
    }
    lemma_first_index_is(e.clients, p, None);
}

/// A session that librime has made joins the others, bound to the context that asked for
/// it, not focused and with nothing composed; it gets the mode that all share, else that of
/// its application, and its host is told. One that librime has not made is refused, and
/// nothing changes.
pub proof fn law_made_session_joins_the_others(
    e: EngineView,
    pending: PendingOpen,
    app_ascii: Option<bool>,
    app_inline_preedit: Option<bool>,
)
    ensures
        ({
            let (next, effects) = after_open(e, pending, true, app_ascii, app_inline_preedit);
            let mode = if e.global_ascii is Some {
                e.global_ascii
            } else {
                app_ascii
            };
            &&& next.clients.len() == e.clients.len() + 1
            &&& next.clients.drop_last() == e.clients
            &&& next.clients.last().id == pending.session_id
            &&& next.clients.last().connection_id == pending.connection_id
            &&& next.clients.last().route.token == Some(pending.token)
            &&& !next.clients.last().route.focused
            &&& next.clients.last().alive
            &&& !next.clients.last().last_response.composing
            &&& next.clients.last().last_response.candidates.len() == 0
            &&& next.clients.last().waiting_for_layout is None
            &&& !next.clients.last().anchor.valid
            &&& next.clients.last().inline_preedit == (app_inline_preedit != Some(false))
            &&& next.active_client == e.active_client
            &&& effects.last() == (EffectView::InputOpened {
                connection_id: pending.connection_id,
                request_id: pending.request_id,
                token: Some(pending.token),
            })
            &&& mode matches Some(ascii_mode) ==> effects.len() == 2 && effects[0]
                == (EffectView::SetAsciiMode { session_id: pending.session_id, ascii_mode })
            &&& mode is None ==> effects.len() == 1
        }),
        ({
            let (next, effects) = after_open(e, pending, false, app_ascii, app_inline_preedit);
            &&& next == e
            &&& effects.len() == 1
            &&& effects[0] matches EffectView::Failure { connection_id, request_id, code, .. }
                && connection_id == pending.connection_id && request_id == pending.request_id
                && code == FailureCode::Internal
        }),
{
    let next = after_open(e, pending, true, app_ascii, app_inline_preedit).0;
    assert(next.clients.drop_last() =~= e.clients);
}

/// The answer to a key goes to the request that it belongs to, with what librime ate,
/// committed, composed and offers; a new state is published, unless its place is waited for.
/// The mode that all sessions share follows librime's.
pub proof fn law_key_is_answered_and_shown(
    e: EngineView,
    i: int,
    pending: PendingCallView,
    focus_changed: bool,
    response: KeyEventResponseView,
    supports_preedit: bool,
    now: u64,
)
    requires
        0 <= i < e.clients.len(),
        pending.kind == (CallKind::Key { focus_changed }),
    ensures
        ({
            let c = e.clients[i];
            let (next, effects) = after_call(e, i, pending, response, supports_preedit, now);
            let external = response.composing && supports_preedit && !c.inline_preedit;
            &&& effects.len() >= 1
            &&& effects[0] matches EffectView::Reply { connection_id, request_id, response: told }
                && {
                &&& connection_id == pending.connection_id
                &&& request_id == pending.request_id
                &&& told.eaten == response.eaten
                &&& told.commit_text == response.commit_text
                &&& told.composing == response.composing
                &&& told.candidates == response.candidates
                &&& told.revision == next.clients[i].revision
                &&& told.token == c.route.token
                &&& !external ==> told.composition == response.composition
                &&& external ==> told.composition.len() == 0
            }
            &&& response.state_updated && next.clients[i].waiting_for_layout is None ==> (
            effects.len() == 2 && (effects[1] matches EffectView::Publish(frame) && shows_page(
                frame,
                response.candidates,
            ) && shows_text(frame, external, response.composition, response.composition_cursor)
                && frame.anchor == Some(next.clients[i].anchor) && frame.session_id == c.id
                && frame.revision == next.clients[i].revision))
            &&& !response.state_updated && !focus_changed && next.clients[i].waiting_for_layout
                is None ==> effects.len() == 1
            &&& next.global_ascii == (if e.global_ascii is Some && response.ascii_mode is Some {
                response.ascii_mode
            } else {
                e.global_ascii
            })
            &&& next.active_client == e.active_client
            &&& others_stay(e, next, i)
        }),
{
    reveal(after_key);
}

/// The answer to a command goes to the request that it belongs to; the session that is shown
/// is published as it now is, and one that is no longer shown leaves the screen. Only
/// switching changes the mode that all sessions share.
pub proof fn law_command_is_answered_and_shown(
    e: EngineView,
    i: int,
    pending: PendingCallView,
    action: ContextAction,
    was_active: bool,
    response: KeyEventResponseView,
    supports_preedit: bool,
    now: u64,
)
    requires
        0 <= i < e.clients.len(),
        pending.kind == (CallKind::Command { action, was_active }),
    ensures
        ({
            let c = e.clients[i];
            let (next, effects) = after_call(e, i, pending, response, supports_preedit, now);
            let active = e.active_client == Some(c.id);
            &&& effects.len() == (if active || was_active {
                2int
            } else {
                1int
            })
            &&& effects[0] matches EffectView::Reply { connection_id, request_id, response: told }
                && {
                &&& connection_id == pending.connection_id
                &&& request_id == pending.request_id
                &&& told.commit_text == response.commit_text
                &&& told.composing == response.composing
                &&& told.candidates == response.candidates
                &&& told.ascii_mode == response.ascii_mode
                &&& told.revision == next.clients[i].revision
            }
            &&& active ==> (effects[1] matches EffectView::Publish(frame) && shows_page(
                frame,
                next.clients[i].last_response.candidates,
            ) && frame.anchor == Some(c.anchor) && frame.session_id == c.id)
            &&& was_active && !active ==> (effects[1] matches EffectView::Publish(frame)
                && !frame.visible && frame.items.len() == 0 && frame.session_id == c.id)
            &&& next.global_ascii == (if action == ContextAction::ToggleAscii && e.global_ascii
                is Some && response.ascii_mode is Some {
                response.ascii_mode
            } else {
                e.global_ascii
            })
            &&& others_stay(e, next, i)
        }),
{
    reveal(after_command);
}

/// The answer to a click goes to the connection of the session that was clicked, as an update
/// that nobody asked for, and the new state is published.
pub proof fn law_click_is_answered_and_shown(
    e: EngineView,
    i: int,
    pending: PendingCallView,
    response: KeyEventResponseView,
    supports_preedit: bool,
    now: u64,
)
    requires
        0 <= i < e.clients.len(),
        pending.kind == CallKind::Click,
    ensures
        ({
            let c = e.clients[i];
            let (next, effects) = after_call(e, i, pending, response, supports_preedit, now);
            &&& effects.len() == 2
            &&& effects[0] matches EffectView::Reply { connection_id, request_id, response: told }
                && {
                &&& connection_id == c.connection_id
                &&& request_id == 0
                &&& told.commit_text == response.commit_text
                &&& told.composing == response.composing
                &&& told.candidates == response.candidates
                &&& told.open_emoji_panel == response.open_emoji_panel
            }
            &&& effects[1] matches EffectView::Publish(frame) && shows_page(
                frame,
                response.candidates,
            ) && frame.anchor == Some(c.anchor) && frame.session_id == c.id && frame.revision
                == next.clients[i].revision
            &&& next.global_ascii == e.global_ascii
            &&& next.active_client == e.active_client
            &&& others_stay(e, next, i)
        }),
{
}

/// What the user does on the latest state of the session that is shown, with its focus and
/// its token, is accepted.
pub proof fn law_current_clicks_are_accepted(e: EngineView, event: RendererEvent, i: int)
    requires
        engine_wf(e),
        0 <= i < e.clients.len(),
        e.clients[i].id == event.session_id,
        e.active_client == Some(event.session_id),
        e.clients[i].alive,
        e.clients[i].route.focused,
        e.clients[i].route.token == event.token,
        e.clients[i].revision == event.revision,
    ensures
        click_accepted(e, event),
{
    lemma_session_place(e, i);
}

/// Where a connection is lost, all of its sessions are, and no other; none of them changes
/// otherwise.
pub proof fn law_lost_connection_loses_its_sessions(
    clients: Seq<ClientSessionView>,
    connection_id: u64,
    i: int,
)
    requires
        0 <= i < clients.len(),
    ensures
        without_connection(clients, connection_id).len() == clients.len(),
        without_connection(clients, connection_id)[i].id == clients[i].id,
        without_connection(clients, connection_id)[i].connection_id == clients[i].connection_id,
        without_connection(clients, connection_id)[i].route == clients[i].route,
        without_connection(clients, connection_id)[i].alive == (clients[i].alive
            && clients[i].connection_id != connection_id),
        clients[i].connection_id != connection_id ==> without_connection(clients, connection_id)[i]
            == clients[i],
{
}

/// What is said of sessions that end: one end for each that is lost, in order.
pub proof fn law_every_lost_session_ends_in_librime(clients: Seq<ClientSessionView>, i: int)
    requires
        0 <= i < clients.len(),
    ensures
        !clients[i].alive ==> dropped(clients).contains(EffectView::DropSession(clients[i].id)),
        forall|k: int|
            0 <= k < dropped(clients).len() ==> (#[trigger] dropped(clients)[k] matches
                EffectView::DropSession(id) && exists|j: int|
                0 <= j < clients.len() && (#[trigger] clients[j]).id == id && !clients[j].alive),
    decreases clients.len(),
{
    let rest = clients.drop_last();
    let last = clients.last();
    let before = dropped(rest);
    let all = dropped(clients);
    if rest.len() > 0 {
        law_every_lost_session_ends_in_librime(
            rest,
            if i < rest.len() {
                i
            } else {
                0
            },
        );
    }
    if i < rest.len() && !clients[i].alive {
        assert(rest[i] == clients[i]);
        let k = choose|k: int|
            0 <= k < before.len() && before[k] == EffectView::DropSession(clients[i].id);
        assert(all[k] == before[k]);
    }
    if i == rest.len() && !clients[i].alive {
        assert(all[all.len() - 1] == EffectView::DropSession(clients[i].id));
    }
    assert forall|k: int| 0 <= k < all.len() implies (#[trigger] all[k] matches
        EffectView::DropSession(id) && exists|j: int|
        0 <= j < clients.len() && (#[trigger] clients[j]).id == id && !clients[j].alive) by {
        if k < before.len() {
            assert(all[k] == before[k]);
            let id = before[k]->DropSession_0;
            let j = choose|j: int|
                0 <= j < rest.len() && (#[trigger] rest[j]).id == id && !rest[j].alive;
            assert(clients[j] == rest[j]);
        } else {
            assert(clients[clients.len() - 1] == last);
        }
    }
}

/// A session whose connection is there stays when the engine is idle, as it is but for what
/// goes back to its host or for a layout; a shown session whose connection is lost leaves
/// the screen.
pub proof fn law_sweeping_keeps_the_living(e: EngineView, i: int)
    requires
        engine_wf(e),
        0 <= i < e.clients.len(),
    ensures
        ({
            let (next, effects) = swept(e);
            &&& e.clients[i].alive ==> next.clients.contains(e.clients[i])
            &&& !e.clients[i].alive ==> !next.clients.contains(e.clients[i])
            &&& e.active_client == Some(e.clients[i].id) && !e.clients[i].alive
                ==> next.active_client is None && effects.len() > 0 && (
            effects.last() matches EffectView::Publish(frame) && !frame.visible
                && frame.items.len() == 0 && frame.session_id == e.clients[i].id)
            &&& e.active_client == Some(e.clients[i].id) && e.clients[i].alive
                ==> next.active_client == e.active_client
        }),
{
    lemma_filter_members(e.clients, is_alive());
    lemma_session_place(e, i);
    let kept = e.clients.filter(is_alive());
    if !e.clients[i].alive && kept.contains(e.clients[i]) {
        let k = choose|k: int| 0 <= k < kept.len() && kept[k] == e.clients[i];
        assert(is_alive()(kept[k]));
    }
    if e.clients[i].alive {
        assert(is_alive()(e.clients[i]));
    }
}

/// The layout that the engine looks for is that of the session that is shown.
pub proof fn law_layout_is_that_of_the_shown_session(e: EngineView, i: int)
    requires
        engine_wf(e),
        0 <= i < e.clients.len(),
        e.active_client == Some(e.clients[i].id),
    ensures
        wanted_layout(e) == (if e.clients[i].alive {
            Some((e.clients[i].connection_id, e.clients[i].route.token))
        } else {
            None
        }),
        e.clients[i].alive ==> placed(e, None, 0).0 == e,
{
    lemma_session_place(e, i);
}

/// A layout moves the session that is shown, and no other.
pub proof fn law_layout_moves_the_shown_session(
    e: EngineView,
    i: int,
    update: LayoutUpdate,
    now: u64,
)
    requires
        engine_wf(e),
        0 <= i < e.clients.len(),
        e.active_client == Some(e.clients[i].id),
        e.clients[i].alive,
        update.mode_indicator_request_id is None,
        update.revision is None,
        update.anchor is Some,
    ensures
        ({
            let next = placed(e, Some(update), now).0;
            &&& next.clients[i].anchor == update.anchor->0
            &&& next.clients[i].last_response == e.clients[i].last_response
            &&& others_stay(e, next, i)
            &&& next.active_client == e.active_client
        }),
{
    lemma_session_place(e, i);
}

/// Where no renderer shows compositions, each goes back to its host with all that it holds;
/// sessions that the host shows already stay as they are.
pub proof fn law_compositions_go_back_whole(e: EngineView, i: int)
    requires
        0 <= i < e.clients.len(),
        e.clients[i].alive,
    ensures
        ({
            let next = restored(e, false).0;
            let (before, after) = (e.clients[i], next.clients[i]);
            &&& next.clients.len() == e.clients.len()
            &&& after.id == before.id && after.route == before.route
            &&& after.last_response.composition == before.last_response.composition
            &&& after.last_response.candidates == before.last_response.candidates
            &&& after.last_response.composing == before.last_response.composing
            &&& !after.last_response.external_preedit
            &&& !before.last_response.external_preedit ==> after == before
            &&& before.last_response.external_preedit ==> after.revision != before.revision
        }),
        restored(e, true).0 == e,
        restored(e, true).1.len() == 0,
{
}

/// A new engine has no session and shows none, and its numbers begin with one. Its sessions
/// share a mode only where the settings say so, beginning with the one that they give; secure
/// fields are left alone unless the settings allow them.
pub proof fn law_new_engine_follows_its_settings(
    shared: Option<bool>,
    mode: Option<bool>,
    secure: Option<bool>,
    policy: InputModeIndicatorPolicy,
)
    ensures
        ({
            let e = fresh_engine(Some((shared, mode, secure)), policy);
            &&& e.clients.len() == 0
            &&& e.active_client is None
            &&& e.next_session == 1
            &&& e.input_mode_indicator == policy
            &&& e.global_ascii is Some <==> shared == Some(true)
            &&& shared == Some(true) && mode is Some ==> e.global_ascii == mode
            &&& shared == Some(true) && mode is None ==> e.global_ascii == Some(false)
            &&& e.allow_rime_in_secure_fields <==> secure == Some(true)
        }),
        fresh_engine(None, policy) == fresh_engine(Some((None, None, None)), policy),
        fresh_engine(Some((Some(false), mode, secure)), policy) == fresh_engine(
            Some((None, mode, secure)),
            policy,
        ),
{
}

/// A connection's sessions are counted one by one: with one more session, the count of its
/// connection grows by one and that of every other stays.
pub proof fn law_sessions_are_counted_by_connection(
    clients: Seq<ClientSessionView>,
    client: ClientSessionView,
    connection_id: u64,
)
    ensures
        contexts_of(Seq::empty(), connection_id) == 0,
        client.connection_id == connection_id ==> contexts_of(clients.push(client), connection_id)
            == contexts_of(clients, connection_id) + 1,
        client.connection_id != connection_id ==> contexts_of(clients.push(client), connection_id)
            == contexts_of(clients, connection_id),
{
    assert(clients.push(client).drop_last() =~= clients);
}

/// Two sessions are of one context exactly where they are of one connection and their tokens
/// name the same context, whatever their generations.
pub proof fn law_contexts_belong_to_connections(a: ClientSessionView, b: ClientSessionView)
    ensures
        same_context(a, b) == same_context(b, a),
        a.connection_id != b.connection_id ==> !same_context(a, b),
        a.route.token is None ==> !same_context(a, b),
        a.route.token is Some && b.route.token is Some && a.connection_id == b.connection_id
            ==> same_context(a, b) == (a.route.token->0.context_id
            == b.route.token->0.context_id),
        in_order(a, b) ==> a.id < b.id && !same_context(a, b),
        a.id < b.id && !same_context(a, b) ==> in_order(a, b),
{
}

/// Every connection that has a session is named once, and no other.
pub proof fn law_connections_are_named_once(clients: Seq<ClientSessionView>, connection_id: u64)
    ensures
        connections_of(clients).no_duplicates(),
        connections_of(clients).contains(connection_id) <==> exists|i: int|
            0 <= i < clients.len() && (#[trigger] clients[i]).connection_id == connection_id,
    decreases clients.len(),
{
    if clients.len() > 0 {
        let rest = clients.drop_last();
        law_connections_are_named_once(rest, connection_id);
        law_connections_are_named_once(rest, clients.last().connection_id);
        let before = connections_of(rest);
        let now = connections_of(clients);
        let last = clients.last().connection_id;
        if !before.contains(last) {
            assert(now == before.push(last));
            assert(now[before.len() as int] == last);
        }
        if before.contains(connection_id) {
            let k = before.index_of(connection_id);
            assert(now[k] == connection_id);
            let i = choose|i: int|
                0 <= i < rest.len() && (#[trigger] rest[i]).connection_id == connection_id;
            assert(clients[i].connection_id == connection_id);
        }
        if last == connection_id {
            assert(clients[clients.len() - 1].connection_id == connection_id);
        }
        if now.contains(connection_id) && !before.contains(connection_id) {
            let k = now.index_of(connection_id);
            assert(k == before.len());
        }
        if exists|i: int|
            0 <= i < clients.len() && (#[trigger] clients[i]).connection_id == connection_id {
            let i = choose|i: int|
                0 <= i < clients.len() && (#[trigger] clients[i]).connection_id == connection_id;
            if i < rest.len() {
                assert(rest[i].connection_id == connection_id);
            }
        }
    }
}

/// A host whose composition comes back is told of it, and of the session that is shown the
/// new frame follows; of a session that is not shown, none does. A session whose composition
/// stayed with its host causes nothing.
pub proof fn law_only_the_shown_session_is_drawn_again(
    c: ClientSessionView,
    active: Option<u64>,
    allow: bool,
)
    ensures
        ({
            let effects = inline_effects(c, active, allow);
            &&& !c.alive || !c.last_response.external_preedit ==> effects.len() == 0
            &&& c.alive && c.last_response.external_preedit ==> effects.len() == (if active
                == Some(c.id) {
                2int
            } else {
                1int
            }) && (effects[0] is Reply || effects[0] is Failure)
            &&& c.alive && c.last_response.external_preedit && active == Some(c.id)
                ==> effects[1] is Publish && effects[1]->Publish_0.session_id == c.id
        }),
{
}

} // verus!
