//! What holds of the engine whatever a host or a renderer sends.
#[allow(unused_imports)]
use super::idle::{after_idle, placed, restored};
#[allow(unused_imports)]
use super::{
    after_click_call, begin, click_accepted, client_wf, destroyed, engine_wf, has_id, in_context,
    in_order, is_alive, lemma_session_place, request_token, same_context, EngineView, Request,
    StepView,
};
#[allow(unused_imports)]
use crate::client_session::{
    after_command, after_key, after_layout, hosted, key_frame, next_revision, starts_composition,
    ClientSessionView, EffectView, InputModeIndicatorPolicy,
};
#[allow(unused_imports)]
use crate::list::{first_index, lemma_filter_members, lemma_first_index, lemma_first_index_is};
#[allow(unused_imports)]
use crate::message::{
    token_valid, ContextAction, ContextToken, FailureCode, KeyEvent, KeyEventResponseView,
    LayoutUpdate, RendererEvent,
};
#[allow(unused_imports)]
use crate::session_route::observes;
use vstd::prelude::*;

verus! {

/// A request that is refused as stale leaves every session as it was.
pub proof fn law_stale_request_changes_nothing(
    e: EngineView,
    connection_id: u64,
    alive: bool,
    request_id: u64,
    request: Request,
)
    ensures
        ({
            let (next, step) = begin(e, connection_id, alive, request_id, request);
            (step matches StepView::Done(effects) && effects.len() == 1 && (
            effects[0] matches EffectView::Failure { code, .. } && code
                == FailureCode::StaleContext)) ==> next == e
        }),
{
}

/// A request of a lost connection does nothing and is not answered.
pub proof fn law_lost_connection_is_ignored(
    e: EngineView,
    connection_id: u64,
    request_id: u64,
    request: Request,
)
    ensures
        begin(e, connection_id, false, request_id, request) == (
            e,
            StepView::Done(Seq::<EffectView>::empty()),
        ),
{
}

/// Keys and commands of a context that was not opened are refused; nothing but
/// opening creates a session.
pub proof fn law_only_opening_creates_a_session(
    e: EngineView,
    connection_id: u64,
    request_id: u64,
    request: Request,
)
    requires
        token_valid(request_token(request)),
        first_index(
            e.clients,
            in_context(connection_id, request_token(request)->0.context_id),
        ) is None,
        !(request is OpenInput),
    ensures
        ({
            let (next, step) = begin(e, connection_id, true, request_id, request);
            &&& next == e
            &&& step matches StepView::Done(effects)
            &&& effects.len() == 1
            &&& effects[0] is Failure
        }),
{
}

/// A key of an older generation than the session has seen is refused.
pub proof fn law_older_generation_is_refused(
    e: EngineView,
    connection_id: u64,
    request_id: u64,
    i: int,
    key: KeyEvent,
)
    requires
        engine_wf(e),
        token_valid(key.token),
        first_index(e.clients, in_context(connection_id, key.token->0.context_id)) == Some(i),
        key.token->0.generation < e.clients[i].route.token->0.generation,
    ensures
        ({
            let (next, step) = begin(e, connection_id, true, request_id, Request::Key(key));
            &&& next == e
            &&& step matches StepView::Done(effects)
            &&& effects[0] matches EffectView::Failure { code, .. }
            &&& code == FailureCode::StaleContext
        }),
{
    lemma_first_index(e.clients, in_context(connection_id, key.token->0.context_id));
    assert(client_wf(e.clients[i], e.next_session, e.next_mode_indicator));
}

/// A context that was destroyed is closed: none of its sessions is left.
pub proof fn law_destroyed_context_is_closed(
    e: EngineView,
    connection_id: u64,
    request_id: u64,
    i: int,
    token: Option<ContextToken>,
)
    requires
        engine_wf(e),
        first_index(e.clients, in_context(connection_id, token->0.context_id)) == Some(i),
        observes(e.clients[i].route.token, token),
    ensures
        first_index(
            destroyed(e, i, connection_id, request_id, token).0.clients,
            in_context(connection_id, token->0.context_id),
        ) is None,
{
    let p = in_context(connection_id, token->0.context_id);
    lemma_first_index(e.clients, p);
    let rest = e.clients.remove(i);
    assert forall|j: int| 0 <= j < rest.len() implies !p(#[trigger] rest[j]) by {
        let k = if j < i { j } else { j + 1 };
        assert(rest[j] == e.clients[k]);
        if k > i {
            assert(in_order(e.clients[i], e.clients[k]));
            assert(!same_context(e.clients[i], e.clients[k]));
        } else {
            assert(!p(e.clients[k]));
        }
    }
    lemma_first_index_is(rest, p, None);
}

/// While a composition waits for its place, a key shows no candidates and nothing
/// visible.
pub proof fn law_waiting_composition_shows_no_candidates(
    c: ClientSessionView,
    visible: bool,
    mode: Option<bool>,
    state_updated: bool,
    focus_changed: bool,
)
    requires
        c.waiting_for_layout is Some,
    ensures
        key_frame(c, visible, mode, state_updated, focus_changed) matches Some(frame) ==> (
        frame.items.len() == 0 && !frame.visible && frame.preedit is None),
{
}

/// A key that starts a composition makes the session wait for a layout of the
/// composition's own revision, and forgets the caret's old place.
pub proof fn law_new_composition_waits_for_its_place(
    c: ClientSessionView,
    response: KeyEventResponseView,
    supports_preedit: bool,
    policy: InputModeIndicatorPolicy,
    next_indicator: u64,
    now: u64,
)
    requires
        starts_composition(c.last_response, response),
    ensures
        ({
            let next = after_key(
                c,
                response,
                supports_preedit,
                policy,
                next_indicator,
                now,
            ).client;
            &&& next.waiting_for_layout == Some(next.revision)
            &&& next.revision == next_revision(c.revision)
            &&& !next.anchor.valid
        }),
{
    reveal(after_key);
}

/// A layout that was made on an older revision than the session waits for neither
/// ends the waiting nor shows anything.
pub proof fn law_older_layout_does_not_unlock(
    c: ClientSessionView,
    update: LayoutUpdate,
    now: u64,
)
    requires
        c.waiting_for_layout is Some,
        update.revision is Some,
        update.revision->0 < c.waiting_for_layout->0,
        update.mode_indicator_request_id is None,
    ensures
        after_layout(c, update, now) == (
            c,
            None::<crate::message::RenderSnapshotView>,
        ),
{
}

/// The place of a mode indicator does not move the candidates, and shows the
/// indicator only where it is the one that waits, in time, and nothing is being
/// composed. No indicator is shown twice.
pub proof fn law_mode_indicator_is_shown_once(
    c: ClientSessionView,
    update: LayoutUpdate,
    now: u64,
    later: u64,
)
    requires
        update.mode_indicator_request_id is Some,
    ensures
        ({
            let (next, frame) = after_layout(c, update, now);
            &&& next.anchor == c.anchor && next.waiting_for_layout == c.waiting_for_layout
            &&& frame is Some ==> c.pending_mode_indicator is Some
                && c.pending_mode_indicator->0.id == update.mode_indicator_request_id->0 && now
                < c.pending_mode_indicator->0.expires_at && !c.last_response.composing
            &&& frame is Some ==> after_layout(next, update, later).1 is None
        }),
{
}

/// The number of a mode indicator that a key asks for is new: it is the next one,
/// and the following one is greater.
pub proof fn law_mode_indicator_numbers_grow(
    c: ClientSessionView,
    response: KeyEventResponseView,
    supports_preedit: bool,
    policy: InputModeIndicatorPolicy,
    next_indicator: u64,
    now: u64,
)
    requires
        response.mode_indicator_request_id is None,
        next_indicator < u64::MAX,
    ensures
        ({
            let outcome = after_key(c, response, supports_preedit, policy, next_indicator, now);
            match outcome.response.mode_indicator_request_id {
                Some(id) => id == next_indicator && outcome.next_indicator == id + 1
                    && outcome.client.pending_mode_indicator is Some
                    && outcome.client.pending_mode_indicator->0.id == id,
                None => outcome.next_indicator == next_indicator,
            }
        }),
{
    reveal(after_key);
}

/// While something is being composed no mode indicator is asked for, and one that
/// waited is forgotten.
pub proof fn law_composing_shows_no_mode_indicator(
    c: ClientSessionView,
    action: ContextAction,
    response: KeyEventResponseView,
    supports_preedit: bool,
    policy: InputModeIndicatorPolicy,
    next_indicator: u64,
    now: u64,
)
    requires
        response.composing,
        response.mode_indicator_request_id is None,
    ensures
        ({
            let key = after_key(c, response, supports_preedit, policy, next_indicator, now);
            let command = after_command(
                c,
                action,
                response,
                supports_preedit,
                policy,
                next_indicator,
                now,
            );
            &&& key.response.mode_indicator_request_id is None
            &&& key.client.pending_mode_indicator is None
            &&& command.response.mode_indicator_request_id is None
            &&& command.client.pending_mode_indicator is None
        }),
{
    reveal(after_key);
    reveal(after_command);
}

/// Where the renderer shows the composition, the host gets none of its text, but
/// what is committed, and that something is being composed, stays.
pub proof fn law_host_gets_no_external_text(response: KeyEventResponseView)
    ensures
        response.external_preedit ==> hosted(response).composition.len() == 0 && hosted(
            response,
        ).composition_cursor == 0,
        hosted(response).commit_text == response.commit_text,
        hosted(response).composing == response.composing,
        hosted(response).state_updated == response.state_updated,
        !response.external_preedit ==> hosted(response) == response,
{
}

/// A click counts once: after its answer, the same event is refused.
pub proof fn law_click_counts_once(
    e: EngineView,
    event: RendererEvent,
    response: KeyEventResponseView,
    supports_preedit: bool,
)
    requires
        engine_wf(e),
        click_accepted(e, event),
    ensures
        ({
            let i = first_index(e.clients, has_id(event.session_id))->0;
            !click_accepted(after_click_call(e, i, response, supports_preedit).0, event)
        }),
{
    let p = has_id(event.session_id);
    let i = first_index(e.clients, p)->0;
    lemma_first_index(e.clients, p);
    let next = after_click_call(e, i, response, supports_preedit).0;
    assert forall|j: int| 0 <= j < i implies !p(#[trigger] next.clients[j]) by {
        assert(!p(e.clients[j]));
    }
    lemma_first_index_is(next.clients, p, Some(i));
}

/// Only the active session takes clicks, and only with its focus, its token and
/// its latest revision.
pub proof fn law_only_the_shown_state_takes_clicks(e: EngineView, event: RendererEvent, i: int)
    requires
        engine_wf(e),
        0 <= i < e.clients.len(),
        e.clients[i].id == event.session_id,
        e.active_client != Some(event.session_id) || !e.clients[i].route.focused
            || e.clients[i].route.token != event.token || e.clients[i].revision != event.revision,
    ensures
        !click_accepted(e, event),
{
    lemma_session_place(e, i);
}

/// After the engine was idle, every session has its connection, and so has the
/// one that is shown.
pub proof fn law_idle_keeps_living_sessions(
    e: EngineView,
    layout: Option<LayoutUpdate>,
    supports_preedit: bool,
    now: u64,
)
    ensures
        forall|i: int|
            #![trigger after_idle(e, layout, supports_preedit, now).0.clients[i]]
            0 <= i < after_idle(e, layout, supports_preedit, now).0.clients.len() ==> after_idle(
                e,
                layout,
                supports_preedit,
                now,
            ).0.clients[i].alive,
{
    let moved = placed(restored(e, supports_preedit).0, layout, now).0;
    lemma_filter_members(moved.clients, is_alive());
    let rest = after_idle(e, layout, supports_preedit, now).0.clients;
    assert forall|i: int| 0 <= i < rest.len() implies (#[trigger] rest[i]).alive by {
        assert(is_alive()(moved.clients.filter(is_alive())[i]));
    }
}

/// Where no renderer shows compositions, none of the sessions is left that keeps
/// its text from its host.
pub proof fn law_idle_gives_compositions_back(
    e: EngineView,
    layout: Option<LayoutUpdate>,
    now: u64,
)
    requires
        engine_wf(e),
    ensures
        forall|i: int|
            #![trigger after_idle(e, layout, false, now).0.clients[i]]
            0 <= i < after_idle(e, layout, false, now).0.clients.len() ==> !after_idle(
                e,
                layout,
                false,
                now,
            ).0.clients[i].last_response.external_preedit,
{
    let inline = restored(e, false).0;
    let moved = placed(inline, layout, now).0;
    lemma_filter_members(moved.clients, is_alive());
    if let Some(id) = inline.active_client {
        lemma_first_index(inline.clients, has_id(id));
    }
    let rest = after_idle(e, layout, false, now).0.clients;
    assert forall|i: int| 0 <= i < rest.len() implies !(#[trigger] rest[
        i]).last_response.external_preedit by {
        assert(is_alive()(moved.clients.filter(is_alive())[i]));
        assert(moved.clients.contains(moved.clients.filter(is_alive())[i]));
        let k = choose|k: int| 0 <= k < moved.clients.len() && moved.clients[k] == rest[i];
        assert(moved.clients[k].alive);
        assert(inline.clients[k].alive);
        assert(!inline.clients[k].last_response.external_preedit);
    }
}

} // verus!
