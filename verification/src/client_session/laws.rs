//! What a session makes of every key, command, click and layout: what it keeps, what the
//! host is told, and what is shown.
#[allow(unused_imports)]
use super::{
    after_click, after_command, after_key, after_layout, answered, back_inline, command_frame,
    ends_composition, gone_snapshot, hosted, indicated, inline_again, key_frame, layout_anchor,
    next_revision, policy_allows, policy_of, refused, was_visible, ClientSessionView, EffectView,
    InputModeIndicatorPolicy, Outcome,
};
#[allow(unused_imports)]
use crate::message::{
    CandidateView, ContextAction, ContextToken, FailureCode, KeyEventResponseView, LayoutUpdate,
    ModeIndicatorReason, RenderRect, RenderSnapshotView,
};
#[allow(unused_imports)]
use crate::renderer_bridge::laws::{shows_page, shows_text};
use vstd::prelude::*;

verus! {

/// What a key shows: the frame of the session after librime's answer to it.
pub open spec fn shown_after_key(
    c: ClientSessionView,
    response: KeyEventResponseView,
    supports_preedit: bool,
    policy: InputModeIndicatorPolicy,
    next_indicator: u64,
    now: u64,
    focus_changed: bool,
) -> Option<RenderSnapshotView> {
    key_frame(
        after_key(c, response, supports_preedit, policy, next_indicator, now).client,
        was_visible(c),
        c.last_response.ascii_mode,
        response.state_updated,
        focus_changed,
    )
}

/// A key that brings a new state, in a session that does not wait for a place, publishes
/// that state at the session's place, whether or not the focus changed: its candidates in
/// their order, its composed text where the renderer is to show it, visible where there is
/// something to show. So the frame of a key that ends a composition hides it.
pub proof fn law_new_state_is_always_shown(
    c: ClientSessionView,
    response: KeyEventResponseView,
    supports_preedit: bool,
    policy: InputModeIndicatorPolicy,
    next_indicator: u64,
    now: u64,
    focus_changed: bool,
)
    requires
        response.state_updated,
        c.waiting_for_layout is None || !response.composing,
        c.last_response.composing || !response.composing,
    ensures
        ({
            let frame = shown_after_key(
                c,
                response,
                supports_preedit,
                policy,
                next_indicator,
                now,
                focus_changed,
            );
            let external = response.composing && supports_preedit && !c.inline_preedit;
            &&& frame matches Some(f) && {
                &&& shows_page(f, response.candidates)
                &&& shows_text(f, external, response.composition, response.composition_cursor)
                &&& f.visible <==> c.anchor.valid && (response.candidates.len() > 0 || external)
                &&& f.anchor == Some(c.anchor)
                &&& f.selected_index == response.selected_candidate
                &&& f.session_id == c.id
                &&& f.token == c.route.token
                &&& f.revision != c.revision
                &&& response.ascii_mode is Some ==> f.ascii_mode == response.ascii_mode
            }
        }),
{
    reveal(after_key);
}

/// A key that brings no new state shows nothing by itself; where the focus came with it,
/// the state that the session already had is shown.
pub proof fn law_unchanged_state_is_shown_on_focus_only(
    c: ClientSessionView,
    response: KeyEventResponseView,
    supports_preedit: bool,
    policy: InputModeIndicatorPolicy,
    next_indicator: u64,
    now: u64,
)
    requires
        !response.state_updated,
        c.waiting_for_layout is None,
    ensures
        shown_after_key(c, response, supports_preedit, policy, next_indicator, now, false) is None,
        shown_after_key(
            c,
            response,
            supports_preedit,
            policy,
            next_indicator,
            now,
            true,
        ) matches Some(f) && {
            &&& shows_page(f, c.last_response.candidates)
            &&& f.anchor == Some(c.anchor)
            &&& f.session_id == c.id
            &&& f.token == c.route.token
            &&& f.revision == c.revision
        },
{
    reveal(after_key);
}

/// A key that starts a composition takes off the screen whatever of the session was on
/// it, and shows nothing before the place of the composition is known.
pub proof fn law_new_composition_hides_the_old_frame(
    c: ClientSessionView,
    response: KeyEventResponseView,
    supports_preedit: bool,
    policy: InputModeIndicatorPolicy,
    next_indicator: u64,
    now: u64,
    focus_changed: bool,
)
    requires
        response.state_updated && response.composing,
        !c.last_response.composing,
    ensures
        ({
            let after = after_key(c, response, supports_preedit, policy, next_indicator, now);
            let frame = shown_after_key(
                c,
                response,
                supports_preedit,
                policy,
                next_indicator,
                now,
                focus_changed,
            );
            &&& after.client.waiting_for_layout == Some(after.client.revision)
            &&& !after.client.anchor.valid
            &&& was_visible(c) || focus_changed ==> frame is Some
            &&& frame matches Some(f) ==> !f.visible && f.items.len() == 0 && f.preedit is None
                && f.active && f.session_id == c.id && f.token == c.route.token
        }),
{
    reveal(after_key);
}

/// Something of a session was on the screen exactly where it had a valid place and
/// candidates, or composed text that the renderer shows.
pub proof fn law_visible_sessions_have_something_to_show(c: ClientSessionView)
    ensures
        was_visible(c) <==> c.anchor.valid && (c.last_response.candidates.len() > 0 || (
        c.last_response.external_preedit && c.last_response.composing)),
{
}

/// A key that ends a composition ends the waiting for its place.
pub proof fn law_ended_composition_waits_no_more(
    c: ClientSessionView,
    response: KeyEventResponseView,
    supports_preedit: bool,
    policy: InputModeIndicatorPolicy,
    next_indicator: u64,
    now: u64,
)
    requires
        response.state_updated,
        !response.composing,
    ensures
        ({
            let after = after_key(c, response, supports_preedit, policy, next_indicator, now);
            after.client.waiting_for_layout is None && after.client.anchor == c.anchor
        }),
{
    reveal(after_key);
}

/// Whether an answer says of the text what librime said of it.
pub open spec fn same_text_answer(a: KeyEventResponseView, b: KeyEventResponseView) -> bool {
    &&& a.eaten == b.eaten
    &&& a.commit_text == b.commit_text
    &&& a.composition == b.composition
    &&& a.composition_cursor == b.composition_cursor
    &&& a.composing == b.composing
    &&& a.candidates == b.candidates
    &&& a.selected_candidate == b.selected_candidate
    &&& a.page_start == b.page_start
    &&& a.can_page_previous == b.can_page_previous
    &&& a.can_page_next == b.can_page_next
    &&& a.state_updated == b.state_updated
    &&& a.ascii_mode == b.ascii_mode
    &&& a.open_emoji_panel == b.open_emoji_panel
}

/// What librime answers to a key or a command, or to a click, is answered as it is: what
/// is eaten, committed, composed and offered. The session adds its token and its revision,
/// and whether the renderer shows the composed text.
pub proof fn law_librimes_answer_is_passed_on(
    c: ClientSessionView,
    action: ContextAction,
    response: KeyEventResponseView,
    supports_preedit: bool,
    policy: InputModeIndicatorPolicy,
    next_indicator: u64,
    now: u64,
)
    ensures
        ({
            let key = after_key(c, response, supports_preedit, policy, next_indicator, now);
            let command = after_command(
                c,
                action,
                response,
                supports_preedit,
                policy,
                next_indicator,
                now,
            );
            let click = after_click(c, response, supports_preedit);
            let external = response.composing && supports_preedit && !c.inline_preedit;
            &&& same_text_answer(key.response, response)
            &&& same_text_answer(command.response, response)
            &&& same_text_answer(click.1, response)
            &&& key.response.external_preedit == external
            &&& command.response.external_preedit == external
            &&& click.1.external_preedit == external
            &&& key.response.token == c.route.token
            &&& command.response.token == c.route.token
            &&& click.1.token == c.route.token
            &&& key.response.revision == key.client.revision
            &&& command.response.revision == command.client.revision
            &&& click.1.revision == click.0.revision
        }),
{
    reveal(after_key);
    reveal(after_command);
}

/// Revisions: a key that brings a new state moves the session on, one that does not
/// leaves it; a command and a click always move it on. So what was shown before can be
/// told from what is shown after.
pub proof fn law_new_states_have_new_revisions(
    c: ClientSessionView,
    action: ContextAction,
    response: KeyEventResponseView,
    supports_preedit: bool,
    policy: InputModeIndicatorPolicy,
    next_indicator: u64,
    now: u64,
)
    ensures
        ({
            let key = after_key(c, response, supports_preedit, policy, next_indicator, now);
            let command = after_command(
                c,
                action,
                response,
                supports_preedit,
                policy,
                next_indicator,
                now,
            );
            let click = after_click(c, response, supports_preedit);
            &&& key.client.revision != c.revision <==> response.state_updated
            &&& command.client.revision != c.revision
            &&& click.0.revision != c.revision
            &&& back_inline(c).revision != c.revision
            &&& c.revision < u64::MAX ==> {
                &&& key.client.revision >= c.revision
                &&& command.client.revision == c.revision + 1
                &&& click.0.revision == c.revision + 1
                &&& back_inline(c).revision == c.revision + 1
            }
        }),
{
    reveal(after_key);
    reveal(after_command);
}

/// A session remembers the state that librime described last, and of an answer that
/// describes none the mode alone.
pub proof fn law_session_remembers_the_last_state(
    c: ClientSessionView,
    action: ContextAction,
    response: KeyEventResponseView,
    supports_preedit: bool,
    policy: InputModeIndicatorPolicy,
    next_indicator: u64,
    now: u64,
)
    ensures
        ({
            let key = after_key(
                c,
                response,
                supports_preedit,
                policy,
                next_indicator,
                now,
            ).client.last_response;
            let command = after_command(
                c,
                action,
                response,
                supports_preedit,
                policy,
                next_indicator,
                now,
            ).client.last_response;
            let mode = if response.ascii_mode is Some {
                response.ascii_mode
            } else if response.state_updated {
                None
            } else {
                c.last_response.ascii_mode
            };
            let kept = if response.state_updated {
                response
            } else {
                c.last_response
            };
            &&& key.candidates == kept.candidates && command.candidates == kept.candidates
            &&& key.composition == kept.composition && command.composition == kept.composition
            &&& key.composing == kept.composing && command.composing == kept.composing
            &&& key.ascii_mode == mode && command.ascii_mode == mode
            &&& key.token == c.route.token && command.token == c.route.token
        }),
{
    reveal(after_key);
    reveal(after_command);
}

/// Whatever is answered to a session, it stays the same session of the same connection
/// and context.
pub proof fn law_session_keeps_its_identity(
    c: ClientSessionView,
    action: ContextAction,
    response: KeyEventResponseView,
    supports_preedit: bool,
    policy: InputModeIndicatorPolicy,
    next_indicator: u64,
    now: u64,
    update: LayoutUpdate,
)
    ensures
        same_session(c, after_key(c, response, supports_preedit, policy, next_indicator, now).client),
        same_session(
            c,
            after_command(
                c,
                action,
                response,
                supports_preedit,
                policy,
                next_indicator,
                now,
            ).client,
        ),
        same_session(c, after_click(c, response, supports_preedit).0),
        same_session(c, back_inline(c)),
        same_session(c, after_layout(c, update, now).0),
{
    reveal(after_key);
    reveal(after_command);
}

/// Whether two states are of one session.
pub open spec fn same_session(a: ClientSessionView, b: ClientSessionView) -> bool {
    &&& a.id == b.id
    &&& a.connection_id == b.connection_id
    &&& a.alive == b.alive
    &&& a.route == b.route
    &&& a.inline_preedit == b.inline_preedit
}

/// A mode that was known and is now another is made known to the user, where the policy
/// allows it and nothing is composed: with the new mode, and as long as the host may take
/// to tell the place. A mode that did not change is not.
pub proof fn law_switched_mode_is_indicated(
    c: ClientSessionView,
    response: KeyEventResponseView,
    supports_preedit: bool,
    policy: InputModeIndicatorPolicy,
    next_indicator: u64,
    now: u64,
    before: bool,
    after: bool,
)
    requires
        c.last_response.ascii_mode == Some(before),
        response.ascii_mode == Some(after),
        response.mode_indicator_request_id is None,
        !response.composing,
        now <= u64::MAX - 800,
    ensures
        ({
            let key = after_key(c, response, supports_preedit, policy, next_indicator, now);
            let command = after_command(
                c,
                ContextAction::ToggleAscii,
                response,
                supports_preedit,
                policy,
                next_indicator,
                now,
            );
            let asked = before != after && policy != InputModeIndicatorPolicy::Never;
            &&& asked ==> asks_for_indicator(
                key,
                next_indicator,
                after,
                ModeIndicatorReason::UserSwitch,
                now,
            ) && asks_for_indicator(
                command,
                next_indicator,
                after,
                ModeIndicatorReason::UserSwitch,
                now,
            )
            &&& !asked ==> key.response.mode_indicator_request_id is None
                && command.response.mode_indicator_request_id is None
        }),
{
    reveal(after_key);
    reveal(after_command);
}

/// Whether an outcome asks for the place of an indicator of a mode.
pub open spec fn asks_for_indicator(
    outcome: Outcome,
    id: u64,
    mode: bool,
    reason: ModeIndicatorReason,
    now: u64,
) -> bool {
    &&& outcome.response.mode_indicator_request_id == Some(id)
    &&& outcome.client.pending_mode_indicator matches Some(pending) && pending.id == id
        && pending.ascii_mode == mode && pending.reason == reason && pending.expires_at == now + 800
}

/// A focus makes the mode known to the user, where the policy asks for that, and only
/// there.
pub proof fn law_focus_indicates_the_mode(
    c: ClientSessionView,
    response: KeyEventResponseView,
    supports_preedit: bool,
    policy: InputModeIndicatorPolicy,
    next_indicator: u64,
    now: u64,
    mode: bool,
)
    requires
        response.ascii_mode == Some(mode),
        response.mode_indicator_request_id is None,
        !response.composing,
        now <= u64::MAX - 800,
    ensures
        ({
            let focus = after_command(
                c,
                ContextAction::Focus,
                response,
                supports_preedit,
                policy,
                next_indicator,
                now,
            );
            if policy == InputModeIndicatorPolicy::FocusAndSwitch {
                asks_for_indicator(focus, next_indicator, mode, ModeIndicatorReason::Focus, now)
            } else {
                focus.response.mode_indicator_request_id is None
            }
        }),
{
    reveal(after_command);
}

/// Leaving a field, submitting, cancelling, and the end of a composition by its host end
/// what waits for a place, whatever librime answers; no other command does so by itself.
pub proof fn law_commands_that_end_a_composition(
    c: ClientSessionView,
    action: ContextAction,
    response: KeyEventResponseView,
    supports_preedit: bool,
    policy: InputModeIndicatorPolicy,
    next_indicator: u64,
    now: u64,
)
    requires
        response.composing || !response.state_updated,
    ensures
        ({
            let after = after_command(
                c,
                action,
                response,
                supports_preedit,
                policy,
                next_indicator,
                now,
            ).client;
            &&& action == ContextAction::Blur || action == ContextAction::Submit || action
                == ContextAction::Cancel || action == ContextAction::HostTerminated ==> (
            after.waiting_for_layout is None && after.pending_mode_indicator is None)
            &&& action == ContextAction::Focus || action == ContextAction::ToggleAscii || action
                == ContextAction::SetAscii ==> after.waiting_for_layout == c.waiting_for_layout
            &&& after.anchor == c.anchor
        }),
{
    reveal(after_command);
}

/// What a command shows: an active session as it now is, in its place; a session that is
/// no longer active leaves the screen; of others nothing is shown.
pub proof fn law_command_shows_the_active_session(
    c: ClientSessionView,
    was_active: bool,
    is_active: bool,
)
    ensures
        is_active ==> (command_frame(c, was_active, is_active) matches Some(f) && shows_page(
            f,
            c.last_response.candidates,
        ) && f.anchor == Some(c.anchor) && f.session_id == c.id && f.revision == c.revision
            && f.active && (f.visible <==> was_visible(c))),
        was_active && !is_active ==> (command_frame(c, was_active, is_active) matches Some(f)
            && !f.visible && !f.active && f.items.len() == 0 && f.preedit is None && f.session_id
            == c.id && f.revision == c.revision && f.token == c.route.token),
        !was_active && !is_active ==> command_frame(c, was_active, is_active) is None,
{
}

/// What a click shows: the state that librime answered with, in the session's place.
pub proof fn law_click_shows_the_new_state(
    c: ClientSessionView,
    response: KeyEventResponseView,
    supports_preedit: bool,
)
    ensures
        ({
            let (after, full, frame) = after_click(c, response, supports_preedit);
            let external = response.composing && supports_preedit && !c.inline_preedit;
            &&& shows_page(frame, response.candidates)
            &&& shows_text(frame, external, response.composition, response.composition_cursor)
            &&& frame.visible <==> c.anchor.valid && (response.candidates.len() > 0 || external)
            &&& frame.anchor == Some(c.anchor)
            &&& frame.session_id == c.id
            &&& frame.revision == after.revision
            &&& after.anchor == c.anchor
            &&& after.last_response == full
            &&& !response.composing ==> after.waiting_for_layout is None
            &&& response.composing ==> after.waiting_for_layout == c.waiting_for_layout
        }),
{
}

/// A layout that is new enough moves the session to the place that it brings; where the
/// session has something to show, it is shown there, unless it was there already. A place
/// that is valid ends the waiting.
pub proof fn law_layout_moves_the_session(c: ClientSessionView, update: LayoutUpdate, now: u64)
    requires
        update.mode_indicator_request_id is None,
        update.anchor is Some,
        update.revision matches Some(r) ==> (c.waiting_for_layout matches Some(w) ==> r >= w) && (
        c.latest_layout_revision matches Some(l) ==> r >= l),
    ensures
        ({
            let (after, frame) = after_layout(c, update, now);
            let place = update.anchor->0;
            let something = c.last_response.candidates.len() > 0
                || c.last_response.external_preedit;
            &&& after.anchor == place
            &&& after.last_response == c.last_response && after.revision == c.revision
            &&& update.revision is Some ==> after.latest_layout_revision == update.revision
            &&& place.valid ==> after.waiting_for_layout is None
            &&& !place.valid ==> after.waiting_for_layout == c.waiting_for_layout
            &&& after.waiting_for_layout is Some ==> frame is None
            &&& place.valid && something && (c.anchor != place || c.waiting_for_layout is Some)
                ==> frame is Some
            &&& frame matches Some(f) ==> shows_page(f, c.last_response.candidates) && f.anchor
                == Some(place) && f.session_id == c.id && f.revision == c.revision
                && f.mode_indicator is None
        }),
{
}

/// A layout that is too old is ignored.
pub proof fn law_old_layouts_are_ignored(c: ClientSessionView, update: LayoutUpdate, now: u64)
    requires
        update.mode_indicator_request_id is None,
        update.revision matches Some(r) && ((c.waiting_for_layout matches Some(w) && r < w) || (
        c.latest_layout_revision matches Some(l) && r < l)),
    ensures
        after_layout(c, update, now).0 == c,
        after_layout(c, update, now).1 is None,
{
}

/// The place of an indicator that waits shows it there, with the mode and the reason that
/// it was asked for, in time, where the place is valid and nothing is composed; it is then
/// done with, shown or not.
pub proof fn law_indicator_is_shown_at_its_place(
    c: ClientSessionView,
    update: LayoutUpdate,
    now: u64,
)
    requires
        update.anchor is Some,
        c.pending_mode_indicator is Some,
        update.mode_indicator_request_id == Some(c.pending_mode_indicator->0.id),
    ensures
        ({
            let (after, frame) = after_layout(c, update, now);
            let pending = c.pending_mode_indicator->0;
            let place = update.anchor->0;
            &&& after.pending_mode_indicator is None
            &&& frame is Some <==> now < pending.expires_at && place.valid
                && !c.last_response.composing
            &&& frame matches Some(f) ==> f.anchor == Some(place) && f.session_id == c.id && (
            f.mode_indicator matches Some(indicator) && indicator.id == pending.id
                && indicator.ascii_mode == pending.ascii_mode && indicator.reason
                == pending.reason)
        }),
{
}

/// The place of another indicator than the one that waits changes nothing.
pub proof fn law_other_indicators_are_ignored(
    c: ClientSessionView,
    update: LayoutUpdate,
    now: u64,
)
    requires
        update.mode_indicator_request_id is Some,
        c.pending_mode_indicator matches Some(pending) ==> update.mode_indicator_request_id
            != Some(pending.id),
    ensures
        after_layout(c, update, now).0 == c,
        after_layout(c, update, now).1 is None,
{
}

/// The host is told all of a response but for a composed text that the renderer shows,
/// and whether the engine may be used in secure fields; the answer goes to the request
/// and the connection that it belongs to.
pub proof fn law_answers_go_where_they_belong(
    connection_id: u64,
    request_id: u64,
    response: KeyEventResponseView,
    allow: bool,
)
    ensures
        answered(connection_id, request_id, response, allow) matches EffectView::Reply {
            connection_id: to,
            request_id: about,
            response: told,
        } && {
            &&& to == connection_id
            &&& about == request_id
            &&& told.eaten == response.eaten
            &&& told.commit_text == response.commit_text
            &&& told.composing == response.composing
            &&& told.candidates == response.candidates
            &&& told.selected_candidate == response.selected_candidate
            &&& told.state_updated == response.state_updated
            &&& told.ascii_mode == response.ascii_mode
            &&& told.token == response.token
            &&& told.revision == response.revision
            &&& told.external_preedit == response.external_preedit
            &&& told.open_emoji_panel == response.open_emoji_panel
            &&& told.mode_indicator_request_id == response.mode_indicator_request_id
            &&& told.allow_rime_in_secure_fields == Some(allow)
            &&& !response.external_preedit ==> told.composition == response.composition
                && told.composition_cursor == response.composition_cursor
            &&& response.external_preedit ==> told.composition.len() == 0
        },
{
}

/// A composition that goes back to its host stays as it is, but for who shows it; what is
/// told of it commits, eats and opens nothing.
pub proof fn law_composition_goes_back_whole(c: ClientSessionView)
    ensures
        ({
            let after = back_inline(c);
            let told = inline_again(after.last_response);
            &&& !after.last_response.external_preedit
            &&& after.last_response.composition == c.last_response.composition
            &&& after.last_response.composition_cursor == c.last_response.composition_cursor
            &&& after.last_response.candidates == c.last_response.candidates
            &&& after.last_response.composing == c.last_response.composing
            &&& after.last_response.revision == after.revision
            &&& after.anchor == c.anchor
            &&& hosted(told).composition == c.last_response.composition
            &&& hosted(told).composing == c.last_response.composing
            &&& told.revision == after.revision
            &&& told.state_updated
            &&& !told.eaten
            &&& told.commit_text.len() == 0
            &&& !told.open_emoji_panel
        }),
{
}

/// The two settings that there are stand for their policies; every other, and none, stands
/// for showing switches only.
pub proof fn law_settings_name_the_policy(text: Seq<char>)
    ensures
        policy_of(Some("focus_and_switch"@)) == InputModeIndicatorPolicy::FocusAndSwitch,
        policy_of(Some("never"@)) == InputModeIndicatorPolicy::Never,
        text != "focus_and_switch"@ && text != "never"@ ==> policy_of(Some(text))
            == InputModeIndicatorPolicy::SwitchOnly,
        policy_of(None) == InputModeIndicatorPolicy::SwitchOnly,
{
    reveal_strlit("focus_and_switch");
    reveal_strlit("never");
    assert("focus_and_switch"@.len() == 16 && "never"@.len() == 5);
}

/// A key that neither starts nor ends a composition changes nothing in what is waited for,
/// nor where the session is.
pub proof fn law_waiting_goes_on_in_between(
    c: ClientSessionView,
    response: KeyEventResponseView,
    supports_preedit: bool,
    policy: InputModeIndicatorPolicy,
    next_indicator: u64,
    now: u64,
)
    requires
        !response.state_updated || (c.last_response.composing && response.composing),
    ensures
        ({
            let after = after_key(c, response, supports_preedit, policy, next_indicator, now);
            after.client.waiting_for_layout == c.waiting_for_layout && after.client.anchor
                == c.anchor
        }),
{
    reveal(after_key);
}

} // verus!
