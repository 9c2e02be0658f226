//! What the renderer's thread shows of the frames that reach it.
#[allow(unused_imports)]
use super::{
    after_attempt, after_command, applied, content_number, delay_until, end_actions, expired,
    fresh_selection, has_duration, message_actions, next_candidate, planned, refreshed, renders,
    shown_of,
    theme_order, with_deadline, AttemptView, LoopAction, PresentationView, SelectionStepView,
    SelectionView, ShownView, UiCommand, UiMessage, WM_RENDERER_QUIT, WM_RENDERER_UPDATE,
};
#[allow(unused_imports)]
use crate::message::{ModeIndicator, ModeIndicatorReason, RenderSnapshotView};
#[allow(unused_imports)]
use crate::state::{accepts_frame, frame_fault, same_frame_content, MailboxView, Owner};
#[allow(unused_imports)]
use crate::theme_adapter::{frame_of, theme_view};
#[allow(unused_imports)]
use crate::theme_api::{CandidateViewView, ThemeCapabilities};
use vstd::prelude::*;

verus! {

/// Whether a frame has candidates that are to be shown, and a place for them.
pub open spec fn has_page_to_show(s: RenderSnapshotView) -> bool {
    s.visible && s.items.len() > 0 && s.anchor is Some && s.anchor->0.valid
}

/// Whether a frame has nothing but a mode to indicate.
pub open spec fn only_indicates(s: RenderSnapshotView) -> bool {
    s.mode_indicator is Some && !s.visible && s.items.len() == 0 && s.preedit is None
}

/// Every name leads to the theme that every system can show, as the last to be tried and
/// only once; a known name is tried first, and no more than two themes ever are.
pub proof fn law_every_name_leads_to_a_theme(preferred: Seq<char>)
    ensures
        1 <= theme_order(preferred).len() <= 2,
        theme_order(preferred).last() == "ten"@,
        theme_order(preferred).len() == 2 ==> theme_order(preferred)[0] == preferred,
        theme_order(preferred).no_duplicates(),
        preferred == "eleven"@ || preferred == "abc"@ || preferred == "void"@ || preferred
            == "wasm"@ ==> theme_order(preferred)[0] == preferred,
{
    reveal_strlit("eleven");
    reveal_strlit("abc");
    reveal_strlit("void");
    reveal_strlit("wasm");
    reveal_strlit("ten");
    assert("abc"@[0] == 'a');
    assert("ten"@[0] == 't');
    assert("eleven"@.len() == 6 && "void"@.len() == 4 && "wasm"@.len() == 4 && "ten"@.len() == 3);
}

/// An attempt moves on to the next candidate only by failing, which is noted with the
/// candidate's name and error; the candidates themselves stay.
pub proof fn law_attempts_move_on_by_failing(s: SelectionView, outcome: AttemptView)
    requires
        s.next < s.candidates.len(),
    ensures
        after_attempt(s, outcome).0.candidates == s.candidates,
        after_attempt(s, outcome).0.next == s.next + (if outcome is Failed {
            1nat
        } else {
            0nat
        }),
        outcome is Failed ==> after_attempt(s, outcome).0.failures.drop_last() == s.failures
            && after_attempt(s, outcome).0.failures.last() == s.candidates[s.next as int] + ": "@
            + outcome->Failed_0,
        !(outcome is Failed) ==> after_attempt(s, outcome).0.failures == s.failures,
        outcome is Started <==> after_attempt(s, outcome).1 is Selected,
        outcome is Started ==> after_attempt(s, outcome).1->Selected_0 == s.next,
        outcome is Failed && s.next + 1 < s.candidates.len() ==> after_attempt(s, outcome).1
            == SelectionStepView::Try((s.next + 1) as nat),
        outcome is Fatal ==> after_attempt(s, outcome).1 is End,
{
    if outcome is Failed {
        let line = s.candidates[s.next as int] + ": "@ + outcome->Failed_0;
        assert(s.failures.push(line).drop_last() =~= s.failures);
    }
}

/// A sound frame of a newer connection, or a later one of the owner, is what waits for the
/// thread; the thread is woken for it unless it is about to look anyway.
pub proof fn law_sound_frame_waits_for_the_thread(
    m: MailboxView,
    command: UiCommand,
    checked: Option<Seq<char>>,
)
    requires
        command is Render,
        !m.closed,
        command->Render_1@.sequence > 0,
        frame_fault(command->Render_1@, checked) is None,
        command->Render_0 > m.newest_owner || (m.owner == Some(command->Render_0)
            && m.newest_owner == command->Render_0 && command->Render_1@.sequence
            > m.latest_sequence),
    ensures
        ({
            let (after, message) = after_command(m, command, checked);
            &&& after.pending == Some((command->Render_0, Some(command->Render_1@)))
            &&& after.owner == Some(command->Render_0)
            &&& after.wake_pending
            &&& message == (if m.wake_pending {
                None
            } else {
                Some(WM_RENDERER_UPDATE)
            })
        }),
{
}

/// A faulty frame, and one that comes too late, changes nothing and wakes nobody.
pub proof fn law_refused_frame_wakes_nobody(
    m: MailboxView,
    command: UiCommand,
    checked: Option<Seq<char>>,
)
    requires
        command is Render,
        frame_fault(command->Render_1@, checked) is Some || m.closed || command->Render_0
            < m.newest_owner || command->Render_1@.sequence == 0,
    ensures
        after_command(m, command, checked) == (m, None::<u32>),
{
}

/// The end of the owner's connection reaches the thread as a request to hide; that of
/// another is not heard. The request to end closes the mailbox for good, drops what waits
/// and is always passed on.
pub proof fn law_ends_reach_the_thread(
    m: MailboxView,
    owner: Owner,
    checked: Option<Seq<char>>,
)
    ensures
        ({
            let (after, message) = after_command(m, UiCommand::Disconnect(owner), checked);
            if !m.closed && m.owner == Some(owner) {
                &&& after.pending == Some((owner, None::<RenderSnapshotView>))
                &&& after.owner is None
                &&& after.wake_pending
                &&& message == (if m.wake_pending {
                    None
                } else {
                    Some(WM_RENDERER_UPDATE)
                })
            } else {
                after == m && message is None
            }
        }),
        ({
            let (after, message) = after_command(m, UiCommand::Quit, checked);
            after.closed && after.pending is None && message == Some(WM_RENDERER_QUIT)
        }),
{
}

/// A frame whose candidates are to be shown, at a valid place, is shown by every theme.
pub proof fn law_every_theme_shows_candidates(
    p: PresentationView,
    s: RenderSnapshotView,
    content_id: u64,
)
    requires
        has_page_to_show(s),
    ensures
        shown_of(p, s, content_id) == ShownView::Render(
            theme_view(s, content_id),
            frame_of(p.owner, s),
        ),
{
    assert(theme_view(s, content_id).items.len() == s.items.len());
}

/// A theme that does not stay is concealed where there are no candidates to show and no
/// indicator that it would show; one that stays is concealed only where no session is
/// active either.
pub proof fn law_nothing_to_show_conceals(
    p: PresentationView,
    s: RenderSnapshotView,
    content_id: u64,
)
    requires
        !has_page_to_show(s),
        s.mode_indicator is None || !p.capabilities.mode_indicator || !(s.anchor is Some
            && s.anchor->0.valid),
    ensures
        (shown_of(p, s, content_id) == ShownView::Conceal) == !(p.capabilities.resident
            && s.active),
{
    assert(theme_view(s, content_id).items.len() == s.items.len());
}

/// A theme that shows indicators shows one at a valid place, though there is nothing else.
pub proof fn law_indicators_are_shown(
    p: PresentationView,
    s: RenderSnapshotView,
    content_id: u64,
)
    requires
        p.capabilities.mode_indicator,
        s.mode_indicator is Some,
        s.mode_indicator->0.reason != ModeIndicatorReason::Unspecified,
        s.anchor is Some,
        s.anchor->0.valid,
    ensures
        shown_of(p, s, content_id) == ShownView::Render(
            theme_view(s, content_id),
            frame_of(p.owner, s),
        ),
{
}

/// A new indicator gets its whole time from now on; while its time runs it stays in the
/// frame, and of the frame nothing is changed.
pub proof fn law_new_indicator_gets_its_time(
    p: PresentationView,
    s: RenderSnapshotView,
    now: u64,
)
    requires
        p.capabilities.mode_indicator,
        only_indicates(s),
        p.indicator_duration > 0,
        now + p.indicator_duration <= u64::MAX,
        !(p.indicator_deadline matches Some((id, _)) && id == s.mode_indicator->0.id),
    ensures
        with_deadline(p, s, now).0 == s,
        with_deadline(p, s, now).1 == Some(
            (s.mode_indicator->0.id, (now + p.indicator_duration) as u64),
        ),
{
}

/// An indicator that is shown stays up to its time and goes with it; the rest of the frame
/// stays.
pub proof fn law_indicator_goes_at_its_time(
    p: PresentationView,
    s: RenderSnapshotView,
    deadline: u64,
    now: u64,
)
    requires
        p.capabilities.mode_indicator,
        only_indicates(s),
        p.indicator_deadline == Some((s.mode_indicator->0.id, deadline)),
    ensures
        now < deadline ==> with_deadline(p, s, now).0 == s && with_deadline(p, s, now).1
            == p.indicator_deadline,
        now >= deadline ==> with_deadline(p, s, now).0.mode_indicator is None && with_deadline(
            p,
            s,
            now,
        ).1 is None,
{
}

/// Whatever becomes of the indicator, the rest of a frame stays as it is; a theme that
/// shows no indicators never gets one, and a frame without one sets no time.
pub proof fn law_only_the_indicator_is_taken_out(
    p: PresentationView,
    s: RenderSnapshotView,
    now: u64,
)
    ensures
        with_deadline(p, s, now).0 == (RenderSnapshotView {
            mode_indicator: with_deadline(p, s, now).0.mode_indicator,
            ..s
        }),
        with_deadline(p, s, now).0.mode_indicator is None || with_deadline(p, s, now).0
            .mode_indicator == s.mode_indicator,
        with_deadline(p, s, now).0.mode_indicator is Some <==> with_deadline(p, s, now).1 is Some,
        !p.capabilities.mode_indicator || s.mode_indicator is None ==> with_deadline(p, s, now).1
            is None,
{
}

/// A frame gets the number of the last one exactly where their content is the same, and
/// else a number that no frame before it had.
pub proof fn law_new_content_gets_a_new_number(p: PresentationView, s: RenderSnapshotView)
    requires
        p.content_id < u64::MAX,
    ensures
        content_number(p, s) is Some,
        p.last is Some && same_frame_content(p.last->0, s) ==> content_number(p, s)->0
            == p.content_id,
        p.last is None || !same_frame_content(p.last->0, s) ==> content_number(p, s)->0
            == p.content_id + 1,
{
}

/// A connection's frame reaches the theme whole: what is asked for is the view of that very
/// frame under its content's number, with its events going to that connection.
pub proof fn law_applied_frame_is_the_shown_one(
    p: PresentationView,
    owner: Owner,
    s: RenderSnapshotView,
    now: u64,
)
    requires
        p.content_id < u64::MAX,
        has_page_to_show(s),
    ensures
        ({
            let plain = RenderSnapshotView { mode_indicator: None, ..s };
            let (next, frame, shown) = applied(p, owner, Some(s), now);
            &&& next.owner == owner
            &&& frame == Some(plain)
            &&& shown == Ok::<ShownView, Seq<char>>(
                ShownView::Render(theme_view(plain, next.content_id), frame_of(owner, plain)),
            )
            &&& next.capabilities == p.capabilities
            &&& next.indicator_duration == p.indicator_duration
            &&& next.indicator_deadline is None
            &&& p.content_id <= next.content_id <= p.content_id + 1
        }),
{
    let plain = RenderSnapshotView { mode_indicator: None, ..s };
    assert(theme_view(plain, p.content_id).items.len() == s.items.len());
    assert(theme_view(plain, (p.content_id + 1) as u64).items.len() == s.items.len());
}

/// The same frame of the same connection again keeps its number; after another connection's
/// frame it gets a new one, though its content be the same.
pub proof fn law_number_belongs_to_the_connection(
    p: PresentationView,
    owner: Owner,
    s: RenderSnapshotView,
    now: u64,
)
    requires
        p.content_id < u64::MAX,
        p.last is Some,
        same_frame_content(p.last->0, s),
    ensures
        owner == p.owner ==> applied(p, owner, Some(s), now).0.content_id == p.content_id,
        owner != p.owner ==> applied(p, owner, Some(s), now).0.content_id == p.content_id + 1,
{
}

/// A connection that has nothing to show any more conceals the theme, whatever was shown,
/// and leaves nothing to show again.
pub proof fn law_lost_frame_conceals(p: PresentationView, owner: Owner, now: u64)
    ensures
        ({
            let (next, frame, shown) = applied(p, owner, None, now);
            &&& shown == Ok::<ShownView, Seq<char>>(ShownView::Conceal)
            &&& frame is None
            &&& next.owner == owner
            &&& next.last is None
            &&& next.indicator_deadline is None
            &&& next.content_id == p.content_id
            &&& refreshed(next, Some(owner)) is None
        }),
{
}

/// Before its time an indicator stays. At its time it goes and only it: the theme gets the
/// same frame without it, under a new number.
pub proof fn law_expired_indicator_goes_alone(
    p: PresentationView,
    s: RenderSnapshotView,
    id: u64,
    deadline: u64,
    now: u64,
)
    requires
        p.indicator_deadline == Some((id, deadline)),
        p.last == Some(s),
        s.mode_indicator is Some,
        s.mode_indicator->0.id == id,
        p.content_id < u64::MAX,
    ensures
        now < deadline ==> expired(p, now) == (p, Ok::<Option<ShownView>, Seq<char>>(None)),
        now >= deadline ==> ({
            let plain = RenderSnapshotView { mode_indicator: None, ..s };
            let (next, shown) = expired(p, now);
            &&& next.last == Some(plain)
            &&& next.indicator_deadline is None
            &&& next.owner == p.owner
            &&& next.content_id == p.content_id + 1
            &&& shown == Ok::<Option<ShownView>, Seq<char>>(
                Some(
                    ShownView::Render(theme_view(plain, next.content_id), frame_of(p.owner, plain)),
                ),
            )
        }),
{
}

/// The time of an indicator that is no longer shown takes nothing off the screen.
pub proof fn law_late_time_changes_nothing_shown(
    p: PresentationView,
    id: u64,
    deadline: u64,
    now: u64,
)
    requires
        p.indicator_deadline == Some((id, deadline)),
        p.last is None || p.last->0.mode_indicator is None || p.last->0.mode_indicator->0.id != id,
    ensures
        expired(p, now).1 == Ok::<Option<ShownView>, Seq<char>>(None),
        expired(p, now).0.last == p.last,
        expired(p, now).0.content_id == p.content_id,
{
}

/// After a change of the look, the connection that is shown sees its last frame again, as it
/// was, under the same number.
pub proof fn law_refresh_shows_the_same_frame(p: PresentationView, s: RenderSnapshotView)
    requires
        p.last == Some(s),
        has_page_to_show(s),
    ensures
        refreshed(p, Some(p.owner)) == Some(
            ShownView::Render(theme_view(s, p.content_id), frame_of(p.owner, s)),
        ),
{
    assert(theme_view(s, p.content_id).items.len() == s.items.len());
}

/// A timer goes off no earlier than an indicator's time, as far as one can be set, and no
/// later than a millisecond after now where that time has passed.
pub proof fn law_timer_waits_for_the_deadline(deadline: u64, now: u64)
    ensures
        delay_until(deadline, now) >= 1,
        now < deadline <= now + u32::MAX ==> now + delay_until(deadline, now) == deadline,
        now < deadline ==> now + delay_until(deadline, now) <= deadline,
        deadline <= now ==> delay_until(deadline, now) == 1,
{
}

/// What waits is shown before the message itself is looked at, and each thing is done
/// exactly where it is asked for.
pub proof fn law_message_does_what_it_asks(
    pending: bool,
    expire: bool,
    refresh: bool,
    dispatch: bool,
)
    ensures
        ({
            let actions = message_actions(pending, expire, refresh, dispatch);
            &&& actions.contains(LoopAction::Apply) <==> pending
            &&& actions.contains(LoopAction::Expire) <==> expire
            &&& actions.contains(LoopAction::Refresh) <==> refresh
            &&& actions.contains(LoopAction::Dispatch) <==> dispatch
            &&& !actions.contains(LoopAction::Conceal)
            &&& !actions.contains(LoopAction::KillTimer)
            &&& pending ==> actions[0] == LoopAction::Apply
            &&& forall|i: int, j: int|
                0 <= i < j < actions.len() && #[trigger] actions[i] == LoopAction::Dispatch
                    ==> #[trigger] actions[j] == LoopAction::CheckHealth || actions[j]
                    == LoopAction::DrainNotices
        }),
{
    let actions = message_actions(pending, expire, refresh, dispatch);
    let a: int = if pending {
        2
    } else {
        0
    };
    let b: int = if expire {
        a + 2
    } else {
        a
    };
    let c: int = if refresh {
        b + 1
    } else {
        b
    };
    if pending {
        assert(actions[0] == LoopAction::Apply);
    }
    if expire {
        assert(actions[a] == LoopAction::Expire);
    }
    if refresh {
        assert(actions[b] == LoopAction::Refresh);
    }
    if dispatch {
        assert(actions[c] == LoopAction::Dispatch);
    }
}

/// A thread that ends drops the timer that it has set, takes the theme off the screen, and
/// then reports what is left to report.
pub proof fn law_ending_thread_clears_the_screen(timer_set: bool)
    ensures
        ({
            let actions = end_actions(timer_set);
            &&& actions.len() == (if timer_set {
                3int
            } else {
                2int
            })
            &&& timer_set ==> actions[0] == LoopAction::KillTimer
            &&& actions[actions.len() - 2] == LoopAction::Conceal
            &&& actions[actions.len() - 1] == LoopAction::DrainNotices
        }),
{
}

/// A message for the thread does what its number asks for; the same numbers in a window's
/// messages are the window's own. A failure of the system ends the thread with an error,
/// and its end of messages without one.
pub proof fn law_messages_lead_to_their_plans(message: UiMessage, status: i32, timer: usize)
    ensures
        status == -1 ==> planned(message, status, timer) is Fail,
        status == 0 ==> planned(message, status, timer) is Quit,
        status > 0 && !message.to_window && message.kind == 0x800b ==> planned(
            message,
            status,
            timer,
        ) is Quit,
        status > 0 && (message.to_window || message.kind != 0x800b) ==> ({
            let plan = planned(message, status, timer);
            &&& plan is Handle
            &&& plan->expire <==> !message.to_window && message.kind == 0x0113
                && message.parameter == timer
            &&& plan->refresh <==> (!message.to_window && message.kind == 0x800c) || message.kind
                == 0x001a || message.kind == 0x031a || message.kind == 0x0015
            &&& plan->dispatch <==> message.kind != 0x0113 && (message.to_window || (message.kind
                != 0x800a && message.kind != 0x800c))
        }),
{
}

} // verus!
