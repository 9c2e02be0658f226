//! What librime is asked for each key, command and click, and what becomes of what
//! it answers.
#[allow(unused_imports)]
use super::{
    action_start, at_least_zero, call_start, composition_of, count_of, event_start, key_start,
    page_candidates, page_start_of, read_of, response_of, resumed, with_context,
    ContextReadingView, Exchange, ReadingsView, SessionCall, SessionStepView, StatusReading,
};
#[allow(unused_imports)]
use super::api::RimeFunction;
#[allow(unused_imports)]
use crate::engine::RimeCall;
#[allow(unused_imports)]
use crate::message::{
    CandidateView, ContextAction, KeyEvent, KeyEventResponseView, RendererEvent,
    RendererEventAction,
};
#[allow(unused_imports)]
use crate::text::{byte_len, prefix_within, utf16_len};
use vstd::prelude::*;

verus! {

/// A whole exchange, where librime answers its calls one after another: the calls that
/// it makes, in order, and what it ends with.
pub open spec fn run(step: SessionStepView, answers: Seq<i32>) -> (
    Seq<SessionCall>,
    SessionStepView,
)
    decreases answers.len(),
{
    match step {
        SessionStepView::Call(call, exchange) if answers.len() > 0 => {
            let rest = run(resumed(exchange, answers[0]), answers.drop_first());
            (seq![call] + rest.0, rest.1)
        },
        _ => (Seq::empty(), step),
    }
}

/// An exchange that makes no call ends where it starts.
proof fn lemma_no_call(step: SessionStepView, answers: Seq<i32>)
    requires
        !(step is Call),
    ensures
        run(step, answers) == (Seq::<SessionCall>::empty(), step),
{
}

/// The first call of an exchange, and what follows it.
proof fn lemma_one_call(call: SessionCall, exchange: Exchange, answers: Seq<i32>)
    requires
        answers.len() > 0,
    ensures
        ({
            let rest = run(resumed(exchange, answers[0]), answers.drop_first());
            run(SessionStepView::Call(call, exchange), answers) == (seq![call] + rest.0, rest.1)
        }),
{
}

/// Every key that is meant, and that the host could translate, reaches librime once,
/// with its own key code and its own modifiers; it is eaten exactly where librime says
/// so, and what librime commits is kept.
pub proof fn law_keys_reach_librime_as_they_are(
    api: Seq<RimeFunction>,
    key: KeyEvent,
    answers: Seq<i32>,
)
    requires
        !key.test,
        key.keycode is Some,
        answers.len() > 0,
    ensures
        ({
            let (calls, end) = run(call_start(api, RimeCall::ProcessKey(key)), answers);
            if api.contains(RimeFunction::ProcessKey) {
                &&& calls.len() == 1
                &&& calls[0] matches SessionCall::ProcessKey { keycode, modifiers } && Some(keycode)
                    == key.keycode && modifiers == key.modifiers
                &&& end matches SessionStepView::Read { eaten, keep_commit } && keep_commit && (
                eaten <==> answers[0] == 1)
            } else {
                calls.len() == 0 && end == (SessionStepView::Read {
                    eaten: false,
                    keep_commit: true,
                })
            }
        }),
        key_start(api, key) == call_start(api, RimeCall::ProcessKey(key)),
{
    if api.contains(RimeFunction::ProcessKey) {
        let step = key_start(api, key);
        lemma_one_call(step->Call_0, step->Call_1, answers);
        lemma_no_call(resumed(step->Call_1, answers[0]), answers.drop_first());
    }
}

/// Two keys make the same call only where they are the same key with the same
/// modifiers; of nothing else does the call depend.
pub proof fn law_different_keys_make_different_calls(
    api: Seq<RimeFunction>,
    a: KeyEvent,
    b: KeyEvent,
)
    requires
        api.contains(RimeFunction::ProcessKey),
        !a.test && !b.test,
        a.keycode is Some && b.keycode is Some,
    ensures
        key_start(api, a) == key_start(api, b) <==> a.keycode == b.keycode && a.modifiers
            == b.modifiers,
{
}

/// A key that is only tried, or that the host could not translate, makes no call, is
/// not eaten, and answers with nothing new.
pub proof fn law_tried_keys_change_nothing(
    api: Seq<RimeFunction>,
    key: KeyEvent,
    answers: Seq<i32>,
)
    requires
        key.test || key.keycode is None,
    ensures
        ({
            let (calls, end) = run(call_start(api, RimeCall::ProcessKey(key)), answers);
            &&& calls.len() == 0
            &&& end matches SessionStepView::Done(response) && says_nothing(response)
                && response.ascii_mode is None
        }),
{
}

/// Whether a response commits, composes, eats and opens nothing, and describes no new
/// state.
pub open spec fn says_nothing(response: KeyEventResponseView) -> bool {
    &&& !response.eaten
    &&& response.commit_text.len() == 0
    &&& response.composition.len() == 0
    &&& !response.composing
    &&& response.candidates.len() == 0
    &&& !response.state_updated
    &&& !response.open_emoji_panel
    &&& !response.external_preedit
    &&& response.mode_indicator_request_id is None
}

/// A click on a page's row selects the candidate of that row, counted from the page's
/// first, and no other; a row that no page can have selects none.
pub proof fn law_clicked_row_is_selected(
    api: Seq<RimeFunction>,
    event: RendererEvent,
    answers: Seq<i32>,
)
    requires
        event.action == RendererEventAction::ItemInvoked,
        api.contains(RimeFunction::SelectCandidateOnCurrentPage),
        answers.len() > 0,
    ensures
        ({
            let (calls, end) = run(call_start(api, RimeCall::RendererEvent(event)), answers);
            if event.item_index < 256 {
                &&& calls.len() == 1
                &&& calls[0] matches SessionCall::SelectCandidate(index) && index
                    == event.item_index
                &&& end matches SessionStepView::Read { eaten, keep_commit } && keep_commit && (
                eaten <==> answers[0] == 1)
            } else {
                calls.len() == 0 && end == (SessionStepView::Read {
                    eaten: false,
                    keep_commit: true,
                })
            }
        }),
        event_start(api, event) == call_start(api, RimeCall::RendererEvent(event)),
{
    let step = event_start(api, event);
    if event.item_index < 256 {
        lemma_one_call(step->Call_0, step->Call_1, answers);
        lemma_no_call(resumed(step->Call_1, answers[0]), answers.drop_first());
    }
}

/// Two rows of a page never select the same candidate.
pub proof fn law_different_rows_select_different_candidates(
    api: Seq<RimeFunction>,
    a: RendererEvent,
    b: RendererEvent,
)
    requires
        a.action == RendererEventAction::ItemInvoked,
        b.action == RendererEventAction::ItemInvoked,
        a.item_index < 256 && b.item_index < 256,
        api.contains(RimeFunction::SelectCandidateOnCurrentPage),
    ensures
        event_start(api, a) == event_start(api, b) <==> a.item_index == b.item_index,
{
}

/// The button for the next page turns the page forward, the one for the previous page
/// backward; a page is turned by nothing else.
pub proof fn law_page_buttons_turn_their_own_way(
    api: Seq<RimeFunction>,
    event: RendererEvent,
    answers: Seq<i32>,
)
    requires
        api.contains(RimeFunction::ChangePage),
        answers.len() > 0,
    ensures
        ({
            let (calls, end) = run(call_start(api, RimeCall::RendererEvent(event)), answers);
            &&& event.action == RendererEventAction::NavigateNext <==> calls
                == seq![SessionCall::ChangePage { backward: false }]
            &&& event.action == RendererEventAction::NavigatePrevious <==> calls
                == seq![SessionCall::ChangePage { backward: true }]
            &&& event.action == RendererEventAction::NavigateNext || event.action
                == RendererEventAction::NavigatePrevious ==> (end matches SessionStepView::Read {
                eaten,
                keep_commit,
            } && keep_commit && (eaten <==> answers[0] == 1))
        }),
        event_start(api, event) == call_start(api, RimeCall::RendererEvent(event)),
{
    let step = event_start(api, event);
    let forward = seq![SessionCall::ChangePage { backward: false }];
    let backward = seq![SessionCall::ChangePage { backward: true }];
    assert(forward[0] == (SessionCall::ChangePage { backward: false }));
    assert(backward[0] == (SessionCall::ChangePage { backward: true }));
    if step is Call {
        lemma_one_call(step->Call_0, step->Call_1, answers);
        lemma_no_call(resumed(step->Call_1, answers[0]), answers.drop_first());
        let calls = run(step, answers).0;
        assert(calls =~= seq![step->Call_0]);
        assert(calls[0] == step->Call_0);
    }
}

/// Dismissing drops what is composed and is eaten whatever librime answers; the emoji
/// panel opens once what is composed is dropped, and not where it cannot be.
pub proof fn law_dismissing_and_emoji_drop_the_composition(
    api: Seq<RimeFunction>,
    event: RendererEvent,
    answers: Seq<i32>,
)
    requires
        answers.len() > 0,
        event.action == RendererEventAction::Dismiss || event.action
            == RendererEventAction::OpenEmojiPanel,
    ensures
        ({
            let (calls, end) = run(call_start(api, RimeCall::RendererEvent(event)), answers);
            let dismiss = event.action == RendererEventAction::Dismiss;
            if api.contains(RimeFunction::ClearComposition) {
                &&& calls == seq![SessionCall::ClearComposition]
                &&& dismiss ==> end == (SessionStepView::Read { eaten: true, keep_commit: true })
                &&& !dismiss ==> (end matches SessionStepView::Done(response)
                    && response.open_emoji_panel && response.state_updated && !response.composing
                    && response.commit_text.len() == 0 && response.candidates.len() == 0)
            } else {
                &&& calls.len() == 0
                &&& dismiss ==> end == (SessionStepView::Read { eaten: false, keep_commit: true })
                &&& !dismiss ==> (end matches SessionStepView::Done(response) && says_nothing(
                    response,
                ))
            }
        }),
{
    let step = event_start(api, event);
    if step is Call {
        lemma_one_call(step->Call_0, step->Call_1, answers);
        lemma_no_call(resumed(step->Call_1, answers[0]), answers.drop_first());
        assert(run(step, answers).0 =~= seq![SessionCall::ClearComposition]);
    }
}

/// Submitting commits what is composed, with one call and no other, and answers with
/// whatever librime then reports as committed.
pub proof fn law_submit_commits_what_is_composed(
    api: Seq<RimeFunction>,
    answers: Seq<i32>,
    readings: ReadingsView,
)
    requires
        api.contains(RimeFunction::CommitComposition),
        answers.len() > 0,
    ensures
        ({
            let (calls, end) = run(
                call_start(api, RimeCall::ContextAction(ContextAction::Submit)),
                answers,
            );
            &&& calls == seq![SessionCall::CommitComposition]
            &&& end matches SessionStepView::Read { eaten, keep_commit } && !eaten && keep_commit
                && (readings.commit matches Some(text) ==> read_of(
                eaten,
                keep_commit,
                readings,
            ).commit_text == text)
        }),
{
    let step = action_start(api, ContextAction::Submit);
    lemma_one_call(step->Call_0, step->Call_1, answers);
    lemma_no_call(resumed(step->Call_1, answers[0]), answers.drop_first());
    assert(run(step, answers).0 =~= seq![SessionCall::CommitComposition]);
}

/// Only where the composition is cancelled, or its host has ended it, is it cleared by
/// a command and is what librime commits dropped; there it always is.
pub proof fn law_only_cancelling_drops_text(
    api: Seq<RimeFunction>,
    action: ContextAction,
    answers: Seq<i32>,
    readings: ReadingsView,
)
    requires
        answers.len() >= 3,
    ensures
        ({
            let (calls, end) = run(call_start(api, RimeCall::ContextAction(action)), answers);
            let cancels = action == ContextAction::Cancel || action
                == ContextAction::HostTerminated;
            &&& calls.contains(SessionCall::ClearComposition) <==> cancels && api.contains(
                RimeFunction::ClearComposition,
            )
            &&& !(end is Call)
            &&& end matches SessionStepView::Read { eaten, keep_commit } ==> !eaten && (keep_commit
                <==> !cancels)
            &&& cancels ==> (end matches SessionStepView::Read { eaten, keep_commit } && read_of(
                eaten,
                keep_commit,
                readings,
            ).commit_text.len() == 0)
        }),
        action_start(api, action) == call_start(api, RimeCall::ContextAction(action)),
{
    let step = action_start(api, action);
    let (calls, end) = run(step, answers);
    if step is Call {
        let rest = answers.drop_first();
        let second = resumed(step->Call_1, answers[0]);
        lemma_one_call(step->Call_0, step->Call_1, answers);
        if second is Call {
            let third = resumed(second->Call_1, rest[0]);
            lemma_one_call(second->Call_0, second->Call_1, rest);
            if third is Call {
                lemma_one_call(third->Call_0, third->Call_1, rest.drop_first());
                lemma_no_call(
                    resumed(third->Call_1, rest.drop_first()[0]),
                    rest.drop_first().drop_first(),
                );
                assert(calls =~= seq![step->Call_0, second->Call_0, third->Call_0]);
            } else {
                lemma_no_call(third, rest.drop_first());
                assert(calls =~= seq![step->Call_0, second->Call_0]);
            }
        } else {
            lemma_no_call(second, rest);
            assert(calls =~= seq![step->Call_0]);
        }
        assert(calls[0] == step->Call_0);
    } else {
        lemma_no_call(step, answers);
    }
}

/// Switching the mode makes three calls in this order: what is composed is committed,
/// the mode is asked for, and the opposite of what librime answered is set. Where librime
/// cannot tell or set its mode, nothing is called. What is committed is kept.
pub proof fn law_switching_sets_the_opposite_mode(api: Seq<RimeFunction>, answers: Seq<i32>)
    requires
        answers.len() >= 3,
    ensures
        ({
            let (calls, end) = run(
                call_start(api, RimeCall::ContextAction(ContextAction::ToggleAscii)),
                answers,
            );
            &&& end == (SessionStepView::Read { eaten: false, keep_commit: true })
            &&& if !api.contains(RimeFunction::GetOption) || !api.contains(
                RimeFunction::SetOption,
            ) {
                calls.len() == 0
            } else if api.contains(RimeFunction::CommitComposition) {
                calls == seq![
                    SessionCall::CommitComposition,
                    SessionCall::GetAscii,
                    SessionCall::SetAscii(answers[1] == 0),
                ]
            } else {
                calls == seq![SessionCall::GetAscii, SessionCall::SetAscii(answers[0] == 0)]
            }
        }),
{
    let step = action_start(api, ContextAction::ToggleAscii);
    let calls = run(step, answers).0;
    if step is Call {
        let rest = answers.drop_first();
        let second = resumed(step->Call_1, answers[0]);
        lemma_one_call(step->Call_0, step->Call_1, answers);
        lemma_one_call(second->Call_0, second->Call_1, rest);
        let third = resumed(second->Call_1, rest[0]);
        if third is Call {
            lemma_one_call(third->Call_0, third->Call_1, rest.drop_first());
            lemma_no_call(
                resumed(third->Call_1, rest.drop_first()[0]),
                rest.drop_first().drop_first(),
            );
            assert(calls =~= seq![step->Call_0, second->Call_0, third->Call_0]);
        } else {
            lemma_no_call(third, rest.drop_first());
            assert(calls =~= seq![step->Call_0, second->Call_0]);
        }
    }
}

/// A focus only asks for the mode, and reports it as it is; nothing is set, committed
/// or cleared by it.
pub proof fn law_focus_reports_the_mode(api: Seq<RimeFunction>, answers: Seq<i32>)
    requires
        answers.len() > 0,
    ensures
        ({
            let (calls, end) = run(
                call_start(api, RimeCall::ContextAction(ContextAction::Focus)),
                answers,
            );
            &&& end matches SessionStepView::Done(response) && says_nothing(response)
                && response.ascii_mode == (if api.contains(RimeFunction::GetOption) {
                Some(answers[0] != 0)
            } else {
                None
            })
            &&& calls == (if api.contains(RimeFunction::GetOption) {
                seq![SessionCall::GetAscii]
            } else {
                Seq::empty()
            })
        }),
{
    let step = action_start(api, ContextAction::Focus);
    if step is Call {
        lemma_one_call(step->Call_0, step->Call_1, answers);
        lemma_no_call(resumed(step->Call_1, answers[0]), answers.drop_first());
        assert(run(step, answers).0 =~= seq![SessionCall::GetAscii]);
    }
}

/// A mode that is set is the one that was asked for; whether the state is read after it
/// is up to who asked.
pub proof fn law_set_mode_is_the_given_one(
    api: Seq<RimeFunction>,
    ascii: bool,
    answers: Seq<i32>,
)
    requires
        api.contains(RimeFunction::SetOption),
        answers.len() > 0,
    ensures
        run(call_start(api, RimeCall::SetAsciiMode(ascii)), answers).0
            == seq![SessionCall::SetAscii(ascii)],
        run(call_start(api, RimeCall::SetAsciiMode(ascii)), answers).1 matches SessionStepView::Done(
            response,
        ) && says_nothing(response),
        run(call_start(api, RimeCall::SetAsciiModeResponse(ascii)), answers) == (
            seq![SessionCall::SetAscii(ascii)],
            SessionStepView::Read { eaten: false, keep_commit: true },
        ),
{
    let first = call_start(api, RimeCall::SetAsciiMode(ascii));
    let second = call_start(api, RimeCall::SetAsciiModeResponse(ascii));
    lemma_one_call(first->Call_0, first->Call_1, answers);
    lemma_no_call(resumed(first->Call_1, answers[0]), answers.drop_first());
    lemma_one_call(second->Call_0, second->Call_1, answers);
    lemma_no_call(resumed(second->Call_1, answers[0]), answers.drop_first());
    assert(run(first, answers).0 =~= seq![SessionCall::SetAscii(ascii)]);
    assert(run(second, answers).0 =~= seq![SessionCall::SetAscii(ascii)]);
}

/// Commands that the host settles by itself ask nothing of librime.
pub proof fn law_other_commands_ask_nothing(
    api: Seq<RimeFunction>,
    action: ContextAction,
    answers: Seq<i32>,
)
    requires
        action == ContextAction::Blur || action == ContextAction::SetAscii || action
            == ContextAction::Destroy || action == ContextAction::Unspecified,
    ensures
        ({
            let (calls, end) = run(call_start(api, RimeCall::ContextAction(action)), answers);
            calls.len() == 0 && (end matches SessionStepView::Done(response) && says_nothing(
                response,
            ) && response.ascii_mode is None)
        }),
{
}

/// What librime committed is answered to the letter, and nothing where it committed
/// nothing; the answer says that the key was eaten exactly where it was.
pub proof fn law_committed_text_is_answered(eaten: bool, readings: ReadingsView)
    ensures
        ({
            let response = read_of(eaten, true, readings);
            &&& response.eaten == eaten
            &&& readings.commit matches Some(text) ==> response.commit_text == text
            &&& readings.commit is None ==> response.commit_text.len() == 0
            &&& !response.open_emoji_panel
            &&& !response.external_preedit
        }),
        read_of(eaten, true, readings) == response_of(eaten, readings),
        read_of(eaten, false, readings).candidates == response_of(eaten, readings).candidates,
        read_of(eaten, false, readings).composition == response_of(eaten, readings).composition,
        read_of(eaten, false, readings).composing == response_of(eaten, readings).composing,
        read_of(eaten, false, readings).eaten == eaten,
        read_of(eaten, false, readings).state_updated == response_of(
            eaten,
            readings,
        ).state_updated,
{
}

/// An answer describes a new state exactly where librime's could be read. Its
/// candidates are those of librime's page, each in its place, with its text and its
/// comment; so is the text that is composed.
pub proof fn law_answer_shows_librimes_page(
    eaten: bool,
    readings: ReadingsView,
    context: ContextReadingView,
    list: Seq<CandidateView>,
    i: int,
)
    requires
        readings.context == Some(context),
        context.candidates == Some(list),
        0 < context.num_candidates <= 256,
        0 <= i < list.len(),
    ensures
        ({
            let response = response_of(eaten, readings);
            &&& response.state_updated
            &&& response.candidates.len() == list.len()
            &&& response.candidates[i].text == list[i].text
            &&& response.candidates[i].comment == list[i].comment
            &&& context.preedit matches Some(text) ==> response.composition == text
            &&& context.preedit is None ==> response.composition.len() == 0
            &&& 0 <= context.highlighted_candidate_index < list.len()
                ==> response.selected_candidate == context.highlighted_candidate_index
            &&& response.can_page_previous <==> context.page_no > 0
            &&& response.can_page_next <==> context.is_last_page == 0
        }),
{
}

/// Without a page, an answer shows no candidate, and offers no next page.
pub proof fn law_no_page_shows_no_candidates(
    eaten: bool,
    readings: ReadingsView,
    context: ContextReadingView,
)
    requires
        readings.context == Some(context),
        context.num_candidates <= 0 || context.candidates is None,
    ensures
        ({
            let response = response_of(eaten, readings);
            &&& response.state_updated
            &&& response.candidates.len() == 0
            &&& response.selected_candidate == 0
            &&& context.num_candidates <= 0 ==> !response.can_page_next
        }),
{
}

/// A state that could not be read is not reported as a new one.
pub proof fn law_unread_state_is_not_reported(eaten: bool, readings: ReadingsView)
    requires
        readings.context is None,
    ensures
        ({
            let response = response_of(eaten, readings);
            &&& !response.state_updated
            &&& response.candidates.len() == 0
            &&& response.composition.len() == 0
            &&& readings.status is None ==> !response.composing && response.ascii_mode is None
        }),
{
}

/// The mode, and whether something is composed, are what librime's status says, where
/// it could be read; the mode is unknown where not.
pub proof fn law_status_tells_the_mode(eaten: bool, readings: ReadingsView)
    ensures
        ({
            let response = response_of(eaten, readings);
            match readings.status {
                Some(status) => {
                    &&& response.ascii_mode == Some(status.is_ascii_mode != 0)
                    &&& response.composing == (status.is_composing != 0)
                },
                None => {
                    &&& response.ascii_mode is None
                    &&& readings.context matches Some(context) ==> response.composing == (
                    context.composition_length > 0)
                },
            }
        }),
{
}

/// The pages follow one another without a gap: each begins where as many candidates
/// stand before it as the pages before it have, up to the last number that there is.
pub proof fn law_pages_follow_one_another(page_no: i32, page_size: i32)
    requires
        0 <= page_no,
        0 <= page_size,
    ensures
        page_start_of(0, page_size) == 0,
        page_no < i32::MAX && page_start_of((page_no + 1) as i32, page_size) < u32::MAX
            ==> page_start_of((page_no + 1) as i32, page_size) == page_start_of(page_no, page_size)
            + page_size,
        page_no < i32::MAX ==> page_start_of((page_no + 1) as i32, page_size) >= page_start_of(
            page_no,
            page_size,
        ),
{
    assert(0 * page_size == 0) by (nonlinear_arith);
    assert((page_no + 1) * page_size == page_no * page_size + page_size) by (nonlinear_arith);
}

/// The answer's page begins where librime's page does.
pub proof fn law_answer_begins_where_the_page_does(
    eaten: bool,
    readings: ReadingsView,
    context: ContextReadingView,
)
    requires
        readings.context == Some(context),
        0 <= context.page_no && 0 <= context.page_size,
        context.page_no * context.page_size <= u32::MAX,
    ensures
        response_of(eaten, readings).page_start == context.page_no * context.page_size,
{
}

/// The cursor of an answer stands behind the longest beginning of the composed text that
/// has no more bytes than librime's cursor, counted in UTF-16 code units.
pub proof fn law_cursor_follows_librimes(
    eaten: bool,
    readings: ReadingsView,
    context: ContextReadingView,
    text: Seq<char>,
    n: int,
)
    requires
        readings.context == Some(context),
        context.preedit == Some(text),
        0 <= n <= text.len(),
        0 <= context.cursor_pos,
        byte_len(text.take(n)) <= context.cursor_pos,
        n < text.len() ==> byte_len(text.take(n + 1)) > context.cursor_pos,
        utf16_len(text) <= u32::MAX,
    ensures
        response_of(eaten, readings).composition_cursor == utf16_len(text.take(n)),
{
    crate::text::lemma_prefix_within(text, context.cursor_pos as nat, n);
    crate::text::laws::law_utf16_grows(text, n);
}

/// Whether an exchange only reads librime's state, as if nothing had been taken, and keeps
/// the text that it finds committed.
pub open spec fn only_reads(step: SessionStepView) -> bool {
    step matches SessionStepView::Read { eaten, keep_commit } && !eaten && keep_commit
}

/// What an older librime cannot do is not asked of it: nothing is taken, its state is read,
/// and text that it has committed is kept, but for a cancelled composition.
pub proof fn law_lacking_functions_are_not_called(
    api: Seq<RimeFunction>,
    ascii: bool,
    key: KeyEvent,
    event: RendererEvent,
)
    ensures
        !api.contains(RimeFunction::SetOption) ==> only_reads(
            call_start(api, RimeCall::SetAsciiModeResponse(ascii)),
        ),
        !api.contains(RimeFunction::SetOption) ==> (call_start(
            api,
            RimeCall::SetAsciiMode(ascii),
        ) matches SessionStepView::Done(response) && says_nothing(response)),
        !api.contains(RimeFunction::SetOption) || !api.contains(RimeFunction::GetOption)
            ==> only_reads(call_start(api, RimeCall::ContextAction(ContextAction::ToggleAscii))),
        !api.contains(RimeFunction::CommitComposition) ==> only_reads(
            call_start(api, RimeCall::ContextAction(ContextAction::Submit)),
        ),
        !api.contains(RimeFunction::ProcessKey) && !key.test && key.keycode is Some ==> only_reads(
            call_start(api, RimeCall::ProcessKey(key)),
        ),
        !api.contains(RimeFunction::SelectCandidateOnCurrentPage) && event.action
            == RendererEventAction::ItemInvoked ==> only_reads(
            call_start(api, RimeCall::RendererEvent(event)),
        ),
        !api.contains(RimeFunction::ChangePage) && (event.action
            == RendererEventAction::NavigatePrevious || event.action
            == RendererEventAction::NavigateNext) ==> only_reads(
            call_start(api, RimeCall::RendererEvent(event)),
        ),
        !api.contains(RimeFunction::ClearComposition) && event.action
            == RendererEventAction::Dismiss ==> only_reads(
            call_start(api, RimeCall::RendererEvent(event)),
        ),
        !api.contains(RimeFunction::ClearComposition) ==> call_start(
            api,
            RimeCall::ContextAction(ContextAction::Cancel),
        ) == (SessionStepView::Read { eaten: false, keep_commit: false }),
{
}

} // verus!
