//! The thread that runs a theme: which theme is tried, what reaches it, and what a
//! frame makes of what it shows.
use crate::json::{as_u64, copy, get, insert, kind, JsonKind};
#[allow(unused_imports)]
use crate::json::{json_member, json_tree, json_with, law_inserted_member, texts, Json};
use crate::message::{RenderPreedit, RenderSnapshot};
#[allow(unused_imports)]
use crate::message::{RenderPreeditView, RenderSnapshotView};
use crate::notifications::{invalid_configuration, theme_unavailable, UserNotification};
#[allow(unused_imports)]
use crate::notifications::{reported, unavailable_theme};
use crate::presentation::{is_mode_indicator_visible, is_view_visible};
#[allow(unused_imports)]
use crate::presentation::{indicator_visible, view_visible};
use crate::preview::synthetic_snapshot;
#[allow(unused_imports)]
use crate::preview::sample_frame;
#[allow(unused_imports)]
use crate::settings::{checked_view, has_kind, Checked};
use crate::settings::is_kind;
use crate::state::{same_content, validate, Mailbox, Owner};
#[allow(unused_imports)]
use crate::state::{
    accepts_frame, after_disconnect, after_render, frame_fault, same_frame_content, MailboxView,
};
use crate::text::{join2, join3, join_all, same_text};
#[allow(unused_imports)]
use crate::text::joined;
use crate::theme_adapter::{events, view};
#[allow(unused_imports)]
use crate::theme_adapter::{frame_of, theme_view};
use crate::theme_api::{CandidateView, EventSink, ThemeCapabilities};
#[allow(unused_imports)]
use crate::theme_api::{CandidateViewView, FrameView, NoticeSeverity, ThemeNoticeView};
#[allow(unused_imports)]
use crate::theme_window::text_view;
use vstd::prelude::*;

pub mod laws;

verus! {

/// The first number of messages that belong to an application.
pub const WM_APP: u32 = 0x8000;

/// Tells the thread that a frame waits.
pub const WM_RENDERER_UPDATE: u32 = 0x800a;

/// Tells the thread to end.
pub const WM_RENDERER_QUIT: u32 = 0x800b;

/// Tells the thread that the system's look has changed.
pub const WM_RENDERER_THEME: u32 = 0x800c;

pub const WM_SYSCOLORCHANGE: u32 = 0x0015;

pub const WM_SETTINGCHANGE: u32 = 0x001a;

pub const WM_TIMER: u32 = 0x0113;

pub const WM_THEMECHANGED: u32 = 0x031a;

/// How long a theme may take to start, in milliseconds.
pub const START_TIMEOUT: u64 = 10000;

/// How long the thread may take to end, in milliseconds.
pub const JOIN_TIMEOUT: u64 = 2000;

/// Number of the user's actions that may wait to be sent.
pub const EVENT_CAPACITY: usize = 32;

/// The theme that is tried for a configured name.
pub open spec fn known_theme(preferred: Seq<char>) -> Seq<char> {
    if preferred == "eleven"@ || preferred == "abc"@ || preferred == "void"@ || preferred
        == "wasm"@ {
        preferred
    } else {
        "ten"@
    }
}

/// The themes to try for a configured name, in order: the named one, and the one
/// that every system can show.
pub open spec fn theme_order(preferred: Seq<char>) -> Seq<Seq<char>> {
    let first = known_theme(preferred);
    if first == "ten"@ {
        seq![first]
    } else {
        seq![first, "ten"@]
    }
}

/// The themes to try for a configured name, in order.
pub fn theme_candidates(preferred: &str) -> (r: Vec<String>)
    ensures
        texts(r@) == theme_order(preferred@),
{
    let mut names: Vec<String> = Vec::new();
    if same_text(preferred, "eleven") || same_text(preferred, "abc") || same_text(preferred, "void")
        || same_text(preferred, "wasm") {
        names.push(preferred.to_owned());
        proof {
            reveal_strlit("eleven");
            reveal_strlit("abc");
            reveal_strlit("void");
            reveal_strlit("wasm");
            reveal_strlit("ten");
            assert("abc"@[0] == 'a');
            assert("ten"@[0] == 't');
        }
    }
    names.push("ten".to_owned());
    assert(texts(names@) =~= theme_order(preferred@));
    names
}

/// The library that a theme lies in.
pub fn theme_file(name: &str) -> (r: String)
    ensures
        r@ == "weasel_theme_"@ + name@ + ".dll"@,
{
    join3("weasel_theme_", name, ".dll")
}

/// A message of the thread's queue.
#[derive(Clone, Copy, Debug, PartialEq, Eq, Structural)]
pub struct UiMessage {
    /// Whether it is for a window, and not for the thread.
    pub to_window: bool,
    pub kind: u32,
    pub parameter: usize,
}

/// Whether a message is one for the thread, of a kind. Windows use the same
/// numbers for messages of their own.
pub open spec fn for_thread(message: UiMessage, kind: u32) -> bool {
    !message.to_window && message.kind == kind
}

/// Whether a message is one for the thread, of a kind.
pub fn is_thread_message(message: &UiMessage, kind: u32) -> (r: bool)
    ensures
        r == for_thread(*message, kind),
{
    !message.to_window && message.kind == kind
}

/// Why a theme did not start.
#[derive(Debug, PartialEq, Eq)]
pub enum AttemptError {
    /// It has cleaned up, and another may be tried.
    Failed(String),
    /// It may still be there, so no other may be tried.
    Fatal(String),
}

/// How an attempt to start a theme went.
pub ghost enum AttemptView {
    Started,
    Failed(Seq<char>),
    Fatal(Seq<char>),
}

/// The view of an attempt.
pub open spec fn attempt_view(outcome: Result<(), AttemptError>) -> AttemptView {
    match outcome {
        Ok(()) => AttemptView::Started,
        Err(AttemptError::Failed(error)) => AttemptView::Failed(error@),
        Err(AttemptError::Fatal(error)) => AttemptView::Fatal(error@),
    }
}

/// The themes to try, how many of them have failed, and why.
#[derive(Debug)]
pub struct Selection {
    pub candidates: Vec<String>,
    pub next: usize,
    pub failures: Vec<String>,
}

/// What a selection holds.
#[verifier::ext_equal]
pub ghost struct SelectionView {
    pub candidates: Seq<Seq<char>>,
    pub next: nat,
    pub failures: Seq<Seq<char>>,
}

impl View for Selection {
    type V = SelectionView;

    open spec fn view(&self) -> SelectionView {
        SelectionView {
            candidates: texts(self.candidates@),
            next: self.next as nat,
            failures: texts(self.failures@),
        }
    }
}

/// What a selection says.
#[derive(Debug, PartialEq, Eq)]
pub enum SelectionStep {
    /// The candidate of this index is tried.
    Try(usize),
    /// The candidate of this index runs.
    Selected(usize),
    /// No theme runs, and none is left to try.
    End(String),
}

/// What a selection says, over the content of its texts.
pub ghost enum SelectionStepView {
    Try(nat),
    Selected(nat),
    End(Seq<char>),
}

/// The view of what a selection says.
pub open spec fn selection_step(step: SelectionStep) -> SelectionStepView {
    match step {
        SelectionStep::Try(i) => SelectionStepView::Try(i as nat),
        SelectionStep::Selected(i) => SelectionStepView::Selected(i as nat),
        SelectionStep::End(error) => SelectionStepView::End(error@),
    }
}

/// No theme was tried.
pub open spec fn fresh_selection(candidates: Seq<Seq<char>>) -> SelectionView {
    SelectionView { candidates, next: 0, failures: Seq::empty() }
}

/// What a selection says before the next attempt: the next candidate is tried, or
/// all failures are reported.
pub open spec fn next_candidate(s: SelectionView) -> SelectionStepView {
    if s.next < s.candidates.len() {
        SelectionStepView::Try(s.next)
    } else {
        SelectionStepView::End(
            "no renderer theme could initialize: "@ + joined(s.failures, "; "@),
        )
    }
}

/// A selection after an attempt with its next candidate, and what it says.
pub open spec fn after_attempt(s: SelectionView, outcome: AttemptView) -> (
    SelectionView,
    SelectionStepView,
) {
    let name = s.candidates[s.next as int];
    match outcome {
        AttemptView::Started => (s, SelectionStepView::Selected(s.next)),
        AttemptView::Failed(error) => {
            let next = SelectionView {
                next: s.next + 1,
                failures: s.failures.push(name + ": "@ + error),
                ..s
            };
            (next, next_candidate(next))
        },
        AttemptView::Fatal(error) => (
            s,
            SelectionStepView::End("theme "@ + name + " startup aborted: "@ + error),
        ),
    }
}

impl Selection {
    /// No theme was tried.
    pub fn new(candidates: Vec<String>) -> (r: Self)
        ensures
            r@ == fresh_selection(texts(candidates@)),
    {
        let r = Selection { candidates, next: 0, failures: Vec::new() };
        assert(r@ =~= fresh_selection(texts(candidates@)));
        r
    }

    /// What is reported where no theme is left to try.
    pub fn exhausted(&self) -> (r: String)
        ensures
            r@ == "no renderer theme could initialize: "@ + joined(self@.failures, "; "@),
    {
        join2("no renderer theme could initialize: ", &join_all(&self.failures, "; "))
    }

    /// What the selection says before the next attempt.
    pub fn candidate(&self) -> (r: SelectionStep)
        ensures
            selection_step(r) == next_candidate(self@),
    {
        if self.next < self.candidates.len() {
            SelectionStep::Try(self.next)
        } else {
            SelectionStep::End(self.exhausted())
        }
    }

    /// Takes how the attempt with the next candidate went. The result is what the
    /// selection says now, and what the user is told of a candidate that failed.
    pub fn attempted(&mut self, outcome: Result<(), AttemptError>) -> (r: (
        SelectionStep,
        Option<UserNotification>,
    ))
        requires
            old(self)@.next < old(self)@.candidates.len(),
        ensures
            (final(self)@, selection_step(r.0)) == after_attempt(
                old(self)@,
                attempt_view(outcome),
            ),
            match attempt_view(outcome) {
                AttemptView::Failed(error) => r.1 matches Some(notice) && notice@
                    == unavailable_theme(old(self)@.candidates[old(self)@.next as int], error),
                _ => r.1 is None,
            },
    {
        let ghost s = self@;
        match outcome {
            Ok(()) => (SelectionStep::Selected(self.next), None),
            Err(AttemptError::Failed(error)) => {
                let name: &str = self.candidates[self.next].as_str();
                assert(name@ == s.candidates[s.next as int]);
                let line: String = join3(name, ": ", &error);
                let notice: UserNotification = theme_unavailable(name, &error);
                let count: usize = self.candidates.len();
                assert(self.next < count);
                self.failures.push(line);
                self.next = self.next + 1;
                assert(self@ =~= after_attempt(s, attempt_view(outcome)).0);
                (self.candidate(), Some(notice))
            },
            Err(AttemptError::Fatal(error)) => {
                let name: &str = self.candidates[self.next].as_str();
                assert(name@ == s.candidates[s.next as int]);
                let head: String = join3("theme ", name, " startup aborted: ");
                (SelectionStep::End(join2(&head, &error)), None)
            },
        }
    }
}

/// A selection after a history of attempts, and what it says. Once a theme runs or
/// none may be tried, no attempt is made any more.
pub open spec fn after_attempts(candidates: Seq<Seq<char>>, outcomes: Seq<AttemptView>) -> (
    SelectionView,
    SelectionStepView,
)
    decreases outcomes.len(),
{
    if outcomes.len() == 0 {
        (fresh_selection(candidates), next_candidate(fresh_selection(candidates)))
    } else {
        let before = after_attempts(candidates, outcomes.drop_last());
        if before.1 is Try {
            after_attempt(before.0, outcomes.last())
        } else {
            before
        }
    }
}

/// The lines for the candidates that have failed.
pub open spec fn failure_lines(candidates: Seq<Seq<char>>, outcomes: Seq<AttemptView>) -> Seq<
    Seq<char>,
> {
    Seq::new(
        outcomes.len(),
        |i: int| candidates[i] + ": "@ + outcomes[i]->Failed_0,
    )
}

/// While candidates fail, they are tried in their order, each once; where all have
/// failed, or there is none, the end names every one with its error.
pub proof fn law_failed_themes_fall_back_in_order(
    candidates: Seq<Seq<char>>,
    outcomes: Seq<AttemptView>,
)
    requires
        outcomes.len() <= candidates.len(),
        forall|i: int| 0 <= i < outcomes.len() ==> (#[trigger] outcomes[i]) is Failed,
    ensures
        after_attempts(candidates, outcomes).0 == (SelectionView {
            candidates,
            next: outcomes.len(),
            failures: failure_lines(candidates, outcomes),
        }),
        after_attempts(candidates, outcomes).1 == (if outcomes.len() < candidates.len() {
            SelectionStepView::Try(outcomes.len())
        } else {
            SelectionStepView::End(
                "no renderer theme could initialize: "@ + joined(
                    failure_lines(candidates, outcomes),
                    "; "@,
                ),
            )
        }),
    decreases outcomes.len(),
{
    let lines = failure_lines(candidates, outcomes);
    if outcomes.len() == 0 {
        assert(lines =~= Seq::<Seq<char>>::empty());
    } else {
        let rest = outcomes.drop_last();
        assert forall|i: int| 0 <= i < rest.len() implies (#[trigger] rest[i]) is Failed by {
            assert(outcomes[i] is Failed);
        }
        law_failed_themes_fall_back_in_order(candidates, rest);
        assert(outcomes[outcomes.len() - 1] is Failed);
        let name = candidates[outcomes.len() - 1];
        assert(lines =~= failure_lines(candidates, rest).push(
            name + ": "@ + outcomes.last()->Failed_0,
        ));
    }
}

/// The first candidate that does not merely fail ends the selection: it runs, or its
/// error is the end. No candidate after it is tried, whatever would have come of it.
pub proof fn law_first_success_or_fatal_error_ends_selection(
    candidates: Seq<Seq<char>>,
    outcomes: Seq<AttemptView>,
    k: int,
)
    requires
        0 <= k < outcomes.len(),
        k < candidates.len(),
        forall|i: int| 0 <= i < k ==> (#[trigger] outcomes[i]) is Failed,
        !(outcomes[k] is Failed),
    ensures
        after_attempts(candidates, outcomes).1 == (match outcomes[k] {
            AttemptView::Fatal(error) => SelectionStepView::End(
                "theme "@ + candidates[k] + " startup aborted: "@ + error,
            ),
            _ => SelectionStepView::Selected(k as nat),
        }),
    decreases outcomes.len(),
{
    let rest = outcomes.drop_last();
    if k == outcomes.len() - 1 {
        assert forall|i: int| 0 <= i < rest.len() implies (#[trigger] rest[i]) is Failed by {
            assert(outcomes[i] is Failed);
        }
        law_failed_themes_fall_back_in_order(candidates, rest);
    } else {
        assert(rest[k] == outcomes[k]);
        assert forall|i: int| 0 <= i < k implies (#[trigger] rest[i]) is Failed by {
            assert(outcomes[i] is Failed);
        }
        law_first_success_or_fatal_error_ends_selection(candidates, rest, k);
    }
}

/// How a theme's thread answered.
#[derive(Debug, PartialEq, Eq)]
pub enum Handshake {
    Ready(u32),
    /// It has failed; the outcome of waiting for its end.
    Failed { error: String, joined: Result<(), String> },
    /// It did not answer in time.
    Silent(String),
}

/// The thread that shows a theme, or why there is none.
pub fn start_attempt(handshake: Handshake) -> (r: Result<u32, AttemptError>)
    ensures
        match handshake {
            Handshake::Ready(id) => r == Ok::<u32, AttemptError>(id),
            Handshake::Failed { error, joined: Ok(()) } => r == Err::<u32, AttemptError>(
                AttemptError::Failed(error),
            ),
            Handshake::Failed { joined: Err(join_error), .. } => r == Err::<u32, AttemptError>(
                AttemptError::Fatal(join_error),
            ),
            Handshake::Silent(error) => r matches Err(AttemptError::Fatal(text)) && text@
                == "UI initialization did not complete: "@ + error@,
        },
{
    match handshake {
        Handshake::Ready(id) => Ok(id),
        Handshake::Failed { error, joined } => match joined {
            Ok(()) => Err(AttemptError::Failed(error)),
            Err(join_error) => Err(AttemptError::Fatal(join_error)),
        },
        Handshake::Silent(error) => Err(
            AttemptError::Fatal(join2("UI initialization did not complete: ", &error)),
        ),
    }
}

/// How waiting for the thread's end went.
pub fn join_ui_thread(ended: bool, panicked: bool) -> (r: Result<(), String>)
    ensures
        if !ended {
            r matches Err(error) && error@
                == "UI shutdown timed out or wait failed; renderer process must exit"@
        } else if panicked {
            r matches Err(error) && error@ == "UI thread panicked"@
        } else {
            r is Ok
        },
{
    if !ended {
        return Err(
            "UI shutdown timed out or wait failed; renderer process must exit".to_owned(),
        );
    }
    if panicked {
        return Err("UI thread panicked".to_owned());
    }
    Ok(())
}

/// How closing went: the thread's end comes first, then what it reported, then
/// whether it could be told.
pub fn close_result(
    joined: Result<(), String>,
    finished: Option<Result<(), String>>,
    wake: Result<(), String>,
) -> (r: Result<(), String>)
    ensures
        r == (match (joined, finished) {
            (Err(error), _) => Err::<(), String>(error),
            (Ok(()), Some(Err(error))) => Err::<(), String>(error),
            _ => wake,
        }),
{
    if let Err(error) = joined {
        return Err(error);
    }
    if let Some(Err(error)) = finished {
        return Err(error);
    }
    wake
}

/// Shortest and longest time for which a mode indicator may be shown, in
/// milliseconds.
pub const MIN_INDICATOR_DURATION: u64 = 100;

pub const MAX_INDICATOR_DURATION: u64 = 10000;

/// Whether the settings say for how long a mode indicator is shown.
pub open spec fn has_duration(settings: Json) -> bool {
    json_member(settings, "input_mode_indicator_duration_ms"@) matches Some(value) && (
    value matches Json::Number { unsigned, .. } && (unsigned matches Some(n)
        && MIN_INDICATOR_DURATION <= n <= MAX_INDICATOR_DURATION))
}

/// Settings with the default in place of a member that is not as it has to be.
pub open spec fn replaced(checked: Checked, defaults: Json, name: Seq<char>, valid: bool) ->
    Checked {
    if valid {
        checked
    } else {
        Checked {
            settings: json_with(checked.settings, name, json_member(defaults, name)->0),
            warnings: checked.warnings.push(name + " has an invalid type"@),
        }
    }
}

/// Settings that the renderer can use, and what was wrong with those that were
/// given. Settings that are no object are replaced as a whole.
pub open spec fn renderer_settings(settings: Json, defaults: Json) -> Checked {
    if !(settings is Object) {
        Checked { settings: defaults, warnings: Seq::empty() }
    } else {
        let start = Checked { settings, warnings: Seq::empty() };
        let inline = replaced(
            start,
            defaults,
            "inline_preedit"@,
            has_kind(settings, "inline_preedit"@, JsonKind::Bool),
        );
        let themes = replaced(
            inline,
            defaults,
            "themeSettings"@,
            has_kind(settings, "themeSettings"@, JsonKind::Object),
        );
        replaced(
            themes,
            defaults,
            "input_mode_indicator_duration_ms"@,
            has_duration(settings),
        )
    }
}

/// Whether defaults have all that the renderer reads.
pub open spec fn renderer_defaults(defaults: Json) -> bool {
    &&& json_member(defaults, "inline_preedit"@) is Some
    &&& json_member(defaults, "themeSettings"@) is Some
    &&& json_member(defaults, "input_mode_indicator_duration_ms"@) is Some
}

/// Whether defaults have all that the renderer reads.
pub fn has_renderer_defaults(defaults: &serde_json::Value) -> (r: bool)
    ensures
        r == renderer_defaults(json_tree(*defaults)),
{
    get(defaults, "inline_preedit").is_some() && get(defaults, "themeSettings").is_some() && get(
        defaults,
        "input_mode_indicator_duration_ms",
    ).is_some()
}

/// Whether settings hold all that the renderer reads, each as it has to be.
pub open spec fn renderer_usable(settings: Json) -> bool {
    &&& settings is Object
    &&& has_kind(settings, "inline_preedit"@, JsonKind::Bool)
    &&& has_kind(settings, "themeSettings"@, JsonKind::Object)
    &&& has_duration(settings)
}

/// Whatever settings were given, with usable defaults the renderer gets usable ones;
/// those that are usable stay as they are, with nothing to report, so that doing it
/// twice changes nothing.
pub proof fn law_renderer_settings_become_usable(settings: Json, defaults: Json)
    requires
        renderer_usable(defaults),
    ensures
        renderer_usable(renderer_settings(settings, defaults).settings),
        renderer_usable(settings) ==> renderer_settings(settings, defaults) == (Checked {
            settings,
            warnings: Seq::empty(),
        }),
        ({
            let once = renderer_settings(settings, defaults).settings;
            renderer_settings(once, defaults) == (Checked {
                settings: once,
                warnings: Seq::empty(),
            })
        }),
{
    if settings is Object {
        let inline = "inline_preedit"@;
        let themes = "themeSettings"@;
        let duration = "input_mode_indicator_duration_ms"@;
        reveal_strlit("inline_preedit");
        reveal_strlit("themeSettings");
        reveal_strlit("input_mode_indicator_duration_ms");
        assert(inline.len() == 14 && themes.len() == 13 && duration.len() == 32);
        let start = Checked { settings, warnings: Seq::empty() };
        let first = replaced(
            start,
            defaults,
            inline,
            has_kind(settings, inline, JsonKind::Bool),
        );
        let second = replaced(
            first,
            defaults,
            themes,
            has_kind(settings, themes, JsonKind::Object),
        );
        lemma_replaced(start, defaults, inline, themes);
        lemma_replaced(start, defaults, inline, duration);
        lemma_replaced(first, defaults, themes, inline);
        lemma_replaced(first, defaults, themes, duration);
        lemma_replaced(second, defaults, duration, inline);
        lemma_replaced(second, defaults, duration, themes);
    }
}

/// A member that was replaced is the default's, and the others stay.
proof fn lemma_replaced(checked: Checked, defaults: Json, name: Seq<char>, other: Seq<char>)
    requires
        checked.settings is Object,
        json_member(defaults, name) is Some,
        other != name,
    ensures
        ({
            let next = replaced(checked, defaults, name, false).settings;
            &&& next is Object
            &&& json_member(next, name) == json_member(defaults, name)
            &&& json_member(next, other) == json_member(checked.settings, other)
        }),
{
    law_inserted_member(
        checked.settings->Object_0,
        name,
        json_member(defaults, name)->0,
        other,
    );
}

/// Whether the settings say for how long a mode indicator is shown.
fn duration_is_valid(settings: &serde_json::Value) -> (r: bool)
    ensures
        r == has_duration(json_tree(*settings)),
{
    match get(settings, "input_mode_indicator_duration_ms") {
        Some(value) => match as_u64(value) {
            Some(n) => MIN_INDICATOR_DURATION <= n && n <= MAX_INDICATOR_DURATION,
            None => false,
        },
        None => false,
    }
}

/// Puts the default in place of a member that is not as it has to be.
fn replace_member(
    root: &mut serde_json::Value,
    warnings: &mut Vec<String>,
    defaults: &serde_json::Value,
    name: &str,
    valid: bool,
)
    requires
        json_tree(*old(root)) is Object,
        json_member(json_tree(*defaults), name@) is Some,
    ensures
        json_tree(*final(root)) is Object,
        checked_view(*final(root), final(warnings)@) == replaced(
            checked_view(*old(root), old(warnings)@),
            json_tree(*defaults),
            name@,
            valid,
        ),
{
    if !valid {
        if let Some(default) = get(defaults, name) {
            insert(root, name, copy(default));
        }
        let ghost before = texts(warnings@);
        let text: String = join2(name, " has an invalid type");
        warnings.push(text);
        assert(texts(warnings@) =~= before.push(text@));
    }
}

/// Replaces what the renderer cannot use in the settings by the defaults. The
/// notification says what was wrong.
pub fn normalized_renderer_settings(settings: serde_json::Value, defaults: &serde_json::Value) -> (r:
    (serde_json::Value, Option<UserNotification>))
    requires
        renderer_defaults(json_tree(*defaults)),
    ensures
        ({
            let checked = renderer_settings(json_tree(settings), json_tree(*defaults));
            &&& json_tree(r.0) == checked.settings
            &&& match r.1 {
                Some(notice) => checked.warnings.len() > 0 && notice@ == reported(
                    "renderer"@,
                    ThemeNoticeView {
                        severity: NoticeSeverity::Warning,
                        code: "configuration.invalid"@,
                        message: "渲染配置无效，已使用内置默认值。"@,
                        details: joined(checked.warnings, "; "@),
                    },
                ),
                None => checked.warnings.len() == 0,
            }
        }),
{
    if kind(&settings) != JsonKind::Object {
        return (copy(defaults), None);
    }
    let inline: bool = is_kind(&settings, "inline_preedit", JsonKind::Bool);
    let themes: bool = is_kind(&settings, "themeSettings", JsonKind::Object);
    let duration: bool = duration_is_valid(&settings);
    let mut root: serde_json::Value = settings;
    let mut warnings: Vec<String> = Vec::new();
    assert(texts(warnings@) =~= Seq::<Seq<char>>::empty());
    replace_member(&mut root, &mut warnings, defaults, "inline_preedit", inline);
    replace_member(&mut root, &mut warnings, defaults, "themeSettings", themes);
    replace_member(
        &mut root,
        &mut warnings,
        defaults,
        "input_mode_indicator_duration_ms",
        duration,
    );
    assert(texts(warnings@).len() == warnings@.len());
    let notice: Option<UserNotification> = if warnings.len() > 0 {
        Some(invalid_configuration(&join_all(&warnings, "; ")))
    } else {
        None
    };
    (root, notice)
}

/// What the thread is told.
pub enum UiCommand {
    Render(Owner, RenderSnapshot),
    Disconnect(Owner),
    Quit,
}

/// The mailbox after a command, and the message that has to wake the thread, where
/// the theme interface found `checked` wrong with the preedit of the command's
/// frame.
pub open spec fn after_command(
    m: MailboxView,
    command: UiCommand,
    checked: Option<Seq<char>>,
) -> (MailboxView, Option<u32>) {
    match command {
        UiCommand::Render(owner, snapshot) => if frame_fault(snapshot@, checked) is Some
            || !accepts_frame(m, owner, snapshot@.sequence) {
            (m, None)
        } else {
            woken_mailbox(after_render(m, owner, snapshot@))
        },
        UiCommand::Disconnect(owner) => if !m.closed && m.owner == Some(owner) {
            woken_mailbox(after_disconnect(m, owner))
        } else {
            (m, None)
        },
        UiCommand::Quit => (
            MailboxView { closed: true, pending: None, ..m },
            Some(WM_RENDERER_QUIT),
        ),
    }
}

/// A mailbox in which something waits: the thread is woken once, until it looks.
pub open spec fn woken_mailbox(m: MailboxView) -> (MailboxView, Option<u32>) {
    (
        MailboxView { wake_pending: true, ..m },
        if m.wake_pending {
            None
        } else {
            Some(WM_RENDERER_UPDATE)
        },
    )
}

/// Hands a command to the thread's mailbox; `checked` is what the theme interface
/// found wrong with the preedit of its frame. The result is the message that has to
/// wake the thread, or why the command's frame is refused. What an older connection
/// sends is ignored.
pub fn send(mailbox: &mut Mailbox, command: UiCommand, checked: Option<String>) -> (r: Result<
    Option<u32>,
    String,
>)
    ensures
        (final(mailbox)@, match r {
            Ok(message) => message,
            Err(_) => None,
        }) == after_command(old(mailbox)@, command, text_view(checked)),
        match r {
            Ok(_) => !(command matches UiCommand::Render(_, snapshot) && frame_fault(
                snapshot@,
                text_view(checked),
            ) is Some),
            Err(error) => command matches UiCommand::Render(_, snapshot) && frame_fault(
                snapshot@,
                text_view(checked),
            ) == Some(error@),
        },
{
    match command {
        UiCommand::Render(owner, snapshot) => {
            validate(&snapshot, checked)?;
            if !mailbox.render(owner, snapshot) {
                return Ok(None);
            }
        },
        UiCommand::Disconnect(owner) => {
            if !mailbox.disconnect(owner) {
                return Ok(None);
            }
        },
        UiCommand::Quit => {
            mailbox.close();
            return Ok(Some(WM_RENDERER_QUIT));
        },
    }
    if mailbox.schedule_wake() {
        Ok(Some(WM_RENDERER_UPDATE))
    } else {
        Ok(None)
    }
}

/// Takes whether the thread could be woken; where not, the mailbox is closed.
pub fn woken(mailbox: &mut Mailbox, posted: bool) -> (r: Result<(), String>)
    ensures
        r is Ok <==> posted,
        r matches Err(error) ==> error@ == "could not wake UI thread"@,
        final(mailbox)@ == (if posted {
            old(mailbox)@
        } else {
            MailboxView { closed: true, ..old(mailbox)@ }
        }),
{
    if posted {
        return Ok(());
    }
    mailbox.seal();
    Err("could not wake UI thread".to_owned())
}

/// Whether a connection's frame is the one that is shown.
pub fn is_owner(mailbox: &Mailbox, owner: Owner) -> (r: bool)
    ensures
        r == (!mailbox@.closed && mailbox@.owner == Some(owner)),
{
    mailbox.is_owner(owner)
}

/// What is shown, and for whom.
pub struct Presentation {
    pub capabilities: ThemeCapabilities,
    pub owner: Owner,
    pub last: Option<RenderSnapshot>,
    /// Number of the content; what was done on another is refused.
    pub content_id: u64,
    /// The indicator that is shown, and the time at which it goes, in milliseconds.
    pub indicator_deadline: Option<(u64, u64)>,
    /// For how long an indicator is shown, in milliseconds.
    pub indicator_duration: u64,
}

#[verifier::ext_equal]
pub ghost struct PresentationView {
    pub capabilities: ThemeCapabilities,
    pub owner: Owner,
    pub last: Option<RenderSnapshotView>,
    pub content_id: u64,
    pub indicator_deadline: Option<(u64, u64)>,
    pub indicator_duration: u64,
}

/// The view of an optional frame.
pub open spec fn optional_frame(snapshot: Option<RenderSnapshot>) -> Option<RenderSnapshotView> {
    match snapshot {
        Some(snapshot) => Some(snapshot@),
        None => None,
    }
}

impl View for Presentation {
    type V = PresentationView;

    open spec fn view(&self) -> PresentationView {
        PresentationView {
            capabilities: self.capabilities,
            owner: self.owner,
            last: optional_frame(self.last),
            content_id: self.content_id,
            indicator_deadline: self.indicator_deadline,
            indicator_duration: self.indicator_duration,
        }
    }
}

/// What the theme is asked to show.
pub enum Shown {
    Conceal,
    Render(CandidateView, EventSink),
}

pub ghost enum ShownView {
    Conceal,
    Render(CandidateViewView, FrameView),
}

impl View for Shown {
    type V = ShownView;

    open spec fn view(&self) -> ShownView {
        match *self {
            Shown::Conceal => ShownView::Conceal,
            Shown::Render(view, events) => ShownView::Render(view@, events@),
        }
    }
}

/// Whether a theme shows a view: it is visible, or the theme stays while a session
/// is active, or it has an indicator that the theme shows.
pub open spec fn renders(capabilities: ThemeCapabilities, view: CandidateViewView) -> bool {
    view_visible(view) || (capabilities.resident && view.active) || (capabilities.mode_indicator
        && indicator_visible(view))
}

/// What a theme is asked to show of a frame.
pub open spec fn shown_of(p: PresentationView, s: RenderSnapshotView, content_id: u64) -> ShownView {
    let view = theme_view(s, content_id);
    if renders(p.capabilities, view) {
        ShownView::Render(view, frame_of(p.owner, s))
    } else {
        ShownView::Conceal
    }
}

/// A frame, without an indicator that is not to be shown: candidates and
/// compositions come first, and a theme may show none. An indicator goes at its
/// time, which the same indicator does not get anew.
pub open spec fn with_deadline(p: PresentationView, s: RenderSnapshotView, now: u64) -> (
    RenderSnapshotView,
    Option<(u64, u64)>,
) {
    let plain = RenderSnapshotView { mode_indicator: None, ..s };
    match s.mode_indicator {
        Some(indicator) if p.capabilities.mode_indicator && !s.visible && s.items.len() == 0
            && s.preedit is None => {
            let deadline = match p.indicator_deadline {
                Some((id, deadline)) if id == indicator.id => deadline,
                _ => (now + p.indicator_duration) as u64,
            };
            if now >= deadline {
                (plain, None)
            } else {
                (s, Some((indicator.id, deadline)))
            }
        },
        _ => (plain, None),
    }
}

/// The number of a frame's content: that of the last frame where the content is the
/// same, and else the next one.
pub open spec fn content_number(p: PresentationView, s: RenderSnapshotView) -> Option<u64> {
    if p.last matches Some(last) && same_frame_content(last, s) {
        Some(p.content_id)
    } else if p.content_id == u64::MAX {
        None
    } else {
        Some((p.content_id + 1) as u64)
    }
}

/// A presentation that belongs to a connection: what another one showed is gone.
pub open spec fn owned(p: PresentationView, owner: Owner) -> PresentationView {
    if p.owner == owner {
        p
    } else {
        PresentationView { owner, last: None, indicator_deadline: None, ..p }
    }
}

/// A presentation after a frame of a connection, before it was shown, and what the
/// theme is asked to show.
pub open spec fn applied(
    p: PresentationView,
    owner: Owner,
    snapshot: Option<RenderSnapshotView>,
    now: u64,
) -> (PresentationView, Option<RenderSnapshotView>, Result<ShownView, Seq<char>>) {
    let mine = owned(p, owner);
    match snapshot {
        Some(s) => {
            let (frame, deadline) = with_deadline(mine, s, now);
            let next = PresentationView { indicator_deadline: deadline, ..mine };
            match content_number(next, frame) {
                Some(content_id) => (
                    PresentationView { content_id, ..next },
                    Some(frame),
                    Ok(shown_of(next, frame, content_id)),
                ),
                None => (next, None, Err("presentation identity exhausted"@)),
            }
        },
        None => (
            PresentationView { last: None, indicator_deadline: None, ..mine },
            None,
            Ok(ShownView::Conceal),
        ),
    }
}

/// What applying a frame asks for.
pub struct Apply {
    /// Take what another connection showed off the screen first.
    pub conceal_first: bool,
    /// What to show; an error ends the thread.
    pub shown: Result<Shown, String>,
    /// The frame, to be remembered once it is shown.
    pub frame: Option<RenderSnapshot>,
}

/// The view of what is to be shown.
pub open spec fn shown_view(shown: Result<Shown, String>) -> Result<ShownView, Seq<char>> {
    match shown {
        Ok(shown) => Ok(shown@),
        Err(error) => Err(error@),
    }
}

impl Presentation {
    /// A presentation of a theme that has shown nothing.
    pub fn new(capabilities: ThemeCapabilities, indicator_duration: u64) -> (r: Self)
        ensures
            r@ == (PresentationView {
                capabilities,
                owner: 0,
                last: None,
                content_id: 0,
                indicator_deadline: None,
                indicator_duration,
            }),
    {
        Presentation {
            capabilities,
            owner: 0,
            last: None,
            content_id: 0,
            indicator_deadline: None,
            indicator_duration,
        }
    }

    /// Whether the theme shows a view.
    pub fn should_render(&self, view: &CandidateView) -> (r: bool)
        ensures
            r == renders(self@.capabilities, view@),
    {
        is_view_visible(view) || (self.capabilities.resident && view.active) || (
        self.capabilities.mode_indicator && is_mode_indicator_visible(view))
    }

    /// Takes an indicator out of a frame where it is not to be shown, and keeps the
    /// time at which one goes.
    pub fn update_indicator(&mut self, snapshot: &mut RenderSnapshot, now: u64)
        requires
            now <= u64::MAX - old(self)@.indicator_duration,
        ensures
            (final(snapshot)@, final(self)@.indicator_deadline) == with_deadline(
                old(self)@,
                old(snapshot)@,
                now,
            ),
            final(self)@ == (PresentationView {
                indicator_deadline: final(self)@.indicator_deadline,
                ..old(self)@
            }),
    {
        if !self.capabilities.mode_indicator || snapshot.visible || snapshot.items.len() > 0
            || snapshot.preedit.is_some() {
            snapshot.mode_indicator = None;
        }
        match snapshot.mode_indicator {
            None => {
                self.indicator_deadline = None;
            },
            Some(indicator) => {
                let deadline: u64 = match self.indicator_deadline {
                    Some((id, deadline)) => if id == indicator.id {
                        deadline
                    } else {
                        now + self.indicator_duration
                    },
                    None => now + self.indicator_duration,
                };
                if now >= deadline {
                    snapshot.mode_indicator = None;
                    self.indicator_deadline = None;
                } else {
                    self.indicator_deadline = Some((indicator.id, deadline));
                }
            },
        }
    }

    /// The time at which an indicator goes.
    pub fn indicator_deadline(&self) -> (r: Option<u64>)
        ensures
            r == (match self@.indicator_deadline {
                Some((_, deadline)) => Some(deadline),
                None => None,
            }),
    {
        match self.indicator_deadline {
            Some((_, deadline)) => Some(deadline),
            None => None,
        }
    }

    /// What the theme is asked to show of a frame.
    fn show(&self, snapshot: &RenderSnapshot, content_id: u64) -> (r: Shown)
        ensures
            r@ == shown_of(self@, snapshot@, content_id),
    {
        let view: CandidateView = view(snapshot, content_id);
        if self.should_render(&view) {
            Shown::Render(view, events(self.owner, snapshot))
        } else {
            Shown::Conceal
        }
    }

    /// Takes a connection's frame, or that it has none any more.
    pub fn apply(&mut self, owner: Owner, snapshot: Option<RenderSnapshot>, now: u64) -> (r: Apply)
        requires
            now <= u64::MAX - old(self)@.indicator_duration,
        ensures
            r.conceal_first == (old(self)@.owner != owner),
            (final(self)@, optional_frame(r.frame), shown_view(r.shown)) == applied(
                old(self)@,
                owner,
                optional_frame(snapshot),
                now,
            ),
    {
        let conceal_first: bool = self.owner != owner;
        if conceal_first {
            self.last = None;
            self.indicator_deadline = None;
        }
        self.owner = owner;
        let ghost mine = self@;
        match snapshot {
            Some(given) => {
                let mut frame: RenderSnapshot = given;
                self.update_indicator(&mut frame, now);
                let same: bool = match &self.last {
                    Some(last) => same_content(last, &frame),
                    None => false,
                };
                if !same {
                    if self.content_id == u64::MAX {
                        return Apply {
                            conceal_first,
                            shown: Err("presentation identity exhausted".to_owned()),
                            frame: None,
                        };
                    }
                    self.content_id = self.content_id + 1;
                }
                let shown: Shown = self.show(&frame, self.content_id);
                Apply { conceal_first, shown: Ok(shown), frame: Some(frame) }
            },
            None => {
                self.last = None;
                self.indicator_deadline = None;
                Apply { conceal_first, shown: Ok(Shown::Conceal), frame: None }
            },
        }
    }

    /// Remembers a frame that was shown. One that the theme could not show is not
    /// remembered.
    pub fn remember(&mut self, frame: Option<RenderSnapshot>)
        ensures
            final(self)@ == (PresentationView { last: optional_frame(frame), ..old(self)@ }),
    {
        self.last = frame;
    }

    /// Takes an indicator off the screen when its time has come. The theme gets the
    /// frame without it, so that nothing else goes.
    pub fn expire_indicator(&mut self, now: u64) -> (r: Result<Option<Shown>, String>)
        ensures
            ({
                let (next, shown) = expired(old(self)@, now);
                &&& final(self)@ == next
                &&& match r {
                    Ok(Some(s)) => shown == Ok::<Option<ShownView>, Seq<char>>(Some(s@)),
                    Ok(None) => shown == Ok::<Option<ShownView>, Seq<char>>(None),
                    Err(error) => shown == Err::<Option<ShownView>, Seq<char>>(error@),
                }
            }),
    {
        let (id, deadline): (u64, u64) = match self.indicator_deadline {
            Some(pair) => pair,
            None => {
                return Ok(None);
            },
        };
        if now < deadline {
            return Ok(None);
        }
        self.indicator_deadline = None;
        let mut frame: RenderSnapshot = match self.last.take() {
            Some(frame) => frame,
            None => {
                return Ok(None);
            },
        };
        let same: bool = match frame.mode_indicator {
            Some(indicator) => indicator.id == id,
            None => false,
        };
        if !same {
            self.last = Some(frame);
            return Ok(None);
        }
        frame.mode_indicator = None;
        if self.content_id == u64::MAX {
            self.last = Some(frame);
            return Err("presentation identity exhausted".to_owned());
        }
        self.content_id = self.content_id + 1;
        let view: CandidateView = view(&frame, self.content_id);
        let sink: EventSink = events(self.owner, &frame);
        self.last = Some(frame);
        Ok(Some(Shown::Render(view, sink)))
    }

    /// What the theme is asked to show after it has dropped its colours: the last
    /// frame, if it belongs to the connection that is shown now.
    pub fn refresh(&self, current_owner: Option<Owner>) -> (r: Option<Shown>)
        ensures
            match r {
                Some(shown) => refreshed(self@, current_owner) == Some(shown@),
                None => refreshed(self@, current_owner) is None,
            },
    {
        if current_owner != Some(self.owner) {
            return None;
        }
        match &self.last {
            Some(frame) => match self.show(frame, self.content_id) {
                Shown::Conceal => None,
                Shown::Render(view, events) => Some(Shown::Render(view, events)),
            },
            None => None,
        }
    }

    /// The delay after which to look for the indicator's time again, in
    /// milliseconds; none where no indicator is shown.
    pub fn timer_delay(&self, now: u64) -> (r: Option<u32>)
        ensures
            r == (match self@.indicator_deadline {
                Some((_, deadline)) => Some(delay_until(deadline, now)),
                None => None,
            }),
    {
        match self.indicator_deadline {
            Some((_, deadline)) => {
                if deadline <= now {
                    return Some(1);
                }
                let left: u64 = deadline - now;
                if left > 0xffff_ffff {
                    Some(u32::MAX)
                } else {
                    Some(left as u32)
                }
            },
            None => None,
        }
    }

    /// Takes that no timer could be set: the indicator goes at once.
    pub fn timer_failed(&mut self, now: u64) -> (r: Result<Option<Shown>, String>)
        ensures
            ({
                let due = PresentationView {
                    indicator_deadline: match old(self)@.indicator_deadline {
                        Some((id, _)) => Some((id, now)),
                        None => None,
                    },
                    ..old(self)@
                };
                let (next, shown) = expired(due, now);
                &&& final(self)@ == next
                &&& match r {
                    Ok(Some(s)) => shown == Ok::<Option<ShownView>, Seq<char>>(Some(s@)),
                    Ok(None) => shown == Ok::<Option<ShownView>, Seq<char>>(None),
                    Err(error) => shown == Err::<Option<ShownView>, Seq<char>>(error@),
                }
            }),
    {
        if let Some((id, _)) = self.indicator_deadline {
            self.indicator_deadline = Some((id, now));
        }
        self.expire_indicator(now)
    }
}

/// The delay up to a time: at least one millisecond, and no more than a timer takes.
pub open spec fn delay_until(deadline: u64, now: u64) -> u32 {
    if deadline <= now {
        1
    } else if deadline - now > u32::MAX {
        u32::MAX
    } else {
        (deadline - now) as u32
    }
}

/// A presentation after an indicator's time has come, and what the theme is asked
/// to show.
pub open spec fn expired(p: PresentationView, now: u64) -> (
    PresentationView,
    Result<Option<ShownView>, Seq<char>>,
) {
    match (p.indicator_deadline, p.last) {
        (Some((id, deadline)), last) if now >= deadline => {
            let gone = PresentationView { indicator_deadline: None, ..p };
            match last {
                Some(s) if (s.mode_indicator matches Some(indicator) && indicator.id == id) => {
                    let frame = RenderSnapshotView { mode_indicator: None, ..s };
                    let kept = PresentationView { last: Some(frame), ..gone };
                    if p.content_id == u64::MAX {
                        (kept, Err("presentation identity exhausted"@))
                    } else {
                        let content_id = (p.content_id + 1) as u64;
                        (
                            PresentationView { content_id, ..kept },
                            Ok(
                                Some(
                                    ShownView::Render(
                                        theme_view(frame, content_id),
                                        frame_of(p.owner, frame),
                                    ),
                                ),
                            ),
                        )
                    }
                },
                _ => (gone, Ok(None)),
            }
        },
        _ => (p, Ok(None)),
    }
}

/// What the theme is asked to show after it has dropped its colours.
pub open spec fn refreshed(p: PresentationView, current_owner: Option<Owner>) -> Option<ShownView> {
    match p.last {
        Some(s) if current_owner == Some(p.owner) => match shown_of(p, s, p.content_id) {
            ShownView::Conceal => None,
            shown => Some(shown),
        },
        _ => None,
    }
}

/// What the thread does with a message.
#[derive(Debug, PartialEq, Eq)]
pub enum MessagePlan {
    /// End with an error.
    Fail(String),
    Quit,
    /// Apply what waits; then, as far as set, look for the indicator's time, follow
    /// the system's look, and hand the message to its window.
    Handle { expire: bool, refresh: bool, dispatch: bool },
}

/// What the thread does with a message, over the content of its texts.
pub ghost enum MessagePlanView {
    Fail(Seq<char>),
    Quit,
    Handle { expire: bool, refresh: bool, dispatch: bool },
}

/// The view of what the thread does with a message.
pub open spec fn plan_view(plan: MessagePlan) -> MessagePlanView {
    match plan {
        MessagePlan::Fail(error) => MessagePlanView::Fail(error@),
        MessagePlan::Quit => MessagePlanView::Quit,
        MessagePlan::Handle { expire, refresh, dispatch } => MessagePlanView::Handle {
            expire,
            refresh,
            dispatch,
        },
    }
}

/// What the thread does with a message.
pub open spec fn planned(message: UiMessage, status: i32, indicator_timer: usize) ->
    MessagePlanView {
    if status == -1 {
        MessagePlanView::Fail("GetMessageW failed"@)
    } else if status == 0 || for_thread(message, WM_RENDERER_QUIT) {
        MessagePlanView::Quit
    } else {
        MessagePlanView::Handle {
            expire: for_thread(message, WM_TIMER) && message.parameter == indicator_timer,
            refresh: for_thread(message, WM_RENDERER_THEME) || message.kind == WM_SETTINGCHANGE
                || message.kind == WM_THEMECHANGED || message.kind == WM_SYSCOLORCHANGE,
            dispatch: !for_thread(message, WM_RENDERER_UPDATE) && !for_thread(
                message,
                WM_RENDERER_THEME,
            ) && message.kind != WM_TIMER,
        }
    }
}

/// What the thread does with a message: `status` is what the system returned for
/// it, and `indicator_timer` the timer that was set for an indicator.
pub fn message_plan(message: &UiMessage, status: i32, indicator_timer: usize) -> (r: MessagePlan)
    ensures
        plan_view(r) == planned(*message, status, indicator_timer),
{
    if status == -1 {
        return MessagePlan::Fail("GetMessageW failed".to_owned());
    }
    if status == 0 || is_thread_message(message, WM_RENDERER_QUIT) {
        return MessagePlan::Quit;
    }
    MessagePlan::Handle {
        expire: is_thread_message(message, WM_TIMER) && message.parameter == indicator_timer,
        refresh: is_thread_message(message, WM_RENDERER_THEME) || message.kind == WM_SETTINGCHANGE
            || message.kind == WM_THEMECHANGED || message.kind == WM_SYSCOLORCHANGE,
        dispatch: !is_thread_message(message, WM_RENDERER_UPDATE) && !is_thread_message(
            message,
            WM_RENDERER_THEME,
        ) && message.kind != WM_TIMER,
    }
}

/// What the thread does before it waits for a message: it leaves its loop once the
/// mailbox is closed, and else there is nothing to do but wait.
pub fn turn_begins(mailbox: &Mailbox) -> (r: Option<MessagePlan>)
    ensures
        r == (if mailbox@.closed {
            Some(MessagePlan::Quit)
        } else {
            None
        }),
{
    if mailbox.is_closed() {
        Some(MessagePlan::Quit)
    } else {
        None
    }
}

/// Something that the thread does for a message.
#[derive(Clone, Copy, Debug, PartialEq, Eq, Structural)]
pub enum LoopAction {
    /// Show what waited in the mailbox.
    Apply,
    /// Set the timer for the indicator's time, in place of the one that was set.
    SyncTimer,
    /// Look for the indicator's time.
    Expire,
    /// Follow the system's look.
    Refresh,
    /// Hand the message to its window.
    Dispatch,
    /// Ask the theme for an error of its window.
    CheckHealth,
    /// Report what the theme wants the user to know.
    DrainNotices,
    /// Drop the timer.
    KillTimer,
    /// Take the theme off the screen.
    Conceal,
}

/// What the thread does for a message, in order: what waits is shown first, and the
/// theme is asked for its errors last.
pub open spec fn message_actions(
    pending: bool,
    expire: bool,
    refresh: bool,
    dispatch: bool,
) -> Seq<LoopAction> {
    let shown = if pending {
        seq![LoopAction::Apply, LoopAction::SyncTimer]
    } else {
        Seq::empty()
    };
    let timed = if expire {
        seq![LoopAction::Expire, LoopAction::SyncTimer]
    } else {
        Seq::empty()
    };
    let looked = if refresh {
        seq![LoopAction::Refresh]
    } else {
        Seq::empty()
    };
    let handed = if dispatch {
        seq![LoopAction::Dispatch]
    } else {
        Seq::empty()
    };
    shown + timed + looked + handed + seq![LoopAction::CheckHealth, LoopAction::DrainNotices]
}

/// What the thread does for a message, in order; `pending` says whether something
/// waited in the mailbox. An error ends the thread at once, but for one of the
/// theme's health, which ends it after the notices.
pub fn loop_actions(pending: bool, expire: bool, refresh: bool, dispatch: bool) -> (r: Vec<
    LoopAction,
>)
    ensures
        r@ == message_actions(pending, expire, refresh, dispatch),
{
    let mut actions: Vec<LoopAction> = Vec::new();
    if pending {
        actions.push(LoopAction::Apply);
        actions.push(LoopAction::SyncTimer);
    }
    if expire {
        actions.push(LoopAction::Expire);
        actions.push(LoopAction::SyncTimer);
    }
    if refresh {
        actions.push(LoopAction::Refresh);
    }
    if dispatch {
        actions.push(LoopAction::Dispatch);
    }
    actions.push(LoopAction::CheckHealth);
    actions.push(LoopAction::DrainNotices);
    assert(actions@ =~= message_actions(pending, expire, refresh, dispatch));
    actions
}

/// What the thread does when it was asked to end, in order.
pub open spec fn end_actions(timer_set: bool) -> Seq<LoopAction> {
    let dropped = if timer_set {
        seq![LoopAction::KillTimer]
    } else {
        Seq::empty()
    };
    dropped + seq![LoopAction::Conceal, LoopAction::DrainNotices]
}

/// What the thread does when it was asked to end, in order.
pub fn leave_loop(indicator_timer: usize) -> (r: Vec<LoopAction>)
    ensures
        r@ == end_actions(indicator_timer != 0),
{
    let mut actions: Vec<LoopAction> = Vec::new();
    if indicator_timer != 0 {
        actions.push(LoopAction::KillTimer);
    }
    actions.push(LoopAction::Conceal);
    actions.push(LoopAction::DrainNotices);
    assert(actions@ =~= end_actions(indicator_timer != 0));
    actions
}

/// After every message, whatever it was, the theme is asked for its errors, and what
/// it wants the user to know is reported after that. A frame that was shown, and an
/// indicator that was looked for, set the timer anew before anything else.
pub proof fn law_every_message_ends_with_a_health_check(
    pending: bool,
    expire: bool,
    refresh: bool,
    dispatch: bool,
)
    ensures
        ({
            let actions = message_actions(pending, expire, refresh, dispatch);
            &&& actions.len() >= 2
            &&& actions[actions.len() - 2] == LoopAction::CheckHealth
            &&& actions[actions.len() - 1] == LoopAction::DrainNotices
            &&& forall|i: int|
                0 <= i < actions.len() && (#[trigger] actions[i] == LoopAction::Apply || actions[i]
                    == LoopAction::Expire) ==> actions[i + 1] == LoopAction::SyncTimer
        }),
{
}

/// The preview's first frame: with a composition, where the renderer is to show one
/// and the theme can.
pub fn preview_frame(inline_preedit: bool, capabilities: ThemeCapabilities) -> (r: RenderSnapshot)
    ensures
        r@ == (RenderSnapshotView {
            preedit: if !inline_preedit && capabilities.preedit {
                Some(RenderPreeditView { text: "nihao"@, cursor_utf16: 5 })
            } else {
                None
            },
            ..sample_frame()
        }),
{
    let mut snapshot: RenderSnapshot = synthetic_snapshot();
    if !inline_preedit && capabilities.preedit {
        snapshot.preedit = Some(RenderPreedit { text: "nihao".to_owned(), cursor_utf16: 5 });
    }
    snapshot
}

/// A frame without a valid anchor is not shown, whatever it holds, unless the theme
/// stays while a session is active.
pub proof fn law_unanchored_frames_are_not_shown(
    p: PresentationView,
    s: RenderSnapshotView,
    content_id: u64,
)
    requires
        !p.capabilities.resident,
        !(s.anchor matches Some(anchor) && anchor.valid),
    ensures
        shown_of(p, s, content_id) == ShownView::Conceal,
{
}

/// Only the connection whose frame is remembered sees it again when the look
/// changes.
pub proof fn law_refresh_keeps_to_the_owner(p: PresentationView, current_owner: Option<Owner>)
    requires
        current_owner != Some(p.owner),
    ensures
        refreshed(p, current_owner) is None,
{
}

/// Showing the same indicator again does not give it more time.
pub proof fn law_indicator_keeps_its_deadline(
    p: PresentationView,
    first: RenderSnapshotView,
    second: RenderSnapshotView,
    now: u64,
    later: u64,
)
    requires
        now <= later,
        with_deadline(p, first, now).1 is Some,
        second.mode_indicator is Some,
        first.mode_indicator is Some,
        second.mode_indicator->0.id == first.mode_indicator->0.id,
    ensures
        ({
            let shown = PresentationView {
                indicator_deadline: with_deadline(p, first, now).1,
                ..p
            };
            let again = with_deadline(shown, second, later).1;
            again is Some ==> again == with_deadline(p, first, now).1
        }),
{
}

/// Candidates come before an indicator: a frame that has any shows none.
pub proof fn law_candidates_replace_the_indicator(
    p: PresentationView,
    s: RenderSnapshotView,
    now: u64,
)
    requires
        s.items.len() > 0 || s.visible || s.preedit is Some,
    ensures
        with_deadline(p, s, now).0.mode_indicator is None,
        with_deadline(p, s, now).1 is None,
{
}

/// After a frame of another connection, nothing of the old one is left.
pub proof fn law_new_owner_starts_afresh(
    p: PresentationView,
    owner: Owner,
    snapshot: Option<RenderSnapshotView>,
    now: u64,
)
    requires
        owner != p.owner,
    ensures
        applied(p, owner, snapshot, now).0.owner == owner,
        applied(p, owner, snapshot, now).0.last is None,
{
}

} // verus!
