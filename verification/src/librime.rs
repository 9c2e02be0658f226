//! The input engine behind its function table: how it is started, what is called
//! for a key, a command or a click, and what is read of it afterwards.
//!
//! Nothing here calls librime. An exchange names the next call, and goes on with
//! its answer.
pub mod api;
pub mod laws;

use crate::engine::RimeCall;
use crate::message::{
    Candidate, ContextAction, KeyEvent, KeyEventResponse, RendererEvent, RendererEventAction,
};
#[allow(unused_imports)]
use crate::message::{candidate_views, empty_response, CandidateView, KeyEventResponseView};
#[allow(unused_imports)]
use crate::text::{prefix_within, utf16_len};
use crate::text::{join2, join3, truncate_within, utf16_count};
use api::{RimeFunction, RimeLibraryApi};
use vstd::prelude::*;

verus! {

/// Most candidates that a page may have.
pub const MAX_CANDIDATES: usize = 256;

/// What librime returns where a call succeeded.
pub const RIME_TRUE: i32 = 1;

/// Number of candidates that librime reports, where it can be true.
pub fn candidate_count(count: i32) -> (r: Option<usize>)
    ensures
        r == count_of(count),
{
    if count < 0 || count > 256 {
        None
    } else {
        Some(count as usize)
    }
}

/// Number of candidates that librime reports, where it can be true.
pub open spec fn count_of(count: i32) -> Option<usize> {
    if 0 <= count <= MAX_CANDIDATES {
        Some(count as usize)
    } else {
        None
    }
}

/// How loading the library ended.
#[derive(Debug, PartialEq, Eq)]
pub enum LibraryLoad {
    /// The path could not be resolved.
    Unresolved { path: String, error: String },
    /// The library could not be loaded.
    NotLoaded { path: String, error: String },
    /// The library has no function that returns the table.
    NoSymbol { path: String, module: usize },
    /// The function returned no table.
    NoTable { module: usize },
    Loaded { module: usize, api: usize },
}

/// A library that is loaded, and where its table lies.
#[derive(Debug, PartialEq, Eq)]
pub struct RimeLibrary {
    module: usize,
    api: usize,
}

/// Why a library is not used, and the module that has to be unloaded.
#[derive(Debug, PartialEq, Eq)]
pub struct LoadFailure {
    pub message: String,
    pub unload: Option<usize>,
}

impl RimeLibrary {
    /// The module's handle.
    pub closed spec fn module_of(self) -> usize {
        self.module
    }

    /// Where the table lies.
    pub closed spec fn table_of(self) -> usize {
        self.api
    }

    /// Takes over a loaded library.
    pub fn load(outcome: LibraryLoad) -> (r: Result<Self, LoadFailure>)
        ensures
            match outcome {
                LibraryLoad::Unresolved { path, error } => r matches Err(failure)
                    && failure.message@ == "could not resolve "@ + path@ + ": "@ + error@
                    && failure.unload is None,
                LibraryLoad::NotLoaded { path, error } => r matches Err(failure)
                    && failure.message@ == "LoadLibraryExW("@ + path@ + ") failed: "@ + error@
                    && failure.unload is None,
                LibraryLoad::NoSymbol { path, module } => r matches Err(failure)
                    && failure.message@ == "rime_get_api was not found in "@ + path@
                    && failure.unload == Some(module),
                LibraryLoad::NoTable { module } => r matches Err(failure) && failure.message@
                    == "rime_get_api returned a null API pointer"@ && failure.unload == Some(
                    module,
                ),
                LibraryLoad::Loaded { module, api } => r matches Ok(library) && library.module_of()
                    == module && library.table_of() == api,
            },
    {
        match outcome {
            LibraryLoad::Unresolved { path, error } => {
                let head: String = join3("could not resolve ", &path, ": ");
                Err(LoadFailure { message: join2(&head, &error), unload: None })
            },
            LibraryLoad::NotLoaded { path, error } => {
                let head: String = join3("LoadLibraryExW(", &path, ") failed: ");
                Err(LoadFailure { message: join2(&head, &error), unload: None })
            },
            LibraryLoad::NoSymbol { path, module } => Err(
                LoadFailure {
                    message: join2("rime_get_api was not found in ", &path),
                    unload: Some(module),
                },
            ),
            LibraryLoad::NoTable { module } => Err(
                LoadFailure {
                    message: "rime_get_api returned a null API pointer".to_owned(),
                    unload: Some(module),
                },
            ),
            LibraryLoad::Loaded { module, api } => Ok(RimeLibrary { module, api }),
        }
    }

    /// Where the table lies.
    pub fn api(&self) -> (r: usize)
        ensures
            r == self.table_of(),
    {
        self.api
    }

    /// The module's handle, to unload it.
    pub fn module(&self) -> (r: usize)
        ensures
            r == self.module_of(),
    {
        self.module
    }
}

/// Whether a deployment succeeded, by what librime returned.
pub fn deployed(returned: i32) -> (r: Result<(), String>)
    ensures
        r is Ok <==> returned == RIME_TRUE,
        r matches Err(error) ==> error@ == "librime deploy returned failure"@,
{
    if returned == RIME_TRUE {
        Ok(())
    } else {
        Err("librime deploy returned failure".to_owned())
    }
}

/// The number of a new session, by what librime returned.
pub fn new_session(id: u64) -> (r: Result<u64, String>)
    ensures
        match r {
            Ok(session) => session == id && id != 0,
            Err(error) => id == 0 && error@ == "librime create_session returned zero"@,
        },
{
    if id == 0 {
        return Err("librime create_session returned zero".to_owned());
    }
    Ok(id)
}

/// What librime tells of a session's composition and candidates.
#[derive(Debug, PartialEq, Eq)]
pub struct ContextReading {
    pub page_no: i32,
    pub page_size: i32,
    pub is_last_page: i32,
    pub num_candidates: i32,
    pub highlighted_candidate_index: i32,
    pub composition_length: i32,
    /// The text being composed, where librime has one.
    pub preedit: Option<String>,
    /// The cursor within the text, in bytes.
    pub cursor_pos: i32,
    /// The candidates, where librime has any: as many as it reports, if that many
    /// are possible.
    pub candidates: Option<Vec<Candidate>>,
}

#[verifier::ext_equal]
pub ghost struct ContextReadingView {
    pub page_no: i32,
    pub page_size: i32,
    pub is_last_page: i32,
    pub num_candidates: i32,
    pub highlighted_candidate_index: i32,
    pub composition_length: i32,
    pub preedit: Option<Seq<char>>,
    pub cursor_pos: i32,
    pub candidates: Option<Seq<CandidateView>>,
}

impl View for ContextReading {
    type V = ContextReadingView;

    open spec fn view(&self) -> ContextReadingView {
        ContextReadingView {
            page_no: self.page_no,
            page_size: self.page_size,
            is_last_page: self.is_last_page,
            num_candidates: self.num_candidates,
            highlighted_candidate_index: self.highlighted_candidate_index,
            composition_length: self.composition_length,
            preedit: match self.preedit {
                Some(text) => Some(text@),
                None => None,
            },
            cursor_pos: self.cursor_pos,
            candidates: match self.candidates {
                Some(list) => Some(candidate_views(list@)),
                None => None,
            },
        }
    }
}

/// What librime tells of a session's state.
#[derive(Clone, Copy, Debug, PartialEq, Eq, Structural)]
pub struct StatusReading {
    pub is_composing: i32,
    pub is_ascii_mode: i32,
}

/// All that is read of a session after a call, each as far as it could be read.
#[derive(Debug, PartialEq, Eq)]
pub struct Readings {
    pub commit: Option<String>,
    pub context: Option<ContextReading>,
    pub status: Option<StatusReading>,
}

#[verifier::ext_equal]
pub ghost struct ReadingsView {
    pub commit: Option<Seq<char>>,
    pub context: Option<ContextReadingView>,
    pub status: Option<StatusReading>,
}

impl View for Readings {
    type V = ReadingsView;

    open spec fn view(&self) -> ReadingsView {
        ReadingsView {
            commit: match self.commit {
                Some(text) => Some(text@),
                None => None,
            },
            context: match self.context {
                Some(context) => Some(context@),
                None => None,
            },
            status: self.status,
        }
    }
}

/// A number that is not below zero.
pub open spec fn at_least_zero(n: i32) -> nat {
    if n < 0 {
        0
    } else {
        n as nat
    }
}

/// Position of the page's first candidate; as far as it can be counted.
pub open spec fn page_start_of(page_no: i32, page_size: i32) -> u32 {
    let position = at_least_zero(page_no) * at_least_zero(page_size);
    if position > u32::MAX {
        u32::MAX
    } else {
        position as u32
    }
}

/// The candidates of a page: those that librime has, unless it reports a number
/// that cannot be true.
pub open spec fn page_candidates(context: ContextReadingView) -> Seq<CandidateView> {
    match (count_of(context.num_candidates), context.candidates) {
        (Some(count), Some(list)) if count > 0 => list,
        _ => Seq::empty(),
    }
}

/// The text being composed.
pub open spec fn composition_of(context: ContextReadingView) -> Seq<char> {
    match context.preedit {
        Some(text) => text,
        None => Seq::empty(),
    }
}

/// A response with the composition and the candidates. The cursor counts UTF-16
/// code units, up to the last whole character before librime's cursor.
pub open spec fn with_context(response: KeyEventResponseView, context: ContextReadingView) ->
    KeyEventResponseView {
    let composition = composition_of(context);
    let candidates = page_candidates(context);
    let highlighted = context.highlighted_candidate_index;
    KeyEventResponseView {
        state_updated: true,
        page_start: page_start_of(context.page_no, context.page_size),
        can_page_previous: context.page_no > 0,
        can_page_next: context.is_last_page == 0 && context.num_candidates > 0,
        composing: context.composition_length > 0,
        composition,
        composition_cursor: utf16_len(
            prefix_within(composition, at_least_zero(context.cursor_pos)),
        ) as u32,
        candidates,
        selected_candidate: if 0 <= highlighted < candidates.len() {
            highlighted as u32
        } else {
            0
        },
        ..response
    }
}

/// What librime's state makes of a call: what it committed, what it composes, and
/// its mode.
pub open spec fn response_of(eaten: bool, readings: ReadingsView) -> KeyEventResponseView {
    let start = KeyEventResponseView {
        eaten,
        commit_text: match readings.commit {
            Some(text) => text,
            None => Seq::empty(),
        },
        ..empty_response()
    };
    let composed = match readings.context {
        Some(context) => with_context(start, context),
        None => start,
    };
    match readings.status {
        Some(status) => KeyEventResponseView {
            composing: status.is_composing != 0,
            ascii_mode: Some(status.is_ascii_mode != 0),
            ..composed
        },
        None => composed,
    }
}

/// Position of the page's first candidate.
fn page_start(page_no: i32, page_size: i32) -> (r: u32)
    ensures
        r == page_start_of(page_no, page_size),
{
    let no: u64 = if page_no < 0 {
        0
    } else {
        page_no as u64
    };
    let size: u64 = if page_size < 0 {
        0
    } else {
        page_size as u64
    };
    assert(no * size <= 0x7fff_ffff * 0x7fff_ffff) by (nonlinear_arith)
        requires
            no <= 0x7fff_ffff,
            size <= 0x7fff_ffff,
    ;
    assert(no * size == at_least_zero(page_no) * at_least_zero(page_size));
    let position: u64 = no * size;
    if position > u32::MAX as u64 {
        u32::MAX
    } else {
        position as u32
    }
}

/// Adds the composition and the candidates to a response.
fn add_context(response: &mut KeyEventResponse, context: ContextReading)
    ensures
        final(response)@ == with_context(old(response)@, context@),
{
    response.state_updated = true;
    response.page_start = page_start(context.page_no, context.page_size);
    response.can_page_previous = context.page_no > 0;
    response.can_page_next = context.is_last_page == 0 && context.num_candidates > 0;
    response.composing = context.composition_length > 0;
    response.composition = match context.preedit {
        Some(text) => text,
        None => String::new(),
    };
    let cursor: usize = if context.cursor_pos < 0 {
        0
    } else {
        context.cursor_pos as usize
    };
    let before: String = truncate_within(&response.composition, cursor);
    response.composition_cursor = utf16_count(&before) as u32;
    response.candidates = match (candidate_count(context.num_candidates), context.candidates) {
        (Some(count), Some(list)) if count > 0 => list,
        _ => Vec::new(),
    };
    assert(response@.candidates =~= page_candidates(context@));
    response.selected_candidate = if context.highlighted_candidate_index >= 0 && (
    context.highlighted_candidate_index as usize) < response.candidates.len() {
        context.highlighted_candidate_index as u32
    } else {
        0
    };
}

/// What librime's state makes of a call.
pub fn read_response(eaten: bool, readings: Readings) -> (r: KeyEventResponse)
    ensures
        r@ == response_of(eaten, readings@),
{
    let mut response: KeyEventResponse = KeyEventResponse::default();
    response.eaten = eaten;
    response.commit_text = match readings.commit {
        Some(text) => text,
        None => String::new(),
    };
    assert(response@.commit_text =~= (match readings@.commit {
        Some(text) => text,
        None => Seq::empty(),
    }));
    if let Some(context) = readings.context {
        add_context(&mut response, context);
    }
    if let Some(status) = readings.status {
        response.composing = status.is_composing != 0;
        response.ascii_mode = Some(status.is_ascii_mode != 0);
    }
    response
}

/// A call of librime on a session.
#[derive(Clone, Copy, Debug, PartialEq, Eq, Structural)]
pub enum SessionCall {
    CommitComposition,
    ClearComposition,
    /// Ask for the mode.
    GetAscii,
    SetAscii(bool),
    ProcessKey { keycode: i32, modifiers: i32 },
    SelectCandidate(usize),
    ChangePage { backward: bool },
}

/// Where an exchange stands while it waits for a call.
#[derive(Clone, Copy, Debug, PartialEq, Eq, Structural)]
pub enum Exchange {
    /// What was composed is committed; the mode is asked for next.
    Committed,
    /// The mode was asked for, to switch it.
    Asked,
    /// The mode was asked for, to report it.
    Focused,
    /// The session's state is read next.
    Settled,
    /// The session's state is read next, but nothing that it commits counts.
    Cleared,
    /// The session's state is read next, and the answer says whether the call took
    /// effect.
    Acted,
    /// The session's state is read next, and the call took effect.
    Dismissed,
    /// The emoji panel opens next.
    Emoji,
    /// Nothing is left to do.
    Silent,
}

/// How an exchange goes on.
#[derive(Debug, PartialEq, Eq)]
pub enum SessionStep {
    Call(SessionCall, Exchange),
    /// Read the session's state, and make the response of it.
    Read { eaten: bool, keep_commit: bool },
    Done(KeyEventResponse),
}

pub ghost enum SessionStepView {
    Call(SessionCall, Exchange),
    Read { eaten: bool, keep_commit: bool },
    Done(KeyEventResponseView),
}

impl View for SessionStep {
    type V = SessionStepView;

    open spec fn view(&self) -> SessionStepView {
        match *self {
            SessionStep::Call(call, exchange) => SessionStepView::Call(call, exchange),
            SessionStep::Read { eaten, keep_commit } => SessionStepView::Read {
                eaten,
                keep_commit,
            },
            SessionStep::Done(response) => SessionStepView::Done(response@),
        }
    }
}

/// A call where librime has the function, and else what comes without it.
pub open spec fn call_or(
    api: Seq<RimeFunction>,
    function: RimeFunction,
    call: SessionCall,
    exchange: Exchange,
    otherwise: SessionStepView,
) -> SessionStepView {
    if api.contains(function) {
        SessionStepView::Call(call, exchange)
    } else {
        otherwise
    }
}

/// How a command starts. Switching the mode first commits what is composed, so
/// that the host gets it before anything else.
pub open spec fn action_start(api: Seq<RimeFunction>, action: ContextAction) -> SessionStepView {
    let settled = SessionStepView::Read { eaten: false, keep_commit: true };
    let nothing = SessionStepView::Done(empty_response());
    match action {
        ContextAction::ToggleAscii => if api.contains(RimeFunction::GetOption) && api.contains(
            RimeFunction::SetOption,
        ) {
            call_or(
                api,
                RimeFunction::CommitComposition,
                SessionCall::CommitComposition,
                Exchange::Committed,
                SessionStepView::Call(SessionCall::GetAscii, Exchange::Asked),
            )
        } else {
            settled
        },
        ContextAction::Focus => call_or(
            api,
            RimeFunction::GetOption,
            SessionCall::GetAscii,
            Exchange::Focused,
            nothing,
        ),
        ContextAction::Submit => call_or(
            api,
            RimeFunction::CommitComposition,
            SessionCall::CommitComposition,
            Exchange::Settled,
            settled,
        ),
        ContextAction::Cancel | ContextAction::HostTerminated => call_or(
            api,
            RimeFunction::ClearComposition,
            SessionCall::ClearComposition,
            Exchange::Cleared,
            SessionStepView::Read { eaten: false, keep_commit: false },
        ),
        _ => nothing,
    }
}

/// How a key starts: a key that is only tried, or could not be translated, does not
/// reach librime.
pub open spec fn key_start(api: Seq<RimeFunction>, key: KeyEvent) -> SessionStepView {
    if key.test || key.keycode is None {
        SessionStepView::Done(empty_response())
    } else {
        call_or(
            api,
            RimeFunction::ProcessKey,
            SessionCall::ProcessKey { keycode: key.keycode->0, modifiers: key.modifiers },
            Exchange::Acted,
            SessionStepView::Read { eaten: false, keep_commit: true },
        )
    }
}

/// How a click starts.
pub open spec fn event_start(api: Seq<RimeFunction>, event: RendererEvent) -> SessionStepView {
    let unanswered = SessionStepView::Read { eaten: false, keep_commit: true };
    match event.action {
        RendererEventAction::ItemInvoked => if event.item_index >= MAX_CANDIDATES {
            unanswered
        } else {
            call_or(
                api,
                RimeFunction::SelectCandidateOnCurrentPage,
                SessionCall::SelectCandidate(event.item_index as usize),
                Exchange::Acted,
                unanswered,
            )
        },
        RendererEventAction::NavigatePrevious => call_or(
            api,
            RimeFunction::ChangePage,
            SessionCall::ChangePage { backward: true },
            Exchange::Acted,
            unanswered,
        ),
        RendererEventAction::NavigateNext => call_or(
            api,
            RimeFunction::ChangePage,
            SessionCall::ChangePage { backward: false },
            Exchange::Acted,
            unanswered,
        ),
        RendererEventAction::Dismiss => call_or(
            api,
            RimeFunction::ClearComposition,
            SessionCall::ClearComposition,
            Exchange::Dismissed,
            unanswered,
        ),
        RendererEventAction::OpenEmojiPanel => call_or(
            api,
            RimeFunction::ClearComposition,
            SessionCall::ClearComposition,
            Exchange::Emoji,
            SessionStepView::Done(empty_response()),
        ),
        RendererEventAction::Unspecified => unanswered,
    }
}

/// How a call of the engine starts.
pub open spec fn call_start(api: Seq<RimeFunction>, call: RimeCall) -> SessionStepView {
    match call {
        RimeCall::SetAsciiMode(ascii) => call_or(
            api,
            RimeFunction::SetOption,
            SessionCall::SetAscii(ascii),
            Exchange::Silent,
            SessionStepView::Done(empty_response()),
        ),
        RimeCall::SetAsciiModeResponse(ascii) => call_or(
            api,
            RimeFunction::SetOption,
            SessionCall::SetAscii(ascii),
            Exchange::Settled,
            SessionStepView::Read { eaten: false, keep_commit: true },
        ),
        RimeCall::ContextAction(action) => action_start(api, action),
        RimeCall::ProcessKey(key) => key_start(api, key),
        RimeCall::RendererEvent(event) => event_start(api, event),
    }
}

/// How an exchange goes on after a call, by what the call returned.
pub open spec fn resumed(exchange: Exchange, returned: i32) -> SessionStepView {
    match exchange {
        Exchange::Committed => SessionStepView::Call(SessionCall::GetAscii, Exchange::Asked),
        Exchange::Asked => SessionStepView::Call(
            SessionCall::SetAscii(returned == 0),
            Exchange::Settled,
        ),
        Exchange::Focused => SessionStepView::Done(
            KeyEventResponseView { ascii_mode: Some(returned != 0), ..empty_response() },
        ),
        Exchange::Settled => SessionStepView::Read { eaten: false, keep_commit: true },
        Exchange::Cleared => SessionStepView::Read { eaten: false, keep_commit: false },
        Exchange::Acted => SessionStepView::Read {
            eaten: returned == RIME_TRUE,
            keep_commit: true,
        },
        Exchange::Dismissed => SessionStepView::Read { eaten: true, keep_commit: true },
        Exchange::Emoji => SessionStepView::Done(
            KeyEventResponseView {
                state_updated: true,
                open_emoji_panel: true,
                ..empty_response()
            },
        ),
        Exchange::Silent => SessionStepView::Done(empty_response()),
    }
}

/// What reading a session's state ends an exchange with.
pub open spec fn read_of(eaten: bool, keep_commit: bool, readings: ReadingsView) ->
    KeyEventResponseView {
    let response = response_of(eaten, readings);
    if keep_commit {
        response
    } else {
        KeyEventResponseView { commit_text: Seq::empty(), ..response }
    }
}

/// A call where librime has the function, and else what comes without it.
fn call_if(
    api: &RimeLibraryApi,
    function: RimeFunction,
    call: SessionCall,
    exchange: Exchange,
    otherwise: SessionStep,
) -> (r: SessionStep)
    ensures
        r@ == call_or(api@, function, call, exchange, otherwise@),
{
    if api.has(function) {
        SessionStep::Call(call, exchange)
    } else {
        otherwise
    }
}

/// Starts a command.
pub fn context_action(api: &RimeLibraryApi, action: ContextAction) -> (r: SessionStep)
    ensures
        r@ == action_start(api@, action),
{
    match action {
        ContextAction::ToggleAscii => if api.has(RimeFunction::GetOption) && api.has(
            RimeFunction::SetOption,
        ) {
            call_if(
                api,
                RimeFunction::CommitComposition,
                SessionCall::CommitComposition,
                Exchange::Committed,
                SessionStep::Call(SessionCall::GetAscii, Exchange::Asked),
            )
        } else {
            SessionStep::Read { eaten: false, keep_commit: true }
        },
        ContextAction::Focus => call_if(
            api,
            RimeFunction::GetOption,
            SessionCall::GetAscii,
            Exchange::Focused,
            SessionStep::Done(KeyEventResponse::default()),
        ),
        ContextAction::Submit => call_if(
            api,
            RimeFunction::CommitComposition,
            SessionCall::CommitComposition,
            Exchange::Settled,
            SessionStep::Read { eaten: false, keep_commit: true },
        ),
        ContextAction::Cancel | ContextAction::HostTerminated => call_if(
            api,
            RimeFunction::ClearComposition,
            SessionCall::ClearComposition,
            Exchange::Cleared,
            SessionStep::Read { eaten: false, keep_commit: false },
        ),
        _ => SessionStep::Done(KeyEventResponse::default()),
    }
}

/// Starts a key.
pub fn process_key(api: &RimeLibraryApi, key: &KeyEvent) -> (r: SessionStep)
    ensures
        r@ == key_start(api@, *key),
{
    if key.test {
        return SessionStep::Done(KeyEventResponse::default());
    }
    match key.keycode {
        None => SessionStep::Done(KeyEventResponse::default()),
        Some(keycode) => call_if(
            api,
            RimeFunction::ProcessKey,
            SessionCall::ProcessKey { keycode, modifiers: key.modifiers },
            Exchange::Acted,
            SessionStep::Read { eaten: false, keep_commit: true },
        ),
    }
}

/// Starts a click.
pub fn process_renderer_event(api: &RimeLibraryApi, event: &RendererEvent) -> (r: SessionStep)
    ensures
        r@ == event_start(api@, *event),
{
    let unanswered: SessionStep = SessionStep::Read { eaten: false, keep_commit: true };
    match event.action {
        RendererEventAction::ItemInvoked => if event.item_index >= 256 {
            unanswered
        } else {
            call_if(
                api,
                RimeFunction::SelectCandidateOnCurrentPage,
                SessionCall::SelectCandidate(event.item_index as usize),
                Exchange::Acted,
                unanswered,
            )
        },
        RendererEventAction::NavigatePrevious => call_if(
            api,
            RimeFunction::ChangePage,
            SessionCall::ChangePage { backward: true },
            Exchange::Acted,
            unanswered,
        ),
        RendererEventAction::NavigateNext => call_if(
            api,
            RimeFunction::ChangePage,
            SessionCall::ChangePage { backward: false },
            Exchange::Acted,
            unanswered,
        ),
        RendererEventAction::Dismiss => call_if(
            api,
            RimeFunction::ClearComposition,
            SessionCall::ClearComposition,
            Exchange::Dismissed,
            unanswered,
        ),
        RendererEventAction::OpenEmojiPanel => call_if(
            api,
            RimeFunction::ClearComposition,
            SessionCall::ClearComposition,
            Exchange::Emoji,
            SessionStep::Done(KeyEventResponse::default()),
        ),
        RendererEventAction::Unspecified => unanswered,
    }
}

/// Starts a call of the engine.
pub fn start(api: &RimeLibraryApi, call: &RimeCall) -> (r: SessionStep)
    ensures
        r@ == call_start(api@, *call),
{
    match call {
        RimeCall::SetAsciiMode(ascii) => call_if(
            api,
            RimeFunction::SetOption,
            SessionCall::SetAscii(*ascii),
            Exchange::Silent,
            SessionStep::Done(KeyEventResponse::default()),
        ),
        RimeCall::SetAsciiModeResponse(ascii) => call_if(
            api,
            RimeFunction::SetOption,
            SessionCall::SetAscii(*ascii),
            Exchange::Settled,
            SessionStep::Read { eaten: false, keep_commit: true },
        ),
        RimeCall::ContextAction(action) => context_action(api, *action),
        RimeCall::ProcessKey(key) => process_key(api, key),
        RimeCall::RendererEvent(event) => process_renderer_event(api, event),
    }
}

/// Goes on after a call, by what the call returned.
pub fn resume(exchange: Exchange, returned: i32) -> (r: SessionStep)
    ensures
        r@ == resumed(exchange, returned),
{
    match exchange {
        Exchange::Committed => SessionStep::Call(SessionCall::GetAscii, Exchange::Asked),
        Exchange::Asked => SessionStep::Call(
            SessionCall::SetAscii(returned == 0),
            Exchange::Settled,
        ),
        Exchange::Focused => {
            let mut response: KeyEventResponse = KeyEventResponse::default();
            response.ascii_mode = Some(returned != 0);
            SessionStep::Done(response)
        },
        Exchange::Settled => SessionStep::Read { eaten: false, keep_commit: true },
        Exchange::Cleared => SessionStep::Read { eaten: false, keep_commit: false },
        Exchange::Acted => SessionStep::Read { eaten: returned == RIME_TRUE, keep_commit: true },
        Exchange::Dismissed => SessionStep::Read { eaten: true, keep_commit: true },
        Exchange::Emoji => {
            let mut response: KeyEventResponse = KeyEventResponse::default();
            response.state_updated = true;
            response.open_emoji_panel = true;
            SessionStep::Done(response)
        },
        Exchange::Silent => SessionStep::Done(KeyEventResponse::default()),
    }
}

/// Ends an exchange with what was read of the session.
pub fn finish(eaten: bool, keep_commit: bool, readings: Readings) -> (r: KeyEventResponse)
    ensures
        r@ == read_of(eaten, keep_commit, readings@),
{
    let mut response: KeyEventResponse = read_response(eaten, readings);
    if !keep_commit {
        response.commit_text = String::new();
    }
    response
}

/// A key that is only tried, or could not be translated, asks nothing of librime,
/// and changes nothing.
pub proof fn law_untranslated_keys_never_enter_librime(api: Seq<RimeFunction>, key: KeyEvent)
    requires
        key.test || key.keycode is None,
    ensures
        key_start(api, key) == SessionStepView::Done(empty_response()),
{
}

/// Switching the mode: what is composed is committed first, then the mode is asked
/// for, and the opposite of it is set, whatever it was.
pub proof fn law_switch_commits_first(api: Seq<RimeFunction>, any: i32, mode: i32)
    requires
        api.contains(RimeFunction::GetOption),
        api.contains(RimeFunction::SetOption),
        api.contains(RimeFunction::CommitComposition),
    ensures
        action_start(api, ContextAction::ToggleAscii) == SessionStepView::Call(
            SessionCall::CommitComposition,
            Exchange::Committed,
        ),
        resumed(Exchange::Committed, any) == SessionStepView::Call(
            SessionCall::GetAscii,
            Exchange::Asked,
        ),
        resumed(Exchange::Asked, mode) == SessionStepView::Call(
            SessionCall::SetAscii(mode == 0),
            Exchange::Settled,
        ),
{
}

/// A command that takes the text from the host inserts none of it again.
pub proof fn law_cancelled_text_is_not_inserted(readings: ReadingsView, eaten: bool)
    ensures
        read_of(eaten, false, readings).commit_text.len() == 0,
{
}

/// The selected candidate is one of the page's, or the first.
pub proof fn law_selected_candidate_is_on_the_page(eaten: bool, readings: ReadingsView)
    ensures
        ({
            let response = response_of(eaten, readings);
            response.selected_candidate == 0 || response.selected_candidate
                < response.candidates.len()
        }),
{
}

/// A number of candidates that cannot be true shows none.
pub proof fn law_impossible_count_shows_no_candidates(
    eaten: bool,
    readings: ReadingsView,
    context: ContextReadingView,
)
    requires
        readings.context == Some(context),
        count_of(context.num_candidates) is None,
    ensures
        response_of(eaten, readings).candidates.len() == 0,
{
}

} // verus!
