//! The messages that the text service, the input server and the renderer exchange.
//!
//! Every message that holds text or a list has a view: the same record over
//! sequences, in which two messages are equal when they carry the same content.
use vstd::prelude::*;

verus! {

/// Identifies one input context of one connection, and its latest generation.
#[derive(Clone, Copy, Debug, PartialEq, Eq, Structural)]
pub struct ContextToken {
    /// The context within its connection; zero is not a context.
    pub context_id: u64,
    /// The life of the connection that the context belongs to; zero is none.
    pub connection_epoch: u64,
    /// Grows each time the host rebinds the context; zero is none.
    pub generation: u64,
}

impl Default for ContextToken {
    fn default() -> (r: Self)
        ensures
            r == (ContextToken { context_id: 0, connection_epoch: 0, generation: 0 }),
    {
        ContextToken { context_id: 0, connection_epoch: 0, generation: 0 }
    }
}

/// Whether a token names a context: none of its three parts is zero.
pub open spec fn token_valid(token: Option<ContextToken>) -> bool {
    token matches Some(t) && t.context_id != 0 && t.connection_epoch != 0 && t.generation != 0
}

/// A rectangle in screen coordinates, as a host reports it.
#[derive(Clone, Copy, Debug, PartialEq, Eq, Structural)]
pub struct RenderRect {
    pub left: i32,
    pub top: i32,
    pub right: i32,
    pub bottom: i32,
    /// Whether the host has vouched for the four edges.
    pub valid: bool,
}

/// The rectangle that no host has reported.
pub open spec fn no_rect() -> RenderRect {
    RenderRect { left: 0, top: 0, right: 0, bottom: 0, valid: false }
}

impl Default for RenderRect {
    fn default() -> (r: Self)
        ensures
            r == no_rect(),
    {
        RenderRect { left: 0, top: 0, right: 0, bottom: 0, valid: false }
    }
}

/// One candidate of a page.
#[derive(Debug, PartialEq, Eq)]
pub struct Candidate {
    pub text: String,
    pub comment: String,
}

#[verifier::ext_equal]
pub ghost struct CandidateView {
    pub text: Seq<char>,
    pub comment: Seq<char>,
}

impl View for Candidate {
    type V = CandidateView;

    open spec fn view(&self) -> CandidateView {
        CandidateView { text: self.text@, comment: self.comment@ }
    }
}

impl Clone for Candidate {
    fn clone(&self) -> (r: Self)
        ensures
            r@ == self@,
    {
        Candidate { text: self.text.clone(), comment: self.comment.clone() }
    }
}

/// The views of a list of candidates, in order.
pub open spec fn candidate_views(s: Seq<Candidate>) -> Seq<CandidateView> {
    Seq::new(s.len(), |i: int| s[i]@)
}

/// A copy of a list of candidates.
pub fn clone_candidates(list: &Vec<Candidate>) -> (r: Vec<Candidate>)
    ensures
        candidate_views(r@) == candidate_views(list@),
{
    let mut copy: Vec<Candidate> = Vec::new();
    let mut i: usize = 0;
    while i < list.len()
        invariant
            i <= list.len(),
            copy.len() == i,
            forall|j: int| 0 <= j < i ==> (#[trigger] copy[j])@ == list[j]@,
        decreases list.len() - i,
    {
        copy.push(list[i].clone());
        i += 1;
    }
    copy
}

/// What the engine made of one key, command or candidate click.
#[derive(Debug, PartialEq, Eq)]
pub struct KeyEventResponse {
    /// Whether the host must not handle the key itself.
    pub eaten: bool,
    /// Text to insert into the host.
    pub commit_text: String,
    /// The text being composed.
    pub composition: String,
    /// The cursor within the composition, in UTF-16 code units.
    pub composition_cursor: u32,
    /// Whether a composition is in progress.
    pub composing: bool,
    pub candidates: Vec<Candidate>,
    pub selected_candidate: u32,
    /// Position of the page's first candidate among all of them.
    pub page_start: u32,
    pub can_page_previous: bool,
    pub can_page_next: bool,
    /// Whether the response describes a new state, to be stored and shown.
    pub state_updated: bool,
    pub ascii_mode: Option<bool>,
    pub token: Option<ContextToken>,
    pub revision: u64,
    /// Whether the renderer, and not the host, shows the composition.
    pub external_preedit: bool,
    pub open_emoji_panel: bool,
    /// Asks the host for the caret's place, to show a mode indicator there.
    pub mode_indicator_request_id: Option<u64>,
    pub allow_rime_in_secure_fields: Option<bool>,
}

#[verifier::ext_equal]
pub ghost struct KeyEventResponseView {
    pub eaten: bool,
    pub commit_text: Seq<char>,
    pub composition: Seq<char>,
    pub composition_cursor: u32,
    pub composing: bool,
    pub candidates: Seq<CandidateView>,
    pub selected_candidate: u32,
    pub page_start: u32,
    pub can_page_previous: bool,
    pub can_page_next: bool,
    pub state_updated: bool,
    pub ascii_mode: Option<bool>,
    pub token: Option<ContextToken>,
    pub revision: u64,
    pub external_preedit: bool,
    pub open_emoji_panel: bool,
    pub mode_indicator_request_id: Option<u64>,
    pub allow_rime_in_secure_fields: Option<bool>,
}

/// The response that says nothing happened.
pub open spec fn empty_response() -> KeyEventResponseView {
    KeyEventResponseView {
        eaten: false,
        commit_text: Seq::empty(),
        composition: Seq::empty(),
        composition_cursor: 0,
        composing: false,
        candidates: Seq::empty(),
        selected_candidate: 0,
        page_start: 0,
        can_page_previous: false,
        can_page_next: false,
        state_updated: false,
        ascii_mode: None,
        token: None,
        revision: 0,
        external_preedit: false,
        open_emoji_panel: false,
        mode_indicator_request_id: None,
        allow_rime_in_secure_fields: None,
    }
}

impl View for KeyEventResponse {
    type V = KeyEventResponseView;

    open spec fn view(&self) -> KeyEventResponseView {
        KeyEventResponseView {
            eaten: self.eaten,
            commit_text: self.commit_text@,
            composition: self.composition@,
            composition_cursor: self.composition_cursor,
            composing: self.composing,
            candidates: candidate_views(self.candidates@),
            selected_candidate: self.selected_candidate,
            page_start: self.page_start,
            can_page_previous: self.can_page_previous,
            can_page_next: self.can_page_next,
            state_updated: self.state_updated,
            ascii_mode: self.ascii_mode,
            token: self.token,
            revision: self.revision,
            external_preedit: self.external_preedit,
            open_emoji_panel: self.open_emoji_panel,
            mode_indicator_request_id: self.mode_indicator_request_id,
            allow_rime_in_secure_fields: self.allow_rime_in_secure_fields,
        }
    }
}

impl Default for KeyEventResponse {
    fn default() -> (r: Self)
        ensures
            r@ == empty_response(),
    {
        let r = KeyEventResponse {
            eaten: false,
            commit_text: String::new(),
            composition: String::new(),
            composition_cursor: 0,
            composing: false,
            candidates: Vec::new(),
            selected_candidate: 0,
            page_start: 0,
            can_page_previous: false,
            can_page_next: false,
            state_updated: false,
            ascii_mode: None,
            token: None,
            revision: 0,
            external_preedit: false,
            open_emoji_panel: false,
            mode_indicator_request_id: None,
            allow_rime_in_secure_fields: None,
        };
        assert(r@.candidates =~= Seq::<CandidateView>::empty());
        r
    }
}

impl Clone for KeyEventResponse {
    fn clone(&self) -> (r: Self)
        ensures
            r@ == self@,
    {
        KeyEventResponse {
            eaten: self.eaten,
            commit_text: self.commit_text.clone(),
            composition: self.composition.clone(),
            composition_cursor: self.composition_cursor,
            composing: self.composing,
            candidates: clone_candidates(&self.candidates),
            selected_candidate: self.selected_candidate,
            page_start: self.page_start,
            can_page_previous: self.can_page_previous,
            can_page_next: self.can_page_next,
            state_updated: self.state_updated,
            ascii_mode: self.ascii_mode,
            token: self.token,
            revision: self.revision,
            external_preedit: self.external_preedit,
            open_emoji_panel: self.open_emoji_panel,
            mode_indicator_request_id: self.mode_indicator_request_id,
            allow_rime_in_secure_fields: self.allow_rime_in_secure_fields,
        }
    }
}

/// One row or button of a rendered page.
#[derive(Debug, PartialEq, Eq)]
pub struct RenderItem {
    pub primary_text: String,
    pub secondary_text: String,
    pub enabled: bool,
    pub kind: String,
}

#[verifier::ext_equal]
pub ghost struct RenderItemView {
    pub primary_text: Seq<char>,
    pub secondary_text: Seq<char>,
    pub enabled: bool,
    pub kind: Seq<char>,
}

impl View for RenderItem {
    type V = RenderItemView;

    open spec fn view(&self) -> RenderItemView {
        RenderItemView {
            primary_text: self.primary_text@,
            secondary_text: self.secondary_text@,
            enabled: self.enabled,
            kind: self.kind@,
        }
    }
}

impl Clone for RenderItem {
    fn clone(&self) -> (r: Self)
        ensures
            r@ == self@,
    {
        RenderItem {
            primary_text: self.primary_text.clone(),
            secondary_text: self.secondary_text.clone(),
            enabled: self.enabled,
            kind: self.kind.clone(),
        }
    }
}

impl Default for RenderItem {
    fn default() -> (r: Self)
        ensures
            r@ == (RenderItemView {
                primary_text: Seq::empty(),
                secondary_text: Seq::empty(),
                enabled: false,
                kind: Seq::empty(),
            }),
    {
        RenderItem {
            primary_text: String::new(),
            secondary_text: String::new(),
            enabled: false,
            kind: String::new(),
        }
    }
}

/// The views of a list of items, in order.
pub open spec fn item_views(s: Seq<RenderItem>) -> Seq<RenderItemView> {
    Seq::new(s.len(), |i: int| s[i]@)
}

/// A copy of a list of items.
pub fn clone_items(list: &Vec<RenderItem>) -> (r: Vec<RenderItem>)
    ensures
        item_views(r@) == item_views(list@),
{
    let mut copy: Vec<RenderItem> = Vec::new();
    let mut i: usize = 0;
    while i < list.len()
        invariant
            i <= list.len(),
            copy.len() == i,
            forall|j: int| 0 <= j < i ==> (#[trigger] copy[j])@ == list[j]@,
        decreases list.len() - i,
    {
        copy.push(list[i].clone());
        i += 1;
    }
    copy
}

/// Composed text that the renderer shows in place of the host.
#[derive(Debug, PartialEq, Eq)]
pub struct RenderPreedit {
    pub text: String,
    /// The cursor within the text, in UTF-16 code units.
    pub cursor_utf16: u32,
}

#[verifier::ext_equal]
pub ghost struct RenderPreeditView {
    pub text: Seq<char>,
    pub cursor_utf16: u32,
}

impl View for RenderPreedit {
    type V = RenderPreeditView;

    open spec fn view(&self) -> RenderPreeditView {
        RenderPreeditView { text: self.text@, cursor_utf16: self.cursor_utf16 }
    }
}

impl Clone for RenderPreedit {
    fn clone(&self) -> (r: Self)
        ensures
            r@ == self@,
    {
        RenderPreedit { text: self.text.clone(), cursor_utf16: self.cursor_utf16 }
    }
}

/// The view of an optional preedit.
pub open spec fn preedit_view(preedit: Option<RenderPreedit>) -> Option<RenderPreeditView> {
    match preedit {
        Some(p) => Some(p@),
        None => None,
    }
}

/// A copy of an optional preedit.
pub fn clone_preedit(preedit: &Option<RenderPreedit>) -> (r: Option<RenderPreedit>)
    ensures
        preedit_view(r) == preedit_view(*preedit),
{
    match preedit {
        Some(p) => Some(p.clone()),
        None => None,
    }
}

/// Why a mode indicator is shown.
#[derive(Clone, Copy, Debug, PartialEq, Eq, Structural)]
pub enum ModeIndicatorReason {
    Unspecified,
    /// An editable field has gained the focus.
    Focus,
    /// The user has switched the mode.
    UserSwitch,
}

/// A short notice of the input mode, next to the caret.
#[derive(Clone, Copy, Debug, PartialEq, Eq, Structural)]
pub struct ModeIndicator {
    pub id: u64,
    pub ascii_mode: bool,
    pub reason: ModeIndicatorReason,
}

/// Everything the renderer shows at one moment.
#[derive(Debug, PartialEq, Eq)]
pub struct RenderSnapshot {
    /// Order of publication; zero before it is published.
    pub sequence: u64,
    pub session_id: u64,
    pub revision: u64,
    /// Whether an input session has the focus.
    pub active: bool,
    pub visible: bool,
    pub ascii_mode: Option<bool>,
    pub preedit: Option<RenderPreedit>,
    pub anchor: Option<RenderRect>,
    pub items: Vec<RenderItem>,
    pub selected_index: u32,
    pub page_start: u32,
    /// Number of candidates on all pages, where the engine knows it.
    pub total_item_count: Option<u32>,
    pub can_page_previous: bool,
    pub can_page_next: bool,
    pub token: Option<ContextToken>,
    pub mode_indicator: Option<ModeIndicator>,
}

#[verifier::ext_equal]
pub ghost struct RenderSnapshotView {
    pub sequence: u64,
    pub session_id: u64,
    pub revision: u64,
    pub active: bool,
    pub visible: bool,
    pub ascii_mode: Option<bool>,
    pub preedit: Option<RenderPreeditView>,
    pub anchor: Option<RenderRect>,
    pub items: Seq<RenderItemView>,
    pub selected_index: u32,
    pub page_start: u32,
    pub total_item_count: Option<u32>,
    pub can_page_previous: bool,
    pub can_page_next: bool,
    pub token: Option<ContextToken>,
    pub mode_indicator: Option<ModeIndicator>,
}

/// The snapshot that shows nothing.
pub open spec fn empty_snapshot() -> RenderSnapshotView {
    RenderSnapshotView {
        sequence: 0,
        session_id: 0,
        revision: 0,
        active: false,
        visible: false,
        ascii_mode: None,
        preedit: None,
        anchor: None,
        items: Seq::empty(),
        selected_index: 0,
        page_start: 0,
        total_item_count: None,
        can_page_previous: false,
        can_page_next: false,
        token: None,
        mode_indicator: None,
    }
}

impl View for RenderSnapshot {
    type V = RenderSnapshotView;

    open spec fn view(&self) -> RenderSnapshotView {
        RenderSnapshotView {
            sequence: self.sequence,
            session_id: self.session_id,
            revision: self.revision,
            active: self.active,
            visible: self.visible,
            ascii_mode: self.ascii_mode,
            preedit: preedit_view(self.preedit),
            anchor: self.anchor,
            items: item_views(self.items@),
            selected_index: self.selected_index,
            page_start: self.page_start,
            total_item_count: self.total_item_count,
            can_page_previous: self.can_page_previous,
            can_page_next: self.can_page_next,
            token: self.token,
            mode_indicator: self.mode_indicator,
        }
    }
}

impl Default for RenderSnapshot {
    fn default() -> (r: Self)
        ensures
            r@ == empty_snapshot(),
    {
        let r = RenderSnapshot {
            sequence: 0,
            session_id: 0,
            revision: 0,
            active: false,
            visible: false,
            ascii_mode: None,
            preedit: None,
            anchor: None,
            items: Vec::new(),
            selected_index: 0,
            page_start: 0,
            total_item_count: None,
            can_page_previous: false,
            can_page_next: false,
            token: None,
            mode_indicator: None,
        };
        assert(r@.items =~= Seq::<RenderItemView>::empty());
        r
    }
}

impl Clone for RenderSnapshot {
    fn clone(&self) -> (r: Self)
        ensures
            r@ == self@,
    {
        RenderSnapshot {
            sequence: self.sequence,
            session_id: self.session_id,
            revision: self.revision,
            active: self.active,
            visible: self.visible,
            ascii_mode: self.ascii_mode,
            preedit: clone_preedit(&self.preedit),
            anchor: self.anchor,
            items: clone_items(&self.items),
            selected_index: self.selected_index,
            page_start: self.page_start,
            total_item_count: self.total_item_count,
            can_page_previous: self.can_page_previous,
            can_page_next: self.can_page_next,
            token: self.token,
            mode_indicator: self.mode_indicator,
        }
    }
}

/// One key that the host has translated.
#[derive(Clone, Copy, Debug, PartialEq, Eq, Structural)]
pub struct KeyEvent {
    pub token: Option<ContextToken>,
    /// The translated key; absent where the host could not translate it.
    pub keycode: Option<i32>,
    pub modifiers: i32,
    pub virtual_key: u32,
    /// Whether the host only asks what would happen.
    pub test: bool,
}

impl Default for KeyEvent {
    fn default() -> (r: Self)
        ensures
            r == (KeyEvent { token: None, keycode: None, modifiers: 0, virtual_key: 0, test: false }),
    {
        KeyEvent { token: None, keycode: None, modifiers: 0, virtual_key: 0, test: false }
    }
}

/// What a host asks of an input context.
#[derive(Clone, Copy, Debug, PartialEq, Eq, Structural)]
pub enum ContextAction {
    /// No action, or one that this version does not know.
    Unspecified,
    Focus,
    Blur,
    Submit,
    Cancel,
    HostTerminated,
    ToggleAscii,
    SetAscii,
    Destroy,
}

#[derive(Clone, Copy, Debug, PartialEq, Eq, Structural)]
pub struct ContextCommand {
    pub token: Option<ContextToken>,
    pub action: ContextAction,
    /// The mode that `SetAscii` restores.
    pub ascii_mode: Option<bool>,
}

/// What the user did in the renderer's window.
#[derive(Clone, Copy, Debug, PartialEq, Eq, Structural)]
pub enum RendererEventAction {
    Unspecified,
    ItemInvoked,
    NavigatePrevious,
    NavigateNext,
    Dismiss,
    OpenEmojiPanel,
}

#[derive(Clone, Copy, Debug, PartialEq, Eq, Structural)]
pub struct RendererEvent {
    pub session_id: u64,
    pub token: Option<ContextToken>,
    pub revision: u64,
    pub action: RendererEventAction,
    /// The item that was invoked, counted from the first of its page.
    pub item_index: u32,
}

impl Default for RendererEvent {
    fn default() -> (r: Self)
        ensures
            r == (RendererEvent {
                session_id: 0,
                token: None,
                revision: 0,
                action: RendererEventAction::Unspecified,
                item_index: 0,
            }),
    {
        RendererEvent {
            session_id: 0,
            token: None,
            revision: 0,
            action: RendererEventAction::Unspecified,
            item_index: 0,
        }
    }
}

/// Where the caret of an input context is.
#[derive(Clone, Copy, Debug, PartialEq, Eq, Structural)]
pub struct LayoutUpdate {
    pub token: Option<ContextToken>,
    /// The state that the host had applied when it measured; older hosts omit it.
    pub revision: Option<u64>,
    pub anchor: Option<RenderRect>,
    /// Set where the update answers a request for a mode indicator's place.
    pub mode_indicator_request_id: Option<u64>,
}

impl Default for LayoutUpdate {
    fn default() -> (r: Self)
        ensures
            r == (LayoutUpdate {
                token: None,
                revision: None,
                anchor: None,
                mode_indicator_request_id: None,
            }),
    {
        LayoutUpdate { token: None, revision: None, anchor: None, mode_indicator_request_id: None }
    }
}

/// Why a request was refused.
#[derive(Clone, Copy, Debug, PartialEq, Eq, Structural)]
pub enum FailureCode {
    InvalidArgument,
    StaleContext,
    Internal,
    NotReady,
}

} // verus!
