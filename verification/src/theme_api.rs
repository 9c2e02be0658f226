//! What a theme is given to show, and what it hands back.
use crate::message::{ContextToken, ModeIndicatorReason, RendererEvent, RendererEventAction};
use crate::state::Owner;
use vstd::prelude::*;

verus! {

/// What a theme can show besides candidates.
#[derive(Clone, Copy, Debug, PartialEq, Eq, Structural)]
pub struct ThemeCapabilities {
    /// Whether it shows the composition outside of the host.
    pub preedit: bool,
    /// Whether it stays on the screen while an input session is active.
    pub resident: bool,
    /// Whether it shows mode indicators.
    pub mode_indicator: bool,
}

impl ThemeCapabilities {
    /// What a theme has that shows candidates and nothing else.
    pub fn candidates_only() -> (r: Self)
        ensures
            r == (ThemeCapabilities { preedit: false, resident: false, mode_indicator: false }),
    {
        ThemeCapabilities { preedit: false, resident: false, mode_indicator: false }
    }
}

/// A rectangle in physical screen pixels.
#[derive(Clone, Copy, Debug, PartialEq, Eq, Structural)]
pub struct Anchor {
    pub left: i32,
    pub top: i32,
    pub right: i32,
    pub bottom: i32,
    pub valid: bool,
}

impl Default for Anchor {
    fn default() -> (r: Self)
        ensures
            r == (Anchor { left: 0, top: 0, right: 0, bottom: 0, valid: false }),
    {
        Anchor { left: 0, top: 0, right: 0, bottom: 0, valid: false }
    }
}

/// One candidate, as a theme shows it.
#[derive(Debug, PartialEq, Eq)]
pub struct CandidateItem {
    pub primary_text: String,
    pub secondary_text: String,
    pub enabled: bool,
}

#[verifier::ext_equal]
pub ghost struct CandidateItemView {
    pub primary_text: Seq<char>,
    pub secondary_text: Seq<char>,
    pub enabled: bool,
}

impl View for CandidateItem {
    type V = CandidateItemView;

    open spec fn view(&self) -> CandidateItemView {
        CandidateItemView {
            primary_text: self.primary_text@,
            secondary_text: self.secondary_text@,
            enabled: self.enabled,
        }
    }
}

impl Clone for CandidateItem {
    fn clone(&self) -> (r: Self)
        ensures
            r@ == self@,
    {
        CandidateItem {
            primary_text: self.primary_text.clone(),
            secondary_text: self.secondary_text.clone(),
            enabled: self.enabled,
        }
    }
}

impl Default for CandidateItem {
    fn default() -> (r: Self)
        ensures
            r@ == (CandidateItemView {
                primary_text: Seq::empty(),
                secondary_text: Seq::empty(),
                enabled: false,
            }),
    {
        CandidateItem { primary_text: String::new(), secondary_text: String::new(), enabled: false }
    }
}

/// Whether two items show the same.
pub fn same_item(a: &CandidateItem, b: &CandidateItem) -> (r: bool)
    ensures
        r == (a@ == b@),
{
    let r: bool = a.primary_text == b.primary_text && a.secondary_text == b.secondary_text
        && a.enabled == b.enabled;
    assert(r == (a@ == b@));
    r
}

/// The views of a list of items, in order.
pub open spec fn candidate_item_views(s: Seq<CandidateItem>) -> Seq<CandidateItemView> {
    Seq::new(s.len(), |i: int| s[i]@)
}

/// A copy of a list of items.
fn clone_candidate_items(list: &Vec<CandidateItem>) -> (r: Vec<CandidateItem>)
    ensures
        candidate_item_views(r@) == candidate_item_views(list@),
{
    let mut copy: Vec<CandidateItem> = Vec::new();
    let mut i: usize = 0;
    while i < list.len()
        invariant
            i <= list.len(),
            copy.len() == i,
            forall|j: int| 0 <= j < i ==> (#[trigger] copy[j])@ == list[j]@,
        decreases list.len() - i,
    {
        copy.push(list[i].clone());
        i += 1;
    }
    copy
}

/// A composition that a theme shows, and its cursor in UTF-16 code units.
#[derive(Debug, PartialEq, Eq)]
pub struct Preedit {
    pub text: String,
    pub cursor: u32,
}

#[verifier::ext_equal]
pub ghost struct PreeditView {
    pub text: Seq<char>,
    pub cursor: u32,
}

impl View for Preedit {
    type V = PreeditView;

    open spec fn view(&self) -> PreeditView {
        PreeditView { text: self.text@, cursor: self.cursor }
    }
}

/// The view of an optional preedit.
pub open spec fn theme_preedit_view(preedit: Option<Preedit>) -> Option<PreeditView> {
    match preedit {
        Some(p) => Some(p@),
        None => None,
    }
}

/// A short notice of the input mode.
#[derive(Clone, Copy, Debug, PartialEq, Eq, Structural)]
pub struct ThemeModeIndicator {
    pub id: u64,
    pub ascii_mode: bool,
    /// Never unspecified.
    pub reason: ModeIndicatorReason,
}

/// All that a theme shows at one moment.
#[derive(Debug, PartialEq, Eq)]
pub struct CandidateView {
    /// Changes with the content and with whom it belongs to, but not with its place.
    pub content_id: u64,
    pub visible: bool,
    pub active: bool,
    pub ascii_mode: Option<bool>,
    pub mode_indicator: Option<ThemeModeIndicator>,
    pub preedit: Option<Preedit>,
    pub anchor: Option<Anchor>,
    pub items: Vec<CandidateItem>,
    pub selected_index: u32,
    pub page_start: u32,
    pub total_item_count: Option<u32>,
    pub can_page_previous: bool,
    pub can_page_next: bool,
}

#[verifier::ext_equal]
pub ghost struct CandidateViewView {
    pub content_id: u64,
    pub visible: bool,
    pub active: bool,
    pub ascii_mode: Option<bool>,
    pub mode_indicator: Option<ThemeModeIndicator>,
    pub preedit: Option<PreeditView>,
    pub anchor: Option<Anchor>,
    pub items: Seq<CandidateItemView>,
    pub selected_index: u32,
    pub page_start: u32,
    pub total_item_count: Option<u32>,
    pub can_page_previous: bool,
    pub can_page_next: bool,
}

impl View for CandidateView {
    type V = CandidateViewView;

    open spec fn view(&self) -> CandidateViewView {
        CandidateViewView {
            content_id: self.content_id,
            visible: self.visible,
            active: self.active,
            ascii_mode: self.ascii_mode,
            mode_indicator: self.mode_indicator,
            preedit: theme_preedit_view(self.preedit),
            anchor: self.anchor,
            items: candidate_item_views(self.items@),
            selected_index: self.selected_index,
            page_start: self.page_start,
            total_item_count: self.total_item_count,
            can_page_previous: self.can_page_previous,
            can_page_next: self.can_page_next,
        }
    }
}

impl Clone for CandidateView {
    fn clone(&self) -> (r: Self)
        ensures
            r@ == self@,
    {
        CandidateView {
            content_id: self.content_id,
            visible: self.visible,
            active: self.active,
            ascii_mode: self.ascii_mode,
            mode_indicator: self.mode_indicator,
            preedit: match &self.preedit {
                Some(p) => Some(Preedit { text: p.text.clone(), cursor: p.cursor }),
                None => None,
            },
            anchor: self.anchor,
            items: clone_candidate_items(&self.items),
            selected_index: self.selected_index,
            page_start: self.page_start,
            total_item_count: self.total_item_count,
            can_page_previous: self.can_page_previous,
            can_page_next: self.can_page_next,
        }
    }
}

impl Default for CandidateView {
    fn default() -> (r: Self)
        ensures
            r@ == (CandidateViewView {
                content_id: 0,
                visible: false,
                active: false,
                ascii_mode: None,
                mode_indicator: None,
                preedit: None,
                anchor: None,
                items: Seq::empty(),
                selected_index: 0,
                page_start: 0,
                total_item_count: None,
                can_page_previous: false,
                can_page_next: false,
            }),
    {
        let r = CandidateView {
            content_id: 0,
            visible: false,
            active: false,
            ascii_mode: None,
            mode_indicator: None,
            preedit: None,
            anchor: None,
            items: Vec::new(),
            selected_index: 0,
            page_start: 0,
            total_item_count: None,
            can_page_previous: false,
            can_page_next: false,
        };
        assert(r@.items =~= Seq::<CandidateItemView>::empty());
        r
    }
}

/// Whether two views have the same content, wherever they are shown.
pub open spec fn same_view_content(a: CandidateViewView, b: CandidateViewView) -> bool {
    &&& a.content_id == b.content_id
    &&& a.items == b.items
    &&& a.selected_index == b.selected_index
    &&& a.page_start == b.page_start
    &&& a.total_item_count == b.total_item_count
    &&& a.can_page_previous == b.can_page_previous
    &&& a.can_page_next == b.can_page_next
}

/// Whether two lists show the same items.
fn same_items(a: &Vec<CandidateItem>, b: &Vec<CandidateItem>) -> (r: bool)
    ensures
        r == (candidate_item_views(a@) == candidate_item_views(b@)),
{
    if a.len() != b.len() {
        assert(candidate_item_views(a@).len() != candidate_item_views(b@).len());
        return false;
    }
    let mut i: usize = 0;
    while i < a.len()
        invariant
            a.len() == b.len(),
            i <= a.len(),
            forall|j: int| 0 <= j < i ==> (#[trigger] a[j])@ == b[j]@,
        decreases a.len() - i,
    {
        if !same_item(&a[i], &b[i]) {
            assert(candidate_item_views(a@)[i as int] != candidate_item_views(b@)[i as int]);
            return false;
        }
        i += 1;
    }
    assert(candidate_item_views(a@) =~= candidate_item_views(b@));
    true
}

/// Whether two views have the same content, wherever they are shown.
pub fn same_content(a: &CandidateView, b: &CandidateView) -> (r: bool)
    ensures
        r == same_view_content(a@, b@),
{
    a.content_id == b.content_id && same_items(&a.items, &b.items) && a.selected_index
        == b.selected_index && a.page_start == b.page_start && a.total_item_count
        == b.total_item_count && a.can_page_previous == b.can_page_previous && a.can_page_next
        == b.can_page_next
}

/// Moving a view, or showing and hiding it, does not change its content.
pub proof fn law_geometry_is_not_content(
    view: CandidateViewView,
    anchor: Option<Anchor>,
    visible: bool,
)
    ensures
        same_view_content(view, CandidateViewView { anchor, visible, ..view }),
{
}

/// What the user did in a theme's window.
#[derive(Clone, Copy, Debug, PartialEq, Eq, Structural)]
pub enum UiAction {
    ItemInvoked(u32),
    NavigatePrevious,
    NavigateNext,
    Dismiss,
    OpenEmojiPanel,
}

/// Takes the actions of one displayed frame. It keeps the identity that the
/// frame was made with, whatever is shown later.
pub struct EventSink {
    owner: Owner,
    session_id: u64,
    token: Option<ContextToken>,
    revision: u64,
    enabled: Vec<bool>,
    previous: bool,
    next: bool,
}

/// The identity of a frame, and which of its actions it allows.
#[verifier::ext_equal]
pub ghost struct FrameView {
    pub owner: Owner,
    pub session_id: u64,
    pub token: Option<ContextToken>,
    pub revision: u64,
    pub enabled: Seq<bool>,
    pub previous: bool,
    pub next: bool,
}

/// The protocol's action and item for what the user did, where the frame allows it.
pub open spec fn frame_action(frame: FrameView, action: UiAction) -> Option<
    (RendererEventAction, u32),
> {
    match action {
        UiAction::ItemInvoked(i) => if i < frame.enabled.len() && frame.enabled[i as int] {
            Some((RendererEventAction::ItemInvoked, i))
        } else {
            None
        },
        UiAction::NavigatePrevious => if frame.previous {
            Some((RendererEventAction::NavigatePrevious, 0))
        } else {
            None
        },
        UiAction::NavigateNext => if frame.next {
            Some((RendererEventAction::NavigateNext, 0))
        } else {
            None
        },
        UiAction::Dismiss => Some((RendererEventAction::Dismiss, 0)),
        UiAction::OpenEmojiPanel => Some((RendererEventAction::OpenEmojiPanel, 0)),
    }
}

/// The event that an action of a frame becomes, and the connection that it goes to;
/// none where the frame does not allow the action.
pub open spec fn sent(frame: FrameView, action: UiAction) -> Option<(Owner, RendererEvent)> {
    match frame_action(frame, action) {
        Some((kind, item_index)) => Some(
            (
                frame.owner,
                RendererEvent {
                    session_id: frame.session_id,
                    token: frame.token,
                    revision: frame.revision,
                    action: kind,
                    item_index,
                },
            ),
        ),
        None => None,
    }
}

impl View for EventSink {
    type V = FrameView;

    closed spec fn view(&self) -> FrameView {
        FrameView {
            owner: self.owner,
            session_id: self.session_id,
            token: self.token,
            revision: self.revision,
            enabled: self.enabled@,
            previous: self.previous,
            next: self.next,
        }
    }
}

impl Clone for EventSink {
    fn clone(&self) -> (r: Self)
        ensures
            r@ == self@,
    {
        let mut enabled: Vec<bool> = Vec::new();
        let mut i: usize = 0;
        while i < self.enabled.len()
            invariant
                i <= self.enabled.len(),
                enabled@ == self.enabled@.take(i as int),
            decreases self.enabled.len() - i,
        {
            enabled.push(self.enabled[i]);
            i += 1;
            assert(enabled@ =~= self.enabled@.take(i as int));
        }
        assert(enabled@ =~= self.enabled@);
        EventSink {
            owner: self.owner,
            session_id: self.session_id,
            token: self.token,
            revision: self.revision,
            enabled,
            previous: self.previous,
            next: self.next,
        }
    }
}

impl EventSink {
    /// The sink of a frame with the given identity and allowed actions.
    pub fn new(
        owner: Owner,
        session_id: u64,
        token: Option<ContextToken>,
        revision: u64,
        enabled: Vec<bool>,
        previous: bool,
        next: bool,
    ) -> (r: Self)
        ensures
            r@ == (FrameView {
                owner,
                session_id,
                token,
                revision,
                enabled: enabled@,
                previous,
                next,
            }),
    {
        EventSink { owner, session_id, token, revision, enabled, previous, next }
    }

    /// The event that an action of the frame becomes, and the connection that it
    /// goes to; none where the frame does not allow the action.
    pub fn send(&self, action: UiAction) -> (r: Option<(Owner, RendererEvent)>)
        ensures
            r == sent(self@, action),
    {
        let (kind, item_index): (RendererEventAction, u32) = match action {
            UiAction::ItemInvoked(i) => {
                if (i as usize) < self.enabled.len() && self.enabled[i as usize] {
                    (RendererEventAction::ItemInvoked, i)
                } else {
                    return None;
                }
            },
            UiAction::NavigatePrevious => {
                if !self.previous {
                    return None;
                }
                (RendererEventAction::NavigatePrevious, 0)
            },
            UiAction::NavigateNext => {
                if !self.next {
                    return None;
                }
                (RendererEventAction::NavigateNext, 0)
            },
            UiAction::Dismiss => (RendererEventAction::Dismiss, 0),
            UiAction::OpenEmojiPanel => (RendererEventAction::OpenEmojiPanel, 0),
        };
        Some(
            (
                self.owner,
                RendererEvent {
                    session_id: self.session_id,
                    token: self.token,
                    revision: self.revision,
                    action: kind,
                    item_index,
                },
            ),
        )
    }
}

/// How much a notice matters.
#[derive(Clone, Copy, Debug, PartialEq, Eq, Structural)]
pub enum NoticeSeverity {
    Info,
    Warning,
    Error,
}

/// Something that a theme wants the user to know.
#[derive(Debug, PartialEq, Eq)]
pub struct ThemeNotice {
    pub severity: NoticeSeverity,
    pub code: String,
    pub message: String,
    pub details: String,
}

#[verifier::ext_equal]
pub ghost struct ThemeNoticeView {
    pub severity: NoticeSeverity,
    pub code: Seq<char>,
    pub message: Seq<char>,
    pub details: Seq<char>,
}

impl View for ThemeNotice {
    type V = ThemeNoticeView;

    open spec fn view(&self) -> ThemeNoticeView {
        ThemeNoticeView {
            severity: self.severity,
            code: self.code@,
            message: self.message@,
            details: self.details@,
        }
    }
}

/// The views of notices, in order.
pub open spec fn notice_views(s: Seq<ThemeNotice>) -> Seq<ThemeNoticeView> {
    Seq::new(s.len(), |i: int| s[i]@)
}

/// How the renderer runs: fed by the server, or as a stand-in that shows a skin.
#[derive(Clone, Copy, Debug, PartialEq, Eq, Structural)]
pub enum UiMode {
    Live,
    Preview,
}

/// A theme's window. Its resources stay on the thread that made them.
pub trait ThemeBackend: Sized {
    /// What the theme has gathered for the user since it was last asked. A theme that
    /// does not say leaves it open.
    open spec fn gathered(&self) -> Seq<ThemeNoticeView> {
        vstd::pervasive::arbitrary()
    }

    /// Whether a theme that was asked for its notices is, but for these, as it was. A
    /// theme that does not say leaves it open.
    open spec fn else_unchanged(&self, after: &Self) -> bool {
        vstd::pervasive::arbitrary()
    }

    fn render(&mut self, view: &CandidateView, events: &EventSink) -> Result<(), String>;

    /// Takes the window off the screen.
    fn conceal(&mut self);

    /// Drops cached colours and fonts. It does not show what is hidden.
    fn refresh_appearance(&mut self) -> Result<(), String>;

    /// What the theme wants the user to know since it was last asked. The theme keeps
    /// none of it, and nothing else of the theme changes.
    fn take_notices(&mut self) -> (r: Vec<ThemeNotice>)
        ensures
            notice_views(r@) == old(self).gathered(),
            final(self).gathered() == Seq::<ThemeNoticeView>::empty(),
            old(self).else_unchanged(final(self)),
    ;

    /// An error that a callback of the window has met.
    fn check_health(&mut self) -> Result<(), String>;
}

} // verus!
