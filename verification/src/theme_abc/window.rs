//! The two windows of the classic look, one for what is entered and one for the
//! candidates: what they show, where they go, and how they answer.
use super::logic::{
    candidate_position, Gesture, Hit, Layout, Recovery, Role, CANDIDATE_WIDTH, GAP, INPUT_HEIGHT,
    INPUT_WIDTH, MAX_ROWS,
};
#[allow(unused_imports)]
use super::logic::{
    after_motion, after_press, beside, hit_of, page_cells, released, text_bottom, Cell,
};
use crate::geometry::{add_within, pixels, scale_down, Rect};
#[allow(unused_imports)]
use crate::geometry::{clamp32, pixels_of, scaled_down};
use crate::json::{as_bool, get, parse_text};
#[allow(unused_imports)]
use crate::json::{json_member, json_of_text, json_tree, read_view, Json};
use crate::message::{RenderRect, RendererEvent};
use crate::presentation::{is_view_visible, popup_position};
#[allow(unused_imports)]
use crate::presentation::{placed, view_visible};
use crate::state::Owner;
use crate::text::join2;
use crate::theme_api::{same_content, Anchor, CandidateView, EventSink};
#[allow(unused_imports)]
use crate::theme_api::{same_view_content, sent, CandidateViewView, FrameView};
use crate::theme_window::{
    health_of, keep_first, shown_result, Input, Placing, Step, MA_NOACTIVATE,
};
#[allow(unused_imports)]
use crate::theme_window::{first_error, outcome_view, shown_outcome, text_view};
use crate::xaml_host::Placement;
use vstd::prelude::*;

verus! {

/// What a window shows.
pub struct Content {
    pub snapshot: CandidateView,
    pub events: EventSink,
    pub layout: Layout,
}

#[verifier::ext_equal]
pub ghost struct ContentView {
    pub snapshot: CandidateViewView,
    pub events: FrameView,
}

/// One of the two windows.
pub struct Window {
    pub role: Role,
    pub preview: bool,
    pub dpi: u32,
    pub content: Option<Content>,
    pub gesture: Gesture,
    pub error: Option<String>,
    pub recovery: Recovery,
    pub placing: Placing,
}

#[verifier::ext_equal]
pub ghost struct WindowView {
    pub role: Role,
    pub preview: bool,
    pub dpi: u32,
    pub content: Option<ContentView>,
    pub gesture: Gesture,
    pub error: Option<Seq<char>>,
    pub recovery: Recovery,
    pub placing: Placing,
}

/// The view of optional content.
pub open spec fn content_view(content: Option<Content>) -> Option<ContentView> {
    match content {
        Some(c) => Some(ContentView { snapshot: c.snapshot@, events: c.events@ }),
        None => None,
    }
}

impl View for Window {
    type V = WindowView;

    open spec fn view(&self) -> WindowView {
        WindowView {
            role: self.role,
            preview: self.preview,
            dpi: self.dpi,
            content: content_view(self.content),
            gesture: self.gesture,
            error: text_view(self.error),
            recovery: self.recovery,
            placing: self.placing,
        }
    }
}

/// The cells of a window for a page of candidates.
pub open spec fn cells_of(role: Role, count: nat) -> Seq<Cell> {
    if role == Role::Input {
        Seq::empty()
    } else {
        page_cells(count)
    }
}

/// The width and the height of a window for a page of candidates.
pub open spec fn size_of(role: Role, count: nat) -> (nat, nat) {
    if role == Role::Input {
        (INPUT_WIDTH as nat, INPUT_HEIGHT as nat)
    } else {
        (CANDIDATE_WIDTH as nat, text_bottom(count) + 24)
    }
}

impl Window {
    /// What every window keeps: its layout is the one for what it shows, and it has a
    /// resolution.
    pub open spec fn wf(&self) -> bool {
        &&& self.dpi > 0
        &&& self.content matches Some(c) ==> {
            let count = c.snapshot.items@.len();
            &&& count <= MAX_ROWS
            &&& c.layout.cells@ == cells_of(self.role, count)
            &&& (c.layout.width as nat, c.layout.height as nat) == size_of(self.role, count)
        }
    }
}

/// What a frame leads to.
#[derive(Clone, Copy, Debug, PartialEq, Eq, Structural)]
pub enum RenderPlan {
    /// The window only finds its place.
    Move,
    /// The window goes.
    Conceal,
    /// The window finds its place, is shown and drawn; it becomes the active one where
    /// it is a preview of the candidates.
    Show { activate: bool },
}

/// Whether a window has something to show of a view.
pub open spec fn has_content(role: Role, view: CandidateViewView) -> bool {
    &&& view.visible
    &&& view.anchor matches Some(anchor) && anchor.valid
    &&& role == Role::Input ==> view.preedit is Some
    &&& role == Role::Candidates ==> view.items.len() > 0
}

/// Whether a view only moves what a window shows.
pub open spec fn only_moves(w: WindowView, view: CandidateViewView) -> bool {
    w.content matches Some(c) && view_visible(view) && same_view_content(c.snapshot, view)
}

/// A window that shows nothing.
pub open spec fn concealed(w: WindowView) -> WindowView {
    WindowView {
        content: None,
        gesture: Gesture { pressed: None, hovered: None },
        recovery: Recovery { waiting: false, ..w.recovery },
        ..w
    }
}

/// What a window makes of a view; `checked` is what is wrong with the text that is
/// being entered, where there is one.
pub open spec fn plan_for(w: WindowView, view: CandidateViewView, checked: Option<Seq<char>>) ->
    Result<RenderPlan, Seq<char>> {
    if view.preedit is Some && checked is Some {
        Err(checked->0)
    } else if only_moves(w, view) {
        Ok(RenderPlan::Move)
    } else if w.error is Some {
        Err(w.error->0)
    } else if !has_content(w.role, view) {
        Ok(RenderPlan::Conceal)
    } else {
        Ok(RenderPlan::Show { activate: w.preview && w.role == Role::Candidates })
    }
}

/// The window after it was asked to show a view. A view that only moves it does not
/// end a press.
pub open spec fn after_view(
    w: WindowView,
    view: CandidateViewView,
    events: FrameView,
    checked: Option<Seq<char>>,
) -> WindowView {
    let shown = Some(ContentView { snapshot: view, events });
    let calm = WindowView { gesture: Gesture { pressed: None, hovered: None }, ..w };
    match plan_for(w, view, checked) {
        Err(_) => if view.preedit is Some && checked is Some {
            w
        } else {
            calm
        },
        Ok(RenderPlan::Move) => WindowView { content: shown, ..w },
        Ok(RenderPlan::Conceal) => concealed(w),
        Ok(RenderPlan::Show { .. }) => WindowView { content: shown, ..calm },
    }
}

/// The outcome of planning.
pub open spec fn plan_view(r: Result<RenderPlan, String>) -> Result<RenderPlan, Seq<char>> {
    match r {
        Ok(plan) => Ok(plan),
        Err(error) => Err(error@),
    }
}

/// The anchor of a view, as a rectangle of the screen.
pub open spec fn rect_of(anchor: Anchor) -> RenderRect {
    RenderRect {
        left: anchor.left,
        top: anchor.top,
        right: anchor.right,
        bottom: anchor.bottom,
        valid: anchor.valid,
    }
}

/// Where something goes that belongs to an anchor.
pub open spec fn popup(anchor: Anchor, width: int, height: int, work: Option<Rect>) -> (int, int) {
    match work {
        Some(area) => placed(rect_of(anchor), width, height, area),
        None => (anchor.left as int, anchor.bottom as int),
    }
}

/// How far the candidates stand to the right of the input window's left edge.
pub open spec fn candidate_offset(view: CandidateViewView) -> nat {
    if view.preedit is Some && view.items.len() > 0 {
        (INPUT_WIDTH + GAP) as nat
    } else {
        0
    }
}

/// The size of both windows together.
pub open spec fn group_size(view: CandidateViewView) -> (nat, nat) {
    if view.items.len() > 0 {
        (
            candidate_offset(view) + CANDIDATE_WIDTH as nat,
            size_of(Role::Candidates, view.items.len()).1,
        )
    } else {
        (INPUT_WIDTH as nat, INPUT_HEIGHT as nat)
    }
}

/// Where a window goes that is no preview: the input window below the anchor, and
/// the candidates beside it, or in its place where there is none.
pub open spec fn live_place(
    role: Role,
    view: CandidateViewView,
    anchor: Anchor,
    dpi: nat,
    work: Option<Rect>,
) -> (int, int) {
    let page = size_of(Role::Candidates, view.items.len());
    let size = (pixels_of(page.0, dpi), pixels_of(page.1, dpi));
    let input_width = pixels_of(INPUT_WIDTH as nat, dpi);
    let input = popup(anchor, input_width, pixels_of(INPUT_HEIGHT as nat, dpi), work);
    if view.preedit is None {
        popup(anchor, size.0, size.1, work)
    } else if role == Role::Input {
        input
    } else {
        match work {
            Some(area) => beside(
                input,
                input_width,
                size,
                pixels_of(GAP as nat, dpi),
                Anchor {
                    left: area.left,
                    top: area.top,
                    right: area.right,
                    bottom: area.bottom,
                    valid: true,
                },
            ),
            None => (
                clamp32(input.0 + pixels_of(candidate_offset(view), dpi)),
                input.1,
            ),
        }
    }
}

/// Where a window goes and how large it becomes; none where it shows nothing, or
/// where its view has no place.
pub open spec fn bounds_of(w: WindowView, preview_at: (i32, i32), work: Option<Rect>) -> Option<
    (int, int, int, int),
> {
    match w.content {
        None => None,
        Some(c) => {
            let view = c.snapshot;
            let dpi = w.dpi as nat;
            let size = size_of(w.role, view.items.len());
            let width = pixels_of(size.0, dpi);
            let height = pixels_of(size.1, dpi);
            if w.preview {
                Some(
                    (
                        if w.role == Role::Candidates && view.preedit is Some {
                            clamp32(preview_at.0 + pixels_of(candidate_offset(view), dpi))
                        } else {
                            preview_at.0 as int
                        },
                        preview_at.1 as int,
                        width,
                        height,
                    ),
                )
            } else {
                match view.anchor {
                    Some(anchor) if anchor.valid => {
                        let at = live_place(w.role, view, anchor, dpi, work);
                        Some((at.0, at.1, width, height))
                    },
                    _ => None,
                }
            }
        },
    }
}

/// What lies under a point of a window, given in pixels.
pub open spec fn hit_at(w: WindowView, x: i32, y: i32) -> Option<Hit> {
    match w.content {
        Some(c) => hit_of(
            cells_of(w.role, c.snapshot.items.len()),
            scaled_down(x as int, 96, w.dpi as int),
            scaled_down(y as int, 96, w.dpi as int),
        ),
        None => None,
    }
}

/// The window after a message.
pub open spec fn after_input(w: WindowView, input: Input) -> WindowView {
    let calm = WindowView { gesture: Gesture { pressed: None, hovered: None }, ..w };
    match input {
        Input::Resolution(dpi) => WindowView { dpi, ..calm },
        Input::Retry => WindowView { recovery: Recovery { waiting: false, ..w.recovery }, ..w },
        Input::Down { x, y } => WindowView {
            gesture: match w.content {
                Some(c) => after_press(w.gesture, hit_at(w, x, y), c.snapshot),
                None => w.gesture,
            },
            ..w
        },
        Input::Up { .. } | Input::Gone => calm,
        Input::Motion { x, y } => WindowView {
            gesture: after_motion(w.gesture, hit_at(w, x, y)),
            ..w
        },
        _ => w,
    }
}

/// What the window does about a message.
pub open spec fn step_for(w: WindowView, input: Input) -> Step {
    match input {
        Input::Paint => if w.error is None && !w.recovery.waiting {
            Step::Paint
        } else {
            Step::Return(0)
        },
        Input::Erase => Step::Return(1),
        Input::Close => if w.preview {
            Step::Quit
        } else {
            Step::Default
        },
        Input::Activate => if w.preview && w.role == Role::Candidates {
            Step::Default
        } else {
            Step::Return(MA_NOACTIVATE)
        },
        Input::Resized => Step::Resize,
        Input::Resolution(_) => Step::Reposition,
        Input::Retry => Step::Retry,
        Input::Down { .. } => Step::Press {
            hold: after_input(w, input).gesture.pressed is Some,
            redraw: true,
        },
        Input::Up { x, y } => Step::Click(
            match w.content {
                Some(c) => match released(w.gesture, hit_at(w, x, y), c.snapshot) {
                    Some(action) => sent(c.events, action),
                    None => None,
                },
                None => None,
            },
        ),
        Input::Motion { .. } => Step::Track,
        Input::Gone => Step::Release,
        Input::Destroyed => Step::Detach,
        Input::Other => Step::Default,
    }
}

impl Window {
    /// A window that shows nothing.
    pub fn new(role: Role, preview: bool, dpi: u32) -> (r: Self)
        ensures
            r.wf(),
            r@ == (WindowView {
                role,
                preview,
                dpi: if dpi == 0 {
                    1
                } else {
                    dpi
                },
                content: None,
                gesture: Gesture { pressed: None, hovered: None },
                error: None,
                recovery: Recovery { failures: 0, waiting: false },
                placing: Placing { active: false },
            }),
    {
        Window {
            role,
            preview,
            dpi: if dpi == 0 {
                1
            } else {
                dpi
            },
            content: None,
            gesture: Gesture { pressed: None, hovered: None },
            error: None,
            recovery: Recovery { failures: 0, waiting: false },
            placing: Placing { active: false },
        }
    }

    /// Keeps an error, where it is the first.
    pub fn fail(&mut self, error: String)
        requires
            old(self).wf(),
        ensures
            final(self).wf(),
            final(self)@ == (WindowView {
                error: first_error(old(self)@.error, error@),
                ..old(self)@
            }),
    {
        keep_first(&mut self.error, error);
    }

    /// The error that the window has met, if it has met one.
    pub fn health(&self) -> (r: Result<(), String>)
        ensures
            match r {
                Ok(()) => self@.error is None,
                Err(error) => self@.error == Some(error@),
            },
    {
        health_of(&self.error)
    }

    /// Forgets what the window shows.
    pub fn conceal(&mut self)
        requires
            old(self).wf(),
        ensures
            final(self).wf(),
            final(self)@ == concealed(old(self)@),
    {
        self.gesture.cancel();
        self.content = None;
        self.recovery.waiting = false;
    }

    /// Takes a view, and says what the window does; `checked` is what is wrong with the
    /// text that is being entered, if anything is.
    pub fn render(&mut self, snapshot: CandidateView, events: EventSink, checked: Option<String>) -> (r:
        Result<RenderPlan, String>)
        requires
            old(self).wf(),
            snapshot.items@.len() <= MAX_ROWS,
        ensures
            final(self).wf(),
            plan_view(r) == plan_for(old(self)@, snapshot@, text_view(checked)),
            final(self)@ == after_view(old(self)@, snapshot@, events@, text_view(checked)),
    {
        if snapshot.preedit.is_some() {
            if let Some(error) = checked {
                return Err(error);
            }
        }
        let moves: bool = match &self.content {
            Some(content) => is_view_visible(&snapshot) && same_content(
                &content.snapshot,
                &snapshot,
            ),
            None => false,
        };
        if moves {
            let layout: Layout = Layout::new(snapshot.items.len(), self.role);
            self.content = Some(Content { snapshot, events, layout });
            return Ok(RenderPlan::Move);
        }
        self.gesture.cancel();
        if let Some(error) = &self.error {
            return Err(error.clone());
        }
        let anchored: bool = match &snapshot.anchor {
            Some(anchor) => anchor.valid,
            None => false,
        };
        if !snapshot.visible || !anchored || (self.role == Role::Input
            && snapshot.preedit.is_none()) || (self.role == Role::Candidates
            && snapshot.items.len() == 0) {
            self.conceal();
            return Ok(RenderPlan::Conceal);
        }
        let layout: Layout = Layout::new(snapshot.items.len(), self.role);
        self.content = Some(Content { snapshot, events, layout });
        Ok(RenderPlan::Show { activate: self.preview && self.role == Role::Candidates })
    }

    /// What comes of showing a frame that led to a plan; `placed` is how finding the
    /// window's place went.
    pub fn shown(&self, plan: RenderPlan, placed: Result<(), String>) -> (r: Result<(), String>)
        ensures
            outcome_view(r) == shown_outcome(
                plan == RenderPlan::Conceal,
                outcome_view(placed),
                self@.error,
            ),
    {
        shown_result(plan == RenderPlan::Conceal, placed, &self.error)
    }

    /// The size of both windows together, in pixels, from which the place of a preview
    /// follows; none where nothing is shown.
    pub fn group(&self) -> (r: Option<(i32, i32)>)
        requires
            self.wf(),
        ensures
            match r {
                Some((width, height)) => self@.content matches Some(c) && width == pixels_of(
                    group_size(c.snapshot).0,
                    self.dpi as nat,
                ) && height == pixels_of(group_size(c.snapshot).1, self.dpi as nat),
                None => self@.content is None,
            },
    {
        let view: &CandidateView = match &self.content {
            Some(content) => &content.snapshot,
            None => {
                return None;
            },
        };
        let count: usize = view.items.len();
        if count == 0 {
            return Some((pixels(INPUT_WIDTH, self.dpi), pixels(INPUT_HEIGHT, self.dpi)));
        }
        let page: Layout = Layout::new(count, Role::Candidates);
        let offset: u32 = if view.preedit.is_some() {
            INPUT_WIDTH + GAP
        } else {
            0
        };
        Some((pixels(offset + page.width, self.dpi), pixels(page.height, self.dpi)))
    }

    /// Where the window goes that is no preview.
    fn live_position(&self, view: &CandidateView, anchor: &Anchor, work: Option<Rect>) -> (r: (
        i32,
        i32,
    ))
        requires
            view.items@.len() <= MAX_ROWS,
        ensures
            (r.0 as int, r.1 as int) == live_place(
                self.role,
                view@,
                *anchor,
                self.dpi as nat,
                work,
            ),
    {
        let area: RenderRect = RenderRect {
            left: anchor.left,
            top: anchor.top,
            right: anchor.right,
            bottom: anchor.bottom,
            valid: anchor.valid,
        };
        let dpi: u32 = self.dpi;
        let page: Layout = Layout::new(view.items.len(), Role::Candidates);
        let width: i32 = pixels(page.width, dpi);
        let height: i32 = pixels(page.height, dpi);
        if view.preedit.is_none() {
            return popup_position(&area, width, height, work);
        }
        let input_width: i32 = pixels(INPUT_WIDTH, dpi);
        let input: (i32, i32) = popup_position(
            &area,
            input_width,
            pixels(INPUT_HEIGHT, dpi),
            work,
        );
        if self.role == Role::Input {
            return input;
        }
        match work {
            Some(area) => candidate_position(
                input,
                input_width,
                (width, height),
                pixels(GAP, dpi),
                &Anchor {
                    left: area.left,
                    top: area.top,
                    right: area.right,
                    bottom: area.bottom,
                    valid: true,
                },
            ),
            None => {
                let offset: u32 = if view.items.len() > 0 {
                    INPUT_WIDTH + GAP
                } else {
                    0
                };
                (add_within(input.0, pixels(offset, dpi)), input.1)
            },
        }
    }

    /// Where the window goes and how large it becomes. `preview_at` is where both
    /// windows together go in a preview, and `work` the work area of the anchor's
    /// monitor, where there is one.
    pub fn position(&self, preview_at: (i32, i32), work: Option<Rect>) -> (r: Option<Placement>)
        requires
            self.wf(),
        ensures
            match r {
                Some(p) => bounds_of(self@, preview_at, work) == Some(
                    (p.x as int, p.y as int, p.width as int, p.height as int),
                ),
                None => bounds_of(self@, preview_at, work) is None,
            },
    {
        let content: &Content = match &self.content {
            Some(content) => content,
            None => {
                return None;
            },
        };
        let view: &CandidateView = &content.snapshot;
        let width: i32 = pixels(content.layout.width, self.dpi);
        let height: i32 = pixels(content.layout.height, self.dpi);
        if self.preview {
            let x: i32 = if self.role == Role::Candidates && view.preedit.is_some() {
                let offset: u32 = if view.items.len() > 0 {
                    INPUT_WIDTH + GAP
                } else {
                    0
                };
                add_within(preview_at.0, pixels(offset, self.dpi))
            } else {
                preview_at.0
            };
            return Some(Placement { x, y: preview_at.1, width, height });
        }
        match &view.anchor {
            Some(anchor) => {
                if anchor.valid {
                    let (x, y) = self.live_position(view, anchor, work);
                    Some(Placement { x, y, width, height })
                } else {
                    None
                }
            },
            None => None,
        }
    }

    /// What lies under a point of the window, given in pixels.
    fn hit(&self, x: i32, y: i32) -> (r: Option<Hit>)
        requires
            self.wf(),
        ensures
            r == hit_at(self@, x, y),
    {
        match &self.content {
            Some(content) => content.layout.hit(
                scale_down(x, 96, self.dpi),
                scale_down(y, 96, self.dpi),
            ),
            None => None,
        }
    }

    /// Takes a message, and says what the window does about it.
    pub fn dispatch(&mut self, input: Input) -> (r: Step)
        requires
            old(self).wf(),
            input matches Input::Resolution(dpi) ==> dpi > 0,
        ensures
            final(self).wf(),
            final(self)@ == after_input(old(self)@, input),
            r == step_for(old(self)@, input),
    {
        match input {
            Input::Paint => {
                if self.error.is_none() && !self.recovery.waiting {
                    Step::Paint
                } else {
                    Step::Return(0)
                }
            },
            Input::Erase => Step::Return(1),
            Input::Close => {
                if self.preview {
                    Step::Quit
                } else {
                    Step::Default
                }
            },
            Input::Activate => {
                if self.preview && self.role == Role::Candidates {
                    Step::Default
                } else {
                    Step::Return(MA_NOACTIVATE)
                }
            },
            Input::Resized => Step::Resize,
            Input::Resolution(dpi) => {
                self.dpi = dpi;
                self.gesture.cancel();
                Step::Reposition
            },
            Input::Retry => {
                self.recovery.waiting = false;
                Step::Retry
            },
            Input::Down { x, y } => {
                let hit: Option<Hit> = self.hit(x, y);
                let mut gesture: Gesture = self.gesture;
                if let Some(content) = &self.content {
                    gesture.press(hit, &content.snapshot);
                }
                self.gesture = gesture;
                Step::Press { hold: gesture.pressed.is_some(), redraw: true }
            },
            Input::Up { x, y } => {
                let hit: Option<Hit> = self.hit(x, y);
                let mut gesture: Gesture = self.gesture;
                let event: Option<(Owner, RendererEvent)> = match &self.content {
                    Some(content) => match gesture.release(hit, &content.snapshot) {
                        Some(action) => content.events.send(action),
                        None => None,
                    },
                    None => None,
                };
                self.gesture.cancel();
                Step::Click(event)
            },
            Input::Motion { x, y } => {
                let hit: Option<Hit> = self.hit(x, y);
                self.gesture.motion(hit);
                Step::Track
            },
            Input::Gone => {
                self.gesture.cancel();
                Step::Release
            },
            Input::Destroyed => Step::Detach,
            Input::Other => Step::Default,
        }
    }

    /// Takes that drawing has failed; the result is whether it is tried again after the
    /// timer. What was drawn on is given up.
    pub fn graphics_error(&mut self, error: String, device_lost: bool) -> (r: bool)
        requires
            old(self).wf(),
        ensures
            final(self).wf(),
            r == (device_lost && old(self)@.recovery.failures < 3),
            final(self)@ == (if r {
                WindowView {
                    recovery: Recovery {
                        failures: (old(self)@.recovery.failures + 1) as u8,
                        waiting: true,
                    },
                    ..old(self)@
                }
            } else {
                WindowView { error: first_error(old(self)@.error, error@), ..old(self)@ }
            }),
    {
        if self.recovery.failed(device_lost) {
            true
        } else {
            self.fail(error);
            false
        }
    }

    /// Takes that drawing has worked.
    pub fn painted(&mut self)
        requires
            old(self).wf(),
        ensures
            final(self).wf(),
            final(self)@ == (WindowView {
                recovery: Recovery { failures: 0, waiting: false },
                ..old(self)@
            }),
    {
        self.recovery.succeeded();
    }

    /// Takes that a callback of the window has panicked.
    pub fn callback_panicked(&mut self)
        requires
            old(self).wf(),
        ensures
            final(self).wf(),
            final(self)@ == (WindowView {
                error: Some("theme_abc native callback panicked"@),
                ..old(self)@
            }),
    {
        self.error = Some("theme_abc native callback panicked".to_owned());
    }
}

/// How a window is made.
#[derive(Debug, PartialEq, Eq)]
pub struct WindowStyle {
    /// It has no button in the task bar, and never becomes the active window.
    pub tool: bool,
    /// It can be closed from the keyboard.
    pub system_menu: bool,
    pub title: &'static str,
}

/// How a window is made: only the preview of the candidates can be found and closed.
pub fn window_style(preview: bool, role: Role) -> (r: WindowStyle)
    ensures
        r.tool == !(preview && role == Role::Candidates),
        r.system_menu == preview,
        r.title@ == (if preview && role == Role::Candidates {
            "Weasel-RS 皮肤预览"@
        } else {
            "Weasel candidates"@
        }),
{
    if preview && role == Role::Candidates {
        WindowStyle { tool: false, system_menu: true, title: "Weasel-RS 皮肤预览" }
    } else {
        WindowStyle { tool: true, system_menu: preview, title: "Weasel candidates" }
    }
}

/// Both windows.
pub struct Abc {
    pub input: Window,
    pub candidates: Window,
}

impl Abc {
    /// Forgets what both windows show.
    pub fn conceal(&mut self)
        requires
            old(self).input.wf() && old(self).candidates.wf(),
        ensures
            final(self).input.wf() && final(self).candidates.wf(),
            final(self).input@ == concealed(old(self).input@),
            final(self).candidates@ == concealed(old(self).candidates@),
    {
        self.input.conceal();
        self.candidates.conceal();
    }

    /// Takes how showing a view went, in the window of the candidates first; where it
    /// went wrong in either, both windows go.
    pub fn presented(
        &mut self,
        candidates: Result<(), String>,
        input: Option<Result<(), String>>,
    ) -> (r: Result<(), String>)
        requires
            old(self).input.wf() && old(self).candidates.wf(),
        ensures
            final(self).input.wf() && final(self).candidates.wf(),
            r == (match (candidates, input) {
                (Err(error), _) => Err::<(), String>(error),
                (Ok(()), Some(result)) => result,
                (Ok(()), None) => Ok(()),
            }),
            final(self).input@ == (if r is Err {
                concealed(old(self).input@)
            } else {
                old(self).input@
            }),
            final(self).candidates@ == (if r is Err {
                concealed(old(self).candidates@)
            } else {
                old(self).candidates@
            }),
    {
        let result: Result<(), String> = match candidates {
            Err(error) => Err(error),
            Ok(()) => match input {
                Some(result) => result,
                None => Ok(()),
            },
        };
        if result.is_err() {
            self.conceal();
        }
        result
    }

    /// The error that either window has met: the input window's first.
    pub fn check_health(&self) -> (r: Result<(), String>)
        ensures
            match r {
                Ok(()) => self.input@.error is None && self.candidates@.error is None,
                Err(error) => Some(error@) == (if self.input@.error is Some {
                    self.input@.error
                } else {
                    self.candidates@.error
                }),
            },
    {
        match self.input.health() {
            Err(error) => Err(error),
            Ok(()) => self.candidates.health(),
        }
    }
}

/// What the settings say of the classic look's texts, where they say anything.
pub open spec fn antialiasing_of(root: Json) -> Option<Json> {
    match json_member(root, "themeSettings"@) {
        Some(themes) => match json_member(themes, "abc"@) {
            Some(settings) => json_member(settings, "antialiasing"@),
            None => None,
        },
        None => None,
    }
}

/// Whether the edges of texts are smoothed, or why that cannot be said; `wrong` is what
/// is wrong with a setting that is neither true nor false.
pub fn antialiasing(root: &serde_json::Value, wrong: &str) -> (r: Result<bool, String>)
    ensures
        match (antialiasing_of(json_tree(*root)), r) {
            (Some(Json::Bool(b)), r) => r == Ok::<bool, String>(b),
            (Some(_), r) => r matches Err(error) && error@ == wrong@,
            (None, r) => r matches Err(error) && error@ == "missing ABC antialiasing setting"@,
        },
{
    if let Some(themes) = get(root, "themeSettings") {
        if let Some(settings) = get(themes, "abc") {
            if let Some(value) = get(settings, "antialiasing") {
                return match as_bool(value) {
                    Some(b) => Ok(b),
                    None => Err(wrong.to_owned()),
                };
            }
        }
    }
    Err("missing ABC antialiasing setting".to_owned())
}

/// The settings that the classic look was built with.
pub fn default_settings(text: &str) -> (r: Result<serde_json::Value, String>)
    ensures
        read_view(r) == (match json_of_text(text@) {
            Ok(value) => Ok::<Json, Seq<char>>(value),
            Err(error) => Err::<Json, Seq<char>>("invalid ABC default settings: "@ + error),
        }),
{
    match parse_text(text) {
        Ok(value) => Ok(value),
        Err(error) => Err(join2("invalid ABC default settings: ", &error)),
    }
}

/// A view that only moves the window keeps a press, and what it is a press on.
pub proof fn law_moving_keeps_the_press(
    w: WindowView,
    view: CandidateViewView,
    events: FrameView,
)
    requires
        only_moves(w, view),
    ensures
        after_view(w, view, events, None).gesture == w.gesture,
{
}

/// Whatever else is shown, what was pressed before is pressed no longer.
pub proof fn law_new_content_ends_the_press(
    w: WindowView,
    view: CandidateViewView,
    events: FrameView,
)
    requires
        !only_moves(w, view),
    ensures
        after_view(w, view, events, None).gesture == (Gesture { pressed: None, hovered: None }),
{
}

/// Once a window has met an error it is not drawn again, and it shows nothing new.
pub proof fn law_errors_stay(w: WindowView, view: CandidateViewView, input: Input)
    requires
        w.error is Some,
    ensures
        step_for(w, Input::Paint) == Step::Return(0),
        after_input(w, input).error == w.error,
        !only_moves(w, view) ==> plan_for(w, view, None) == Err::<RenderPlan, Seq<char>>(
            w.error->0,
        ),
{
}

/// A click is reported with the identity of the frame on which the button was
/// released, and with no other.
pub proof fn law_clicks_carry_the_frame(w: WindowView, x: i32, y: i32)
    ensures
        step_for(w, Input::Up { x, y }) matches Step::Click(Some((owner, event)))
            ==> w.content is Some && owner == w.content->0.events.owner && event.session_id
            == w.content->0.events.session_id && event.revision == w.content->0.events.revision
            && event.token == w.content->0.events.token,
{
}

} // verus!
