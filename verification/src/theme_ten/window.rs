//! The window of the candidate strip: what it shows, where it goes, and how it answers.
use super::logic::{Gesture, Hit, Layout, Palette, Recovery, HEIGHT, MAX_CELLS};
#[allow(unused_imports)]
use super::logic::{
    after_motion, after_press, dark_palette, hit_of, light_palette, released, strip_cells,
    strip_width,
};
use crate::geometry::{pixels, scale_down, upper, Rect};
#[allow(unused_imports)]
use crate::geometry::{clamp32, larger, pixels_of, scaled_down};
use crate::message::{RenderSnapshot, RendererEvent};
#[allow(unused_imports)]
use crate::message::RenderSnapshotView;
use crate::presentation::{is_visible, popup_position};
#[allow(unused_imports)]
use crate::presentation::{frame_visible, placed};
use crate::state::{same_content, Owner};
#[allow(unused_imports)]
use crate::state::same_frame_content;
use crate::theme_window::{
    health_of, keep_first, shown_result, Input, Placing, Step, MA_NOACTIVATE,
};
#[allow(unused_imports)]
use crate::theme_window::{first_error, outcome_view, shown_outcome, text_view};
use crate::xaml_host::Placement;
use vstd::prelude::*;

verus! {

/// Number of parts in an inch.
pub const PARTS_PER_INCH: u32 = 3264;

/// A length in parts, in pixels: rounded to the nearest, a half upwards, and at least
/// one.
pub open spec fn part_pixels(parts: nat, dpi: nat) -> int {
    larger(clamp32((2 * parts * dpi + PARTS_PER_INCH as nat) as int / 6528), 1)
}

/// A length in parts, in pixels.
pub fn pixels_of_parts(parts: u64, dpi: u32) -> (r: i32)
    ensures
        r == part_pixels(parts as nat, dpi as nat),
{
    assert(0 <= parts * dpi <= 0xffff_ffff_ffff_ffff * 0xffff_ffff) by (nonlinear_arith)
        requires
            0 <= parts <= 0xffff_ffff_ffff_ffff,
            0 <= dpi <= 0xffff_ffff,
    ;
    let product: u128 = (parts as u128) * (dpi as u128);
    assert(2 * product == 2 * parts * dpi) by (nonlinear_arith)
        requires
            product == parts * dpi,
    ;
    let rounded: u128 = (2 * product + PARTS_PER_INCH as u128) / 6528;
    if rounded > 0x7fff_ffff {
        i32::MAX
    } else {
        upper(rounded as i32, 1)
    }
}

/// What the strip shows, and for which connection.
pub struct Content {
    pub snapshot: RenderSnapshot,
    pub owner: Owner,
    pub widths: Vec<u32>,
    pub layout: Layout,
}

#[verifier::ext_equal]
pub ghost struct ContentView {
    pub snapshot: RenderSnapshotView,
    pub owner: Owner,
    pub widths: Seq<u32>,
}

/// The strip's window.
pub struct Window {
    pub dpi: u32,
    pub content: Option<Content>,
    pub gesture: Gesture,
    pub palette: Palette,
    pub error: Option<String>,
    pub recovery: Recovery,
    pub placing: Placing,
}

#[verifier::ext_equal]
pub ghost struct WindowView {
    pub dpi: u32,
    pub content: Option<ContentView>,
    pub gesture: Gesture,
    pub palette: Palette,
    pub error: Option<Seq<char>>,
    pub recovery: Recovery,
    pub placing: Placing,
}

/// The view of optional content.
pub open spec fn content_view(content: Option<Content>) -> Option<ContentView> {
    match content {
        Some(c) => Some(
            ContentView { snapshot: c.snapshot@, owner: c.owner, widths: c.widths@ },
        ),
        None => None,
    }
}

impl View for Window {
    type V = WindowView;

    open spec fn view(&self) -> WindowView {
        WindowView {
            dpi: self.dpi,
            content: content_view(self.content),
            gesture: self.gesture,
            palette: self.palette,
            error: text_view(self.error),
            recovery: self.recovery,
            placing: self.placing,
        }
    }
}

impl Window {
    /// What every strip keeps: its layout is the one for what it shows, and it has a
    /// resolution.
    pub open spec fn wf(&self) -> bool {
        &&& self.dpi > 0
        &&& self.content matches Some(c) ==> {
            &&& c.widths@.len() == c.snapshot.items@.len()
            &&& c.widths@.len() <= MAX_CELLS
            &&& c.layout.cells@ == strip_cells(c.widths@)
            &&& c.layout.width == strip_width(c.widths@)
        }
    }
}

/// What a frame leads to.
#[derive(Clone, Copy, Debug, PartialEq, Eq, Structural)]
pub enum RenderPlan {
    /// The window only finds its place.
    Move,
    /// The window goes.
    Conceal,
    /// The texts are measured; then the window finds its place, is shown without
    /// becoming the active one, and is drawn.
    Measure,
}

/// Whether a frame has a place on the screen.
pub open spec fn has_place(s: RenderSnapshotView) -> bool {
    s.visible && (s.anchor matches Some(anchor) && anchor.valid)
}

/// Whether a frame only moves what the strip shows.
pub open spec fn only_moves(w: WindowView, s: RenderSnapshotView) -> bool {
    w.content matches Some(c) && frame_visible(s) && same_frame_content(c.snapshot, s)
}

/// A strip that nobody points at.
pub open spec fn calm(w: WindowView) -> WindowView {
    WindowView { gesture: Gesture { pressed: None, hovered: None }, ..w }
}

/// A strip that shows nothing.
pub open spec fn concealed(w: WindowView) -> WindowView {
    WindowView { content: None, recovery: Recovery { waiting: false, ..w.recovery }, ..calm(w) }
}

/// What the strip makes of a frame.
pub open spec fn plan_for(w: WindowView, s: RenderSnapshotView) -> Result<RenderPlan, Seq<char>> {
    if only_moves(w, s) {
        Ok(RenderPlan::Move)
    } else if w.error is Some {
        Err(w.error->0)
    } else if has_place(s) {
        Ok(RenderPlan::Measure)
    } else {
        Ok(RenderPlan::Conceal)
    }
}

/// The strip after it was asked to show a frame. A frame that only moves it does not
/// end a press.
pub open spec fn after_frame(w: WindowView, s: RenderSnapshotView, owner: Owner) -> WindowView {
    match plan_for(w, s) {
        Ok(RenderPlan::Move) => WindowView {
            content: Some(ContentView { snapshot: s, owner, ..w.content->0 }),
            ..w
        },
        Ok(RenderPlan::Conceal) => concealed(w),
        _ => calm(w),
    }
}

/// The outcome of planning.
pub open spec fn plan_view(r: Result<RenderPlan, String>) -> Result<RenderPlan, Seq<char>> {
    match r {
        Ok(plan) => Ok(plan),
        Err(error) => Err(error@),
    }
}

/// Where the strip goes and how large it becomes; none where it shows nothing, or where
/// its frame has no place.
pub open spec fn bounds_of(w: WindowView, work: Option<Rect>) -> Option<(int, int, int, int)> {
    match w.content {
        Some(c) => match c.snapshot.anchor {
            Some(anchor) if anchor.valid => {
                let width = part_pixels(strip_width(c.widths), w.dpi as nat);
                let height = pixels_of(HEIGHT as nat, w.dpi as nat);
                let at = match work {
                    Some(area) => placed(anchor, width, height, area),
                    None => (anchor.left as int, anchor.bottom as int),
                };
                Some((at.0, at.1, width, height))
            },
            _ => None,
        },
        None => None,
    }
}

/// What lies under a point of the strip, given in pixels.
pub open spec fn hit_at(w: WindowView, x: i32, y: i32) -> Option<Hit> {
    match w.content {
        Some(c) => hit_of(
            strip_cells(c.widths),
            scaled_down(x as int, PARTS_PER_INCH as int, w.dpi as int),
            scaled_down(y as int, PARTS_PER_INCH as int, w.dpi as int),
        ),
        None => None,
    }
}

/// The strip after a message.
pub open spec fn after_input(w: WindowView, input: Input) -> WindowView {
    match input {
        Input::Resolution(dpi) => WindowView { dpi, ..calm(w) },
        Input::Retry => WindowView { recovery: Recovery { waiting: false, ..w.recovery }, ..w },
        Input::Down { x, y } => WindowView {
            gesture: match w.content {
                Some(c) => after_press(w.gesture, hit_at(w, x, y), c.snapshot),
                None => w.gesture,
            },
            ..w
        },
        Input::Up { .. } | Input::Gone => calm(w),
        Input::Motion { x, y } => WindowView {
            gesture: after_motion(w.gesture, hit_at(w, x, y)),
            ..w
        },
        _ => w,
    }
}

/// What the strip does about a message.
pub open spec fn step_for(w: WindowView, input: Input) -> Step {
    match input {
        Input::Paint => if w.error is None && !w.recovery.waiting {
            Step::Paint
        } else {
            Step::Return(0)
        },
        Input::Erase => Step::Return(1),
        Input::Activate => Step::Return(MA_NOACTIVATE),
        Input::Resized => Step::Resize,
        Input::Resolution(_) => Step::Reposition,
        Input::Retry => Step::Retry,
        Input::Down { .. } => Step::Press {
            hold: after_input(w, input).gesture.pressed is Some,
            redraw: false,
        },
        Input::Up { x, y } => Step::Click(
            match w.content {
                Some(c) => match released(w.gesture, hit_at(w, x, y), c.snapshot) {
                    Some(event) => Some((c.owner, event)),
                    None => None,
                },
                None => None,
            },
        ),
        Input::Motion { .. } => Step::Track,
        Input::Gone => Step::Release,
        Input::Destroyed => Step::Detach,
        Input::Close | Input::Other => Step::Default,
    }
}

impl Window {
    /// A strip that shows nothing.
    pub fn new(dpi: u32, dark: bool) -> (r: Self)
        ensures
            r.wf(),
            r@ == (WindowView {
                dpi: if dpi == 0 {
                    1
                } else {
                    dpi
                },
                content: None,
                gesture: Gesture { pressed: None, hovered: None },
                palette: if dark {
                    dark_palette()
                } else {
                    light_palette()
                },
                error: None,
                recovery: Recovery { failures: 0, waiting: false },
                placing: Placing { active: false },
            }),
    {
        Window {
            dpi: if dpi == 0 {
                1
            } else {
                dpi
            },
            content: None,
            gesture: Gesture { pressed: None, hovered: None },
            palette: Palette::new(dark),
            error: None,
            recovery: Recovery { failures: 0, waiting: false },
            placing: Placing { active: false },
        }
    }

    /// Keeps an error, where it is the first.
    pub fn fail(&mut self, error: String)
        requires
            old(self).wf(),
        ensures
            final(self).wf(),
            final(self)@ == (WindowView {
                error: first_error(old(self)@.error, error@),
                ..old(self)@
            }),
    {
        keep_first(&mut self.error, error);
    }

    /// The error that the strip has met, if it has met one.
    pub fn health(&self) -> (r: Result<(), String>)
        ensures
            match r {
                Ok(()) => self@.error is None,
                Err(error) => self@.error == Some(error@),
            },
    {
        health_of(&self.error)
    }

    /// Forgets what the strip shows.
    pub fn conceal(&mut self)
        requires
            old(self).wf(),
        ensures
            final(self).wf(),
            final(self)@ == concealed(old(self)@),
    {
        self.gesture.cancel();
        self.content = None;
        self.recovery.waiting = false;
    }

    /// Takes the system's look; the strip is then drawn, unless it has met an error.
    pub fn refresh_appearance(&mut self, dark: bool) -> (r: Result<(), String>)
        requires
            old(self).wf(),
        ensures
            final(self).wf(),
            final(self)@ == (WindowView {
                palette: if dark {
                    dark_palette()
                } else {
                    light_palette()
                },
                ..old(self)@
            }),
            match r {
                Ok(()) => old(self)@.error is None,
                Err(error) => old(self)@.error == Some(error@),
            },
    {
        self.palette = Palette::new(dark);
        self.health()
    }

    /// Takes a frame of a connection, and says what the strip does.
    pub fn render(&mut self, snapshot: &RenderSnapshot, owner: Owner) -> (r: Result<
        RenderPlan,
        String,
    >)
        requires
            old(self).wf(),
        ensures
            final(self).wf(),
            plan_view(r) == plan_for(old(self)@, snapshot@),
            final(self)@ == after_frame(old(self)@, snapshot@, owner),
    {
        let moves: bool = match &self.content {
            Some(content) => is_visible(snapshot) && same_content(&content.snapshot, snapshot),
            None => false,
        };
        if moves {
            if let Some(content) = self.content.take() {
                proof {
                    assert(content.snapshot@.items == snapshot@.items);
                    assert(content.snapshot@.items.len() == content.snapshot.items@.len());
                    assert(snapshot@.items.len() == snapshot.items@.len());
                }
                let copied: RenderSnapshot = snapshot.clone();
                assert(copied@.items.len() == copied.items@.len());
                self.content = Some(
                    Content {
                        snapshot: copied,
                        owner,
                        widths: content.widths,
                        layout: content.layout,
                    },
                );
            }
            return Ok(RenderPlan::Move);
        }
        self.gesture.cancel();
        if let Some(error) = &self.error {
            return Err(error.clone());
        }
        let anchored: bool = match &snapshot.anchor {
            Some(anchor) => anchor.valid,
            None => false,
        };
        if !snapshot.visible || !anchored {
            self.conceal();
            return Ok(RenderPlan::Conceal);
        }
        Ok(RenderPlan::Measure)
    }

    /// Shows a frame whose texts, with their comments, are so many units wide, rounded
    /// upwards.
    pub fn measured(&mut self, snapshot: RenderSnapshot, owner: Owner, widths: Vec<u32>)
        requires
            old(self).wf(),
            widths@.len() == snapshot.items@.len(),
            widths@.len() <= MAX_CELLS,
        ensures
            final(self).wf(),
            final(self)@ == (WindowView {
                content: Some(ContentView { snapshot: snapshot@, owner, widths: widths@ }),
                ..old(self)@
            }),
    {
        let layout: Layout = Layout::new(&widths);
        self.content = Some(Content { snapshot, owner, widths, layout });
    }

    /// What comes of showing a frame that led to a plan; `placed` is how measuring its
    /// texts and finding the strip's place went.
    pub fn shown(&self, plan: RenderPlan, placed: Result<(), String>) -> (r: Result<(), String>)
        ensures
            outcome_view(r) == shown_outcome(
                plan == RenderPlan::Conceal,
                outcome_view(placed),
                self@.error,
            ),
    {
        shown_result(plan == RenderPlan::Conceal, placed, &self.error)
    }

    /// Where the strip goes and how large it becomes; `work` is the work area of the
    /// anchor's monitor, where there is one.
    pub fn position(&self, work: Option<Rect>) -> (r: Option<Placement>)
        requires
            self.wf(),
        ensures
            match r {
                Some(p) => bounds_of(self@, work) == Some(
                    (p.x as int, p.y as int, p.width as int, p.height as int),
                ),
                None => bounds_of(self@, work) is None,
            },
    {
        let content: &Content = match &self.content {
            Some(content) => content,
            None => {
                return None;
            },
        };
        match &content.snapshot.anchor {
            Some(anchor) => {
                if !anchor.valid {
                    return None;
                }
                let width: i32 = pixels_of_parts(content.layout.width, self.dpi);
                let height: i32 = pixels(HEIGHT, self.dpi);
                let (x, y) = popup_position(anchor, width, height, work);
                Some(Placement { x, y, width, height })
            },
            None => None,
        }
    }

    /// What lies under a point of the strip, given in pixels.
    fn hit(&self, x: i32, y: i32) -> (r: Option<Hit>)
        requires
            self.wf(),
        ensures
            r == hit_at(self@, x, y),
    {
        match &self.content {
            Some(content) => content.layout.hit(
                scale_down(x, PARTS_PER_INCH, self.dpi),
                scale_down(y, PARTS_PER_INCH, self.dpi),
            ),
            None => None,
        }
    }

    /// Takes a message, and says what the strip does about it.
    pub fn dispatch(&mut self, input: Input) -> (r: Step)
        requires
            old(self).wf(),
            input matches Input::Resolution(dpi) ==> dpi > 0,
        ensures
            final(self).wf(),
            final(self)@ == after_input(old(self)@, input),
            r == step_for(old(self)@, input),
    {
        match input {
            Input::Paint => {
                if self.error.is_none() && !self.recovery.waiting {
                    Step::Paint
                } else {
                    Step::Return(0)
                }
            },
            Input::Erase => Step::Return(1),
            Input::Activate => Step::Return(MA_NOACTIVATE),
            Input::Resized => Step::Resize,
            Input::Resolution(dpi) => {
                self.dpi = dpi;
                self.gesture.cancel();
                Step::Reposition
            },
            Input::Retry => {
                self.recovery.waiting = false;
                Step::Retry
            },
            Input::Down { x, y } => {
                let hit: Option<Hit> = self.hit(x, y);
                let mut gesture: Gesture = self.gesture;
                if let Some(content) = &self.content {
                    gesture.press(hit, &content.snapshot);
                }
                self.gesture = gesture;
                Step::Press { hold: gesture.pressed.is_some(), redraw: false }
            },
            Input::Up { x, y } => {
                let hit: Option<Hit> = self.hit(x, y);
                let mut gesture: Gesture = self.gesture;
                let event: Option<(Owner, RendererEvent)> = match &self.content {
                    Some(content) => match gesture.release(hit, &content.snapshot) {
                        Some(event) => Some((content.owner, event)),
                        None => None,
                    },
                    None => None,
                };
                self.gesture.cancel();
                Step::Click(event)
            },
            Input::Motion { x, y } => {
                let hit: Option<Hit> = self.hit(x, y);
                self.gesture.motion(hit);
                Step::Track
            },
            Input::Gone => {
                self.gesture.cancel();
                Step::Release
            },
            Input::Destroyed => Step::Detach,
            Input::Close => Step::Default,
            Input::Other => Step::Default,
        }
    }

    /// Takes that drawing has failed; the result is whether it is tried again after the
    /// timer. What was drawn on is given up.
    pub fn graphics_error(&mut self, error: String, device_lost: bool) -> (r: bool)
        requires
            old(self).wf(),
        ensures
            final(self).wf(),
            r == (device_lost && old(self)@.recovery.failures < 3),
            final(self)@ == (if r {
                WindowView {
                    recovery: Recovery {
                        failures: (old(self)@.recovery.failures + 1) as u8,
                        waiting: true,
                    },
                    ..old(self)@
                }
            } else {
                WindowView { error: first_error(old(self)@.error, error@), ..old(self)@ }
            }),
    {
        if self.recovery.failed(device_lost) {
            true
        } else {
            self.fail(error);
            false
        }
    }

    /// Takes that drawing has worked.
    pub fn painted(&mut self)
        requires
            old(self).wf(),
        ensures
            final(self).wf(),
            final(self)@ == (WindowView {
                recovery: Recovery { failures: 0, waiting: false },
                ..old(self)@
            }),
    {
        self.recovery.succeeded();
    }

    /// Takes that a callback of the window has panicked.
    pub fn callback_panicked(&mut self)
        requires
            old(self).wf(),
        ensures
            final(self).wf(),
            final(self)@ == (WindowView {
                error: Some("theme_ten native callback panicked"@),
                ..old(self)@
            }),
    {
        self.error = Some("theme_ten native callback panicked".to_owned());
    }
}

/// A frame that only moves the strip keeps a press; every other ends it.
pub proof fn law_only_moving_keeps_the_press(
    w: WindowView,
    s: RenderSnapshotView,
    owner: Owner,
)
    ensures
        after_frame(w, s, owner).gesture == (if only_moves(w, s) {
            w.gesture
        } else {
            Gesture { pressed: None, hovered: None }
        }),
{
}

/// Once the strip has met an error it is not drawn again, and it shows nothing new.
pub proof fn law_errors_stay(w: WindowView, s: RenderSnapshotView, input: Input)
    requires
        w.error is Some,
    ensures
        step_for(w, Input::Paint) == Step::Return(0),
        after_input(w, input).error == w.error,
        !only_moves(w, s) ==> plan_for(w, s) == Err::<RenderPlan, Seq<char>>(w.error->0),
{
}

/// A click goes to the connection whose frame is shown, with the identity of that
/// frame, whatever was shown when the button went down.
pub proof fn law_clicks_carry_the_frame(w: WindowView, x: i32, y: i32)
    ensures
        step_for(w, Input::Up { x, y }) matches Step::Click(Some((owner, event)))
            ==> w.content is Some && owner == w.content->0.owner && event.session_id
            == w.content->0.snapshot.session_id && event.revision
            == w.content->0.snapshot.revision && event.token == w.content->0.snapshot.token,
{
}

} // verus!
