//! The layer over the window's controls by which the window is dragged: what it
//! covers, and when it has to change.
use vstd::prelude::*;

pub mod laws;

verus! {

/// A rectangle in pixels of the window; its right and bottom edges lie outside.
#[derive(Clone, Copy, Debug, PartialEq, Eq, Structural)]
pub struct Bounds {
    pub left: i32,
    pub top: i32,
    pub right: i32,
    pub bottom: i32,
}

/// Whether a point lies in a rectangle.
pub open spec fn inside(bounds: Bounds, x: int, y: int) -> bool {
    bounds.left <= x < bounds.right && bounds.top <= y < bounds.bottom
}

/// Whether a point lies in any of some rectangles.
pub open spec fn inside_any(holes: Seq<Bounds>, x: int, y: int) -> bool {
    exists|i: int| 0 <= i < holes.len() && inside(#[trigger] holes[i], x, y)
}

/// Whether the layer covers a point: one of the window, but of none of the controls.
pub open spec fn covers(width: int, height: int, holes: Seq<Bounds>, x: int, y: int) -> bool {
    0 <= x < width && 0 <= y < height && !inside_any(holes, x, y)
}

/// Whether a point lies in a rectangle.
fn contains(bounds: &Bounds, x: i32, y: i32) -> (r: bool)
    ensures
        r == inside(*bounds, x as int, y as int),
{
    bounds.left <= x && x < bounds.right && bounds.top <= y && y < bounds.bottom
}

/// Whether the layer covers a point.
pub fn input_region(width: i32, height: i32, holes: &Vec<Bounds>, x: i32, y: i32) -> (r: bool)
    ensures
        r == covers(width as int, height as int, holes@, x as int, y as int),
{
    if !(0 <= x && x < width && 0 <= y && y < height) {
        return false;
    }
    let mut i: usize = 0;
    while i < holes.len()
        invariant
            i <= holes.len(),
            forall|k: int| 0 <= k < i ==> !inside(#[trigger] holes@[k], x as int, y as int),
        decreases holes.len() - i,
    {
        if contains(&holes[i], x, y) {
            assert(inside(holes@[i as int], x as int, y as int));
            return false;
        }
        i += 1;
    }
    true
}

/// What the layer was last made for: the window's size, and the controls.
#[derive(Debug)]
pub struct RegionKey {
    pub width: i32,
    pub height: i32,
    pub holes: Vec<Bounds>,
}

#[verifier::ext_equal]
pub ghost struct RegionView {
    pub width: i32,
    pub height: i32,
    pub holes: Seq<Bounds>,
}

impl View for RegionKey {
    type V = RegionView;

    open spec fn view(&self) -> RegionView {
        RegionView { width: self.width, height: self.height, holes: self.holes@ }
    }
}

/// The view of an optional key.
pub open spec fn key_view(key: Option<RegionKey>) -> Option<RegionView> {
    match key {
        Some(key) => Some(key@),
        None => None,
    }
}

/// The layer.
pub struct DragLayer {
    cached: Option<RegionKey>,
    updating: bool,
}

/// What an update does.
#[derive(Clone, Copy, Debug, PartialEq, Eq, Structural)]
pub enum DragStep {
    /// An update is under way.
    Busy,
    /// The controls have no size yet, or there is no window to cover: the layer
    /// goes away.
    Hide,
    /// The layer already is as it has to be.
    Keep,
    /// The layer has to be made anew.
    Apply,
}

/// Whether two lists of rectangles are the same.
fn same_holes(a: &Vec<Bounds>, b: &Vec<Bounds>) -> (r: bool)
    ensures
        r == (a@ == b@),
{
    if a.len() != b.len() {
        return false;
    }
    let mut i: usize = 0;
    while i < a.len()
        invariant
            i <= a.len() == b.len(),
            forall|k: int| 0 <= k < i ==> a@[k] == b@[k],
        decreases a.len() - i,
    {
        if a[i] != b[i] {
            return false;
        }
        i += 1;
    }
    assert(a@ =~= b@);
    true
}

impl DragLayer {
    /// What the layer was last made for.
    pub closed spec fn cached_view(&self) -> Option<RegionView> {
        key_view(self.cached)
    }

    /// Whether an update is under way.
    pub closed spec fn busy(&self) -> bool {
        self.updating
    }

    /// A layer that was not made for anything yet.
    pub fn new() -> (r: Self)
        ensures
            r.cached_view() is None,
            !r.busy(),
    {
        DragLayer { cached: None, updating: false }
    }

    /// Starts an update; while one is under way no other starts.
    pub fn begin(&mut self) -> (started: bool)
        ensures
            started == !old(self).busy(),
            final(self).busy(),
            final(self).cached_view() == old(self).cached_view(),
    {
        let started: bool = !self.updating;
        self.updating = true;
        started
    }

    /// Takes the window's size and its controls; none where one of the controls
    /// has no size yet. The result is what the update does. A window without a size
    /// is remembered, so that it is not looked at again.
    pub fn update(&mut self, width: i32, height: i32, holes: Option<Vec<Bounds>>) -> (r: DragStep)
        requires
            old(self).busy(),
        ensures
            final(self).busy(),
            match holes {
                None => r == DragStep::Hide && final(self).cached_view() is None,
                Some(list) => {
                    let key = RegionView { width, height, holes: list@ };
                    if old(self).cached_view() == Some(key) {
                        r == DragStep::Keep && final(self).cached_view() == Some(key)
                    } else if width <= 0 || height <= 0 {
                        r == DragStep::Hide && final(self).cached_view() == Some(key)
                    } else {
                        r == DragStep::Apply && final(self).cached_view() == Some(key)
                    }
                },
            },
    {
        let holes: Vec<Bounds> = match holes {
            Some(holes) => holes,
            None => {
                self.cached = None;
                return DragStep::Hide;
            },
        };
        if let Some(key) = &self.cached {
            if key.width == width && key.height == height && same_holes(&key.holes, &holes) {
                return DragStep::Keep;
            }
        }
        self.cached = Some(RegionKey { width, height, holes });
        if width <= 0 || height <= 0 {
            DragStep::Hide
        } else {
            DragStep::Apply
        }
    }

    /// Ends an update. One that failed leaves nothing behind: the layer goes away,
    /// so that it takes no input from a control. The result is whether it has to.
    pub fn end(&mut self, succeeded: bool) -> (hide: bool)
        ensures
            hide == !succeeded,
            !final(self).busy(),
            final(self).cached_view() == (if succeeded {
                old(self).cached_view()
            } else {
                None
            }),
    {
        if !succeeded {
            self.cached = None;
        }
        self.updating = false;
        !succeeded
    }
}

/// The mouse messages that reach the layer.
#[derive(Clone, Copy, Debug, PartialEq, Eq, Structural)]
pub enum DragMessage {
    HitTest,
    /// A button of the mouse, or a move, on the frame.
    FrameMouse,
    Other,
}

/// What the layer does with a message.
#[derive(Clone, Copy, Debug, PartialEq, Eq, Structural)]
pub enum DragAction {
    /// Ask the window what the point belongs to, and answer by that.
    AskWindow,
    /// Hand the message to the window.
    Forward,
    /// Leave it to the system.
    Default,
}

/// What the layer does with a message; without its window, nothing.
pub fn input_proc(message: DragMessage, has_window: bool) -> (r: DragAction)
    ensures
        r == (if !has_window {
            DragAction::Default
        } else {
            match message {
                DragMessage::HitTest => DragAction::AskWindow,
                DragMessage::FrameMouse => DragAction::Forward,
                DragMessage::Other => DragAction::Default,
            }
        }),
{
    if !has_window {
        return DragAction::Default;
    }
    match message {
        DragMessage::HitTest => DragAction::AskWindow,
        DragMessage::FrameMouse => DragAction::Forward,
        DragMessage::Other => DragAction::Default,
    }
}

/// What a point of the layer belongs to: the rest of the window counts as its
/// caption there, and the edges stay edges.
pub fn drag_hit(window: crate::deploy_ui::FrameHit) -> (r: crate::deploy_ui::FrameHit)
    ensures
        r == (if window == crate::deploy_ui::FrameHit::Client {
            crate::deploy_ui::FrameHit::Caption
        } else {
            window
        }),
{
    if window == crate::deploy_ui::FrameHit::Client {
        crate::deploy_ui::FrameHit::Caption
    } else {
        window
    }
}

/// A control never lies under the layer; without one of the controls, the layer
/// covers what it covered, and the control's place as far as no other is there.
pub proof fn law_controls_stay_reachable(
    width: int,
    height: int,
    holes: Seq<Bounds>,
    hole: Bounds,
    x: int,
    y: int,
)
    ensures
        inside(hole, x, y) ==> !covers(width, height, holes.push(hole), x, y),
        covers(width, height, holes, x, y) && !inside(hole, x, y) ==> covers(
            width,
            height,
            holes.push(hole),
            x,
            y,
        ),
        covers(width, height, holes.push(hole), x, y) ==> covers(width, height, holes, x, y),
{
    let more = holes.push(hole);
    if inside(hole, x, y) {
        assert(inside(more[more.len() - 1], x, y));
    }
    if inside_any(holes, x, y) {
        let i = choose|i: int| 0 <= i < holes.len() && inside(#[trigger] holes[i], x, y);
        assert(inside(more[i], x, y));
    }
    if inside_any(more, x, y) {
        let i = choose|i: int| 0 <= i < more.len() && inside(#[trigger] more[i], x, y);
        if i < holes.len() {
            assert(inside(holes[i], x, y));
        }
    }
}

} // verus!
