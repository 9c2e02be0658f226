//! When a frame is shown, and where on the screen.
use crate::geometry::{add_within, sub_within, upper, Rect};
use crate::message::{RenderRect, RenderSnapshot};
#[allow(unused_imports)]
use crate::message::RenderSnapshotView;
use crate::theme_api::CandidateView;
#[allow(unused_imports)]
use crate::theme_api::CandidateViewView;
use vstd::prelude::*;

pub mod laws;

verus! {

/// Whether a frame is on the screen: it asks to be, it has candidates, and its
/// anchor is valid.
pub open spec fn frame_visible(s: RenderSnapshotView) -> bool {
    s.visible && s.items.len() > 0 && (s.anchor matches Some(anchor) && anchor.valid)
}

/// Whether a frame is on the screen: it asks to be, it has candidates, and its
/// anchor is valid.
pub fn is_visible(snapshot: &RenderSnapshot) -> (r: bool)
    ensures
        r == frame_visible(snapshot@),
{
    snapshot.visible && snapshot.items.len() > 0 && match &snapshot.anchor {
        Some(anchor) => anchor.valid,
        None => false,
    }
}

/// Whether a theme's view has a valid anchor.
pub open spec fn view_anchored(view: CandidateViewView) -> bool {
    view.anchor matches Some(anchor) && anchor.valid
}

/// Whether a theme's view is on the screen, by the rule for frames.
pub open spec fn view_visible(view: CandidateViewView) -> bool {
    view.visible && view.items.len() > 0 && view_anchored(view)
}

/// Whether a theme's view is on the screen, by the rule for frames.
pub fn is_view_visible(view: &CandidateView) -> (r: bool)
    ensures
        r == view_visible(view@),
{
    view.visible && view.items.len() > 0 && match &view.anchor {
        Some(anchor) => anchor.valid,
        None => false,
    }
}

/// Whether a theme's view has a mode indicator, and a place for it.
pub open spec fn indicator_visible(view: CandidateViewView) -> bool {
    view.mode_indicator is Some && view_anchored(view)
}

/// Whether a theme's view has a mode indicator, and a place for it.
pub fn is_mode_indicator_visible(view: &CandidateView) -> (r: bool)
    ensures
        r == indicator_visible(view@),
{
    view.mode_indicator.is_some() && match &view.anchor {
        Some(anchor) => anchor.valid,
        None => false,
    }
}

/// Where a window goes that belongs to an anchor: below it and at its left edge;
/// above it where it would leave the work area at the bottom, further left where
/// it would leave it at the right, but never past the area's top left corner.
pub open spec fn placed(anchor: RenderRect, width: int, height: int, work: Rect) -> (int, int) {
    let y = if crate::geometry::clamp32(anchor.bottom + height) > work.bottom {
        crate::geometry::clamp32(anchor.top - height)
    } else {
        anchor.bottom as int
    };
    let x = if crate::geometry::clamp32(anchor.left + width) > work.right {
        crate::geometry::clamp32(work.right - width)
    } else {
        anchor.left as int
    };
    (
        crate::geometry::larger(x, work.left as int),
        crate::geometry::larger(y, work.top as int),
    )
}

/// Where a window goes that belongs to an anchor, within a work area.
pub fn within_work_area(anchor: &RenderRect, width: i32, height: i32, work: &Rect) -> (r: (
    i32,
    i32,
))
    ensures
        (r.0 as int, r.1 as int) == placed(*anchor, width as int, height as int, *work),
{
    let y: i32 = if add_within(anchor.bottom, height) > work.bottom {
        sub_within(anchor.top, height)
    } else {
        anchor.bottom
    };
    let x: i32 = if add_within(anchor.left, width) > work.right {
        sub_within(work.right, width)
    } else {
        anchor.left
    };
    (upper(x, work.left), upper(y, work.top))
}

/// Where a popup goes: within the work area of the anchor's monitor, or straight
/// below the anchor where no monitor could be found.
pub fn popup_position(anchor: &RenderRect, width: i32, height: i32, work: Option<Rect>) -> (r: (
    i32,
    i32,
))
    ensures
        match work {
            Some(area) => (r.0 as int, r.1 as int) == placed(
                *anchor,
                width as int,
                height as int,
                area,
            ),
            None => r == (anchor.left, anchor.bottom),
        },
{
    match work {
        Some(area) => within_work_area(anchor, width, height, &area),
        None => (anchor.left, anchor.bottom),
    }
}

/// A window that fits into the work area does not leave it at the left, the top or
/// the right, wherever its anchor is; nor at the bottom, unless the anchor begins
/// below the area. Only where the end of the area and that of the numbers are one
/// can a window that would reach further be taken to fit.
pub proof fn law_popup_stays_in_work_area(anchor: RenderRect, width: int, height: int, work: Rect)
    requires
        0 <= width <= work.right - work.left,
        0 <= height <= work.bottom - work.top,
        work.right < i32::MAX || anchor.left + width <= i32::MAX,
        work.bottom < i32::MAX || anchor.bottom + height <= i32::MAX,
    ensures
        work.left <= placed(anchor, width, height, work).0,
        placed(anchor, width, height, work).0 + width <= work.right,
        work.top <= placed(anchor, width, height, work).1,
        anchor.top <= work.bottom ==> placed(anchor, width, height, work).1 + height
            <= work.bottom,
{
}

} // verus!
