//! When a frame is on the screen, and which side of its anchor it is on.
#[allow(unused_imports)]
use super::{frame_visible, indicator_visible, placed, view_visible};
#[allow(unused_imports)]
use crate::geometry::Rect;
#[allow(unused_imports)]
use crate::message::{ModeIndicatorReason, RenderRect, RenderSnapshotView};
#[allow(unused_imports)]
use crate::theme_adapter::theme_view;
use vstd::prelude::*;

verus! {

/// A frame that asks to be shown and has candidates and a place is on the screen; it is no
/// longer there when any one of the three goes.
pub proof fn law_frame_needs_wish_candidates_and_place(
    s: RenderSnapshotView,
    place: RenderRect,
)
    requires
        place.valid,
    ensures
        s.visible && s.items.len() > 0 && s.anchor == Some(place) ==> frame_visible(s),
        !frame_visible(RenderSnapshotView { visible: false, ..s }),
        !frame_visible(RenderSnapshotView { items: Seq::empty(), ..s }),
        !frame_visible(RenderSnapshotView { anchor: None, ..s }),
        !frame_visible(
            RenderSnapshotView { anchor: Some(RenderRect { valid: false, ..place }), ..s },
        ),
{
}

/// What a theme is given of a frame is on the screen exactly when the frame is; an
/// indicator is there exactly when it was asked for, with a reason, at a valid place.
pub proof fn law_theme_sees_what_the_frame_shows(s: RenderSnapshotView, content_id: u64)
    ensures
        view_visible(theme_view(s, content_id)) == frame_visible(s),
        indicator_visible(theme_view(s, content_id)) == (s.mode_indicator is Some
            && s.mode_indicator->0.reason != ModeIndicatorReason::Unspecified && s.anchor is Some
            && s.anchor->0.valid),
{
    assert(theme_view(s, content_id).items.len() == s.items.len());
}

/// Where there is room, a window hangs under its anchor, with their left edges in line.
pub proof fn law_window_hangs_below(anchor: RenderRect, width: int, height: int, work: Rect)
    requires
        work.left <= anchor.left,
        anchor.left + width <= work.right,
        work.top <= anchor.bottom,
        anchor.bottom + height <= work.bottom,
    ensures
        placed(anchor, width, height, work) == (anchor.left as int, anchor.bottom as int),
{
}

/// Where there is no room below but above, a window stands on its anchor and does not
/// cover it.
pub proof fn law_window_stands_above(anchor: RenderRect, width: int, height: int, work: Rect)
    requires
        0 <= height,
        work.bottom < anchor.bottom + height,
        work.bottom < i32::MAX,
        work.top <= anchor.top - height,
    ensures
        placed(anchor, width, height, work).1 + height == anchor.top,
{
}

/// A window that would leave the area at the right ends where the area does; one whose
/// anchor begins left of the area begins where the area does.
pub proof fn law_window_keeps_to_the_sides(
    anchor: RenderRect,
    width: int,
    height: int,
    work: Rect,
)
    requires
        0 <= width <= work.right - work.left,
        work.right < i32::MAX,
    ensures
        work.right < anchor.left + width ==> placed(anchor, width, height, work).0 + width
            == work.right,
        anchor.left < work.left ==> placed(anchor, width, height, work).0 == work.left,
{
}

/// Sideways, a window follows its anchor whatever its height, and up and down whatever its
/// width.
pub proof fn law_directions_do_not_mix(
    anchor: RenderRect,
    moved: RenderRect,
    width: int,
    height: int,
    wider: int,
    higher: int,
    work: Rect,
)
    ensures
        anchor.left == moved.left ==> placed(anchor, width, height, work).0 == placed(
            moved,
            width,
            higher,
            work,
        ).0,
        anchor.top == moved.top && anchor.bottom == moved.bottom ==> placed(
            anchor,
            width,
            height,
            work,
        ).1 == placed(moved, wider, height, work).1,
{
}

} // verus!
