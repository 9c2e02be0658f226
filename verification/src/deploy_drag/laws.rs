//! Which points of the window the drag layer covers.
#[allow(unused_imports)]
use super::{covers, inside, inside_any, Bounds};
use vstd::prelude::*;

verus! {

/// Without controls the layer covers the whole window and nothing beside it; a control takes
/// its own points away, edges at its left and top included, and no others.
pub proof fn law_controls_are_cut_out(
    width: int,
    height: int,
    holes: Seq<Bounds>,
    hole: Bounds,
    x: int,
    y: int,
)
    ensures
        covers(width, height, Seq::empty(), x, y) <==> 0 <= x < width && 0 <= y < height,
        covers(width, height, holes.push(hole), x, y) <==> covers(width, height, holes, x, y)
            && !(hole.left <= x < hole.right && hole.top <= y < hole.bottom),
{
    let more = holes.push(hole);
    assert(more[holes.len() as int] == hole);
    if inside_any(holes, x, y) {
        let i = choose|i: int| 0 <= i < holes.len() && inside(#[trigger] holes[i], x, y);
        assert(more[i] == holes[i]);
        assert(inside_any(more, x, y));
    }
    if inside(hole, x, y) {
        assert(inside_any(more, x, y));
    }
    if inside_any(more, x, y) && !inside(hole, x, y) {
        let i = choose|i: int| 0 <= i < more.len() && inside(#[trigger] more[i], x, y);
        assert(holes[i] == more[i]);
        assert(inside_any(holes, x, y));
    }
}

} // verus!
