//! Where the strip puts its cells, what it draws of them, and what a click on them comes to.
#[allow(unused_imports)]
use super::logic::{
    action_of, after_motion, after_press, candidate_cell, cell_width, event_of,
    hit_of, left_of, released, strip_cells, strip_width, usable, Cell, Gesture, Hit,
    Palette, MAX_CELLS,
};
#[allow(unused_imports)]
use super::paint::{
    all_cells, back_shapes, candidate_shapes, cell_shapes, paint_of, Area, Font, ShapeView,
};
#[allow(unused_imports)]
use super::window::{
    after_frame, after_input, bounds_of, concealed, hit_at, part_pixels, plan_for, step_for,
    ContentView, RenderPlan, WindowView,
};
#[allow(unused_imports)]
use crate::geometry::{pixels_of, scaled_down, Rect};
#[allow(unused_imports)]
use crate::message::{RendererEvent, RendererEventAction, RenderRect, RenderSnapshotView};
#[allow(unused_imports)]
use crate::state::{same_frame_content, Owner};
#[allow(unused_imports)]
use crate::text::decimal;
#[allow(unused_imports)]
use crate::theme_window::{Input, Step};
use vstd::prelude::*;

verus! {

/// A cell has room for the number, the text and the space after it, and is never narrower
/// than the least width; the first begins at the strip's left edge, and each of the others
/// where the one before it ends.
pub proof fn law_cells_stand_side_by_side(widths: Seq<u32>, i: nat)
    requires
        i < widths.len(),
    ensures
        left_of(widths, 0) == 0,
        left_of(widths, i + 1) - left_of(widths, i) >= 2139,
        left_of(widths, i + 1) - left_of(widths, i) >= 34 * widths[i as int] + 1334,
        left_of(widths, i + 1) - left_of(widths, i) == 2139 || left_of(widths, i + 1) - left_of(
            widths,
            i,
        ) == 34 * widths[i as int] + 1334,
        strip_width(widths) == left_of(widths, widths.len()) + 3956,
{
}

/// Where one cell of a strip holds a place, that cell lies under it.
proof fn lemma_only_cell(cells: Seq<Cell>, x: int, y: int, i: int)
    requires
        0 <= y < 1564,
        0 <= i < cells.len(),
        cells[i].left <= x < cells[i].right,
        forall|j: int| 0 <= j < i ==> (#[trigger] cells[j]).right <= x,
    ensures
        hit_of(cells, x, y) == Some(cells[i].hit),
    decreases cells.len(),
{
    if i > 0 {
        let rest = cells.drop_first();
        assert(cells[0].right <= x);
        assert forall|j: int| 0 <= j < i - 1 implies (#[trigger] rest[j]).right <= x by {
            assert(cells[j + 1].right <= x);
        }
        lemma_only_cell(rest, x, y, i - 1);
    }
}

/// A place within the cell of a candidate is on that candidate.
pub proof fn law_place_in_a_cell_is_on_its_candidate(
    widths: Seq<u32>,
    i: nat,
    x: int,
    y: int,
)
    requires
        widths.len() <= MAX_CELLS,
        i < widths.len(),
        left_of(widths, i) <= x < left_of(widths, i + 1),
        0 <= y < 1564,
    ensures
        hit_of(strip_cells(widths), x, y) == Some(Hit::Candidate(i as usize)),
{
    let cells = strip_cells(widths);
    super::logic::law_strip_has_no_gaps(widths, x, y);
    super::logic::lemma_width_bound(widths);
    lemma_left_monotone(widths, i + 1, widths.len());
    assert(cells[i as int] == candidate_cell(widths, i as int));
    assert forall|j: int| 0 <= j < i implies (#[trigger] cells[j]).right <= x by {
        assert(cells[j].right <= cells[i as int].left);
    }
    lemma_only_cell(cells, x, y, i as int);
}

/// A later cell begins no further to the left.
proof fn lemma_left_monotone(widths: Seq<u32>, i: nat, j: nat)
    requires
        i <= j <= widths.len(),
    ensures
        left_of(widths, i) <= left_of(widths, j),
    decreases j,
{
    if i < j {
        lemma_left_monotone(widths, i, (j - 1) as nat);
    }
}

/// After the candidates come the buttons for going back, for going on, and for the emoji
/// panel, up to the strip's end.
pub proof fn law_buttons_follow_the_candidates(widths: Seq<u32>, x: int, y: int)
    requires
        widths.len() <= MAX_CELLS,
        left_of(widths, widths.len()) <= x,
        0 <= y < 1564,
    ensures
        hit_of(strip_cells(widths), x, y) == (if x < left_of(widths, widths.len()) + 1127 {
            Some(Hit::Previous)
        } else if x < left_of(widths, widths.len()) + 2254 {
            Some(Hit::Next)
        } else if x < left_of(widths, widths.len()) + 3956 {
            Some(Hit::Emoji)
        } else {
            None
        }),
{
    let cells = strip_cells(widths);
    let n = widths.len();
    let end = left_of(widths, n);
    super::logic::law_strip_has_no_gaps(widths, x, y);
    super::logic::lemma_width_bound(widths);
    if x < strip_width(widths) {
        let i: int = if x < end + 1127 {
            n as int
        } else if x < end + 2254 {
            n as int + 1
        } else {
            n as int + 2
        };
        assert(cells[i].left <= x < cells[i].right);
        assert forall|j: int| 0 <= j < i implies (#[trigger] cells[j]).right <= x by {
            assert(cells[j].right <= cells[i].left);
        }
        lemma_only_cell(cells, x, y, i);
    }
}

/// Above and below the strip nothing lies under the pointer.
pub proof fn law_nothing_lies_above_or_below(cells: Seq<Cell>, x: int, y: int)
    requires
        y < 0 || y >= 1564,
    ensures
        hit_of(cells, x, y) is None,
{
}

/// A click on a cell that can be used stands for what the cell shows: the candidate of that
/// place, the page in that direction, or the emoji panel, with the frame's identity.
pub proof fn law_cells_stand_for_what_they_show(s: RenderSnapshotView, row: usize, hit: Hit)
    requires
        row <= u32::MAX,
    ensures
        event_of(s, Hit::Candidate(row)).action == RendererEventAction::ItemInvoked,
        event_of(s, Hit::Candidate(row)).item_index == row,
        event_of(s, Hit::Previous).action == RendererEventAction::NavigatePrevious,
        event_of(s, Hit::Next).action == RendererEventAction::NavigateNext,
        event_of(s, Hit::Emoji).action == RendererEventAction::OpenEmojiPanel,
        event_of(s, hit).session_id == s.session_id,
        event_of(s, hit).token == s.token,
        event_of(s, hit).revision == s.revision,
{
}

/// A visible frame lets its enabled candidates be chosen, the pages that it has be turned
/// to, and the emoji panel be opened; of a hidden one nothing can be used.
pub proof fn law_only_what_is_offered_can_be_used(s: RenderSnapshotView, row: usize)
    ensures
        s.visible ==> usable(s, Hit::Candidate(row)) == (row < s.items.len()
            && s.items[row as int].enabled),
        s.visible ==> usable(s, Hit::Previous) == s.can_page_previous,
        s.visible ==> usable(s, Hit::Next) == s.can_page_next,
        s.visible ==> usable(s, Hit::Emoji),
        forall|hit: Hit| !s.visible ==> !#[trigger] usable(s, hit),
{
}

/// Pressing and letting go over one candidate that can be chosen, with the pointer on it all
/// the while, reports its invocation to the connection that the strip belongs to.
pub proof fn law_click_on_a_candidate_invokes_it(
    w: WindowView,
    c: ContentView,
    row: nat,
    down: (i32, i32),
    up: (i32, i32),
)
    requires
        w.dpi == 96,
        w.content == Some(c),
        c.snapshot.visible,
        c.snapshot.items.len() == c.widths.len(),
        c.widths.len() <= MAX_CELLS,
        row < c.snapshot.items.len(),
        c.snapshot.items[row as int].enabled,
        left_of(c.widths, row) <= 34 * down.0 < left_of(c.widths, row + 1),
        left_of(c.widths, row) <= 34 * up.0 < left_of(c.widths, row + 1),
        0 <= down.1 < 46,
        0 <= up.1 < 46,
    ensures
        ({
            let pressed = after_input(w, Input::Down { x: down.0, y: down.1 });
            let moved = after_input(pressed, Input::Motion { x: up.0, y: up.1 });
            &&& step_for(w, Input::Down { x: down.0, y: down.1 }) == (Step::Press {
                hold: true,
                redraw: false,
            })
            &&& step_for(moved, Input::Up { x: up.0, y: up.1 }) == Step::Click(
                Some(
                    (
                        c.owner,
                        RendererEvent {
                            session_id: c.snapshot.session_id,
                            token: c.snapshot.token,
                            revision: c.snapshot.revision,
                            action: RendererEventAction::ItemInvoked,
                            item_index: row as u32,
                        },
                    ),
                ),
            )
        }),
{
    assert(scaled_down(down.0 as int, 3264, 96) == 34 * down.0);
    assert(scaled_down(down.1 as int, 3264, 96) == 34 * down.1);
    assert(scaled_down(up.0 as int, 3264, 96) == 34 * up.0);
    assert(scaled_down(up.1 as int, 3264, 96) == 34 * up.1);
    law_place_in_a_cell_is_on_its_candidate(c.widths, row, 34 * down.0, 34 * down.1);
    law_place_in_a_cell_is_on_its_candidate(c.widths, row, 34 * up.0, 34 * up.1);
}

/// Letting go where nothing was pressed reports nothing; however a press ends, it is over,
/// and what the strip shows stays.
pub proof fn law_only_a_press_can_be_released(w: WindowView, x: i32, y: i32)
    ensures
        w.gesture.pressed is None ==> step_for(w, Input::Up { x, y }) == Step::Click(None),
        w.content is None ==> step_for(w, Input::Up { x, y }) == Step::Click(None),
        after_input(w, Input::Up { x, y }).gesture.pressed is None,
        after_input(w, Input::Gone).gesture.pressed is None,
{
}

/// Messages change neither what the strip shows nor its colours; only a new resolution
/// changes its resolution, to the given one, and ends a press. The strip never becomes the
/// active window.
pub proof fn law_messages_keep_the_content(w: WindowView, input: Input, dpi: u32)
    ensures
        after_input(w, input).content == w.content,
        after_input(w, input).palette == w.palette,
        !(input is Resolution) ==> after_input(w, input).dpi == w.dpi,
        after_input(w, Input::Resolution(dpi)).dpi == dpi,
        after_input(w, Input::Resolution(dpi)).gesture.pressed is None,
        step_for(w, Input::Resolution(dpi)) == Step::Reposition,
        step_for(w, Input::Activate) == Step::Return(3),
        step_for(w, Input::Erase) == Step::Return(1),
        !after_input(w, Input::Retry).recovery.waiting,
        after_input(w, Input::Retry).recovery.failures == w.recovery.failures,
        w.error is None && !w.recovery.waiting ==> step_for(w, Input::Paint) == Step::Paint,
        w.recovery.waiting ==> step_for(w, Input::Paint) == Step::Return(0),
{
}

/// A frame of other content, to be seen and with a place, is measured; the same content only
/// moves, with the new frame's identity; a frame that is not to be seen or has no place
/// conceals the strip.
pub proof fn law_frame_leads_to_its_plan(w: WindowView, s: RenderSnapshotView, owner: Owner)
    requires
        w.error is None,
    ensures
        ({
            let place = s.visible && s.anchor is Some && s.anchor->0.valid;
            let same = w.content is Some && s.items.len() > 0 && same_frame_content(
                w.content->0.snapshot,
                s,
            );
            &&& place && !same ==> plan_for(w, s) == Ok::<RenderPlan, Seq<char>>(
                RenderPlan::Measure,
            )
            &&& place && same ==> plan_for(w, s) == Ok::<RenderPlan, Seq<char>>(RenderPlan::Move)
                && after_frame(w, s, owner).content == Some(
                ContentView { snapshot: s, owner, widths: w.content->0.widths },
            ) && after_frame(w, s, owner).gesture == w.gesture
            &&& !place ==> plan_for(w, s) == Ok::<RenderPlan, Seq<char>>(RenderPlan::Conceal)
                && after_frame(w, s, owner).content is None && after_frame(
                w,
                s,
                owner,
            ).gesture.pressed is None
        }),
{
}

/// A concealed strip holds neither a frame nor a press; its look and what went wrong stay.
pub proof fn law_concealed_strip_is_empty(w: WindowView)
    ensures
        concealed(w).content is None,
        concealed(w).gesture.pressed is None,
        concealed(w).gesture.hovered is None,
        !concealed(w).recovery.waiting,
        concealed(w).error == w.error,
        concealed(w).palette == w.palette,
        concealed(w).dpi == w.dpi,
{
}

/// A length in parts is, in pixels, the nearest to the true one, as long as that is at least
/// a pixel and within the numbers that there are.
pub proof fn law_length_in_parts_is_the_nearest(parts: nat, dpi: nat)
    ensures
        part_pixels(parts, dpi) >= 1,
        3264 <= parts * dpi <= 3264 * 0x7000_0000 ==> -3264 <= 2 * (parts * dpi) - 6528
            * part_pixels(parts, dpi) < 3264,
{
    let product = parts * dpi;
    assert(2 * parts * dpi == 2 * product) by (nonlinear_arith)
        requires
            product == parts * dpi,
    ;
}

/// Where there is room the strip hangs under its anchor with their left edges in line, as
/// wide as its cells and as high as a strip.
pub proof fn law_strip_hangs_from_the_anchor(w: WindowView, c: ContentView, work: Rect)
    requires
        w.dpi == 96,
        w.content == Some(c),
        c.snapshot.anchor is Some,
        c.snapshot.anchor->0.valid,
        work.left <= c.snapshot.anchor->0.left,
        c.snapshot.anchor->0.left + part_pixels(strip_width(c.widths), 96) <= work.right,
        work.top <= c.snapshot.anchor->0.bottom,
        c.snapshot.anchor->0.bottom + 46 <= work.bottom,
    ensures
        bounds_of(w, Some(work)) == Some(
            (
                c.snapshot.anchor->0.left as int,
                c.snapshot.anchor->0.bottom as int,
                part_pixels(strip_width(c.widths), 96),
                46int,
            ),
        ),
{
    crate::geometry::laws::law_usual_resolution_keeps_lengths(46);
}

/// What is drawn of one cell is drawn of all of them.
proof fn lemma_cell_is_drawn(
    s: RenderSnapshotView,
    g: Gesture,
    p: Palette,
    cells: Seq<Cell>,
    i: int,
    shape: ShapeView,
)
    requires
        0 <= i < cells.len(),
        cell_shapes(s, g, p, cells[i]).contains(shape),
    ensures
        all_cells(s, g, p, cells).contains(shape),
    decreases cells.len(),
{
    let rest = all_cells(s, g, p, cells.drop_last());
    let last = cell_shapes(s, g, p, cells.last());
    let all = all_cells(s, g, p, cells);
    if i == cells.len() - 1 {
        let k = last.index_of(shape);
        assert(all[rest.len() + k] == shape);
    } else {
        assert(cells.drop_last()[i] == cells[i]);
        lemma_cell_is_drawn(s, g, p, cells.drop_last(), i, shape);
        let k = rest.index_of(shape);
        assert(all[k] == shape);
    }
}

/// What is drawn of a cell of the strip is among all that is drawn.
proof fn lemma_painted(w: WindowView, c: ContentView, i: int, shape: ShapeView)
    requires
        w.content == Some(c),
        0 <= i < strip_cells(c.widths).len(),
        cell_shapes(c.snapshot, w.gesture, w.palette, strip_cells(c.widths)[i]).contains(shape),
    ensures
        paint_of(w).contains(shape),
{
    let cells = strip_cells(c.widths);
    lemma_cell_is_drawn(c.snapshot, w.gesture, w.palette, cells, i, shape);
    let all = all_cells(c.snapshot, w.gesture, w.palette, cells);
    let k = all.index_of(shape);
    assert(paint_of(w)[k] == shape);
}

/// Every candidate is drawn in its own cell, with its number from one on, its text after
/// that, and its comment where it has one; one that cannot be chosen is drawn in the colour
/// for that.
pub proof fn law_every_candidate_is_drawn(w: WindowView, c: ContentView, row: nat)
    requires
        w.content == Some(c),
        c.snapshot.visible,
        c.snapshot.items.len() == c.widths.len(),
        c.widths.len() <= MAX_CELLS,
        row < c.widths.len(),
    ensures
        ({
            let item = c.snapshot.items[row as int];
            let left = left_of(c.widths, row);
            let right = left_of(c.widths, row + 1);
            &&& paint_of(w).contains(
                ShapeView::Text {
                    font: Font::Number,
                    text: decimal(row + 1),
                    area: Area {
                        left: left as i64,
                        top: 0,
                        right: (left + 736) as i64,
                        bottom: 1564,
                    },
                    rgb: if !item.enabled {
                        w.palette.disabled
                    } else if row == c.snapshot.selected_index {
                        w.palette.active_number
                    } else {
                        w.palette.secondary
                    },
                },
            )
            &&& paint_of(w).contains(
                ShapeView::Text {
                    font: Font::Text,
                    text: item.primary_text,
                    area: Area {
                        left: (left + 920) as i64,
                        top: 0,
                        right: (right - 414) as i64,
                        bottom: 1564,
                    },
                    rgb: if item.enabled {
                        w.palette.text
                    } else {
                        w.palette.disabled
                    },
                },
            )
            &&& item.secondary_text.len() > 0 ==> paint_of(w).contains(
                ShapeView::Comment {
                    item: row as usize,
                    text: item.secondary_text,
                    area: Area {
                        left: (left + 1104) as i64,
                        top: 0,
                        right: (right - 414) as i64,
                        bottom: 1564,
                    },
                    rgb: if item.enabled {
                        w.palette.secondary
                    } else {
                        w.palette.disabled
                    },
                },
            )
        }),
{
    let cells = strip_cells(c.widths);
    let cell = candidate_cell(c.widths, row as int);
    assert(cells[row as int] == cell);
    super::logic::lemma_width_bound(c.widths);
    lemma_left_monotone(c.widths, row + 1, c.widths.len());
    lemma_left_monotone(c.widths, row, row + 1);
    let back = back_shapes(c.snapshot, w.gesture, w.palette, cell);
    let front = candidate_shapes(c.snapshot, w.palette, cell, row as usize);
    let shapes = cell_shapes(c.snapshot, w.gesture, w.palette, cell);
    assert(shapes == back + front);
    assert(shapes[back.len() as int] == front[0]);
    assert(shapes[back.len() as int + 1] == front[1]);
    lemma_painted(w, c, row as int, front[0]);
    lemma_painted(w, c, row as int, front[1]);
    if c.snapshot.items[row as int].secondary_text.len() > 0 {
        assert(shapes[back.len() as int + 2] == front[2]);
        lemma_painted(w, c, row as int, front[2]);
    }
}

/// The cell of the selected candidate is marked as such, wherever the pointer is; of the
/// others, the one under the pointer is marked where it can be used, and no other.
pub proof fn law_selection_is_marked(s: RenderSnapshotView, g: Gesture, p: Palette, cell: Cell)
    ensures
        ({
            let back = back_shapes(s, g, p, cell);
            let selected = cell.hit == Hit::Candidate(s.selected_index as usize);
            &&& selected ==> back.len() == 1 && back[0]->Fill_rgb == p.active
            &&& !selected && usable(s, cell.hit) && g.hovered == Some(cell.hit) ==> back.len()
                == 1 && back[0]->Fill_rgb == p.hover
            &&& !selected && (g.hovered != Some(cell.hit) || !usable(s, cell.hit)) ==> back.len()
                == 0
            &&& back.len() == 1 && cell.right <= 0x4000_0000_0000_0000 && cell.left
                <= cell.right ==> back[0]->Fill_area.left == cell.left && back[0]->Fill_area.right
                == cell.right && back[0]->Fill_area.top == 0 && back[0]->Fill_area.bottom == 1564
        }),
{
}

/// The buttons are drawn with their own icons, in the colour that says whether they can be
/// used.
pub proof fn law_buttons_have_their_icons(w: WindowView, c: ContentView)
    requires
        w.content == Some(c),
    ensures
        exists|i: int|
            0 <= i < paint_of(w).len() && (#[trigger] paint_of(w)[i]) is Text && paint_of(
                w,
            )[i]->Text_text == "\u{E76B}"@ && paint_of(w)[i]->Text_rgb == (if usable(
                c.snapshot,
                Hit::Previous,
            ) {
                w.palette.text
            } else {
                w.palette.disabled
            }),
        exists|i: int|
            0 <= i < paint_of(w).len() && (#[trigger] paint_of(w)[i]) is Text && paint_of(
                w,
            )[i]->Text_text == "\u{E76C}"@ && paint_of(w)[i]->Text_rgb == (if usable(
                c.snapshot,
                Hit::Next,
            ) {
                w.palette.text
            } else {
                w.palette.disabled
            }),
{
    let cells = strip_cells(c.widths);
    let n = c.widths.len() as int;
    let previous = cell_shapes(c.snapshot, w.gesture, w.palette, cells[n]);
    let next = cell_shapes(c.snapshot, w.gesture, w.palette, cells[n + 1]);
    assert(previous.contains(previous[previous.len() - 1]));
    assert(next.contains(next[next.len() - 1]));
    lemma_painted(w, c, n, previous[previous.len() - 1]);
    lemma_painted(w, c, n + 1, next[next.len() - 1]);
}

/// A press is kept exactly while the pointer stays on what was pressed, and what the pointer
/// is on is always known.
pub proof fn law_press_lasts_while_the_pointer_stays(g: Gesture, hit: Option<Hit>)
    ensures
        after_motion(g, hit).hovered == hit,
        g.pressed is Some && hit == g.pressed ==> after_motion(g, hit).pressed == g.pressed,
        hit != g.pressed ==> after_motion(g, hit).pressed is None,
{
}

} // verus!
