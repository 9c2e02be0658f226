//! Where the classic look puts its cells and windows, and what a click on them comes to.
#[allow(unused_imports)]
use super::logic::{
    action_of, after_motion, after_press, beside, hit_of, in_cell, page_cells, released, row_cell,
    text_bottom, usable, Cell, Gesture, Hit, Recovery, Role, MAX_ROWS, ROW,
};
#[allow(unused_imports)]
use super::paint::{
    all_cells, area_of, arrow_row, arrow_shapes, cell_shapes, inner_shapes, paint_of, Area,
    ShapeView,
};
#[allow(unused_imports)]
use super::window::{
    after_input, after_view, bounds_of, concealed, group_size, live_place, plan_for, popup,
    size_of, step_for, ContentView, RenderPlan, WindowView,
};
#[allow(unused_imports)]
use crate::geometry::{pixels_of, scaled_down, Rect};
#[allow(unused_imports)]
use crate::message::{RendererEvent, RendererEventAction};
#[allow(unused_imports)]
use crate::text::decimal;
#[allow(unused_imports)]
use crate::theme_api::{same_view_content, Anchor, CandidateViewView, FrameView, UiAction};
#[allow(unused_imports)]
use crate::theme_window::{Input, Placing, Step};
use vstd::prelude::*;

verus! {

/// Where one cell holds a point and no other does, that cell lies under it.
proof fn lemma_only_cell(cells: Seq<Cell>, x: int, y: int, i: int)
    requires
        0 <= i < cells.len(),
        in_cell(cells[i], x, y),
        forall|j: int| 0 <= j < cells.len() && j != i ==> !in_cell(#[trigger] cells[j], x, y),
    ensures
        hit_of(cells, x, y) == Some(cells[i].hit),
    decreases cells.len(),
{
    if i > 0 {
        let rest = cells.drop_first();
        assert(!in_cell(cells[0], x, y));
        assert forall|j: int| 0 <= j < rest.len() && j != i - 1 implies !in_cell(
            #[trigger] rest[j],
            x,
            y,
        ) by {
            assert(!in_cell(cells[j + 1], x, y));
        }
        lemma_only_cell(rest, x, y, i - 1);
    }
}

/// Where no cell holds a point, nothing lies under it.
proof fn lemma_no_cell(cells: Seq<Cell>, x: int, y: int)
    requires
        forall|j: int| 0 <= j < cells.len() ==> !in_cell(#[trigger] cells[j], x, y),
    ensures
        hit_of(cells, x, y) is None,
    decreases cells.len(),
{
    if cells.len() > 0 {
        let rest = cells.drop_first();
        assert(!in_cell(cells[0], x, y));
        assert forall|j: int| 0 <= j < rest.len() implies !in_cell(#[trigger] rest[j], x, y) by {
            assert(!in_cell(cells[j + 1], x, y));
        }
        lemma_no_cell(rest, x, y);
    }
}

/// The rows lie one below the other from the margin on, each of the height of a row: a point
/// within a row is on the candidate of that place.
pub proof fn law_rows_follow_one_another(count: nat, row: nat, x: int, y: int)
    requires
        count <= MAX_ROWS,
        row < count,
        4 <= x < 112,
        4 + 16 * row <= y < 20 + 16 * row,
    ensures
        hit_of(page_cells(count), x, y) == Some(Hit::Candidate(row as usize)),
{
    let cells = page_cells(count);
    assert(cells[row as int] == row_cell(row));
    assert(in_cell(cells[row as int], x, y));
    assert forall|j: int| 0 <= j < cells.len() && j != row implies !in_cell(
        #[trigger] cells[j],
        x,
        y,
    ) by {
        if in_cell(cells[j], x, y) {
            super::logic::law_cells_do_not_overlap(count, row as int, j, x, y);
        }
    }
    lemma_only_cell(cells, x, y, row as int);
}

/// Below the rows, nine of them at least, lie the buttons, the pair at the left and the pair
/// at the right alike: going back left of going on.
pub proof fn law_buttons_lie_below_the_rows(count: nat, x: int, y: int)
    requires
        count <= MAX_ROWS,
        ({
            let rows: nat = if count < 9 {
                9
            } else {
                count
            };
            16 * rows + 7 <= y < 16 * rows + 21
        }),
    ensures
        hit_of(page_cells(count), x, y) == (if 4 <= x < 18 {
            Some(Hit::PreviousDecorative)
        } else if 18 <= x < 32 {
            Some(Hit::NextDecorative)
        } else if 95 <= x < 109 {
            Some(Hit::Previous)
        } else if 109 <= x < 123 {
            Some(Hit::Next)
        } else {
            None
        }),
{
    let cells = page_cells(count);
    let at: int = if 4 <= x < 18 {
        count as int
    } else if 18 <= x < 32 {
        count as int + 1
    } else if 95 <= x < 109 {
        count as int + 2
    } else if 109 <= x < 123 {
        count as int + 3
    } else {
        -1
    };
    assert forall|j: int| 0 <= j < count implies !in_cell(#[trigger] cells[j], x, y) by {
        assert(cells[j] == row_cell(j as nat));
    }
    if at >= 0 {
        assert(in_cell(cells[at], x, y));
        assert forall|j: int| 0 <= j < cells.len() && j != at implies !in_cell(
            #[trigger] cells[j],
            x,
            y,
        ) by {
            if in_cell(cells[j], x, y) {
                super::logic::law_cells_do_not_overlap(count, at, j, x, y);
            }
        }
        lemma_only_cell(cells, x, y, at);
    } else {
        lemma_no_cell(cells, x, y);
    }
}

/// The candidate at a place is invoked by that place's number; of the buttons, each pages in
/// its own direction.
pub proof fn law_cells_ask_for_what_they_show(row: usize)
    requires
        row <= u32::MAX,
    ensures
        action_of(Hit::Candidate(row)) == UiAction::ItemInvoked(row as u32),
        action_of(Hit::Previous) == UiAction::NavigatePrevious,
        action_of(Hit::PreviousDecorative) == UiAction::NavigatePrevious,
        action_of(Hit::Next) == UiAction::NavigateNext,
        action_of(Hit::NextDecorative) == UiAction::NavigateNext,
{
}

/// A visible page lets its enabled candidates be chosen and the pages that it has be turned
/// to, and nothing else; of a hidden one nothing can be used.
pub proof fn law_only_what_is_offered_can_be_used(view: CandidateViewView, row: usize)
    ensures
        view.visible ==> usable(view, Hit::Candidate(row)) == (row < view.items.len()
            && view.items[row as int].enabled),
        view.visible ==> usable(view, Hit::Previous) == view.can_page_previous,
        view.visible ==> usable(view, Hit::PreviousDecorative) == view.can_page_previous,
        view.visible ==> usable(view, Hit::Next) == view.can_page_next,
        view.visible ==> usable(view, Hit::NextDecorative) == view.can_page_next,
        forall|hit: Hit| !view.visible ==> !#[trigger] usable(view, hit),
{
}

/// Pressing and letting go over the candidate of a row, with the pointer staying on the row
/// in between, reports the invocation of that very row to the frame's connection.
pub proof fn law_click_on_a_row_invokes_it(
    w: WindowView,
    c: ContentView,
    row: nat,
    down: (i32, i32),
    up: (i32, i32),
)
    requires
        w.role == Role::Candidates,
        w.dpi == 96,
        w.content == Some(c),
        c.snapshot.visible,
        c.snapshot.items.len() <= MAX_ROWS,
        c.events.enabled.len() == c.snapshot.items.len(),
        row < c.snapshot.items.len(),
        c.snapshot.items[row as int].enabled,
        c.events.enabled[row as int],
        4 <= down.0 < 112 && 4 + 16 * row <= down.1 < 20 + 16 * row,
        4 <= up.0 < 112 && 4 + 16 * row <= up.1 < 20 + 16 * row,
    ensures
        ({
            let pressed = after_input(w, Input::Down { x: down.0, y: down.1 });
            let moved = after_input(pressed, Input::Motion { x: up.0, y: up.1 });
            &&& step_for(w, Input::Down { x: down.0, y: down.1 }) == (Step::Press {
                hold: true,
                redraw: true,
            })
            &&& step_for(moved, Input::Up { x: up.0, y: up.1 }) == Step::Click(
                Some(
                    (
                        c.events.owner,
                        RendererEvent {
                            session_id: c.events.session_id,
                            token: c.events.token,
                            revision: c.events.revision,
                            action: RendererEventAction::ItemInvoked,
                            item_index: row as u32,
                        },
                    ),
                ),
            )
        }),
{
    let count = c.snapshot.items.len();
    law_rows_follow_one_another(count, row, down.0 as int, down.1 as int);
    law_rows_follow_one_another(count, row, up.0 as int, up.1 as int);
    assert(scaled_down(down.0 as int, 96, 96) == down.0);
    assert(scaled_down(down.1 as int, 96, 96) == down.1);
    assert(scaled_down(up.0 as int, 96, 96) == up.0);
    assert(scaled_down(up.1 as int, 96, 96) == up.1);
}

/// Letting go where nothing was pressed reports nothing; and however a press ends, it is
/// over.
pub proof fn law_only_a_press_can_be_released(w: WindowView, x: i32, y: i32)
    ensures
        w.gesture.pressed is None ==> step_for(w, Input::Up { x, y }) == Step::Click(None),
        w.content is None ==> step_for(w, Input::Up { x, y }) == Step::Click(None),
        after_input(w, Input::Up { x, y }).gesture.pressed is None,
        after_input(w, Input::Gone).gesture.pressed is None,
        after_input(w, Input::Up { x, y }).content == w.content,
        after_input(w, Input::Gone).content == w.content,
{
}

/// Messages about the pointer and the look change neither what a window shows nor what it
/// is; only a new resolution changes its resolution, to the given one, and ends a press.
pub proof fn law_messages_keep_the_content(w: WindowView, input: Input, dpi: u32)
    ensures
        after_input(w, input).content == w.content,
        after_input(w, input).role == w.role,
        after_input(w, input).preview == w.preview,
        !(input is Resolution) ==> after_input(w, input).dpi == w.dpi,
        after_input(w, Input::Resolution(dpi)).dpi == dpi,
        after_input(w, Input::Resolution(dpi)).gesture == (Gesture {
            pressed: None,
            hovered: None,
        }),
        step_for(w, Input::Resolution(dpi)) == Step::Reposition,
        !after_input(w, Input::Retry).recovery.waiting,
        after_input(w, Input::Retry).recovery.failures == w.recovery.failures,
{
}

/// Only a preview can be closed, and only its window of candidates becomes the active one.
pub proof fn law_live_windows_keep_out_of_the_way(w: WindowView)
    ensures
        !w.preview ==> step_for(w, Input::Close) == Step::Default && step_for(w, Input::Activate)
            == Step::Return(3),
        w.preview ==> step_for(w, Input::Close) == Step::Quit,
        w.preview && w.role == Role::Input ==> step_for(w, Input::Activate) == Step::Return(3),
        w.preview && w.role == Role::Candidates ==> step_for(w, Input::Activate) == Step::Default,
        w.error is None && !w.recovery.waiting ==> step_for(w, Input::Paint) == Step::Paint,
        w.recovery.waiting ==> step_for(w, Input::Paint) == Step::Return(0),
{
}

/// Whether a view has a valid place.
pub open spec fn has_place(view: CandidateViewView) -> bool {
    view.anchor is Some && view.anchor->0.valid
}

/// A window without an error that is given a page of other content, with a place, shows it:
/// the candidates' window where there are candidates, the input window where there is text.
pub proof fn law_new_page_is_shown(w: WindowView, view: CandidateViewView, events: FrameView)
    requires
        w.error is None,
        view.visible,
        has_place(view),
        w.role == Role::Candidates ==> view.items.len() > 0,
        w.role == Role::Input ==> view.preedit is Some,
        w.content is None || view.items.len() == 0 || !same_view_content(
            w.content->0.snapshot,
            view,
        ),
    ensures
        plan_for(w, view, None) == Ok::<RenderPlan, Seq<char>>(
            RenderPlan::Show { activate: w.preview && w.role == Role::Candidates },
        ),
        after_view(w, view, events, None).content == Some(ContentView { snapshot: view, events }),
        after_view(w, view, events, None).error is None,
{
}

/// A view that is not to be seen, has no place, or has nothing of what the window is for
/// takes the window off the screen, with what it held.
pub proof fn law_empty_page_conceals(w: WindowView, view: CandidateViewView, events: FrameView)
    requires
        w.error is None,
        !view.visible || !has_place(view) || (w.role == Role::Candidates && view.items.len() == 0)
            || (w.role == Role::Input && view.preedit is None && (w.content is None
            || !same_view_content(w.content->0.snapshot, view))),
    ensures
        plan_for(w, view, None) == Ok::<RenderPlan, Seq<char>>(RenderPlan::Conceal),
        after_view(w, view, events, None).content is None,
        after_view(w, view, events, None).gesture.pressed is None,
        !after_view(w, view, events, None).recovery.waiting,
{
}

/// The same content at a valid place only moves the window, which then shows the new view
/// and answers for the new frame.
pub proof fn law_same_page_moves(w: WindowView, view: CandidateViewView, events: FrameView)
    requires
        w.content is Some,
        view.visible,
        view.items.len() > 0,
        has_place(view),
        same_view_content(w.content->0.snapshot, view),
    ensures
        plan_for(w, view, None) == Ok::<RenderPlan, Seq<char>>(RenderPlan::Move),
        after_view(w, view, events, None).content == Some(ContentView { snapshot: view, events }),
        after_view(w, view, events, None).gesture == w.gesture,
{
}

/// A composition that is not sound is refused before all else, and changes nothing.
pub proof fn law_unsound_text_changes_nothing(
    w: WindowView,
    view: CandidateViewView,
    events: FrameView,
    wrong: Seq<char>,
)
    requires
        view.preedit is Some,
    ensures
        plan_for(w, view, Some(wrong)) == Err::<RenderPlan, Seq<char>>(wrong),
        after_view(w, view, events, Some(wrong)) == w,
{
}

/// The input window has one size; that of the candidates is of one width and grows by the
/// height of a row with every row after the ninth.
pub proof fn law_windows_grow_by_rows(count: nat)
    ensures
        size_of(Role::Input, count) == (173nat, 26nat),
        size_of(Role::Candidates, count).0 == 127,
        count <= 9 ==> size_of(Role::Candidates, count).1 == 169,
        count >= 9 ==> size_of(Role::Candidates, count + 1).1 == size_of(
            Role::Candidates,
            count,
        ).1 + 16,
{
}

/// Where there is room beside the input window, the candidates stand to its right, a gap
/// away and level with it; where there is none at the right but at the left, they stand
/// there, as far away.
pub proof fn law_candidates_stand_beside_the_input(
    input: (int, int),
    input_width: int,
    size: (int, int),
    gap: int,
    work: Anchor,
)
    requires
        i32::MIN <= input.0 - size.0 - gap,
        input.0 + input_width + gap + size.0 <= i32::MAX,
        0 <= size.0,
        0 <= gap,
        0 <= input_width,
        i32::MIN <= input.0 <= i32::MAX,
        work.top <= input.1,
        input.1 + size.1 <= work.bottom,
        0 <= size.1,
    ensures
        work.left <= input.0 + input_width + gap && input.0 + input_width + gap + size.0
            <= work.right ==> beside(input, input_width, size, gap, work) == (
            input.0 + input_width + gap,
            input.1,
        ),
        input.0 + input_width + gap + size.0 > work.right && work.left <= input.0 - size.0 - gap
            && input.0 - gap <= work.right ==> beside(input, input_width, size, gap, work) == (
            input.0 - size.0 - gap,
            input.1,
        ),
{
}

/// Without a composition the candidates hang from the anchor themselves; with one, the input
/// window does, and the candidates stand beside it.
pub proof fn law_windows_hang_from_the_anchor(
    view: CandidateViewView,
    anchor: Anchor,
    work: Rect,
)
    requires
        work.left <= anchor.left,
        anchor.left + 181 + 127 <= work.right,
        work.top <= anchor.bottom,
        anchor.bottom + size_of(Role::Candidates, view.items.len()).1 <= work.bottom,
        0 < view.items.len() <= MAX_ROWS / 2,
    ensures
        view.preedit is None ==> live_place(Role::Candidates, view, anchor, 96, Some(work)) == (
            anchor.left as int,
            anchor.bottom as int,
        ),
        view.preedit is Some ==> live_place(Role::Input, view, anchor, 96, Some(work)) == (
            anchor.left as int,
            anchor.bottom as int,
        ),
        view.preedit is Some ==> live_place(Role::Candidates, view, anchor, 96, Some(work)) == (
            anchor.left + 181,
            anchor.bottom as int,
        ),
{
    let page = size_of(Role::Candidates, view.items.len());
    crate::geometry::laws::law_usual_resolution_keeps_lengths(page.0);
    crate::geometry::laws::law_usual_resolution_keeps_lengths(page.1);
    crate::geometry::laws::law_usual_resolution_keeps_lengths(173);
    crate::geometry::laws::law_usual_resolution_keeps_lengths(26);
    crate::geometry::laws::law_usual_resolution_keeps_lengths(8);
}

/// A preview stands where it is put, whatever the anchor; its candidates stand beside the
/// input window where there is a composition.
pub proof fn law_preview_stands_where_it_is_put(
    w: WindowView,
    c: ContentView,
    at: (i32, i32),
    work: Option<Rect>,
)
    requires
        w.preview,
        w.dpi == 96,
        w.content == Some(c),
        0 < c.snapshot.items.len() <= MAX_ROWS / 2,
        at.0 <= 0x7000_0000,
    ensures
        bounds_of(w, at, work) == Some(
            (
                at.0 + (if w.role == Role::Candidates && c.snapshot.preedit is Some {
                    181int
                } else {
                    0int
                }),
                at.1 as int,
                size_of(w.role, c.snapshot.items.len()).0 as int,
                size_of(w.role, c.snapshot.items.len()).1 as int,
            ),
        ),
{
    let size = size_of(w.role, c.snapshot.items.len());
    crate::geometry::laws::law_usual_resolution_keeps_lengths(size.0);
    crate::geometry::laws::law_usual_resolution_keeps_lengths(size.1);
    crate::geometry::laws::law_usual_resolution_keeps_lengths(181);
}

/// Both windows together are as wide as the candidates' window and, with a composition, the
/// input window with the gap between them; without candidates they are the input window.
pub proof fn law_group_holds_both_windows(view: CandidateViewView)
    ensures
        view.items.len() == 0 ==> group_size(view) == (173nat, 26nat),
        view.items.len() > 0 && view.preedit is None ==> group_size(view).0 == 127,
        view.items.len() > 0 && view.preedit is Some ==> group_size(view).0 == 173 + 8 + 127,
        view.items.len() > 0 ==> group_size(view).1 == size_of(
            Role::Candidates,
            view.items.len(),
        ).1,
{
}

/// A concealed window holds neither a frame nor a press; what it is and what went wrong in
/// it stay.
pub proof fn law_concealed_window_is_empty(w: WindowView)
    ensures
        concealed(w).content is None,
        concealed(w).gesture.pressed is None,
        concealed(w).gesture.hovered is None,
        !concealed(w).recovery.waiting,
        concealed(w).error == w.error,
        concealed(w).role == w.role,
        concealed(w).dpi == w.dpi,
        concealed(w).preview == w.preview,
{
}

/// What is drawn of one cell is drawn of all of them.
proof fn lemma_cell_is_drawn(
    view: CandidateViewView,
    gesture: Gesture,
    cells: Seq<Cell>,
    i: int,
    shape: ShapeView,
)
    requires
        0 <= i < cells.len(),
        cell_shapes(view, gesture, cells[i]).contains(shape),
    ensures
        all_cells(view, gesture, cells).contains(shape),
    decreases cells.len(),
{
    let rest = all_cells(view, gesture, cells.drop_last());
    let last = cell_shapes(view, gesture, cells.last());
    let all = all_cells(view, gesture, cells);
    if i == cells.len() - 1 {
        let k = last.index_of(shape);
        assert(all[rest.len() + k] == shape);
    } else {
        assert(cells.drop_last()[i] == cells[i]);
        lemma_cell_is_drawn(view, gesture, cells.drop_last(), i, shape);
        let k = rest.index_of(shape);
        assert(all[k] == shape);
    }
}

/// What is drawn in a window is among all that is drawn.
proof fn lemma_painted(w: WindowView, c: ContentView, shape: ShapeView)
    requires
        w.content == Some(c),
        all_cells(c.snapshot, w.gesture, super::window::cells_of(w.role, c.snapshot.items.len()))
            .contains(shape) || inner_shapes(
            w.role,
            c.snapshot,
            size_of(w.role, c.snapshot.items.len()).0 as int,
            size_of(w.role, c.snapshot.items.len()).1 as int,
        ).contains(shape),
    ensures
        paint_of(w).contains(shape),
{
    let count = c.snapshot.items.len();
    let size = size_of(w.role, count);
    let cells = all_cells(c.snapshot, w.gesture, super::window::cells_of(w.role, count));
    let inner = inner_shapes(w.role, c.snapshot, size.0 as int, size.1 as int);
    let front = super::paint::frame_shapes(size.0 as int, size.1 as int);
    let all = paint_of(w);
    assert(all == front + inner + cells);
    if inner.contains(shape) {
        let k = inner.index_of(shape);
        assert(all[front.len() + k] == shape);
    } else {
        let k = cells.index_of(shape);
        assert(all[front.len() + inner.len() + k] == shape);
    }
}

/// Every candidate of a page is drawn in its own row, from top to bottom, with its number
/// from one on before its text; one that cannot be chosen is drawn in grey.
pub proof fn law_every_candidate_is_drawn(w: WindowView, c: ContentView, row: nat)
    requires
        w.role == Role::Candidates,
        w.content == Some(c),
        c.snapshot.visible,
        c.snapshot.items.len() <= MAX_ROWS,
        row < c.snapshot.items.len(),
    ensures
        paint_of(w).contains(
            ShapeView::Label {
                text: decimal(row + 1) + ":"@ + c.snapshot.items[row as int].primary_text,
                area: Area {
                    left: 4,
                    top: (4 + 16 * row) as i64,
                    right: 112,
                    bottom: (20 + 16 * row) as i64,
                },
                rgb: if c.snapshot.items[row as int].enabled {
                    0x800080
                } else {
                    0x808080
                },
            },
        ),
{
    let cells = page_cells(c.snapshot.items.len());
    let cell = row_cell(row);
    assert(cells[row as int] == cell);
    let shapes = cell_shapes(c.snapshot, w.gesture, cell);
    let label = ShapeView::Label {
        text: decimal(row + 1) + ":"@ + c.snapshot.items[row as int].primary_text,
        area: Area {
            left: 4,
            top: (4 + 16 * row) as i64,
            right: 112,
            bottom: (20 + 16 * row) as i64,
        },
        rgb: if c.snapshot.items[row as int].enabled {
            0x800080
        } else {
            0x808080
        },
    };
    assert(shapes[shapes.len() - 1] == label);
    lemma_cell_is_drawn(c.snapshot, w.gesture, cells, row as int, label);
    lemma_painted(w, c, label);
}

/// What is being entered is drawn whole, with its caret, within the input window's edges.
pub proof fn law_composition_is_drawn(w: WindowView, c: ContentView)
    requires
        w.role == Role::Input,
        w.content == Some(c),
        c.snapshot.preedit is Some,
    ensures
        paint_of(w).contains(
            ShapeView::Preedit {
                text: c.snapshot.preedit->0.text,
                cursor: c.snapshot.preedit->0.cursor,
                area: Area { left: 4, top: 4, right: 167, bottom: 22 },
                rgb: 0x000000,
                caret: 0x3FC0C0,
            },
        ),
{
    let size = size_of(w.role, c.snapshot.items.len());
    let inner = inner_shapes(w.role, c.snapshot, size.0 as int, size.1 as int);
    lemma_painted(w, c, inner[0]);
}

/// A pressed cell is drawn on a darker ground, and no other is.
pub proof fn law_pressed_cell_is_darker(view: CandidateViewView, gesture: Gesture, cell: Cell)
    ensures
        gesture.pressed == Some(cell.hit) ==> cell_shapes(view, gesture, cell)[0]
            == (ShapeView::Fill { area: area_of(cell), rgb: 0xA0A0A0 }),
        gesture.pressed != Some(cell.hit) ==> forall|i: int|
            0 <= i < cell_shapes(view, gesture, cell).len() ==> (#[trigger] cell_shapes(
                view,
                gesture,
                cell,
            )[i]) != (ShapeView::Fill { area: area_of(cell), rgb: 0xA0A0A0 }),
{
}

/// The arrow for going back grows from its tip downwards, and the one for going on shrinks
/// to it; a pressed one stands a unit further to the right and the bottom, and one that
/// cannot be used is grey.
pub proof fn law_arrows_point_their_way(x: int, y: int, usable: bool, pressed: bool, row: int)
    requires
        0 <= row < 4,
        0 <= x <= 0x1_0000_0000,
        0 <= y <= 0x1_0000_0000,
    ensures
        ({
            let up = arrow_row(x, y, true, usable, pressed, row)->Fill_area;
            let down = arrow_row(x, y, false, usable, pressed, row)->Fill_area;
            &&& up.right - up.left == 2 * row + 1
            &&& down.right - down.left == 7 - 2 * row
            &&& up.left + up.right == down.left + down.right
            &&& up.top == down.top == y + 5 + row + (if pressed {
                1int
            } else {
                0int
            })
            &&& up.bottom == up.top + 1
            &&& arrow_row(x, y, true, usable, pressed, row)->Fill_rgb == (if usable {
                0u32
            } else {
                0x808080u32
            })
        }),
{
}

/// A press is kept exactly while the pointer stays on what was pressed, and what the pointer
/// is on is always known.
pub proof fn law_press_lasts_while_the_pointer_stays(g: Gesture, hit: Option<Hit>)
    ensures
        after_motion(g, hit).hovered == hit,
        g.pressed is Some && hit == g.pressed ==> after_motion(g, hit).pressed == g.pressed,
        hit != g.pressed ==> after_motion(g, hit).pressed is None,
{
}

} // verus!
