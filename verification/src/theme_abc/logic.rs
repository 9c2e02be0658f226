//! The cells of the classic candidate window, and what a click on them does.
//! Every length is in units of 1/96 inch, and whole.
use crate::geometry::{add_within, lower, sub_within, upper};
use crate::theme_api::{Anchor, CandidateView, UiAction};
#[allow(unused_imports)]
use crate::theme_api::CandidateViewView;
use vstd::prelude::*;

verus! {

/// Height of a row.
pub const ROW: u32 = 16;

/// Margin around the rows.
pub const PAD: u32 = 4;

pub const INPUT_WIDTH: u32 = 173;

pub const INPUT_HEIGHT: u32 = 26;

pub const CANDIDATE_WIDTH: u32 = 127;

/// Space between the input window and the candidates.
pub const GAP: u32 = 8;

/// Number of candidates that a page may hold so that its height is a number.
pub const MAX_ROWS: usize = 0x0800_0000;

/// Which of the two windows.
#[derive(Clone, Copy, Debug, PartialEq, Eq, Structural)]
pub enum Role {
    Input,
    Candidates,
}

/// Where the candidates go beside the input window: to its right, or to its left
/// where they would leave the work area; then within the area.
pub open spec fn beside(
    input: (int, int),
    input_width: int,
    size: (int, int),
    gap: int,
    work: Anchor,
) -> (int, int) {
    let right = crate::geometry::clamp32(crate::geometry::clamp32(input.0 + input_width) + gap);
    let x = if crate::geometry::clamp32(right + size.0) > work.right {
        crate::geometry::clamp32(crate::geometry::clamp32(input.0 - size.0) - gap)
    } else {
        right
    };
    (
        crate::geometry::larger(
            crate::geometry::smaller(x, crate::geometry::clamp32(work.right - size.0)),
            work.left as int,
        ),
        crate::geometry::larger(
            crate::geometry::smaller(input.1, crate::geometry::clamp32(work.bottom - size.1)),
            work.top as int,
        ),
    )
}

/// Where the candidates go beside the input window.
pub fn candidate_position(
    input: (i32, i32),
    input_width: i32,
    size: (i32, i32),
    gap: i32,
    work: &Anchor,
) -> (r: (i32, i32))
    ensures
        (r.0 as int, r.1 as int) == beside(
            (input.0 as int, input.1 as int),
            input_width as int,
            (size.0 as int, size.1 as int),
            gap as int,
            *work,
        ),
{
    let right: i32 = add_within(add_within(input.0, input_width), gap);
    let x: i32 = if add_within(right, size.0) > work.right {
        sub_within(sub_within(input.0, size.0), gap)
    } else {
        right
    };
    (
        upper(lower(x, sub_within(work.right, size.0)), work.left),
        upper(lower(input.1, sub_within(work.bottom, size.1)), work.top),
    )
}

/// Candidates that fit into the work area stay in it.
pub proof fn law_candidates_stay_in_work_area(
    input: (int, int),
    input_width: int,
    size: (int, int),
    gap: int,
    work: Anchor,
)
    requires
        0 <= size.0 <= work.right - work.left,
        0 <= size.1 <= work.bottom - work.top,
    ensures
        work.left <= beside(input, input_width, size, gap, work).0,
        beside(input, input_width, size, gap, work).0 + size.0 <= work.right,
        work.top <= beside(input, input_width, size, gap, work).1,
        beside(input, input_width, size, gap, work).1 + size.1 <= work.bottom,
{
}

/// What lies under the pointer. The two pairs of buttons page alike, but are
/// pressed apart.
#[derive(Clone, Copy, Debug, PartialEq, Eq, Structural)]
pub enum Hit {
    Candidate(usize),
    Previous,
    Next,
    PreviousDecorative,
    NextDecorative,
}

/// One cell of the window: the points from its left top edges up to, and not
/// including, its right bottom ones.
#[derive(Clone, Copy, Debug, PartialEq, Eq, Structural)]
pub struct Cell {
    pub hit: Hit,
    pub left: u32,
    pub top: u32,
    pub right: u32,
    pub bottom: u32,
}

/// Whether a point lies in a cell.
pub open spec fn in_cell(cell: Cell, x: int, y: int) -> bool {
    cell.left <= x < cell.right && cell.top <= y < cell.bottom
}

/// Number of rows of the window: never fewer than nine.
pub open spec fn rows_of(count: nat) -> nat {
    if count < 9 {
        9
    } else {
        count
    }
}

/// The lower edge of the rows.
pub open spec fn text_bottom(count: nat) -> nat {
    ROW as nat * rows_of(count) + 1
}

/// The cell of the candidate at a place.
pub open spec fn row_cell(i: nat) -> Cell {
    Cell {
        hit: Hit::Candidate(i as usize),
        left: PAD,
        top: (PAD + i * ROW) as u32,
        right: 112,
        bottom: (PAD + (i + 1) * ROW) as u32,
    }
}

/// The cell of a button, below the rows.
pub open spec fn button_cell(hit: Hit, left: u32, count: nat) -> Cell {
    Cell {
        hit,
        left,
        top: (text_bottom(count) + 6) as u32,
        right: (left + 14) as u32,
        bottom: (text_bottom(count) + 20) as u32,
    }
}

/// The cells of a page, the candidates first, then the four buttons.
pub open spec fn page_cells(count: nat) -> Seq<Cell> {
    Seq::new(count, |i: int| row_cell(i as nat)) + seq![
        button_cell(Hit::PreviousDecorative, 4, count),
        button_cell(Hit::NextDecorative, 18, count),
        button_cell(Hit::Previous, 95, count),
        button_cell(Hit::Next, 109, count),
    ]
}

/// The cells of a window and its size.
pub struct Layout {
    pub cells: Vec<Cell>,
    pub width: u32,
    pub height: u32,
}

impl Layout {
    /// The layout of a window for a page of candidates. The input window has no
    /// cells. No candidate is left out.
    pub fn new(count: usize, role: Role) -> (r: Self)
        requires
            count <= MAX_ROWS,
        ensures
            role == Role::Input ==> r.cells@ == Seq::<Cell>::empty() && r.width == INPUT_WIDTH
                && r.height == INPUT_HEIGHT,
            role == Role::Candidates ==> r.cells@ == page_cells(count as nat) && r.width
                == CANDIDATE_WIDTH && r.height == text_bottom(count as nat) + 24,
    {
        if role == Role::Input {
            return Layout { cells: Vec::new(), width: INPUT_WIDTH, height: INPUT_HEIGHT };
        }
        let rows: u32 = if count < 9 {
            9
        } else {
            count as u32
        };
        let edge: u32 = ROW * rows + 1;
        assert(edge == text_bottom(count as nat));
        let mut cells: Vec<Cell> = Vec::new();
        let mut i: usize = 0;
        while i < count
            invariant
                i <= count <= MAX_ROWS,
                cells@ == Seq::new(i as nat, |j: int| row_cell(j as nat)),
            decreases count - i,
        {
            let n: u32 = i as u32;
            cells.push(
                Cell {
                    hit: Hit::Candidate(i),
                    left: PAD,
                    top: PAD + n * ROW,
                    right: 112,
                    bottom: PAD + (n + 1) * ROW,
                },
            );
            i += 1;
            assert(cells@ =~= Seq::new(i as nat, |j: int| row_cell(j as nat)));
        }
        let top: u32 = edge + 6;
        let bottom: u32 = edge + 20;
        cells.push(Cell { hit: Hit::PreviousDecorative, left: 4, top, right: 18, bottom });
        cells.push(Cell { hit: Hit::NextDecorative, left: 18, top, right: 32, bottom });
        cells.push(Cell { hit: Hit::Previous, left: 95, top, right: 109, bottom });
        cells.push(Cell { hit: Hit::Next, left: 109, top, right: 123, bottom });
        assert(cells@ =~= page_cells(count as nat));
        Layout { cells, width: CANDIDATE_WIDTH, height: edge + 24 }
    }

    /// What lies under a point: the first cell that holds it. A point between
    /// two units counts as the one above and to the left of it.
    pub fn hit(&self, x: i64, y: i64) -> (r: Option<Hit>)
        ensures
            r == hit_of(self.cells@, x as int, y as int),
    {
        let mut i: usize = 0;
        while i < self.cells.len()
            invariant
                i <= self.cells.len(),
                forall|j: int|
                    0 <= j < i ==> !in_cell(#[trigger] self.cells[j], x as int, y as int),
            decreases self.cells.len() - i,
        {
            let cell: Cell = self.cells[i];
            if x >= cell.left as i64 && x < cell.right as i64 && y >= cell.top as i64 && y
                < cell.bottom as i64 {
                proof {
                    lemma_first_cell(self.cells@, x as int, y as int, i as int);
                }
                return Some(cell.hit);
            }
            i += 1;
        }
        proof {
            lemma_first_cell(self.cells@, x as int, y as int, self.cells@.len() as int);
        }
        None
    }
}

/// What lies under a point: the first cell that holds it.
pub open spec fn hit_of(cells: Seq<Cell>, x: int, y: int) -> Option<Hit>
    decreases cells.len(),
{
    if cells.len() == 0 {
        None
    } else if in_cell(cells[0], x, y) {
        Some(cells[0].hit)
    } else {
        hit_of(cells.drop_first(), x, y)
    }
}

/// Where no cell before a place holds a point, and the one at that place does, that
/// one lies under it; where no cell holds it, none does.
proof fn lemma_first_cell(cells: Seq<Cell>, x: int, y: int, i: int)
    requires
        0 <= i <= cells.len(),
        forall|j: int| 0 <= j < i ==> !in_cell(#[trigger] cells[j], x, y),
        i < cells.len() ==> in_cell(cells[i], x, y),
    ensures
        hit_of(cells, x, y) == (if i < cells.len() {
            Some(cells[i].hit)
        } else {
            None
        }),
    decreases cells.len(),
{
    if i > 0 {
        let rest = cells.drop_first();
        assert forall|j: int| 0 <= j < i - 1 implies !in_cell(#[trigger] rest[j], x, y) by {
            assert(!in_cell(cells[j + 1], x, y));
        }
        assert(!in_cell(cells[0], x, y));
        lemma_first_cell(rest, x, y, i - 1);
    }
}

/// No point lies in two cells of a page, so what lies under a point does not
/// depend on the order of the cells.
pub proof fn law_cells_do_not_overlap(count: nat, i: int, j: int, x: int, y: int)
    requires
        count <= MAX_ROWS,
        0 <= i < page_cells(count).len(),
        0 <= j < page_cells(count).len(),
        in_cell(page_cells(count)[i], x, y),
        in_cell(page_cells(count)[j], x, y),
    ensures
        i == j,
{
    let cells = page_cells(count);
    if i < count && j < count {
        assert(cells[i] == row_cell(i as nat) && cells[j] == row_cell(j as nat));
        if i < j {
            assert((i + 1) * ROW <= j * ROW) by (nonlinear_arith)
                requires
                    i + 1 <= j,
                    ROW == 16,
            ;
        } else if j < i {
            assert((j + 1) * ROW <= i * ROW) by (nonlinear_arith)
                requires
                    j + 1 <= i,
                    ROW == 16,
            ;
        }
    } else if i < count {
        assert(cells[i] == row_cell(i as nat));
        assert((i + 1) * ROW <= count * ROW) by (nonlinear_arith)
            requires
                i + 1 <= count,
                ROW == 16,
        ;
    } else if j < count {
        assert(cells[j] == row_cell(j as nat));
        assert((j + 1) * ROW <= count * ROW) by (nonlinear_arith)
            requires
                j + 1 <= count,
                ROW == 16,
        ;
    }
}

/// Whether a cell of a view can be used.
pub open spec fn usable(view: CandidateViewView, hit: Hit) -> bool {
    view.visible && match hit {
        Hit::Candidate(i) => i < view.items.len() && view.items[i as int].enabled,
        Hit::Previous | Hit::PreviousDecorative => view.can_page_previous,
        Hit::Next | Hit::NextDecorative => view.can_page_next,
    }
}

/// Whether a cell of a view can be used.
pub fn enabled(view: &CandidateView, hit: Hit) -> (r: bool)
    ensures
        r == usable(view@, hit),
{
    view.visible && match hit {
        Hit::Candidate(i) => i < view.items.len() && view.items[i].enabled,
        Hit::Previous | Hit::PreviousDecorative => view.can_page_previous,
        Hit::Next | Hit::NextDecorative => view.can_page_next,
    }
}

/// What a click on a cell asks for.
pub open spec fn action_of(hit: Hit) -> UiAction {
    match hit {
        Hit::Candidate(i) => UiAction::ItemInvoked(i as u32),
        Hit::Previous | Hit::PreviousDecorative => UiAction::NavigatePrevious,
        Hit::Next | Hit::NextDecorative => UiAction::NavigateNext,
    }
}

/// The state of the pointer over the window.
#[derive(Clone, Copy, Debug, PartialEq, Eq, Structural)]
pub struct Gesture {
    pub pressed: Option<Hit>,
    pub hovered: Option<Hit>,
}

impl Default for Gesture {
    fn default() -> (r: Self)
        ensures
            r == (Gesture { pressed: None, hovered: None }),
    {
        Gesture { pressed: None, hovered: None }
    }
}

/// The gesture after the button went down on a cell.
pub open spec fn after_press(g: Gesture, hit: Option<Hit>, view: CandidateViewView) -> Gesture {
    Gesture {
        pressed: match hit {
            Some(h) if usable(view, h) => Some(h),
            _ => None,
        },
        ..g
    }
}

/// The gesture after the pointer moved onto a cell.
pub open spec fn after_motion(g: Gesture, hit: Option<Hit>) -> Gesture {
    Gesture { pressed: if g.pressed == hit { g.pressed } else { None }, hovered: hit }
}

/// What the button's release over a cell asks for.
pub open spec fn released(g: Gesture, hit: Option<Hit>, view: CandidateViewView) -> Option<
    UiAction,
> {
    match g.pressed {
        Some(p) if hit == Some(p) && usable(view, p) => Some(action_of(p)),
        _ => None,
    }
}

impl Gesture {
    /// Forgets the press and where the pointer is.
    pub fn cancel(&mut self)
        ensures
            *final(self) == (Gesture { pressed: None, hovered: None }),
    {
        self.pressed = None;
        self.hovered = None;
    }

    /// The button goes down; a cell that cannot be used is not pressed.
    pub fn press(&mut self, hit: Option<Hit>, view: &CandidateView)
        ensures
            *final(self) == after_press(*old(self), hit, view@),
    {
        self.pressed = match hit {
            Some(h) => if enabled(view, h) {
                Some(h)
            } else {
                None
            },
            None => None,
        };
    }

    /// The pointer moves; leaving the pressed cell ends the press.
    pub fn motion(&mut self, hit: Option<Hit>)
        ensures
            *final(self) == after_motion(*old(self), hit),
    {
        self.hovered = hit;
        if self.pressed != hit {
            self.pressed = None;
        }
    }

    /// The button goes up. Only on the cell that was pressed, and that can still
    /// be used, does this ask for anything.
    pub fn release(&mut self, hit: Option<Hit>, view: &CandidateView) -> (r: Option<UiAction>)
        ensures
            r == released(*old(self), hit, view@),
            *final(self) == (Gesture { pressed: None, hovered: old(self).hovered }),
    {
        let pressed: Hit = match self.pressed.take() {
            Some(p) => p,
            None => return None,
        };
        if hit != Some(pressed) || !enabled(view, pressed) {
            return None;
        }
        Some(
            match pressed {
                Hit::Candidate(i) => {
                    #[verifier::truncate]
                    let index: u32 = i as u32;
                    UiAction::ItemInvoked(index)
                },
                Hit::Previous | Hit::PreviousDecorative => UiAction::NavigatePrevious,
                Hit::Next | Hit::NextDecorative => UiAction::NavigateNext,
            },
        )
    }
}

/// Once the pointer has left the cell that was pressed, releasing the button asks
/// for nothing, wherever the pointer has moved in between.
pub proof fn law_leaving_the_cell_cancels(
    g: Gesture,
    left: Option<Hit>,
    back: Option<Hit>,
    view: CandidateViewView,
)
    requires
        g.pressed is Some,
        left != g.pressed,
    ensures
        released(after_motion(after_motion(g, left), back), back, view) is None,
{
}

/// A click asks for something exactly where the button went down and up on one
/// usable cell; then it is what the cell stands for.
pub proof fn law_click_needs_one_usable_cell(
    g: Gesture,
    down: Option<Hit>,
    up: Option<Hit>,
    view: CandidateViewView,
)
    ensures
        released(after_press(g, down, view), up, view) == (if down is Some && down == up && usable(
            view,
            down->0,
        ) {
            Some(action_of(down->0))
        } else {
            None
        }),
{
}

/// How often the drawing device was lost in a row, and whether a retry is due.
#[derive(Clone, Copy, Debug, PartialEq, Eq, Structural)]
pub struct Recovery {
    /// Losses since the last success.
    pub failures: u8,
    pub waiting: bool,
}

impl Recovery {
    /// The device was lost, or drawing failed otherwise. The result is whether
    /// to try again: three losses in a row are forgiven, nothing else is.
    pub fn failed(&mut self, device_lost: bool) -> (r: bool)
        ensures
            r == (device_lost && old(self).failures < 3),
            *final(self) == (if r {
                Recovery { failures: (old(self).failures + 1) as u8, waiting: true }
            } else {
                *old(self)
            }),
    {
        if !device_lost || self.failures >= 3 {
            return false;
        }
        self.failures = self.failures + 1;
        self.waiting = true;
        true
    }

    /// Drawing worked; the count starts again.
    pub fn succeeded(&mut self)
        ensures
            *final(self) == (Recovery { failures: 0, waiting: false }),
    {
        self.failures = 0;
        self.waiting = false;
    }
}

impl Default for Recovery {
    fn default() -> (r: Self)
        ensures
            r == (Recovery { failures: 0, waiting: false }),
    {
        Recovery { failures: 0, waiting: false }
    }
}

} // verus!
