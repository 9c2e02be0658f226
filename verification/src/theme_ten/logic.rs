//! What a click on the candidate strip does, and the strip's colours.
use crate::message::{RenderSnapshot, RendererEvent, RendererEventAction};
#[allow(unused_imports)]
use crate::message::RenderSnapshotView;
use vstd::prelude::*;

verus! {

/// Height of the strip, in units of 1/96 inch.
pub const HEIGHT: u32 = 46;

/// How often the drawing device was lost in a row, and whether a retry is due.
#[derive(Clone, Copy, Debug, PartialEq, Eq, Structural)]
pub struct Recovery {
    /// Losses since the last success.
    pub failures: u8,
    pub waiting: bool,
}

impl Default for Recovery {
    fn default() -> (r: Self)
        ensures
            r == (Recovery { failures: 0, waiting: false }),
    {
        Recovery { failures: 0, waiting: false }
    }
}

impl Recovery {
    /// The device was lost, or drawing failed otherwise. The result is whether
    /// to try again: three losses in a row are forgiven, nothing else is.
    pub fn failed(&mut self, device_lost: bool) -> (r: bool)
        ensures
            r == (device_lost && old(self).failures < 3),
            *final(self) == (if r {
                Recovery { failures: (old(self).failures + 1) as u8, waiting: true }
            } else {
                *old(self)
            }),
    {
        if !device_lost || self.failures >= 3 {
            return false;
        }
        self.failures = self.failures + 1;
        self.waiting = true;
        true
    }

    /// Drawing worked; the count starts again.
    pub fn succeeded(&mut self)
        ensures
            *final(self) == (Recovery { failures: 0, waiting: false }),
    {
        self.failures = 0;
        self.waiting = false;
    }
}

/// What lies under the pointer.
#[derive(Clone, Copy, Debug, PartialEq, Eq, Structural)]
pub enum Hit {
    Candidate(usize),
    Previous,
    Next,
    Emoji,
}

/// Number of parts that a unit of 1/96 inch has. The strip's lengths are whole
/// numbers of parts.
pub const PARTS: u64 = 34;

/// Width of a candidate's number.
pub const NUMBER: u64 = 920;

/// Space after a candidate.
pub const PAD: u64 = 414;

/// Space between a candidate and its comment, and after its number.
pub const GAP: u64 = 184;

/// Width of a line.
pub const LINE: u64 = 23;

/// The least width of a candidate's cell.
pub const MIN_CELL: u64 = 2139;

/// Width of a paging button.
pub const PAGE_BUTTON: u64 = 1127;

/// Width of the emoji button.
pub const EMOJI_BUTTON: u64 = 1702;

/// Number of candidates that a strip may hold so that its width is a number.
pub const MAX_CELLS: usize = 0x0100_0000;

/// One cell of the strip: from its left edge up to, and not including, its right one,
/// in parts.
#[derive(Clone, Copy, Debug, PartialEq, Eq, Structural)]
pub struct Cell {
    pub hit: Hit,
    pub left: u64,
    pub right: u64,
}

/// The width of a candidate's cell for a text that is a number of units wide.
pub open spec fn cell_width(text: u32) -> nat {
    let natural = (NUMBER + PARTS * text + PAD) as nat;
    if natural < MIN_CELL {
        MIN_CELL as nat
    } else {
        natural
    }
}

/// Where a cell begins: after the cells of all candidates before it.
pub open spec fn left_of(widths: Seq<u32>, i: nat) -> nat
    decreases i,
{
    if i == 0 {
        0
    } else {
        left_of(widths, (i - 1) as nat) + cell_width(widths[i - 1])
    }
}

/// The cell of a candidate.
pub open spec fn candidate_cell(widths: Seq<u32>, i: int) -> Cell {
    Cell {
        hit: Hit::Candidate(i as usize),
        left: left_of(widths, i as nat) as u64,
        right: left_of(widths, (i + 1) as nat) as u64,
    }
}

/// The cells of a strip from left to right: the candidates, then the buttons.
pub open spec fn strip_cells(widths: Seq<u32>) -> Seq<Cell> {
    let end = left_of(widths, widths.len());
    Seq::new(widths.len(), |i: int| candidate_cell(widths, i)) + seq![
        Cell { hit: Hit::Previous, left: end as u64, right: (end + PAGE_BUTTON) as u64 },
        Cell {
            hit: Hit::Next,
            left: (end + PAGE_BUTTON) as u64,
            right: (end + 2 * PAGE_BUTTON) as u64,
        },
        Cell {
            hit: Hit::Emoji,
            left: (end + 2 * PAGE_BUTTON) as u64,
            right: (end + 2 * PAGE_BUTTON + EMOJI_BUTTON) as u64,
        },
    ]
}

/// The width of a strip, in parts.
pub open spec fn strip_width(widths: Seq<u32>) -> nat {
    left_of(widths, widths.len()) + (2 * PAGE_BUTTON + EMOJI_BUTTON) as nat
}

/// What lies under a point of the strip, in parts.
pub open spec fn hit_of(cells: Seq<Cell>, x: int, y: int) -> Option<Hit>
    decreases cells.len(),
{
    if !(0 <= y < HEIGHT * PARTS) || cells.len() == 0 {
        None
    } else if cells[0].left <= x < cells[0].right {
        Some(cells[0].hit)
    } else {
        hit_of(cells.drop_first(), x, y)
    }
}

/// The beginning of a cell is no further than all cells before it can reach.
proof fn lemma_left_bound(widths: Seq<u32>, i: nat)
    requires
        i <= widths.len(),
    ensures
        left_of(widths, i) <= i * 0x22_0000_0600,
    decreases i,
{
    if i > 0 {
        lemma_left_bound(widths, (i - 1) as nat);
        assert((i - 1) * 0x22_0000_0600 + 0x22_0000_0600 == i * 0x22_0000_0600)
            by (nonlinear_arith);
    }
}

/// The width of a strip is a number that can be written with a sign.
pub proof fn lemma_width_bound(widths: Seq<u32>)
    requires
        widths.len() <= MAX_CELLS,
    ensures
        left_of(widths, widths.len()) <= 0x3000_0000_0000_0000,
        strip_width(widths) <= 0x4000_0000_0000_0000,
{
    lemma_left_bound(widths, widths.len());
    let n = widths.len();
    assert(n * 0x22_0000_0600 <= 0x0100_0000 * 0x22_0000_0600) by (nonlinear_arith)
        requires
            n <= 0x0100_0000,
    ;
}

/// The edges of a strip's cells stand in order, and are no further than its width.
pub proof fn lemma_cell_bounds(widths: Seq<u32>, i: int)
    requires
        widths.len() <= MAX_CELLS,
        0 <= i < strip_cells(widths).len(),
    ensures
        strip_cells(widths)[i].left <= strip_cells(widths)[i].right <= 0x4000_0000_0000_0000,
{
    lemma_width_bound(widths);
    if i < widths.len() {
        assert(strip_cells(widths)[i] == candidate_cell(widths, i));
        assert(left_of(widths, (i + 1) as nat) == left_of(widths, i as nat) + cell_width(
            widths[i],
        ));
        if i + 1 < widths.len() {
            lemma_left_grows(widths, (i + 1) as nat, widths.len());
        }
    }
}

/// A cell that begins further to the right does so for the cells before it.
proof fn lemma_left_grows(widths: Seq<u32>, i: nat, j: nat)
    requires
        i < j <= widths.len(),
    ensures
        left_of(widths, i) + cell_width(widths[i as int]) <= left_of(widths, j),
        left_of(widths, i) < left_of(widths, j),
    decreases j,
{
    if i < j - 1 {
        lemma_left_grows(widths, i, (j - 1) as nat);
    }
}

/// The cells of a strip, and its width in parts.
pub struct Layout {
    pub cells: Vec<Cell>,
    pub width: u64,
}

impl Layout {
    /// The layout of candidates whose texts, with their comments, are so many units
    /// wide, rounded upwards.
    pub fn new(widths: &Vec<u32>) -> (r: Self)
        requires
            widths@.len() <= MAX_CELLS,
        ensures
            r.cells@ == strip_cells(widths@),
            r.width == strip_width(widths@),
    {
        let ghost all = widths@;
        let mut cells: Vec<Cell> = Vec::new();
        let mut left: u64 = 0;
        let mut i: usize = 0;
        while i < widths.len()
            invariant
                i <= widths.len() <= MAX_CELLS,
                all == widths@,
                left == left_of(all, i as nat),
                cells@ == Seq::new(i as nat, |j: int| candidate_cell(all, j)),
            decreases widths.len() - i,
        {
            proof {
                lemma_left_bound(all, (i + 1) as nat);
                assert(left_of(all, (i + 1) as nat) == left_of(all, i as nat) + cell_width(
                    all[i as int],
                ));
            }
            let natural: u64 = NUMBER + PARTS * (widths[i] as u64) + PAD;
            let width: u64 = if natural < MIN_CELL {
                MIN_CELL
            } else {
                natural
            };
            cells.push(Cell { hit: Hit::Candidate(i), left, right: left + width });
            left = left + width;
            i += 1;
            assert(cells@ =~= Seq::new(i as nat, |j: int| candidate_cell(all, j)));
        }
        proof {
            lemma_left_bound(all, all.len());
        }
        let next: u64 = left + PAGE_BUTTON;
        let emoji: u64 = next + PAGE_BUTTON;
        let end: u64 = emoji + EMOJI_BUTTON;
        cells.push(Cell { hit: Hit::Previous, left, right: next });
        cells.push(Cell { hit: Hit::Next, left: next, right: emoji });
        cells.push(Cell { hit: Hit::Emoji, left: emoji, right: end });
        assert(cells@ =~= strip_cells(all));
        Layout { cells, width: end }
    }

    /// What lies under a point, given in parts.
    pub fn hit(&self, x: i64, y: i64) -> (r: Option<Hit>)
        ensures
            r == hit_of(self.cells@, x as int, y as int),
    {
        if y < 0 || y >= (HEIGHT as u64 * PARTS) as i64 {
            return None;
        }
        let mut i: usize = 0;
        while i < self.cells.len()
            invariant
                i <= self.cells.len(),
                0 <= y < HEIGHT * PARTS,
                forall|j: int|
                    0 <= j < i ==> !((#[trigger] self.cells@[j]).left <= x < self.cells@[j].right),
            decreases self.cells.len() - i,
        {
            let cell: Cell = self.cells[i];
            if x >= 0 && x as u64 >= cell.left && (x as u64) < cell.right {
                proof {
                    lemma_first_cell(self.cells@, x as int, y as int, i as int);
                }
                return Some(cell.hit);
            }
            i += 1;
        }
        proof {
            lemma_first_cell(self.cells@, x as int, y as int, self.cells@.len() as int);
        }
        None
    }
}

/// Where no cell before a place holds a point, and the one at that place does, that
/// one lies under it; where no cell holds it, none does.
proof fn lemma_first_cell(cells: Seq<Cell>, x: int, y: int, i: int)
    requires
        0 <= y < HEIGHT * PARTS,
        0 <= i <= cells.len(),
        forall|j: int| 0 <= j < i ==> !((#[trigger] cells[j]).left <= x < cells[j].right),
        i < cells.len() ==> cells[i].left <= x < cells[i].right,
    ensures
        hit_of(cells, x, y) == (if i < cells.len() {
            Some(cells[i].hit)
        } else {
            None
        }),
    decreases cells.len(),
{
    if i > 0 {
        let rest = cells.drop_first();
        assert forall|j: int| 0 <= j < i - 1 implies !((#[trigger] rest[j]).left <= x
            < rest[j].right) by {
            assert(!(cells[j + 1].left <= x < cells[j + 1].right));
        }
        assert(!(cells[0].left <= x < cells[0].right));
        lemma_first_cell(rest, x, y, i - 1);
    }
}

/// The cell of a strip that holds a place, which is one of its first.
proof fn lemma_cell_at(widths: Seq<u32>, n: nat, x: int) -> (i: int)
    requires
        n <= widths.len(),
        0 <= x < left_of(widths, n),
    ensures
        0 <= i < n,
        left_of(widths, i as nat) <= x < left_of(widths, (i + 1) as nat),
    decreases n,
{
    if left_of(widths, (n - 1) as nat) <= x {
        n - 1
    } else {
        lemma_cell_at(widths, (n - 1) as nat, x)
    }
}

/// The cells of a strip leave no gap and do not overlap: every place of the strip lies
/// in exactly one cell, and none beside the strip lies in any.
pub proof fn law_strip_has_no_gaps(widths: Seq<u32>, x: int, y: int)
    requires
        widths.len() <= MAX_CELLS,
        0 <= y < HEIGHT * PARTS,
    ensures
        hit_of(strip_cells(widths), x, y) is Some <==> 0 <= x < strip_width(widths),
        forall|i: int, j: int|
            0 <= i < j < strip_cells(widths).len() ==> (#[trigger] strip_cells(widths)[i]).right
                <= (#[trigger] strip_cells(widths)[j]).left,
{
    let cells = strip_cells(widths);
    let n = widths.len();
    let end = left_of(widths, n);
    lemma_left_bound(widths, n);
    assert forall|k: int| 0 <= k < n implies #[trigger] cells[k] == candidate_cell(widths, k)
        && cells[k].left == left_of(widths, k as nat) && cells[k].right == left_of(
        widths,
        (k + 1) as nat,
    ) && cells[k].right <= end by {
        lemma_left_bound(widths, k as nat);
        lemma_left_bound(widths, (k + 1) as nat);
        assert(0 <= k * 0x22_0000_0600 <= (k + 1) * 0x22_0000_0600 <= n * 0x22_0000_0600)
            by (nonlinear_arith)
            requires
                0 <= k < n,
        ;
        if k + 1 < n {
            lemma_left_grows(widths, (k + 1) as nat, n);
        }
    }
    assert forall|i: int, j: int| 0 <= i < j < cells.len() implies (#[trigger] cells[i]).right <= (
    #[trigger] cells[j]).left by {
        if j < n && i + 1 < j {
            lemma_left_grows(widths, (i + 1) as nat, j as nat);
        }
    }
    if 0 <= x < strip_width(widths) {
        let i = if x < end {
            lemma_cell_at(widths, n, x)
        } else if x < end + PAGE_BUTTON {
            n as int
        } else if x < end + 2 * PAGE_BUTTON {
            n as int + 1
        } else {
            n as int + 2
        };
        assert(cells[i].left <= x < cells[i].right);
        assert forall|j: int| 0 <= j < i implies !((#[trigger] cells[j]).left <= x
            < cells[j].right) by {
            assert(cells[j].right <= cells[i].left);
        }
        lemma_first_cell(cells, x, y, i);
    } else {
        assert forall|j: int| 0 <= j < cells.len() implies !((#[trigger] cells[j]).left <= x
            < cells[j].right) by {
            if j < n {
                assert(cells[j].right <= end);
            }
        }
        lemma_first_cell(cells, x, y, cells.len() as int);
    }
}

/// A wider text never makes a cell narrower, and a text that is wide enough fits.
pub proof fn law_cells_grow_with_their_texts(a: u32, b: u32)
    requires
        a <= b,
    ensures
        cell_width(a) <= cell_width(b),
        cell_width(b) >= NUMBER + PARTS * b + PAD,
{
}

/// Whether a cell of a frame can be used.
pub open spec fn usable(s: RenderSnapshotView, hit: Hit) -> bool {
    s.visible && match hit {
        Hit::Candidate(i) => i < s.items.len() && s.items[i as int].enabled,
        Hit::Previous => s.can_page_previous,
        Hit::Next => s.can_page_next,
        Hit::Emoji => true,
    }
}

/// Whether a cell of a frame can be used.
pub fn enabled(snapshot: &RenderSnapshot, hit: Hit) -> (r: bool)
    ensures
        r == usable(snapshot@, hit),
{
    snapshot.visible && match hit {
        Hit::Candidate(i) => i < snapshot.items.len() && snapshot.items[i].enabled,
        Hit::Previous => snapshot.can_page_previous,
        Hit::Next => snapshot.can_page_next,
        Hit::Emoji => true,
    }
}

/// The protocol's action and item for a cell.
pub open spec fn action_of(hit: Hit) -> (RendererEventAction, u32) {
    match hit {
        Hit::Candidate(i) => (RendererEventAction::ItemInvoked, i as u32),
        Hit::Previous => (RendererEventAction::NavigatePrevious, 0),
        Hit::Next => (RendererEventAction::NavigateNext, 0),
        Hit::Emoji => (RendererEventAction::OpenEmojiPanel, 0),
    }
}

/// The event of a click on a cell, with the identity of the frame.
pub open spec fn event_of(s: RenderSnapshotView, hit: Hit) -> RendererEvent {
    RendererEvent {
        session_id: s.session_id,
        token: s.token,
        revision: s.revision,
        action: action_of(hit).0,
        item_index: action_of(hit).1,
    }
}

/// The state of the pointer over the strip.
#[derive(Clone, Copy, Debug, PartialEq, Eq, Structural)]
pub struct Gesture {
    pub pressed: Option<Hit>,
    pub hovered: Option<Hit>,
}

impl Default for Gesture {
    fn default() -> (r: Self)
        ensures
            r == (Gesture { pressed: None, hovered: None }),
    {
        Gesture { pressed: None, hovered: None }
    }
}

/// The gesture after the button went down on a cell.
pub open spec fn after_press(g: Gesture, hit: Option<Hit>, s: RenderSnapshotView) -> Gesture {
    Gesture {
        pressed: match hit {
            Some(h) if usable(s, h) => Some(h),
            _ => None,
        },
        ..g
    }
}

/// The gesture after the pointer moved onto a cell.
pub open spec fn after_motion(g: Gesture, hit: Option<Hit>) -> Gesture {
    Gesture { pressed: if g.pressed == hit { g.pressed } else { None }, hovered: hit }
}

/// The event of the button's release over a cell.
pub open spec fn released(g: Gesture, hit: Option<Hit>, s: RenderSnapshotView) -> Option<
    RendererEvent,
> {
    match g.pressed {
        Some(p) if hit == Some(p) && usable(s, p) => Some(event_of(s, p)),
        _ => None,
    }
}

impl Gesture {
    /// Forgets the press and where the pointer is.
    pub fn cancel(&mut self)
        ensures
            *final(self) == (Gesture { pressed: None, hovered: None }),
    {
        self.pressed = None;
        self.hovered = None;
    }

    /// The button goes down; a cell that cannot be used is not pressed.
    pub fn press(&mut self, hit: Option<Hit>, snapshot: &RenderSnapshot)
        ensures
            *final(self) == after_press(*old(self), hit, snapshot@),
    {
        self.pressed = match hit {
            Some(h) => if enabled(snapshot, h) {
                Some(h)
            } else {
                None
            },
            None => None,
        };
    }

    /// The pointer moves; once it leaves the pressed cell, returning to it does
    /// not take the press up again.
    pub fn motion(&mut self, hit: Option<Hit>)
        ensures
            *final(self) == after_motion(*old(self), hit),
    {
        self.hovered = hit;
        if self.pressed != hit {
            self.pressed = None;
        }
    }

    /// The button goes up. Only on the cell that was pressed, and that can still
    /// be used, does this make an event.
    pub fn release(&mut self, hit: Option<Hit>, snapshot: &RenderSnapshot) -> (r: Option<
        RendererEvent,
    >)
        ensures
            r == released(*old(self), hit, snapshot@),
            *final(self) == (Gesture { pressed: None, hovered: old(self).hovered }),
    {
        let pressed: Hit = match self.pressed.take() {
            Some(p) => p,
            None => return None,
        };
        if hit != Some(pressed) || !enabled(snapshot, pressed) {
            return None;
        }
        let (action, item_index): (RendererEventAction, u32) = match pressed {
            Hit::Candidate(i) => {
                #[verifier::truncate]
                let index: u32 = i as u32;
                (RendererEventAction::ItemInvoked, index)
            },
            Hit::Previous => (RendererEventAction::NavigatePrevious, 0),
            Hit::Next => (RendererEventAction::NavigateNext, 0),
            Hit::Emoji => (RendererEventAction::OpenEmojiPanel, 0),
        };
        Some(
            RendererEvent {
                session_id: snapshot.session_id,
                token: snapshot.token,
                revision: snapshot.revision,
                action,
                item_index,
            },
        )
    }
}

/// Once the pointer has left the cell that was pressed, or the press was
/// cancelled, releasing the button makes no event.
pub proof fn law_leaving_the_cell_cancels(
    g: Gesture,
    left: Option<Hit>,
    back: Option<Hit>,
    s: RenderSnapshotView,
)
    requires
        g.pressed is Some,
        left != g.pressed,
    ensures
        released(after_motion(after_motion(g, left), back), back, s) is None,
        released(Gesture { pressed: None, hovered: g.hovered }, back, s) is None,
{
}

/// A click makes an event exactly where the button went down on a cell of one
/// frame and up on the same cell, usable in the frame that is then shown; the
/// event has the identity of that frame.
pub proof fn law_click_needs_one_usable_cell(
    g: Gesture,
    down: Option<Hit>,
    up: Option<Hit>,
    before: RenderSnapshotView,
    after: RenderSnapshotView,
)
    ensures
        released(after_press(g, down, before), up, after) == (if down is Some && down == up
            && usable(before, down->0) && usable(after, down->0) {
            Some(event_of(after, down->0))
        } else {
            None
        }),
{
}

/// The strip's colours, as red, green and blue bytes.
#[derive(Clone, Copy, Debug, PartialEq, Eq, Structural)]
pub struct Palette {
    pub background: u32,
    pub border: u32,
    pub active: u32,
    pub hover: u32,
    pub text: u32,
    pub secondary: u32,
    pub active_number: u32,
    pub disabled: u32,
}

/// The dark colours.
pub open spec fn dark_palette() -> Palette {
    Palette {
        background: 0x202020,
        border: 0x484848,
        active: 0x164E70,
        hover: 0x383838,
        text: 0xF5F5F5,
        secondary: 0xBEBEBE,
        active_number: 0xD6EDFF,
        disabled: 0x777777,
    }
}

/// The light colours.
pub open spec fn light_palette() -> Palette {
    Palette {
        background: 0xF8F8F8,
        border: 0xD9D9D9,
        active: 0xA6D8FF,
        hover: 0xDCDCDC,
        text: 0x111111,
        secondary: 0x555555,
        active_number: 0x3E4A52,
        disabled: 0xA5A5A5,
    }
}

impl Palette {
    /// The colours for a dark or a light system.
    pub fn new(dark: bool) -> (r: Self)
        ensures
            r == (if dark { dark_palette() } else { light_palette() }),
    {
        if dark {
            Palette {
                background: 0x202020,
                border: 0x484848,
                active: 0x164E70,
                hover: 0x383838,
                text: 0xF5F5F5,
                secondary: 0xBEBEBE,
                active_number: 0xD6EDFF,
                disabled: 0x777777,
            }
        } else {
            Palette {
                background: 0xF8F8F8,
                border: 0xD9D9D9,
                active: 0xA6D8FF,
                hover: 0xDCDCDC,
                text: 0x111111,
                secondary: 0x555555,
                active_number: 0x3E4A52,
                disabled: 0xA5A5A5,
            }
        }
    }
}

} // verus!
