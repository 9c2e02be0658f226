//! What is drawn in the windows of the classic look, from back to front. Every length
//! is in units of 1/96 inch, and whole.
use super::logic::{enabled, Cell, Gesture, Hit, Role, PAD};
#[allow(unused_imports)]
use super::logic::{page_cells, row_cell, usable};
use super::window::{Content, Window};
#[allow(unused_imports)]
use super::window::{cells_of, size_of, WindowView};
use crate::text::{decimal_text, join3};
#[allow(unused_imports)]
use crate::text::decimal;
use crate::theme_api::CandidateView;
#[allow(unused_imports)]
use crate::theme_api::CandidateViewView;
use vstd::prelude::*;

verus! {

/// The colour behind everything, as red, green and blue bytes.
pub const BACKGROUND: u32 = 0xC0C0C0;

/// A rectangle of a window.
#[derive(Clone, Copy, Debug, PartialEq, Eq, Structural)]
pub struct Area {
    pub left: i64,
    pub top: i64,
    pub right: i64,
    pub bottom: i64,
}

/// One thing that is drawn.
#[derive(Debug, PartialEq, Eq)]
pub enum Shape {
    Fill { area: Area, rgb: u32 },
    /// A text from the left of an area.
    Label { text: String, area: Area, rgb: u32 },
    /// A small text in the middle of an area.
    Caption { text: String, width: i64, top: i64, bottom: i64, rgb: u32 },
    /// What is being entered, scrolled so that the caret can be seen.
    Preedit { text: String, cursor: u32, area: Area, rgb: u32, caret: u32 },
}

pub ghost enum ShapeView {
    Fill { area: Area, rgb: u32 },
    Label { text: Seq<char>, area: Area, rgb: u32 },
    Caption { text: Seq<char>, width: i64, top: i64, bottom: i64, rgb: u32 },
    Preedit { text: Seq<char>, cursor: u32, area: Area, rgb: u32, caret: u32 },
}

impl View for Shape {
    type V = ShapeView;

    open spec fn view(&self) -> ShapeView {
        match *self {
            Shape::Fill { area, rgb } => ShapeView::Fill { area, rgb },
            Shape::Label { text, area, rgb } => ShapeView::Label { text: text@, area, rgb },
            Shape::Caption { text, width, top, bottom, rgb } => ShapeView::Caption {
                text: text@,
                width,
                top,
                bottom,
                rgb,
            },
            Shape::Preedit { text, cursor, area, rgb, caret } => ShapeView::Preedit {
                text: text@,
                cursor,
                area,
                rgb,
                caret,
            },
        }
    }
}

/// The views of what is drawn, in order.
pub open spec fn shape_views(s: Seq<Shape>) -> Seq<ShapeView> {
    Seq::new(s.len(), |i: int| s[i]@)
}

/// A filled rectangle.
pub open spec fn filled(left: int, top: int, right: int, bottom: int, rgb: u32) -> ShapeView {
    ShapeView::Fill {
        area: Area {
            left: left as i64,
            top: top as i64,
            right: right as i64,
            bottom: bottom as i64,
        },
        rgb,
    }
}

/// One line around a window, a number of units within its edge: lit from above and
/// the left.
pub open spec fn bevel(w: int, h: int, inset: int, light: u32, dark: u32) -> Seq<ShapeView> {
    seq![
        filled(inset, inset, w - inset - 1, inset + 1, light),
        filled(inset, inset, inset + 1, h - inset - 1, light),
        filled(inset, h - inset - 1, w - inset, h - inset, dark),
        filled(w - inset - 1, inset, w - inset, h - inset, dark),
    ]
}

/// The lines around a window.
pub open spec fn frame_shapes(w: int, h: int) -> Seq<ShapeView> {
    bevel(w, h, 0, 0xC0C0C0, 0x000000) + bevel(w, h, 1, 0xFFFFFF, 0x808080) + bevel(
        w,
        h,
        3,
        0x808080,
        0xFFFFFF,
    )
}

/// How far a pressed button's sign moves.
pub open spec fn shift(pressed: bool) -> int {
    if pressed {
        1
    } else {
        0
    }
}

/// The colour of a button's sign.
pub open spec fn sign_color(usable: bool) -> u32 {
    if usable {
        0x000000
    } else {
        0x808080
    }
}

/// One row of a button's arrow.
pub open spec fn arrow_row(x: int, y: int, up: bool, usable: bool, pressed: bool, row: int) ->
    ShapeView {
    let span = if up {
        row
    } else {
        3 - row
    };
    let offset = shift(pressed);
    filled(
        x + 6 - span + offset,
        y + 5 + row + offset,
        x + 7 + span + offset,
        y + 6 + row + offset,
        sign_color(usable),
    )
}

/// A button's edges, which change sides where it is pressed, and its arrow.
pub open spec fn arrow_shapes(x: int, y: int, up: bool, usable: bool, pressed: bool) -> Seq<
    ShapeView,
> {
    let lit: u32 = if pressed {
        0x404040
    } else {
        0xFFFFFF
    };
    let shade: u32 = if pressed {
        0xFFFFFF
    } else {
        0x404040
    };
    seq![
        filled(x, y, x + 13, y + 1, lit),
        filled(x, y, x + 1, y + 13, lit),
        filled(x, y + 13, x + 14, y + 14, shade),
        filled(x + 13, y, x + 14, y + 14, shade),
    ] + Seq::new(4, |row: int| arrow_row(x, y, up, usable, pressed, row))
}

/// The line beside the arrow of a button of the left pair.
pub open spec fn bar_shape(x: int, y: int, up: bool, usable: bool, pressed: bool) -> ShapeView {
    let line = y + if up {
        3int
    } else {
        10int
    };
    let offset = shift(pressed);
    filled(
        x + 3 + offset,
        line + offset,
        x + 10 + offset,
        line + 1 + offset,
        sign_color(usable),
    )
}

/// The area of a cell.
pub open spec fn area_of(cell: Cell) -> Area {
    Area {
        left: cell.left as i64,
        top: cell.top as i64,
        right: cell.right as i64,
        bottom: cell.bottom as i64,
    }
}

/// What is drawn of a cell: a candidate with its number, or a button.
pub open spec fn cell_shapes(view: CandidateViewView, gesture: Gesture, cell: Cell) -> Seq<
    ShapeView,
> {
    let can = usable(view, cell.hit);
    let pressed = gesture.pressed == Some(cell.hit);
    let back = if pressed {
        seq![ShapeView::Fill { area: area_of(cell), rgb: 0xA0A0A0 }]
    } else {
        Seq::empty()
    };
    let x = cell.left as int;
    let y = cell.top as int;
    back + match cell.hit {
        Hit::Candidate(i) => seq![
            ShapeView::Label {
                text: decimal((i + 1) as nat) + ":"@ + view.items[i as int].primary_text,
                area: area_of(cell),
                rgb: if can {
                    0x800080
                } else {
                    0x808080
                },
            },
        ],
        Hit::Previous => arrow_shapes(x, y, true, can, pressed),
        Hit::Next => arrow_shapes(x, y, false, can, pressed),
        Hit::PreviousDecorative => arrow_shapes(x, y, true, can, pressed).push(
            bar_shape(x, y, true, can, pressed),
        ),
        Hit::NextDecorative => arrow_shapes(x, y, false, can, pressed).push(
            bar_shape(x, y, false, can, pressed),
        ),
    }
}

/// What is drawn of cells, in order.
pub open spec fn all_cells(view: CandidateViewView, gesture: Gesture, cells: Seq<Cell>) -> Seq<
    ShapeView,
>
    decreases cells.len(),
{
    if cells.len() == 0 {
        Seq::empty()
    } else {
        all_cells(view, gesture, cells.drop_last()) + cell_shapes(view, gesture, cells.last())
    }
}

/// What is drawn in a window besides its frame and its cells.
pub open spec fn inner_shapes(role: Role, view: CandidateViewView, w: int, h: int) -> Seq<
    ShapeView,
> {
    if role == Role::Candidates {
        seq![
            ShapeView::Caption {
                text: "数字"@,
                width: 32,
                top: (h - 18) as i64,
                bottom: (h - 4) as i64,
                rgb: 0x000080,
            },
        ]
    } else {
        match view.preedit {
            Some(preedit) => seq![
                ShapeView::Preedit {
                    text: preedit.text,
                    cursor: preedit.cursor,
                    area: Area {
                        left: PAD as i64,
                        top: PAD as i64,
                        right: (w - 6) as i64,
                        bottom: (h - PAD) as i64,
                    },
                    rgb: 0x000000,
                    caret: 0x3FC0C0,
                },
            ],
            None => Seq::empty(),
        }
    }
}

/// What is drawn in a window, on its background.
pub open spec fn paint_of(w: WindowView) -> Seq<ShapeView> {
    match w.content {
        Some(c) => {
            let count = c.snapshot.items.len();
            let size = size_of(w.role, count);
            frame_shapes(size.0 as int, size.1 as int) + inner_shapes(
                w.role,
                c.snapshot,
                size.0 as int,
                size.1 as int,
            ) + all_cells(c.snapshot, w.gesture, cells_of(w.role, count))
        },
        None => Seq::empty(),
    }
}

/// The largest length that is drawn.
pub const MAX_LENGTH: i64 = 0x1_0000_0000;

/// Draws one thing.
fn draw(shapes: &mut Vec<Shape>, shape: Shape)
    ensures
        shape_views(final(shapes)@) == shape_views(old(shapes)@).push(shape@),
{
    let ghost before = shape_views(shapes@);
    let ghost shown = shape@;
    shapes.push(shape);
    assert(shape_views(shapes@) =~= before.push(shown));
}

/// Draws a filled rectangle.
fn fill(shapes: &mut Vec<Shape>, left: i64, top: i64, right: i64, bottom: i64, rgb: u32)
    ensures
        shape_views(final(shapes)@) == shape_views(old(shapes)@).push(
            filled(left as int, top as int, right as int, bottom as int, rgb),
        ),
{
    draw(shapes, Shape::Fill { area: Area { left, top, right, bottom }, rgb });
}

/// Draws one line around a window.
fn draw_bevel(shapes: &mut Vec<Shape>, w: i64, h: i64, inset: i64, light: u32, dark: u32)
    requires
        0 <= w <= MAX_LENGTH,
        0 <= h <= MAX_LENGTH,
        0 <= inset <= 3,
    ensures
        shape_views(final(shapes)@) == shape_views(old(shapes)@) + bevel(
            w as int,
            h as int,
            inset as int,
            light,
            dark,
        ),
{
    let ghost before = shape_views(shapes@);
    fill(shapes, inset, inset, w - inset - 1, inset + 1, light);
    fill(shapes, inset, inset, inset + 1, h - inset - 1, light);
    fill(shapes, inset, h - inset - 1, w - inset, h - inset, dark);
    fill(shapes, w - inset - 1, inset, w - inset, h - inset, dark);
    assert(shape_views(shapes@) =~= before + bevel(
        w as int,
        h as int,
        inset as int,
        light,
        dark,
    ));
}

/// Draws the lines around a window.
fn draw_frame(shapes: &mut Vec<Shape>, w: i64, h: i64)
    requires
        0 <= w <= MAX_LENGTH,
        0 <= h <= MAX_LENGTH,
    ensures
        shape_views(final(shapes)@) == shape_views(old(shapes)@) + frame_shapes(
            w as int,
            h as int,
        ),
{
    let ghost before = shape_views(shapes@);
    draw_bevel(shapes, w, h, 0, 0xC0C0C0, 0x000000);
    draw_bevel(shapes, w, h, 1, 0xFFFFFF, 0x808080);
    draw_bevel(shapes, w, h, 3, 0x808080, 0xFFFFFF);
    assert(shape_views(shapes@) =~= before + frame_shapes(w as int, h as int));
}

/// Draws a button's edges and its arrow.
fn draw_arrow(shapes: &mut Vec<Shape>, x: i64, y: i64, up: bool, usable: bool, pressed: bool)
    requires
        0 <= x <= MAX_LENGTH,
        0 <= y <= MAX_LENGTH,
    ensures
        shape_views(final(shapes)@) == shape_views(old(shapes)@) + arrow_shapes(
            x as int,
            y as int,
            up,
            usable,
            pressed,
        ),
{
    let ghost before = shape_views(shapes@);
    let (lit, shade): (u32, u32) = if pressed {
        (0x404040, 0xFFFFFF)
    } else {
        (0xFFFFFF, 0x404040)
    };
    fill(shapes, x, y, x + 13, y + 1, lit);
    fill(shapes, x, y, x + 1, y + 13, lit);
    fill(shapes, x, y + 13, x + 14, y + 14, shade);
    fill(shapes, x + 13, y, x + 14, y + 14, shade);
    let ghost edges = shape_views(shapes@);
    let offset: i64 = if pressed {
        1
    } else {
        0
    };
    let rgb: u32 = if usable {
        0x000000
    } else {
        0x808080
    };
    let mut row: i64 = 0;
    assert(edges =~= edges + Seq::new(
        0,
        |k: int| arrow_row(x as int, y as int, up, usable, pressed, k),
    ));
    while row < 4
        invariant
            0 <= row <= 4,
            0 <= x <= MAX_LENGTH,
            0 <= y <= MAX_LENGTH,
            offset == shift(pressed),
            rgb == sign_color(usable),
            shape_views(shapes@) == edges + Seq::new(
                row as nat,
                |k: int| arrow_row(x as int, y as int, up, usable, pressed, k),
            ),
        decreases 4 - row,
    {
        let span: i64 = if up {
            row
        } else {
            3 - row
        };
        fill(
            shapes,
            x + 6 - span + offset,
            y + 5 + row + offset,
            x + 7 + span + offset,
            y + 6 + row + offset,
            rgb,
        );
        row += 1;
        assert(shape_views(shapes@) =~= edges + Seq::new(
            row as nat,
            |k: int| arrow_row(x as int, y as int, up, usable, pressed, k),
        ));
    }
    assert(shape_views(shapes@) =~= before + arrow_shapes(
        x as int,
        y as int,
        up,
        usable,
        pressed,
    ));
}

/// Draws the line beside the arrow of a button of the left pair.
fn draw_bar(shapes: &mut Vec<Shape>, x: i64, y: i64, up: bool, usable: bool, pressed: bool)
    requires
        0 <= x <= MAX_LENGTH,
        0 <= y <= MAX_LENGTH,
    ensures
        shape_views(final(shapes)@) == shape_views(old(shapes)@).push(
            bar_shape(x as int, y as int, up, usable, pressed),
        ),
{
    let line: i64 = y + if up {
        3
    } else {
        10
    };
    let offset: i64 = if pressed {
        1
    } else {
        0
    };
    fill(
        shapes,
        x + 3 + offset,
        line + offset,
        x + 10 + offset,
        line + 1 + offset,
        if usable {
            0x000000
        } else {
            0x808080
        },
    );
}

/// Draws a cell.
fn draw_cell(shapes: &mut Vec<Shape>, view: &CandidateView, gesture: &Gesture, cell: &Cell)
    requires
        cell.hit matches Hit::Candidate(i) ==> i < view.items.len(),
    ensures
        shape_views(final(shapes)@) == shape_views(old(shapes)@) + cell_shapes(
            view@,
            *gesture,
            *cell,
        ),
{
    let ghost before = shape_views(shapes@);
    let usable: bool = enabled(view, cell.hit);
    let pressed: bool = gesture.pressed == Some(cell.hit);
    let x: i64 = cell.left as i64;
    let y: i64 = cell.top as i64;
    let area: Area = Area { left: x, top: y, right: cell.right as i64, bottom: cell.bottom as i64 };
    if pressed {
        draw(shapes, Shape::Fill { area, rgb: 0xA0A0A0 });
    }
    match cell.hit {
        Hit::Candidate(i) => {
            let number: String = decimal_text(i as u64 + 1);
            let text: String = join3(&number, ":", &view.items[i].primary_text);
            assert(view@.items[i as int] == view.items[i as int]@);
            draw(
                shapes,
                Shape::Label {
                    text,
                    area,
                    rgb: if usable {
                        0x800080
                    } else {
                        0x808080
                    },
                },
            );
        },
        Hit::Previous => {
            draw_arrow(shapes, x, y, true, usable, pressed);
        },
        Hit::Next => {
            draw_arrow(shapes, x, y, false, usable, pressed);
        },
        Hit::PreviousDecorative => {
            draw_arrow(shapes, x, y, true, usable, pressed);
            draw_bar(shapes, x, y, true, usable, pressed);
        },
        Hit::NextDecorative => {
            draw_arrow(shapes, x, y, false, usable, pressed);
            draw_bar(shapes, x, y, false, usable, pressed);
        },
    }
    assert(shape_views(shapes@) =~= before + cell_shapes(view@, *gesture, *cell));
}

impl Window {
    /// Draws what stands in a window besides its frame and its cells.
    fn draw_inner(&self, shapes: &mut Vec<Shape>, content: &Content)
        ensures
            shape_views(final(shapes)@) == shape_views(old(shapes)@) + inner_shapes(
                self.role,
                content.snapshot@,
                content.layout.width as int,
                content.layout.height as int,
            ),
    {
        let ghost before = shape_views(shapes@);
        let w: i64 = content.layout.width as i64;
        let h: i64 = content.layout.height as i64;
        if self.role == Role::Candidates {
            draw(
                shapes,
                Shape::Caption {
                    text: "数字".to_owned(),
                    width: 32,
                    top: h - 18,
                    bottom: h - 4,
                    rgb: 0x000080,
                },
            );
        } else {
            match &content.snapshot.preedit {
                Some(preedit) => {
                    draw(
                        shapes,
                        Shape::Preedit {
                            text: preedit.text.clone(),
                            cursor: preedit.cursor,
                            area: Area {
                                left: PAD as i64,
                                top: PAD as i64,
                                right: w - 6,
                                bottom: h - PAD as i64,
                            },
                            rgb: 0x000000,
                            caret: 0x3FC0C0,
                        },
                    );
                },
                None => {},
            }
        }
        assert(shape_views(shapes@) =~= before + inner_shapes(
            self.role,
            content.snapshot@,
            content.layout.width as int,
            content.layout.height as int,
        ));
    }

    /// What is drawn in the window, on its background.
    pub fn paint(&self) -> (r: Vec<Shape>)
        requires
            self.wf(),
        ensures
            shape_views(r@) == paint_of(self@),
    {
        let mut shapes: Vec<Shape> = Vec::new();
        assert(shape_views(shapes@) =~= Seq::<ShapeView>::empty());
        let content: &Content = match &self.content {
            Some(content) => content,
            None => {
                return shapes;
            },
        };
        draw_frame(&mut shapes, content.layout.width as i64, content.layout.height as i64);
        self.draw_inner(&mut shapes, content);
        let ghost before = shape_views(shapes@);
        let ghost cells = content.layout.cells@;
        let mut i: usize = 0;
        assert(before =~= before + all_cells(content.snapshot@, self.gesture, cells.take(0)));
        while i < content.layout.cells.len()
            invariant
                i <= content.layout.cells.len(),
                cells == content.layout.cells@,
                self.wf(),
                self.content == Some(*content),
                shape_views(shapes@) == before + all_cells(
                    content.snapshot@,
                    self.gesture,
                    cells.take(i as int),
                ),
            decreases content.layout.cells.len() - i,
        {
            proof {
                let count = content.snapshot.items@.len();
                assert(cells == page_cells(count));
                if i < count {
                    assert(cells[i as int] == row_cell(i as nat));
                }
                let next = cells.take(i + 1);
                assert(next.drop_last() =~= cells.take(i as int));
                assert(next.last() == cells[i as int]);
            }
            draw_cell(&mut shapes, &content.snapshot, &self.gesture, &content.layout.cells[i]);
            i += 1;
            assert(shape_views(shapes@) =~= before + all_cells(
                content.snapshot@,
                self.gesture,
                cells.take(i as int),
            ));
        }
        assert(cells.take(cells.len() as int) =~= cells);
        assert(shape_views(shapes@) =~= paint_of(self@));
        shapes
    }
}

} // verus!
