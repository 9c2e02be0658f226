//! What is drawn of the candidate strip, from back to front. Every length is a whole
//! number of parts.
use super::logic::{
    enabled, Cell, Gesture, Hit, Palette, EMOJI_BUTTON, GAP, LINE, NUMBER, PAD, PAGE_BUTTON,
};
#[allow(unused_imports)]
use super::logic::{candidate_cell, strip_cells, strip_width, usable};
use super::window::{Content, Window};
#[allow(unused_imports)]
use super::window::WindowView;
use crate::message::RenderSnapshot;
#[allow(unused_imports)]
use crate::message::RenderSnapshotView;
use crate::text::decimal_text;
#[allow(unused_imports)]
use crate::text::decimal;
use vstd::prelude::*;

verus! {

/// The strip's height, in parts.
pub const FULL_HEIGHT: i64 = 1564;

/// How far an icon stands above the middle, in parts.
pub const ICON_LIFT: i64 = 46;

/// A rectangle of the strip, in parts.
#[derive(Clone, Copy, Debug, PartialEq, Eq, Structural)]
pub struct Area {
    pub left: i64,
    pub top: i64,
    pub right: i64,
    pub bottom: i64,
}

/// The font of a text.
#[derive(Clone, Copy, Debug, PartialEq, Eq, Structural)]
pub enum Font {
    Number,
    Text,
    Icon,
}

/// One thing that is drawn, in a colour of red, green and blue bytes.
#[derive(Debug, PartialEq, Eq)]
pub enum Shape {
    Fill { area: Area, rgb: u32 },
    Text { font: Font, text: String, area: Area, rgb: u32 },
    /// A comment; it begins by the width of the candidate's text further to the right.
    Comment { item: usize, text: String, area: Area, rgb: u32 },
}

pub ghost enum ShapeView {
    Fill { area: Area, rgb: u32 },
    Text { font: Font, text: Seq<char>, area: Area, rgb: u32 },
    Comment { item: usize, text: Seq<char>, area: Area, rgb: u32 },
}

impl View for Shape {
    type V = ShapeView;

    open spec fn view(&self) -> ShapeView {
        match *self {
            Shape::Fill { area, rgb } => ShapeView::Fill { area, rgb },
            Shape::Text { font, text, area, rgb } => ShapeView::Text {
                font,
                text: text@,
                area,
                rgb,
            },
            Shape::Comment { item, text, area, rgb } => ShapeView::Comment {
                item,
                text: text@,
                area,
                rgb,
            },
        }
    }
}

/// The views of what is drawn, in order.
pub open spec fn shape_views(s: Seq<Shape>) -> Seq<ShapeView> {
    Seq::new(s.len(), |i: int| s[i]@)
}

/// A rectangle as high as the strip.
pub open spec fn tall(left: int, right: int) -> Area {
    Area { left: left as i64, top: 0, right: right as i64, bottom: FULL_HEIGHT }
}

/// Whether a cell is that of the selected candidate.
pub open spec fn is_selected(s: RenderSnapshotView, hit: Hit) -> bool {
    hit matches Hit::Candidate(i) && i == s.selected_index
}

/// What stands behind a cell: the selected candidate is marked, and so is what the
/// pointer is over, where it can be used.
pub open spec fn back_shapes(s: RenderSnapshotView, g: Gesture, p: Palette, cell: Cell) -> Seq<
    ShapeView,
> {
    let area = tall(cell.left as int, cell.right as int);
    if is_selected(s, cell.hit) {
        seq![ShapeView::Fill { area, rgb: p.active }]
    } else if usable(s, cell.hit) && g.hovered == Some(cell.hit) {
        seq![ShapeView::Fill { area, rgb: p.hover }]
    } else {
        Seq::empty()
    }
}

/// A candidate: its number, its text, and its comment where it has one.
pub open spec fn candidate_shapes(s: RenderSnapshotView, p: Palette, cell: Cell, i: usize) -> Seq<
    ShapeView,
> {
    let item = s.items[i as int];
    let can = usable(s, cell.hit);
    let left = cell.left as int;
    let right = cell.right as int;
    let texts = seq![
        ShapeView::Text {
            font: Font::Number,
            text: decimal((i + 1) as nat),
            area: tall(left, left + NUMBER - GAP),
            rgb: if !can {
                p.disabled
            } else if is_selected(s, cell.hit) {
                p.active_number
            } else {
                p.secondary
            },
        },
        ShapeView::Text {
            font: Font::Text,
            text: item.primary_text,
            area: tall(left + NUMBER, right - PAD),
            rgb: if can {
                p.text
            } else {
                p.disabled
            },
        },
    ];
    if item.secondary_text.len() == 0 {
        texts
    } else {
        texts.push(
            ShapeView::Comment {
                item: i,
                text: item.secondary_text,
                area: tall(left + NUMBER + GAP, right - PAD),
                rgb: if can {
                    p.secondary
                } else {
                    p.disabled
                },
            },
        )
    }
}

/// The icon of a button.
pub open spec fn icon_of(hit: Hit) -> Seq<char> {
    match hit {
        Hit::Previous => "\u{E76B}"@,
        Hit::Next => "\u{E76C}"@,
        _ => "\u{E76E}"@,
    }
}

/// What is drawn of a cell.
pub open spec fn cell_shapes(s: RenderSnapshotView, g: Gesture, p: Palette, cell: Cell) -> Seq<
    ShapeView,
> {
    back_shapes(s, g, p, cell) + match cell.hit {
        Hit::Candidate(i) => candidate_shapes(s, p, cell, i),
        hit => seq![
            ShapeView::Text {
                font: Font::Icon,
                text: icon_of(hit),
                area: Area {
                    left: cell.left as i64,
                    top: (0 - ICON_LIFT) as i64,
                    right: cell.right as i64,
                    bottom: (FULL_HEIGHT - ICON_LIFT) as i64,
                },
                rgb: if usable(s, hit) {
                    p.text
                } else {
                    p.disabled
                },
            },
        ],
    }
}

/// What is drawn of cells, in order.
pub open spec fn all_cells(s: RenderSnapshotView, g: Gesture, p: Palette, cells: Seq<Cell>) -> Seq<
    ShapeView,
>
    decreases cells.len(),
{
    if cells.len() == 0 {
        Seq::empty()
    } else {
        all_cells(s, g, p, cells.drop_last()) + cell_shapes(s, g, p, cells.last())
    }
}

/// The lines before the buttons for paging and for emoji, and those around the strip.
pub open spec fn line_shapes(width: int, rgb: u32) -> Seq<ShapeView> {
    let emoji = width - EMOJI_BUTTON;
    let paging = emoji - 2 * PAGE_BUTTON;
    seq![
        ShapeView::Fill { area: tall(paging, paging + LINE), rgb },
        ShapeView::Fill { area: tall(emoji, emoji + LINE), rgb },
        ShapeView::Fill {
            area: Area { left: 0, top: 0, right: width as i64, bottom: LINE as i64 },
            rgb,
        },
        ShapeView::Fill {
            area: Area {
                left: 0,
                top: (FULL_HEIGHT - LINE) as i64,
                right: width as i64,
                bottom: FULL_HEIGHT,
            },
            rgb,
        },
        ShapeView::Fill { area: tall(0, LINE as int), rgb },
        ShapeView::Fill { area: tall(width - LINE, width), rgb },
    ]
}

/// What is drawn of the strip, on its background.
pub open spec fn paint_of(w: WindowView) -> Seq<ShapeView> {
    match w.content {
        Some(c) => all_cells(c.snapshot, w.gesture, w.palette, strip_cells(c.widths))
            + line_shapes(strip_width(c.widths) as int, w.palette.border),
        None => Seq::empty(),
    }
}

/// Draws one thing.
fn draw(shapes: &mut Vec<Shape>, shape: Shape)
    ensures
        shape_views(final(shapes)@) == shape_views(old(shapes)@).push(shape@),
{
    let ghost before = shape_views(shapes@);
    let ghost shown = shape@;
    shapes.push(shape);
    assert(shape_views(shapes@) =~= before.push(shown));
}

/// A rectangle as high as the strip.
fn tall_area(left: i64, right: i64) -> (r: Area)
    ensures
        r == tall(left as int, right as int),
{
    Area { left, top: 0, right, bottom: FULL_HEIGHT }
}

/// Draws a cell.
fn draw_cell(
    shapes: &mut Vec<Shape>,
    snapshot: &RenderSnapshot,
    gesture: &Gesture,
    palette: &Palette,
    cell: &Cell,
)
    requires
        cell.hit matches Hit::Candidate(i) ==> i < snapshot.items.len(),
        cell.left <= cell.right <= 0x4000_0000_0000_0000,
    ensures
        shape_views(final(shapes)@) == shape_views(old(shapes)@) + cell_shapes(
            snapshot@,
            *gesture,
            *palette,
            *cell,
        ),
{
    let ghost before = shape_views(shapes@);
    let left: i64 = cell.left as i64;
    let right: i64 = cell.right as i64;
    let can: bool = enabled(snapshot, cell.hit);
    let selected: bool = match cell.hit {
        Hit::Candidate(i) => i == snapshot.selected_index as usize,
        _ => false,
    };
    if selected {
        draw(shapes, Shape::Fill { area: tall_area(left, right), rgb: palette.active });
    } else if can && gesture.hovered == Some(cell.hit) {
        draw(shapes, Shape::Fill { area: tall_area(left, right), rgb: palette.hover });
    }
    match cell.hit {
        Hit::Candidate(i) => {
            assert(snapshot@.items[i as int] == snapshot.items[i as int]@);
            draw(
                shapes,
                Shape::Text {
                    font: Font::Number,
                    text: decimal_text(i as u64 + 1),
                    area: tall_area(left, left + NUMBER as i64 - GAP as i64),
                    rgb: if !can {
                        palette.disabled
                    } else if selected {
                        palette.active_number
                    } else {
                        palette.secondary
                    },
                },
            );
            draw(
                shapes,
                Shape::Text {
                    font: Font::Text,
                    text: snapshot.items[i].primary_text.clone(),
                    area: tall_area(left + NUMBER as i64, right - PAD as i64),
                    rgb: if can {
                        palette.text
                    } else {
                        palette.disabled
                    },
                },
            );
            if !snapshot.items[i].secondary_text.as_str().is_empty() {
                draw(
                    shapes,
                    Shape::Comment {
                        item: i,
                        text: snapshot.items[i].secondary_text.clone(),
                        area: tall_area(left + NUMBER as i64 + GAP as i64, right - PAD as i64),
                        rgb: if can {
                            palette.secondary
                        } else {
                            palette.disabled
                        },
                    },
                );
            }
        },
        hit => {
            let icon: &str = match hit {
                Hit::Previous => "\u{E76B}",
                Hit::Next => "\u{E76C}",
                _ => "\u{E76E}",
            };
            draw(
                shapes,
                Shape::Text {
                    font: Font::Icon,
                    text: icon.to_owned(),
                    area: Area {
                        left,
                        top: 0 - ICON_LIFT,
                        right,
                        bottom: FULL_HEIGHT - ICON_LIFT,
                    },
                    rgb: if can {
                        palette.text
                    } else {
                        palette.disabled
                    },
                },
            );
        },
    }
    assert(shape_views(shapes@) =~= before + cell_shapes(
        snapshot@,
        *gesture,
        *palette,
        *cell,
    ));
}

/// Draws the lines before the buttons, and those around the strip.
fn draw_lines(shapes: &mut Vec<Shape>, width: i64, rgb: u32)
    requires
        0 <= width <= 0x4000_0000_0000_0000,
    ensures
        shape_views(final(shapes)@) == shape_views(old(shapes)@) + line_shapes(
            width as int,
            rgb,
        ),
{
    let ghost before = shape_views(shapes@);
    let line: i64 = LINE as i64;
    let emoji: i64 = width - EMOJI_BUTTON as i64;
    let paging: i64 = emoji - 2 * (PAGE_BUTTON as i64);
    draw(shapes, Shape::Fill { area: tall_area(paging, paging + line), rgb });
    draw(shapes, Shape::Fill { area: tall_area(emoji, emoji + line), rgb });
    draw(
        shapes,
        Shape::Fill { area: Area { left: 0, top: 0, right: width, bottom: line }, rgb },
    );
    draw(
        shapes,
        Shape::Fill {
            area: Area { left: 0, top: FULL_HEIGHT - line, right: width, bottom: FULL_HEIGHT },
            rgb,
        },
    );
    draw(shapes, Shape::Fill { area: tall_area(0, line), rgb });
    draw(shapes, Shape::Fill { area: tall_area(width - line, width), rgb });
    assert(shape_views(shapes@) =~= before + line_shapes(width as int, rgb));
}

impl Window {
    /// What is drawn of the strip, on its background.
    pub fn paint(&self) -> (r: Vec<Shape>)
        requires
            self.wf(),
        ensures
            shape_views(r@) == paint_of(self@),
    {
        let mut shapes: Vec<Shape> = Vec::new();
        assert(shape_views(shapes@) =~= Seq::<ShapeView>::empty());
        let content: &Content = match &self.content {
            Some(content) => content,
            None => {
                return shapes;
            },
        };
        let ghost cells = content.layout.cells@;
        let mut i: usize = 0;
        while i < content.layout.cells.len()
            invariant
                i <= content.layout.cells.len(),
                cells == content.layout.cells@,
                self.wf(),
                self.content == Some(*content),
                shape_views(shapes@) == all_cells(
                    content.snapshot@,
                    self.gesture,
                    self.palette,
                    cells.take(i as int),
                ),
            decreases content.layout.cells.len() - i,
        {
            proof {
                super::logic::lemma_cell_bounds(content.widths@, i as int);
                if i < content.widths@.len() {
                    assert(cells[i as int] == candidate_cell(content.widths@, i as int));
                }
                let next = cells.take(i + 1);
                assert(next.drop_last() =~= cells.take(i as int));
                assert(next.last() == cells[i as int]);
            }
            draw_cell(
                &mut shapes,
                &content.snapshot,
                &self.gesture,
                &self.palette,
                &content.layout.cells[i],
            );
            i += 1;
        }
        proof {
            super::logic::lemma_width_bound(content.widths@);
            assert(cells.take(cells.len() as int) =~= cells);
        }
        draw_lines(&mut shapes, content.layout.width as i64, self.palette.border);
        shapes
    }
}

} // verus!
