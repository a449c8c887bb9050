//! A paragraph backend that lays text out on a grid of equal cells.
//!
//! Each character takes one cell as wide as the font size and as high as a
//! line; lines wrap after as many cells as the bounds are wide, and only the
//! lines that fit in the bounds' height are shown.
use vstd::prelude::*;
use vstd::string::{StrSliceExecFns, StringExecFns};
use crate::alignment::{Horizontal, Vertical};
use crate::geometry::{Point, Size};
use crate::paragraph::Paragraph;
use crate::text::{line_height_px, spans_text, Difference, Font, Hit, LineHeight, Shaping, Span, Text};

verus! {

/// The cells of a line: as many as fit in the bounds' width, or as many as
/// needed where cells have no width.
pub open spec fn columns(l: Text<(), Font>) -> int {
    if l.size == 0 {
        u32::MAX as int
    } else {
        l.bounds.width as int / l.size as int
    }
}

/// The height of a line, in pixels.
pub open spec fn line_px(l: Text<(), Font>) -> int {
    line_height_px(l.line_height, l.size)
}

/// The lines that `len` characters wrap into; none where no cell fits.
pub open spec fn wrapped_lines(len: int, l: Text<(), Font>) -> int {
    if columns(l) == 0 {
        0
    } else {
        (len + columns(l) - 1) / columns(l)
    }
}

/// The lines that are shown: those that fit in the bounds' height.
pub open spec fn visible_lines(len: int, l: Text<(), Font>) -> int {
    let n = wrapped_lines(len, l);
    if line_px(l) == 0 {
        n
    } else if n <= l.bounds.height as int / line_px(l) {
        n
    } else {
        l.bounds.height as int / line_px(l)
    }
}

/// The characters on the visual line `line`.
pub open spec fn line_len(len: int, l: Text<(), Font>, line: int) -> int {
    if len - line * columns(l) < columns(l) {
        len - line * columns(l)
    } else {
        columns(l)
    }
}

/// The smallest box that holds the shown lines of `len` characters.
pub open spec fn grid_min_bounds(len: int, l: Text<(), Font>) -> Size {
    if visible_lines(len, l) == 0 {
        Size { width: 0, height: 0 }
    } else {
        let cells = if len < columns(l) {
            len
        } else {
            columns(l)
        };
        Size {
            width: (cells * l.size as int) as u32,
            height: (visible_lines(len, l) * line_px(l)) as u32,
        }
    }
}

/// The caret position nearest to a point on a shown line; `None` for a point
/// below the shown lines, or where lines have no height.
pub open spec fn grid_hit(len: int, l: Text<(), Font>, p: Point) -> Option<Hit> {
    if line_px(l) == 0 || p.y as int / line_px(l) >= visible_lines(len, l) {
        None
    } else {
        let row = p.y as int / line_px(l);
        let col = if l.size == 0 {
            0
        } else {
            p.x as int / l.size as int
        };
        let on_line = if col < line_len(len, l, row) {
            col
        } else {
            line_len(len, l, row)
        };
        Some(Hit::CharOffset((row * columns(l) + on_line) as usize))
    }
}

/// Where the cell of character `index` of the shown line `line` begins.
pub open spec fn grid_position(len: int, l: Text<(), Font>, line: int, index: int) -> Option<Point> {
    if line < visible_lines(len, l) && index < line_len(len, l, line) {
        Some(Point { x: (index * l.size as int) as u32, y: (line * line_px(l)) as u32 })
    } else {
        None
    }
}

/// A whole number of parts of `total` never exceeds it.
proof fn lemma_parts_fit(total: int, part: int, count: int)
    requires
        part > 0,
        total >= 0,
        0 <= count <= total / part,
    ensures
        count * part <= total,
{
    assert(count * part <= (total / part) * part) by (nonlinear_arith)
        requires
            0 <= count <= total / part,
            part > 0,
    ;
    assert((total / part) * part <= total) by (nonlinear_arith)
        requires
            part > 0,
            total >= 0,
    ;
}

/// A line before the last wrapped one starts before the end of the text.
proof fn lemma_line_start(len: int, cols: int, row: int)
    requires
        cols > 0,
        len >= 0,
        0 <= row < (len + cols - 1) / cols,
    ensures
        row * cols < len,
{
    assert(row * cols < len) by (nonlinear_arith)
        requires
            cols > 0,
            len >= 0,
            0 <= row,
            row < (len + cols - 1) / cols,
    ;
}

/// The shown lines and the cells of the widest of them fit in the bounds.
pub proof fn lemma_min_bounds_fit(len: int, l: Text<(), Font>)
    requires
        len >= 0,
    ensures
        grid_min_bounds(len, l).fits(l.bounds),
        visible_lines(len, l) > 0 ==> grid_min_bounds(len, l).width == (if len < columns(l) {
            len
        } else {
            columns(l)
        }) * l.size as int,
        grid_min_bounds(len, l).height == visible_lines(len, l) * line_px(l),
{
    if visible_lines(len, l) > 0 {
        let cells = if len < columns(l) {
            len
        } else {
            columns(l)
        };
        if l.size > 0 {
            lemma_parts_fit(l.bounds.width as int, l.size as int, cells);
        } else {
            assert(cells * l.size as int == 0) by (nonlinear_arith)
                requires
                    l.size == 0,
            ;
        }
        if line_px(l) > 0 {
            lemma_parts_fit(l.bounds.height as int, line_px(l), visible_lines(len, l));
        } else {
            let v = visible_lines(len, l);
            assert(v * line_px(l) == 0) by (nonlinear_arith)
                requires
                    line_px(l) == 0,
            ;
        }
    }
}

/// The smallest box of a grid paragraph fits in the bounds it was last laid
/// out or resized with.
pub proof fn lemma_paragraph_fits(m: Monospace)
    ensures
        m.spec_min_bounds().fits(m.layout().bounds),
{
    lemma_min_bounds_fit(m.content().len() as int, m.layout());
}

/// The parameters of an empty paragraph: no bounds, 16-pixel sans-serif
/// text with lines 1.3 times as high, placed at the top left, with basic
/// shaping.
pub open spec fn empty_layout() -> Text<(), Font> {
    Text {
        content: (),
        bounds: Size { width: 0, height: 0 },
        size: 16,
        line_height: LineHeight::Relative(130),
        font: Font { family: crate::text::Family::SansSerif, weight: 400 },
        horizontal_alignment: Horizontal::Left,
        vertical_alignment: Vertical::Top,
        shaping: Shaping::Basic,
    }
}

/// A paragraph laid out on a grid of equal cells.
pub struct Monospace {
    content: String,
    length: usize,
    layout: Text<(), Font>,
}

impl Monospace {
    /// The cached length is the number of characters.
    #[verifier::type_invariant]
    spec fn counts_content(self) -> bool {
        self.length == self.content@.len()
    }

    /// The cells of a line.
    fn cells_per_line(l: &Text<(), Font>) -> (r: u128)
        ensures
            r == columns(*l),
            r <= u32::MAX,
    {
        if l.size == 0 {
            u32::MAX as u128
        } else {
            (l.bounds.width / l.size) as u128
        }
    }

    /// The lines that are shown.
    fn shown_lines(len: usize, l: &Text<(), Font>) -> (r: u128)
        ensures
            r == visible_lines(len as int, *l),
            r <= wrapped_lines(len as int, *l),
    {
        let cols = Self::cells_per_line(l);
        let n: u128 = if cols == 0 {
            0
        } else {
            (len as u128 + cols - 1) / cols
        };
        let lh = l.line_height.to_absolute(l.size) as u128;
        if lh == 0 {
            n
        } else if n <= l.bounds.height as u128 / lh {
            n
        } else {
            l.bounds.height as u128 / lh
        }
    }

    /// The characters on a shown line, and the offset of its first one.
    fn line_extent(len: usize, l: &Text<(), Font>, line: u128) -> (r: (u128, u128))
        requires
            line < visible_lines(len as int, *l),
        ensures
            r.0 == line * columns(*l),
            r.0 < len,
            r.1 == line_len(len as int, *l, line as int),
            r.0 + r.1 <= len,
            r.1 <= columns(*l),
    {
        let cols = Self::cells_per_line(l);
        proof {
            lemma_line_start(len as int, cols as int, line as int);
            assert(line * cols <= len) by (nonlinear_arith)
                requires
                    line * cols < len,
            ;
        }
        let start = line * cols;
        let rest = len as u128 - start;
        let on_line = if rest < cols {
            rest
        } else {
            cols
        };
        (start, on_line)
    }
}

impl Default for Monospace {
    fn default() -> (r: Monospace)
        ensures
            r.content() == Seq::<char>::empty(),
            r.layout() == empty_layout(),
    {
        Monospace {
            content: String::new(),
            length: 0,
            layout: Text {
                content: (),
                bounds: Size { width: 0, height: 0 },
                size: 16,
                line_height: LineHeight::Relative(130),
                font: Font::sans_serif(),
                horizontal_alignment: Horizontal::Left,
                vertical_alignment: Vertical::Top,
                shaping: Shaping::Basic,
            },
        }
    }
}

impl Paragraph for Monospace {
    type Font = Font;

    closed spec fn content(&self) -> Seq<char> {
        self.content@
    }

    closed spec fn layout(&self) -> Text<(), Font> {
        self.layout
    }

    open spec fn spec_min_bounds(&self) -> Size {
        grid_min_bounds(self.content().len() as int, self.layout())
    }

    open spec fn spec_hit_test(&self, point: Point) -> Option<Hit> {
        grid_hit(self.content().len() as int, self.layout(), point)
    }

    open spec fn spec_grapheme_position(&self, line: usize, index: usize) -> Option<Point> {
        grid_position(self.content().len() as int, self.layout(), line as int, index as int)
    }

    fn with_text(text: Text<&str, Font>) -> (r: Self) {
        let content = text.content.to_owned();
        let length = text.content.unicode_len();
        Monospace { content, length, layout: text.layout() }
    }

    fn with_spans<'a>(text: Text<&'a [Span<'a, Font>], Font>) -> (r: Self) {
        let spans = text.content;
        let mut content = String::new();
        let mut i: usize = 0;
        while i < spans.len()
            invariant
                i <= spans@.len(),
                content@ == spans_text(spans@.subrange(0, i as int)),
            decreases spans@.len() - i,
        {
            proof {
                assert(spans@.subrange(0, i + 1).drop_last() =~= spans@.subrange(0, i as int));
            }
            content.append(spans[i].text);
            i = i + 1;
        }
        proof {
            assert(spans@.subrange(0, spans@.len() as int) =~= spans@);
        }
        let length = content.as_str().unicode_len();
        Monospace { content, length, layout: text.layout() }
    }

    fn resize(&mut self, new_bounds: Size) {
        proof {
            use_type_invariant(&*self);
        }
        self.layout.bounds = new_bounds;
    }

    fn compare(&self, text: Text<(), Font>) -> (r: Difference) {
        let l = &self.layout;
        let same_style = l.size == text.size && l.line_height == text.line_height && l.font
            == text.font && l.horizontal_alignment == text.horizontal_alignment
            && l.vertical_alignment == text.vertical_alignment && l.shaping == text.shaping;
        if !same_style {
            Difference::Shape
        } else if l.bounds != text.bounds {
            Difference::Bounds
        } else {
            Difference::Unchanged
        }
    }

    fn horizontal_alignment(&self) -> (r: Horizontal) {
        self.layout.horizontal_alignment
    }

    fn vertical_alignment(&self) -> (r: Vertical) {
        self.layout.vertical_alignment
    }

    fn min_bounds(&self) -> (r: Size) {
        proof {
            use_type_invariant(self);
            lemma_min_bounds_fit(self.length as int, self.layout);
        }
        let l = &self.layout;
        let len = self.length as u128;
        let shown = Self::shown_lines(self.length, l);
        if shown == 0 {
            return Size { width: 0, height: 0 };
        }
        let cols = Self::cells_per_line(l);
        let cells = if len < cols {
            len
        } else {
            cols
        };
        let lh = l.line_height.to_absolute(l.size) as u128;
        Size { width: (cells * l.size as u128) as u32, height: (shown * lh) as u32 }
    }

    fn hit_test(&self, point: Point) -> (r: Option<Hit>) {
        proof {
            use_type_invariant(self);
        }
        let l = &self.layout;
        let lh = l.line_height.to_absolute(l.size) as u128;
        if lh == 0 {
            return None;
        }
        let row = point.y as u128 / lh;
        if row >= Self::shown_lines(self.length, l) {
            return None;
        }
        let (start, on_line) = Self::line_extent(self.length, l, row);
        let col: u128 = if l.size == 0 {
            0
        } else {
            (point.x / l.size) as u128
        };
        let offset = if col < on_line {
            start + col
        } else {
            start + on_line
        };
        Some(Hit::CharOffset(offset as usize))
    }

    fn grapheme_position(&self, line: usize, index: usize) -> (r: Option<Point>) {
        proof {
            use_type_invariant(self);
        }
        let l = &self.layout;
        if line as u128 >= Self::shown_lines(self.length, l) {
            return None;
        }
        let (_start, on_line) = Self::line_extent(self.length, l, line as u128);
        if index as u128 >= on_line {
            return None;
        }
        let lh = l.line_height.to_absolute(l.size) as u128;
        proof {
            if l.size > 0 {
                lemma_parts_fit(l.bounds.width as int, l.size as int, index as int);
            } else {
                assert(index * l.size == 0) by (nonlinear_arith)
                    requires
                        l.size == 0,
                ;
            }
            if lh > 0 {
                lemma_parts_fit(l.bounds.height as int, lh as int, line as int);
            } else {
                assert(line * lh == 0) by (nonlinear_arith)
                    requires
                        lh == 0,
                ;
            }
        }
        Some(Point { x: (index as u128 * l.size as u128) as u32, y: (line as u128 * lh) as u32 })
    }
}

} // verus!
