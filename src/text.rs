//! Text requests: what a paragraph should hold and how it should be shaped.
use vstd::prelude::*;
use crate::alignment::{Horizontal, Vertical};
use crate::geometry::Size;
use vstd::string::StringSliceAdditionalSpecFns;

verus! {

broadcast use vstd::utf8::encode_utf8_decode_utf8;

/// A font family.
#[derive(Debug, Clone, Copy, PartialEq, Eq, Structural, Hash)]
pub enum Family {
    SansSerif,
    Serif,
    Monospace,
    Cursive,
    Fantasy,
}

/// A font: a family and a weight (100 thin to 900 black).
#[derive(Debug, Clone, Copy, PartialEq, Eq, Structural, Hash)]
pub struct Font {
    pub family: Family,
    pub weight: u16,
}

impl Font {
    /// The regular sans-serif font.
    pub fn sans_serif() -> (r: Font)
        ensures
            r.family == Family::SansSerif,
            r.weight == 400,
    {
        Font { family: Family::SansSerif, weight: 400 }
    }
}

/// The height of a line.
#[derive(Debug, Clone, Copy, PartialEq, Eq, Structural, Hash)]
pub enum LineHeight {
    /// In hundredths of the font size.
    Relative(u32),
    /// In pixels.
    Absolute(u32),
}

/// The height of a line in pixels, for text of the given size; it saturates
/// at the largest `u32`.
pub open spec fn line_height_px(h: LineHeight, size: u32) -> int {
    match h {
        LineHeight::Relative(p) => {
            let px = (size as int * p as int) / 100;
            if px > u32::MAX {
                u32::MAX as int
            } else {
                px
            }
        },
        LineHeight::Absolute(px) => px as int,
    }
}

impl LineHeight {
    /// The height of a line in pixels, for text of the given size.
    pub fn to_absolute(self, size: u32) -> (r: u32)
        ensures
            r == line_height_px(self, size),
    {
        match self {
            LineHeight::Relative(p) => {
                proof {
                    assert(size as u64 * p as u64 <= u32::MAX as u64 * u32::MAX as u64)
                        by (nonlinear_arith);
                }
                let px: u64 = (size as u64 * p as u64) / 100;
                if px > u32::MAX as u64 {
                    u32::MAX
                } else {
                    px as u32
                }
            },
            LineHeight::Absolute(px) => px,
        }
    }
}

/// How text is turned into glyphs.
#[derive(Debug, Clone, Copy, PartialEq, Eq, Structural, Hash)]
pub enum Shaping {
    /// One glyph per character, for text that needs no Unicode shaping.
    Basic,
    /// Full Unicode-aware shaping.
    Advanced,
}

/// A request for a paragraph: its content and how to lay it out.
///
/// `Content` is a borrowed string, a borrowed slice of spans, or `()` where
/// only the layout parameters are of interest.
#[derive(Debug, Clone, Copy)]
pub struct Text<Content, F> {
    pub content: Content,
    pub bounds: Size,
    pub size: u32,
    pub line_height: LineHeight,
    pub font: F,
    pub horizontal_alignment: Horizontal,
    pub vertical_alignment: Vertical,
    pub shaping: Shaping,
}

impl<Content, F: Copy> Text<Content, F> {
    /// The request with its content left out.
    pub open spec fn layout_spec(&self) -> Text<(), F> {
        Text {
            content: (),
            bounds: self.bounds,
            size: self.size,
            line_height: self.line_height,
            font: self.font,
            horizontal_alignment: self.horizontal_alignment,
            vertical_alignment: self.vertical_alignment,
            shaping: self.shaping,
        }
    }

    /// The request with its content left out.
    pub fn layout(&self) -> (r: Text<(), F>)
        ensures
            r == self.layout_spec(),
    {
        Text {
            content: (),
            bounds: self.bounds,
            size: self.size,
            line_height: self.line_height,
            font: self.font,
            horizontal_alignment: self.horizontal_alignment,
            vertical_alignment: self.vertical_alignment,
            shaping: self.shaping,
        }
    }
}

/// The layout parameters `l` with their bounds replaced by `bounds`.
pub open spec fn with_bounds<F>(l: Text<(), F>, bounds: Size) -> Text<(), F> {
    Text { bounds, ..l }
}

/// A run of text with its own styling; `None` keeps the paragraph's.
#[derive(Debug, Clone, Copy)]
pub struct Span<'a, F> {
    pub text: &'a str,
    pub size: Option<u32>,
    pub line_height: Option<LineHeight>,
    pub font: Option<F>,
}

/// The characters of a sequence of spans, one after the other.
pub open spec fn spans_text<F>(spans: Seq<Span<'_, F>>) -> Seq<char>
    decreases spans.len(),
{
    if spans.len() == 0 {
        Seq::empty()
    } else {
        spans_text(spans.drop_last()) + spans.last().text@
    }
}

/// How a paragraph differs from a request.
#[derive(Debug, Clone, Copy, PartialEq, Eq, Structural, Hash)]
pub enum Difference {
    /// Nothing differs: the paragraph can be kept.
    Unchanged,
    /// Only the bounds differ: the paragraph can be wrapped anew.
    Bounds,
    /// The styling differs: the paragraph must be shaped anew.
    Shape,
}

/// Whether two sets of layout parameters agree in everything but their
/// bounds.
pub open spec fn same_style<F>(a: Text<(), F>, b: Text<(), F>) -> bool {
    &&& a.size == b.size
    &&& a.line_height == b.line_height
    &&& a.font == b.font
    &&& a.horizontal_alignment == b.horizontal_alignment
    &&& a.vertical_alignment == b.vertical_alignment
    &&& a.shaping == b.shaping
}

/// The difference between the parameters a paragraph was laid out with and
/// those of a request. A change of style is a `Shape` difference whether or
/// not the bounds changed too.
pub open spec fn difference<F>(current: Text<(), F>, wanted: Text<(), F>) -> Difference {
    if !same_style(current, wanted) {
        Difference::Shape
    } else if current.bounds != wanted.bounds {
        Difference::Bounds
    } else {
        Difference::Unchanged
    }
}

/// Every comparison yields exactly one difference: `Unchanged` for equal
/// parameters, `Bounds` where only the bounds differ, `Shape` where any
/// styling differs.
pub proof fn lemma_difference_total<F>(a: Text<(), F>, b: Text<(), F>)
    ensures
        (difference(a, b) == Difference::Unchanged) <==> a == b,
        (difference(a, b) == Difference::Bounds) <==> (same_style(a, b) && a.bounds != b.bounds),
        (difference(a, b) == Difference::Shape) <==> !same_style(a, b),
        difference(a, a) == Difference::Unchanged,
{
    assert(a.content == b.content);
    if same_style(a, b) && a.bounds == b.bounds {
        assert(a =~= b);
    }
}

/// The result of a hit test.
#[derive(Debug, Clone, Copy, PartialEq, Eq, Structural, Hash)]
pub enum Hit {
    /// The point is nearest to the caret position before this character.
    CharOffset(usize),
}

impl Hit {
    /// The character offset of the hit.
    pub fn cursor(self) -> (r: usize)
        ensures
            self == Hit::CharOffset(r),
    {
        match self {
            Hit::CharOffset(i) => i,
        }
    }
}

/// Whether two strings are equal, byte for byte.
pub fn same_text(a: &str, b: &str) -> (r: bool)
    ensures
        r == (a@ == b@),
{
    let x = a.as_bytes();
    let y = b.as_bytes();
    if x.len() != y.len() {
        return false;
    }
    let mut i: usize = 0;
    while i < x.len()
        invariant
            x@ == a.spec_bytes(),
            y@ == b.spec_bytes(),
            x@.len() == y@.len(),
            i <= x@.len(),
            forall|j: int| 0 <= j < i ==> x@[j] == y@[j],
        decreases x@.len() - i,
    {
        if x[i] != y[i] {
            return false;
        }
        i = i + 1;
    }
    proof {
        assert(x@ =~= y@);
        assert(vstd::utf8::decode_utf8(x@) == a@);
    }
    true
}

} // verus!
