//! Paragraphs of laid-out text, and a cache that lays text out again only
//! as far as a request needs.
use vstd::prelude::*;
use crate::alignment::{Horizontal, Vertical};
use crate::geometry::{Point, Size};
use crate::monospace::{empty_layout, Monospace};
use crate::text::{same_style, difference, same_text, spans_text, with_bounds, Difference, Hit, Span, Text};

verus! {

/// A text paragraph: what a text-shaping backend produces.
///
/// A paragraph is known through the characters it was laid out from
/// (`content`) and the parameters it was last laid out with (`layout`);
/// what its queries return is the backend's own, named by the `spec_`
/// functions.
pub trait Paragraph: Sized {
    /// The font of this paragraph.
    type Font: Copy;

    /// The characters the paragraph was laid out from.
    spec fn content(&self) -> Seq<char>;

    /// The parameters the paragraph was last laid out with.
    spec fn layout(&self) -> Text<(), Self::Font>;

    /// The smallest box that holds the laid-out content.
    spec fn spec_min_bounds(&self) -> Size;

    /// The hit at a point, if the point lies on the paragraph.
    spec fn spec_hit_test(&self, point: Point) -> Option<Hit>;

    /// Where a grapheme of a visual line begins, if there is one.
    spec fn spec_grapheme_position(&self, line: usize, index: usize) -> Option<Point>;

    /// Creates a paragraph laid out with the given text.
    fn with_text(text: Text<&str, Self::Font>) -> (r: Self)
        ensures
            r.content() == text.content@,
            r.layout() == text.layout_spec(),
    ;

    /// Creates a paragraph laid out with the given spans.
    fn with_spans<'a>(text: Text<&'a [Span<'a, Self::Font>], Self::Font>) -> (r: Self)
        ensures
            r.content() == spans_text(text.content@),
            r.layout() == text.layout_spec(),
    ;

    /// Lays the paragraph out anew within some new bounds.
    fn resize(&mut self, new_bounds: Size)
        ensures
            final(self).content() == old(self).content(),
            final(self).layout() == with_bounds(old(self).layout(), new_bounds),
    ;

    /// Compares the paragraph with the layout parameters of a request.
    fn compare(&self, text: Text<(), Self::Font>) -> (r: Difference)
        ensures
            r == difference(self.layout(), text),
    ;

    /// The horizontal alignment of the paragraph.
    fn horizontal_alignment(&self) -> (r: Horizontal)
        ensures
            r == self.layout().horizontal_alignment,
    ;

    /// The vertical alignment of the paragraph.
    fn vertical_alignment(&self) -> (r: Vertical)
        ensures
            r == self.layout().vertical_alignment,
    ;

    /// The smallest box that holds the contents of the paragraph.
    fn min_bounds(&self) -> (r: Size)
        ensures
            r == self.spec_min_bounds(),
    ;

    /// Whether the point lies on the paragraph, and the nearest character if
    /// it does.
    fn hit_test(&self, point: Point) -> (r: Option<Hit>)
        ensures
            r == self.spec_hit_test(point),
            r matches Some(Hit::CharOffset(i)) ==> i <= self.content().len(),
    ;

    /// Where the grapheme `index` of the visual line `line` begins.
    fn grapheme_position(&self, line: usize, index: usize) -> (r: Option<Point>)
        ensures
            r == self.spec_grapheme_position(line, index),
    ;

    /// The smallest width that holds the contents of the paragraph.
    fn min_width(&self) -> (r: u32)
        ensures
            r == self.spec_min_bounds().width,
    {
        self.min_bounds().width
    }

    /// The smallest height that holds the contents of the paragraph.
    fn min_height(&self) -> (r: u32)
        ensures
            r == self.spec_min_bounds().height,
    {
        self.min_bounds().height
    }
}

/// What bringing a cached paragraph up to date with a request takes.
#[derive(Debug, Clone, Copy, PartialEq, Eq, Structural, Hash)]
pub enum Action {
    /// The paragraph already matches the request.
    Keep,
    /// Only the bounds changed: the paragraph is resized in place.
    Resize,
    /// The content or the styling changed: the paragraph is built anew.
    Rebuild,
}

/// The action that brings a paragraph laid out from `cached` with `current`
/// up to date with a request for `content` laid out with `wanted`.
pub open spec fn action_for<F>(
    cached: Seq<char>,
    current: Text<(), F>,
    content: Seq<char>,
    wanted: Text<(), F>,
) -> Action {
    if cached != content {
        Action::Rebuild
    } else {
        match difference(current, wanted) {
            Difference::Unchanged => Action::Keep,
            Difference::Bounds => Action::Resize,
            Difference::Shape => Action::Rebuild,
        }
    }
}

/// Once a cached paragraph matches a request, the same request takes no
/// action, and so leaves the cache as it is.
pub proof fn lemma_same_request_keeps<P: Paragraph>(p: Plain<P>, text: Text<&str, P::Font>)
    requires
        p.text() == text.content@,
        p.paragraph().layout() == text.layout_spec(),
    ensures
        p.action(text) == Action::Keep,
{
}

/// A request with other content than the cached text rebuilds the
/// paragraph, and never merely resizes it.
pub proof fn lemma_new_content_rebuilds<P: Paragraph>(p: Plain<P>, text: Text<&str, P::Font>)
    requires
        p.text() != text.content@,
    ensures
        p.action(text) == Action::Rebuild,
{
}

/// A request that keeps the content and the styling but changes the bounds
/// resizes the paragraph, and never rebuilds it.
pub proof fn lemma_new_bounds_resize<P: Paragraph>(p: Plain<P>, text: Text<&str, P::Font>)
    requires
        p.text() == text.content@,
        same_style(p.paragraph().layout(), text.layout_spec()),
        p.paragraph().layout().bounds != text.bounds,
    ensures
        p.action(text) == Action::Resize,
{
}

/// A paragraph of plain text, with the text it was laid out from.
pub struct Plain<P: Paragraph> {
    raw: P,
    content: String,
}

impl<P: Paragraph> Plain<P> {
    /// The paragraph holds the cached text.
    pub closed spec fn wf(self) -> bool {
        self.raw.content() == self.content@
    }

    /// The text the cached paragraph was laid out from.
    pub closed spec fn text(self) -> Seq<char> {
        self.content@
    }

    /// The cached paragraph.
    pub closed spec fn paragraph(self) -> P {
        self.raw
    }

    /// The action that `update` takes for a request.
    pub open spec fn action(self, text: Text<&str, P::Font>) -> Action {
        action_for(self.text(), self.paragraph().layout(), text.content@, text.layout_spec())
    }

    /// Creates a plain paragraph laid out with the given text.
    pub fn new(text: Text<&str, P::Font>) -> (r: Self)
        ensures
            r.wf(),
            r.text() == text.content@,
            r.paragraph().content() == text.content@,
            r.paragraph().layout() == text.layout_spec(),
    {
        let content = text.content.to_owned();
        Plain { raw: P::with_text(text), content }
    }

    /// The action that bringing the paragraph up to date with `text` takes.
    pub fn plan(&self, text: &Text<&str, P::Font>) -> (r: Action)
        ensures
            r == self.action(*text),
    {
        if !same_text(self.content.as_str(), text.content) {
            return Action::Rebuild;
        }
        match self.raw.compare(text.layout()) {
            Difference::Unchanged => Action::Keep,
            Difference::Bounds => Action::Resize,
            Difference::Shape => Action::Rebuild,
        }
    }

    /// Updates the paragraph to match the given text, doing only what the
    /// change needs: nothing, a resize, or a new layout.
    pub fn update(&mut self, text: Text<&str, P::Font>)
        requires
            old(self).wf(),
        ensures
            final(self).wf(),
            final(self).text() == text.content@,
            final(self).paragraph().content() == text.content@,
            final(self).paragraph().layout() == text.layout_spec(),
            old(self).action(text) == Action::Keep ==> *final(self) == *old(self),
    {
        match self.plan(&text) {
            Action::Keep => {
                assert(self.raw.layout().content == text.layout_spec().content);
                assert(self.raw.layout() =~= text.layout_spec());
            },
            Action::Resize => {
                self.raw.resize(text.bounds);
            },
            Action::Rebuild => {
                let content = text.content.to_owned();
                self.content = content;
                self.raw = P::with_text(text);
            },
        }
    }

    /// The horizontal alignment of the paragraph.
    pub fn horizontal_alignment(&self) -> (r: Horizontal)
        ensures
            r == self.paragraph().layout().horizontal_alignment,
    {
        self.raw.horizontal_alignment()
    }

    /// The vertical alignment of the paragraph.
    pub fn vertical_alignment(&self) -> (r: Vertical)
        ensures
            r == self.paragraph().layout().vertical_alignment,
    {
        self.raw.vertical_alignment()
    }

    /// The smallest box that holds the contents of the paragraph.
    pub fn min_bounds(&self) -> (r: Size)
        ensures
            r == self.paragraph().spec_min_bounds(),
    {
        self.raw.min_bounds()
    }

    /// The smallest width that holds the contents of the paragraph.
    pub fn min_width(&self) -> (r: u32)
        ensures
            r == self.paragraph().spec_min_bounds().width,
    {
        self.raw.min_width()
    }

    /// The text the cached paragraph was laid out from.
    pub fn content(&self) -> (r: &str)
        ensures
            r@ == self.text(),
    {
        self.content.as_str()
    }

    /// The cached paragraph.
    pub fn raw(&self) -> (r: &P)
        ensures
            *r == self.paragraph(),
    {
        &self.raw
    }
}

impl Default for Plain<Monospace> {
    fn default() -> (r: Plain<Monospace>)
        ensures
            r.wf(),
            r.text() == Seq::<char>::empty(),
            r.paragraph().layout() == empty_layout(),
    {
        Plain { raw: Monospace::default(), content: String::new() }
    }
}

} // verus!
