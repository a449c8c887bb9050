use iced_core::alignment::{Horizontal, Vertical};
use iced_core::geometry::{Point, Size, UNBOUNDED};
use iced_core::monospace::Monospace;
use iced_core::paragraph::{Action, Paragraph, Plain};
use iced_core::text::{same_text, Difference, Family, Font, Hit, LineHeight, Shaping, Span, Text};

fn request(content: &str, width: u32, height: u32) -> Text<&str, Font> {
    Text {
        content,
        bounds: Size::new(width, height),
        size: 16,
        line_height: LineHeight::Relative(130),
        font: Font::sans_serif(),
        horizontal_alignment: Horizontal::Left,
        vertical_alignment: Vertical::Top,
        shaping: Shaping::Basic,
    }
}

#[test]
fn resize_then_rebuild_then_keep() {
    let mut plain: Plain<Monospace> = Plain::new(request("Hello", 100, 20));
    assert_eq!(plain.min_bounds(), Size::new(80, 20));

    let wider = request("Hello", 200, 20);
    assert_eq!(plain.plan(&wider), Action::Resize);
    plain.update(wider);
    assert!(plain.min_width() <= 200);
    assert_eq!(plain.content(), "Hello");

    let world = request("World", 200, 20);
    assert_eq!(plain.plan(&world), Action::Rebuild);
    plain.update(world);
    assert_eq!(plain.content(), "World");

    let again = request("World", 200, 20);
    assert_eq!(plain.plan(&again), Action::Keep);
    plain.update(again);
    assert_eq!(plain.content(), "World");
}

#[test]
fn second_identical_update_keeps_the_layout() {
    let mut plain: Plain<Monospace> = Plain::new(request("abc", 40, 40));
    plain.update(request("abcdefghij", 50, 100));
    let bounds = plain.min_bounds();
    assert_eq!(plain.plan(&request("abcdefghij", 50, 100)), Action::Keep);
    plain.update(request("abcdefghij", 50, 100));
    assert_eq!(plain.min_bounds(), bounds);
    assert_eq!(plain.content(), "abcdefghij");
}

#[test]
fn new_content_rebuilds() {
    let mut plain: Plain<Monospace> = Plain::new(request("hello", 100, 20));
    let next = request("héllo", 100, 20);
    assert_eq!(plain.plan(&next), Action::Rebuild);
    plain.update(next);
    assert_eq!(plain.content(), "héllo");
    assert_eq!(plain.min_bounds(), Size::new(80, 20));
}

#[test]
fn new_style_rebuilds_even_with_new_bounds() {
    let plain: Plain<Monospace> = Plain::new(request("hello", 100, 20));
    let mut next = request("hello", 300, 60);
    next.size = 10;
    assert_eq!(plain.plan(&next), Action::Rebuild);
    let mut aligned = request("hello", 100, 20);
    aligned.horizontal_alignment = Horizontal::Right;
    assert_eq!(plain.plan(&aligned), Action::Rebuild);
}

#[test]
fn new_bounds_only_resize_and_fit() {
    let mut plain: Plain<Monospace> = Plain::new(request("abcdefghij", 200, 200));
    assert_eq!(plain.min_bounds(), Size::new(160, 20));
    let narrow = request("abcdefghij", 50, 45);
    assert_eq!(plain.plan(&narrow), Action::Resize);
    plain.update(narrow);
    let b = plain.min_bounds();
    assert_eq!(b, Size::new(48, 40));
    assert!(b.width <= 50 && b.height <= 45);
}

#[test]
fn alignments_follow_the_request() {
    let mut t = request("x", 10, 10);
    t.horizontal_alignment = Horizontal::Center;
    t.vertical_alignment = Vertical::Bottom;
    let mut plain: Plain<Monospace> = Plain::new(t);
    assert_eq!(plain.horizontal_alignment(), Horizontal::Center);
    assert_eq!(plain.vertical_alignment(), Vertical::Bottom);
    plain.update(request("x", 10, 10));
    assert_eq!(plain.horizontal_alignment(), Horizontal::Left);
    assert_eq!(plain.vertical_alignment(), Vertical::Top);
    assert_eq!(plain.raw().horizontal_alignment(), Horizontal::Left);
}

#[test]
fn default_plain_is_empty() {
    let plain: Plain<Monospace> = Plain::default();
    assert_eq!(plain.content(), "");
    assert_eq!(plain.min_bounds(), Size::new(0, 0));
    let m = Monospace::default();
    assert_eq!(m.min_bounds(), Size::new(0, 0));
    assert_eq!(m.min_height(), 0);
}

#[test]
fn grid_wraps_and_clips() {
    let m = Monospace::with_text(request("abcdefghij", 50, 100));
    assert_eq!(m.min_bounds(), Size::new(48, 80));
    assert_eq!(m.min_width(), 48);
    assert_eq!(m.min_height(), 80);
    let clipped = Monospace::with_text(request("abcdefghij", 50, 45));
    assert_eq!(clipped.min_bounds(), Size::new(48, 40));
    let unbounded = Monospace::with_text(request("abcdefghij", UNBOUNDED, UNBOUNDED));
    assert_eq!(unbounded.min_bounds(), Size::new(160, 20));
}

#[test]
fn degenerate_bounds_show_nothing() {
    assert_eq!(Monospace::with_text(request("abc", 10, 100)).min_bounds(), Size::new(0, 0));
    assert_eq!(Monospace::with_text(request("abc", 100, 0)).min_bounds(), Size::new(0, 0));
    assert_eq!(Monospace::with_text(request("", 100, 100)).min_bounds(), Size::new(0, 0));
    let mut zero = request("abc", 10, 30);
    zero.size = 0;
    let m = Monospace::with_text(zero);
    assert_eq!(m.min_bounds(), Size::new(0, 0));
    assert_eq!(m.hit_test(Point::new(0, 0)), None);
}

#[test]
fn hit_test_finds_the_nearest_caret() {
    let m = Monospace::with_text(request("abcdefghij", 50, 100));
    assert_eq!(m.hit_test(Point::new(20, 25)), Some(Hit::CharOffset(4)));
    assert_eq!(m.hit_test(Point::new(100, 65)), Some(Hit::CharOffset(10)));
    assert_eq!(m.hit_test(Point::new(0, 0)), Some(Hit::CharOffset(0)));
    assert_eq!(m.hit_test(Point::new(0, 80)), None);
    assert_eq!(m.hit_test(Point::new(20, 25)).map(|h| h.cursor()), Some(4));
}

#[test]
fn grapheme_positions_on_shown_lines() {
    let m = Monospace::with_text(request("abcdefghij", 50, 100));
    assert_eq!(m.grapheme_position(1, 2), Some(Point::new(32, 20)));
    assert_eq!(m.grapheme_position(3, 0), Some(Point::new(0, 60)));
    assert_eq!(m.grapheme_position(3, 1), None);
    assert_eq!(m.grapheme_position(4, 0), None);
    assert_eq!(m.grapheme_position(0, 3), None);
}

#[test]
fn spans_are_laid_out_in_order() {
    let spans = [
        Span { text: "ab", size: None, line_height: None, font: None },
        Span {
            text: "cdé",
            size: Some(20),
            line_height: None,
            font: Some(Font { family: Family::Serif, weight: 700 }),
        },
    ];
    let t = Text {
        content: &spans[..],
        bounds: Size::new(100, 100),
        size: 16,
        line_height: LineHeight::Relative(130),
        font: Font::sans_serif(),
        horizontal_alignment: Horizontal::Left,
        vertical_alignment: Vertical::Top,
        shaping: Shaping::Advanced,
    };
    let m = Monospace::with_spans(t);
    assert_eq!(m.min_bounds(), Size::new(80, 20));
    assert_eq!(m.hit_test(Point::new(1000, 0)), Some(Hit::CharOffset(5)));
}

#[test]
fn compare_classifies_each_difference() {
    let t = request("hello", 100, 20);
    let m = Monospace::with_text(t);
    assert_eq!(m.compare(t.layout()), Difference::Unchanged);
    assert_eq!(m.compare(request("other", 100, 20).layout()), Difference::Unchanged);
    assert_eq!(m.compare(request("hello", 100, 40).layout()), Difference::Bounds);
    let mut styled = request("hello", 100, 40);
    styled.font = Font { family: Family::Monospace, weight: 400 };
    assert_eq!(m.compare(styled.layout()), Difference::Shape);
    let mut shaped = request("hello", 100, 20);
    shaped.shaping = Shaping::Advanced;
    assert_eq!(m.compare(shaped.layout()), Difference::Shape);
    let mut taller = request("hello", 100, 20);
    taller.line_height = LineHeight::Absolute(20);
    assert_eq!(m.compare(taller.layout()), Difference::Shape);
}

#[test]
fn resize_keeps_content_and_rewraps() {
    let mut m = Monospace::with_text(request("abcdefghij", 200, 200));
    m.resize(Size::new(50, 100));
    assert_eq!(m.min_bounds(), Size::new(48, 80));
    assert_eq!(m.compare(request("abcdefghij", 50, 100).layout()), Difference::Unchanged);
}

#[test]
fn line_heights_in_pixels() {
    assert_eq!(LineHeight::Relative(130).to_absolute(16), 20);
    assert_eq!(LineHeight::Relative(150).to_absolute(10), 15);
    assert_eq!(LineHeight::Absolute(7).to_absolute(16), 7);
    assert_eq!(LineHeight::Relative(u32::MAX).to_absolute(u32::MAX), u32::MAX);
}

#[test]
fn text_comparison_is_exact() {
    assert!(same_text("héllo", "héllo"));
    assert!(!same_text("héllo", "hello"));
    assert!(!same_text("abc", "abcd"));
    assert!(same_text("", ""));
}
