use theframework::textlayout::{TheRowInfo, TheTextRenderer, Vec2u};
use theframework::widget::Vec2i;

fn row(top: usize, bottom: usize, right: usize) -> TheRowInfo {
    TheRowInfo { top, left: 0, bottom, right, baseline: bottom, glyph_start: 0, glyph_end: 0 }
}

fn laid_out() -> TheTextRenderer {
    let mut r = TheTextRenderer::new();
    r.set_dim(0, 0, 50, 20);
    r.row_info = vec![row(0, 10, 30), row(10, 20, 120), row(20, 30, 60), row(30, 40, 40)];
    r.actual_size = Vec2u { x: 120, y: 40 };
    r
}

#[test]
fn new_renderer_defaults() {
    let r = TheTextRenderer::new();
    assert_eq!(r.cursor_width, 2);
    assert_eq!(r.padding, (5, 0, 5, 0));
    assert_eq!(r.row_count(), 0);
    assert_eq!(r.visible_rows(), None);
    assert!(!r.is_horizontal_overflow() && !r.is_vertical_overflow());
}

#[test]
fn rows_in_view() {
    let mut r = laid_out();
    // rows 0 and 1 fill the view; row 2 starts right at its bottom edge
    assert_eq!(r.visible_rows(), Some((0, 2)));
    r.scroll_offset = Vec2u { x: 0, y: 15 };
    assert_eq!(r.visible_rows(), Some((1, 3)));
    r.scroll_offset = Vec2u { x: 0, y: 40 };
    assert_eq!(r.visible_rows(), Some((0, 3)));
    assert!(r.is_horizontal_overflow() && r.is_vertical_overflow());
}

#[test]
fn scrolling_is_clamped() {
    let mut r = laid_out();
    assert!(r.scroll(Vec2i::new(500, 500), false));
    assert_eq!(r.scroll_offset, Vec2u { x: 70, y: 20 });
    assert!(!r.scroll(Vec2i::new(1, 1), false));
    assert!(r.scroll(Vec2i::new(-100, -3), false));
    assert_eq!(r.scroll_offset, Vec2u { x: 0, y: 17 });
    // keeping to the rows in view (rows 1 to 3, widest 120)
    r.scroll_offset = Vec2u { x: 0, y: 15 };
    assert!(r.scroll(Vec2i::new(500, 0), true));
    assert_eq!(r.scroll_offset, Vec2u { x: 70, y: 15 });
    r.scroll_offset = Vec2u { x: 0, y: 25 };
    // rows 2 and 3 are in view, the widest 60 pixels
    assert!(r.scroll(Vec2i::new(500, 0), true));
    assert_eq!(r.scroll_offset, Vec2u { x: 10, y: 20 });
    let mut empty = TheTextRenderer::new();
    empty.scroll_offset = Vec2u { x: 3, y: 4 };
    assert!(empty.scroll(Vec2i::new(0, 0), false));
    assert_eq!(empty.scroll_offset, Vec2u { x: 0, y: 0 });
}

#[test]
fn scrolling_to_the_cursor() {
    let mut r = laid_out();
    r.scroll_to_cursor(100, 3);
    assert_eq!(r.scroll_offset, Vec2u { x: 52, y: 20 });
    r.scroll_to_cursor(10, 0);
    assert_eq!(r.scroll_offset, Vec2u { x: 10, y: 0 });
    r.scroll_to_cursor(20, 1);
    assert_eq!(r.scroll_offset, Vec2u { x: 10, y: 0 });
    assert_eq!(r.row_baseline(1), 20);
}

#[test]
fn view_area_with_padding() {
    let mut r = TheTextRenderer::new();
    r.set_dim(10, 5, 50, 20);
    let d = r.dim();
    assert_eq!((d.x, d.y, d.width, d.height), (5, 5, 60, 20));
}
