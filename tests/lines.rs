use plotter_backend_text::{HPos, PixelState, TextDrawingBackend, VPos};

#[test]
fn vertical_line_stops_before_far_end() {
    let mut c = TextDrawingBackend::new(10, 10);
    assert!(c.draw_line((2, 1), (2, 4)));
    assert_eq!(c.get(2, 0), Some(PixelState::Empty));
    assert_eq!(c.get(2, 1), Some(PixelState::VLine));
    assert_eq!(c.get(2, 2), Some(PixelState::VLine));
    assert_eq!(c.get(2, 3), Some(PixelState::VLine));
    assert_eq!(c.get(2, 4), Some(PixelState::Empty));
    assert_eq!(c.get(1, 2), Some(PixelState::Empty));
    assert_eq!(c.get(3, 2), Some(PixelState::Empty));
    let drawn = c.pixels().iter().filter(|p| **p != PixelState::Empty).count();
    assert_eq!(drawn, 3);
}

#[test]
fn vertical_line_reversed_ends_is_the_same() {
    let mut a = TextDrawingBackend::new(10, 10);
    let mut b = TextDrawingBackend::new(10, 10);
    a.draw_line((2, 1), (2, 4));
    b.draw_line((2, 4), (2, 1));
    assert_eq!(a, b);
}

#[test]
fn horizontal_line_stops_before_far_end() {
    let mut c = TextDrawingBackend::new(10, 10);
    assert!(c.draw_line((4, 2), (1, 2)));
    assert_eq!(c.get(0, 2), Some(PixelState::Empty));
    assert_eq!(c.get(1, 2), Some(PixelState::HLine));
    assert_eq!(c.get(2, 2), Some(PixelState::HLine));
    assert_eq!(c.get(3, 2), Some(PixelState::HLine));
    assert_eq!(c.get(4, 2), Some(PixelState::Empty));
}

#[test]
fn crossing_lines_make_a_cross() {
    let mut c = TextDrawingBackend::new(10, 10);
    c.draw_line((0, 5), (9, 5));
    c.draw_line((4, 0), (4, 9));
    assert_eq!(c.get(4, 5), Some(PixelState::Cross));
    assert_eq!(c.get(3, 5), Some(PixelState::HLine));
    assert_eq!(c.get(4, 4), Some(PixelState::VLine));
}

#[test]
fn single_point_line_draws_nothing() {
    let mut c = TextDrawingBackend::new(4, 4);
    assert!(c.draw_line((1, 1), (1, 1)));
    assert_eq!(c, TextDrawingBackend::new(4, 4));
}

#[test]
fn diagonal_line_is_left_to_the_rasterizer() {
    let mut c = TextDrawingBackend::new(10, 10);
    assert!(!c.draw_line((0, 0), (5, 5)));
    assert_eq!(c, TextDrawingBackend::new(10, 10));
}

#[test]
fn line_off_canvas_is_clipped() {
    let mut c = TextDrawingBackend::new(5, 5);
    assert!(c.draw_line((1, -3), (1, 100)));
    for y in 0..5 {
        assert_eq!(c.get(1, y), Some(PixelState::VLine));
    }
    let mut d = TextDrawingBackend::new(5, 5);
    assert!(d.draw_line((-1, 0), (-1, 4)));
    assert!(d.draw_line((7, 0), (7, 4)));
    assert!(d.draw_line((0, 9), (4, 9)));
    assert_eq!(d, TextDrawingBackend::new(5, 5));
}

#[test]
fn pixel_needs_opacity_and_a_cell() {
    let mut c = TextDrawingBackend::new(5, 5);
    c.draw_pixel((2, 3), false);
    assert_eq!(c.get(2, 3), Some(PixelState::Empty));
    c.draw_pixel((2, 3), true);
    assert_eq!(c.get(2, 3), Some(PixelState::Pixel));
    c.draw_pixel((-1, 3), true);
    c.draw_pixel((5, 0), true);
    let drawn = c.pixels().iter().filter(|p| **p != PixelState::Empty).count();
    assert_eq!(drawn, 1);
}

// Rows are laid out with the canvas's own width, not with a fixed row length
// of 100 cells: on a 7-wide canvas, row `y` starts at cell `7 * y`.
#[test]
fn rows_use_the_canvas_width() {
    let mut c = TextDrawingBackend::new(7, 5);
    c.draw_line((3, 1), (3, 4));
    c.draw_line((0, 2), (2, 2));
    c.draw_text("ab", HPos::Left, VPos::Top, (5, 3));
    assert_eq!(c.pixels()[7 + 3], PixelState::VLine);
    assert_eq!(c.pixels()[2 * 7 + 3], PixelState::VLine);
    assert_eq!(c.pixels()[3 * 7 + 3], PixelState::VLine);
    assert_eq!(c.pixels()[2 * 7], PixelState::HLine);
    assert_eq!(c.pixels()[2 * 7 + 1], PixelState::HLine);
    assert_eq!(c.pixels()[3 * 7 + 5], PixelState::Text('a'));
    assert_eq!(c.pixels()[3 * 7 + 6], PixelState::Text('b'));
    assert_eq!(c.render(), "       \n   |   \n-- |   \n   | ab\n       \n");
}
