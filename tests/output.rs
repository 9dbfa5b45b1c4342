use plotter_backend_text::{HPos, PixelState, TextDrawingBackend, VPos};

#[test]
fn fresh_canvas_presents_blank_lines() {
    let c = TextDrawingBackend::new(4, 2);
    assert_eq!(c.render(), "    \n    \n");
}

#[test]
fn presenting_twice_gives_the_same_text() {
    let mut c = TextDrawingBackend::new(6, 3);
    c.draw_line((0, 1), (6, 1));
    c.draw_text("ok", HPos::Left, VPos::Top, (2, 0));
    let first = c.render();
    let second = c.render();
    assert_eq!(first, second);
}

#[test]
fn presented_text_shows_each_glyph() {
    let mut c = TextDrawingBackend::new(5, 3);
    c.draw_line((0, 1), (5, 1));
    c.draw_line((2, 0), (2, 3));
    c.draw_pixel((0, 0), true);
    c.set_state(4, 0, PixelState::Circle(true));
    c.set_state(4, 2, PixelState::Circle(false));
    c.draw_text("hi", HPos::Left, VPos::Top, (0, 2));
    assert_eq!(c.render(), ". | @\n--+--\nhi| O\n");
}
