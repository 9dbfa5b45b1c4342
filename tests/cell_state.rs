use plotter_backend_text::PixelState;

fn merged(a: PixelState, b: PixelState) -> PixelState {
    let mut s = a;
    s.update(b);
    s
}

#[test]
fn lines_merge_into_cross_in_either_order() {
    assert_eq!(merged(PixelState::HLine, PixelState::VLine), PixelState::Cross);
    assert_eq!(merged(PixelState::VLine, PixelState::HLine), PixelState::Cross);
}

#[test]
fn same_line_stays() {
    assert_eq!(merged(PixelState::HLine, PixelState::HLine), PixelState::HLine);
    assert_eq!(merged(PixelState::VLine, PixelState::VLine), PixelState::VLine);
}

#[test]
fn newest_final_state_wins() {
    assert_eq!(merged(PixelState::Cross, PixelState::Circle(true)), PixelState::Circle(true));
    assert_eq!(merged(PixelState::Circle(false), PixelState::Pixel), PixelState::Pixel);
    assert_eq!(merged(PixelState::Circle(false), PixelState::Text('a')), PixelState::Text('a'));
    assert_eq!(merged(PixelState::Circle(false), PixelState::Circle(true)), PixelState::Circle(true));
    assert_eq!(merged(PixelState::Text('a'), PixelState::Circle(false)), PixelState::Circle(false));
    assert_eq!(merged(PixelState::Pixel, PixelState::Text('z')), PixelState::Text('z'));
    assert_eq!(merged(PixelState::Text('z'), PixelState::Pixel), PixelState::Pixel);
    assert_eq!(merged(PixelState::Text('a'), PixelState::Text('b')), PixelState::Text('b'));
    assert_eq!(merged(PixelState::HLine, PixelState::Pixel), PixelState::Pixel);
}

#[test]
fn final_states_are_kept_against_strokes() {
    assert_eq!(merged(PixelState::Pixel, PixelState::VLine), PixelState::Pixel);
    assert_eq!(merged(PixelState::Text('a'), PixelState::HLine), PixelState::Text('a'));
    assert_eq!(merged(PixelState::Circle(true), PixelState::Cross), PixelState::Circle(true));
    assert_eq!(merged(PixelState::Text('a'), PixelState::Empty), PixelState::Text('a'));
}

#[test]
fn higher_stroke_wins() {
    assert_eq!(merged(PixelState::Empty, PixelState::HLine), PixelState::HLine);
    assert_eq!(merged(PixelState::HLine, PixelState::Empty), PixelState::HLine);
    assert_eq!(merged(PixelState::Cross, PixelState::Empty), PixelState::Cross);
    assert_eq!(merged(PixelState::Cross, PixelState::VLine), PixelState::Cross);
    assert_eq!(merged(PixelState::Cross, PixelState::HLine), PixelState::Cross);
    assert_eq!(merged(PixelState::VLine, PixelState::Cross), PixelState::Cross);
}

#[test]
fn redrawing_a_stroke_keeps_the_crossing() {
    let once = merged(PixelState::HLine, PixelState::VLine);
    assert_eq!(merged(once, PixelState::VLine), once);
    assert_eq!(merged(once, PixelState::HLine), once);
}

#[test]
fn every_state_has_its_glyph() {
    assert_eq!(PixelState::Empty.to_char(), ' ');
    assert_eq!(PixelState::HLine.to_char(), '-');
    assert_eq!(PixelState::VLine.to_char(), '|');
    assert_eq!(PixelState::Cross.to_char(), '+');
    assert_eq!(PixelState::Pixel.to_char(), '.');
    assert_eq!(PixelState::Text('q').to_char(), 'q');
    assert_eq!(PixelState::Circle(true).to_char(), '@');
    assert_eq!(PixelState::Circle(false).to_char(), 'O');
}
