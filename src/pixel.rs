//! The state of one cell of the canvas and the rule that merges strokes.
use vstd::prelude::*;

verus! {

/// State of the pixel in the canvas.
#[derive(Debug, Clone, Copy, PartialEq, Eq, Hash, Structural)]
pub enum PixelState {
    /// The pixel is empty.
    Empty,
    /// The pixel is `-`.
    HLine,
    /// The pixel is `|`.
    VLine,
    /// The pixel is `+`.
    Cross,
    /// The pixel is `.`.
    Pixel,
    /// The pixel is a character.
    Text(char),
    /// The pixel is a circle, filled `@` or not `O`.
    Circle(bool),
}

/// The glyph that shows a cell state.
pub open spec fn glyph(s: PixelState) -> char {
    match s {
        PixelState::Empty => ' ',
        PixelState::HLine => '-',
        PixelState::VLine => '|',
        PixelState::Cross => '+',
        PixelState::Pixel => '.',
        PixelState::Text(c) => c,
        PixelState::Circle(filled) => if filled { '@' } else { 'O' },
    }
}

/// Whether `s` is a final state: a dot, a character or a circle.
pub open spec fn is_final(s: PixelState) -> bool {
    match s {
        PixelState::Pixel | PixelState::Text(_) | PixelState::Circle(_) => true,
        _ => false,
    }
}

/// Priority of a state that is not final: empty, then lines, then a cross.
pub open spec fn rank(s: PixelState) -> int {
    match s {
        PixelState::Empty => 0,
        PixelState::HLine | PixelState::VLine => 1,
        _ => 2,
    }
}

/// The state of a cell that held `current` after `incoming` is drawn over it.
///
/// A horizontal and a vertical line make a cross. Otherwise the newest final
/// state wins, a final state is kept against strokes, and between strokes the
/// higher priority wins, the incoming one on a tie.
pub open spec fn merge(current: PixelState, incoming: PixelState) -> PixelState {
    if (current == PixelState::HLine && incoming == PixelState::VLine) || (current
        == PixelState::VLine && incoming == PixelState::HLine) {
        PixelState::Cross
    } else if is_final(incoming) {
        incoming
    } else if is_final(current) {
        current
    } else if rank(incoming) >= rank(current) {
        incoming
    } else {
        current
    }
}

/// Drawing the same state a second time changes nothing: a redrawn stroke
/// never undoes a crossing, and a final state stays.
pub proof fn lemma_merge_idempotent(current: PixelState, incoming: PixelState)
    ensures
        merge(merge(current, incoming), incoming) == merge(current, incoming),
{
}

/// Crossing lines make a cross in either order, and a cross is kept against
/// either line drawn again.
pub proof fn lemma_lines_cross(a: PixelState, b: PixelState)
    requires
        (a == PixelState::HLine && b == PixelState::VLine) || (a == PixelState::VLine && b
            == PixelState::HLine),
    ensures
        merge(a, b) == PixelState::Cross,
        merge(b, a) == PixelState::Cross,
        merge(PixelState::Cross, a) == PixelState::Cross,
        merge(PixelState::Cross, b) == PixelState::Cross,
{
}

/// The position of a state that is not final in the order
/// empty < lines < cross.
fn stroke_rank(s: PixelState) -> (r: u8)
    requires
        !is_final(s),
    ensures
        r == rank(s),
{
    match s {
        PixelState::Empty => 0,
        PixelState::HLine | PixelState::VLine => 1,
        _ => 2,
    }
}

/// Whether `s` is a final state.
fn final_state(s: PixelState) -> (r: bool)
    ensures
        r == is_final(s),
{
    match s {
        PixelState::Pixel | PixelState::Text(_) | PixelState::Circle(_) => true,
        _ => false,
    }
}

impl PixelState {
    /// Returns the character to draw.
    pub fn to_char(self) -> (r: char)
        ensures
            r == glyph(self),
    {
        match self {
            PixelState::Empty => ' ',
            PixelState::HLine => '-',
            PixelState::VLine => '|',
            PixelState::Cross => '+',
            PixelState::Pixel => '.',
            PixelState::Text(c) => c,
            PixelState::Circle(filled) => {
                if filled {
                    '@'
                } else {
                    'O'
                }
            },
        }
    }

    /// Updates the state of the pixel with a superposition of another state.
    pub fn update(&mut self, new_state: PixelState)
        ensures
            *final(self) == merge(*old(self), new_state),
    {
        let current = *self;
        let next_state = match (current, new_state) {
            (PixelState::HLine, PixelState::VLine) => PixelState::Cross,
            (PixelState::VLine, PixelState::HLine) => PixelState::Cross,
            _ => {
                if final_state(new_state) {
                    new_state
                } else if final_state(current) {
                    current
                } else if stroke_rank(new_state) >= stroke_rank(current) {
                    new_state
                } else {
                    current
                }
            },
        };
        *self = next_state;
    }
}

} // verus!
