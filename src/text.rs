//! Text placement: measuring a label, anchoring it at a point and merging its
//! characters into consecutive cells of the grid.
use vstd::math::max;
use vstd::prelude::*;

use crate::canvas::TextDrawingBackend;
use crate::pixel::{merge, PixelState};

verus! {

/// Where the anchor point lies across a label.
#[derive(Debug, Clone, Copy, PartialEq, Eq, Hash, Structural)]
pub enum HPos {
    /// The anchor point is on the left side of the text.
    Left,
    /// The anchor point is on the right side of the text.
    Right,
    /// The anchor point is in the horizontal center of the text.
    Center,
}

/// Where the anchor point lies along the height of a label.
#[derive(Debug, Clone, Copy, PartialEq, Eq, Hash, Structural)]
pub enum VPos {
    /// The anchor point is on the top of the text.
    Top,
    /// The anchor point is in the vertical center of the text.
    Center,
    /// The anchor point is on the bottom of the text.
    Bottom,
}

/// Horizontal shift from the anchor point to the label's first column.
pub open spec fn anchor_dx(h: HPos, width: int) -> int {
    match h {
        HPos::Left => 0,
        HPos::Right => -width,
        HPos::Center => -(width / 2),
    }
}

/// Vertical shift from the anchor point to the label's row.
pub open spec fn anchor_dy(v: VPos, height: int) -> int {
    match v {
        VPos::Top => 0,
        VPos::Center => -(height / 2),
        VPos::Bottom => -height,
    }
}

/// Column and row at which a label of the given extent, anchored at `pos`,
/// starts; a negative coordinate is raised to zero.
pub open spec fn origin_of(width: int, height: int, h: HPos, v: VPos, pos: (i32, i32)) -> (
    int,
    int,
) {
    (max(0, pos.0 + anchor_dx(h, width)), max(0, pos.1 + anchor_dy(v, height)))
}

/// A label anchored by its right and bottom edges at a point far enough from
/// the top left corner starts `n` columns left of that point, on the row above
/// it, `n` being its number of characters; its characters then go to
/// consecutive cells from there.
pub proof fn lemma_right_bottom_origin(
    cells: Seq<PixelState>,
    w: int,
    text: Seq<char>,
    pos: (i32, i32),
)
    requires
        pos.0 >= text.len(),
        pos.1 >= 1,
    ensures
        origin_of(text.len() as int, 1, HPos::Right, VPos::Bottom, pos) == (
            pos.0 - text.len(),
            pos.1 - 1,
        ),
        text_drawn(cells, w, text, HPos::Right, VPos::Bottom, pos) == place_text(
            cells,
            (pos.1 - 1) * w + pos.0 - text.len(),
            text,
        ),
{
}

/// The cells `cells` once the characters of `text` are merged, one by one, into
/// consecutive positions starting at `start`; positions past the end are dropped.
pub open spec fn place_text(cells: Seq<PixelState>, start: int, text: Seq<char>) -> Seq<
    PixelState,
> {
    Seq::new(cells.len(), |i: int| placed_cell(cells, start, text, i))
}

/// Cell `i` of `cells` once the characters of `text` are merged into
/// consecutive positions starting at `start`.
pub open spec fn placed_cell(cells: Seq<PixelState>, start: int, text: Seq<char>, i: int) -> PixelState {
    if start <= i < start + text.len() {
        merge(cells[i], PixelState::Text(text[i - start]))
    } else {
        cells[i]
    }
}

/// The label `text` drawn with anchor `(h, v)` at `pos` onto `cells`, a grid
/// of width `w`: it starts at the anchored origin and takes one cell per
/// character, one line high.
pub open spec fn text_drawn(
    cells: Seq<PixelState>,
    w: int,
    text: Seq<char>,
    h: HPos,
    v: VPos,
    pos: (i32, i32),
) -> Seq<PixelState> {
    let o = origin_of(text.len() as int, 1, h, v, pos);
    place_text(cells, o.1 * w + o.0, text)
}

/// Width and height that `text` takes on the canvas: one cell per
/// character, on one line.
pub fn estimate_text_size(text: &str) -> (r: (u32, u32))
    requires
        text@.len() <= u32::MAX,
    ensures
        r.0 == text@.len(),
        r.1 == 1,
{
    (text.unicode_len() as u32, 1)
}

/// First column and row of a label of `width` by `height` cells, anchored at
/// `pos` by `(h, v)`; a negative coordinate is raised to zero.
pub fn text_origin(width: u32, height: u32, h: HPos, v: VPos, pos: (i32, i32)) -> (r: (u32, u32))
    ensures
        r.0 == origin_of(width as int, height as int, h, v, pos).0,
        r.1 == origin_of(width as int, height as int, h, v, pos).1,
{
    let dx: i64 = match h {
        HPos::Left => 0,
        HPos::Right => -(width as i64),
        HPos::Center => -((width / 2) as i64),
    };
    let dy: i64 = match v {
        VPos::Top => 0,
        VPos::Center => -((height / 2) as i64),
        VPos::Bottom => -(height as i64),
    };
    let x: i64 = pos.0 as i64 + dx;
    let y: i64 = pos.1 as i64 + dy;
    let ox: u32 = if x < 0 { 0 } else { x as u32 };
    let oy: u32 = if y < 0 { 0 } else { y as u32 };
    (ox, oy)
}

impl TextDrawingBackend {
    /// Draws `text` anchored at `pos` by `(h, v)`.
    ///
    /// The characters are merged as `Text` states into consecutive cells of
    /// the row-major grid, starting at the anchored origin; a long label runs
    /// on into the next row, and characters past the last cell are dropped.
    pub fn draw_text(&mut self, text: &str, h: HPos, v: VPos, pos: (i32, i32))
        requires
            old(self).wf(),
            text@.len() <= u32::MAX,
        ensures
            final(self).wf(),
            final(self).size_x == old(self).size_x,
            final(self).size_y == old(self).size_y,
            final(self).pixels@ == text_drawn(
                old(self).pixels@,
                old(self).size_x as int,
                text@,
                h,
                v,
                pos,
            ),
    {
        let ghost start = self.pixels@;
        let ghost w = self.size_x;
        let ghost hgt = self.size_y;
        let (width, height) = estimate_text_size(text);
        let (ox, oy) = text_origin(width, height, h, v, pos);
        assert(oy as u64 * self.size_x as u64 <= 0x7fff_ffff * 0xffff_ffff) by (nonlinear_arith)
            requires
                oy <= 0x7fff_ffff,
        ;
        let offset: u64 = oy as u64 * self.size_x as u64 + ox as u64;
        let len: usize = self.pixels.len();
        let n: usize = text.unicode_len();
        let mut i: usize = 0;
        while i < n
            invariant
                n == text@.len(),
                n <= u32::MAX,
                i <= n,
                len == self.pixels@.len(),
                len == start.len(),
                self.size_x == w,
                self.size_y == hgt,
                offset == oy * self.size_x + ox,
                offset <= 0x7fff_ffff * 0xffff_ffff + 0x7fff_ffff,
                self.pixels@ == place_text(start, offset as int, text@.subrange(0, i as int)),
            decreases n - i,
        {
            let ghost prev = self.pixels@;
            let index: u64 = offset + i as u64;
            if index < len as u64 {
                let c = text.get_char(i);
                let mut cell = self.pixels[index as usize];
                cell.update(PixelState::Text(c));
                self.pixels.set(index as usize, cell);
                assert(text@.subrange(0, i + 1)[i as int] == c);
            }
            i = i + 1;
            let ghost done = place_text(start, offset as int, text@.subrange(0, i as int));
            assert forall|j: int| 0 <= j < len implies #[trigger] self.pixels@[j] == done[j] by {
                if j != offset + i - 1 {
                    assert(self.pixels@[j] == prev[j]);
                    if offset <= j < offset + i - 1 {
                        assert(text@.subrange(0, i as int)[j - offset] == text@.subrange(
                            0,
                            i - 1,
                        )[j - offset]);
                    }
                }
            }
            assert(self.pixels@ =~= done);
        }
        assert(text@.subrange(0, n as int) =~= text@);
    }
}

} // verus!
