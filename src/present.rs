//! Presenting the canvas: its rows as lines of glyphs.
use vstd::prelude::*;

use crate::canvas::{lemma_cell_index_bounds, TextDrawingBackend};
use crate::pixel::{glyph, PixelState};

verus! {

/// The glyphs of row `row` of `cells`, a grid of width `w`.
pub open spec fn row_text(cells: Seq<PixelState>, w: nat, row: int) -> Seq<char> {
    Seq::new(w, |c: int| glyph(cells[row * w + c]))
}

/// The first `rows` rows of `cells`, a grid of width `w`, each as a line of
/// glyphs ended by a newline.
pub open spec fn rows_text(cells: Seq<PixelState>, w: nat, rows: nat) -> Seq<char>
    decreases rows,
{
    if rows == 0 {
        Seq::empty()
    } else {
        rows_text(cells, w, (rows - 1) as nat) + row_text(cells, w, rows - 1) + seq!['\n']
    }
}

/// The text that presenting the canvas `c` gives.
pub open spec fn presented(c: TextDrawingBackend) -> Seq<char> {
    rows_text(c.pixels@, c.size_x as nat, c.size_y as nat)
}

/// Presenting reads the canvas alone: two canvases of the same size holding
/// the same cells present the same text, so presenting twice with nothing
/// drawn in between gives the same output both times.
pub proof fn lemma_present_repeatable(a: TextDrawingBackend, b: TextDrawingBackend)
    requires
        a.size_x == b.size_x,
        a.size_y == b.size_y,
        a.pixels@ == b.pixels@,
    ensures
        presented(a) == presented(b),
{
}

/// Relies on `String::push`: the character is appended at the end.
#[verifier::external_body]
fn push_char(s: &mut String, c: char)
    ensures
        final(s)@ == old(s)@.push(c),
{
    s.push(c);
}

impl TextDrawingBackend {
    /// The text that presents the canvas: `size_y` lines, each of the
    /// `size_x` glyphs of one row from left to right and a newline.
    pub fn render(&self) -> (r: String)
        requires
            self.wf(),
        ensures
            r@ == presented(*self),
    {
        let w: u32 = self.size_x;
        let h: u32 = self.size_y;
        let ghost cells = self.pixels@;
        let mut buf = String::new();
        let mut row: u32 = 0;
        while row < h
            invariant
                self.wf(),
                w == self.size_x,
                h == self.size_y,
                cells == self.pixels@,
                row <= h,
                buf@ == rows_text(cells, w as nat, row as nat),
            decreases h - row,
        {
            let mut col: u32 = 0;
            while col < w
                invariant
                    self.wf(),
                    w == self.size_x,
                    h == self.size_y,
                    cells == self.pixels@,
                    row < h,
                    col <= w,
                    buf@ == rows_text(cells, w as nat, row as nat) + row_text(
                        cells,
                        w as nat,
                        row as int,
                    ).subrange(0, col as int),
                decreases w - col,
            {
                proof {
                    assert(self.pixels@.len() == self.pixels.len());
                    lemma_cell_index_bounds(w as int, h as int, col as int, row as int);
                }
                let index: usize = row as usize * w as usize + col as usize;
                let c = self.pixels[index].to_char();
                push_char(&mut buf, c);
                col = col + 1;
                assert(buf@ =~= rows_text(cells, w as nat, row as nat) + row_text(
                    cells,
                    w as nat,
                    row as int,
                ).subrange(0, col as int));
            }
            push_char(&mut buf, '\n');
            assert(row_text(cells, w as nat, row as int).subrange(0, w as int) =~= row_text(
                cells,
                w as nat,
                row as int,
            ));
            row = row + 1;
        }
        buf
    }
}

} // verus!
