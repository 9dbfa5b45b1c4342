//! Line drawing: horizontal and vertical segments are stroked onto the grid;
//! any other segment is left to a general rasterizer that draws pixels.
use vstd::math::{max, min};
use vstd::prelude::*;

use crate::canvas::{
    cell_index, lemma_cell_index_bounds, lemma_cell_index_injective, TextDrawingBackend,
};
use crate::pixel::{merge, PixelState};

verus! {

/// Whether the segment from `from` to `to` is vertical or horizontal.
pub open spec fn is_axis_aligned(from: (i32, i32), to: (i32, i32)) -> bool {
    from.0 == to.0 || from.1 == to.1
}

/// The stroke that an axis-aligned segment leaves at column `x`, row `y`.
///
/// A vertical segment covers the rows from the smaller end up to, but not
/// including, the larger one; a horizontal segment does the same with columns.
pub open spec fn line_stroke(from: (i32, i32), to: (i32, i32), x: int, y: int) -> Option<
    PixelState,
> {
    if from.0 == to.0 {
        if x == from.0 && min(from.1 as int, to.1 as int) <= y < max(from.1 as int, to.1 as int) {
            Some(PixelState::VLine)
        } else {
            None
        }
    } else if from.1 == to.1 {
        if y == from.1 && min(from.0 as int, to.0 as int) <= x < max(from.0 as int, to.0 as int) {
            Some(PixelState::HLine)
        } else {
            None
        }
    } else {
        None
    }
}

/// The state of a cell that held `current` once `stroke` is drawn over it.
pub open spec fn apply_stroke(current: PixelState, stroke: Option<PixelState>) -> PixelState {
    match stroke {
        Some(s) => merge(current, s),
        None => current,
    }
}

/// `v` clamped into `[0, bound]`.
fn clamp_to(v: i32, bound: u32) -> (r: u32)
    ensures
        r <= bound,
        0 <= v <= bound ==> r == v,
        v < 0 ==> r == 0,
        v > bound ==> r == bound,
{
    if v < 0 {
        0
    } else if v as u32 > bound {
        bound
    } else {
        v as u32
    }
}

impl TextDrawingBackend {
    /// Merges `s` into the cells of column `x` from row `lo` up to, but not
    /// including, row `hi`.
    fn merge_column(&mut self, x: u32, lo: u32, hi: u32, s: PixelState)
        requires
            old(self).wf(),
            x < old(self).size_x,
            hi <= old(self).size_y,
        ensures
            final(self).wf(),
            final(self).size_x == old(self).size_x,
            final(self).size_y == old(self).size_y,
            forall|cx: int, cy: int|
                #![trigger final(self).at(cx, cy)]
                old(self).in_bounds(cx, cy) ==> final(self).at(cx, cy) == if cx == x && lo <= cy
                    < hi {
                    merge(old(self).at(cx, cy), s)
                } else {
                    old(self).at(cx, cy)
                },
    {
        let ghost start = *self;
        let mut y: u32 = lo;
        while y < hi
            invariant
                self.wf(),
                self.size_x == start.size_x,
                self.size_y == start.size_y,
                start.wf(),
                x < start.size_x,
                hi <= start.size_y,
                lo <= hi ==> lo <= y <= hi,
                lo > hi ==> y == lo,
                forall|cx: int, cy: int|
                    #![trigger self.at(cx, cy)]
                    start.in_bounds(cx, cy) ==> self.at(cx, cy) == if cx == x && lo <= cy < y {
                        merge(start.at(cx, cy), s)
                    } else {
                        start.at(cx, cy)
                    },
            decreases hi - y,
        {
            let ghost before = *self;
            self.update_state(x as usize, y as usize, s);
            assert forall|cx: int, cy: int|
                #![trigger self.at(cx, cy)]
                start.in_bounds(cx, cy) implies self.at(cx, cy) == if cx == x && lo <= cy < y
                    + 1 {
                    merge(start.at(cx, cy), s)
                } else {
                    start.at(cx, cy)
                } by {
                lemma_cell_index_bounds(start.size_x as int, start.size_y as int, cx, cy);
                lemma_cell_index_bounds(start.size_x as int, start.size_y as int, x as int, y as int);
                if cx != x || cy != y {
                    if cell_index(start.size_x as int, cx, cy) == cell_index(
                        start.size_x as int,
                        x as int,
                        y as int,
                    ) {
                        lemma_cell_index_injective(start.size_x as int, cx, cy, x as int, y as int);
                    }
                    assert(self.at(cx, cy) == before.at(cx, cy));
                }
            }
            y = y + 1;
        }
    }

    /// Merges `s` into the cells of row `y` from column `lo` up to, but not
    /// including, column `hi`.
    fn merge_row(&mut self, y: u32, lo: u32, hi: u32, s: PixelState)
        requires
            old(self).wf(),
            y < old(self).size_y,
            hi <= old(self).size_x,
        ensures
            final(self).wf(),
            final(self).size_x == old(self).size_x,
            final(self).size_y == old(self).size_y,
            forall|cx: int, cy: int|
                #![trigger final(self).at(cx, cy)]
                old(self).in_bounds(cx, cy) ==> final(self).at(cx, cy) == if cy == y && lo <= cx
                    < hi {
                    merge(old(self).at(cx, cy), s)
                } else {
                    old(self).at(cx, cy)
                },
    {
        let ghost start = *self;
        let mut x: u32 = lo;
        while x < hi
            invariant
                self.wf(),
                self.size_x == start.size_x,
                self.size_y == start.size_y,
                start.wf(),
                y < start.size_y,
                hi <= start.size_x,
                lo <= hi ==> lo <= x <= hi,
                lo > hi ==> x == lo,
                forall|cx: int, cy: int|
                    #![trigger self.at(cx, cy)]
                    start.in_bounds(cx, cy) ==> self.at(cx, cy) == if cy == y && lo <= cx < x {
                        merge(start.at(cx, cy), s)
                    } else {
                        start.at(cx, cy)
                    },
            decreases hi - x,
        {
            let ghost before = *self;
            self.update_state(x as usize, y as usize, s);
            assert forall|cx: int, cy: int|
                #![trigger self.at(cx, cy)]
                start.in_bounds(cx, cy) implies self.at(cx, cy) == if cy == y && lo <= cx < x
                    + 1 {
                    merge(start.at(cx, cy), s)
                } else {
                    start.at(cx, cy)
                } by {
                lemma_cell_index_bounds(start.size_x as int, start.size_y as int, cx, cy);
                lemma_cell_index_bounds(start.size_x as int, start.size_y as int, x as int, y as int);
                if cx != x || cy != y {
                    if cell_index(start.size_x as int, cx, cy) == cell_index(
                        start.size_x as int,
                        x as int,
                        y as int,
                    ) {
                        lemma_cell_index_injective(start.size_x as int, cx, cy, x as int, y as int);
                    }
                    assert(self.at(cx, cy) == before.at(cx, cy));
                }
            }
            x = x + 1;
        }
    }

    /// Draws a line from `from` to `to`.
    ///
    /// A vertical line merges `VLine` and a horizontal one `HLine` into the
    /// cells it covers on the canvas, and `true` is returned. Any other line
    /// leaves the canvas unchanged and returns `false`: it is for a general
    /// rasterizer, which draws it pixel by pixel.
    pub fn draw_line(&mut self, from: (i32, i32), to: (i32, i32)) -> (r: bool)
        requires
            old(self).wf(),
        ensures
            r == is_axis_aligned(from, to),
            final(self).wf(),
            final(self).size_x == old(self).size_x,
            final(self).size_y == old(self).size_y,
            forall|x: int, y: int|
                #![trigger final(self).at(x, y)]
                old(self).in_bounds(x, y) ==> final(self).at(x, y) == apply_stroke(
                    old(self).at(x, y),
                    line_stroke(from, to, x, y),
                ),
    {
        if from.0 == to.0 {
            let x = from.0;
            if x >= 0 && (x as u32) < self.size_x {
                let lo = clamp_to(if from.1 < to.1 { from.1 } else { to.1 }, self.size_y);
                let hi = clamp_to(if from.1 < to.1 { to.1 } else { from.1 }, self.size_y);
                self.merge_column(x as u32, lo, hi, PixelState::VLine);
            }
            return true;
        }
        if from.1 == to.1 {
            let y = from.1;
            if y >= 0 && (y as u32) < self.size_y {
                let lo = clamp_to(if from.0 < to.0 { from.0 } else { to.0 }, self.size_x);
                let hi = clamp_to(if from.0 < to.0 { to.0 } else { from.0 }, self.size_x);
                self.merge_row(y as u32, lo, hi, PixelState::HLine);
            }
            return true;
        }
        false
    }

    /// Draws a single pixel at `pos` when `opaque` holds: `Pixel` is merged
    /// into that cell if it lies on the canvas. A position off the canvas, or
    /// a color too faint to show, leaves the canvas unchanged.
    pub fn draw_pixel(&mut self, pos: (i32, i32), opaque: bool)
        requires
            old(self).wf(),
        ensures
            final(self).wf(),
            final(self).size_x == old(self).size_x,
            final(self).size_y == old(self).size_y,
            opaque && old(self).in_bounds(pos.0 as int, pos.1 as int) ==> final(self).pixels@
                == old(self).pixels@.update(
                cell_index(old(self).size_x as int, pos.0 as int, pos.1 as int),
                merge(old(self).at(pos.0 as int, pos.1 as int), PixelState::Pixel),
            ),
            !(opaque && old(self).in_bounds(pos.0 as int, pos.1 as int)) ==> final(self).pixels@
                == old(self).pixels@,
    {
        if opaque && pos.0 >= 0 && pos.1 >= 0 {
            self.update_state(pos.0 as usize, pos.1 as usize, PixelState::Pixel);
        }
    }
}

} // verus!
