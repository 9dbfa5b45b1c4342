//! The canvas: a fixed-size, row-major grid of cell states.
use vstd::prelude::*;

use crate::pixel::{merge, PixelState};

verus! {

/// Text Drawing Backend: a `size_x` by `size_y` grid of cells, stored row by row.
#[derive(Debug, Clone, Hash, PartialEq, Eq)]
pub struct TextDrawingBackend {
    /// Width of the canvas.
    pub size_x: u32,
    /// Height of the canvas.
    pub size_y: u32,
    /// Pixels of the canvas, row by row.
    pub pixels: Vec<PixelState>,
}

/// Position in the row-major grid of width `w` of the cell at column `x`, row `y`.
pub open spec fn cell_index(w: int, x: int, y: int) -> int {
    y * w + x
}

/// Distinct cells of a grid sit at distinct positions.
pub proof fn lemma_cell_index_injective(w: int, x1: int, y1: int, x2: int, y2: int)
    requires
        0 <= x1 < w,
        0 <= x2 < w,
        0 <= y1,
        0 <= y2,
        cell_index(w, x1, y1) == cell_index(w, x2, y2),
    ensures
        x1 == x2,
        y1 == y2,
{
    if y1 < y2 {
        assert(y1 * w + w <= y2 * w) by (nonlinear_arith)
            requires
                y1 < y2,
                0 < w,
        ;
    } else if y2 < y1 {
        assert(y2 * w + w <= y1 * w) by (nonlinear_arith)
            requires
                y2 < y1,
                0 < w,
        ;
    }
}

/// A cell of a grid of width `w` and height `h` lies inside the grid.
pub proof fn lemma_cell_index_bounds(w: int, h: int, x: int, y: int)
    requires
        0 <= x < w,
        0 <= y < h,
    ensures
        0 <= cell_index(w, x, y) < w * h,
{
    assert(0 <= y * w + x < w * h) by (nonlinear_arith)
        requires
            0 <= x < w,
            0 <= y < h,
    ;
}

#[verifier::external_type_specification]
#[verifier::external_body]
#[verifier::reject_recursive_types(T)]
pub struct ExIterMut<'a, T: 'a>(std::slice::IterMut<'a, T>);

/// The cells that a mutable iterator over cells hands out, in order.
pub uninterp spec fn iter_mut_items(i: std::slice::IterMut<'_, PixelState>) -> Seq<PixelState>;

/// Relies on `<[T]>::iter_mut`: an iterator that hands out each cell once,
/// in order, to be changed in place; through a slice the vector keeps its length.
#[verifier::external_body]
fn pixels_iter_mut(v: &mut Vec<PixelState>) -> (r: std::slice::IterMut<'_, PixelState>)
    ensures
        iter_mut_items(r) == old(v)@,
        final(v)@.len() == old(v)@.len(),
{
    v.iter_mut()
}

impl Default for TextDrawingBackend {
    /// A canvas of 100 columns and 30 rows, every cell empty.
    fn default() -> (r: Self)
        ensures
            r.size_x == 100,
            r.size_y == 30,
            r.wf(),
            forall|i: int| 0 <= i < r.pixels@.len() ==> r.pixels@[i] == PixelState::Empty,
    {
        TextDrawingBackend::new(100, 30)
    }
}

impl TextDrawingBackend {
    /// The grid holds exactly one cell for each column and row.
    pub open spec fn wf(&self) -> bool {
        self.pixels@.len() == self.size_x * self.size_y
    }

    /// Whether the column `x`, row `y` lies on the canvas.
    pub open spec fn in_bounds(&self, x: int, y: int) -> bool {
        0 <= x < self.size_x && 0 <= y < self.size_y
    }

    /// The state of the cell at column `x`, row `y`.
    pub open spec fn at(&self, x: int, y: int) -> PixelState {
        self.pixels@[cell_index(self.size_x as int, x, y)]
    }

    /// Creates a new `TextDrawingBackend` with the given size, every cell empty.
    pub fn new(size_x: u32, size_y: u32) -> (r: Self)
        requires
            size_x * size_y <= u32::MAX,
        ensures
            r.size_x == size_x,
            r.size_y == size_y,
            r.wf(),
            forall|i: int| 0 <= i < r.pixels@.len() ==> r.pixels@[i] == PixelState::Empty,
    {
        let n: u32 = size_x * size_y;
        let pixels = vec![PixelState::Empty; n as usize];
        TextDrawingBackend { size_x, size_y, pixels }
    }

    /// Getter on the pixels.
    pub fn pixels(&self) -> (r: &[PixelState])
        ensures
            r@ == self.pixels@,
    {
        self.pixels.as_slice()
    }

    /// Iterate over the pixels of the canvas, row by row.
    pub fn iter(&self) -> (r: std::slice::Iter<'_, PixelState>)
        ensures
            vstd::std_specs::slice::into_iter_elts(r) == self.pixels@,
    {
        self.pixels.as_slice().iter()
    }

    /// Iterate over the pixels of the canvas, row by row, to change them.
    pub fn iter_mut(&mut self) -> (r: std::slice::IterMut<'_, PixelState>)
        ensures
            final(self).size_x == old(self).size_x,
            final(self).size_y == old(self).size_y,
            final(self).pixels@.len() == old(self).pixels@.len(),
            iter_mut_items(r) == old(self).pixels@,
    {
        pixels_iter_mut(&mut self.pixels)
    }

    /// Getter on the width of the canvas.
    pub fn size_x(&self) -> (r: u32)
        ensures
            r == self.size_x,
    {
        self.size_x
    }

    /// Getter on the height of the canvas.
    pub fn size_y(&self) -> (r: u32)
        ensures
            r == self.size_y,
    {
        self.size_y
    }

    /// The width and height of the canvas.
    pub fn get_size(&self) -> (r: (u32, u32))
        ensures
            r == (self.size_x, self.size_y),
    {
        (self.size_x, self.size_y)
    }

    /// Position in `pixels` of the cell at the given column and row, or `None`
    /// off the canvas.
    fn position(&self, pos_x: usize, pos_y: usize) -> (r: Option<usize>)
        requires
            self.wf(),
        ensures
            self.in_bounds(pos_x as int, pos_y as int) ==> r is Some && r->0 == cell_index(
                self.size_x as int,
                pos_x as int,
                pos_y as int,
            ) && r->0 < self.pixels@.len(),
            !self.in_bounds(pos_x as int, pos_y as int) ==> r is None,
    {
        if pos_x < self.size_x as usize && pos_y < self.size_y as usize {
            proof {
                assert(self.pixels@.len() == self.pixels.len());
                lemma_cell_index_bounds(self.size_x as int, self.size_y as int, pos_x as int, pos_y as int);
            }
            Some(pos_y * self.size_x as usize + pos_x)
        } else {
            None
        }
    }

    /// The state of the cell at the given position, or `None` off the canvas.
    pub fn get(&self, pos_x: usize, pos_y: usize) -> (r: Option<PixelState>)
        requires
            self.wf(),
        ensures
            self.in_bounds(pos_x as int, pos_y as int) ==> r == Some(self.at(pos_x as int, pos_y as int)),
            !self.in_bounds(pos_x as int, pos_y as int) ==> r is None,
    {
        match self.position(pos_x, pos_y) {
            Some(index) => Some(self.pixels[index]),
            None => None,
        }
    }

    /// Set the pixel at the given position to the given state; a position off
    /// the canvas leaves it unchanged.
    pub fn set_state(&mut self, pos_x: usize, pos_y: usize, p: PixelState)
        requires
            old(self).wf(),
        ensures
            final(self).wf(),
            final(self).size_x == old(self).size_x,
            final(self).size_y == old(self).size_y,
            old(self).in_bounds(pos_x as int, pos_y as int) ==> final(self).pixels@
                == old(self).pixels@.update(
                cell_index(old(self).size_x as int, pos_x as int, pos_y as int),
                p,
            ),
            !old(self).in_bounds(pos_x as int, pos_y as int) ==> final(self).pixels@
                == old(self).pixels@,
    {
        if let Some(index) = self.position(pos_x, pos_y) {
            self.pixels.set(index, p);
        }
    }

    /// Update the pixel at the given position by merging the given state into
    /// it; a position off the canvas leaves it unchanged.
    pub fn update_state(&mut self, pos_x: usize, pos_y: usize, p: PixelState)
        requires
            old(self).wf(),
        ensures
            final(self).wf(),
            final(self).size_x == old(self).size_x,
            final(self).size_y == old(self).size_y,
            old(self).in_bounds(pos_x as int, pos_y as int) ==> final(self).pixels@
                == old(self).pixels@.update(
                cell_index(old(self).size_x as int, pos_x as int, pos_y as int),
                merge(old(self).at(pos_x as int, pos_y as int), p),
            ),
            !old(self).in_bounds(pos_x as int, pos_y as int) ==> final(self).pixels@
                == old(self).pixels@,
    {
        if let Some(index) = self.position(pos_x, pos_y) {
            let mut cell = self.pixels[index];
            cell.update(p);
            self.pixels.set(index, cell);
        }
    }
}

} // verus!
