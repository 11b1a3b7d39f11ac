//! The frame buffer: a fixed-size grid of single-character cells, and the
//! `Drawable` capability that entities use to paint themselves into it.

use vstd::prelude::*;
use crate::NUM_COLS;
use crate::NUM_ROWS;

verus! {

/// The character an empty cell shows.
pub const BLANK: char = ' ';

/// One rendered moment: a fixed `NUM_ROWS x NUM_COLS` grid of
/// single-character cells, stored row-major in a flat vector.
pub struct Frame {
    pub cells: Vec<char>,
}

impl Frame {
    /// Flat row-major index of the cell at column `x`, row `y`.
    pub open spec fn spec_index_of(x: int, y: int) -> int {
        y * (NUM_COLS as int) + x
    }

    /// The grid holds exactly `NUM_ROWS * NUM_COLS` cells.
    pub open spec fn wf(self) -> bool {
        self.cells@.len() == NUM_ROWS * NUM_COLS
    }

    /// The character shown at column `x`, row `y`.
    pub open spec fn at(self, x: int, y: int) -> char {
        self.cells@[Self::spec_index_of(x, y)]
    }

    /// Read the cell at column `x`, row `y`.
    pub fn get(&self, x: usize, y: usize) -> (c: char)
        requires
            self.wf(),
            x < NUM_COLS,
            y < NUM_ROWS,
        ensures
            c == self.at(x as int, y as int),
    {
        self.cells[y * NUM_COLS + x]
    }

    /// Write `c` into the cell at column `x`, row `y`; every other cell keeps
    /// its character.
    pub fn set(&mut self, x: usize, y: usize, c: char)
        requires
            old(self).wf(),
            x < NUM_COLS,
            y < NUM_ROWS,
        ensures
            final(self).wf(),
            final(self).at(x as int, y as int) == c,
            forall|i: int, j: int|
                0 <= i < NUM_COLS && 0 <= j < NUM_ROWS && !(i == x && j == y)
                    ==> final(self).at(i, j) == old(self).at(i, j),
    {
        self.cells.set(y * NUM_COLS + x, c);
    }
}

/// A blank frame: every cell shows `BLANK`.
pub fn new_frame() -> (f: Frame)
    ensures
        f.wf(),
        forall|x: int, y: int|
            0 <= x < NUM_COLS && 0 <= y < NUM_ROWS ==> f.at(x, y) == BLANK,
{
    let mut cells: Vec<char> = Vec::new();
    let mut i: usize = 0;
    while i < NUM_ROWS * NUM_COLS
        invariant
            i <= NUM_ROWS * NUM_COLS,
            cells@.len() == i,
            forall|k: int| 0 <= k < i ==> cells@[k] == BLANK,
        decreases NUM_ROWS * NUM_COLS - i,
    {
        cells.push(' ');
        i = i + 1;
    }
    Frame { cells }
}

/// Write `text` horizontally, starting at column `x` of row `y`; cells outside
/// the written span keep their characters.
pub fn draw_text(frame: &mut Frame, x: usize, y: usize, text: &str)
    requires
        old(frame).wf(),
        x + text@.len() <= NUM_COLS,
        y < NUM_ROWS,
    ensures
        final(frame).wf(),
        forall|i: int|
            0 <= i < text@.len() ==> final(frame).at(x + i, y as int) == text@[i],
        forall|i: int, j: int|
            0 <= i < NUM_COLS && 0 <= j < NUM_ROWS
                && !(j == y && x <= i < x + text@.len())
                ==> final(frame).at(i, j) == old(frame).at(i, j),
{
    let n = text.unicode_len();
    let mut k: usize = 0;
    while k < n
        invariant
            n == text@.len(),
            k <= n,
            x + n <= NUM_COLS,
            y < NUM_ROWS,
            frame.wf(),
            forall|i: int| 0 <= i < k ==> frame.at(x + i, y as int) == text@[i],
            forall|i: int, j: int|
                0 <= i < NUM_COLS && 0 <= j < NUM_ROWS
                    && !(j == y && x <= i < x + n)
                    ==> frame.at(i, j) == old(frame).at(i, j),
        decreases n - k,
    {
        let c = text.get_char(k);
        frame.set(x + k, y, c);
        k = k + 1;
    }
}

/// The capability every on-screen entity has: paint itself into a frame,
/// touching only in-bounds cells.
pub trait Drawable {
    /// What must hold of the entity for its paint targets to be in bounds.
    spec fn well_formed(&self) -> bool;

    fn draw(&self, frame: &mut Frame)
        requires
            old(frame).wf(),
            self.well_formed(),
        ensures
            final(frame).wf();
}

} // verus!
