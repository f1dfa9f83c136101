//! The rendered frame: styled character cells on a fixed-size grid.  Cell
//! index `i` maps to screen position `(i % cols, i / cols)`.  Turning cells
//! into colors and escape sequences is the terminal backend's job, outside
//! the core.

use vstd::prelude::*;

verus! {

/// How a cell is displayed: ordinary text, or inverted to mark the cursor.
#[derive(Debug, Clone, Copy, PartialEq, Eq, Structural)]
pub enum Highlight {
    Text,
    Cursor,
}

/// One character cell of the screen grid.
#[derive(Debug, Clone, Copy, PartialEq, Eq, Structural)]
pub struct Cell {
    pub glyph: char,
    pub style: Highlight,
}

impl Cell {
    pub fn new(glyph: char, style: Highlight) -> (r: Self)
        ensures
            r == (Cell { glyph, style }),
    {
        Self { glyph, style }
    }
}

/// The cell an untouched part of the screen shows: a plain blank.
pub open spec fn blank_cell() -> Cell {
    Cell { glyph: ' ', style: Highlight::Text }
}

/// A screen of known size, from which blank frames are made.  The caller
/// measures the real terminal and passes the size in.
pub struct Terminal {
    size: (usize, usize),
}

impl Terminal {
    /// (columns, rows) of the screen grid.
    pub closed spec fn size_spec(self) -> (usize, usize) {
        self.size
    }

    pub fn new(cols: usize, rows: usize) -> (r: Self)
        ensures
            r.size_spec() == (cols, rows),
    {
        Terminal { size: (cols, rows) }
    }

    /// A frame of blank cells covering the whole grid.
    pub fn create_buffer(&self) -> (r: Vec<Cell>)
        requires
            self.size_spec().0 * self.size_spec().1 <= usize::MAX,
        ensures
            r@.len() == self.size_spec().0 * self.size_spec().1,
            forall|i: int| 0 <= i < r@.len() ==> r@[i] == blank_cell(),
    {
        let total = self.size.0 * self.size.1;
        let mut buf: Vec<Cell> = Vec::new();
        let mut i: usize = 0;
        while i < total
            invariant
                i <= total,
                buf@.len() == i,
                forall|j: int| 0 <= j < buf@.len() ==> buf@[j] == blank_cell(),
            decreases total - i,
        {
            buf.push(Cell::new(' ', Highlight::Text));
            i += 1;
        }
        buf
    }

    pub fn get_size(&self) -> (r: (usize, usize))
        ensures
            r == self.size_spec(),
    {
        self.size
    }
}

} // verus!
