//! Screen-space geometry: a point on the character grid and an inclusive
//! rectangle between two corners.

use vstd::prelude::*;

verus! {

/// A point on the screen grid or in the document, as (column, row).
#[derive(Default, Clone, Copy, Debug, PartialEq, Eq, Structural)]
pub struct Position {
    pub x: usize,
    pub y: usize,
}

impl Position {
    pub fn new(x: usize, y: usize) -> (r: Self)
        ensures
            r.x == x,
            r.y == y,
    {
        Self { x, y }
    }

    /// The top-left corner of a rectangle.
    pub fn from_rect(rect: &Rect) -> (r: Self)
        ensures
            r.x == rect.tl.x,
            r.y == rect.tl.y,
    {
        Self { x: rect.tl.x, y: rect.tl.y }
    }

    /// Whether the point lies inside `rect`, both borders included.
    pub fn in_range(&self, rect: &Rect) -> (r: bool)
        ensures
            r == (rect.tl.x <= self.x <= rect.br.x && rect.tl.y <= self.y <= rect.br.y),
    {
        self.x >= rect.tl.x && self.x <= rect.br.x && self.y >= rect.tl.y && self.y <= rect.br.y
    }
}

/// A rectangle given by its top-left and bottom-right corners, inclusive.
#[derive(Default, Clone, Copy, Debug, PartialEq, Eq, Structural)]
pub struct Rect {
    pub tl: Position,
    pub br: Position,
}

impl Rect {
    pub fn new(x1: usize, y1: usize, x2: usize, y2: usize) -> (r: Self)
        ensures
            r.tl == (Position { x: x1, y: y1 }),
            r.br == (Position { x: x2, y: y2 }),
    {
        Self { tl: Position { x: x1, y: y1 }, br: Position { x: x2, y: y2 } }
    }
}

} // verus!
