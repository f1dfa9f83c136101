//! The size of the drawing area as one terminal backend reports it.  The
//! backend itself (raw mode, escape sequences) lives outside the core; the
//! core only carries the measured size around.

use vstd::prelude::*;

verus! {

/// Width and height of the drawing area, in character cells.
#[derive(Clone, Copy, Debug, PartialEq, Eq, Structural)]
pub struct Size {
    pub width: u16,
    pub height: u16,
}

/// Handle on one terminal's drawing area.  The caller measures the real
/// terminal and passes the size in.
pub struct Term {
    size: Size,
}

impl Term {
    pub closed spec fn size_spec(self) -> Size {
        self.size
    }

    pub fn new(width: u16, height: u16) -> (r: Self)
        ensures
            r.size_spec() == (Size { width, height }),
    {
        Term { size: Size { width, height } }
    }

    pub fn size(&self) -> (r: &Size)
        ensures
            *r == self.size_spec(),
    {
        &self.size
    }
}

} // verus!
