//! The error taxonomy of the editor core.

use vstd::prelude::*;

verus! {

/// Everything that can go wrong in the editor core.  Navigation at the
/// document's edges and undo on an empty history are deliberate no-ops,
/// not errors.  `IoFailure` arises only at the filesystem boundary, so it
/// is produced by the caller that performs the I/O, never by the core.
#[derive(Debug, Clone, Copy, PartialEq, Eq, Structural)]
pub enum EditorError {
    /// An offset lies outside the valid range of the document.
    OutOfRange,
    /// A line index is not smaller than the line count.
    NoSuchLine,
    /// A save was requested while no file path was set.
    NoTarget,
    /// The filesystem refused a load or a save.
    IoFailure,
}

} // verus!
