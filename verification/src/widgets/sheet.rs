//! Sheet — a blocking, edge-attached modal.

use vstd::prelude::*;

verus! {

/// Which viewport edge a sheet attaches to. Left/Right sheets are
/// fixed-width and full-height; Top/Bottom sheets are full-width and
/// hug their content.
#[derive(Clone, Copy, Debug, PartialEq, Eq)]
#[non_exhaustive]
pub enum SheetSide {
    /// Slide in from the left edge.
    Left,
    /// Slide in from the right edge.
    Right,
    /// Slide in from the top edge.
    Top,
    /// Slide in from the bottom edge.
    Bottom,
}

} // verus!
