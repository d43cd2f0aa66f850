//! Button group — a row of controls joined into one segmented control.
//! This module holds the joining rules: which corners each child keeps
//! and which boundaries get a seam hairline.

use vstd::prelude::*;

verus! {

/// Which of a child's corners keep their radius (the rest are
/// squared).
#[derive(Clone, Copy, Debug, PartialEq, Eq, Structural)]
pub struct CornerMask {
    /// Top-left corner kept.
    pub top_left: bool,
    /// Bottom-left corner kept.
    pub bottom_left: bool,
    /// Top-right corner kept.
    pub top_right: bool,
    /// Bottom-right corner kept.
    pub bottom_right: bool,
}

/// The corner rule for a joined child: the first child keeps its
/// leading corners, the last its trailing corners, everything between
/// is squared. `None` leaves the child's corners alone: a lone child is
/// not joined to anything, and an author-set radius wins.
pub open spec fn spec_collapsed_corners(first: bool, last: bool, author_fixed: bool) -> Option<CornerMask> {
    if (first && last) || author_fixed {
        None
    } else {
        Some(CornerMask { top_left: first, bottom_left: first, top_right: last, bottom_right: last })
    }
}

/// Which corners a joined child keeps (see [`spec_collapsed_corners`]).
pub fn collapsed_corners(first: bool, last: bool, author_fixed: bool) -> (r: Option<CornerMask>)
    ensures
        r == spec_collapsed_corners(first, last, author_fixed),
{
    if first && last {
        return None;
    }
    if author_fixed {
        return None;
    }
    Some(CornerMask { top_left: first, bottom_left: first, top_right: last, bottom_right: last })
}

/// The position flags of child `i` of `count` in a joined row.
pub open spec fn position(i: int, count: int) -> (bool, bool) {
    (i == 0, i == count - 1)
}

/// The seams of a joined row. `coincides[i]` says whether child `i`'s
/// own visible edge already draws a hairline in the seam color on its
/// boundaries. Entry `i` of the result says whether the boundary
/// before child `i` gets a seam: never before the first child, and
/// elsewhere exactly when neither neighbour already draws it — a seam
/// there as well would double the line.
pub fn seam_boundaries(coincides: &[bool]) -> (r: Vec<bool>)
    ensures
        r@.len() == coincides@.len(),
        coincides@.len() > 0 ==> !r@[0],
        forall|i: int| 0 < i < coincides@.len() ==> #[trigger] r@[i] == (!coincides@[i - 1] && !coincides@[i]),
{
    let n = coincides.len();
    let mut r: Vec<bool> = Vec::new();
    let mut i: usize = 0;
    while i < n
        invariant
            i <= n,
            n == coincides@.len(),
            r@.len() == i,
            i > 0 ==> !r@[0],
            forall|k: int| 0 < k < i ==> #[trigger] r@[k] == (!coincides@[k - 1] && !coincides@[k]),
        decreases n - i,
    {
        if i == 0 {
            r.push(false);
        } else {
            r.push(!coincides[i - 1] && !coincides[i]);
        }
        i = i + 1;
    }
    r
}

/// Seam law: every interior boundary of a joined row ends up with
/// exactly one hairline — either the installed seam or a neighbour's
/// own coinciding edge, never neither and never a seam on top of one.
pub proof fn lemma_one_hairline_per_boundary(coincides: Seq<bool>, seams: Seq<bool>, i: int)
    requires
        seams.len() == coincides.len(),
        forall|k: int| 0 < k < coincides.len() ==> #[trigger] seams[k] == (!coincides[k - 1] && !coincides[k]),
        0 < i < coincides.len(),
    ensures
        seams[i] || coincides[i - 1] || coincides[i],
        seams[i] ==> !coincides[i - 1] && !coincides[i],
{
}

/// Corner law: in a joined row of two or more children without
/// author-set radii, exactly the outer corners of the row keep their
/// radius — the first child's leading pair and the last child's
/// trailing pair.
pub proof fn lemma_outer_corners_only(i: int, count: int)
    requires
        count >= 2,
        0 <= i < count,
    ensures
        spec_collapsed_corners(position(i, count).0, position(i, count).1, false) == Some(CornerMask {
            top_left: i == 0,
            bottom_left: i == 0,
            top_right: i == count - 1,
            bottom_right: i == count - 1,
        }),
{
}

} // verus!
