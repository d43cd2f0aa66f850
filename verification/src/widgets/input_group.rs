//! Input group — a row that is the field, with addon / text cells as
//! leading and trailing furniture around the inner input.
//!
//! Leading versus trailing is positional: cells before the first input
//! take their inset on the outer (left) side, cells after the last
//! input on the outer (right) side; the inner input's own padding is
//! the spacing between a cell and the text. A row with no input at all
//! insets every cell on both sides.

use vstd::prelude::*;

verus! {

/// No child in positions `a..b` is an input.
pub open spec fn no_input_in(controls: Seq<bool>, a: int, b: int) -> bool {
    forall|j: int| a <= j < b && 0 <= j < controls.len() ==> !#[trigger] controls[j]
}

/// Which outer sides of a cell get the group's inset.
#[derive(Clone, Copy, Debug, PartialEq, Eq, Structural)]
pub struct CellInset {
    /// Inset on the left: no input precedes the cell.
    pub left: bool,
    /// Inset on the right: no input follows the cell.
    pub right: bool,
}

/// The position of the first input, if any (`position`).
fn first_input(controls: &[bool]) -> (r: Option<usize>)
    ensures
        match r {
            None => no_input_in(controls@, 0, controls@.len() as int),
            Some(k) => k < controls@.len() && controls@[k as int] && no_input_in(controls@, 0, k as int),
        },
{
    let n = controls.len();
    let mut i: usize = 0;
    while i < n
        invariant
            i <= n,
            n == controls@.len(),
            no_input_in(controls@, 0, i as int),
        decreases n - i,
    {
        if controls[i] {
            return Some(i);
        }
        i = i + 1;
    }
    None
}

/// The position of the last input, if any (`rposition`).
fn last_input(controls: &[bool]) -> (r: Option<usize>)
    ensures
        match r {
            None => no_input_in(controls@, 0, controls@.len() as int),
            Some(k) => k < controls@.len() && controls@[k as int] && no_input_in(
                controls@,
                k + 1,
                controls@.len() as int,
            ),
        },
{
    let n = controls.len();
    let mut i: usize = n;
    while i > 0
        invariant
            i <= n,
            n == controls@.len(),
            no_input_in(controls@, i as int, n as int),
        decreases i,
    {
        if controls[i - 1] {
            return Some(i - 1);
        }
        i = i - 1;
    }
    None
}

/// The positional insets of a group's children, given which children
/// are inputs (`controls[i]`): child `i` is inset on the left when no
/// input comes at or before it, and on the right when no input comes
/// at or after it.
pub fn cell_insets(controls: &[bool]) -> (r: Vec<CellInset>)
    ensures
        r@.len() == controls@.len(),
        forall|i: int| 0 <= i < r@.len() ==> (#[trigger] r@[i]).left == no_input_in(controls@, 0, i + 1)
            && r@[i].right == no_input_in(controls@, i, controls@.len() as int),
{
    let first = first_input(controls);
    let last = last_input(controls);
    let n = controls.len();
    let mut r: Vec<CellInset> = Vec::new();
    let mut i: usize = 0;
    while i < n
        invariant
            i <= n,
            n == controls@.len(),
            r@.len() == i,
            match first {
                None => no_input_in(controls@, 0, n as int),
                Some(k) => k < n && controls@[k as int] && no_input_in(controls@, 0, k as int),
            },
            match last {
                None => no_input_in(controls@, 0, n as int),
                Some(k) => k < n && controls@[k as int] && no_input_in(controls@, k + 1, n as int),
            },
            forall|j: int| 0 <= j < i ==> (#[trigger] r@[j]).left == no_input_in(controls@, 0, j + 1)
                && r@[j].right == no_input_in(controls@, j, n as int),
        decreases n - i,
    {
        let leading = match first {
            None => true,
            Some(fc) => i < fc,
        };
        let trailing = match last {
            Some(lc) => i > lc,
            None => false,
        };
        let right = trailing || first.is_none();
        proof {
            match first {
                Some(fc) => {
                    if !leading {
                        assert(controls@[fc as int]);
                    }
                },
                None => {},
            }
            match last {
                Some(lc) => {
                    if !trailing {
                        assert(controls@[lc as int]);
                    }
                },
                None => {},
            }
        }
        r.push(CellInset { left: leading, right });
        i = i + 1;
    }
    r
}

} // verus!
