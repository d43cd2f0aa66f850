//! Field — a labelled control's options.

use vstd::prelude::*;

verus! {

/// Optional configuration for a field. The defaults reproduce the
/// plain vertical field, so callers only set what they need.
#[derive(Clone, Copy, Debug, Default)]
pub struct FieldOpts<'a> {
    /// One dim helper line. Vertical fields place it under the control;
    /// horizontal fields stack it under the label in the leading
    /// column.
    pub description: Option<&'a str>,
    /// The horizontal orientation: leading column of label +
    /// description, control trailing right, vertically centered.
    pub horizontal: bool,
}

impl<'a> FieldOpts<'a> {
    /// Set the dim helper line.
    pub fn description(self, d: &'a str) -> (r: Self)
        ensures
            r.description == Some(d),
            r.horizontal == self.horizontal,
    {
        FieldOpts { description: Some(d), horizontal: self.horizontal }
    }

    /// Use the horizontal settings-row orientation.
    pub fn horizontal(self) -> (r: Self)
        ensures
            r.description == self.description,
            r.horizontal,
    {
        FieldOpts { description: self.description, horizontal: true }
    }
}

} // verus!
