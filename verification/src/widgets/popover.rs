//! Popover placement vocabulary and menu density.

use vstd::prelude::*;
use crate::event::{PointerKind, UiEvent};

verus! {

/// Density applied to action menu rows. Menus opened by a precise
/// pointer stay compact; menus opened from touch use the larger variant
/// so each action has a platform-sized tap target.
#[derive(Clone, Copy, Debug, Default, Eq, PartialEq, Structural)]
pub enum MenuDensity {
    /// Desktop / pointer density.
    #[default]
    Compact,
    /// Touch density with larger row targets.
    Touch,
}

/// The density for a menu opened by pointer modality `kind`.
pub open spec fn density_for(kind: Option<PointerKind>) -> MenuDensity {
    if kind == Some(PointerKind::Touch) { MenuDensity::Touch } else { MenuDensity::Compact }
}

impl MenuDensity {
    /// Resolve a menu density from the pointer modality that opened it.
    pub fn from_pointer_kind(kind: Option<PointerKind>) -> (r: Self)
        ensures
            r == density_for(kind),
    {
        match kind {
            Some(PointerKind::Touch) => MenuDensity::Touch,
            _ => MenuDensity::Compact,
        }
    }

    /// Resolve a menu density from the event that opened it.
    pub fn from_event(event: &UiEvent) -> (r: Self)
        ensures
            r == density_for(event.pointer_kind),
    {
        MenuDensity::from_pointer_kind(event.pointer_kind)
    }
}

/// Where a popover sits relative to its anchor.
///
/// `Below` / `Above` align the panel's left edge with the anchor's left
/// edge and stack on the cross-axis. `Right` / `Left` align the top
/// edges and stack on the main-axis. `AtPoint` places the panel's
/// top-left corner at the anchor (used by context menus).
#[derive(Clone, Copy, Debug, PartialEq, Eq)]
#[non_exhaustive]
pub enum Side {
    /// Panel below the anchor, left edges aligned.
    Below,
    /// Panel above the anchor, left edges aligned.
    Above,
    /// Panel to the right of the anchor, top edges aligned.
    Right,
    /// Panel to the left of the anchor, top edges aligned.
    Left,
    /// Panel's top-left corner placed exactly at the anchor point.
    AtPoint,
}

} // verus!
