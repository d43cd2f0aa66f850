//! Sidebar — the navigation rail's display options.

use vstd::prelude::*;

verus! {

/// Options for a sidebar — the app-owned display mode of the rail.
#[derive(Clone, Debug, Default)]
pub struct SidebarOpts {
    /// Render the collapsed icon rail: menu buttons shrink to icon-only
    /// squares and label-tier content is dropped. The app owns this
    /// flag.
    pub collapsed: bool,
}

impl SidebarOpts {
    /// Set [`SidebarOpts::collapsed`].
    pub fn collapsed(self, collapsed: bool) -> (r: Self)
        ensures
            r.collapsed == collapsed,
    {
        SidebarOpts { collapsed }
    }
}

} // verus!
