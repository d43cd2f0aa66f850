//! Collapsible — one standalone disclosure section (a trigger row that
//! reveals a body).
//!
//! Collapsible is the accordion's single-item sibling: it has exactly
//! one trigger, keyed by the app's `key` verbatim, and the app owns the
//! `open` bool, folding trigger events back through [`apply_event`].

use vstd::prelude::*;
use crate::event::{activated_route, UiEvent};

verus! {

/// Whether an event activates the trigger keyed `key`.
pub open spec fn activates(event: UiEvent, key: Seq<char>) -> bool {
    activated_route(event) == Some(key)
}

/// The `open` bool after folding `event`.
pub open spec fn spec_apply(open: bool, event: UiEvent, key: Seq<char>) -> bool {
    if activates(event, key) { !open } else { open }
}

/// Fold a routed [`UiEvent`] into the app-owned `open` bool
/// (controlled-widget contract): a `Click` / `Activate` on the
/// trigger's `key` flips it. Returns `true` when the event belonged to
/// this collapsible.
pub fn apply_event(open: &mut bool, event: &UiEvent, key: &str) -> (r: bool)
    ensures
        r == activates(*event, key@),
        *final(open) == spec_apply(*old(open), *event, key@),
{
    if event.is_click_or_activate(key) {
        *open = !*open;
        return true;
    }
    false
}

/// Folding the same trigger event twice leaves the section as it was:
/// each activation flips the bool.
pub proof fn lemma_apply_twice(open: bool, event: UiEvent, key: Seq<char>)
    ensures
        spec_apply(spec_apply(open, event, key), event, key) == open,
{
}

} // verus!
