//! Resizable panel groups — panels interleaved with keyed handles,
//! where handle `i` trades size between panels `i` and `i + 1`.

use vstd::prelude::*;
use crate::event::{route_of, UiEvent};
use crate::widgets::resize_handle::{kind_input, spec_kind_input, HandleInput};
use crate::key::{
    colon, concat3, decimal, lemma_parse_decimal, lemma_strip_prefix_concat, push_decimal,
    spec_index, index,
};

verus! {

/// `{group_key}:handle:{index}`.
pub open spec fn spec_handle_key(group_key: Seq<char>, index: usize) -> Seq<char> {
    group_key + ":handle"@ + colon() + decimal(index as nat)
}

/// Format the routed key of the handle after panel `index` in the
/// group keyed `group_key`. Handle `index` trades size between panels
/// `index` and `index + 1`.
pub fn resizable_handle_key(group_key: &str, index: usize) -> (r: String)
    ensures
        r@ == spec_handle_key(group_key@, index),
{
    let mut r = String::new();
    r.append(group_key);
    r.append(":handle:");
    push_decimal(&mut r, index);
    proof {
        reveal_strlit(":handle:");
        reveal_strlit(":handle");
        assert(r@ =~= spec_handle_key(group_key@, index));
    }
    r
}

/// The live handle an event's routed key names in a group of `panels`
/// panels: the index after `{group_key}:handle:`, when it sits between
/// two existing panels. A handle index left over from a tree with more
/// panels than the app now owns names nothing.
pub open spec fn spec_handle_of(event: UiEvent, group_key: Seq<char>, panels: usize) -> Option<usize> {
    if panels < 2 {
        None
    } else {
        match route_of(event) {
            Some(route) => match spec_index(route, group_key + ":handle"@) {
                Some(h) => if h + 1 < panels { Some(h) } else { None },
                None => None,
            },
            None => None,
        }
    }
}

/// Which handle of the group keyed `group_key` (holding `panels`
/// panels) an event addresses — the dispatch every drag and key fold on
/// a resizable group starts from. `None` for events that are not for a
/// live handle of this group.
pub fn handle_of(event: &UiEvent, group_key: &str, panels: usize) -> (r: Option<usize>)
    ensures
        r == spec_handle_of(*event, group_key@, panels),
{
    if panels < 2 {
        return None;
    }
    let route = match event.route() {
        Some(r) => r,
        None => return None,
    };
    let prefix = concat3(group_key, ":handle", "");
    proof {
        reveal_strlit("");
        assert(prefix@ =~= group_key@ + ":handle"@);
    }
    match index(route, prefix.as_str()) {
        Some(h) => if h < panels - 1 { Some(h) } else { None },
        None => None,
    }
}

/// Which live handle of the group an event addresses, and which step
/// of the drag lifecycle it is — the dispatch of every pointer and key
/// fold on a resizable group. `None` for events that are not for a live
/// handle of this group, or whose kind plays no part in a drag.
pub fn group_input(event: &UiEvent, group_key: &str, panels: usize) -> (r: Option<(usize, HandleInput)>)
    ensures
        r == match (spec_handle_of(*event, group_key@, panels), spec_kind_input(*event)) {
            (Some(h), Some(i)) => Some((h, i)),
            _ => None,
        },
{
    match handle_of(event, group_key, panels) {
        Some(h) => match kind_input(event) {
            Some(i) => Some((h, i)),
            None => None,
        },
        None => None,
    }
}

/// Routing law: an event on the key minted for handle `index` is read
/// back as that handle, whenever the group still has a panel after it.
pub proof fn lemma_handle_key_round_trip(event: UiEvent, group_key: Seq<char>, index: usize, panels: usize)
    requires
        route_of(event) == Some(spec_handle_key(group_key, index)),
        index + 1 < panels,
    ensures
        spec_handle_of(event, group_key, panels) == Some(index),
{
    lemma_strip_prefix_concat(group_key + ":handle"@ + colon(), decimal(index as nat));
    lemma_parse_decimal(index);
}

} // verus!
