//! Radio group — a column of mutually exclusive options.
//!
//! Each item routes as `{key}:radio:{value}` ([`radio_option_key`]);
//! the app owns the selected value and folds clicks back with
//! [`apply_event`].

use vstd::prelude::*;
use crate::event::{activated_route, is_activation, route_of, UiEvent, UiEventKind};
use crate::key::{colon, concat3, lemma_strip_prefix_concat, spec_segment, strip_segment};

verus! {

/// The routed key of option `value` in the group keyed `key`:
/// `{key}:radio:{value}`.
pub open spec fn spec_radio_option_key(key: Seq<char>, value: Seq<char>) -> Seq<char> {
    key + colon() + "radio:"@ + value
}

/// The option value an event selects in the group keyed `key`.
pub open spec fn spec_classify(event: UiEvent, key: Seq<char>) -> Option<Seq<char>> {
    match activated_route(event) {
        Some(route) => spec_segment(route, key, "radio:"@),
        None => None,
    }
}

/// What a routed [`UiEvent`] means for a controlled radio group keyed
/// `key`.
#[derive(Clone, Copy, Debug, PartialEq, Eq)]
#[non_exhaustive]
pub enum RadioAction<'a> {
    /// A radio item was clicked or activated. The string is the raw
    /// value token from the option key.
    Select(&'a str),
}

/// The value token an action carries.
pub open spec fn action_value(a: Option<RadioAction>) -> Option<Seq<char>> {
    match a {
        Some(RadioAction::Select(v)) => Some(v@),
        None => None,
    }
}

/// Classify a routed [`UiEvent`] against a controlled radio group
/// keyed `key`. Returns `None` for events that aren't for this group.
///
/// Only `Click` / `Activate` event kinds qualify.
pub fn classify_event<'a>(event: &'a UiEvent, key: &str) -> (r: Option<RadioAction<'a>>)
    ensures
        action_value(r) == spec_classify(*event, key@),
{
    match event.kind {
        UiEventKind::Click | UiEventKind::Activate => {},
        _ => return None,
    }
    let routed = match event.route() {
        Some(r) => r,
        None => return None,
    };
    match strip_segment(routed, key, "radio:") {
        Some(value) => Some(RadioAction::Select(value)),
        None => None,
    }
}

/// Fold a routed [`UiEvent`] into the app's radio-value field for a
/// controlled radio group keyed `key`. Returns `true` if the event
/// was a radio event for this `key`.
///
/// `parse` converts the raw value token back to the app's value type;
/// returning `None` from `parse` ignores the click silently.
pub fn apply_event<V, F: FnOnce(&str) -> Option<V>>(
    value: &mut V,
    event: &UiEvent,
    key: &str,
    parse: F,
) -> (r: bool)
    requires
        forall|s: &str| call_requires(parse, (s,)),
    ensures
        r == spec_classify(*event, key@).is_some(),
        spec_classify(*event, key@).is_none() ==> *final(value) == *old(value),
        spec_classify(*event, key@).is_some() ==> exists|raw: &str, parsed: Option<V>|
            #![trigger call_ensures(parse, (raw,), parsed)]
            {
                &&& Some(raw@) == spec_classify(*event, key@)
                &&& call_ensures(parse, (raw,), parsed)
                &&& *final(value) == match parsed {
                    Some(v) => v,
                    None => *old(value),
                }
            },
{
    let raw = match classify_event(event, key) {
        Some(RadioAction::Select(raw)) => raw,
        None => return false,
    };
    if let Some(v) = parse(raw) {
        *value = v;
    }
    true
}

/// Format the routed key emitted when a radio item is clicked.
pub fn radio_option_key(key: &str, value: &str) -> (r: String)
    ensures
        r@ == spec_radio_option_key(key@, value@),
{
    let r = concat3(key, ":radio:", value);
    proof {
        reveal_strlit(":radio:");
        reveal_strlit("radio:");
        assert(":radio:"@ =~= colon() + "radio:"@);
        assert(r@ =~= spec_radio_option_key(key@, value@));
    }
    r
}

/// Routing law: the key minted for option `value` is classified back
/// to a selection of exactly that value.
pub proof fn lemma_option_key_round_trip(event: UiEvent, key: Seq<char>, value: Seq<char>)
    requires
        is_activation(event.kind),
        route_of(event) == Some(spec_radio_option_key(key, value)),
    ensures
        spec_classify(event, key) == Some(value),
{
    lemma_strip_prefix_concat(key + colon() + "radio:"@, value);
}

} // verus!
