//! Accordion — a stack of disclosure sections where opening one closes
//! the rest.
//!
//! This is a controlled widget: the app owns which item is open and
//! folds routed trigger events through [`apply_event`]. Each trigger is
//! routed under the composed key `{key}:accordion:{value}`
//! ([`accordion_item_key`]).

use vstd::prelude::*;
use vstd::std_specs::cmp::PartialEqSpec;
use crate::event::{activated_route, is_activation, route_of, UiEvent, UiEventKind};
use crate::key::{colon, concat3, lemma_strip_prefix_concat, spec_segment, strip_segment};

verus! {

/// The routed key of item `value` in the accordion keyed `key`:
/// `{key}:accordion:{value}`.
pub open spec fn spec_accordion_item_key(key: Seq<char>, value: Seq<char>) -> Seq<char> {
    key + colon() + "accordion:"@ + value
}

/// Which item value a routed key names in the accordion keyed `key`.
pub open spec fn accordion_value(route: Seq<char>, key: Seq<char>) -> Option<Seq<char>> {
    spec_segment(route, key, "accordion:"@)
}

/// What a routed [`UiEvent`] means for a controlled accordion keyed
/// `key`.
#[derive(Clone, Copy, Debug, PartialEq, Eq)]
#[non_exhaustive]
pub enum AccordionAction<'a> {
    /// A `{key}:accordion:{value}` trigger was activated; carries the
    /// item's `value`.
    Toggle(&'a str),
}

/// The item value an action carries.
pub open spec fn action_value(a: Option<AccordionAction>) -> Option<Seq<char>> {
    match a {
        Some(AccordionAction::Toggle(v)) => Some(v@),
        None => None,
    }
}

/// The item value an event toggles in the accordion keyed `key`.
pub open spec fn spec_classify(event: UiEvent, key: Seq<char>) -> Option<Seq<char>> {
    match activated_route(event) {
        Some(route) => accordion_value(route, key),
        None => None,
    }
}

/// The routed key for an accordion trigger: `{key}:accordion:{value}`.
pub fn accordion_item_key(key: &str, value: &str) -> (r: String)
    ensures
        r@ == spec_accordion_item_key(key@, value@),
{
    let r = concat3(key, ":accordion:", value);
    proof {
        reveal_strlit(":accordion:");
        reveal_strlit("accordion:");
        assert(":accordion:"@ =~= colon() + "accordion:"@);
        assert(r@ =~= spec_accordion_item_key(key@, value@));
    }
    r
}

/// Classify a routed [`UiEvent`] against an accordion keyed `key`.
/// Returns `None` for events that don't belong to this accordion (or
/// aren't `Click`/`Activate`).
pub fn classify_event<'a>(event: &'a UiEvent, key: &str) -> (r: Option<AccordionAction<'a>>)
    ensures
        action_value(r) == spec_classify(*event, key@),
{
    match event.kind {
        UiEventKind::Click | UiEventKind::Activate => {},
        _ => return None,
    }
    let routed = match event.route() {
        Some(r) => r,
        None => return None,
    };
    let value = match strip_segment(routed, key, "accordion:") {
        Some(v) => v,
        None => return None,
    };
    Some(AccordionAction::Toggle(value))
}

/// The open slot after toggling item `next`: toggling the open item
/// closes it, any other item opens (judged by `V`'s `==`).
pub open spec fn toggled<V: PartialEq>(open: Option<V>, next: V) -> Option<V> {
    match open {
        Some(cur) => if cur.eq_spec(&next) { None } else { Some(next) },
        None => Some(next),
    }
}

/// Fold item `next` into the open slot: if it is the open item the
/// accordion closes, otherwise `next` becomes the open item.
pub fn toggle_open<V: PartialEq>(open: &mut Option<V>, next: V)
    ensures
        *final(open) == None::<V> || *final(open) == Some(next),
        V::obeys_eq_spec() ==> *final(open) == toggled(*old(open), next),
{
    let same = match open.as_ref() {
        Some(cur) => *cur == next,
        None => false,
    };
    if same {
        *open = None;
    } else {
        *open = Some(next);
    }
}

/// Fold a routed trigger event into the app-owned open value
/// (controlled-widget contract): toggling the already-open item closes
/// it, any other item opens it. `parse` converts the routed string
/// back into the app's value type. Returns `true` when the event
/// belonged to this accordion (even if `parse` rejected the value).
pub fn apply_event<V: PartialEq, F: FnOnce(&str) -> Option<V>>(
    open: &mut Option<V>,
    event: &UiEvent,
    key: &str,
    parse: F,
) -> (r: bool)
    requires
        forall|s: &str| call_requires(parse, (s,)),
    ensures
        r == spec_classify(*event, key@).is_some(),
        spec_classify(*event, key@).is_none() ==> *final(open) == *old(open),
        spec_classify(*event, key@).is_some() ==> exists|raw: &str, parsed: Option<V>|
            #![trigger call_ensures(parse, (raw,), parsed)]
            {
                &&& Some(raw@) == spec_classify(*event, key@)
                &&& call_ensures(parse, (raw,), parsed)
                &&& match parsed {
                    None => *final(open) == *old(open),
                    Some(next) => {
                        &&& (*final(open) == None::<V> || *final(open) == Some(next))
                        &&& V::obeys_eq_spec() ==> *final(open) == toggled(*old(open), next)
                    },
                }
            },
{
    let raw = match classify_event(event, key) {
        Some(AccordionAction::Toggle(raw)) => raw,
        None => return false,
    };
    let parsed = parse(raw);
    match parsed {
        Some(next) => toggle_open(open, next),
        None => {},
    }
    true
}

/// Routing law: the key minted for item `value` is classified back to
/// exactly that value, for activations.
pub proof fn lemma_item_key_round_trip(event: UiEvent, key: Seq<char>, value: Seq<char>)
    requires
        is_activation(event.kind),
        route_of(event) == Some(spec_accordion_item_key(key, value)),
    ensures
        spec_classify(event, key) == Some(value),
{
    lemma_strip_prefix_concat(key + colon() + "accordion:"@, value);
}

/// Toggle law: with a closed accordion, toggling an item opens it and
/// toggling the same item again closes the accordion; toggling a
/// different item while one is open switches to it.
pub proof fn lemma_toggle_laws<V: PartialEq>(open: Option<V>, next: V)
    requires
        next.eq_spec(&next),
    ensures
        toggled(None, next) == Some(next),
        toggled(toggled(None, next), next) == None::<V>,
        open matches Some(cur) && !cur.eq_spec(&next) ==> toggled(open, next) == Some(next),
{
}

} // verus!
