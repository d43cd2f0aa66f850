//! Select — a controlled dropdown: a trigger keyed `{key}`, a dismiss
//! scrim keyed `{key}:dismiss`, and options keyed
//! `{key}:option:{value}` ([`select_option_key`]). The app owns
//! `(value, open)` and folds events back with [`apply_event`].

use vstd::prelude::*;
use crate::event::{activated_route, is_activation, route_of, UiEvent, UiEventKind};
use crate::key::{
    colon, concat3, lemma_strip_prefix_concat, lemma_strip_two, owned, spec_segment,
    spec_strip_prefix, str_eq, strip_prefix,
};

verus! {

/// What a routed event means for a select, as text.
pub enum SelectIntent {
    /// The trigger itself.
    Toggle,
    /// The dismiss scrim.
    Dismiss,
    /// An option, with its value token.
    Pick(Seq<char>),
}

/// The routed key of option `value` of the select keyed `key`:
/// `{key}:option:{value}`.
pub open spec fn spec_select_option_key(key: Seq<char>, value: Seq<char>) -> Seq<char> {
    key + colon() + "option:"@ + value
}

/// How a routed key reads against the select keyed `key`.
pub open spec fn intent_of_route(route: Seq<char>, key: Seq<char>) -> Option<SelectIntent> {
    if route == key {
        Some(SelectIntent::Toggle)
    } else {
        match spec_strip_prefix(route, key + colon()) {
            Some(rest) => if rest == "dismiss"@ {
                Some(SelectIntent::Dismiss)
            } else {
                match spec_strip_prefix(rest, "option:"@) {
                    Some(value) => Some(SelectIntent::Pick(value)),
                    None => None,
                }
            },
            None => None,
        }
    }
}

/// How an event reads against the select keyed `key`.
pub open spec fn spec_classify(event: UiEvent, key: Seq<char>) -> Option<SelectIntent> {
    match activated_route(event) {
        Some(route) => intent_of_route(route, key),
        None => None,
    }
}

/// What a routed [`UiEvent`] means for a controlled select keyed
/// `key`.
#[derive(Clone, Debug, PartialEq, Eq)]
#[non_exhaustive]
pub enum SelectAction {
    /// The trigger was clicked or activated. Toggle the open flag.
    Toggle,
    /// The dismiss scrim was clicked. Close the menu.
    Dismiss,
    /// An option was picked. The string is the raw value token from
    /// the option key.
    Pick(String),
}

/// The intent an action carries.
pub open spec fn action_intent(a: Option<SelectAction>) -> Option<SelectIntent> {
    match a {
        Some(SelectAction::Toggle) => Some(SelectIntent::Toggle),
        Some(SelectAction::Dismiss) => Some(SelectIntent::Dismiss),
        Some(SelectAction::Pick(s)) => Some(SelectIntent::Pick(s@)),
        None => None,
    }
}

/// Classify a routed [`UiEvent`] against a controlled select keyed
/// `key`. Returns `None` for events that aren't for this select.
///
/// Only `Click` / `Activate` event kinds qualify.
pub fn classify_event(event: &UiEvent, key: &str) -> (r: Option<SelectAction>)
    ensures
        action_intent(r) == spec_classify(*event, key@),
{
    match event.kind {
        UiEventKind::Click | UiEventKind::Activate => {},
        _ => return None,
    }
    let routed = match event.route() {
        Some(r) => r,
        None => return None,
    };
    if str_eq(routed, key) {
        return Some(SelectAction::Toggle);
    }
    proof {
        reveal_strlit(":");
        assert(":"@ =~= colon());
        lemma_strip_two(routed@, key@, colon());
    }
    let rest = match strip_prefix(routed, key) {
        Some(r) => r,
        None => return None,
    };
    let rest = match strip_prefix(rest, ":") {
        Some(r) => r,
        None => return None,
    };
    if str_eq(rest, "dismiss") {
        return Some(SelectAction::Dismiss);
    }
    match strip_prefix(rest, "option:") {
        Some(value) => Some(SelectAction::Pick(owned(value))),
        None => None,
    }
}

/// Fold a routed [`UiEvent`] into `(value, open)` state for a
/// controlled select keyed `key`. Returns `true` if the event was a
/// select event for this `key`.
///
/// The trigger toggles `open`, the scrim closes it, and a pick that
/// `parse` accepts replaces `value` and closes the menu; a pick that
/// `parse` rejects changes nothing.
pub fn apply_event<V, F: FnOnce(String) -> Option<V>>(
    value: &mut V,
    open: &mut bool,
    event: &UiEvent,
    key: &str,
    parse: F,
) -> (r: bool)
    requires
        forall|s: String| call_requires(parse, (s,)),
    ensures
        r == spec_classify(*event, key@).is_some(),
        match spec_classify(*event, key@) {
            None => *final(value) == *old(value) && *final(open) == *old(open),
            Some(SelectIntent::Toggle) => *final(value) == *old(value) && *final(open) == !*old(open),
            Some(SelectIntent::Dismiss) => *final(value) == *old(value) && *final(open) == false,
            Some(SelectIntent::Pick(token)) => exists|raw: String, parsed: Option<V>|
                #![trigger call_ensures(parse, (raw,), parsed)]
                {
                    &&& raw@ == token
                    &&& call_ensures(parse, (raw,), parsed)
                    &&& match parsed {
                        Some(v) => *final(value) == v && *final(open) == false,
                        None => *final(value) == *old(value) && *final(open) == *old(open),
                    }
                },
        },
{
    let action = match classify_event(event, key) {
        Some(a) => a,
        None => return false,
    };
    match action {
        SelectAction::Toggle => *open = !*open,
        SelectAction::Dismiss => *open = false,
        SelectAction::Pick(s) => {
            if let Some(v) = parse(s) {
                *value = v;
                *open = false;
            }
        },
    }
    true
}

/// Format the routed key emitted when an option is clicked.
pub fn select_option_key(key: &str, value: &str) -> (r: String)
    ensures
        r@ == spec_select_option_key(key@, value@),
{
    let r = concat3(key, ":option:", value);
    proof {
        reveal_strlit(":option:");
        reveal_strlit("option:");
        assert(":option:"@ =~= colon() + "option:"@);
        assert(r@ =~= spec_select_option_key(key@, value@));
    }
    r
}

/// Routing law: the key minted for option `value` is classified back
/// to a pick of exactly that value.
pub proof fn lemma_option_key_round_trip(event: UiEvent, key: Seq<char>, value: Seq<char>)
    requires
        is_activation(event.kind),
        route_of(event) == Some(spec_select_option_key(key, value)),
    ensures
        spec_classify(event, key) == Some(SelectIntent::Pick(value)),
{
    reveal_strlit("option:");
    reveal_strlit("dismiss");
    let route = spec_select_option_key(key, value);
    assert(route.len() > key.len());
    lemma_strip_prefix_concat(key + colon(), "option:"@ + value);
    assert(route =~= (key + colon()) + ("option:"@ + value));
    let rest = "option:"@ + value;
    assert(rest[0] == 'o');
    assert(rest != "dismiss"@);
    lemma_strip_prefix_concat("option:"@, value);
}

/// The trigger's own key toggles the menu, and `{key}:dismiss`
/// dismisses it.
pub proof fn lemma_trigger_and_dismiss_routes(event: UiEvent, key: Seq<char>)
    requires
        is_activation(event.kind),
    ensures
        route_of(event) == Some(key) ==> spec_classify(event, key) == Some(SelectIntent::Toggle),
        route_of(event) == Some(key + colon() + "dismiss"@) ==> spec_classify(event, key)
            == Some(SelectIntent::Dismiss),
{
    reveal_strlit("dismiss");
    let route = key + colon() + "dismiss"@;
    assert(route.len() > key.len());
    assert(route != key);
    lemma_strip_prefix_concat(key + colon(), "dismiss"@);
}

} // verus!
