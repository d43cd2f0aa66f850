//! Menubar — a row of top-level menu triggers, each routed as
//! `{key}:menu:{value}` ([`menubar_trigger_key`]), whose open menu's
//! dismiss scrim routes as `{key}:menu:{value}:dismiss`. The app owns
//! the open-menu slot and folds events back with [`apply_event`].

use vstd::prelude::*;
use crate::event::{activated_route, is_activation, route_of, UiEvent, UiEventKind};
use crate::key::{
    colon, concat3, ends_with, lemma_strip_prefix_concat, lemma_strip_suffix_concat,
    opt_eq_str, opt_view, owned, spec_segment, spec_strip_suffix, strip_segment, strip_suffix,
};

verus! {

/// What a routed event means for a menubar, as text.
pub enum MenubarIntent {
    /// A trigger, with its value token.
    Toggle(Seq<char>),
    /// An open menu's dismiss scrim, with the menu's value token.
    Dismiss(Seq<char>),
}

/// The routed key of trigger `value` in the menubar keyed `key`:
/// `{key}:menu:{value}`.
pub open spec fn spec_trigger_key(key: Seq<char>, value: Seq<char>) -> Seq<char> {
    key + colon() + "menu:"@ + value
}

/// How a routed key reads against the menubar keyed `key`.
pub open spec fn intent_of_route(route: Seq<char>, key: Seq<char>) -> Option<MenubarIntent> {
    match spec_segment(route, key, "menu:"@) {
        Some(value) => match spec_strip_suffix(value, ":dismiss"@) {
            Some(menu) => Some(MenubarIntent::Dismiss(menu)),
            None => Some(MenubarIntent::Toggle(value)),
        },
        None => None,
    }
}

/// How an event reads against the menubar keyed `key`.
pub open spec fn spec_classify(event: UiEvent, key: Seq<char>) -> Option<MenubarIntent> {
    match activated_route(event) {
        Some(route) => intent_of_route(route, key),
        None => None,
    }
}

/// The open-menu slot after an intent.
pub open spec fn spec_fold(open: Option<Seq<char>>, intent: MenubarIntent) -> Option<Seq<char>> {
    match intent {
        MenubarIntent::Toggle(v) => if open == Some(v) { None } else { Some(v) },
        MenubarIntent::Dismiss(v) => if open == Some(v) { None } else { open },
    }
}

/// What a routed [`UiEvent`] means for a controlled menubar keyed
/// `key`.
#[derive(Clone, Copy, Debug, PartialEq, Eq)]
#[non_exhaustive]
pub enum MenubarAction<'a> {
    /// A top-level trigger was clicked or activated.
    Toggle(&'a str),
    /// The popover dismiss scrim was clicked.
    Dismiss(&'a str),
}

/// The intent an action carries.
pub open spec fn action_intent(a: Option<MenubarAction>) -> Option<MenubarIntent> {
    match a {
        Some(MenubarAction::Toggle(v)) => Some(MenubarIntent::Toggle(v@)),
        Some(MenubarAction::Dismiss(v)) => Some(MenubarIntent::Dismiss(v@)),
        None => None,
    }
}

/// Classify a routed [`UiEvent`] against a controlled menubar keyed
/// `key`. Returns `None` for events that aren't for this menubar.
pub fn classify_event<'a>(event: &'a UiEvent, key: &str) -> (r: Option<MenubarAction<'a>>)
    ensures
        action_intent(r) == spec_classify(*event, key@),
{
    match event.kind {
        UiEventKind::Click | UiEventKind::Activate => {},
        _ => return None,
    }
    let routed = match event.route() {
        Some(r) => r,
        None => return None,
    };
    let value = match strip_segment(routed, key, "menu:") {
        Some(v) => v,
        None => return None,
    };
    if let Some(menu) = strip_suffix(value, ":dismiss") {
        return Some(MenubarAction::Dismiss(menu));
    }
    Some(MenubarAction::Toggle(value))
}

/// Fold a routed [`UiEvent`] into an app-owned open-menu slot. The
/// open value is the raw `{value}` token from [`menubar_trigger_key`]:
/// a trigger opens its menu (or closes it if it is the open one), and
/// a dismiss closes its menu if it is the open one.
pub fn apply_event(open: &mut Option<String>, event: &UiEvent, key: &str) -> (r: bool)
    ensures
        r == spec_classify(*event, key@).is_some(),
        opt_view(*final(open)) == match spec_classify(*event, key@) {
            Some(intent) => spec_fold(opt_view(*old(open)), intent),
            None => opt_view(*old(open)),
        },
{
    let action = match classify_event(event, key) {
        Some(a) => a,
        None => return false,
    };
    match action {
        MenubarAction::Toggle(value) => {
            if opt_eq_str(open, value) {
                *open = None;
            } else {
                *open = Some(owned(value));
            }
        },
        MenubarAction::Dismiss(value) => {
            if opt_eq_str(open, value) {
                *open = None;
            }
        },
    }
    true
}

/// Format the routed key emitted by a top-level menubar trigger.
pub fn menubar_trigger_key(key: &str, value: &str) -> (r: String)
    ensures
        r@ == spec_trigger_key(key@, value@),
{
    let r = concat3(key, ":menu:", value);
    proof {
        reveal_strlit(":menu:");
        reveal_strlit("menu:");
        assert(":menu:"@ =~= colon() + "menu:"@);
        assert(r@ =~= spec_trigger_key(key@, value@));
    }
    r
}

/// Routing law: a trigger key is read back as a toggle of its value
/// (for any value that does not itself end in `:dismiss`), and the same
/// key with `:dismiss` appended is read back as a dismissal of it.
pub proof fn lemma_trigger_key_round_trip(event: UiEvent, key: Seq<char>, value: Seq<char>)
    requires
        is_activation(event.kind),
    ensures
        route_of(event) == Some(spec_trigger_key(key, value)) && !ends_with(value, ":dismiss"@)
            ==> spec_classify(event, key) == Some(MenubarIntent::Toggle(value)),
        route_of(event) == Some(spec_trigger_key(key, value) + ":dismiss"@)
            ==> spec_classify(event, key) == Some(MenubarIntent::Dismiss(value)),
{
    lemma_strip_prefix_concat(key + colon() + "menu:"@, value);
    lemma_strip_prefix_concat(key + colon() + "menu:"@, value + ":dismiss"@);
    assert(spec_trigger_key(key, value) + ":dismiss"@ =~= (key + colon() + "menu:"@) + (value
        + ":dismiss"@));
    lemma_strip_suffix_concat(value, ":dismiss"@);
}

/// A trigger whose menu is not open opens it in place of whatever was
/// open, and a second activation of that trigger closes the menubar; a
/// dismiss either closes the slot or leaves it as it was, and never
/// opens anything.
pub proof fn lemma_fold_laws(open: Option<Seq<char>>, v: Seq<char>)
    ensures
        open != Some(v) ==> spec_fold(spec_fold(open, MenubarIntent::Toggle(v)), MenubarIntent::Toggle(v)) == None::<Seq<char>>,
        open != Some(v) ==> spec_fold(open, MenubarIntent::Toggle(v)) == Some(v),
        spec_fold(open, MenubarIntent::Dismiss(v)) == None::<Seq<char>> || spec_fold(open, MenubarIntent::Dismiss(v)) == open,
{
}

} // verus!
