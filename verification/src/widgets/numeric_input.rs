//! Numeric input — a number field with stepper buttons. Its routed
//! keys are `{key}:inc` / `{key}:dec` (the spinners) and `{key}:field`
//! (the text field). This module decides what an event asks for — a
//! step up or down, at which modifier scale, or a text edit of the
//! field — and which text edits are kept; stepping the number itself
//! is the caller's arithmetic.

use vstd::prelude::*;
use crate::event::{activated_route, route_of, target_of, KeyModifiers, LogicalKey, NamedKey, UiEvent, UiEventKind};
use crate::key::{concat3, str_eq};

verus! {

/// Characters that can appear in a number while it is being typed:
/// digits, the decimal point, an exponent marker and signs.
pub open spec fn numeric_char(c: char) -> bool {
    ('0' <= c && c <= '9') || c == '.' || c == 'e' || c == 'E' || c == '+' || c == '-'
}

/// Whether a field value is an acceptable partial numeric entry: empty,
/// or made only of [`numeric_char`]s. Edits that would leave the field
/// outside this set are rejected and the previous value restored, so
/// partial states like `"-"`, `"1e"` and `"."` survive mid-typing.
pub fn is_acceptable_numeric_progress(s: &str) -> (r: bool)
    ensures
        r == forall|i: int| 0 <= i < s@.len() ==> numeric_char(#[trigger] s@[i]),
{
    let n = s.unicode_len();
    let mut i: usize = 0;
    while i < n
        invariant
            i <= n,
            n == s@.len(),
            forall|k: int| 0 <= k < i ==> numeric_char(#[trigger] s@[k]),
        decreases n - i,
    {
        let c = s.get_char(i);
        let ok = ('0' <= c && c <= '9') || c == '.' || c == 'e' || c == 'E' || c == '+' || c == '-';
        if !ok {
            return false;
        }
        i = i + 1;
    }
    true
}

/// The multiplier a step is taken at.
#[derive(Clone, Copy, Debug, PartialEq, Eq, Structural)]
pub enum StepScale {
    /// One step.
    Unit,
    /// `Shift`: ten steps (coarse).
    Coarse,
    /// `Alt`: a tenth of a step (fine).
    Fine,
}

/// The scale for a modifier state: `Shift` is coarse and wins over
/// `Alt`, which is fine.
pub open spec fn scale_of(m: KeyModifiers) -> StepScale {
    if m.shift {
        StepScale::Coarse
    } else if m.alt {
        StepScale::Fine
    } else {
        StepScale::Unit
    }
}

/// Modifier-key step multiplier. `Shift` is coarse, `Alt` is fine;
/// when both are held `Shift` wins, since coarse is the dominant
/// power-user gesture.
pub fn step_scale(mods: KeyModifiers) -> (r: StepScale)
    ensures
        r == scale_of(mods),
{
    if mods.shift {
        StepScale::Coarse
    } else if mods.alt {
        StepScale::Fine
    } else {
        StepScale::Unit
    }
}

/// A request to step the value.
#[derive(Clone, Copy, Debug, PartialEq, Eq, Structural)]
pub struct StepRequest {
    /// Up (`true`) or down.
    pub up: bool,
    /// The multiplier.
    pub scale: StepScale,
}

/// The step an event asks of the numeric input keyed `key`: a spinner
/// activation (`{key}:inc` / `{key}:dec`, scaled by the event's
/// modifiers), or `ArrowUp` / `ArrowDown` routed to the focused field
/// (scaled by the key press's modifiers).
pub open spec fn spec_step_request(event: UiEvent, key: Seq<char>) -> Option<StepRequest> {
    if activated_route(event) == Some(key + ":inc"@) {
        Some(StepRequest { up: true, scale: scale_of(event.modifiers) })
    } else if activated_route(event) == Some(key + ":dec"@) {
        Some(StepRequest { up: false, scale: scale_of(event.modifiers) })
    } else if event.kind == UiEventKind::KeyDown && route_of(event) == Some(key + ":field"@) {
        match event.key_press {
            Some(kp) => match kp.logical {
                LogicalKey::Named(NamedKey::ArrowUp) => Some(StepRequest { up: true, scale: scale_of(kp.modifiers) }),
                LogicalKey::Named(NamedKey::ArrowDown) => Some(StepRequest { up: false, scale: scale_of(kp.modifiers) }),
                _ => None,
            },
            None => None,
        }
    } else {
        None
    }
}

/// Whether the route is exactly `{key}{suffix}`.
fn route_is(event: &UiEvent, key: &str, suffix: &str) -> (r: bool)
    ensures
        r == (route_of(*event) == Some(key@ + suffix@)),
{
    let full = concat3(key, suffix, "");
    proof {
        reveal_strlit("");
        assert(full@ =~= key@ + suffix@);
    }
    match event.route() {
        Some(route) => str_eq(route, full.as_str()),
        None => false,
    }
}

/// What step, if any, an event asks of the numeric input keyed `key`.
pub fn step_request(event: &UiEvent, key: &str) -> (r: Option<StepRequest>)
    ensures
        r == spec_step_request(*event, key@),
{
    let activation = match event.kind {
        UiEventKind::Click | UiEventKind::Activate => true,
        _ => false,
    };
    if activation {
        if route_is(event, key, ":inc") {
            return Some(StepRequest { up: true, scale: step_scale(event.modifiers) });
        }
        if route_is(event, key, ":dec") {
            return Some(StepRequest { up: false, scale: step_scale(event.modifiers) });
        }
    }
    let key_down = match event.kind {
        UiEventKind::KeyDown => true,
        _ => false,
    };
    if key_down && route_is(event, key, ":field") {
        if let Some(kp) = &event.key_press {
            return match kp.logical.named() {
                Some(NamedKey::ArrowUp) => Some(StepRequest { up: true, scale: step_scale(kp.modifiers) }),
                Some(NamedKey::ArrowDown) => Some(StepRequest { up: false, scale: step_scale(kp.modifiers) }),
                _ => None,
            };
        }
    }
    None
}

/// Whether an event is a text edit of the input keyed `key`: only
/// events delivered to the inner field (`{key}:field`) are, so
/// keystrokes meant for sibling widgets never land in the value.
pub fn edits_field(event: &UiEvent, key: &str) -> (r: bool)
    ensures
        r == (target_of(*event) == Some(key@ + ":field"@)),
{
    let field = concat3(key, ":field", "");
    proof {
        reveal_strlit("");
        assert(field@ =~= key@ + ":field"@);
    }
    match event.target_key() {
        Some(t) => str_eq(t, field.as_str()),
        None => false,
    }
}

/// Scale law: `Shift` always steps coarse, `Alt` alone steps fine, and
/// no modifier steps by one unit; `Ctrl` and the logo key do not
/// change the scale.
pub proof fn lemma_scale_by_modifiers(m: KeyModifiers)
    ensures
        m.shift ==> scale_of(m) == StepScale::Coarse,
        !m.shift && m.alt ==> scale_of(m) == StepScale::Fine,
        !m.shift && !m.alt ==> scale_of(m) == StepScale::Unit,
        scale_of(m) == scale_of(KeyModifiers { ctrl: false, logo: false, ..m }),
{
}

/// Step law: the `inc` spinner steps up and the `dec` spinner down, at
/// the scale of the event's modifiers; on the focused field `ArrowUp`
/// steps up and `ArrowDown` down, at the scale of the press's
/// modifiers; no other key on the field is a step.
pub proof fn lemma_step_directions(event: UiEvent, key: Seq<char>)
    ensures
        activated_route(event) == Some(key + ":inc"@) ==> spec_step_request(event, key) == Some(
            StepRequest { up: true, scale: scale_of(event.modifiers) },
        ),
        activated_route(event) == Some(key + ":dec"@) && activated_route(event) != Some(key + ":inc"@)
            ==> spec_step_request(event, key) == Some(StepRequest { up: false, scale: scale_of(event.modifiers) }),
        event.kind == UiEventKind::KeyDown && route_of(event) == Some(key + ":field"@) && event.key_press is Some
            && event.key_press.unwrap().logical == LogicalKey::Named(NamedKey::ArrowUp) ==> spec_step_request(event, key)
            == Some(StepRequest { up: true, scale: scale_of(event.key_press.unwrap().modifiers) }),
        event.kind == UiEventKind::KeyDown && route_of(event) == Some(key + ":field"@) && event.key_press is Some
            && event.key_press.unwrap().logical == LogicalKey::Named(NamedKey::ArrowDown) ==> spec_step_request(
            event,
            key,
        ) == Some(StepRequest { up: false, scale: scale_of(event.key_press.unwrap().modifiers) }),
        event.kind == UiEventKind::KeyDown && event.key_press is Some && event.key_press.unwrap().logical
            != LogicalKey::Named(NamedKey::ArrowUp) && event.key_press.unwrap().logical != LogicalKey::Named(
            NamedKey::ArrowDown,
        ) ==> spec_step_request(event, key).is_none(),
{
}

} // verus!
