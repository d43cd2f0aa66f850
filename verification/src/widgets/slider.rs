//! Slider — a controlled value bar. The app owns a normalized value in
//! `0.0..=1.0`; pointer presses and drags on the slider set it from the
//! pointer position, and keys on the focused slider step it. This
//! module decides *which* of those an event is; the arithmetic on the
//! value is the caller's.

use vstd::prelude::*;
use crate::event::{route_of, KeyPress, LogicalKey, NamedKey, UiEvent, UiEventKind};
use crate::key::str_eq;

verus! {

/// The keyboard actions of the standard range pattern.
#[derive(Clone, Copy, Debug, PartialEq, Eq, Structural)]
pub enum SliderKey {
    /// `ArrowUp` / `ArrowRight`: up by one step.
    Increment,
    /// `ArrowDown` / `ArrowLeft`: down by one step.
    Decrement,
    /// `PageUp`: up by one page step.
    PageIncrement,
    /// `PageDown`: down by one page step.
    PageDecrement,
    /// `Home`: jump to the minimum.
    Home,
    /// `End`: jump to the maximum.
    End,
}

/// What a routed event asks of the slider keyed `key`.
#[derive(Clone, Copy, Debug, PartialEq, Eq, Structural)]
pub enum SliderInput {
    /// A `Click`, `PointerDown` or `Drag` on the slider: set the value
    /// from the pointer position, when the event carries one.
    Pointer,
    /// A key on the focused slider.
    Key(SliderKey),
}

/// The slider action a logical key maps to.
pub open spec fn slider_key_of(logical: LogicalKey) -> Option<SliderKey> {
    match logical {
        LogicalKey::Named(NamedKey::ArrowUp) => Some(SliderKey::Increment),
        LogicalKey::Named(NamedKey::ArrowRight) => Some(SliderKey::Increment),
        LogicalKey::Named(NamedKey::ArrowDown) => Some(SliderKey::Decrement),
        LogicalKey::Named(NamedKey::ArrowLeft) => Some(SliderKey::Decrement),
        LogicalKey::Named(NamedKey::PageUp) => Some(SliderKey::PageIncrement),
        LogicalKey::Named(NamedKey::PageDown) => Some(SliderKey::PageDecrement),
        LogicalKey::Named(NamedKey::Home) => Some(SliderKey::Home),
        LogicalKey::Named(NamedKey::End) => Some(SliderKey::End),
        _ => None,
    }
}

/// The key action of a `KeyDown` routed to `key`; `None` for any other
/// event or an unmapped key.
pub open spec fn spec_classify_key(event: UiEvent, key: Seq<char>) -> Option<SliderKey> {
    if event.kind == UiEventKind::KeyDown && route_of(event) == Some(key) {
        match event.key_press {
            Some(kp) => slider_key_of(kp.logical),
            None => None,
        }
    } else {
        None
    }
}

/// Whether the event is a pointer press or drag routed to `key`.
pub open spec fn is_pointer_input(event: UiEvent, key: Seq<char>) -> bool {
    (event.kind == UiEventKind::Click || event.kind == UiEventKind::PointerDown || event.kind
        == UiEventKind::Drag) && route_of(event) == Some(key)
}

/// What a routed event asks of the slider keyed `key`.
pub open spec fn spec_route_input(event: UiEvent, key: Seq<char>) -> Option<SliderInput> {
    if is_pointer_input(event, key) {
        Some(SliderInput::Pointer)
    } else {
        match spec_classify_key(event, key) {
            Some(k) => Some(SliderInput::Key(k)),
            None => None,
        }
    }
}

/// The slider action of a key press.
fn key_of_press(press: &KeyPress) -> (r: Option<SliderKey>)
    ensures
        r == slider_key_of(press.logical),
{
    match press.logical.named() {
        Some(NamedKey::ArrowUp) | Some(NamedKey::ArrowRight) => Some(SliderKey::Increment),
        Some(NamedKey::ArrowDown) | Some(NamedKey::ArrowLeft) => Some(SliderKey::Decrement),
        Some(NamedKey::PageUp) => Some(SliderKey::PageIncrement),
        Some(NamedKey::PageDown) => Some(SliderKey::PageDecrement),
        Some(NamedKey::Home) => Some(SliderKey::Home),
        Some(NamedKey::End) => Some(SliderKey::End),
        _ => None,
    }
}

/// Classify a `KeyDown` routed to the slider's `key` against the
/// standard range pattern: `ArrowUp` / `ArrowRight` increment,
/// `ArrowDown` / `ArrowLeft` decrement, `PageUp` / `PageDown` page,
/// `Home` / `End` jump to the ends. `None` when the event isn't a key
/// event for this slider or the key doesn't match a slider action.
pub fn classify_key(event: &UiEvent, key: &str) -> (r: Option<SliderKey>)
    ensures
        r == spec_classify_key(*event, key@),
{
    match event.kind {
        UiEventKind::KeyDown => {},
        _ => return None,
    }
    let ours = match event.route() {
        Some(route) => str_eq(route, key),
        None => false,
    };
    if !ours {
        return None;
    }
    match &event.key_press {
        Some(press) => key_of_press(press),
        None => None,
    }
}

/// What a routed event asks of the slider keyed `key`: a pointer set,
/// a key action, or nothing. A pointer event is reported as
/// [`SliderInput::Pointer`] even without coordinates; the caller falls
/// back to [`classify_key`] (which is `None` for it) in that case.
pub fn route_input(event: &UiEvent, key: &str) -> (r: Option<SliderInput>)
    ensures
        r == spec_route_input(*event, key@),
{
    let pointer = match event.kind {
        UiEventKind::Click | UiEventKind::PointerDown | UiEventKind::Drag => true,
        _ => false,
    };
    if pointer {
        let ours = match event.route() {
            Some(route) => str_eq(route, key),
            None => false,
        };
        if ours {
            return Some(SliderInput::Pointer);
        }
        return None;
    }
    match classify_key(event, key) {
        Some(k) => Some(SliderInput::Key(k)),
        None => None,
    }
}

/// Pointer law: every `Click`, `PointerDown` or `Drag` routed to the
/// slider sets its value from the pointer — a press moves the thumb at
/// once, without waiting for release — and no pointer event routed
/// elsewhere, nor any other kind of event but a key, is for it.
pub proof fn lemma_pointer_input(event: UiEvent, key: Seq<char>)
    ensures
        route_of(event) == Some(key) && (event.kind == UiEventKind::Click || event.kind
            == UiEventKind::PointerDown || event.kind == UiEventKind::Drag) ==> spec_route_input(event, key)
            == Some(SliderInput::Pointer),
        route_of(event) != Some(key) ==> spec_route_input(event, key).is_none(),
        event.kind != UiEventKind::Click && event.kind != UiEventKind::PointerDown && event.kind
            != UiEventKind::Drag && event.kind != UiEventKind::KeyDown ==> spec_route_input(event, key).is_none(),
{
}

/// Key law: on the focused slider the two arrows that point up or
/// right increment, the two that point down or left decrement, the
/// page keys page in the same directions, and `Home` / `End` jump to
/// the two ends.
pub proof fn lemma_key_directions(event: UiEvent, key: Seq<char>, kp: KeyPress)
    requires
        route_of(event) == Some(key),
        event.kind == UiEventKind::KeyDown,
        event.key_press == Some(kp),
    ensures
        kp.logical == LogicalKey::Named(NamedKey::ArrowUp) || kp.logical == LogicalKey::Named(NamedKey::ArrowRight)
            ==> spec_route_input(event, key) == Some(SliderInput::Key(SliderKey::Increment)),
        kp.logical == LogicalKey::Named(NamedKey::ArrowDown) || kp.logical == LogicalKey::Named(NamedKey::ArrowLeft)
            ==> spec_route_input(event, key) == Some(SliderInput::Key(SliderKey::Decrement)),
        kp.logical == LogicalKey::Named(NamedKey::PageUp) ==> spec_route_input(event, key) == Some(
            SliderInput::Key(SliderKey::PageIncrement),
        ),
        kp.logical == LogicalKey::Named(NamedKey::PageDown) ==> spec_route_input(event, key) == Some(
            SliderInput::Key(SliderKey::PageDecrement),
        ),
        kp.logical == LogicalKey::Named(NamedKey::Home) ==> spec_route_input(event, key) == Some(
            SliderInput::Key(SliderKey::Home),
        ),
        kp.logical == LogicalKey::Named(NamedKey::End) ==> spec_route_input(event, key) == Some(
            SliderInput::Key(SliderKey::End),
        ),
{
}

} // verus!
