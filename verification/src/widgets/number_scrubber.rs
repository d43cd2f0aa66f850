//! Number scrubber — a drag-to-scrub numeric cell. Pointer presses,
//! drags and releases on the cell drive a drag; `ArrowRight` /
//! `ArrowUp` and `ArrowLeft` / `ArrowDown` on the focused cell step the
//! value. This module decides what an event asks for; scrubbing the
//! number is the caller's arithmetic.

use vstd::prelude::*;
use crate::event::{route_of, KeyPress, LogicalKey, NamedKey, UiEvent, UiEventKind};
use crate::key::str_eq;
use crate::widgets::numeric_input::{scale_of, step_scale, StepRequest};

verus! {

/// What a routed event asks of the scrubber.
#[derive(Clone, Copy, Debug, PartialEq, Eq, Structural)]
pub enum ScrubInput {
    /// `PointerDown`: anchor a scrub at the pointer.
    Press,
    /// `Drag`: scrub with the pointer.
    Move,
    /// `PointerUp`: end the scrub.
    Release,
    /// An arrow key: step the value.
    Step(StepRequest),
}

/// What an event routed to the scrubber keyed `key` asks for.
pub open spec fn spec_scrub_input(event: UiEvent, key: Seq<char>) -> Option<ScrubInput> {
    if route_of(event) != Some(key) {
        None
    } else {
        match event.kind {
            UiEventKind::PointerDown => Some(ScrubInput::Press),
            UiEventKind::Drag => Some(ScrubInput::Move),
            UiEventKind::PointerUp => Some(ScrubInput::Release),
            UiEventKind::KeyDown => match event.key_press {
                Some(kp) => match kp.logical {
                    LogicalKey::Named(NamedKey::ArrowRight) | LogicalKey::Named(NamedKey::ArrowUp) =>
                        Some(ScrubInput::Step(StepRequest { up: true, scale: scale_of(kp.modifiers) })),
                    LogicalKey::Named(NamedKey::ArrowLeft) | LogicalKey::Named(NamedKey::ArrowDown) =>
                        Some(ScrubInput::Step(StepRequest { up: false, scale: scale_of(kp.modifiers) })),
                    _ => None,
                },
                None => None,
            },
            _ => None,
        }
    }
}

/// Classify an event against the scrubber keyed `key`.
pub fn scrub_input(event: &UiEvent, key: &str) -> (r: Option<ScrubInput>)
    ensures
        r == spec_scrub_input(*event, key@),
{
    let ours = match event.route() {
        Some(route) => str_eq(route, key),
        None => false,
    };
    if !ours {
        return None;
    }
    match event.kind {
        UiEventKind::PointerDown => Some(ScrubInput::Press),
        UiEventKind::Drag => Some(ScrubInput::Move),
        UiEventKind::PointerUp => Some(ScrubInput::Release),
        UiEventKind::KeyDown => match &event.key_press {
            Some(kp) => match kp.logical.named() {
                Some(NamedKey::ArrowRight) | Some(NamedKey::ArrowUp) => Some(
                    ScrubInput::Step(StepRequest { up: true, scale: step_scale(kp.modifiers) }),
                ),
                Some(NamedKey::ArrowLeft) | Some(NamedKey::ArrowDown) => Some(
                    ScrubInput::Step(StepRequest { up: false, scale: step_scale(kp.modifiers) }),
                ),
                _ => None,
            },
            None => None,
        },
        _ => None,
    }
}

/// Arrow law: on the focused scrubber `ArrowRight` and `ArrowUp` step
/// the value up and `ArrowLeft` and `ArrowDown` step it down, at the
/// scale the press's own modifiers select.
pub proof fn lemma_arrows_step(event: UiEvent, key: Seq<char>, kp: KeyPress)
    requires
        route_of(event) == Some(key),
        event.kind == UiEventKind::KeyDown,
        event.key_press == Some(kp),
    ensures
        kp.logical == LogicalKey::Named(NamedKey::ArrowRight) || kp.logical == LogicalKey::Named(NamedKey::ArrowUp)
            ==> spec_scrub_input(event, key) == Some(ScrubInput::Step(StepRequest { up: true, scale: scale_of(kp.modifiers) })),
        kp.logical == LogicalKey::Named(NamedKey::ArrowLeft) || kp.logical == LogicalKey::Named(NamedKey::ArrowDown)
            ==> spec_scrub_input(event, key) == Some(ScrubInput::Step(StepRequest { up: false, scale: scale_of(kp.modifiers) })),
{
}

/// Pointer law: a press, drag or release routed to the scrubber is its
/// drag lifecycle, and nothing routed elsewhere is ever for it.
pub proof fn lemma_pointer_lifecycle(event: UiEvent, key: Seq<char>)
    ensures
        route_of(event) == Some(key) && event.kind == UiEventKind::PointerDown ==> spec_scrub_input(event, key)
            == Some(ScrubInput::Press),
        route_of(event) == Some(key) && event.kind == UiEventKind::Drag ==> spec_scrub_input(event, key)
            == Some(ScrubInput::Move),
        route_of(event) == Some(key) && event.kind == UiEventKind::PointerUp ==> spec_scrub_input(event, key)
            == Some(ScrubInput::Release),
        route_of(event) != Some(key) ==> spec_scrub_input(event, key).is_none(),
{
}

} // verus!
