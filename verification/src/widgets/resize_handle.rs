//! Resize handle — which side of a splitter the app-owned size lives
//! on.

use vstd::prelude::*;
use crate::event::{route_of, KeyPress, LogicalKey, NamedKey, UiEvent, UiEventKind};
use crate::key::str_eq;

verus! {

/// Which side of the handle the resized value lives on.
///
/// For `Side::Start` (left of a Row handle, top of a Column handle),
/// drag-right or drag-down grows the value. For `Side::End` (right of a
/// Row handle, bottom of a Column handle), the relationship flips:
/// drag-left or drag-up grows the value. Keyboard nudges mirror the
/// same flip.
#[derive(Clone, Copy, Debug, Default, PartialEq, Eq, Structural)]
pub enum Side {
    /// Left of a Row handle, top of a Column handle.
    #[default]
    Start,
    /// Right of a Row handle, bottom of a Column handle.
    End,
}

/// A keyboard nudge of a focused handle, in the handle's own terms:
/// "forward" moves the handle in the +axis direction (right in a row,
/// down in a column).
#[derive(Clone, Copy, Debug, PartialEq, Eq, Structural)]
pub enum HandleNudge {
    /// `ArrowRight` / `ArrowDown`: one step forward.
    Forward,
    /// `ArrowLeft` / `ArrowUp`: one step back.
    Back,
    /// `PageUp`: one page step forward.
    PageForward,
    /// `PageDown`: one page step back.
    PageBack,
    /// `Home`: to the handle's leading extreme.
    ToStart,
    /// `End`: to the handle's trailing extreme.
    ToEnd,
}

/// The nudge a logical key maps to.
pub open spec fn nudge_of(logical: LogicalKey) -> Option<HandleNudge> {
    match logical {
        LogicalKey::Named(NamedKey::ArrowRight) => Some(HandleNudge::Forward),
        LogicalKey::Named(NamedKey::ArrowDown) => Some(HandleNudge::Forward),
        LogicalKey::Named(NamedKey::ArrowLeft) => Some(HandleNudge::Back),
        LogicalKey::Named(NamedKey::ArrowUp) => Some(HandleNudge::Back),
        LogicalKey::Named(NamedKey::PageUp) => Some(HandleNudge::PageForward),
        LogicalKey::Named(NamedKey::PageDown) => Some(HandleNudge::PageBack),
        LogicalKey::Named(NamedKey::Home) => Some(HandleNudge::ToStart),
        LogicalKey::Named(NamedKey::End) => Some(HandleNudge::ToEnd),
        _ => None,
    }
}

/// The nudge of a key press on a focused handle.
pub fn handle_nudge(press: &KeyPress) -> (r: Option<HandleNudge>)
    ensures
        r == nudge_of(press.logical),
{
    match press.logical.named() {
        Some(NamedKey::ArrowRight) | Some(NamedKey::ArrowDown) => Some(HandleNudge::Forward),
        Some(NamedKey::ArrowLeft) | Some(NamedKey::ArrowUp) => Some(HandleNudge::Back),
        Some(NamedKey::PageUp) => Some(HandleNudge::PageForward),
        Some(NamedKey::PageDown) => Some(HandleNudge::PageBack),
        Some(NamedKey::Home) => Some(HandleNudge::ToStart),
        Some(NamedKey::End) => Some(HandleNudge::ToEnd),
        _ => None,
    }
}

/// What a routed event does to a handle's drag lifecycle.
#[derive(Clone, Copy, Debug, PartialEq, Eq, Structural)]
pub enum HandleInput {
    /// `PointerDown`: anchor a drag at the pointer.
    Press,
    /// `Drag`: move the handle with the pointer.
    Move,
    /// `PointerUp`: release the drag.
    Release,
    /// A `KeyDown` carrying a key press.
    Key,
}

/// The lifecycle step an event's kind stands for.
pub open spec fn spec_kind_input(event: UiEvent) -> Option<HandleInput> {
    match event.kind {
        UiEventKind::PointerDown => Some(HandleInput::Press),
        UiEventKind::Drag => Some(HandleInput::Move),
        UiEventKind::PointerUp => Some(HandleInput::Release),
        UiEventKind::KeyDown => if event.key_press.is_some() { Some(HandleInput::Key) } else { None },
        _ => None,
    }
}

/// The lifecycle step of an event routed to the handle keyed `key`.
pub open spec fn spec_handle_input(event: UiEvent, key: Seq<char>) -> Option<HandleInput> {
    if route_of(event) != Some(key) {
        None
    } else {
        spec_kind_input(event)
    }
}

/// The lifecycle step an event's kind stands for, wherever it is
/// routed.
pub fn kind_input(event: &UiEvent) -> (r: Option<HandleInput>)
    ensures
        r == spec_kind_input(*event),
{
    match event.kind {
        UiEventKind::PointerDown => Some(HandleInput::Press),
        UiEventKind::Drag => Some(HandleInput::Move),
        UiEventKind::PointerUp => Some(HandleInput::Release),
        UiEventKind::KeyDown => if event.key_press.is_some() { Some(HandleInput::Key) } else { None },
        _ => None,
    }
}

/// Which step of the drag lifecycle an event is for the handle keyed
/// `key`: press, move, release, or a key — `None` for events routed
/// elsewhere and for other kinds.
pub fn handle_input(event: &UiEvent, key: &str) -> (r: Option<HandleInput>)
    ensures
        r == spec_handle_input(*event, key@),
{
    let ours = match event.route() {
        Some(route) => str_eq(route, key),
        None => false,
    };
    if !ours {
        return None;
    }
    kind_input(event)
}

/// Whether a nudge grows the value on this side of the handle: forward
/// grows a `Start`-side value and shrinks an `End`-side one, and `Home`
/// goes to the minimum of a `Start`-side value but the maximum of an
/// `End`-side one.
pub open spec fn grows(side: Side, nudge: HandleNudge) -> bool {
    match nudge {
        HandleNudge::Forward | HandleNudge::PageForward | HandleNudge::ToEnd => side == Side::Start,
        HandleNudge::Back | HandleNudge::PageBack | HandleNudge::ToStart => side == Side::End,
    }
}

impl Side {
    /// Whether `nudge` grows the value that lives on this side.
    pub fn grows(self, nudge: HandleNudge) -> (r: bool)
        ensures
            r == grows(self, nudge),
    {
        match nudge {
            HandleNudge::Forward | HandleNudge::PageForward | HandleNudge::ToEnd => match self {
                Side::Start => true,
                Side::End => false,
            },
            HandleNudge::Back | HandleNudge::PageBack | HandleNudge::ToStart => match self {
                Side::Start => false,
                Side::End => true,
            },
        }
    }
}

/// Mirroring law: flipping the side of the handle flips whether each
/// nudge grows the value.
pub proof fn lemma_sides_mirror(nudge: HandleNudge)
    ensures
        grows(Side::Start, nudge) != grows(Side::End, nudge),
{
}

/// Direction law: the jump and page nudges grow the value exactly when
/// the single step in the same direction does — `End` and `PageUp`
/// move as `ArrowRight` / `ArrowDown` do, `Home` and `PageDown` as
/// `ArrowLeft` / `ArrowUp` do — and a forward step grows a
/// `Start`-side value.
pub proof fn lemma_jumps_follow_steps(side: Side)
    ensures
        grows(side, HandleNudge::ToEnd) == grows(side, HandleNudge::Forward),
        grows(side, HandleNudge::PageForward) == grows(side, HandleNudge::Forward),
        grows(side, HandleNudge::ToStart) == grows(side, HandleNudge::Back),
        grows(side, HandleNudge::PageBack) == grows(side, HandleNudge::Back),
        grows(side, HandleNudge::Forward) != grows(side, HandleNudge::Back),
        grows(Side::Start, HandleNudge::Forward),
{
}

/// Key law: on either side, `End` grows the value exactly when
/// `ArrowRight` and `ArrowDown` do, and `Home` exactly when
/// `ArrowLeft` and `ArrowUp` do; the two directions never agree.
pub proof fn lemma_keys_follow_arrows(side: Side)
    ensures
        grows(side, nudge_of(LogicalKey::Named(NamedKey::End)).unwrap())
            == grows(side, nudge_of(LogicalKey::Named(NamedKey::ArrowRight)).unwrap()),
        grows(side, nudge_of(LogicalKey::Named(NamedKey::ArrowDown)).unwrap())
            == grows(side, nudge_of(LogicalKey::Named(NamedKey::ArrowRight)).unwrap()),
        grows(side, nudge_of(LogicalKey::Named(NamedKey::Home)).unwrap())
            == grows(side, nudge_of(LogicalKey::Named(NamedKey::ArrowLeft)).unwrap()),
        grows(side, nudge_of(LogicalKey::Named(NamedKey::ArrowUp)).unwrap())
            == grows(side, nudge_of(LogicalKey::Named(NamedKey::ArrowLeft)).unwrap()),
        grows(side, nudge_of(LogicalKey::Named(NamedKey::End)).unwrap())
            != grows(side, nudge_of(LogicalKey::Named(NamedKey::Home)).unwrap()),
{
}

/// Lifecycle law: a press, drag or release routed to the handle is the
/// matching step of its drag, a key press routed to it is a key, and
/// nothing routed elsewhere is for it.
pub proof fn lemma_handle_lifecycle(event: UiEvent, key: Seq<char>)
    ensures
        route_of(event) == Some(key) && event.kind == UiEventKind::PointerDown ==> spec_handle_input(event, key)
            == Some(HandleInput::Press),
        route_of(event) == Some(key) && event.kind == UiEventKind::Drag ==> spec_handle_input(event, key)
            == Some(HandleInput::Move),
        route_of(event) == Some(key) && event.kind == UiEventKind::PointerUp ==> spec_handle_input(event, key)
            == Some(HandleInput::Release),
        route_of(event) == Some(key) && event.kind == UiEventKind::KeyDown && event.key_press is Some
            ==> spec_handle_input(event, key) == Some(HandleInput::Key),
        route_of(event) != Some(key) ==> spec_handle_input(event, key).is_none(),
{
}

} // verus!
