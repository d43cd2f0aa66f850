//! The routed UI event the widgets fold into app-owned state.
//!
//! An event carries the routed key of the node it hit (`key`), the key
//! of the focused target it was delivered to (`target`), and, depending
//! on its kind, a key press, committed text, modifier state and the
//! pointer modality. Pointer coordinates are left to the host: none of
//! the logic in this crate reads them.

use vstd::prelude::*;
use crate::key::{opt_str_view, opt_view, owned, str_eq};

verus! {

/// What happened.
#[derive(Clone, Copy, Debug, PartialEq, Eq)]
pub enum UiEventKind {
    /// Pointer press-and-release on a keyed node.
    Click,
    /// Keyboard activation (Enter / Space) of the focused node.
    Activate,
    /// Pointer pressed.
    PointerDown,
    /// Pointer released.
    PointerUp,
    /// Pointer entered a node.
    PointerEnter,
    /// Pointer left a node.
    PointerLeave,
    /// Pointer moved while pressed.
    Drag,
    /// A key went down on the focused node.
    KeyDown,
    /// Committed text for the focused node.
    TextInput,
    /// Escape was pressed.
    Escape,
}

/// Keys with a name rather than a character.
#[derive(Clone, Copy, Debug, PartialEq, Eq)]
pub enum NamedKey {
    /// Up arrow.
    ArrowUp,
    /// Down arrow.
    ArrowDown,
    /// Left arrow.
    ArrowLeft,
    /// Right arrow.
    ArrowRight,
    /// Backspace.
    Backspace,
    /// Delete.
    Delete,
    /// Home.
    Home,
    /// End.
    End,
    /// Page up.
    PageUp,
    /// Page down.
    PageDown,
    /// Tab.
    Tab,
    /// Enter / Return.
    Enter,
    /// Escape.
    Escape,
    /// Space bar.
    Space,
}

/// The logical meaning of a key press.
#[derive(Clone, Debug, PartialEq, Eq)]
pub enum LogicalKey {
    /// A named key.
    Named(NamedKey),
    /// A key producing text.
    Character(String),
    /// Anything else.
    Unidentified,
}

impl LogicalKey {
    /// The named key, if this is one.
    pub fn named(&self) -> (r: Option<NamedKey>)
        ensures
            r == match self {
                LogicalKey::Named(n) => Some(*n),
                _ => None,
            },
    {
        match self {
            LogicalKey::Named(n) => Some(*n),
            _ => None,
        }
    }
}

/// Modifier keys held during an event.
#[derive(Clone, Copy, Debug, Default, PartialEq, Eq)]
pub struct KeyModifiers {
    /// Shift.
    pub shift: bool,
    /// Control.
    pub ctrl: bool,
    /// Alt / Option (AltGr reports as Ctrl+Alt).
    pub alt: bool,
    /// Super / Command / Windows.
    pub logo: bool,
}

/// A key press delivered with a `KeyDown`.
#[derive(Clone, Debug, PartialEq, Eq)]
pub struct KeyPress {
    /// What the key means.
    pub logical: LogicalKey,
    /// Modifiers held with it.
    pub modifiers: KeyModifiers,
    /// Auto-repeat.
    pub repeat: bool,
}

/// The input modality behind a pointer event.
#[derive(Clone, Copy, Debug, PartialEq, Eq)]
pub enum PointerKind {
    /// A mouse or trackpad.
    Mouse,
    /// A finger on a touch screen.
    Touch,
    /// A stylus.
    Pen,
}

/// One routed UI event.
#[derive(Clone, Debug)]
pub struct UiEvent {
    /// What happened.
    pub kind: UiEventKind,
    /// The routed key of the node the event hit, if it is keyed.
    pub key: Option<String>,
    /// The key of the focused node the event was delivered to.
    pub target: Option<String>,
    /// The key press, for `KeyDown`.
    pub key_press: Option<KeyPress>,
    /// Committed text, for `TextInput`.
    pub text: Option<String>,
    /// Modifier state.
    pub modifiers: KeyModifiers,
    /// Click multiplicity (1 single, 2 double, ...).
    pub click_count: u8,
    /// Which pointer produced the event, when a pointer did.
    pub pointer_kind: Option<PointerKind>,
}

/// `Click` or `Activate` — the two kinds that mean "the user chose
/// this".
pub open spec fn is_activation(kind: UiEventKind) -> bool {
    kind == UiEventKind::Click || kind == UiEventKind::Activate
}

/// The routed key of an event, as text.
pub open spec fn route_of(event: UiEvent) -> Option<Seq<char>> {
    opt_view(event.key)
}

/// The target key of an event, as text.
pub open spec fn target_of(event: UiEvent) -> Option<Seq<char>> {
    opt_view(event.target)
}

/// The routed key of an activation event; `None` for any other kind.
pub open spec fn activated_route(event: UiEvent) -> Option<Seq<char>> {
    if is_activation(event.kind) {
        route_of(event)
    } else {
        None
    }
}

impl UiEvent {
    /// A `Click` on the node keyed `key` — what a real pointer click on
    /// that node delivers, for driving widgets without a pointer.
    pub fn synthetic_click(key: &str) -> (e: UiEvent)
        ensures
            e.kind == UiEventKind::Click,
            route_of(e) == Some(key@),
            e.target.is_none(),
            e.key_press.is_none(),
            e.text.is_none(),
            e.modifiers == no_modifiers(),
            e.click_count == 1,
            e.pointer_kind.is_none(),
    {
        UiEvent {
            kind: UiEventKind::Click,
            key: Some(owned(key)),
            target: None,
            key_press: None,
            text: None,
            modifiers: KeyModifiers { shift: false, ctrl: false, alt: false, logo: false },
            click_count: 1,
            pointer_kind: None,
        }
    }

    /// The routed key the event hit.
    pub fn route(&self) -> (r: Option<&str>)
        ensures
            opt_str_view(r) == route_of(*self),
    {
        match &self.key {
            Some(k) => Some(k.as_str()),
            None => None,
        }
    }

    /// The key of the focused node the event was delivered to.
    pub fn target_key(&self) -> (r: Option<&str>)
        ensures
            opt_str_view(r) == target_of(*self),
    {
        match &self.target {
            Some(k) => Some(k.as_str()),
            None => None,
        }
    }

    /// Whether this is a `Click` or `Activate` routed to exactly `key`.
    pub fn is_click_or_activate(&self, key: &str) -> (r: bool)
        ensures
            r == (activated_route(*self) == Some(key@)),
    {
        match self.kind {
            UiEventKind::Click | UiEventKind::Activate => match self.route() {
                Some(route) => str_eq(route, key),
                None => false,
            },
            _ => false,
        }
    }
}

/// `KeyModifiers::default()`: nothing held.
pub open spec fn no_modifiers() -> KeyModifiers {
    KeyModifiers { shift: false, ctrl: false, alt: false, logo: false }
}

} // verus!
