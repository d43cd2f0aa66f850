use damascene_core::event::{KeyModifiers, UiEvent, UiEventKind};
use damascene_core::widgets::collapsible::apply_event;

fn click_event(key: &str) -> UiEvent {
    UiEvent {
        kind: UiEventKind::Click,
        key: Some(key.to_string()),
        target: None,
        key_press: None,
        text: None,
        modifiers: KeyModifiers::default(),
        click_count: 1,
        pointer_kind: None,
    }
}

#[test]
fn apply_event_flips_the_app_owned_bool() {
    let mut open = false;

    assert!(apply_event(&mut open, &click_event("advanced"), "advanced"));
    assert!(open);
    assert!(apply_event(&mut open, &click_event("advanced"), "advanced"));
    assert!(!open);

    // Foreign keys and non-activation kinds are left alone.
    assert!(!apply_event(&mut open, &click_event("other"), "advanced"));
    assert!(!open);
    let mut down = click_event("advanced");
    down.kind = UiEventKind::PointerDown;
    assert!(!apply_event(&mut open, &down, "advanced"));
    assert!(!open);
}

#[test]
fn collapsible_keyboard_activation_flips_like_a_click() {
    let mut open = false;
    let mut act = click_event("advanced");
    act.kind = UiEventKind::Activate;
    assert!(apply_event(&mut open, &act, "advanced"));
    assert!(open);
    // A key that merely starts with the trigger key is not the trigger.
    assert!(!apply_event(&mut open, &click_event("advanced:x"), "advanced"));
    assert!(open);
}
