use damascene_core::event::{UiEvent, UiEventKind};
use damascene_core::widgets::menubar::{apply_event, classify_event, menubar_trigger_key, MenubarAction};

fn click_event(key: &str) -> UiEvent {
    UiEvent {
        kind: UiEventKind::Click,
        key: Some(key.to_string()),
        target: None,
        key_press: None,
        text: None,
        modifiers: Default::default(),
        click_count: 1,
        pointer_kind: None,
    }
}

#[test]
fn trigger_key_matches_widget_format() {
    assert_eq!(menubar_trigger_key("app", "file"), "app:menu:file");
    assert_eq!(
        menubar_trigger_key("workspace:7", &42u32.to_string()),
        "workspace:7:menu:42"
    );
}

#[test]
fn classify_event_routes_toggle_and_dismiss() {
    assert_eq!(
        classify_event(&click_event("app:menu:file"), "app"),
        Some(MenubarAction::Toggle("file")),
    );
    assert_eq!(
        classify_event(&click_event("app:menu:file:dismiss"), "app"),
        Some(MenubarAction::Dismiss("file")),
    );
    assert_eq!(classify_event(&click_event("apple:menu:file"), "app"), None);

    let mut ev = click_event("app:menu:file");
    ev.kind = UiEventKind::PointerDown;
    assert_eq!(classify_event(&ev, "app"), None);
}

#[test]
fn apply_event_toggles_open_slot_and_dismisses_active_menu() {
    let mut open = None;
    assert!(apply_event(&mut open, &click_event("app:menu:file"), "app"));
    assert_eq!(open.as_deref(), Some("file"));

    assert!(apply_event(&mut open, &click_event("app:menu:file"), "app"));
    assert_eq!(open, None);

    assert!(apply_event(&mut open, &click_event("app:menu:edit"), "app"));
    assert_eq!(open.as_deref(), Some("edit"));

    assert!(apply_event(
        &mut open,
        &click_event("app:menu:file:dismiss"),
        "app"
    ));
    assert_eq!(open.as_deref(), Some("edit"));

    assert!(apply_event(
        &mut open,
        &click_event("app:menu:edit:dismiss"),
        "app"
    ));
    assert_eq!(open, None);
}

#[test]
fn menubar_unrelated_events_leave_the_slot_alone() {
    let mut open = Some("view".to_string());
    assert!(!apply_event(&mut open, &click_event("app:file"), "app"));
    assert!(!apply_event(&mut open, &click_event("other:menu:view"), "app"));
    assert_eq!(open.as_deref(), Some("view"));
}
