use damascene_core::event::{KeyModifiers, UiEvent, UiEventKind};
use damascene_core::widgets::select::{apply_event, classify_event, select_option_key, SelectAction};

fn click_event(key: &str) -> UiEvent {
    UiEvent {
        kind: UiEventKind::Click,
        key: Some(key.to_string()),
        target: None,
        key_press: None,
        text: None,
        modifiers: KeyModifiers::default(),
        click_count: 1,
        pointer_kind: None,
    }
}

#[test]
fn select_option_key_matches_widget_format() {
    assert_eq!(select_option_key("color", "red"), "color:option:red");
    assert_eq!(
        select_option_key("profile:7", &42u32.to_string()),
        "profile:7:option:42"
    );
}

#[test]
fn classify_event_routes_trigger_dismiss_and_option() {
    assert_eq!(
        classify_event(&click_event("color"), "color"),
        Some(SelectAction::Toggle),
    );
    assert_eq!(
        classify_event(&click_event("color:dismiss"), "color"),
        Some(SelectAction::Dismiss),
    );
    assert_eq!(
        classify_event(&click_event("color:option:red"), "color"),
        Some(SelectAction::Pick("red".to_string())),
    );

    assert_eq!(
        classify_event(&click_event("profile:7"), "profile:7"),
        Some(SelectAction::Toggle),
    );
    assert_eq!(
        classify_event(&click_event("profile:7:dismiss"), "profile:7"),
        Some(SelectAction::Dismiss),
    );
    assert_eq!(
        classify_event(&click_event("profile:7:option:42"), "profile:7"),
        Some(SelectAction::Pick("42".to_string())),
    );

    assert_eq!(classify_event(&click_event("mute:7"), "profile:7"), None);
    assert_eq!(
        classify_event(&click_event("profile:7-other"), "profile:7"),
        None,
    );
    assert_eq!(
        classify_event(&click_event("profile:7:option"), "profile:7"),
        None,
    );
}

#[test]
fn select_classify_event_ignores_non_activating_kinds() {
    let mut ev = click_event("color");
    ev.kind = UiEventKind::PointerDown;
    assert_eq!(classify_event(&ev, "color"), None);
    ev.kind = UiEventKind::Drag;
    assert_eq!(classify_event(&ev, "color"), None);
    ev.kind = UiEventKind::Activate;
    assert_eq!(
        classify_event(&ev, "color"),
        Some(SelectAction::Toggle),
        "keyboard activation should toggle like a click",
    );
}

#[test]
fn apply_event_folds_actions_into_value_and_open() {
    let mut value = String::from("red");
    let mut open = false;

    assert!(apply_event(
        &mut value,
        &mut open,
        &click_event("color"),
        "color",
        Some,
    ));
    assert!(open);
    assert_eq!(value, "red");

    assert!(apply_event(
        &mut value,
        &mut open,
        &click_event("color:option:blue"),
        "color",
        Some,
    ));
    assert_eq!(value, "blue");
    assert!(!open);

    apply_event(&mut value, &mut open, &click_event("color"), "color", Some);
    assert!(open);
    assert!(apply_event(
        &mut value,
        &mut open,
        &click_event("color:dismiss"),
        "color",
        Some,
    ));
    assert!(!open);
    assert_eq!(value, "blue", "dismiss must not alter the value");

    let mut value = String::from("v");
    let mut open = true;
    assert!(!apply_event(
        &mut value,
        &mut open,
        &click_event("unrelated"),
        "color",
        Some,
    ));
    assert_eq!((value.as_str(), open), ("v", true));
}

#[test]
fn apply_event_silently_ignores_unparseable_picks() {
    let mut value: u32 = 3;
    let mut open = true;
    assert!(apply_event(
        &mut value,
        &mut open,
        &click_event("profile:7:option:not-a-number"),
        "profile:7",
        |s| s.parse::<u32>().ok(),
    ));
    assert_eq!(value, 3, "value preserved when parse returns None");
    assert!(open, "open preserved when parse returns None");
}

#[test]
fn select_option_key_round_trips_through_classify() {
    let key = select_option_key("color", "dismiss");
    assert_eq!(
        classify_event(&click_event(&key), "color"),
        Some(SelectAction::Pick("dismiss".to_string()))
    );
    // `{key}:` followed by anything else is not this select's.
    assert_eq!(classify_event(&click_event("color:open"), "color"), None);
}
