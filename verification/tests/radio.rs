use damascene_core::event::{UiEvent, UiEventKind};
use damascene_core::widgets::radio::{apply_event, classify_event, radio_option_key, RadioAction};

fn click(key: &str) -> UiEvent {
    UiEvent::synthetic_click(key)
}

#[test]
fn radio_option_key_matches_widget_format() {
    assert_eq!(radio_option_key("theme", "dark"), "theme:radio:dark");
    assert_eq!(radio_option_key("page:7", &42u32.to_string()), "page:7:radio:42");
}

#[test]
fn classify_event_selects_only_on_matching_route() {
    assert_eq!(
        classify_event(&click("theme:radio:dark"), "theme"),
        Some(RadioAction::Select("dark")),
    );
    // Compound parent keys.
    assert_eq!(
        classify_event(&click("page:7:radio:42"), "page:7"),
        Some(RadioAction::Select("42")),
    );
    // The group's own key alone isn't a select target.
    assert_eq!(classify_event(&click("theme"), "theme"), None);
    // Different group prefix.
    assert_eq!(classify_event(&click("other:radio:x"), "theme"), None);
    // Adjacent prefix.
    assert_eq!(classify_event(&click("theme-other:radio:x"), "theme"), None);
    // Wrong suffix shape (no `radio:` prefix on the rest).
    assert_eq!(classify_event(&click("theme:option:x"), "theme"), None);
}

#[test]
fn radio_classify_event_ignores_non_activating_kinds() {
    let mut ev = click("theme:radio:dark");
    ev.kind = UiEventKind::PointerDown;
    assert_eq!(classify_event(&ev, "theme"), None);
    ev.kind = UiEventKind::Activate;
    assert_eq!(
        classify_event(&ev, "theme"),
        Some(RadioAction::Select("dark")),
    );
}

#[test]
fn apply_event_folds_actions_into_value() {
    let mut theme = String::from("system");
    assert!(apply_event(
        &mut theme,
        &click("theme:radio:dark"),
        "theme",
        |s| Some(s.to_string()),
    ));
    assert_eq!(theme, "dark");

    // Unrelated event leaves state alone.
    assert!(!apply_event(&mut theme, &click("save"), "theme", |s| Some(
        s.to_string()
    ),));
    assert_eq!(theme, "dark");
}

#[test]
fn apply_event_silently_ignores_unparseable_values() {
    let mut page: u32 = 1;
    assert!(apply_event(
        &mut page,
        &click("page:radio:not-a-number"),
        "page",
        |s| s.parse::<u32>().ok(),
    ));
    assert_eq!(page, 1);
}

#[test]
fn radio_option_key_round_trips_through_classify() {
    let key = radio_option_key("size", "xl");
    assert_eq!(classify_event(&click(&key), "size"), Some(RadioAction::Select("xl")));
    // An empty value token is still a selection of the empty value.
    assert_eq!(classify_event(&click("size:radio:"), "size"), Some(RadioAction::Select("")));
}
