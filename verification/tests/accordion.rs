use damascene_core::event::{KeyModifiers, UiEvent, UiEventKind};
use damascene_core::widgets::accordion::{
    accordion_item_key, apply_event, classify_event, AccordionAction,
};

fn click_event(key: &str) -> UiEvent {
    UiEvent {
        kind: UiEventKind::Click,
        key: Some(key.to_string()),
        target: None,
        key_press: None,
        text: None,
        modifiers: KeyModifiers::default(),
        click_count: 1,
        pointer_kind: None,
    }
}

#[test]
fn apply_event_toggles_single_open_value() {
    let mut open = Some("security".to_string());

    assert!(apply_event(
        &mut open,
        &click_event("settings:accordion:security"),
        "settings",
        |raw| Some(raw.to_string()),
    ));
    assert_eq!(open, None);

    assert!(apply_event(
        &mut open,
        &click_event("settings:accordion:billing"),
        "settings",
        |raw| Some(raw.to_string()),
    ));
    assert_eq!(open, Some("billing".to_string()));
}

#[test]
fn accordion_item_key_composes_the_routed_key() {
    assert_eq!(
        accordion_item_key("settings", "security"),
        "settings:accordion:security"
    );
}

#[test]
fn accordion_classify_reads_back_the_minted_key() {
    let key = accordion_item_key("settings", "billing");
    assert_eq!(
        classify_event(&click_event(&key), "settings"),
        Some(AccordionAction::Toggle("billing"))
    );
    assert_eq!(classify_event(&click_event("settings"), "settings"), None);
    assert_eq!(
        classify_event(&click_event("setting:accordion:billing"), "settings"),
        None
    );
    let mut down = click_event(&key);
    down.kind = UiEventKind::PointerDown;
    assert_eq!(classify_event(&down, "settings"), None);
    let mut act = click_event(&key);
    act.kind = UiEventKind::Activate;
    assert_eq!(
        classify_event(&act, "settings"),
        Some(AccordionAction::Toggle("billing"))
    );
}

#[test]
fn accordion_apply_event_keeps_state_when_parse_rejects() {
    let mut open: Option<u32> = Some(3);
    assert!(apply_event(
        &mut open,
        &click_event("k:accordion:x"),
        "k",
        |raw| raw.parse::<u32>().ok(),
    ));
    assert_eq!(open, Some(3));
    assert!(!apply_event(&mut open, &click_event("other"), "k", |raw| raw
        .parse::<u32>()
        .ok()));
    assert_eq!(open, Some(3));
    assert!(apply_event(&mut open, &click_event("k:accordion:3"), "k", |raw| raw
        .parse::<u32>()
        .ok()));
    assert_eq!(open, None);
}
