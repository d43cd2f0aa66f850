use damascene_core::event::{KeyModifiers, KeyPress, LogicalKey, NamedKey, UiEvent, UiEventKind};
use damascene_core::widgets::input_otp::{active_cell, apply_event, otp_cells};

fn text_input_event(key: &str, txt: &str) -> UiEvent {
    UiEvent {
        kind: UiEventKind::TextInput,
        key: Some(key.to_string()),
        target: Some(key.to_string()),
        key_press: None,
        text: Some(txt.to_string()),
        modifiers: KeyModifiers::default(),
        click_count: 0,
        pointer_kind: None,
    }
}

fn backspace_event(key: &str) -> UiEvent {
    UiEvent {
        kind: UiEventKind::KeyDown,
        key: Some(key.to_string()),
        target: Some(key.to_string()),
        key_press: Some(KeyPress {
            logical: LogicalKey::Named(NamedKey::Backspace),
            modifiers: KeyModifiers::default(),
            repeat: false,
        }),
        text: None,
        modifiers: KeyModifiers::default(),
        click_count: 0,
        pointer_kind: None,
    }
}

#[test]
fn text_input_appends_chars() {
    let mut value = String::new();
    assert!(apply_event(&mut value, "code", 6, &text_input_event("code", "1")));
    assert_eq!(value, "1");
    assert!(apply_event(&mut value, "code", 6, &text_input_event("code", "2")));
    assert_eq!(value, "12");
}

#[test]
fn text_input_caps_at_length() {
    let mut value = String::from("12345");
    assert!(apply_event(&mut value, "code", 6, &text_input_event("code", "67")));
    assert_eq!(value, "123456");
}

#[test]
fn text_input_dropped_when_full() {
    let mut value = String::from("123456");
    assert!(!apply_event(&mut value, "code", 6, &text_input_event("code", "7")));
    assert_eq!(value, "123456");
}

#[test]
fn backspace_pops_last_char() {
    let mut value = String::from("123");
    assert!(apply_event(&mut value, "code", 6, &backspace_event("code")));
    assert_eq!(value, "12");
}

#[test]
fn backspace_on_empty_is_noop() {
    let mut value = String::new();
    assert!(!apply_event(&mut value, "code", 6, &backspace_event("code")));
    assert!(value.is_empty());
}

#[test]
fn ignores_events_for_other_keys() {
    let mut value = String::new();
    assert!(!apply_event(&mut value, "code", 6, &text_input_event("other", "x")));
    assert_eq!(value, "");
}

#[test]
fn text_input_drops_control_chars_so_backspace_doesnt_self_insert() {
    let mut value = String::from("123");
    assert!(apply_event(&mut value, "code", 6, &backspace_event("code")));
    assert_eq!(value, "12");
    let mut bs_text = text_input_event("code", "\u{8}");
    assert!(!apply_event(&mut value, "code", 6, &bs_text));
    assert_eq!(value, "12", "control char should not be inserted");
    for ctl in ["\r", "\n", "\t", "\u{1b}", "\u{7f}"] {
        bs_text = text_input_event("code", ctl);
        assert!(
            !apply_event(&mut value, "code", 6, &bs_text),
            "control char {ctl:?} should be dropped",
        );
        assert_eq!(value, "12");
    }
}

#[test]
fn text_input_drops_ctrl_modified_chars() {
    let mut value = String::new();
    let mut ev = text_input_event("code", "c");
    ev.modifiers = KeyModifiers {
        ctrl: true,
        ..KeyModifiers::default()
    };
    assert!(!apply_event(&mut value, "code", 6, &ev));
    assert_eq!(value, "");
}

#[test]
fn text_input_keeps_alt_gr_chars() {
    let mut value = String::new();
    let mut ev = text_input_event("code", "@");
    ev.modifiers = KeyModifiers {
        ctrl: true,
        alt: true,
        ..KeyModifiers::default()
    };
    assert!(apply_event(&mut value, "code", 6, &ev));
    assert_eq!(value, "@");
}

#[test]
fn paste_of_multiple_chars_fills_remaining_cells() {
    let mut value = String::new();
    assert!(apply_event(&mut value, "code", 6, &text_input_event("code", "abcdef")));
    assert_eq!(value, "abcdef");
}

#[test]
fn otp_logo_modified_and_mixed_text() {
    let mut value = String::new();
    let mut ev = text_input_event("code", "v");
    ev.modifiers = KeyModifiers { logo: true, ..KeyModifiers::default() };
    assert!(!apply_event(&mut value, "code", 6, &ev));
    // Control characters inside a paste are skipped, the rest lands,
    // multi-byte characters count as one cell each.
    assert!(apply_event(&mut value, "code", 4, &text_input_event("code", "é\u{85}1\u{0}2€9")));
    assert_eq!(value, "é12€");
    // A key press other than Backspace does nothing.
    let mut tab = backspace_event("code");
    tab.key_press = Some(KeyPress {
        logical: LogicalKey::Named(NamedKey::Tab),
        modifiers: KeyModifiers::default(),
        repeat: false,
    });
    assert!(!apply_event(&mut value, "code", 4, &tab));
    assert_eq!(value, "é12€");
}

#[test]
fn build_widget_has_one_cell_per_length_with_correct_active_marker() {
    let cells = otp_cells("12", 6);
    assert_eq!(cells.len(), 6);
    // Cell index 2 (next-to-fill) carries the active border.
    assert_eq!(active_cell("12", 6), Some(2));
}

#[test]
fn full_value_renders_no_active_cell() {
    assert_eq!(active_cell("123456", 6), None);
    assert!(otp_cells("123456", 6).iter().all(|c| c.is_some()));
}

#[test]
fn otp_cells_and_active_marker() {
    assert_eq!(otp_cells("12", 4), vec![Some('1'), Some('2'), None, None]);
    assert_eq!(otp_cells("123456", 3), vec![Some('1'), Some('2'), Some('3')]);
    assert_eq!(active_cell("12", 6), Some(2));
    assert_eq!(active_cell("123456", 6), None);
    assert_eq!(active_cell("", 0), None);
}
