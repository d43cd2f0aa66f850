use damascene_core::event::{
    KeyModifiers, KeyPress, LogicalKey, NamedKey, PointerKind, UiEvent, UiEventKind,
};
use damascene_core::widgets::field::FieldOpts;
use damascene_core::widgets::number_scrubber::{scrub_input, ScrubInput};
use damascene_core::widgets::numeric_input::{
    edits_field, is_acceptable_numeric_progress, step_request, step_scale, StepRequest, StepScale,
};
use damascene_core::widgets::popover::MenuDensity;
use damascene_core::widgets::resize_handle::{handle_input, handle_nudge, HandleInput, HandleNudge, Side};
use damascene_core::widgets::sidebar::SidebarOpts;
use damascene_core::widgets::slider::{classify_key, route_input, SliderInput, SliderKey};

fn key_event(key: &str, named: NamedKey, modifiers: KeyModifiers) -> UiEvent {
    UiEvent {
        kind: UiEventKind::KeyDown,
        key: Some(key.to_string()),
        target: Some(key.to_string()),
        key_press: Some(KeyPress {
            logical: LogicalKey::Named(named),
            modifiers,
            repeat: false,
        }),
        text: None,
        modifiers,
        click_count: 0,
        pointer_kind: None,
    }
}

fn pointer_event(key: &str, kind: UiEventKind) -> UiEvent {
    let mut e = UiEvent::synthetic_click(key);
    e.kind = kind;
    e
}

#[test]
fn slider_keys_follow_the_range_pattern() {
    let none = KeyModifiers::default();
    let cases = [
        (NamedKey::ArrowUp, Some(SliderKey::Increment)),
        (NamedKey::ArrowRight, Some(SliderKey::Increment)),
        (NamedKey::ArrowDown, Some(SliderKey::Decrement)),
        (NamedKey::ArrowLeft, Some(SliderKey::Decrement)),
        (NamedKey::PageUp, Some(SliderKey::PageIncrement)),
        (NamedKey::PageDown, Some(SliderKey::PageDecrement)),
        (NamedKey::Home, Some(SliderKey::Home)),
        (NamedKey::End, Some(SliderKey::End)),
        (NamedKey::Tab, None),
    ];
    for (named, want) in cases {
        assert_eq!(classify_key(&key_event("vol", named, none), "vol"), want);
    }
    // Routed elsewhere: not ours.
    assert_eq!(classify_key(&key_event("other", NamedKey::ArrowUp, none), "vol"), None);
}

#[test]
fn slider_pointer_events_route_as_pointer_input() {
    assert_eq!(route_input(&pointer_event("vol", UiEventKind::Drag), "vol"), Some(SliderInput::Pointer));
    assert_eq!(route_input(&pointer_event("vol", UiEventKind::Click), "vol"), Some(SliderInput::Pointer));
    assert_eq!(route_input(&pointer_event("vol", UiEventKind::PointerUp), "vol"), None);
    assert_eq!(route_input(&pointer_event("pan", UiEventKind::PointerDown), "vol"), None);
    assert_eq!(
        route_input(&key_event("vol", NamedKey::End, KeyModifiers::default()), "vol"),
        Some(SliderInput::Key(SliderKey::End))
    );
}

#[test]
fn handle_nudges_and_lifecycle() {
    let press = |named| KeyPress {
        logical: LogicalKey::Named(named),
        modifiers: KeyModifiers::default(),
        repeat: false,
    };
    assert_eq!(handle_nudge(&press(NamedKey::ArrowRight)), Some(HandleNudge::Forward));
    assert_eq!(handle_nudge(&press(NamedKey::ArrowDown)), Some(HandleNudge::Forward));
    assert_eq!(handle_nudge(&press(NamedKey::ArrowUp)), Some(HandleNudge::Back));
    assert_eq!(handle_nudge(&press(NamedKey::PageUp)), Some(HandleNudge::PageForward));
    assert_eq!(handle_nudge(&press(NamedKey::PageDown)), Some(HandleNudge::PageBack));
    assert_eq!(handle_nudge(&press(NamedKey::Home)), Some(HandleNudge::ToStart));
    assert_eq!(handle_nudge(&press(NamedKey::End)), Some(HandleNudge::ToEnd));
    assert_eq!(handle_nudge(&press(NamedKey::Enter)), None);

    assert_eq!(handle_input(&pointer_event("split", UiEventKind::PointerDown), "split"), Some(HandleInput::Press));
    assert_eq!(handle_input(&pointer_event("split", UiEventKind::Drag), "split"), Some(HandleInput::Move));
    assert_eq!(handle_input(&pointer_event("split", UiEventKind::PointerUp), "split"), Some(HandleInput::Release));
    assert_eq!(handle_input(&pointer_event("split", UiEventKind::Click), "split"), None);
    assert_eq!(handle_input(&pointer_event("other", UiEventKind::Drag), "split"), None);

    assert!(Side::Start.grows(HandleNudge::Forward));
    assert!(!Side::End.grows(HandleNudge::Forward));
    assert!(Side::End.grows(HandleNudge::ToStart));
    assert_eq!(Side::default(), Side::Start);
}

#[test]
fn numeric_input_steps_by_spinner_and_arrow() {
    let shift = KeyModifiers { shift: true, ..KeyModifiers::default() };
    let alt = KeyModifiers { alt: true, ..KeyModifiers::default() };
    let both = KeyModifiers { shift: true, alt: true, ..KeyModifiers::default() };
    assert_eq!(step_scale(KeyModifiers::default()), StepScale::Unit);
    assert_eq!(step_scale(shift), StepScale::Coarse);
    assert_eq!(step_scale(alt), StepScale::Fine);
    assert_eq!(step_scale(both), StepScale::Coarse);

    let mut inc = UiEvent::synthetic_click("qty:inc");
    inc.modifiers = shift;
    assert_eq!(step_request(&inc, "qty"), Some(StepRequest { up: true, scale: StepScale::Coarse }));
    assert_eq!(
        step_request(&UiEvent::synthetic_click("qty:dec"), "qty"),
        Some(StepRequest { up: false, scale: StepScale::Unit })
    );
    assert_eq!(
        step_request(&key_event("qty:field", NamedKey::ArrowUp, alt), "qty"),
        Some(StepRequest { up: true, scale: StepScale::Fine })
    );
    assert_eq!(
        step_request(&key_event("qty:field", NamedKey::ArrowDown, KeyModifiers::default()), "qty"),
        Some(StepRequest { up: false, scale: StepScale::Unit })
    );
    assert_eq!(step_request(&key_event("qty:field", NamedKey::ArrowLeft, KeyModifiers::default()), "qty"), None);
    assert_eq!(step_request(&key_event("qty:inc", NamedKey::ArrowUp, KeyModifiers::default()), "qty"), None);
    assert_eq!(step_request(&UiEvent::synthetic_click("qty"), "qty"), None);

    assert!(edits_field(&key_event("qty:field", NamedKey::Backspace, KeyModifiers::default()), "qty"));
    assert!(!edits_field(&key_event("qty", NamedKey::Backspace, KeyModifiers::default()), "qty"));
}

#[test]
fn numeric_progress_filter() {
    for ok in ["", "-", "1.", "1.5e+", "E-3", "0123456789"] {
        assert!(is_acceptable_numeric_progress(ok), "{ok:?}");
    }
    for bad in ["a", "1,5", " 1", "½", "1x"] {
        assert!(!is_acceptable_numeric_progress(bad), "{bad:?}");
    }
}

#[test]
fn scrubber_classifies_its_own_events() {
    let up = key_event("gain", NamedKey::ArrowUp, KeyModifiers::default());
    assert_eq!(scrub_input(&up, "gain"), Some(ScrubInput::Step(StepRequest { up: true, scale: StepScale::Unit })));
    let left = key_event("gain", NamedKey::ArrowLeft, KeyModifiers { alt: true, ..KeyModifiers::default() });
    assert_eq!(scrub_input(&left, "gain"), Some(ScrubInput::Step(StepRequest { up: false, scale: StepScale::Fine })));
    assert_eq!(scrub_input(&key_event("gain", NamedKey::Home, KeyModifiers::default()), "gain"), None);
    assert_eq!(scrub_input(&pointer_event("gain", UiEventKind::PointerDown), "gain"), Some(ScrubInput::Press));
    assert_eq!(scrub_input(&pointer_event("gain", UiEventKind::Drag), "gain"), Some(ScrubInput::Move));
    assert_eq!(scrub_input(&pointer_event("gain", UiEventKind::PointerUp), "gain"), Some(ScrubInput::Release));
    assert_eq!(scrub_input(&pointer_event("pan", UiEventKind::Drag), "gain"), None);
}

#[test]
fn menu_density_follows_the_opening_pointer() {
    assert_eq!(MenuDensity::from_pointer_kind(Some(PointerKind::Touch)), MenuDensity::Touch);
    assert_eq!(MenuDensity::from_pointer_kind(Some(PointerKind::Mouse)), MenuDensity::Compact);
    assert_eq!(MenuDensity::from_pointer_kind(None), MenuDensity::Compact);
    let mut ev = UiEvent::synthetic_click("menu");
    ev.pointer_kind = Some(PointerKind::Touch);
    assert_eq!(MenuDensity::from_event(&ev), MenuDensity::Touch);
    assert_eq!(MenuDensity::default(), MenuDensity::Compact);
}

#[test]
fn field_and_sidebar_options_set_one_field_each() {
    let opts = FieldOpts::default().description("We never share it").horizontal();
    assert_eq!(opts.description, Some("We never share it"));
    assert!(opts.horizontal);
    let plain = FieldOpts::default();
    assert_eq!(plain.description, None);
    assert!(!plain.horizontal);
    assert!(SidebarOpts::default().collapsed(true).collapsed);
    assert!(!SidebarOpts::default().collapsed);
}
