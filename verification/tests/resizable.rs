use damascene_core::event::UiEvent;
use damascene_core::widgets::resizable::{handle_of, resizable_handle_key};

#[test]
fn handle_key_matches_widget_format() {
    assert_eq!(resizable_handle_key("g", 0), "g:handle:0");
    assert_eq!(resizable_handle_key("card:7", 2), "card:7:handle:2");
}

#[test]
fn handle_of_reads_live_handles_only() {
    let ev = UiEvent::synthetic_click(&resizable_handle_key("g", 1));
    assert_eq!(handle_of(&ev, "g", 3), Some(1));
    // Stale: with two panels there is only handle 0.
    assert_eq!(handle_of(&ev, "g", 2), None);
    // One panel has no handles at all.
    assert_eq!(handle_of(&UiEvent::synthetic_click("g:handle:0"), "g", 1), None);
    // Another group, and non-numeric handles, are not ours.
    assert_eq!(handle_of(&UiEvent::synthetic_click("h:handle:0"), "g", 3), None);
    assert_eq!(handle_of(&UiEvent::synthetic_click("g:handle:x"), "g", 3), None);
    assert_eq!(handle_of(&UiEvent::synthetic_click("g:handle:+1"), "g", 3), Some(1));
}
