use damascene_core::event::UiEvent;
use damascene_core::key::{
    index, is_control, parse_usize, str_lt, strip_prefix, strip_suffix, suffix,
};

#[test]
fn strip_prefix_and_suffix_match_std() {
    for (s, p) in [("app:menu:file", "app"), ("app", "app:"), ("", ""), ("héllo", "hé"), ("abc", "b")] {
        assert_eq!(strip_prefix(s, p), s.strip_prefix(p), "{s:?} {p:?}");
        assert_eq!(strip_suffix(s, p), s.strip_suffix(p), "{s:?} {p:?}");
    }
    assert_eq!(strip_suffix("file:dismiss", ":dismiss"), Some("file"));
}

#[test]
fn parse_usize_matches_std() {
    for s in ["0", "42", "+7", "", "+", "-1", "007", "1_000", " 1", "18446744073709551615", "18446744073709551616", "99999999999999999999"] {
        assert_eq!(parse_usize(s), s.parse::<usize>().ok(), "{s:?}");
    }
}

#[test]
fn suffix_and_index_read_a_segment() {
    assert_eq!(suffix("parts:row:R14", "parts:row"), Some("R14"));
    assert_eq!(suffix("parts:rowR14", "parts:row"), None);
    assert_eq!(index("g:handle:3", "g:handle"), Some(3));
    assert_eq!(index("g:handle:3x", "g:handle"), None);
}

#[test]
fn control_chars_and_text_order() {
    for c in ['\u{0}', '\u{8}', '\t', '\n', '\r', '\u{1b}', '\u{7f}', '\u{85}', '\u{9f}', 'a', ' ', '€', '\u{a0}'] {
        assert_eq!(is_control(c), c.is_control(), "{c:?}");
    }
    for (a, b) in [("a", "b"), ("b", "a"), ("ab", "a"), ("a", "ab"), ("", ""), ("é", "z"), ("R14", "R15")] {
        assert_eq!(str_lt(a, b), a < b, "{a:?} {b:?}");
    }
}

#[test]
fn event_routes_and_targets() {
    let ev = UiEvent::synthetic_click("save");
    assert_eq!(ev.route(), Some("save"));
    assert_eq!(ev.target_key(), None);
    assert!(ev.is_click_or_activate("save"));
    assert!(!ev.is_click_or_activate("sav"));
    assert_eq!(ev.click_count, 1);
}
