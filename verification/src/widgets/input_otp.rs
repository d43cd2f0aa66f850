//! Input OTP — a row of `length` single-character cells for typing a
//! one-time password / verification code.
//!
//! The app owns the value as a `String`; `TextInput` events routed to
//! the row append (capped at `length`, control characters dropped) and
//! `Backspace` pops the most recent character. The widget is
//! character-class agnostic — apps post-filter for digits-only codes.

use vstd::prelude::*;
use crate::event::{target_of, UiEvent, UiEventKind, NamedKey, KeyModifiers};
use crate::key::{is_control, opt_view, pop_char, push_char, spec_is_control, str_eq};

verus! {

/// The characters of `text` that are not control characters, in order.
pub open spec fn printable(text: Seq<char>) -> Seq<char>
    decreases text.len(),
{
    if text.len() == 0 {
        Seq::empty()
    } else if spec_is_control(text.last()) {
        printable(text.drop_last())
    } else {
        printable(text.drop_last()).push(text.last())
    }
}

/// How many more characters fit in a value of `len` characters.
pub open spec fn room(len: nat, length: nat) -> nat {
    if len < length { (length - len) as nat } else { 0 }
}

/// What a `TextInput` carrying `text` appends to a value of `len`
/// characters: its printable characters, as many as still fit.
pub open spec fn appended(text: Seq<char>, len: nat, length: nat) -> Seq<char> {
    let p = printable(text);
    if p.len() <= room(len, length) { p } else { p.subrange(0, room(len, length) as int) }
}

/// Modifier states whose text is a shortcut's by-product, not typing:
/// Ctrl without Alt (AltGr reports as Ctrl+Alt and still types) or the
/// logo key.
pub open spec fn is_shortcut(m: KeyModifiers) -> bool {
    (m.ctrl && !m.alt) || m.logo
}

/// Whether the event is a `KeyDown` of Backspace.
pub open spec fn is_backspace(event: UiEvent) -> bool {
    event.kind == UiEventKind::KeyDown && match event.key_press {
        Some(kp) => kp.logical == crate::event::LogicalKey::Named(NamedKey::Backspace),
        None => false,
    }
}

/// The value after folding `event` into `value` for the OTP keyed
/// `key` with `length` cells.
pub open spec fn spec_apply(value: Seq<char>, key: Seq<char>, length: nat, event: UiEvent) -> Seq<char> {
    if target_of(event) != Some(key) {
        value
    } else if event.kind == UiEventKind::TextInput {
        match opt_view(event.text) {
            Some(text) => if is_shortcut(event.modifiers) {
                value
            } else {
                value + appended(text, value.len(), length)
            },
            None => value,
        }
    } else if is_backspace(event) && value.len() > 0 {
        value.drop_last()
    } else {
        value
    }
}

/// Printable characters of a concatenation are the concatenation of
/// each part's printable characters.
pub proof fn lemma_printable_concat(a: Seq<char>, b: Seq<char>)
    ensures
        printable(a + b) == printable(a) + printable(b),
    decreases b.len(),
{
    if b.len() == 0 {
        assert(a + b =~= a);
        assert(printable(b) =~= Seq::<char>::empty());
        assert(printable(a) + printable(b) =~= printable(a));
    } else {
        lemma_printable_concat(a, b.drop_last());
        assert((a + b).drop_last() =~= a + b.drop_last());
        assert((a + b).last() == b.last());
        if !spec_is_control(b.last()) {
            assert(printable(a) + printable(b) =~= (printable(a) + printable(b.drop_last())).push(b.last()));
        }
    }
}

/// Fold a routed [`UiEvent`] into `value`. Returns `true` if the event
/// belonged to this widget and changed the value.
///
/// - `TextInput` routed to `key` appends each non-control character of
///   its text, capped so the value never grows past `length`
///   characters; text that arrives with a shortcut modifier (Ctrl
///   without Alt, or the logo key) is dropped.
/// - `KeyDown` of Backspace routed to `key` pops the last character.
pub fn apply_event(value: &mut String, key: &str, length: usize, event: &UiEvent) -> (r: bool)
    ensures
        final(value)@ == spec_apply(old(value)@, key@, length as nat, *event),
        r == (final(value)@ != old(value)@),
{
    let is_ours = match event.target_key() {
        Some(t) => str_eq(t, key),
        None => false,
    };
    if !is_ours {
        return false;
    }
    match event.kind {
        UiEventKind::TextInput => {
            let text = match &event.text {
                Some(t) => t.as_str(),
                None => return false,
            };
            if (event.modifiers.ctrl && !event.modifiers.alt) || event.modifiers.logo {
                return false;
            }
            let ghost start = value@;
            let ghost rm = room(start.len(), length as nat);
            let n = text.unicode_len();
            let mut count = value.unicode_len();
            let mut changed = false;
            let mut i: usize = 0;
            while i < n
                invariant_except_break
                    i <= n,
                    n == text@.len(),
                    value@ == start + printable(text@.subrange(0, i as int)),
                    count == value@.len(),
                    printable(text@.subrange(0, i as int)).len() <= rm,
                    rm == room(start.len(), length as nat),
                    changed == (printable(text@.subrange(0, i as int)).len() > 0),
                ensures
                    i <= n,
                    value@ == start + printable(text@.subrange(0, i as int)),
                    changed == (printable(text@.subrange(0, i as int)).len() > 0),
                    printable(text@.subrange(0, i as int)).len() == rm || i == n,
                    printable(text@.subrange(0, i as int)).len() <= rm,
                decreases n - i,
            {
                let ch = text.get_char(i);
                let ghost pre = text@.subrange(0, i as int);
                let ghost next = text@.subrange(0, i + 1);
                assert(next.drop_last() =~= pre);
                assert(next.last() == ch);
                if is_control(ch) {
                    i = i + 1;
                    continue;
                }
                if count >= length {
                    break;
                }
                push_char(value, ch);
                count = count + 1;
                changed = true;
                i = i + 1;
            }
            proof {
                let p = printable(text@.subrange(0, i as int));
                lemma_printable_concat(text@.subrange(0, i as int), text@.subrange(i as int, n as int));
                assert(text@.subrange(0, i as int) + text@.subrange(i as int, n as int) =~= text@);
                let whole = printable(text@);
                assert(whole.subrange(0, p.len() as int) =~= p);
                if i == n {
                    assert(text@.subrange(0, n as int) =~= text@);
                }
                assert(appended(text@, start.len(), length as nat) =~= p);
                if p.len() == 0 {
                    assert(value@ =~= start);
                } else {
                    assert(value@.len() > start.len());
                }
            }
            changed
        },
        UiEventKind::KeyDown => {
            let kp = match &event.key_press {
                Some(kp) => kp,
                None => return false,
            };
            match kp.logical.named() {
                Some(NamedKey::Backspace) => {
                    let popped = pop_char(value);
                    popped.is_some()
                },
                _ => false,
            }
        },
        _ => false,
    }
}

/// Typing law: text is dropped only for the shortcut chords — Ctrl
/// without Alt, or the logo key. Shift and Alt (and AltGr, which
/// reports as Ctrl+Alt) type as if no modifier were held.
pub proof fn lemma_shift_and_alt_still_type(value: Seq<char>, key: Seq<char>, length: nat, event: UiEvent)
    requires
        !event.modifiers.logo,
        !event.modifiers.ctrl || event.modifiers.alt,
    ensures
        spec_apply(value, key, length, event) == spec_apply(
            value,
            key,
            length,
            UiEvent { modifiers: KeyModifiers { shift: false, ctrl: false, alt: false, logo: false }, ..event },
        ),
{
}

/// Typing law: a printable character typed into the row while it is
/// not full is appended, under any modifiers but the shortcut chords.
pub proof fn lemma_typed_char_is_appended(value: Seq<char>, key: Seq<char>, length: nat, event: UiEvent, c: char)
    requires
        target_of(event) == Some(key),
        event.kind == UiEventKind::TextInput,
        opt_view(event.text) == Some(seq![c]),
        !spec_is_control(c),
        !event.modifiers.logo,
        !event.modifiers.ctrl || event.modifiers.alt,
        value.len() < length,
    ensures
        spec_apply(value, key, length, event) == value.push(c),
{
    reveal_with_fuel(printable, 2);
    assert(seq![c].drop_last() =~= Seq::<char>::empty());
    assert(printable(seq![c]) =~= seq![c]);
}

/// Shortcut law: text that arrives with Ctrl (without Alt) or the logo
/// key never reaches the value.
pub proof fn lemma_shortcut_text_dropped(value: Seq<char>, key: Seq<char>, length: nat, event: UiEvent)
    requires
        event.kind == UiEventKind::TextInput,
        (event.modifiers.ctrl && !event.modifiers.alt) || event.modifiers.logo,
    ensures
        spec_apply(value, key, length, event) == value,
{
}

/// Targeting and Backspace law: an event delivered to any other target
/// leaves the value alone; a Backspace delivered to the row removes
/// exactly the last character of a non-empty value and leaves an empty
/// one empty; and typing never alters the characters already there.
pub proof fn lemma_backspace_and_targeting(value: Seq<char>, key: Seq<char>, length: nat, event: UiEvent)
    ensures
        target_of(event) != Some(key) ==> spec_apply(value, key, length, event) == value,
        target_of(event) == Some(key) && is_backspace(event) && value.len() > 0 ==> spec_apply(value, key, length, event)
            == value.subrange(0, value.len() - 1),
        target_of(event) == Some(key) && is_backspace(event) && value.len() == 0 ==> spec_apply(value, key, length, event)
            == value,
        event.kind == UiEventKind::TextInput ==> spec_apply(value, key, length, event).subrange(0, value.len() as int)
            == value,
{
    if event.kind == UiEventKind::TextInput {
        let r = spec_apply(value, key, length, event);
        assert(r.subrange(0, value.len() as int) =~= value);
    }
}

/// The cells of an OTP row: for each of the `length` positions, the
/// character of `value` shown there, if any.
pub fn otp_cells(value: &str, length: usize) -> (r: Vec<Option<char>>)
    ensures
        r@.len() == length,
        forall|i: int| 0 <= i < length ==> #[trigger] r@[i] == if i < value@.len() {
            Some(value@[i])
        } else {
            None::<char>
        },
{
    let n = value.unicode_len();
    let mut r: Vec<Option<char>> = Vec::new();
    let mut i: usize = 0;
    while i < length
        invariant
            i <= length,
            n == value@.len(),
            r@.len() == i,
            forall|k: int| 0 <= k < i ==> #[trigger] r@[k] == if k < value@.len() {
                Some(value@[k])
            } else {
                None::<char>
            },
        decreases length - i,
    {
        if i < n {
            r.push(Some(value.get_char(i)));
        } else {
            r.push(None);
        }
        i = i + 1;
    }
    r
}

/// The next-to-fill cell, which carries the active border: the cell
/// after the last filled one, or none when every cell is filled.
pub fn active_cell(value: &str, length: usize) -> (r: Option<usize>)
    ensures
        r == if value@.len() < length { Some(value@.len() as usize) } else { None::<usize> },
{
    let filled = value.unicode_len();
    if filled < length {
        Some(filled)
    } else {
        None
    }
}

/// The value never grows past `length` characters through this fold:
/// a value that fits stays within `length`, and one already longer
/// only ever shrinks.
pub proof fn lemma_length_bound(value: Seq<char>, key: Seq<char>, length: nat, event: UiEvent)
    ensures
        spec_apply(value, key, length, event).len() <= if value.len() <= length { length } else { value.len() },
{
}

/// A Backspace routed to the row undoes the character a one-character
/// `TextInput` just appended, whenever that character was accepted.
pub proof fn lemma_backspace_undoes_append(
    value: Seq<char>,
    key: Seq<char>,
    length: nat,
    typed: UiEvent,
    backspace: UiEvent,
)
    requires
        target_of(typed) == Some(key),
        target_of(backspace) == Some(key),
        typed.kind == UiEventKind::TextInput,
        opt_view(typed.text).is_some(),
        opt_view(typed.text).unwrap().len() == 1,
        is_backspace(backspace),
        spec_apply(value, key, length, typed) != value,
    ensures
        spec_apply(spec_apply(value, key, length, typed), key, length, backspace) == value,
{
    let text = opt_view(typed.text).unwrap();
    assert(text.drop_last() =~= Seq::<char>::empty());
    assert(printable(text.drop_last()) =~= Seq::<char>::empty());
    let a = appended(text, value.len(), length);
    assert(a.len() == 1);
    assert((value + a).drop_last() =~= value);
}

/// A full value takes no more text: once the value holds `length`
/// characters, every `TextInput` leaves it as it is.
pub proof fn lemma_full_drops_text(value: Seq<char>, key: Seq<char>, length: nat, event: UiEvent)
    requires
        value.len() >= length,
        event.kind == UiEventKind::TextInput,
    ensures
        spec_apply(value, key, length, event) == value,
{
    if let Some(text) = opt_view(event.text) {
        if target_of(event) == Some(key) && !is_shortcut(event.modifiers) {
            let p = printable(text);
            assert(appended(text, value.len(), length) =~= Seq::<char>::empty()) by {
                if p.len() > 0 {
                    assert(p.subrange(0, 0) =~= Seq::<char>::empty());
                }
            }
            assert(value + Seq::<char>::empty() =~= value);
        }
    }
}

} // verus!
