//! Routed-key text: the small string vocabulary every widget uses to
//! mint a routed key (`{key}:{kind}:{value}`) and to take one apart
//! again when the event comes back.
//!
//! Keys are compared and cut as sequences of Unicode scalar values
//! (`str@`), which is what `str::strip_prefix` / `strip_suffix` do on
//! UTF-8 text when the pattern is itself a string.

use vstd::prelude::*;

verus! {

// ---------------------------------------------------------------------
// Specification vocabulary
// ---------------------------------------------------------------------

/// `p` is a prefix of `s`.
pub open spec fn starts_with(s: Seq<char>, p: Seq<char>) -> bool {
    p.len() <= s.len() && s.subrange(0, p.len() as int) == p
}

/// `p` is a suffix of `s`.
pub open spec fn ends_with(s: Seq<char>, p: Seq<char>) -> bool {
    p.len() <= s.len() && s.subrange(s.len() - p.len(), s.len() as int) == p
}

/// What `str::strip_prefix` gives back: the rest of `s` after `p`.
pub open spec fn spec_strip_prefix(s: Seq<char>, p: Seq<char>) -> Option<Seq<char>> {
    if starts_with(s, p) {
        Some(s.subrange(p.len() as int, s.len() as int))
    } else {
        None
    }
}

/// What `str::strip_suffix` gives back: `s` without its tail `p`.
pub open spec fn spec_strip_suffix(s: Seq<char>, p: Seq<char>) -> Option<Seq<char>> {
    if ends_with(s, p) {
        Some(s.subrange(0, s.len() - p.len()))
    } else {
        None
    }
}

/// The separator between the segments of a routed key.
pub open spec fn colon() -> Seq<char> {
    seq![':']
}

/// The view of an optional owned string.
pub open spec fn opt_view(s: Option<String>) -> Option<Seq<char>> {
    match s {
        Some(t) => Some(t@),
        None => None,
    }
}

/// The ASCII digit for `d < 10`.
pub open spec fn digit_char(d: nat) -> char {
    ((d + 48) as u32) as char
}

/// Whether `c` is an ASCII decimal digit.
pub open spec fn is_digit(c: char) -> bool {
    '0' <= c && c <= '9'
}

/// The value of an ASCII digit.
pub open spec fn digit_value(c: char) -> nat {
    ((c as u32) - 48) as nat
}

/// Canonical decimal text of `n`: no sign, no leading zeros (`0` is
/// `"0"`). What `{}` formatting prints for an unsigned integer.
pub open spec fn decimal(n: nat) -> Seq<char>
    decreases n,
{
    if n < 10 {
        seq![digit_char(n)]
    } else {
        decimal(n / 10).push(digit_char(n % 10))
    }
}

/// All characters of `s` are ASCII digits.
pub open spec fn all_digits(s: Seq<char>) -> bool {
    forall|i: int| 0 <= i < s.len() ==> is_digit(#[trigger] s[i])
}

/// The value of a run of decimal digits, most significant first.
pub open spec fn digits_value(s: Seq<char>) -> nat
    decreases s.len(),
{
    if s.len() == 0 {
        0
    } else {
        digits_value(s.drop_last()) * 10 + digit_value(s.last())
    }
}

/// The digit run of an unsigned-integer literal: the text after an
/// optional single leading `+`.
pub open spec fn unsigned_digits(s: Seq<char>) -> Seq<char> {
    if s.len() > 0 && s[0] == '+' {
        s.subrange(1, s.len() as int)
    } else {
        s
    }
}

/// What `s.parse::<usize>()` yields, as an `Option`: an optional `+`
/// followed by at least one ASCII digit, with a value that fits.
pub open spec fn spec_parse_usize(s: Seq<char>) -> Option<usize> {
    let d = unsigned_digits(s);
    if d.len() > 0 && all_digits(d) && digits_value(d) <= usize::MAX {
        Some(digits_value(d) as usize)
    } else {
        None
    }
}

/// `key::suffix`: the text after `{prefix}:` in `route`.
pub open spec fn spec_suffix(route: Seq<char>, prefix: Seq<char>) -> Option<Seq<char>> {
    spec_strip_prefix(route, prefix + colon())
}

/// `key::index`: the text after `{prefix}:`, parsed as an index.
pub open spec fn spec_index(route: Seq<char>, prefix: Seq<char>) -> Option<usize> {
    match spec_suffix(route, prefix) {
        Some(rest) => spec_parse_usize(rest),
        None => None,
    }
}

/// Unicode general category `Cc` — what `char::is_control` tests.
pub open spec fn spec_is_control(c: char) -> bool {
    (c as u32) <= 0x1f || (0x7f <= (c as u32) && (c as u32) <= 0x9f)
}

// ---------------------------------------------------------------------
// Facts about the vocabulary
// ---------------------------------------------------------------------

/// Stripping a prefix that was just prepended gives the rest back.
pub proof fn lemma_strip_prefix_concat(p: Seq<char>, rest: Seq<char>)
    ensures
        spec_strip_prefix(p + rest, p) == Some(rest),
{
    assert((p + rest).subrange(0, p.len() as int) =~= p);
    assert((p + rest).subrange(p.len() as int, (p + rest).len() as int) =~= rest);
}

/// Stripping a suffix that was just appended gives the head back.
pub proof fn lemma_strip_suffix_concat(head: Seq<char>, p: Seq<char>)
    ensures
        spec_strip_suffix(head + p, p) == Some(head),
{
    let s = head + p;
    assert(s.subrange(s.len() - p.len(), s.len() as int) =~= p);
    assert(s.subrange(0, s.len() - p.len()) =~= head);
}

/// The decimal text of any number is a non-empty run of digits that
/// does not start with `+`, and reads back as the number.
pub proof fn lemma_decimal_digits(n: nat)
    ensures
        decimal(n).len() > 0,
        all_digits(decimal(n)),
        digits_value(decimal(n)) == n,
    decreases n,
{
    if n < 10 {
        let s = decimal(n);
        assert(s.drop_last() =~= Seq::<char>::empty());
        assert(digits_value(s.drop_last()) == 0);
        assert(digit_value(digit_char(n)) == n);
    } else {
        lemma_decimal_digits(n / 10);
        let s = decimal(n);
        let h = decimal(n / 10);
        assert(s.drop_last() =~= h);
        assert(digit_value(digit_char(n % 10)) == n % 10);
        assert forall|i: int| 0 <= i < s.len() implies is_digit(#[trigger] s[i]) by {
            if i < h.len() {
                assert(s[i] == h[i]);
            }
        }
        assert(n == (n / 10) * 10 + n % 10) by (nonlinear_arith);
    }
}

/// Parsing the decimal text of an index gives the index back.
pub proof fn lemma_parse_decimal(n: usize)
    ensures
        spec_parse_usize(decimal(n as nat)) == Some(n),
{
    lemma_decimal_digits(n as nat);
    let s = decimal(n as nat);
    assert(is_digit(s[0]));
    assert(unsigned_digits(s) == s);
}

/// Digit runs only grow in value as more digits follow.
proof fn lemma_digits_value_prefix(s: Seq<char>, i: int)
    requires
        0 <= i <= s.len(),
    ensures
        digits_value(s.subrange(0, i)) <= digits_value(s),
    decreases s.len() - i,
{
    if i < s.len() {
        lemma_digits_value_prefix(s, i + 1);
        let t = s.subrange(0, i + 1);
        assert(t.drop_last() =~= s.subrange(0, i));
        assert(digits_value(t) == digits_value(s.subrange(0, i)) * 10 + digit_value(t.last()));
    } else {
        assert(s.subrange(0, i) =~= s);
    }
}

// ---------------------------------------------------------------------
// Executable helpers
// ---------------------------------------------------------------------

/// `str::strip_prefix` with a string pattern.
pub fn strip_prefix<'a>(s: &'a str, prefix: &str) -> (r: Option<&'a str>)
    ensures
        opt_str_view(r) == spec_strip_prefix(s@, prefix@),
{
    let n = s.unicode_len();
    let m = prefix.unicode_len();
    if m > n {
        return None;
    }
    let mut i: usize = 0;
    while i < m
        invariant
            i <= m <= n,
            n == s@.len(),
            m == prefix@.len(),
            forall|j: int| 0 <= j < i ==> s@[j] == prefix@[j],
        decreases m - i,
    {
        if s.get_char(i) != prefix.get_char(i) {
            assert(s@.subrange(0, m as int)[i as int] != prefix@[i as int]);
            return None;
        }
        i = i + 1;
    }
    assert(s@.subrange(0, m as int) =~= prefix@);
    let rest = s.substring_char(m, n);
    Some(rest)
}

/// `str::strip_suffix` with a string pattern.
pub fn strip_suffix<'a>(s: &'a str, suffix: &str) -> (r: Option<&'a str>)
    ensures
        opt_str_view(r) == spec_strip_suffix(s@, suffix@),
{
    let n = s.unicode_len();
    let m = suffix.unicode_len();
    if m > n {
        return None;
    }
    let base = n - m;
    let mut i: usize = 0;
    while i < m
        invariant
            i <= m <= n,
            base == n - m,
            n == s@.len(),
            m == suffix@.len(),
            forall|j: int| 0 <= j < i ==> s@[base + j] == suffix@[j],
        decreases m - i,
    {
        if s.get_char(base + i) != suffix.get_char(i) {
            assert(s@.subrange(base as int, n as int)[i as int] != suffix@[i as int]);
            return None;
        }
        i = i + 1;
    }
    assert(s@.subrange(base as int, n as int) =~= suffix@);
    let head = s.substring_char(0, base);
    Some(head)
}

/// The view of an optional borrowed string.
pub open spec fn opt_str_view(s: Option<&str>) -> Option<Seq<char>> {
    match s {
        Some(t) => Some(t@),
        None => None,
    }
}

/// Text equality, `a == b` on `&str`.
pub fn str_eq(a: &str, b: &str) -> (r: bool)
    ensures
        r == (a@ == b@),
{
    let n = a.unicode_len();
    let m = b.unicode_len();
    if n != m {
        return false;
    }
    let mut i: usize = 0;
    while i < n
        invariant
            i <= n,
            n == a@.len(),
            m == b@.len(),
            n == m,
            forall|j: int| 0 <= j < i ==> a@[j] == b@[j],
        decreases n - i,
    {
        if a.get_char(i) != b.get_char(i) {
            return false;
        }
        i = i + 1;
    }
    assert(a@ =~= b@);
    true
}

/// `Option<String>::as_deref() == Some(s)`.
pub fn opt_eq_str(o: &Option<String>, s: &str) -> (r: bool)
    ensures
        r == (opt_view(*o) == Some(s@)),
{
    match o {
        Some(t) => str_eq(t.as_str(), s),
        None => false,
    }
}

/// An owned copy of `s`.
pub fn owned(s: &str) -> (r: String)
    ensures
        r@ == s@,
{
    s.to_owned()
}

/// Appends one character, `String::push`.
#[verifier::external_body]
pub(crate) fn push_char(s: &mut String, c: char)
    ensures
        final(s)@ == old(s)@.push(c),
{
    s.push(c);
}

/// Removes and returns the last character, as `String::pop` does.
pub(crate) fn pop_char(s: &mut String) -> (r: Option<char>)
    ensures
        old(s)@.len() == 0 ==> r.is_none() && final(s)@ == old(s)@,
        old(s)@.len() > 0 ==> r == Some(old(s)@.last()) && final(s)@ == old(s)@.drop_last(),
{
    let n = s.as_str().unicode_len();
    if n == 0 {
        return None;
    }
    let c = s.as_str().get_char(n - 1);
    let rest = s.as_str().substring_char(0, n - 1).to_owned();
    assert(rest@ =~= old(s)@.drop_last());
    *s = rest;
    Some(c)
}

/// `format!("{a}{b}{c}")` for three pieces of text.
pub fn concat3(a: &str, b: &str, c: &str) -> (r: String)
    ensures
        r@ == a@ + b@ + c@,
{
    let mut s = String::new();
    s.append(a);
    s.append(b);
    s.append(c);
    assert(s@ =~= a@ + b@ + c@);
    s
}

/// The decimal digit character for `d < 10`.
fn digit_to_char(d: usize) -> (c: char)
    requires
        d < 10,
    ensures
        c == digit_char(d as nat),
{
    if d == 0 { '0' }
    else if d == 1 { '1' }
    else if d == 2 { '2' }
    else if d == 3 { '3' }
    else if d == 4 { '4' }
    else if d == 5 { '5' }
    else if d == 6 { '6' }
    else if d == 7 { '7' }
    else if d == 8 { '8' }
    else { '9' }
}

/// Appends the decimal text of `n` to `s` — `write!(s, "{n}")`.
pub fn push_decimal(s: &mut String, n: usize)
    ensures
        final(s)@ == old(s)@ + decimal(n as nat),
    decreases n,
{
    if n < 10 {
        push_char(s, digit_to_char(n));
        assert(decimal(n as nat) =~= seq![digit_char(n as nat)]);
        assert(s@ =~= old(s)@ + decimal(n as nat));
    } else {
        push_decimal(s, n / 10);
        push_char(s, digit_to_char(n % 10));
        assert(s@ =~= old(s)@ + decimal(n as nat));
    }
}

/// Whether `c` is a Unicode control character (`char::is_control`).
pub fn is_control(c: char) -> (r: bool)
    ensures
        r == spec_is_control(c),
{
    let u = c as u32;
    u <= 0x1f || (0x7f <= u && u <= 0x9f)
}

/// `s.parse::<usize>().ok()`: an optional `+` and one or more ASCII
/// digits whose value fits in a `usize`; anything else is `None`.
pub fn parse_usize(s: &str) -> (r: Option<usize>)
    ensures
        r == spec_parse_usize(s@),
{
    let n = s.unicode_len();
    let mut start: usize = 0;
    if n > 0 && s.get_char(0) == '+' {
        start = 1;
    }
    let ghost d = unsigned_digits(s@);
    assert(d =~= s@.subrange(start as int, n as int));
    if start == n {
        return None;
    }
    let mut v: usize = 0;
    let mut i: usize = start;
    while i < n
        invariant
            start <= i <= n,
            n == s@.len(),
            d == s@.subrange(start as int, n as int),
            d == unsigned_digits(s@),
            d.len() > 0,
            all_digits(d.subrange(0, i - start)),
            v as nat == digits_value(d.subrange(0, i - start)),
        decreases n - i,
    {
        let c = s.get_char(i);
        let ghost k: int = i - start;
        assert(d[k] == c);
        if c < '0' || c > '9' {
            assert(!is_digit(d[k]));
            return None;
        }
        let dv = (c as u32 - 48) as usize;
        let ghost t = d.subrange(0, k + 1);
        assert(t.drop_last() =~= d.subrange(0, k));
        assert(t.last() == c);
        assert(digits_value(t) == v * 10 + dv);
        if v > (usize::MAX - dv) / 10 {
            assert(v * 10 + dv > usize::MAX) by (nonlinear_arith)
                requires
                    v > (usize::MAX - dv) / 10,
                    dv < 10,
            ;
            proof {
                lemma_digits_value_prefix(d, k + 1);
                assert(d.subrange(0, d.len() as int) =~= d);
            }
            return None;
        }
        assert(v * 10 + dv <= usize::MAX) by (nonlinear_arith)
            requires
                v <= (usize::MAX - dv) / 10,
                dv < 10,
        ;
        v = v * 10 + dv;
        assert forall|j: int| 0 <= j < t.len() implies is_digit(#[trigger] t[j]) by {
            if j < k {
                assert(t[j] == d.subrange(0, k)[j]);
            }
        }
        i = i + 1;
    }
    assert(d.subrange(0, n - start) =~= d);
    Some(v)
}

/// `key::suffix`: the text after `{prefix}:` in `route`, if `route`
/// starts with it.
pub fn suffix<'a>(route: &'a str, prefix: &str) -> (r: Option<&'a str>)
    ensures
        opt_str_view(r) == spec_suffix(route@, prefix@),
{
    match strip_prefix(route, prefix) {
        Some(rest) => {
            let r = strip_prefix(rest, ":");
            proof {
                reveal_strlit(":");
                assert(":"@ =~= colon());
                lemma_strip_two(route@, prefix@, colon());
            }
            r
        },
        None => {
            proof {
                lemma_strip_two(route@, prefix@, colon());
            }
            None
        },
    }
}

/// `key::index`: the text after `{prefix}:` in `route`, parsed as an
/// index.
pub fn index(route: &str, prefix: &str) -> (r: Option<usize>)
    ensures
        r == spec_index(route@, prefix@),
{
    match suffix(route, prefix) {
        Some(rest) => parse_usize(rest),
        None => None,
    }
}

/// The text after `{key}:{marker}` in `route` — how every widget reads
/// a routed key of the form `{key}:{marker}{value}`.
pub open spec fn spec_segment(route: Seq<char>, key: Seq<char>, marker: Seq<char>) -> Option<Seq<char>> {
    spec_strip_prefix(route, key + colon() + marker)
}

/// `route.strip_prefix(key)?.strip_prefix(':')?.strip_prefix(marker)`.
pub fn strip_segment<'a>(route: &'a str, key: &str, marker: &str) -> (r: Option<&'a str>)
    ensures
        opt_str_view(r) == spec_segment(route@, key@, marker@),
{
    proof {
        reveal_strlit(":");
        assert(":"@ =~= colon());
        lemma_strip_two(route@, key@, colon());
        lemma_strip_two(route@, key@ + colon(), marker@);
    }
    let rest = match strip_prefix(route, key) {
        Some(r) => r,
        None => return None,
    };
    let rest = match strip_prefix(rest, ":") {
        Some(r) => r,
        None => return None,
    };
    strip_prefix(rest, marker)
}

/// Stripping `a` then `b` is stripping `a + b`.
pub proof fn lemma_strip_two(s: Seq<char>, a: Seq<char>, b: Seq<char>)
    ensures
        spec_strip_prefix(s, a + b) == match spec_strip_prefix(s, a) {
            Some(rest) => spec_strip_prefix(rest, b),
            None => None,
        },
{
    let ab = a + b;
    if starts_with(s, a) {
        let rest = s.subrange(a.len() as int, s.len() as int);
        if starts_with(rest, b) {
            assert(s.subrange(0, ab.len() as int) =~= ab) by {
                assert forall|i: int| 0 <= i < ab.len() implies s.subrange(0, ab.len() as int)[i] == ab[i] by {
                    if i >= a.len() {
                        assert(rest.subrange(0, b.len() as int)[i - a.len()] == b[i - a.len()]);
                    } else {
                        assert(s.subrange(0, a.len() as int)[i] == a[i]);
                    }
                }
            }
            assert(rest.subrange(b.len() as int, rest.len() as int) =~= s.subrange(ab.len() as int, s.len() as int));
        } else {
            if starts_with(s, ab) {
                assert(rest.subrange(0, b.len() as int) =~= b) by {
                    assert forall|i: int| 0 <= i < b.len() implies rest.subrange(0, b.len() as int)[i] == b[i] by {
                        assert(s.subrange(0, ab.len() as int)[a.len() + i] == ab[a.len() + i]);
                    }
                }
            }
        }
    } else {
        if starts_with(s, ab) {
            assert(s.subrange(0, a.len() as int) =~= a) by {
                assert forall|i: int| 0 <= i < a.len() implies s.subrange(0, a.len() as int)[i] == a[i] by {
                    assert(s.subrange(0, ab.len() as int)[i] == ab[i]);
                }
            }
        }
    }
}

// ---------------------------------------------------------------------
// Ordering of text
// ---------------------------------------------------------------------

/// Lexicographic order on text by Unicode scalar value — the order of
/// `String`'s `Ord` (byte order of UTF-8 agrees with code-point order).
pub open spec fn text_lt(a: Seq<char>, b: Seq<char>) -> bool
    decreases a.len(),
{
    if a.len() == 0 {
        b.len() > 0
    } else if b.len() == 0 {
        false
    } else if a[0] != b[0] {
        a[0] < b[0]
    } else {
        text_lt(a.drop_first(), b.drop_first())
    }
}

/// Text order is irreflexive.
pub proof fn lemma_text_lt_irreflexive(a: Seq<char>)
    ensures
        !text_lt(a, a),
    decreases a.len(),
{
    if a.len() > 0 {
        lemma_text_lt_irreflexive(a.drop_first());
    }
}

/// Text order is total and asymmetric.
pub proof fn lemma_text_lt_total(a: Seq<char>, b: Seq<char>)
    ensures
        a != b ==> text_lt(a, b) || text_lt(b, a),
        !(text_lt(a, b) && text_lt(b, a)),
    decreases a.len(),
{
    if a.len() > 0 && b.len() > 0 {
        if a[0] == b[0] {
            lemma_text_lt_total(a.drop_first(), b.drop_first());
            if a != b {
                if a.drop_first() == b.drop_first() {
                    assert(a =~= seq![a[0]] + a.drop_first());
                    assert(b =~= seq![b[0]] + b.drop_first());
                }
            }
        }
    } else if a.len() == 0 && b.len() == 0 {
        assert(a =~= b);
    }
}

/// Text order is transitive.
pub proof fn lemma_text_lt_transitive(a: Seq<char>, b: Seq<char>, c: Seq<char>)
    requires
        text_lt(a, b),
        text_lt(b, c),
    ensures
        text_lt(a, c),
    decreases a.len(),
{
    if a.len() > 0 && b.len() > 0 && c.len() > 0 {
        if a[0] == b[0] && b[0] == c[0] {
            lemma_text_lt_transitive(a.drop_first(), b.drop_first(), c.drop_first());
        }
    }
}

/// `a < b` on text, in the order of `String`'s `Ord`.
pub fn str_lt(a: &str, b: &str) -> (r: bool)
    ensures
        r == text_lt(a@, b@),
{
    let n = a.unicode_len();
    let m = b.unicode_len();
    let mut i: usize = 0;
    assert(a@.subrange(0, n as int) =~= a@);
    assert(b@.subrange(0, m as int) =~= b@);
    while i < n && i < m
        invariant
            i <= n,
            i <= m,
            n == a@.len(),
            m == b@.len(),
            text_lt(a@, b@) == text_lt(a@.subrange(i as int, n as int), b@.subrange(i as int, m as int)),
        decreases n - i,
    {
        let x = a.get_char(i);
        let y = b.get_char(i);
        let ghost sa = a@.subrange(i as int, n as int);
        let ghost sb = b@.subrange(i as int, m as int);
        assert(sa[0] == x && sb[0] == y);
        if x != y {
            return x < y;
        }
        assert(sa.drop_first() =~= a@.subrange(i + 1, n as int));
        assert(sb.drop_first() =~= b@.subrange(i + 1, m as int));
        i = i + 1;
    }
    i == n && i < m
}

} // verus!
