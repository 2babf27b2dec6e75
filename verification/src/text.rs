//! Small operations on strings, stated over sequences of characters.

use vstd::prelude::*;

verus! {

/// `s` ends with `suffix`.
pub open spec fn ends_with(s: Seq<char>, suffix: Seq<char>) -> bool {
    s.len() >= suffix.len() && s.subrange(s.len() - suffix.len(), s.len() as int) == suffix
}

/// `needle` occurs in `hay` as a contiguous run of characters.
pub open spec fn occurs_in(hay: Seq<char>, needle: Seq<char>) -> bool {
    exists|i: int|
        0 <= i && i + needle.len() <= hay.len() && #[trigger] hay.subrange(i, i + needle.len())
            == needle
}

/// The views of the strings of `v`, in order.
pub open spec fn views(v: Seq<String>) -> Seq<Seq<char>> {
    Seq::new(v.len(), |i: int| v[i]@)
}

/// Whether two string slices hold the same characters.
pub fn same_text(a: &str, b: &str) -> (r: bool)
    ensures
        r == (a@ == b@),
{
    let x = String::from_str(a);
    let y = String::from_str(b);
    x == y
}

/// Whether `s` ends with `suffix`.
pub fn has_suffix(s: &str, suffix: &str) -> (r: bool)
    ensures
        r == ends_with(s@, suffix@),
{
    let n: usize = s.unicode_len();
    let m: usize = suffix.unicode_len();
    if m > n {
        false
    } else {
        let tail = s.substring_char(n - m, n);
        same_text(tail, suffix)
    }
}

/// The characters of `s`, one by one.
pub fn chars_of(s: &str) -> (r: Vec<char>)
    ensures
        r@ == s@,
{
    let n: usize = s.unicode_len();
    let mut out: Vec<char> = Vec::new();
    let mut i: usize = 0;
    while i < n
        invariant
            n == s@.len(),
            i <= n,
            out@ == s@.take(i as int),
        decreases n - i,
    {
        let c = s.get_char(i);
        out.push(c);
        assert(out@ == s@.take(i + 1));
        i += 1;
    }
    assert(s@.take(n as int) == s@);
    out
}

/// What `{:?}` prints for a string: the string between double quotes, with
/// the characters that would not show as themselves written as escapes.
pub uninterp spec fn debug_form(s: Seq<char>) -> Seq<char>;

/// Formats `s` with std's `Debug` for `str`. The contract only names what
/// that prints; nothing is claimed of its characters.
#[verifier::external_body]
pub(crate) fn quoted(s: &str) -> (r: String)
    ensures
        r@ == debug_form(s@),
{
    format!("{:?}", s)
}

/// `a` followed by `b`.
pub fn join(a: &str, b: &str) -> (r: String)
    ensures
        r@ == a@ + b@,
{
    String::from_str(a).concat(b)
}

/// Whether some string of `v` holds the characters of `s`.
pub fn contains_text(v: &Vec<String>, s: &str) -> (r: bool)
    ensures
        r == views(v@).contains(s@),
{
    let mut i: usize = 0;
    while i < v.len()
        invariant
            i <= v.len(),
            forall|j: int| 0 <= j < i ==> v@[j]@ != s@,
        decreases v.len() - i,
    {
        if same_text(v[i].as_str(), s) {
            assert(views(v@)[i as int] == s@);
            return true;
        }
        i += 1;
    }
    assert(!views(v@).contains(s@)) by {
        if views(v@).contains(s@) {
            let j = choose|j: int| 0 <= j < views(v@).len() && views(v@)[j] == s@;
            assert(v@[j]@ == s@);
        }
    }
    false
}

/// The first place at or behind `from` where `text` holds `c`, or the
/// length of `text` where it holds none.
pub open spec fn next_index(text: Seq<char>, c: char, from: int) -> int
    decreases text.len() - from,
{
    if from < 0 || from >= text.len() {
        text.len() as int
    } else if text[from] == c {
        from
    } else {
        next_index(text, c, from + 1)
    }
}

/// Where the line that begins at `from` stops: before its line feed, and
/// before a carriage return that stands directly before that.
pub open spec fn line_stop(text: Seq<char>, from: int) -> int {
    let end = next_index(text, '\n', from);
    if end < text.len() && end > from && text[end - 1] == '\r' {
        end - 1
    } else {
        end
    }
}

/// A search from `from` ends inside the text or at its end, and passes no `c`.
pub proof fn next_index_bounds(text: Seq<char>, c: char, from: int)
    requires
        0 <= from <= text.len(),
    ensures
        from <= next_index(text, c, from) <= text.len(),
        next_index(text, c, from) < text.len() ==> text[next_index(text, c, from)] == c,
        forall|i: int| from <= i < next_index(text, c, from) ==> text[i] != c,
    decreases text.len() - from,
{
    if from < text.len() && text[from] != c {
        next_index_bounds(text, c, from + 1);
    }
}

/// The first place at or behind `from` where `chars` holds `c`.
pub fn find_char(chars: &Vec<char>, c: char, from: usize) -> (r: usize)
    requires
        from <= chars@.len(),
    ensures
        r == next_index(chars@, c, from as int),
        from <= r <= chars@.len(),
{
    let mut i: usize = from;
    while i < chars.len() && chars[i] != c
        invariant
            from <= i <= chars@.len(),
            next_index(chars@, c, from as int) == next_index(chars@, c, i as int),
        decreases chars@.len() - i,
    {
        i += 1;
    }
    i
}

/// The characters of `chars` from `from` up to `to`.
pub fn piece(chars: &Vec<char>, from: usize, to: usize) -> (r: Vec<char>)
    requires
        from <= to <= chars@.len(),
    ensures
        r@ == chars@.subrange(from as int, to as int),
{
    let mut out: Vec<char> = Vec::new();
    let mut i: usize = from;
    while i < to
        invariant
            from <= i <= to <= chars@.len(),
            out@ == chars@.subrange(from as int, i as int),
        decreases to - i,
    {
        out.push(chars[i]);
        assert(out@ == chars@.subrange(from as int, i + 1));
        i += 1;
    }
    out
}

/// The lines of `text` from `from` on. A line ends before its line feed,
/// and before a carriage return directly before that; what follows the
/// last line feed is a line only where it is not empty.
pub open spec fn lines_from(text: Seq<char>, from: int) -> Seq<Seq<char>>
    decreases text.len() - from,
    via lines_from_decreases
{
    if from < 0 || from >= text.len() {
        Seq::<Seq<char>>::empty()
    } else {
        let line = text.subrange(from, line_stop(text, from));
        if next_index(text, '\n', from) >= text.len() {
            seq![line]
        } else {
            seq![line] + lines_from(text, next_index(text, '\n', from) + 1)
        }
    }
}

#[via_fn]
proof fn lines_from_decreases(text: Seq<char>, from: int) {
    if 0 <= from < text.len() {
        next_index_bounds(text, '\n', from);
        assert(next_index(text, '\n', from) + 1 > from);
    }
}

/// The lines of `text`, in order.
pub fn lines_of(text: &str) -> (r: Vec<String>)
    ensures
        views(r@) == lines_from(text@, 0),
{
    let chars = chars_of(text);
    let n: usize = chars.len();
    let mut out: Vec<String> = Vec::new();
    let mut from: usize = 0;
    assert(views(out@) + lines_from(text@, 0) == lines_from(text@, 0));
    while from < n
        invariant
            chars@ == text@,
            n == chars@.len(),
            from <= n,
            lines_from(text@, 0) == views(out@) + lines_from(text@, from as int),
        decreases n - from,
    {
        let end = find_char(&chars, '\n', from);
        proof {
            next_index_bounds(text@, '\n', from as int);
        }
        let stop: usize = if end < n && end > from && chars[end - 1] == '\r' {
            end - 1
        } else {
            end
        };
        assert(stop == line_stop(text@, from as int));
        let ghost before = views(out@);
        let ghost line = text@.subrange(from as int, stop as int);
        let piece = text.substring_char(from, stop);
        out.push(String::from_str(piece));
        assert(views(out@) == before.push(line));
        if end == n {
            assert(lines_from(text@, from as int) == seq![line]);
            assert(lines_from(text@, n as int) == Seq::<Seq<char>>::empty());
            assert(before + seq![line] == before.push(line));
            assert(views(out@) + Seq::<Seq<char>>::empty() == views(out@));
            from = n;
        } else {
            let ghost rest = lines_from(text@, end + 1);
            assert(lines_from(text@, from as int) == seq![line] + rest);
            assert(before + (seq![line] + rest) == before.push(line) + rest);
            from = end + 1;
        }
    }
    assert(lines_from(text@, n as int) == Seq::<Seq<char>>::empty());
    assert(views(out@) + Seq::<Seq<char>>::empty() == views(out@));
    out
}

/// Whether `c` is white space: one of the characters that Unicode gives the
/// property `White_Space`.
pub open spec fn is_white_space(c: char) -> bool {
    ||| '\u{9}' <= c <= '\u{d}'
    ||| c == ' '
    ||| c == '\u{85}'
    ||| c == '\u{a0}'
    ||| c == '\u{1680}'
    ||| '\u{2000}' <= c <= '\u{200a}'
    ||| c == '\u{2028}'
    ||| c == '\u{2029}'
    ||| c == '\u{202f}'
    ||| c == '\u{205f}'
    ||| c == '\u{3000}'
}

/// Whether `c` is white space.
pub fn white_space(c: char) -> (r: bool)
    ensures
        r == is_white_space(c),
{
    ('\u{9}' <= c && c <= '\u{d}') || c == ' ' || c == '\u{85}' || c == '\u{a0}' || c
        == '\u{1680}' || ('\u{2000}' <= c && c <= '\u{200a}') || c == '\u{2028}' || c
        == '\u{2029}' || c == '\u{202f}' || c == '\u{205f}' || c == '\u{3000}'
}

/// The first place at or behind `from` where `s` holds a character that is
/// not white space, or the length of `s` where it holds none.
pub open spec fn first_kept(s: Seq<char>, from: int) -> int
    decreases s.len() - from,
{
    if from < 0 || from >= s.len() {
        s.len() as int
    } else if !is_white_space(s[from]) {
        from
    } else {
        first_kept(s, from + 1)
    }
}

/// The place behind the last character of `s` that is not white space, or
/// 0 where it holds none.
pub open spec fn kept_end(s: Seq<char>) -> int
    decreases s.len(),
{
    if s.len() == 0 || !is_white_space(s.last()) {
        s.len() as int
    } else {
        kept_end(s.drop_last())
    }
}

/// `s` without the white space at its two ends: what stands from its first
/// character that is not white space to its last, or nothing where it holds
/// no such character.
pub open spec fn trimmed_form(s: Seq<char>) -> Seq<char> {
    if first_kept(s, 0) >= s.len() {
        Seq::<char>::empty()
    } else {
        s.subrange(first_kept(s, 0), kept_end(s))
    }
}

/// `s` without the white space at its two ends.
pub fn trimmed(s: &str) -> (r: String)
    ensures
        r@ == trimmed_form(s@),
{
    let chars = chars_of(s);
    let n: usize = chars.len();
    let mut a: usize = 0;
    while a < n && white_space(chars[a])
        invariant
            chars@ == s@,
            n == chars@.len(),
            a <= n,
            first_kept(s@, 0) == first_kept(s@, a as int),
        decreases n - a,
    {
        a += 1;
    }
    if a == n {
        return String::new();
    }
    assert(first_kept(s@, 0) == a);
    let mut b: usize = n;
    assert(s@.take(n as int) == s@);
    while white_space(chars[b - 1])
        invariant
            chars@ == s@,
            n == chars@.len(),
            a < b <= n,
            !is_white_space(chars@[a as int]),
            kept_end(s@) == kept_end(s@.take(b as int)),
        decreases b,
    {
        assert(s@.take(b as int).last() == chars@[b - 1]);
        assert(s@.take(b as int).drop_last() == s@.take(b - 1));
        b -= 1;
    }
    assert(s@.take(b as int).last() == chars@[b - 1]);
    assert(kept_end(s@) == b);
    String::from_str(s.substring_char(a, b))
}

/// The digit that stands for `d`, a number below ten.
pub open spec fn digit(d: nat) -> Seq<char> {
    if d == 0 {
        "0"@
    } else if d == 1 {
        "1"@
    } else if d == 2 {
        "2"@
    } else if d == 3 {
        "3"@
    } else if d == 4 {
        "4"@
    } else if d == 5 {
        "5"@
    } else if d == 6 {
        "6"@
    } else if d == 7 {
        "7"@
    } else if d == 8 {
        "8"@
    } else {
        "9"@
    }
}

/// `n` written in decimal, without leading zeros.
pub open spec fn decimal(n: nat) -> Seq<char>
    decreases n,
{
    if n < 10 {
        digit(n)
    } else {
        decimal(n / 10) + digit(n % 10)
    }
}

/// The digit that stands for `d`.
fn digit_text(d: u16) -> (r: &'static str)
    requires
        d < 10,
    ensures
        r@ == digit(d as nat),
{
    if d == 0 {
        "0"
    } else if d == 1 {
        "1"
    } else if d == 2 {
        "2"
    } else if d == 3 {
        "3"
    } else if d == 4 {
        "4"
    } else if d == 5 {
        "5"
    } else if d == 6 {
        "6"
    } else if d == 7 {
        "7"
    } else if d == 8 {
        "8"
    } else {
        "9"
    }
}

/// `n` written in decimal.
pub fn decimal_text(n: u16) -> (r: String)
    ensures
        r@ == decimal(n as nat),
    decreases n,
{
    if n < 10 {
        String::from_str(digit_text(n))
    } else {
        decimal_text(n / 10).concat(digit_text(n % 10))
    }
}

} // verus!
