//! Character-level helpers on strings.
//!
//! Strings are modelled by their sequence of characters (`Seq<char>`); every
//! contract in this module speaks of that view.

use vstd::prelude::*;
use vstd::std_specs::iter::IteratorSpec;
use vstd::string::StringExecFns;

verus! {

/// Appends one character to `s`.
///
/// Trusted: calls `String::push`, which the standard library documents as
/// appending the given `char` to the end of the string.
#[verifier::external_body]
pub(crate) fn push_char(s: &mut String, c: char)
    ensures
        final(s)@ == old(s)@.push(c),
{
    s.push(c)
}

/// The characters of `s`, in order.
pub fn chars_of(s: &str) -> (v: Vec<char>)
    ensures
        v@ == s@,
{
    let mut v: Vec<char> = Vec::new();
    for c in it: s.chars()
        invariant
            v@ == it.seq().take(it.index() as int),
    {
        v.push(c);
    }
    v
}

/// Whether `a` and `b` hold the same characters.
pub fn chars_equal(a: &Vec<char>, b: &Vec<char>) -> (same: bool)
    ensures
        same == (a@ == b@),
{
    if a.len() != b.len() {
        return false;
    }
    let mut i: usize = 0;
    while i < a.len()
        invariant
            i <= a.len() == b.len(),
            a@.subrange(0, i as int) == b@.subrange(0, i as int),
        decreases a.len() - i,
    {
        if a[i] != b[i] {
            return false;
        }
        proof {
            assert(a@.subrange(0, i + 1) == a@.subrange(0, i as int).push(a@[i as int]));
            assert(b@.subrange(0, i + 1) == b@.subrange(0, i as int).push(b@[i as int]));
        }
        i += 1;
    }
    proof {
        assert(a@ == a@.subrange(0, a.len() as int));
        assert(b@ == b@.subrange(0, b.len() as int));
    }
    true
}

/// Whether the characters `chars` spell the text `word`.
pub fn spells(chars: &Vec<char>, word: &str) -> (same: bool)
    ensures
        same == (chars@ == word@),
{
    let w = chars_of(word);
    chars_equal(chars, &w)
}

/// The string made of the characters `chars[from..to]`.
pub fn string_of(chars: &Vec<char>, from: usize, to: usize) -> (s: String)
    requires
        from <= to <= chars.len(),
    ensures
        s@ == chars@.subrange(from as int, to as int),
{
    let mut s = String::new();
    let mut i: usize = from;
    while i < to
        invariant
            from <= i <= to <= chars.len(),
            s@ == chars@.subrange(from as int, i as int),
        decreases to - i,
    {
        push_char(&mut s, chars[i]);
        i += 1;
    }
    s
}

/// The character of the decimal digit `d`.
pub open spec fn digit_char(d: int) -> char
    recommends
        0 <= d < 10,
{
    (48 + d) as u8 as char
}

/// The decimal digits of `n`, most significant first, without leading zeros.
pub open spec fn decimal_nat(n: nat) -> Seq<char>
    decreases n,
{
    if n < 10 {
        seq![digit_char(n as int)]
    } else {
        decimal_nat(n / 10).push(digit_char((n % 10) as int))
    }
}

/// The decimal text of `n`, with a leading `-` when `n` is negative.
pub open spec fn decimal(n: int) -> Seq<char> {
    if n < 0 {
        seq!['-'] + decimal_nat((-n) as nat)
    } else {
        decimal_nat(n as nat)
    }
}

fn digit(d: u64) -> (c: char)
    requires
        d < 10,
    ensures
        c == digit_char(d as int),
{
    (48u8 + d as u8) as char
}

/// Appends the decimal digits of `n` to `out`.
pub fn push_decimal_u64(out: &mut String, n: u64)
    ensures
        final(out)@ == old(out)@ + decimal_nat(n as nat),
{
    let mut digits: Vec<char> = Vec::new();
    let mut rest: u64 = n;
    while rest >= 10
        invariant
            decimal_nat(n as nat) == decimal_nat(rest as nat) + digits@.reverse(),
        decreases rest,
    {
        let c = digit(rest % 10);
        proof {
            let tail = digits@.reverse();
            assert(decimal_nat(rest as nat) == decimal_nat((rest / 10) as nat).push(c));
            assert(digits@.push(c).reverse() == seq![c] + tail);
            assert(decimal_nat((rest / 10) as nat).push(c) + tail == decimal_nat(
                (rest / 10) as nat,
            ) + (seq![c] + tail));
        }
        digits.push(c);
        rest = rest / 10;
    }
    let first = digit(rest);
    push_char(out, first);
    let ghost head = out@;
    let mut i: usize = digits.len();
    while i > 0
        invariant
            i <= digits.len(),
            out@ == head + digits@.reverse().subrange(0, digits.len() - i),
        decreases i,
    {
        i -= 1;
        push_char(out, digits[i]);
        proof {
            let r = digits@.reverse();
            let k = digits.len() - i - 1;
            assert(r[k] == digits@[i as int]);
            assert(r.subrange(0, k + 1) == r.subrange(0, k).push(r[k]));
        }
    }
    proof {
        let r = digits@.reverse();
        assert(r.subrange(0, digits.len() as int) == r);
        assert(decimal_nat(rest as nat) == seq![first]);
        assert(old(out)@.push(first) + r == old(out)@ + (seq![first] + r));
    }
}

/// Appends the decimal text of `n` to `out`.
pub fn push_decimal_i64(out: &mut String, n: i64)
    ensures
        final(out)@ == old(out)@ + decimal(n as int),
{
    if n < 0 {
        push_char(out, '-');
        let magnitude: u64 = if n == i64::MIN {
            9_223_372_036_854_775_808u64
        } else {
            (-n) as u64
        };
        push_decimal_u64(out, magnitude);
        proof {
            assert(old(out)@.push('-') + decimal_nat(magnitude as nat) == old(out)@ + (seq!['-']
                + decimal_nat(magnitude as nat)));
        }
    } else {
        push_decimal_u64(out, n as u64);
    }
}

/// `s` without the run of `c` at its end.
pub open spec fn trim_end(s: Seq<char>, c: char) -> Seq<char>
    decreases s.len(),
{
    if s.len() > 0 && s.last() == c {
        trim_end(s.drop_last(), c)
    } else {
        s
    }
}

/// The length of `chars` without the run of `c` at its end.
pub fn trimmed_len(chars: &Vec<char>, c: char) -> (end: usize)
    ensures
        end <= chars.len(),
        chars@.subrange(0, end as int) == trim_end(chars@, c),
{
    let mut end: usize = chars.len();
    proof {
        assert(chars@.subrange(0, end as int) == chars@);
    }
    while end > 0 && chars[end - 1] == c
        invariant
            end <= chars.len(),
            trim_end(chars@.subrange(0, end as int), c) == trim_end(chars@, c),
        decreases end,
    {
        proof {
            let cur = chars@.subrange(0, end as int);
            assert(cur.last() == c);
            assert(cur.drop_last() == chars@.subrange(0, end - 1));
        }
        end -= 1;
    }
    proof {
        let cur = chars@.subrange(0, end as int);
        if end > 0 {
            assert(cur.last() == chars@[end - 1]);
        }
    }
    end
}

/// The texts of a list of pairs of strings.
pub open spec fn pairs_text(pairs: Seq<(String, String)>) -> Seq<(Seq<char>, Seq<char>)> {
    Seq::new(pairs.len(), |i: int| (pairs[i].0@, pairs[i].1@))
}

/// An owned copy of `word`.
pub fn owned(word: &str) -> (s: String)
    ensures
        s@ == word@,
{
    let mut s = String::new();
    s.append(word);
    s
}

/// The decimal digits of `n` as a string.
pub fn decimal_string(n: u64) -> (s: String)
    ensures
        s@ == decimal_nat(n as nat),
{
    let mut s = String::new();
    push_decimal_u64(&mut s, n);
    s
}

/// Whether `needle` occurs in `hay` at position `at`.
pub open spec fn occurs_at(hay: Seq<char>, needle: Seq<char>, at: int) -> bool {
    0 <= at && at + needle.len() <= hay.len() && hay.subrange(at, at + needle.len()) == needle
}

/// Whether `needle` occurs somewhere in `hay`.
pub open spec fn mentions(hay: Seq<char>, needle: Seq<char>) -> bool {
    exists|at: int| occurs_at(hay, needle, at)
}

/// Whether `needle` occurs in `hay` at position `at`.
pub fn matches_at(hay: &Vec<char>, needle: &Vec<char>, at: usize) -> (found: bool)
    ensures
        found == occurs_at(hay@, needle@, at as int),
{
    if needle.len() > hay.len() || at > hay.len() - needle.len() {
        return false;
    }
    let mut k: usize = 0;
    while k < needle.len()
        invariant
            k <= needle.len(),
            at + needle.len() <= hay.len(),
            hay@.subrange(at as int, at + k) == needle@.subrange(0, k as int),
        decreases needle.len() - k,
    {
        if hay[at + k] != needle[k] {
            proof {
                let window = hay@.subrange(at as int, at + needle.len());
                assert(window[k as int] == hay@[at + k]);
            }
            return false;
        }
        proof {
            assert(hay@.subrange(at as int, at + k + 1) == hay@.subrange(at as int, at + k).push(
                hay@[at + k],
            ));
            assert(needle@.subrange(0, k + 1) == needle@.subrange(0, k as int).push(
                needle@[k as int],
            ));
        }
        k += 1;
    }
    proof {
        assert(needle@.subrange(0, needle.len() as int) == needle@);
    }
    true
}

/// The first position from `from` on at which `needle` occurs in `hay`.
pub fn find_from(hay: &Vec<char>, needle: &Vec<char>, from: usize) -> (found: Option<usize>)
    ensures
        match found {
            Some(at) => from <= at && occurs_at(hay@, needle@, at as int) && forall|j: int|
                from <= j < at ==> !occurs_at(hay@, needle@, j),
            None => forall|j: int| from <= j ==> !occurs_at(hay@, needle@, j),
        },
{
    if needle.len() > hay.len() {
        return None;
    }
    let last: usize = hay.len() - needle.len();
    let mut at: usize = from;
    while at <= last
        invariant
            from <= at,
            last == hay.len() - needle.len(),
            forall|j: int| from <= j < at ==> !occurs_at(hay@, needle@, j),
        decreases last + 1 - at,
    {
        if matches_at(hay, needle, at) {
            return Some(at);
        }
        if at == last {
            return None;
        }
        at += 1;
    }
    None
}

/// Whether `needle` occurs somewhere in `hay`.
pub fn contains(hay: &Vec<char>, needle: &Vec<char>) -> (found: bool)
    ensures
        found == mentions(hay@, needle@),
{
    find_from(hay, needle, 0).is_some()
}

/// `text` in lower case, as `str::to_lowercase` gives it.
pub uninterp spec fn lowercase(text: Seq<char>) -> Seq<char>;

/// The lower-case form of `text`.
///
/// Trusted: calls `str::to_lowercase`. The mapping follows the Unicode tables
/// of the standard library and is named, not restated; it depends on the text
/// alone.
#[verifier::external_body]
pub(crate) fn to_lowercase(text: &str) -> (lower: String)
    ensures
        lower@ == lowercase(text@),
{
    text.to_lowercase()
}

/// The texts of a list of strings.
pub open spec fn lines_text(lines: Seq<String>) -> Seq<Seq<char>> {
    Seq::new(lines.len(), |i: int| lines[i]@)
}

/// The position of the first line feed in `s`; the length of `s` where it
/// has none.
pub open spec fn first_newline(s: Seq<char>) -> nat
    decreases s.len(),
{
    if s.len() == 0 || s[0] == '\n' {
        0
    } else {
        1 + first_newline(s.drop_first())
    }
}

/// `line` without a carriage return at its end.
pub open spec fn without_cr(line: Seq<char>) -> Seq<char> {
    if line.len() > 0 && line.last() == '\r' {
        line.drop_last()
    } else {
        line
    }
}

/// The lines of `s`. A line ends at a line feed; the line feed, and a
/// carriage return just before it, belong to no line. What follows the last
/// line feed is a line of its own unless it is empty.
pub open spec fn text_lines(s: Seq<char>) -> Seq<Seq<char>>
    decreases s.len(),
{
    if s.len() == 0 {
        Seq::empty()
    } else {
        let n = first_newline(s);
        if n >= s.len() {
            seq![s]
        } else {
            seq![without_cr(s.subrange(0, n as int))] + text_lines(
                s.subrange(n as int + 1, s.len() as int),
            )
        }
    }
}

/// The first line feed of `s` is at `at` where none comes before it, and
/// `at` is the length of `s` where `s` has none at all.
pub proof fn lemma_first_newline(s: Seq<char>, at: int)
    requires
        0 <= at <= s.len(),
        forall|j: int| 0 <= j < at ==> s[j] != '\n',
        at < s.len() ==> s[at] == '\n',
    ensures
        first_newline(s) == at,
    decreases s.len(),
{
    if at > 0 {
        let rest = s.drop_first();
        assert forall|j: int| 0 <= j < at - 1 implies rest[j] != '\n' by {
            assert(rest[j] == s[j + 1]);
        }
        lemma_first_newline(rest, at - 1);
    }
}

/// Splits `text` into its lines.
pub fn split_lines(text: &str) -> (lines: Vec<String>)
    ensures
        lines_text(lines@) == text_lines(text@),
{
    let chars = chars_of(text);
    let n = chars.len();
    let mut lines: Vec<String> = Vec::new();
    let mut start: usize = 0;
    let mut i: usize = 0;
    proof {
        assert(chars@.subrange(0, n as int) == chars@);
        assert(lines_text(lines@) =~= Seq::empty());
    }
    while i < n
        invariant
            start <= i <= n == chars.len(),
            forall|j: int| start <= j < i ==> chars@[j] != '\n',
            text_lines(chars@) == lines_text(lines@) + text_lines(
                chars@.subrange(start as int, n as int),
            ),
        decreases n - i,
    {
        if chars[i] == '\n' {
            let end = if i > start && chars[i - 1] == '\r' {
                i - 1
            } else {
                i
            };
            let line = string_of(&chars, start, end);
            proof {
                let rest = chars@.subrange(start as int, n as int);
                assert forall|j: int| 0 <= j < i - start implies rest[j] != '\n' by {
                    assert(rest[j] == chars@[start + j]);
                }
                lemma_first_newline(rest, i - start);
                let raw = rest.subrange(0, i - start);
                assert(raw == chars@.subrange(start as int, i as int));
                if i > start {
                    assert(raw.last() == chars@[i - 1]);
                }
                assert(without_cr(raw) == chars@.subrange(start as int, end as int));
                assert(rest.subrange(i - start + 1, rest.len() as int) == chars@.subrange(
                    i + 1,
                    n as int,
                ));
                assert(lines_text(lines@.push(line)) =~= lines_text(lines@) + seq![line@]);
            }
            lines.push(line);
            start = i + 1;
        }
        i += 1;
    }
    if start < n {
        let line = string_of(&chars, start, n);
        proof {
            let rest = chars@.subrange(start as int, n as int);
            assert forall|j: int| 0 <= j < rest.len() implies rest[j] != '\n' by {
                assert(rest[j] == chars@[start + j]);
            }
            lemma_first_newline(rest, rest.len() as int);
            assert(lines_text(lines@.push(line)) =~= lines_text(lines@) + seq![line@]);
        }
        lines.push(line);
    } else {
        proof {
            assert(chars@.subrange(start as int, n as int).len() == 0);
        }
    }
    lines
}

/// The value of a decimal digit.
pub open spec fn digit_value(c: char) -> Option<int> {
    if '0' <= c && c <= '9' {
        Some(c as int - 48)
    } else {
        None
    }
}

/// The number that the decimal digits `s` spell; `None` where `s` is empty
/// or holds anything but digits.
pub open spec fn digits_value(s: Seq<char>) -> Option<int>
    decreases s.len(),
{
    if s.len() == 0 {
        None
    } else if s.len() == 1 {
        digit_value(s[0])
    } else {
        match (digits_value(s.drop_last()), digit_value(s.last())) {
            (Some(v), Some(d)) => Some(10 * v + d),
            _ => None,
        }
    }
}

/// The integer that `s` spells: decimal digits, with one `+` or `-` in front
/// of them at most.
pub open spec fn signed_value(s: Seq<char>) -> Option<int> {
    if s.len() > 0 && s[0] == '-' {
        match digits_value(s.drop_first()) {
            Some(v) => Some(-v),
            None => None,
        }
    } else if s.len() > 0 && s[0] == '+' {
        digits_value(s.drop_first())
    } else {
        digits_value(s)
    }
}

/// The integer that `s` spells, where it fits in 64 bits.
pub open spec fn parsed_i64(s: Seq<char>) -> Option<i64> {
    match signed_value(s) {
        Some(v) => if i64::MIN <= v <= i64::MAX {
            Some(v as i64)
        } else {
            None
        },
        None => None,
    }
}

/// Reads a decimal integer. Nothing but a sign and digits is accepted: no
/// blanks, no separators, and at least one digit.
pub fn parse_i64(text: &str) -> (value: Option<i64>)
    ensures
        value == parsed_i64(text@),
{
    let chars = chars_of(text);
    let n = chars.len();
    if n == 0 {
        return None;
    }
    let negative = chars[0] == '-';
    let start: usize = if negative || chars[0] == '+' {
        1
    } else {
        0
    };
    if start == n {
        proof {
            assert(chars@.drop_first().len() == 0);
        }
        return None;
    }
    let ghost digits = chars@.subrange(start as int, n as int);
    proof {
        if start == 1 {
            assert(digits == chars@.drop_first());
        } else {
            assert(digits == chars@);
        }
        assert(signed_value(chars@) == match digits_value(digits) {
            Some(v) => Some(
                if negative {
                    -v
                } else {
                    v
                },
            ),
            None => None,
        });
    }
    // Beyond this cap every value is out of range, so the sum stops growing there.
    let cap: u128 = 0x1_0000_0000_0000_0000;
    let mut sum: u128 = 0;
    let mut i: usize = start;
    while i < n
        invariant
            start <= i <= n == chars.len(),
            start < n,
            cap == 0x1_0000_0000_0000_0000,
            chars@ == text@,
            digits == chars@.subrange(start as int, n as int),
            signed_value(chars@) == match digits_value(digits) {
                Some(v) => Some(
                    if negative {
                        -v
                    } else {
                        v
                    },
                ),
                None => None,
            },
            sum <= cap,
            i > start ==> (digits_value(digits.subrange(0, i - start)) matches Some(v) && v >= 0
                && sum == (if v < cap {
                v
            } else {
                cap as int
            })),
            i == start ==> sum == 0,
        decreases n - i,
    {
        let c = chars[i];
        let ghost seen = digits.subrange(0, i - start + 1);
        proof {
            assert(seen.last() == c);
            assert(seen.drop_last() == digits.subrange(0, i - start));
        }
        if !('0' <= c && c <= '9') {
            proof {
                assert(digit_value(c) is None);
                assert(digits_value(seen) is None);
                lemma_digits_value_prefix(digits, i - start + 1);
            }
            return None;
        }
        let d: u128 = (c as u32 - 48) as u128;
        let next: u128 = 10 * sum + d;
        sum = if next < cap {
            next
        } else {
            cap
        };
        i += 1;
    }
    proof {
        assert(digits.subrange(0, n - start) == digits);
    }
    if negative {
        if sum <= 0x8000_0000_0000_0000 {
            if sum == 0x8000_0000_0000_0000 {
                Some(i64::MIN)
            } else {
                Some(-(sum as i64))
            }
        } else {
            None
        }
    } else if sum <= 0x7fff_ffff_ffff_ffff {
        Some(sum as i64)
    } else {
        None
    }
}

/// Digits that spell a number start with digits that spell a number: where a
/// prefix spells none, neither does the whole.
pub proof fn lemma_digits_value_prefix(s: Seq<char>, k: int)
    requires
        0 < k <= s.len(),
        digits_value(s.subrange(0, k)) is None,
    ensures
        digits_value(s) is None,
    decreases s.len() - k,
{
    if k < s.len() {
        let longer = s.subrange(0, k + 1);
        assert(longer.drop_last() == s.subrange(0, k));
        lemma_digits_value_prefix(s, k + 1);
    } else {
        assert(s.subrange(0, k) == s);
    }
}

/// Whether `c` is white space: a character with the Unicode property
/// `White_Space`.
pub open spec fn is_blank(c: char) -> bool {
    let u = c as u32;
    ||| 0x09 <= u <= 0x0d
    ||| u == 0x20
    ||| u == 0x85
    ||| u == 0xa0
    ||| u == 0x1680
    ||| 0x2000 <= u <= 0x200a
    ||| u == 0x2028
    ||| u == 0x2029
    ||| u == 0x202f
    ||| u == 0x205f
    ||| u == 0x3000
}

/// `s` without the white space at its start.
pub open spec fn trim_start(s: Seq<char>) -> Seq<char>
    decreases s.len(),
{
    if s.len() > 0 && is_blank(s[0]) {
        trim_start(s.drop_first())
    } else {
        s
    }
}

/// `s` without the white space at its end.
pub open spec fn trim_blank_end(s: Seq<char>) -> Seq<char>
    decreases s.len(),
{
    if s.len() > 0 && is_blank(s.last()) {
        trim_blank_end(s.drop_last())
    } else {
        s
    }
}

/// `s` without the white space at its start and at its end.
pub open spec fn trimmed(s: Seq<char>) -> Seq<char> {
    trim_blank_end(trim_start(s))
}

/// Whether `c` is white space.
pub fn blank(c: char) -> (yes: bool)
    ensures
        yes == is_blank(c),
{
    let u = c as u32;
    (0x09 <= u && u <= 0x0d) || u == 0x20 || u == 0x85 || u == 0xa0 || u == 0x1680 || (0x2000 <= u
        && u <= 0x200a) || u == 0x2028 || u == 0x2029 || u == 0x202f || u == 0x205f || u == 0x3000
}

/// The bounds of `chars` without the white space at its start and its end.
pub fn trim_bounds(chars: &Vec<char>) -> (bounds: (usize, usize))
    ensures
        bounds.0 <= bounds.1 <= chars.len(),
        chars@.subrange(bounds.0 as int, bounds.1 as int) == trimmed(chars@),
{
    let n = chars.len();
    let mut start: usize = 0;
    proof {
        assert(chars@.subrange(0, n as int) == chars@);
    }
    while start < n && blank(chars[start])
        invariant
            start <= n == chars.len(),
            trim_start(chars@.subrange(start as int, n as int)) == trim_start(chars@),
        decreases n - start,
    {
        proof {
            let cur = chars@.subrange(start as int, n as int);
            assert(cur[0] == chars@[start as int]);
            assert(cur.drop_first() == chars@.subrange(start + 1, n as int));
        }
        start += 1;
    }
    proof {
        let cur = chars@.subrange(start as int, n as int);
        if start < n {
            assert(cur[0] == chars@[start as int]);
        }
        assert(trim_start(chars@) == cur);
    }
    let mut end: usize = n;
    while end > start && blank(chars[end - 1])
        invariant
            start <= end <= n == chars.len(),
            trim_blank_end(chars@.subrange(start as int, end as int)) == trimmed(chars@),
        decreases end,
    {
        proof {
            let cur = chars@.subrange(start as int, end as int);
            assert(cur.last() == chars@[end - 1]);
            assert(cur.drop_last() == chars@.subrange(start as int, end - 1));
        }
        end -= 1;
    }
    proof {
        let cur = chars@.subrange(start as int, end as int);
        if end > start {
            assert(cur.last() == chars@[end - 1]);
        }
    }
    (start, end)
}

/// `text` without the white space at its start and at its end.
pub fn trim(text: &str) -> (inner: String)
    ensures
        inner@ == trimmed(text@),
{
    let chars = chars_of(text);
    let (start, end) = trim_bounds(&chars);
    string_of(&chars, start, end)
}

} // verus!
