//! Character-level helpers: ASCII case folding, substring search, decimal
//! digits and the `HH:MM` time-of-day grammar.

use vstd::prelude::*;

verus! {

/// ASCII case folding of a single character; everything outside `A..=Z`
/// is left unchanged.
pub open spec fn lower_char(c: char) -> char {
    if 65 <= c as u32 && c as u32 <= 90 {
        ((c as u32 + 32) as u8) as char
    } else {
        c
    }
}

/// ASCII case folding of a whole character sequence.
pub open spec fn lower_seq(s: Seq<char>) -> Seq<char> {
    s.map_values(|c: char| lower_char(c))
}

/// `needle` occurs in `hay` starting at position `i`.
pub open spec fn matches_at(hay: Seq<char>, needle: Seq<char>, i: int) -> bool {
    0 <= i && i + needle.len() <= hay.len() && hay.subrange(i, i + needle.len()) == needle
}

/// `needle` occurs somewhere in `hay` as a contiguous run.
pub open spec fn contains_seq(hay: Seq<char>, needle: Seq<char>) -> bool {
    exists|i: int| matches_at(hay, needle, i)
}

fn lower_char_x(c: char) -> (r: char)
    ensures
        r == lower_char(c),
{
    let u = c as u32;
    if 65 <= u && u <= 90 {
        (u + 32) as u8 as char
    } else {
        c
    }
}

/// The characters of `s`, in order, as a vector.
pub fn chars_of(s: &str) -> (v: Vec<char>)
    ensures
        v@ == s@,
{
    let n = s.unicode_len();
    let mut v: Vec<char> = Vec::new();
    let mut i: usize = 0;
    while i < n
        invariant
            i <= n,
            n == s@.len(),
            v@ == s@.subrange(0, i as int),
        decreases n - i,
    {
        let c = s.get_char(i);
        v.push(c);
        i = i + 1;
        proof {
            assert(v@ =~= s@.subrange(0, i as int));
        }
    }
    proof {
        assert(v@ =~= s@);
    }
    v
}

/// ASCII-lowercases every character of `v`.
pub fn lower_vec(v: &Vec<char>) -> (r: Vec<char>)
    ensures
        r@ == lower_seq(v@),
{
    let mut r: Vec<char> = Vec::new();
    let mut i: usize = 0;
    while i < v.len()
        invariant
            i <= v.len(),
            r@ == lower_seq(v@.subrange(0, i as int)),
        decreases v.len() - i,
    {
        r.push(lower_char_x(v[i]));
        i = i + 1;
        proof {
            assert(r@ =~= lower_seq(v@.subrange(0, i as int)));
        }
    }
    proof {
        assert(r@ =~= lower_seq(v@));
    }
    r
}

fn matches_at_x(hay: &Vec<char>, needle: &Vec<char>, i: usize) -> (r: bool)
    requires
        i + needle.len() <= hay.len(),
    ensures
        r == matches_at(hay@, needle@, i as int),
{
    let mut j: usize = 0;
    while j < needle.len()
        invariant
            j <= needle.len(),
            i + needle.len() <= hay.len(),
            forall|k: int| 0 <= k < j ==> hay@[i + k] == needle@[k],
        decreases needle.len() - j,
    {
        if hay[i + j] != needle[j] {
            proof {
                assert(hay@.subrange(i as int, i + needle@.len())[j as int] == hay@[i + j]);
            }
            return false;
        }
        j = j + 1;
    }
    proof {
        assert(hay@.subrange(i as int, i + needle@.len()) =~= needle@);
    }
    true
}

/// Whether `needle` occurs in `hay` as a contiguous run of characters.
pub fn contains_vec(hay: &Vec<char>, needle: &Vec<char>) -> (r: bool)
    ensures
        r == contains_seq(hay@, needle@),
{
    if needle.len() == 0 {
        proof {
            assert(hay@.subrange(0, 0) =~= needle@);
            assert(matches_at(hay@, needle@, 0));
        }
        return true;
    }
    if needle.len() > hay.len() {
        proof {
            assert(forall|i: int| !matches_at(hay@, needle@, i));
        }
        return false;
    }
    let count = hay.len() - needle.len() + 1;
    let mut i: usize = 0;
    while i < count
        invariant
            1 <= needle.len() <= hay.len(),
            count == hay.len() - needle.len() + 1,
            i <= count,
            forall|k: int| 0 <= k < i ==> !matches_at(hay@, needle@, k),
        decreases count - i,
    {
        if matches_at_x(hay, needle, i) {
            return true;
        }
        i = i + 1;
    }
    proof {
        assert(forall|k: int| !matches_at(hay@, needle@, k));
    }
    false
}

/// Whether `hay` contains the characters of the pattern string `pat`.
pub fn contains_str(hay: &Vec<char>, pat: &str) -> (r: bool)
    ensures
        r == contains_seq(hay@, pat@),
{
    let p = chars_of(pat);
    contains_vec(hay, &p)
}

/// Character-for-character comparison of a string with a pattern.
pub fn string_eq_str(s: &String, pat: &str) -> (r: bool)
    ensures
        r == (s@ == pat@),
{
    let a = chars_of(s.as_str());
    let b = chars_of(pat);
    if a.len() != b.len() {
        return false;
    }
    let mut i: usize = 0;
    while i < a.len()
        invariant
            i <= a.len(),
            a@.len() == b@.len(),
            a@ == s@,
            b@ == pat@,
            forall|k: int| 0 <= k < i ==> a@[k] == b@[k],
        decreases a.len() - i,
    {
        if a[i] != b[i] {
            return false;
        }
        i = i + 1;
    }
    proof {
        assert(s@ =~= pat@);
    }
    true
}

/// Relies on `String::push`: appends one character to the string.
#[verifier::external_body]
pub fn push_char(s: &mut String, c: char)
    ensures
        final(s)@ == old(s)@.push(c),
{
    s.push(c);
}

/// The string holding exactly the characters of `v`.
pub fn string_from_chars(v: &Vec<char>) -> (r: String)
    ensures
        r@ == v@,
{
    let mut r = String::new();
    let mut i: usize = 0;
    while i < v.len()
        invariant
            i <= v.len(),
            r@ == v@.subrange(0, i as int),
        decreases v.len() - i,
    {
        push_char(&mut r, v[i]);
        i = i + 1;
        proof {
            assert(r@ =~= v@.subrange(0, i as int));
        }
    }
    proof {
        assert(r@ =~= v@);
    }
    r
}

/// The views of a sequence of strings.
pub open spec fn strings_views(s: Seq<String>) -> Seq<Seq<char>> {
    s.map_values(|x: String| x@)
}

/// The decimal digit character for a value in `0..=9`.
pub open spec fn digit_char(d: int) -> char {
    if d == 0 {
        '0'
    } else if d == 1 {
        '1'
    } else if d == 2 {
        '2'
    } else if d == 3 {
        '3'
    } else if d == 4 {
        '4'
    } else if d == 5 {
        '5'
    } else if d == 6 {
        '6'
    } else if d == 7 {
        '7'
    } else if d == 8 {
        '8'
    } else {
        '9'
    }
}

/// A value in `0..=99` written as exactly two decimal digits.
pub open spec fn two_digits_seq(n: int) -> Seq<char> {
    seq![digit_char(n / 10), digit_char(n % 10)]
}

/// A value in `0..=9999` written as exactly four decimal digits.
pub open spec fn four_digits_seq(n: int) -> Seq<char> {
    seq![
        digit_char(n / 1000),
        digit_char((n / 100) % 10),
        digit_char((n / 10) % 10),
        digit_char(n % 10),
    ]
}

/// The one-character string for a digit value.
fn digit_str(d: u32) -> (r: &'static str)
    requires
        d < 10,
    ensures
        r@ == seq![digit_char(d as int)],
{
    proof {
        reveal_strlit("0");
        reveal_strlit("1");
        reveal_strlit("2");
        reveal_strlit("3");
        reveal_strlit("4");
        reveal_strlit("5");
        reveal_strlit("6");
        reveal_strlit("7");
        reveal_strlit("8");
        reveal_strlit("9");
    }
    let r = if d == 0 {
        "0"
    } else if d == 1 {
        "1"
    } else if d == 2 {
        "2"
    } else if d == 3 {
        "3"
    } else if d == 4 {
        "4"
    } else if d == 5 {
        "5"
    } else if d == 6 {
        "6"
    } else if d == 7 {
        "7"
    } else if d == 8 {
        "8"
    } else {
        "9"
    };
    proof {
        assert(r@ =~= seq![digit_char(d as int)]);
    }
    r
}

/// Appends `n` to `out` as exactly two decimal digits.
pub fn append_two_digits(out: &mut String, n: u32)
    requires
        n < 100,
    ensures
        final(out)@ == old(out)@ + two_digits_seq(n as int),
{
    out.append(digit_str(n / 10));
    out.append(digit_str(n % 10));
    proof {
        assert(out@ =~= old(out)@ + two_digits_seq(n as int));
    }
}

/// Appends `n` to `out` as exactly four decimal digits.
pub fn append_four_digits(out: &mut String, n: u32)
    requires
        n < 10000,
    ensures
        final(out)@ == old(out)@ + four_digits_seq(n as int),
{
    out.append(digit_str(n / 1000));
    out.append(digit_str((n / 100) % 10));
    out.append(digit_str((n / 10) % 10));
    out.append(digit_str(n % 10));
    proof {
        assert(out@ =~= old(out)@ + four_digits_seq(n as int));
    }
}

/// Whether `c` is a decimal digit.
pub open spec fn is_digit(c: char) -> bool {
    48 <= c as u32 && c as u32 <= 57
}

/// The numeric value of a decimal digit character.
pub open spec fn digit_value(c: char) -> int {
    c as u32 - 48
}

/// The `HH:MM` grammar of a time of day: one or two digits of hour, a
/// colon, one or two digits of minute, nothing else; the hour must be
/// below 24 and the minute below 60.  This is the set of time strings the
/// library accepts from the timings service.
pub open spec fn hhmm_spec(s: Seq<char>) -> Option<(int, int)> {
    if s.len() == 3 && is_digit(s[0]) && s[1] == ':' && is_digit(s[2]) {
        checked_hm(digit_value(s[0]), digit_value(s[2]))
    } else if s.len() == 4 && is_digit(s[0]) && s[1] == ':' && is_digit(s[2]) && is_digit(s[3]) {
        checked_hm(digit_value(s[0]), 10 * digit_value(s[2]) + digit_value(s[3]))
    } else if s.len() == 4 && is_digit(s[0]) && is_digit(s[1]) && s[2] == ':' && is_digit(s[3]) {
        checked_hm(10 * digit_value(s[0]) + digit_value(s[1]), digit_value(s[3]))
    } else if s.len() == 5 && is_digit(s[0]) && is_digit(s[1]) && s[2] == ':' && is_digit(s[3])
        && is_digit(s[4]) {
        checked_hm(10 * digit_value(s[0]) + digit_value(s[1]), 10 * digit_value(s[3]) + digit_value(s[4]))
    } else {
        None
    }
}

/// An hour/minute pair, kept only when both are in range.
pub open spec fn checked_hm(h: int, m: int) -> Option<(int, int)> {
    if 0 <= h < 24 && 0 <= m < 60 {
        Some((h, m))
    } else {
        None
    }
}

/// Digit characters carry their value: reading back the character of a
/// digit gives the digit.
pub proof fn lemma_digit_char_value(d: int)
    requires
        0 <= d < 10,
    ensures
        is_digit(digit_char(d)),
        digit_value(digit_char(d)) == d,
{
}

/// The canonical form of a time of day: exactly two digits, a colon,
/// exactly two digits.
pub open spec fn canonical_hhmm(h: int, m: int) -> Seq<char> {
    two_digits_seq(h) + seq![':'] + two_digits_seq(m)
}

/// Writing an in-range hour and minute canonically and parsing the
/// result reproduces them: the `HH:MM` grammar inverts the two-digit
/// form.
pub proof fn lemma_hhmm_round_trip(h: int, m: int)
    requires
        0 <= h < 24,
        0 <= m < 60,
    ensures
        hhmm_spec(canonical_hhmm(h, m)) == Some((h, m)),
{
    let s = canonical_hhmm(h, m);
    lemma_digit_char_value(h / 10);
    lemma_digit_char_value(h % 10);
    lemma_digit_char_value(m / 10);
    lemma_digit_char_value(m % 10);
    assert(s.len() == 5);
    assert(s[0] == digit_char(h / 10));
    assert(s[1] == digit_char(h % 10));
    assert(s[2] == ':');
    assert(s[3] == digit_char(m / 10));
    assert(s[4] == digit_char(m % 10));
    assert(10 * (h / 10) + h % 10 == h);
    assert(10 * (m / 10) + m % 10 == m);
}

fn digit_value_x(c: char) -> (r: u32)
    requires
        is_digit(c),
    ensures
        r == digit_value(c),
        r < 10,
{
    c as u32 - 48
}

fn is_digit_x(c: char) -> (r: bool)
    ensures
        r == is_digit(c),
{
    let u = c as u32;
    48 <= u && u <= 57
}

/// Parses a time of day in the `HH:MM` grammar; `None` when the string is
/// not in the grammar or a component is out of range.
pub fn parse_hhmm(s: &Vec<char>) -> (r: Option<(u32, u32)>)
    ensures
        match r {
            Some(hm) => hhmm_spec(s@) == Some((hm.0 as int, hm.1 as int)) && hm.0 < 24 && hm.1
                < 60,
            None => hhmm_spec(s@) is None,
        },
{
    let n = s.len();
    if n == 3 && is_digit_x(s[0]) && s[1] == ':' && is_digit_x(s[2]) {
        check_hm_x(digit_value_x(s[0]), digit_value_x(s[2]))
    } else if n == 4 && is_digit_x(s[0]) && s[1] == ':' && is_digit_x(s[2]) && is_digit_x(s[3]) {
        check_hm_x(digit_value_x(s[0]), 10 * digit_value_x(s[2]) + digit_value_x(s[3]))
    } else if n == 4 && is_digit_x(s[0]) && is_digit_x(s[1]) && s[2] == ':' && is_digit_x(s[3]) {
        check_hm_x(10 * digit_value_x(s[0]) + digit_value_x(s[1]), digit_value_x(s[3]))
    } else if n == 5 && is_digit_x(s[0]) && is_digit_x(s[1]) && s[2] == ':' && is_digit_x(s[3])
        && is_digit_x(s[4]) {
        check_hm_x(
            10 * digit_value_x(s[0]) + digit_value_x(s[1]),
            10 * digit_value_x(s[3]) + digit_value_x(s[4]),
        )
    } else {
        None
    }
}

fn check_hm_x(h: u32, m: u32) -> (r: Option<(u32, u32)>)
    ensures
        match r {
            Some(hm) => checked_hm(h as int, m as int) == Some((hm.0 as int, hm.1 as int))
                && hm.0 < 24 && hm.1 < 60,
            None => checked_hm(h as int, m as int) is None,
        },
{
    if h < 24 && m < 60 {
        Some((h, m))
    } else {
        None
    }
}

} // verus!
