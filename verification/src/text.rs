//! Character-sequence helpers shared by the parsers and path builders.
//!
//! Every helper works on the `Seq<char>` view of a string so that contracts in
//! the rest of the crate can speak about exact contents.
use vstd::prelude::*;

verus! {

/// Appends one character to a string (`String::push`).
#[verifier::external_body]
pub(crate) fn push_char(s: &mut String, c: char)
    ensures
        final(s)@ == old(s)@.push(c),
{
    s.push(c);
}

/// Collects the characters of a string slice.
pub fn chars_of(s: &str) -> (out: Vec<char>)
    ensures
        out@ == s@,
{
    let mut out: Vec<char> = Vec::new();
    for c in it: s.chars()
        invariant
            out@ == it.seq().take(it.index() as int),
    {
        out.push(c);
    }
    out
}

/// Appends every character of `s` to `out`.
pub fn push_str(out: &mut String, s: &str)
    ensures
        final(out)@ == old(out)@ + s@,
{
    let cs = chars_of(s);
    push_chars(out, &cs);
}

/// Appends every character of `cs` to `out`.
pub fn push_chars(out: &mut String, cs: &Vec<char>)
    ensures
        final(out)@ == old(out)@ + cs@,
{
    let ghost start = out@;
    let mut i: usize = 0;
    while i < cs.len()
        invariant
            i <= cs.len(),
            out@ == start + cs@.take(i as int),
        decreases cs.len() - i,
    {
        push_char(out, cs[i]);
        assert(cs@.take(i + 1) == cs@.take(i as int).push(cs@[i as int]));
        i += 1;
    }
    assert(cs@.take(cs.len() as int) == cs@);
}

/// Builds a string holding exactly the characters of `cs`.
pub fn string_of(cs: &Vec<char>) -> (out: String)
    ensures
        out@ == cs@,
{
    let mut out = String::new();
    push_chars(&mut out, cs);
    assert(Seq::<char>::empty() + cs@ == cs@);
    out
}

/// Copies a string slice into an owned string.
pub fn owned(s: &str) -> (out: String)
    ensures
        out@ == s@,
{
    let cs = chars_of(s);
    string_of(&cs)
}

/// Whether two character vectors hold the same characters.
pub fn chars_eq(a: &Vec<char>, b: &Vec<char>) -> (r: bool)
    ensures
        r == (a@ == b@),
{
    if a.len() != b.len() {
        return false;
    }
    let mut i: usize = 0;
    while i < a.len()
        invariant
            i <= a.len(),
            a.len() == b.len(),
            forall|k: int| 0 <= k < i ==> a@[k] == b@[k],
        decreases a.len() - i,
    {
        if a[i] != b[i] {
            return false;
        }
        i += 1;
    }
    assert(a@ =~= b@);
    true
}

/// Whether two string slices hold the same characters.
pub fn str_eq(a: &str, b: &str) -> (r: bool)
    ensures
        r == (a@ == b@),
{
    let x = chars_of(a);
    let y = chars_of(b);
    chars_eq(&x, &y)
}

// ---------------------------------------------------------------------------
// Prefixes, suffixes, substrings
// ---------------------------------------------------------------------------

/// `p` is a prefix of `s`.
pub open spec fn has_prefix(s: Seq<char>, p: Seq<char>) -> bool {
    p.len() <= s.len() && s.subrange(0, p.len() as int) == p
}

/// `p` is a suffix of `s`.
pub open spec fn has_suffix(s: Seq<char>, p: Seq<char>) -> bool {
    p.len() <= s.len() && s.subrange(s.len() - p.len(), s.len() as int) == p
}

/// `p` occurs in `s` starting at index `i`.
pub open spec fn occurs_at(s: Seq<char>, p: Seq<char>, i: int) -> bool {
    0 <= i && i + p.len() <= s.len() && s.subrange(i, i + p.len()) == p
}

/// `p` occurs somewhere in `s`.
pub open spec fn contains_seq(s: Seq<char>, p: Seq<char>) -> bool {
    exists|i: int| occurs_at(s, p, i)
}

/// Whether `p` occurs in `s` at index `i`.
pub fn matches_at(s: &Vec<char>, p: &Vec<char>, i: usize) -> (r: bool)
    ensures
        r == occurs_at(s@, p@, i as int),
{
    if i > s.len() || p.len() > s.len() - i {
        return false;
    }
    let mut k: usize = 0;
    while k < p.len()
        invariant
            k <= p.len(),
            i + p.len() <= s.len(),
            forall|j: int| 0 <= j < k ==> s@[i + j] == p@[j],
        decreases p.len() - k,
    {
        if s[i + k] != p[k] {
            assert(s@.subrange(i as int, i + p.len())[k as int] != p@[k as int]);
            return false;
        }
        k += 1;
    }
    assert(s@.subrange(i as int, i + p.len()) =~= p@);
    true
}

/// Whether `s` starts with `p`.
pub fn starts_with(s: &Vec<char>, p: &Vec<char>) -> (r: bool)
    ensures
        r == has_prefix(s@, p@),
{
    matches_at(s, p, 0)
}

/// Whether `s` ends with `p`.
pub fn ends_with(s: &Vec<char>, p: &Vec<char>) -> (r: bool)
    ensures
        r == has_suffix(s@, p@),
{
    if p.len() > s.len() {
        return false;
    }
    matches_at(s, p, s.len() - p.len())
}

/// Whether `p` occurs anywhere in `s`.
pub fn contains(s: &Vec<char>, p: &Vec<char>) -> (r: bool)
    ensures
        r == contains_seq(s@, p@),
{
    if p.len() > s.len() {
        return false;
    }
    let last = s.len() - p.len();
    let mut i: usize = 0;
    loop
        invariant
            p.len() <= s.len(),
            last == s.len() - p.len(),
            i <= last,
            forall|j: int| 0 <= j < i ==> !occurs_at(s@, p@, j),
        ensures
            i == last,
            forall|j: int| 0 <= j <= i ==> !occurs_at(s@, p@, j),
        decreases last - i,
    {
        if matches_at(s, p, i) {
            return true;
        }
        if i == last {
            break;
        }
        i += 1;
    }
    assert forall|j: int| !occurs_at(s@, p@, j) by {
        if 0 <= j && j + p@.len() <= s@.len() {
            assert(j <= i);
        }
    }
    false
}

/// Whether the character `c` occurs in `s`.
pub fn contains_char(s: &Vec<char>, c: char) -> (r: bool)
    ensures
        r == s@.contains(c),
{
    let mut i: usize = 0;
    while i < s.len()
        invariant
            i <= s.len(),
            forall|j: int| 0 <= j < i ==> s@[j] != c,
        decreases s.len() - i,
    {
        if s[i] == c {
            assert(s@[i as int] == c);
            return true;
        }
        i += 1;
    }
    false
}

// ---------------------------------------------------------------------------
// Whitespace, case
// ---------------------------------------------------------------------------

/// Unicode `White_Space` characters (`char::is_whitespace`).
pub open spec fn is_whitespace(c: char) -> bool {
    ||| ('\t' <= c && c <= '\r')
    ||| c == ' '
    ||| c == '\u{85}'
    ||| c == '\u{a0}'
    ||| c == '\u{1680}'
    ||| ('\u{2000}' <= c && c <= '\u{200a}')
    ||| c == '\u{2028}'
    ||| c == '\u{2029}'
    ||| c == '\u{202f}'
    ||| c == '\u{205f}'
    ||| c == '\u{3000}'
}

/// Executable form of [`is_whitespace`].
pub fn char_is_whitespace(c: char) -> (r: bool)
    ensures
        r == is_whitespace(c),
{
    ('\t' <= c && c <= '\r') || c == ' ' || c == '\u{85}' || c == '\u{a0}' || c == '\u{1680}'
        || ('\u{2000}' <= c && c <= '\u{200a}') || c == '\u{2028}' || c == '\u{2029}' || c
        == '\u{202f}' || c == '\u{205f}' || c == '\u{3000}'
}

/// Number of leading characters of `s` that satisfy whitespace.
pub open spec fn leading_ws(s: Seq<char>) -> nat
    decreases s.len(),
{
    if s.len() > 0 && is_whitespace(s[0]) {
        1 + leading_ws(s.drop_first())
    } else {
        0
    }
}

/// Number of trailing characters of `s` that satisfy whitespace.
pub open spec fn trailing_ws(s: Seq<char>) -> nat
    decreases s.len(),
{
    if s.len() > 0 && is_whitespace(s.last()) {
        1 + trailing_ws(s.drop_last())
    } else {
        0
    }
}

/// `str::trim`: `s` without leading and trailing whitespace.
pub open spec fn trim(s: Seq<char>) -> Seq<char> {
    if leading_ws(s) >= s.len() {
        Seq::empty()
    } else {
        s.subrange(leading_ws(s) as int, s.len() - trailing_ws(s))
    }
}

proof fn lemma_leading_ws(s: Seq<char>)
    ensures
        leading_ws(s) <= s.len(),
        forall|j: int| 0 <= j < leading_ws(s) ==> is_whitespace(#[trigger] s[j]),
        leading_ws(s) < s.len() ==> !is_whitespace(s[leading_ws(s) as int]),
    decreases s.len(),
{
    if s.len() > 0 && is_whitespace(s[0]) {
        lemma_leading_ws(s.drop_first());
        assert forall|j: int| 0 <= j < leading_ws(s) implies is_whitespace(#[trigger] s[j]) by {
            if j > 0 {
                assert(s[j] == s.drop_first()[j - 1]);
            }
        }
    }
}

proof fn lemma_trailing_ws(s: Seq<char>)
    ensures
        trailing_ws(s) <= s.len(),
        forall|j: int| s.len() - trailing_ws(s) <= j < s.len() ==> is_whitespace(#[trigger] s[j]),
        trailing_ws(s) < s.len() ==> !is_whitespace(s[s.len() - trailing_ws(s) - 1]),
    decreases s.len(),
{
    if s.len() > 0 && is_whitespace(s.last()) {
        lemma_trailing_ws(s.drop_last());
        assert forall|j: int| s.len() - trailing_ws(s) <= j < s.len() implies is_whitespace(
            #[trigger] s[j],
        ) by {
            if j < s.len() - 1 {
                assert(s[j] == s.drop_last()[j]);
            }
        }
    }
}

proof fn lemma_leading_ws_exact(s: Seq<char>, n: nat)
    requires
        n <= s.len(),
        forall|j: int| 0 <= j < n ==> is_whitespace(#[trigger] s[j]),
        n < s.len() ==> !is_whitespace(s[n as int]),
    ensures
        leading_ws(s) == n,
    decreases n,
{
    if n > 0 {
        assert(is_whitespace(s[0]));
        let t = s.drop_first();
        assert forall|j: int| 0 <= j < n - 1 implies is_whitespace(#[trigger] t[j]) by {
            assert(t[j] == s[j + 1]);
        }
        if n - 1 < t.len() {
            assert(t[n - 1] == s[n as int]);
        }
        lemma_leading_ws_exact(t, (n - 1) as nat);
    } else if s.len() > 0 {
        assert(!is_whitespace(s[0]));
    }
}

proof fn lemma_trailing_ws_exact(s: Seq<char>, n: nat)
    requires
        n <= s.len(),
        forall|j: int| s.len() - n <= j < s.len() ==> is_whitespace(#[trigger] s[j]),
        n < s.len() ==> !is_whitespace(s[s.len() - n - 1]),
    ensures
        trailing_ws(s) == n,
    decreases n,
{
    if n > 0 {
        assert(is_whitespace(s[s.len() - 1]));
        let t = s.drop_last();
        assert forall|j: int| t.len() - (n - 1) <= j < t.len() implies is_whitespace(
            #[trigger] t[j],
        ) by {
            assert(t[j] == s[j]);
        }
        if n - 1 < t.len() {
            assert(t[t.len() - (n - 1) - 1] == s[s.len() - n - 1]);
        }
        lemma_trailing_ws_exact(t, (n - 1) as nat);
    } else if s.len() > 0 {
        assert(!is_whitespace(s[s.len() - 1]));
    }
}

/// `str::trim` on a character vector.
pub fn trim_chars(s: &Vec<char>) -> (out: Vec<char>)
    ensures
        out@ == trim(s@),
{
    let mut a: usize = 0;
    while a < s.len() && char_is_whitespace(s[a])
        invariant
            a <= s.len(),
            forall|j: int| 0 <= j < a ==> is_whitespace(#[trigger] s@[j]),
        decreases s.len() - a,
    {
        a += 1;
    }
    proof {
        lemma_leading_ws_exact(s@, a as nat);
    }
    if a == s.len() {
        return Vec::new();
    }
    let mut b: usize = s.len();
    while b > a && char_is_whitespace(s[b - 1])
        invariant
            a < s.len(),
            a <= b <= s.len(),
            !is_whitespace(s@[a as int]),
            forall|j: int| b <= j < s.len() ==> is_whitespace(#[trigger] s@[j]),
        decreases b,
    {
        b -= 1;
    }
    proof {
        lemma_trailing_ws_exact(s@, (s.len() - b) as nat);
    }
    let mut out: Vec<char> = Vec::new();
    let mut i = a;
    while i < b
        invariant
            a <= i <= b <= s.len(),
            out@ == s@.subrange(a as int, i as int),
        decreases b - i,
    {
        out.push(s[i]);
        assert(s@.subrange(a as int, i + 1) == s@.subrange(a as int, i as int).push(s@[i as int]));
        i += 1;
    }
    out
}

/// Whether `s` is empty after trimming whitespace.
pub fn is_blank(s: &str) -> (r: bool)
    ensures
        r == (trim(s@).len() == 0),
{
    let cs = chars_of(s);
    let t = trim_chars(&cs);
    t.len() == 0
}

/// ASCII lowercase of one character (`char::to_ascii_lowercase`).
pub open spec fn ascii_lower(c: char) -> char {
    if 'A' <= c && c <= 'Z' {
        ((c as u32) + 32) as char
    } else {
        c
    }
}

/// ASCII lowercase of a sequence (`str::to_ascii_lowercase`).
pub open spec fn ascii_lower_seq(s: Seq<char>) -> Seq<char> {
    s.map_values(|c: char| ascii_lower(c))
}

/// Executable form of [`ascii_lower`].
pub fn char_ascii_lower(c: char) -> (r: char)
    ensures
        r == ascii_lower(c),
{
    if 'A' <= c && c <= 'Z' {
        let v: u8 = (c as u8) + 32;
        v as char
    } else {
        c
    }
}

/// `to_ascii_lowercase` on a character vector.
pub fn ascii_lower_chars(s: &Vec<char>) -> (out: Vec<char>)
    ensures
        out@ == ascii_lower_seq(s@),
{
    let mut out: Vec<char> = Vec::new();
    let mut i: usize = 0;
    while i < s.len()
        invariant
            i <= s.len(),
            out@ == ascii_lower_seq(s@.take(i as int)),
        decreases s.len() - i,
    {
        out.push(char_ascii_lower(s[i]));
        assert(ascii_lower_seq(s@.take(i + 1)) =~= ascii_lower_seq(s@.take(i as int)).push(
            ascii_lower(s@[i as int]),
        ));
        i += 1;
    }
    assert(s@.take(s.len() as int) == s@);
    out
}

// ---------------------------------------------------------------------------
// Decimal numbers
// ---------------------------------------------------------------------------

/// The ASCII digit for `d` (`0 <= d < 10`).
pub open spec fn digit_char(d: nat) -> char {
    (('0' as nat) + d) as char
}

/// Shortest decimal representation of `n`.
pub open spec fn dec(n: nat) -> Seq<char>
    decreases n,
{
    if n < 10 {
        seq![digit_char(n)]
    } else {
        dec(n / 10).push(digit_char(n % 10))
    }
}

/// `n` written with at least `width` characters, padded with leading zeros
/// after the sign; `plus` forces a `+` sign on non-negative values
/// (`format!("{:0w$}")` and `format!("{:+0w$}")`).
pub open spec fn padded(n: int, width: nat, plus: bool) -> Seq<char> {
    let sign: Seq<char> = if n < 0 {
        seq!['-']
    } else if plus {
        seq!['+']
    } else {
        Seq::empty()
    };
    let digits = dec(if n < 0 { (-n) as nat } else { n as nat });
    let zeros = if sign.len() + digits.len() < width {
        (width - sign.len() - digits.len()) as nat
    } else {
        0
    };
    sign + Seq::new(zeros, |i: int| '0') + digits
}

/// Executable digit character.
pub fn digit_of(d: u64) -> (c: char)
    requires
        d < 10,
    ensures
        c == digit_char(d as nat),
{
    let v: u8 = 48 + d as u8;
    v as char
}

/// Appends the decimal representation of `n`.
pub fn push_dec(out: &mut String, n: u64)
    ensures
        final(out)@ == old(out)@ + dec(n as nat),
    decreases n,
{
    if n >= 10 {
        push_dec(out, n / 10);
    }
    push_char(out, digit_of(n % 10));
    proof {
        if n >= 10 {
            assert(old(out)@ + dec(n as nat) == old(out)@ + dec((n / 10) as nat) + seq![
                digit_char((n % 10) as nat),
            ]);
        } else {
            assert(dec(n as nat) == seq![digit_char((n % 10) as nat)]);
        }
    }
}

/// Decimal representation of `n`.
pub fn dec_string(n: u64) -> (out: String)
    ensures
        out@ == dec(n as nat),
{
    let mut out = String::new();
    push_dec(&mut out, n);
    assert(Seq::<char>::empty() + dec(n as nat) == dec(n as nat));
    out
}

/// Decimal digits of `n` as a character vector.
pub fn dec_chars(n: u64) -> (out: Vec<char>)
    ensures
        out@ == dec(n as nat),
    decreases n,
{
    let mut out = if n >= 10 {
        dec_chars(n / 10)
    } else {
        Vec::new()
    };
    out.push(digit_of(n % 10));
    out
}

/// Appends `n` formatted as [`padded`] describes.
pub fn push_padded(out: &mut String, n: i64, width: u64, plus: bool)
    ensures
        final(out)@ == old(out)@ + padded(n as int, width as nat, plus),
{
    let ghost start = out@;
    let magnitude: u64 = if n < 0 {
        (0i128 - n as i128) as u64
    } else {
        n as u64
    };
    let sign_len: u64 = if n < 0 || plus { 1 } else { 0 };
    if n < 0 {
        push_char(out, '-');
    } else if plus {
        push_char(out, '+');
    }
    let ghost after_sign = out@;
    let digits = dec_chars(magnitude);
    let digit_count = digits.len() as u64;
    let zeros: u64 = if (sign_len as u128) + (digit_count as u128) < width as u128 {
        (width as u128 - sign_len as u128 - digit_count as u128) as u64
    } else {
        0
    };
    let mut k: u64 = 0;
    while k < zeros
        invariant
            k <= zeros,
            out@ == after_sign + Seq::new(k as nat, |i: int| '0'),
        decreases zeros - k,
    {
        push_char(out, '0');
        assert(Seq::new((k + 1) as nat, |i: int| '0') =~= Seq::new(k as nat, |i: int| '0').push(
            '0',
        ));
        k += 1;
    }
    push_chars(out, &digits);
    proof {
        let sign: Seq<char> = if n < 0 {
            seq!['-']
        } else if plus {
            seq!['+']
        } else {
            Seq::empty()
        };
        assert(after_sign == start + sign);
        assert(magnitude as nat == if n < 0 { (-n) as nat } else { n as nat });
        assert(out@ =~= start + padded(n as int, width as nat, plus));
    }
}

/// A calendar date as `chrono` displays it: `YYYY-MM-DD`, where years
/// outside `0..=9999` carry their sign and at least four digits.
pub open spec fn date_text(year: int, month: int, day: int) -> Seq<char> {
    (if 0 <= year <= 9999 {
        padded(year, 4, false)
    } else {
        padded(year, 5, true)
    }) + "-"@ + padded(month, 2, false) + "-"@ + padded(day, 2, false)
}

/// Appends a calendar date as [`date_text`] describes.
pub fn push_date(out: &mut String, year: i32, month: u32, day: u32)
    ensures
        final(out)@ == old(out)@ + date_text(year as int, month as int, day as int),
{
    let ghost start = out@;
    if 0 <= year && year <= 9999 {
        push_padded(out, year as i64, 4, false);
    } else {
        push_padded(out, year as i64, 5, true);
    }
    push_char(out, '-');
    push_padded(out, month as i64, 2, false);
    push_char(out, '-');
    push_padded(out, day as i64, 2, false);
    proof {
        reveal_strlit("-");
    }
    assert(out@ =~= start + date_text(year as int, month as int, day as int));
}

proof fn lemma_dec_ascii_bytes(n: nat)
    ensures
        is_ascii_digits(dec(n)),
    decreases n,
{
    if n >= 10 {
        lemma_dec_ascii_bytes(n / 10);
    }
}

/// Every character of `s` is an ASCII digit.
pub open spec fn is_ascii_digits(s: Seq<char>) -> bool {
    forall|i: int| 0 <= i < s.len() ==> is_digit(#[trigger] s[i])
}

/// Whether `c` is an ASCII decimal digit.
pub open spec fn is_digit(c: char) -> bool {
    '0' <= c && c <= '9'
}

/// Value of the decimal digit `c`.
pub open spec fn digit_value(c: char) -> nat {
    (c as int - '0' as int) as nat
}

/// Value of a sequence of decimal digits, most significant first.
pub open spec fn digits_value(s: Seq<char>) -> nat
    decreases s.len(),
{
    if s.len() == 0 {
        0
    } else {
        digits_value(s.drop_last()) * 10 + digit_value(s.last())
    }
}

/// The digits that follow an optional leading `+`.
pub open spec fn unsigned_body(s: Seq<char>) -> Seq<char> {
    if s.len() > 0 && s[0] == '+' {
        s.drop_first()
    } else {
        s
    }
}

/// What `str::parse` gives for an unsigned integer type whose largest value
/// is `max`: an optional `+`, then one or more ASCII digits whose value fits.
pub open spec fn parse_unsigned(s: Seq<char>, max: nat) -> Option<nat> {
    let body = unsigned_body(s);
    if body.len() > 0 && is_ascii_digits(body) && digits_value(body) <= max {
        Some(digits_value(body))
    } else {
        None
    }
}

proof fn lemma_digits_value_mono(s: Seq<char>, i: int, j: int)
    requires
        0 <= i <= j <= s.len(),
    ensures
        digits_value(s.take(i)) <= digits_value(s.take(j)),
    decreases j - i,
{
    if i < j {
        lemma_digits_value_mono(s, i, j - 1);
        assert(s.take(j).drop_last() == s.take(j - 1));
    }
}

/// The decimal text of a number reads back as that number: it is a
/// non-empty run of ASCII digits whose value is the number, so parsing it
/// with any bound at least the number gives the number back.
pub proof fn lemma_decimal_roundtrip(n: nat, max: nat)
    requires
        n <= max,
    ensures
        digits_value(dec(n)) == n,
        dec(n).len() > 0,
        is_ascii_digits(dec(n)),
        parse_unsigned(dec(n), max) == Some(n),
    decreases n,
{
    lemma_dec_ascii_bytes(n);
    let d = (n % 10) as nat;
    assert(digit_value(digit_char(d)) == d);
    if n >= 10 {
        lemma_decimal_roundtrip(n / 10, max);
        assert(dec(n) == dec(n / 10).push(digit_char(d)));
        assert(dec(n).drop_last() == dec(n / 10));
        assert(dec(n).last() == digit_char(d));
        assert(n == (n / 10) * 10 + d);
        assert(digits_value(dec(n)) == digits_value(dec(n / 10)) * 10 + d);
    } else {
        assert(dec(n) == seq![digit_char(n)]);
        assert(dec(n).drop_last() =~= Seq::<char>::empty());
        assert(digits_value(Seq::<char>::empty()) == 0);
        assert(dec(n).last() == digit_char(d));
        assert(digits_value(dec(n)) == d);
    }
    assert(is_digit(dec(n)[0]));
    assert(unsigned_body(dec(n)) == dec(n));
}

/// Different numbers have different decimal texts.
pub proof fn lemma_dec_injective(a: nat, b: nat)
    requires
        dec(a) == dec(b),
    ensures
        a == b,
{
    let m = if a <= b { b } else { a };
    lemma_decimal_roundtrip(a, m);
    lemma_decimal_roundtrip(b, m);
}

/// Parses an unsigned decimal number of at most `max` (`str::parse::<u64>`
/// and its narrower relatives).
pub fn parse_unsigned_dec(s: &Vec<char>, max: u64) -> (r: Option<u64>)
    ensures
        match r {
            Some(v) => parse_unsigned(s@, max as nat) == Some(v as nat),
            None => parse_unsigned(s@, max as nat) is None,
        },
{
    let start: usize = if s.len() > 0 && s[0] == '+' { 1 } else { 0 };
    let ghost body = unsigned_body(s@);
    assert(body == s@.subrange(start as int, s@.len() as int));
    if start >= s.len() {
        return None;
    }
    let mut value: u64 = 0;
    let mut i = start;
    while i < s.len()
        invariant
            start <= i <= s.len(),
            body == s@.subrange(start as int, s@.len() as int),
            body == unsigned_body(s@),
            value as nat == digits_value(body.take(i - start)),
            value <= max,
            forall|k: int| 0 <= k < i - start ==> is_digit(#[trigger] body[k]),
        decreases s.len() - i,
    {
        let c = s[i];
        assert(c == body[i - start]);
        if !('0' <= c && c <= '9') {
            assert(!is_digit(body[i - start]));
            return None;
        }
        let d: u64 = (c as u32 - 48) as u64;
        assert(body.take(i - start + 1).drop_last() == body.take(i - start));
        assert(digits_value(body.take(i - start + 1)) == value * 10 + d);
        if d > max || value > (max - d) / 10 {
            proof {
                if d <= max {
                    assert(value * 10 + d > max) by (nonlinear_arith)
                        requires
                            value > (max - d) / 10,
                            d <= max,
                    ;
                }
                lemma_digits_value_mono(body, i - start + 1, body.len() as int);
                assert(body.take(body.len() as int) == body);
                assert(digits_value(body) > max);
            }
            return None;
        }
        assert(value * 10 + d <= max) by (nonlinear_arith)
            requires
                value <= (max - d) / 10,
                d <= max,
        ;
        value = value * 10 + d;
        i += 1;
    }
    assert(body.take(body.len() as int) == body);
    Some(value)
}

// ---------------------------------------------------------------------------
// Splitting
// ---------------------------------------------------------------------------

/// The pieces of `s` between occurrences of `c`, as `str::split(c)` gives
/// them: one more piece than there are occurrences, empty pieces included.
pub open spec fn split_seq(s: Seq<char>, c: char) -> Seq<Seq<char>>
    decreases s.len(),
{
    if s.len() == 0 {
        seq![Seq::empty()]
    } else {
        let p = split_seq(s.drop_last(), c);
        if s.last() == c {
            p.push(Seq::empty())
        } else {
            p.update(p.len() - 1, p.last().push(s.last()))
        }
    }
}

/// Splitting always gives at least one piece.
pub proof fn lemma_split_nonempty(s: Seq<char>, c: char)
    ensures
        split_seq(s, c).len() >= 1,
    decreases s.len(),
{
    if s.len() > 0 {
        lemma_split_nonempty(s.drop_last(), c);
    }
}

/// Splits `s` at every `c` (`str::split`).
pub fn split_char(s: &str, c: char) -> (r: Vec<Vec<char>>)
    ensures
        r@.map_values(|p: Vec<char>| p@) == split_seq(s@, c),
{
    let cs = chars_of(s);
    let mut parts: Vec<Vec<char>> = Vec::new();
    let mut cur: Vec<char> = Vec::new();
    let mut i: usize = 0;
    while i < cs.len()
        invariant
            i <= cs@.len(),
            cs@ == s@,
            parts@.map_values(|p: Vec<char>| p@).push(cur@) == split_seq(cs@.take(i as int), c),
        decreases cs@.len() - i,
    {
        let ghost before = parts@.map_values(|p: Vec<char>| p@).push(cur@);
        proof {
            lemma_split_nonempty(cs@.take(i as int), c);
            assert(cs@.take(i + 1).drop_last() =~= cs@.take(i as int));
            assert(cs@.take(i + 1).last() == cs@[i as int]);
        }
        if cs[i] == c {
            parts.push(cur);
            cur = Vec::new();
            assert(parts@.map_values(|p: Vec<char>| p@).push(cur@) =~= before.push(Seq::empty()));
        } else {
            cur.push(cs[i]);
            assert(parts@.map_values(|p: Vec<char>| p@).push(cur@) =~= before.update(
                before.len() - 1,
                before.last().push(cs@[i as int]),
            ));
        }
        i = i + 1;
    }
    let ghost before = parts@.map_values(|p: Vec<char>| p@).push(cur@);
    parts.push(cur);
    assert(cs@.take(cs@.len() as int) =~= cs@);
    assert(parts@.map_values(|p: Vec<char>| p@) =~= before);
    parts
}

/// The whitespace-separated words of `s`, as `str::split_whitespace`
/// gives them: maximal runs of non-whitespace characters.
pub open spec fn words(s: Seq<char>) -> Seq<Seq<char>>
    decreases s.len(),
{
    if s.len() == 0 {
        Seq::empty()
    } else {
        let w = words(s.drop_last());
        if is_whitespace(s.last()) {
            w
        } else if s.len() >= 2 && !is_whitespace(s[s.len() - 2]) {
            w.update(w.len() - 1, w.last().push(s.last()))
        } else {
            w.push(seq![s.last()])
        }
    }
}

/// A text that ends in a non-whitespace character has a last word.
pub proof fn lemma_words_nonempty(s: Seq<char>)
    requires
        s.len() > 0,
        !is_whitespace(s.last()),
    ensures
        words(s).len() >= 1,
    decreases s.len(),
{
    if s.len() >= 2 && !is_whitespace(s[s.len() - 2]) {
        assert(s.drop_last().last() == s[s.len() - 2]);
        lemma_words_nonempty(s.drop_last());
    }
}

/// Splits `s` into its whitespace-separated words
/// (`str::split_whitespace`).
pub fn words_of(s: &Vec<char>) -> (r: Vec<Vec<char>>)
    ensures
        r@.map_values(|w: Vec<char>| w@) == words(s@),
{
    let mut r: Vec<Vec<char>> = Vec::new();
    let mut i: usize = 0;
    while i < s.len()
        invariant
            i <= s@.len(),
            r@.map_values(|w: Vec<char>| w@) == words(s@.take(i as int)),
        decreases s@.len() - i,
    {
        let ghost before = r@.map_values(|w: Vec<char>| w@);
        let c = s[i];
        proof {
            assert(s@.take(i + 1).drop_last() =~= s@.take(i as int));
            assert(s@.take(i + 1).last() == c);
        }
        if char_is_whitespace(c) {
        } else if i >= 1 && !char_is_whitespace(s[i - 1]) {
            proof {
                assert(s@.take(i as int).last() == s@[i - 1]);
                lemma_words_nonempty(s@.take(i as int));
                assert(s@.take(i + 1)[i - 1] == s@[i - 1]);
            }
            let last = r.len() - 1;
            let mut word = r[last].clone();
            word.push(c);
            r.set(last, word);
            assert(r@.map_values(|w: Vec<char>| w@) =~= before.update(
                before.len() - 1,
                before.last().push(c),
            ));
        } else {
            proof {
                if i >= 1 {
                    assert(s@.take(i + 1)[i - 1] == s@[i - 1]);
                }
            }
            let mut word: Vec<char> = Vec::new();
            word.push(c);
            r.push(word);
            assert(r@.map_values(|w: Vec<char>| w@) =~= before.push(seq![c]));
        }
        i = i + 1;
    }
    assert(s@.take(s@.len() as int) =~= s@);
    r
}

/// `p` without one trailing carriage return.
pub open spec fn strip_cr(p: Seq<char>) -> Seq<char> {
    if p.len() > 0 && p.last() == '\r' {
        p.drop_last()
    } else {
        p
    }
}

/// The lines of `s`, as `str::lines` gives them: pieces ended by `\n` (a
/// `\r` before it removed), and the rest after the last `\n` when it is not
/// empty.
pub open spec fn lines_seq(s: Seq<char>) -> Seq<Seq<char>> {
    let pieces = split_seq(s, '\n');
    let ended = pieces.drop_last().map_values(|p: Seq<char>| strip_cr(p));
    if pieces.last().len() == 0 {
        ended
    } else {
        ended.push(pieces.last())
    }
}

/// Splits `s` into lines (`str::lines`).
pub fn lines_of(s: &str) -> (r: Vec<Vec<char>>)
    ensures
        r@.map_values(|l: Vec<char>| l@) == lines_seq(s@),
{
    let pieces = split_char(s, '\n');
    proof {
        lemma_split_nonempty(s@, '\n');
    }
    let n = pieces.len();
    let mut r: Vec<Vec<char>> = Vec::new();
    let mut i: usize = 0;
    while i + 1 < n
        invariant
            n == pieces@.len(),
            n >= 1,
            i + 1 <= n,
            pieces@.map_values(|p: Vec<char>| p@) == split_seq(s@, '\n'),
            r@.map_values(|l: Vec<char>| l@) == pieces@.take(i as int).map_values(
                |p: Vec<char>| strip_cr(p@),
            ),
        decreases n - i,
    {
        let piece = &pieces[i];
        let ghost before = r@.map_values(|l: Vec<char>| l@);
        let mut line = piece.clone();
        if line.len() > 0 && line[line.len() - 1] == '\r' {
            line.pop();
        }
        assert(line@ == strip_cr(pieces@[i as int]@));
        r.push(line);
        assert(pieces@.take(i + 1).map_values(|p: Vec<char>| strip_cr(p@)) =~= pieces@.take(
            i as int,
        ).map_values(|p: Vec<char>| strip_cr(p@)).push(strip_cr(pieces@[i as int]@)));
        assert(r@.map_values(|l: Vec<char>| l@) =~= before.push(strip_cr(pieces@[i as int]@)));
        i = i + 1;
    }
    let ghost ended = split_seq(s@, '\n').drop_last().map_values(|p: Seq<char>| strip_cr(p));
    assert(pieces@.take(n - 1).map_values(|p: Vec<char>| strip_cr(p@)) =~= ended);
    let last = &pieces[n - 1];
    if last.len() > 0 {
        let ghost before = r@.map_values(|l: Vec<char>| l@);
        r.push(last.clone());
        assert(r@.map_values(|l: Vec<char>| l@) =~= before.push(pieces@[n - 1]@));
    }
    r
}

} // verus!
