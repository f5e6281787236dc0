//! Character-level helpers shared by the serialisers and the configuration readers:
//! decimal rendering and parsing of integers, Unicode white space, trailing-character
//! trimming, lower-casing and text equality.

use vstd::prelude::*;
use vstd::std_specs::iter::IteratorSpec;
use vstd::utf8::is_ascii_chars;

verus! {

/// Appends one character to a `String` (`String::push`).
#[verifier::external_body]
pub(crate) fn push_char(s: &mut String, c: char)
    ensures
        final(s)@ == old(s)@.push(c),
{
    s.push(c);
}

/// The characters of `s` as `str::to_lowercase` returns them: the Unicode lower-case mapping
/// (one character can map to several, and a final capital sigma is mapped by its context).
pub uninterp spec fn unicode_lowercase(s: Seq<char>) -> Seq<char>;

/// The lower case of an ASCII character: `A`..`Z` become `a`..`z`, every other one is kept.
pub open spec fn ascii_lowercase_char(c: char) -> char {
    if 'A' <= c && c <= 'Z' {
        ((c as u32) + 32) as char
    } else {
        c
    }
}

/// A text of ASCII characters in lower case.
pub open spec fn ascii_lowercase(s: Seq<char>) -> Seq<char> {
    s.map_values(|c: char| ascii_lowercase_char(c))
}

/// `str::to_lowercase`. Claimed: the result is `unicode_lowercase` of the argument, a function
/// of the characters alone (no locale is consulted); and, for a text of ASCII characters only,
/// it is the text with `A`..`Z` turned into `a`..`z` and every other character kept (the
/// Unicode lower-case mapping of the ASCII range, as the method's documentation example
/// `"HELLO"` to `"hello"` shows). What the mapping does to other characters is left unsaid.
#[verifier::external_body]
pub(crate) fn to_lowercase(s: &str) -> (res: String)
    ensures
        res@ == unicode_lowercase(s@),
        is_ascii_chars(s@) ==> res@ == ascii_lowercase(s@),
{
    s.to_lowercase()
}

/// Whether two texts hold the same characters.
pub fn same_text(a: &str, b: &str) -> (res: bool)
    ensures
        res == (a@ == b@),
{
    let x = a.to_owned();
    let y = b.to_owned();
    x == y
}

// ---------------------------------------------------------------------------------------------
// Decimal rendering
// ---------------------------------------------------------------------------------------------

/// The ASCII digit for `d` in `0..10`.
pub open spec fn digit_char(d: int) -> char {
    (d + 48) as char
}

/// The decimal digits of `n`, most significant first, without leading zeros (`0` is `"0"`).
pub open spec fn spec_decimal(n: nat) -> Seq<char>
    decreases n,
{
    if n < 10 {
        seq![digit_char(n as int)]
    } else {
        spec_decimal(n / 10).push(digit_char((n % 10) as int))
    }
}

/// How `Display` writes an integer: an optional `-` followed by the decimal digits of its
/// magnitude.
pub open spec fn spec_int_text(i: int) -> Seq<char> {
    if i < 0 {
        seq!['-'] + spec_decimal((-i) as nat)
    } else {
        spec_decimal(i as nat)
    }
}

fn digit(d: u128) -> (c: char)
    requires
        d < 10,
    ensures
        c == digit_char(d as int),
{
    let b: u8 = 48u8 + d as u8;
    b as char
}

/// Appends the decimal digits of `n`.
pub fn push_decimal(out: &mut String, n: u128)
    ensures
        final(out)@ == old(out)@ + spec_decimal(n as nat),
    decreases n,
{
    if n >= 10 {
        push_decimal(out, n / 10);
    }
    push_char(out, digit(n % 10));
    proof {
        if n >= 10 {
            assert(old(out)@ + spec_decimal(n as nat) == old(out)@ + spec_decimal((n / 10) as nat)
                + seq![digit_char((n % 10) as int)]);
        }
    }
}

/// Appends the decimal text of `i`, as `Display` writes it.
pub fn push_int(out: &mut String, i: i64)
    ensures
        final(out)@ == old(out)@ + spec_int_text(i as int),
{
    if i < 0 {
        push_char(out, '-');
        let magnitude: u128 = (0i128 - i as i128) as u128;
        push_decimal(out, magnitude);
        assert(final(out)@ == old(out)@ + spec_int_text(i as int));
    } else {
        push_decimal(out, i as u128);
    }
}

// ---------------------------------------------------------------------------------------------
// Decimal parsing (as `str::parse` reads an unsigned integer)
// ---------------------------------------------------------------------------------------------

pub open spec fn is_ascii_digit(c: char) -> bool {
    '0' <= c && c <= '9'
}

pub open spec fn all_ascii_digits(s: Seq<char>) -> bool {
    forall|i: int| 0 <= i < s.len() ==> #[trigger] is_ascii_digit(s[i])
}

/// The number that a run of decimal digits denotes.
pub open spec fn digits_value(s: Seq<char>) -> nat
    decreases s.len(),
{
    if s.len() == 0 {
        0
    } else {
        digits_value(s.drop_last()) * 10 + ((s.last() as int - 48) as nat)
    }
}

/// The digits after one optional leading `+`.
pub open spec fn unsigned_digits(s: Seq<char>) -> Seq<char> {
    if s.len() > 0 && s[0] == '+' {
        s.skip(1)
    } else {
        s
    }
}

/// What `str::parse` gives for an unsigned integer type whose largest value is `max`: an
/// optional `+`, then at least one ASCII digit and nothing else, denoting a value up to `max`.
pub open spec fn spec_parse_unsigned(s: Seq<char>, max: nat) -> Option<nat> {
    let d = unsigned_digits(s);
    if d.len() > 0 && all_ascii_digits(d) && digits_value(d) <= max {
        Some(digits_value(d))
    } else {
        None
    }
}

proof fn lemma_digits_value_prefix(s: Seq<char>, k: int)
    requires
        all_ascii_digits(s),
        0 <= k <= s.len(),
    ensures
        digits_value(s.take(k)) <= digits_value(s),
    decreases s.len(),
{
    if k < s.len() {
        assert(all_ascii_digits(s.drop_last())) by {
            assert forall|i: int| 0 <= i < s.drop_last().len() implies #[trigger] is_ascii_digit(
                s.drop_last()[i],
            ) by {
                assert(is_ascii_digit(s[i]));
            }
        }
        lemma_digits_value_prefix(s.drop_last(), k);
        assert(s.drop_last().take(k) == s.take(k));
        assert(is_ascii_digit(s[s.len() - 1]));
    } else {
        assert(s.take(k) == s);
    }
}

/// Parses an unsigned decimal number no greater than `max`, as `str::parse` does for the
/// unsigned integer type whose largest value is `max`.
pub fn parse_unsigned(s: &str, max: u64) -> (res: Option<u64>)
    ensures
        match spec_parse_unsigned(s@, max as nat) {
            Some(v) => res == Some(v as u64),
            None => res is None,
        },
{
    let ghost src = s@;
    let ghost d = unsigned_digits(src);
    let n = s.unicode_len();
    if n == 0 {
        return None;
    }
    let start: usize = if s.get_char(0) == '+' { 1 } else { 0 };
    if start == n {
        proof {
            assert(d.len() == 0);
        }
        return None;
    }
    proof {
        assert(d == src.skip(start as int));
    }
    let mut acc: u64 = 0;
    let mut k: usize = 0;
    for c in it: s.chars()
        invariant
            it.seq() == src,
            src.len() == n,
            0 <= start <= 1,
            start < n,
            d == src.skip(start as int),
            d == unsigned_digits(src),
            src == s@,
            k == it.index(),
            k <= start ==> acc == 0,
            k >= start ==> all_ascii_digits(d.take(k - start)) && acc == digits_value(
                d.take(k - start),
            ),
            acc <= max,
    {
        if k >= start {
            let ghost j = k - start;
            proof {
                assert(d[j] == c);
                assert(d.take(j + 1).drop_last() == d.take(j));
            }
            if !('0' <= c && c <= '9') {
                proof {
                    assert(!is_ascii_digit(d[j]));
                }
                return None;
            }
            let dv: u64 = (c as u32 - 48) as u64;
            if dv > max || acc > (max - dv) / 10 {
                proof {
                    assert(acc * 10 + dv > max) by (nonlinear_arith)
                        requires
                            acc > (max - dv) / 10 || dv > max,
                            dv <= 9,
                    ;
                    assert(digits_value(d.take(j + 1)) == acc * 10 + dv);
                    if all_ascii_digits(d) {
                        lemma_digits_value_prefix(d, j + 1);
                    }
                }
                return None;
            }
            proof {
                assert(acc * 10 + dv <= max) by (nonlinear_arith)
                    requires
                        acc <= (max - dv) / 10,
                        dv <= max,
                ;
                assert forall|i: int| 0 <= i < j + 1 implies #[trigger] is_ascii_digit(
                    d.take(j + 1)[i],
                ) by {
                    if i < j {
                        assert(d.take(j + 1)[i] == d.take(j)[i]);
                    }
                }
            }
            acc = acc * 10 + dv;
        }
        k = k + 1;
    }
    proof {
        assert(d.take(n - start) == d);
    }
    Some(acc)
}

// ---------------------------------------------------------------------------------------------
// White space and trimming
// ---------------------------------------------------------------------------------------------

/// The Unicode `White_Space` property, which `char::is_whitespace` and `str::trim` go by.
pub open spec fn is_unicode_white_space(c: char) -> bool {
    let u = c as u32;
    (0x09 <= u && u <= 0x0D) || u == 0x20 || u == 0x85 || u == 0xA0 || u == 0x1680 || (0x2000
        <= u && u <= 0x200A) || u == 0x2028 || u == 0x2029 || u == 0x202F || u == 0x205F || u
        == 0x3000
}

/// A text that `str::trim` turns into the empty text: every character is white space.
pub open spec fn is_blank_text(s: Seq<char>) -> bool {
    forall|i: int| 0 <= i < s.len() ==> #[trigger] is_unicode_white_space(s[i])
}

/// Whether `c` has the Unicode `White_Space` property (`char::is_whitespace`).
pub fn is_white_space(c: char) -> (res: bool)
    ensures
        res == is_unicode_white_space(c),
{
    let u = c as u32;
    (0x09 <= u && u <= 0x0D) || u == 0x20 || u == 0x85 || u == 0xA0 || u == 0x1680 || (0x2000
        <= u && u <= 0x200A) || u == 0x2028 || u == 0x2029 || u == 0x202F || u == 0x205F || u
        == 0x3000
}

/// `s.trim().is_empty()`: whether `s` holds nothing but white space.
pub fn is_blank(s: &str) -> (res: bool)
    ensures
        res == is_blank_text(s@),
{
    let ghost src = s@;
    for c in it: s.chars()
        invariant
            it.seq() == src,
            src == s@,
            forall|i: int| 0 <= i < it.index() ==> #[trigger] is_unicode_white_space(src[i]),
    {
        if !is_white_space(c) {
            proof {
                assert(src[it.index() as int] == c);
            }
            return false;
        }
    }
    true
}

/// `s` with every trailing `c` removed (`str::trim_end_matches` with one character).
pub open spec fn spec_trim_end(s: Seq<char>, c: char) -> Seq<char>
    decreases s.len(),
{
    if s.len() > 0 && s.last() == c {
        spec_trim_end(s.drop_last(), c)
    } else {
        s
    }
}

proof fn lemma_trim_end(s: Seq<char>, c: char, keep: int, n: int)
    requires
        0 <= keep <= n <= s.len(),
        forall|j: int| keep <= j < n ==> s[j] == c,
        keep == 0 || s[keep - 1] != c,
    ensures
        spec_trim_end(s.take(n), c) == s.take(keep),
    decreases n - keep,
{
    if n > keep {
        assert(s.take(n).drop_last() == s.take(n - 1));
        lemma_trim_end(s, c, keep, n - 1);
    }
}

/// `s` with every trailing `c` removed (`str::trim_end_matches` with one character).
pub fn trim_end_char(s: &str, c: char) -> (res: &str)
    ensures
        res@ == spec_trim_end(s@, c),
{
    let ghost src = s@;
    let total = s.unicode_len();
    let mut keep: usize = 0;
    let mut n: usize = 0;
    for ch in it: s.chars()
        invariant
            it.seq() == src,
            src.len() == total,
            n <= src.len(),
            n == it.index(),
            keep <= n,
            forall|j: int| keep <= j < n ==> src[j] == c,
            keep == 0 || src[keep - 1] != c,
    {
        n = n + 1;
        if ch != c {
            keep = n;
        }
    }
    proof {
        lemma_trim_end(src, c, keep as int, n as int);
        assert(src.take(n as int) == src);
    }
    s.substring_char(0, keep)
}

} // verus!
