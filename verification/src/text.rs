//! Facts about `str` methods of the standard library that the scrapers use.

use crate::seqs::{first_index, is_first, lemma_first_absent, lemma_first_found};
use vstd::prelude::*;
use vstd::string::StrSliceExecFns;

verus! {

/// Whether `pattern` occurs in `text` as a contiguous run of characters.
pub open spec fn occurs_in(pattern: Seq<char>, text: Seq<char>) -> bool {
    exists|i: int|
        0 <= i && i + pattern.len() <= text.len() && #[trigger] text.subrange(
            i,
            i + pattern.len(),
        ) == pattern
}

/// The lower-case form of an ASCII capital letter; any other character unchanged.
pub open spec fn ascii_lower(c: char) -> char {
    if 'A' <= c && c <= 'Z' {
        ((c as u8) + 32) as char
    } else {
        c
    }
}

/// A text with its ASCII capital letters in lower case.
pub open spec fn ascii_fold(text: Seq<char>) -> Seq<char> {
    text.map_values(|c: char| ascii_lower(c))
}

/// `str::eq`: two string slices are equal where they hold the same characters.
#[verifier::external_body]
pub(crate) fn same_text(a: &str, b: &str) -> (r: bool)
    ensures
        r == (a@ == b@),
{
    a == b
}

/// `str::starts_with` with a string pattern: whether `prefix` is a prefix of `text`.
#[verifier::external_body]
pub(crate) fn starts_with(text: &str, prefix: &str) -> (r: bool)
    ensures
        r == prefix@.is_prefix_of(text@),
{
    text.starts_with(prefix)
}

/// `str::contains` with a string pattern: whether `pattern` occurs in `text`.
#[verifier::external_body]
pub(crate) fn contains_text(text: &str, pattern: &str) -> (r: bool)
    ensures
        r == occurs_in(pattern@, text@),
{
    text.contains(pattern)
}

/// `str::eq_ignore_ascii_case`: equality up to the case of ASCII letters.
#[verifier::external_body]
pub(crate) fn eq_ignore_ascii_case(a: &str, b: &str) -> (r: bool)
    ensures
        r == (ascii_fold(a@) == ascii_fold(b@)),
{
    a.eq_ignore_ascii_case(b)
}

/// Whether a character is white space as Unicode defines it.
pub open spec fn is_space(c: char) -> bool {
    ||| c == ' '
    ||| ('\u{9}' <= c && c <= '\u{d}')
    ||| c == '\u{85}'
    ||| c == '\u{a0}'
    ||| c == '\u{1680}'
    ||| ('\u{2000}' <= c && c <= '\u{200a}')
    ||| c == '\u{2028}'
    ||| c == '\u{2029}'
    ||| c == '\u{202f}'
    ||| c == '\u{205f}'
    ||| c == '\u{3000}'
}

/// The characters that are white space.
pub open spec fn space() -> spec_fn(char) -> bool {
    |c: char| is_space(c)
}

/// The characters that are no white space.
pub open spec fn no_space() -> spec_fn(char) -> bool {
    |c: char| !is_space(c)
}

/// `char::is_whitespace`: whether a character has the Unicode property
/// `White_Space`.
#[verifier::external_body]
pub(crate) fn char_is_whitespace(c: char) -> (r: bool)
    ensures
        r == is_space(c),
{
    c.is_whitespace()
}

/// The first word of a text: what stands between the white space at its
/// start and the next white space; `None` where the text is white space only.
pub open spec fn first_word_of(text: Seq<char>) -> Option<Seq<char>> {
    match first_index(text, no_space()) {
        Some(start) => match first_index(text.skip(start), space()) {
            Some(len) => Some(text.subrange(start, start + len)),
            None => Some(text.skip(start)),
        },
        None => None,
    }
}

/// The first word of a text: see [`first_word_of`].
pub fn first_word(text: &str) -> (word: Option<&str>)
    ensures
        word.deep_view() == first_word_of(text@),
{
    let n = text.unicode_len();
    let mut start: usize = 0;
    while start < n && char_is_whitespace(text.get_char(start))
        invariant
            start <= n,
            n == text@.len(),
            forall|j: int| 0 <= j < start ==> !no_space()(#[trigger] text@[j]),
        decreases n - start,
    {
        start += 1;
    }
    if start == n {
        proof {
            lemma_first_absent(text@, no_space());
        }
        return None;
    }
    proof {
        assert(is_first(text@, no_space(), start as int));
        lemma_first_found(text@, no_space(), start as int);
    }
    let ghost rest = text@.skip(start as int);
    let mut end: usize = start;
    while end < n && !char_is_whitespace(text.get_char(end))
        invariant
            start <= end <= n,
            n == text@.len(),
            rest == text@.skip(start as int),
            forall|j: int| 0 <= j < end - start ==> !space()(#[trigger] rest[j]),
        decreases n - end,
    {
        assert(rest[end - start] == text@[end as int]);
        end += 1;
    }
    proof {
        if end < n {
            assert(rest[end - start] == text@[end as int]);
            assert(is_first(rest, space(), end - start));
            lemma_first_found(rest, space(), end - start);
        } else {
            lemma_first_absent(rest, space());
            assert(text@.subrange(start as int, n as int) == rest);
        }
    }
    Some(text.substring_char(start, end))
}

/// Whether a text holds the character `c`.
pub fn contains_char(text: &str, c: char) -> (r: bool)
    ensures
        r == text@.contains(c),
{
    let n = text.unicode_len();
    let mut i: usize = 0;
    while i < n
        invariant
            i <= n,
            n == text@.len(),
            forall|j: int| 0 <= j < i ==> text@[j] != c,
        decreases n - i,
    {
        if text.get_char(i) == c {
            return true;
        }
        i += 1;
    }
    false
}

/// Whether a character is a decimal digit of ASCII.
pub open spec fn is_digit(c: char) -> bool {
    '0' <= c && c <= '9'
}

/// The number that decimal digits stand for.
pub open spec fn digits_value(digits: Seq<char>) -> nat
    decreases digits.len(),
{
    if digits.len() == 0 {
        0
    } else {
        (digits_value(digits.drop_last()) * 10 + (digits.last() as int - '0' as int)) as nat
    }
}

/// The number that a text writes in decimal: digits only, a `+` sign in
/// front allowed, and the value within `usize`.
pub open spec fn decimal_of(text: Seq<char>) -> Option<usize> {
    let digits = if text.len() > 0 && text[0] == '+' {
        text.skip(1)
    } else {
        text
    };
    if digits.len() > 0 && (forall|i: int| 0 <= i < digits.len() ==> is_digit(#[trigger] digits[i]))
        && digits_value(digits) <= usize::MAX {
        Some(digits_value(digits) as usize)
    } else {
        None
    }
}

/// `str::parse` for `usize`, the error dropped: the number that the text
/// writes in decimal, `None` for any other text.
#[verifier::external_body]
pub(crate) fn parse_usize(text: &str) -> (r: Option<usize>)
    ensures
        r == decimal_of(text@),
{
    text.parse::<usize>().ok()
}

} // verus!
