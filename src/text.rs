//! Character-level helpers shared by the encoder and the tokenizer.

use vstd::prelude::*;

verus! {

/// What `char::is_alphanumeric` answers for a character.
pub uninterp spec fn alphanumeric(c: char) -> bool;

/// What `char::is_whitespace` answers for a character.
pub uninterp spec fn whitespace(c: char) -> bool;

pub open spec fn is_ascii_char(c: char) -> bool {
    (c as u32) < 128
}

pub open spec fn ascii_digit(c: char) -> bool {
    '0' <= c && c <= '9'
}

pub open spec fn ascii_lower_letter(c: char) -> bool {
    'a' <= c && c <= 'z'
}

pub open spec fn ascii_upper_letter(c: char) -> bool {
    'A' <= c && c <= 'Z'
}

/// The ASCII characters that are letters or digits.
pub open spec fn ascii_alnum(c: char) -> bool {
    ascii_digit(c) || ascii_lower_letter(c) || ascii_upper_letter(c)
}

/// The ASCII characters with the Unicode `White_Space` property:
/// tab, line feed, vertical tab, form feed, carriage return and space.
pub open spec fn ascii_space(c: char) -> bool {
    c == ' ' || ('\t' <= c && c <= '\r')
}

/// ASCII upper-case letters mapped to lower case; every other character kept.
pub open spec fn lower_char(c: char) -> char {
    if ascii_upper_letter(c) {
        ((c as u32) + 32) as char
    } else {
        c
    }
}

/// Whether a character is alphanumeric: within ASCII exactly the letters
/// and digits.
pub open spec fn is_alnum(c: char) -> bool {
    if is_ascii_char(c) {
        ascii_alnum(c)
    } else {
        alphanumeric(c)
    }
}

/// Whether a character is whitespace: within ASCII exactly tab through
/// carriage return, and space.
pub open spec fn is_space(c: char) -> bool {
    if is_ascii_char(c) {
        ascii_space(c)
    } else {
        whitespace(c)
    }
}

/// Relies on `char::is_alphanumeric` (Unicode `Alphabetic` or `Numeric`):
/// within ASCII these are exactly the letters and digits.
#[verifier::external_body]
pub(crate) fn is_alphanumeric(c: char) -> (r: bool)
    ensures
        r == is_alnum(c),
        !is_ascii_char(c) ==> r == alphanumeric(c),
{
    c.is_alphanumeric()
}

/// Relies on `char::is_whitespace` (Unicode `White_Space`): within ASCII
/// these are exactly tab through carriage return, and space.
#[verifier::external_body]
pub(crate) fn is_whitespace(c: char) -> (r: bool)
    ensures
        r == is_space(c),
        !is_ascii_char(c) ==> r == whitespace(c),
{
    c.is_whitespace()
}

/// Relies on `String::push`: the character is appended at the end.
#[verifier::external_body]
pub(crate) fn push_char(s: &mut String, c: char)
    ensures
        final(s)@ == old(s)@.push(c),
{
    s.push(c)
}

/// The ASCII lower-case form of a character.
pub fn to_ascii_lower(c: char) -> (r: char)
    ensures
        r == lower_char(c),
{
    if 'A' <= c && c <= 'Z' {
        let w: u32 = c as u32;
        let b: u8 = w as u8;
        assert(b as u32 == w) by (bit_vector)
            requires
                b == w as u8,
                w <= 90,
        ;
        (b + 32) as char
    } else {
        c
    }
}

/// Whether two strings hold the same characters.
pub fn same_text(a: &str, b: &str) -> (r: bool)
    ensures
        r == (a@ == b@),
{
    let n = a.unicode_len();
    if n != b.unicode_len() {
        return false;
    }
    let mut i: usize = 0;
    while i < n
        invariant
            n == a@.len(),
            n == b@.len(),
            0 <= i <= n,
            a@.subrange(0, i as int) == b@.subrange(0, i as int),
        decreases n - i,
    {
        if a.get_char(i) != b.get_char(i) {
            return false;
        }
        assert(a@.subrange(0, i + 1) == a@.subrange(0, i as int).push(a@[i as int]));
        assert(b@.subrange(0, i + 1) == b@.subrange(0, i as int).push(b@[i as int]));
        i = i + 1;
    }
    assert(a@ == a@.subrange(0, n as int));
    assert(b@ == b@.subrange(0, n as int));
    true
}

/// The characters of a string, one per element.
pub fn chars_of(s: &str) -> (r: Vec<char>)
    ensures
        r@ == s@,
{
    let n = s.unicode_len();
    let mut r: Vec<char> = Vec::new();
    let mut i: usize = 0;
    while i < n
        invariant
            n == s@.len(),
            0 <= i <= n,
            r@ == s@.subrange(0, i as int),
        decreases n - i,
    {
        r.push(s.get_char(i));
        i = i + 1;
    }
    assert(s@ == s@.subrange(0, n as int));
    r
}

} // verus!
