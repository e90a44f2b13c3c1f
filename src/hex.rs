//! Hexadecimal text for byte codes.

use vstd::prelude::*;
use crate::text::push_char;

verus! {

/// The lowercase hexadecimal digit of a value below sixteen.
pub open spec fn nibble_char(d: nat) -> char {
    if d < 10 {
        (d + 48) as char
    } else {
        (d + 87) as char
    }
}

/// Minimal-width hexadecimal text of `n`, most significant digit first;
/// zero has no digits.
pub open spec fn hex_text(n: nat) -> Seq<char>
    decreases n,
{
    if n == 0 {
        seq![]
    } else {
        hex_text(n / 16).push(nibble_char(n % 16))
    }
}

/// Exactly two hexadecimal digits for a byte.
pub open spec fn byte_text(b: u8) -> Seq<char> {
    seq![nibble_char(b as nat / 16), nibble_char(b as nat % 16)]
}

/// The digit of a nibble as a one-character string.
pub fn to_nibble(num: u8) -> (r: String)
    requires
        num < 16,
    ensures
        r@ == seq![nibble_char(num as nat)],
{
    let mut r = String::new();
    push_char(&mut r, nibble(num));
    r
}

pub(crate) fn nibble(num: u8) -> (c: char)
    requires
        num < 16,
    ensures
        c == nibble_char(num as nat),
{
    if num < 10 {
        (num + 48) as char
    } else {
        (num + 87) as char
    }
}

/// Minimal-width lowercase hexadecimal text of `num`.
pub fn to_hex(num: u32) -> (r: String)
    ensures
        r@ == hex_text(num as nat),
    decreases num,
{
    if num == 0 {
        String::new()
    } else {
        let mut r = to_hex(num / 16);
        push_char(&mut r, nibble((num % 16) as u8));
        r
    }
}

/// A byte as exactly two lowercase hexadecimal digits.
pub fn byte_hex(b: u8) -> (r: String)
    ensures
        r@ == byte_text(b),
{
    let mut r = String::new();
    push_char(&mut r, nibble(b / 16));
    push_char(&mut r, nibble(b % 16));
    r
}

/// Every byte from sixteen up has a minimal-width text of exactly two digits.
pub proof fn lemma_hex_text_of_byte(b: u8)
    requires
        b >= 16,
    ensures
        hex_text(b as nat) == byte_text(b),
{
    let n = b as nat;
    assert(n / 16 < 16 && n / 16 > 0);
    assert((n / 16) / 16 == 0);
    assert(hex_text((n / 16) / 16) == Seq::<char>::empty());
    assert(hex_text(n / 16) == seq![nibble_char((n / 16) % 16)]);
    assert((n / 16) % 16 == n / 16);
}

} // verus!
