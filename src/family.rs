//! Opcode families whose mnemonic is a prefix followed by a decimal suffix:
//! the byte is the family's base plus the suffix.

use vstd::prelude::*;
use crate::error::AsmError;
use crate::hex::{hex_text, to_hex};
use crate::text::ascii_digit;

verus! {

/// The suffix value past which every suffix is out of range for every
/// family; longer digit runs are read no further than this.
pub const SUFFIX_CAP: u32 = 1000;

/// The four opcode families that carry a numeric suffix.
#[derive(Debug, Clone, Copy, PartialEq, Eq, Structural)]
pub enum Family {
    Duplicate,
    Log,
    Push,
    Swap,
}

impl Family {
    pub open spec fn spec_prefix(self) -> Seq<char> {
        match self {
            Family::Duplicate => "dup"@,
            Family::Log => "log"@,
            Family::Push => "push"@,
            Family::Swap => "swap"@,
        }
    }

    /// The byte just below the family's first member.
    pub open spec fn spec_base(self) -> u32 {
        match self {
            Family::Duplicate => 0x7f,
            Family::Log => 0x9f,
            Family::Push => 0x5f,
            Family::Swap => 0x8f,
        }
    }

    /// The largest valid suffix; the smallest is one.
    pub open spec fn spec_max(self) -> u32 {
        match self {
            Family::Duplicate => 16,
            Family::Log => 4,
            Family::Push => 32,
            Family::Swap => 16,
        }
    }

    /// The letters that every member's mnemonic starts with.
    pub fn prefix(self) -> (r: &'static str)
        ensures
            r@ == self.spec_prefix(),
    {
        match self {
            Family::Duplicate => "dup",
            Family::Log => "log",
            Family::Push => "push",
            Family::Swap => "swap",
        }
    }

    /// The byte just below the family's first member.
    pub fn base(self) -> (r: u32)
        ensures
            r == self.spec_base(),
    {
        match self {
            Family::Duplicate => 0x7f,
            Family::Log => 0x9f,
            Family::Push => 0x5f,
            Family::Swap => 0x8f,
        }
    }

    /// The largest valid suffix.
    pub fn max(self) -> (r: u32)
        ensures
            r == self.spec_max(),
    {
        match self {
            Family::Duplicate => 16,
            Family::Log => 4,
            Family::Push => 32,
            Family::Swap => 16,
        }
    }
}

/// A non-empty run of ASCII decimal digits.
pub open spec fn is_digits(s: Seq<char>) -> bool {
    &&& s.len() > 0
    &&& forall|i: int| 0 <= i < s.len() ==> ascii_digit(#[trigger] s[i])
}

/// The value of a run of decimal digits.
pub open spec fn decimal(s: Seq<char>) -> nat
    decreases s.len(),
{
    if s.len() == 0 {
        0
    } else {
        decimal(s.drop_last()) * 10 + ((s.last() as nat) - 48) as nat
    }
}

/// The suffix of `t` as a member of family `f`: `t` is the family's
/// prefix followed immediately by a run of decimal digits, and nothing more.
pub open spec fn family_suffix(f: Family, t: Seq<char>) -> Option<nat> {
    let p = f.spec_prefix();
    if t.len() > p.len() && t.take(p.len() as int) == p && is_digits(t.skip(p.len() as int)) {
        Some(decimal(t.skip(p.len() as int)))
    } else {
        None
    }
}

/// The family that `t` belongs to and its suffix, trying the families in
/// the order duplicate, log, push, swap.
pub open spec fn match_family(t: Seq<char>) -> Option<(Family, nat)> {
    if family_suffix(Family::Duplicate, t) is Some {
        Some((Family::Duplicate, family_suffix(Family::Duplicate, t)->0))
    } else if family_suffix(Family::Log, t) is Some {
        Some((Family::Log, family_suffix(Family::Log, t)->0))
    } else if family_suffix(Family::Push, t) is Some {
        Some((Family::Push, family_suffix(Family::Push, t)->0))
    } else if family_suffix(Family::Swap, t) is Some {
        Some((Family::Swap, family_suffix(Family::Swap, t)->0))
    } else {
        None
    }
}

pub open spec fn capped(n: nat) -> nat {
    if n < SUFFIX_CAP {
        n
    } else {
        SUFFIX_CAP as nat
    }
}

proof fn lemma_capped_step(n: nat, d: nat)
    requires
        d < 10,
    ensures
        capped(capped(n) * 10 + d) == capped(n * 10 + d),
{
    if n >= SUFFIX_CAP {
        assert(n * 10 + d >= SUFFIX_CAP) by (nonlinear_arith)
            requires
                n >= SUFFIX_CAP,
        ;
    }
}

/// Reads `t` as a member of the family with the given prefix. The suffix
/// comes back capped at [`SUFFIX_CAP`], which every family's range lies below.
pub fn family_member(t: &str, prefix: &str) -> (r: Option<u32>)
    ensures
        ({
            let p = prefix@;
            let ok = t@.len() > p.len() && t@.take(p.len() as int) == p && is_digits(t@.skip(p.len() as int));
            match r {
                None => !ok,
                Some(v) => ok && v as nat == capped(decimal(t@.skip(p.len() as int))),
            }
        }),
{
    let n = t.unicode_len();
    let k = prefix.unicode_len();
    if n <= k {
        return None;
    }
    let mut i: usize = 0;
    while i < k
        invariant
            n == t@.len(),
            k == prefix@.len(),
            k < n,
            0 <= i <= k,
            t@.subrange(0, i as int) == prefix@.subrange(0, i as int),
        decreases k - i,
    {
        if t.get_char(i) != prefix.get_char(i) {
            assert(t@.take(k as int)[i as int] != prefix@[i as int]);
            return None;
        }
        assert(t@.subrange(0, i + 1) == t@.subrange(0, i as int).push(t@[i as int]));
        assert(prefix@.subrange(0, i + 1) == prefix@.subrange(0, i as int).push(prefix@[i as int]));
        i = i + 1;
    }
    assert(t@.take(k as int) == t@.subrange(0, k as int));
    assert(prefix@ == prefix@.subrange(0, k as int));
    let ghost rest = t@.skip(k as int);
    let mut v: u32 = 0;
    while i < n
        invariant
            n == t@.len(),
            k == prefix@.len(),
            k <= i <= n,
            rest == t@.skip(k as int),
            t@.take(k as int) == prefix@,
            forall|j: int| 0 <= j < i - k ==> ascii_digit(#[trigger] rest[j]),
            v as nat == capped(decimal(rest.take(i - k))),
        decreases n - i,
    {
        let c = t.get_char(i);
        assert(c == rest[i - k]);
        if c < '0' || c > '9' {
            return None;
        }
        let d: u32 = (c as u32) - 48;
        proof {
            let s = rest.take(i - k + 1);
            assert(s.drop_last() == rest.take(i - k));
            assert(s.last() == c);
            lemma_capped_step(decimal(rest.take(i - k)), d as nat);
        }
        let w: u32 = v * 10 + d;
        v = if w < SUFFIX_CAP { w } else { SUFFIX_CAP };
        i = i + 1;
    }
    assert(rest.take(n - k) == rest);
    Some(v)
}

/// The byte of a family member with suffix `num`, as hexadecimal text: the
/// suffix must lie in `1..=max_size`, and the byte is `start_size + num`.
pub fn sized_opcode(num: u32, start_size: u32, max_size: u32) -> (r: Result<String, AsmError>)
    requires
        start_size + max_size <= u32::MAX,
    ensures
        match r {
            Ok(s) => 1 <= num <= max_size && s@ == hex_text((start_size + num) as nat),
            Err(e) => !(1 <= num <= max_size) && e is InvalidOpcodeSize,
        },
{
    if 1 <= num && num <= max_size {
        Ok(to_hex(start_size + num))
    } else {
        Err(AsmError::InvalidOpcodeSize)
    }
}

} // verus!
