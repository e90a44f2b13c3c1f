//! The translation of a whole listing: tokens are resolved one by one, and
//! a push takes the `0x` literal that follows it as its immediate operand.

use vstd::prelude::*;
use crate::error::{AsmError, Fault};
use crate::family::{Family, match_family, family_member, capped, sized_opcode};
use crate::hex::{byte_text, hex_text, byte_hex};
use crate::lexer::{lex_from, line_tokens, next_symbol};
use crate::opcodes::{fixed_opcode, fixed_lookup};
use crate::text::{push_char, chars_of};

verus! {

pub open spec fn hex_digit(c: char) -> bool {
    ('0' <= c && c <= '9') || ('a' <= c && c <= 'f')
}

/// `0x` followed by one or more lower-case hexadecimal digits.
pub open spec fn is_hex_literal(t: Seq<char>) -> bool {
    &&& t.len() > 2
    &&& t[0] == '0'
    &&& t[1] == 'x'
    &&& forall|i: int| 2 <= i < t.len() ==> hex_digit(#[trigger] t[i])
}

/// The text a token stands for when no operand is pending, and whether it
/// makes an operand pending: fixed mnemonics first, then the families.
pub open spec fn resolve(t: Seq<char>) -> Result<(Seq<char>, bool), Fault> {
    match fixed_opcode(t) {
        Some(b) => Ok((byte_text(b), false)),
        None => match match_family(t) {
            Some((f, n)) => if 1 <= n <= f.spec_max() {
                Ok((hex_text((f.spec_base() + n) as nat), f == Family::Push))
            } else {
                Err(Fault::Size)
            },
            None => Err(Fault::Unknown(t)),
        },
    }
}

/// One token in the given pending-operand state: the text it appends and
/// the next state.
pub open spec fn step(pending: bool, t: Seq<char>) -> Result<(Seq<char>, bool), Fault> {
    if pending {
        if is_hex_literal(t) {
            Ok((t.skip(2), false))
        } else {
            Err(Fault::Missing)
        }
    } else {
        resolve(t)
    }
}

/// A run of tokens from the given state and output.
pub open spec fn run_tokens(pending: bool, ts: Seq<Seq<char>>, out: Seq<char>) -> Result<(bool, Seq<char>), Fault>
    decreases ts.len(),
{
    if ts.len() == 0 {
        Ok((pending, out))
    } else {
        match step(pending, ts[0]) {
            Err(e) => Err(e),
            Ok((s, p)) => run_tokens(p, ts.drop_first(), out + s),
        }
    }
}

/// The tokens of a line, then the illegal character that stopped it, if any.
pub open spec fn finish(pending: bool, lexed: (Seq<Seq<char>>, bool), out: Seq<char>) -> Result<(bool, Seq<char>), Fault> {
    match run_tokens(pending, lexed.0, out) {
        Err(e) => Err(e),
        Ok(s) => if lexed.1 {
            Err(Fault::Lexical)
        } else {
            Ok(s)
        },
    }
}

pub open spec fn run_line(pending: bool, line: Seq<char>, out: Seq<char>) -> Result<(bool, Seq<char>), Fault> {
    finish(pending, line_tokens(line), out)
}

/// The lines from index `i` on; a push still waiting for its operand at
/// the end of the input is an error.
pub open spec fn run_lines(lines: Seq<Seq<char>>, i: nat, pending: bool, out: Seq<char>) -> Result<Seq<char>, Fault>
    decreases lines.len() - i,
{
    if i >= lines.len() {
        if pending {
            Err(Fault::Missing)
        } else {
            Ok(out)
        }
    } else {
        match run_line(pending, lines[i as int], out) {
            Err(e) => Err(e),
            Ok((p, o)) => run_lines(lines, i + 1, p, o),
        }
    }
}

/// The translation of a listing: `0x`, then the text of every token.
pub open spec fn assembled(lines: Seq<Seq<char>>) -> Result<Seq<char>, Fault> {
    run_lines(lines, 0, false, seq!['0', 'x'])
}

pub open spec fn lines_view(lines: Seq<String>) -> Seq<Seq<char>> {
    lines.map_values(|l: String| l@)
}

/// The hexadecimal digits of a `0x` literal, if `t` is one.
pub fn hex_operand(t: &str) -> (r: Option<String>)
    ensures
        match r {
            Some(d) => is_hex_literal(t@) && d@ == t@.skip(2),
            None => !is_hex_literal(t@),
        },
{
    let n = t.unicode_len();
    if n <= 2 || t.get_char(0) != '0' || t.get_char(1) != 'x' {
        return None;
    }
    let mut digits = String::new();
    let mut i: usize = 2;
    while i < n
        invariant
            n == t@.len(),
            2 <= i <= n,
            t@[0] == '0' && t@[1] == 'x',
            forall|j: int| 2 <= j < i ==> hex_digit(#[trigger] t@[j]),
            digits@ == t@.subrange(2, i as int),
        decreases n - i,
    {
        let c = t.get_char(i);
        if !(('0' <= c && c <= '9') || ('a' <= c && c <= 'f')) {
            return None;
        }
        push_char(&mut digits, c);
        assert(t@.subrange(2, i + 1) == t@.subrange(2, i as int).push(c));
        i = i + 1;
    }
    assert(t@.skip(2) == t@.subrange(2, n as int));
    Some(digits)
}

/// The family a token belongs to, with its suffix capped as
/// [`family_member`] reads it.
pub fn family_of(t: &str) -> (r: Option<(Family, u32)>)
    ensures
        match r {
            None => match_family(t@) is None,
            Some((f, v)) => match_family(t@) matches Some((g, n)) && g == f && v as nat == capped(n),
        },
{
    if let Some(v) = family_member(t, Family::Duplicate.prefix()) {
        Some((Family::Duplicate, v))
    } else if let Some(v) = family_member(t, Family::Log.prefix()) {
        Some((Family::Log, v))
    } else if let Some(v) = family_member(t, Family::Push.prefix()) {
        Some((Family::Push, v))
    } else if let Some(v) = family_member(t, Family::Swap.prefix()) {
        Some((Family::Swap, v))
    } else {
        None
    }
}

/// The text a token stands for when no operand is pending, and whether it
/// is a push.
pub fn resolve_token(t: &String) -> (r: Result<(String, bool), AsmError>)
    ensures
        match r {
            Ok((s, p)) => resolve(t@) == Ok::<(Seq<char>, bool), Fault>((s@, p)),
            Err(e) => resolve(t@) == Err::<(Seq<char>, bool), Fault>(e@),
        },
{
    if let Some(b) = fixed_lookup(t.as_str()) {
        return Ok((byte_hex(b), false));
    }
    match family_of(t.as_str()) {
        Some((f, v)) => match sized_opcode(v, f.base(), f.max()) {
            Ok(s) => Ok((s, matches!(f, Family::Push))),
            Err(e) => Err(e),
        },
        None => Err(AsmError::UnknownOpcode(t.clone())),
    }
}

/// One token in the given pending-operand state: the text to append and
/// the next state.
pub fn translate_token(pending: bool, t: &String) -> (r: Result<(String, bool), AsmError>)
    ensures
        match r {
            Ok((s, p)) => step(pending, t@) == Ok::<(Seq<char>, bool), Fault>((s@, p)),
            Err(e) => step(pending, t@) == Err::<(Seq<char>, bool), Fault>(e@),
        },
{
    if pending {
        match hex_operand(t.as_str()) {
            Some(d) => Ok((d, false)),
            None => Err(AsmError::MissingOperand),
        }
    } else {
        resolve_token(t)
    }
}

/// Translates a listing, given as its lines, into `0x` followed by the
/// hexadecimal bytecode.
pub fn parse(lines: &Vec<String>) -> (r: Result<String, AsmError>)
    ensures
        match r {
            Ok(s) => assembled(lines_view(lines@)) == Ok::<Seq<char>, Fault>(s@),
            Err(e) => assembled(lines_view(lines@)) == Err::<Seq<char>, Fault>(e@),
        },
{
    let ghost ls = lines_view(lines@);
    let mut expect_size = false;
    let mut result = String::new();
    push_char(&mut result, '0');
    push_char(&mut result, 'x');
    assert(result@ == seq!['0', 'x']);
    let mut i: usize = 0;
    while i < lines.len()
        invariant
            ls == lines_view(lines@),
            i <= lines@.len(),
            assembled(ls) == run_lines(ls, i as nat, expect_size, result@),
        decreases lines@.len() - i,
    {
        let chars = chars_of(lines[i].as_str());
        assert(chars@ == ls[i as int]);
        let ghost line_start = (expect_size, result@);
        let mut cur: usize = 0;
        while cur < chars.len()
            invariant
                ls == lines_view(lines@),
                i < lines@.len(),
                chars@ == ls[i as int],
                cur <= chars@.len(),
                assembled(ls) == run_lines(ls, i as nat, line_start.0, line_start.1),
                run_line(line_start.0, chars@, line_start.1)
                    == finish(expect_size, lex_from(chars@, cur as nat, seq![]), result@),
            decreases chars@.len() - cur,
        {
            let ghost lexed = lex_from(chars@, cur as nat, seq![]);
            let symbol = match next_symbol(&chars, &mut cur) {
                Ok(s) => s,
                Err(e) => return Err(e),
            };
            if symbol.unicode_len() > 0 {
                match translate_token(expect_size, &symbol) {
                    Ok((s, p)) => {
                        let ghost before = result@;
                        result.append(s.as_str());
                        assert(run_tokens(expect_size, lexed.0, before)
                            == run_tokens(p, lexed.0.drop_first(), result@));
                        expect_size = p;
                    },
                    Err(e) => return Err(e),
                }
            }
        }
        assert(lex_from(chars@, cur as nat, seq![]) == (Seq::<Seq<char>>::empty(), false));
        i = i + 1;
    }
    if expect_size {
        Err(AsmError::MissingOperand)
    } else {
        Ok(result)
    }
}

} // verus!
