//! Splitting a line into lower-cased alphanumeric tokens.

use vstd::prelude::*;
use crate::error::AsmError;
use crate::text::{is_alnum, is_space, lower_char, is_alphanumeric, is_whitespace, push_char, to_ascii_lower};

verus! {

/// The tokens of `line` from position `cur` on, when the token being read
/// so far is `acc`, and whether the scan then meets an illegal character.
/// A token ends at whitespace or at the end of the line; tokens ended by
/// the illegal character itself are not listed.
pub open spec fn lex_from(line: Seq<char>, cur: nat, acc: Seq<char>) -> (Seq<Seq<char>>, bool)
    decreases line.len() - cur,
{
    if cur >= line.len() {
        if acc.len() > 0 {
            (seq![acc], false)
        } else {
            (seq![], false)
        }
    } else if is_alnum(line[cur as int]) {
        lex_from(line, cur + 1, acc.push(lower_char(line[cur as int])))
    } else if is_space(line[cur as int]) {
        let rest = lex_from(line, cur + 1, seq![]);
        if acc.len() > 0 {
            (seq![acc] + rest.0, rest.1)
        } else {
            rest
        }
    } else {
        (seq![], true)
    }
}

/// The tokens of a whole line, and whether it holds an illegal character
/// where the scan reaches it.
pub open spec fn line_tokens(line: Seq<char>) -> (Seq<Seq<char>>, bool) {
    lex_from(line, 0, seq![])
}

/// Reads the token that starts at or after `*cur`, and leaves `*cur`
/// where the rest of the line begins. An empty token means that the line
/// holds no more tokens.
pub fn next_symbol(line: &Vec<char>, cur: &mut usize) -> (r: Result<String, AsmError>)
    requires
        *old(cur) <= line@.len(),
    ensures
        *final(cur) <= line@.len(),
        ({
            let lexed = lex_from(line@, *old(cur) as nat, seq![]);
            match r {
                Err(e) => e is IllegalCharacter && lexed.0.len() == 0 && lexed.1,
                Ok(t) => if lexed.0.len() == 0 {
                    t@.len() == 0 && !lexed.1 && *final(cur) == line@.len()
                } else {
                    &&& t@ == lexed.0[0]
                    &&& t@.len() > 0
                    &&& *final(cur) > *old(cur)
                    &&& lex_from(line@, *final(cur) as nat, seq![]) == (lexed.0.drop_first(), lexed.1)
                },
            }
        }),
{
    let ghost start = *cur as nat;
    let mut started = false;
    let mut result = String::new();
    while *cur < line.len()
        invariant
            *cur <= line@.len(),
            start == *old(cur),
            lex_from(line@, start, seq![]) == lex_from(line@, *cur as nat, result@),
            started == (result@.len() > 0),
            start <= *cur,
            started ==> *cur > start,
        decreases line@.len() - *cur,
    {
        let c = line[*cur];
        assert(c == line@[*cur as int]);
        let ghost old_acc = result@;
        if is_alphanumeric(c) {
            started = true;
            push_char(&mut result, to_ascii_lower(c));
        } else if !is_whitespace(c) {
            return Err(AsmError::IllegalCharacter);
        } else if started {
            let ghost rest = lex_from(line@, (*cur + 1) as nat, seq![]);
            assert((seq![result@] + rest.0).drop_first() == rest.0);
            return Ok(result);
        } else {
            assert(result@ =~= Seq::<char>::empty());
        }
        assert(lex_from(line@, *cur as nat, old_acc) == lex_from(line@, (*cur + 1) as nat, result@));
        *cur += 1;
    }
    Ok(result)
}

} // verus!
