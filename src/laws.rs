//! Properties of whole translations, stated over the model of
//! [`assembled`] and proved from the definitions of each stage.

use vstd::prelude::*;
use crate::assembler::{assembled, hex_digit, is_hex_literal, resolve, run_line, run_lines, run_tokens, step};
use crate::error::Fault;
use crate::family::{Family, decimal, family_suffix, is_digits, match_family};
use crate::hex::{byte_text, lemma_hex_text_of_byte};
use crate::lexer::{lex_from, line_tokens};
use crate::opcodes::{fixed_opcode, is_word, lemma_fixed_mnemonic_is_word};
use crate::text::{ascii_digit, ascii_lower_letter, is_alnum, is_space, lower_char};

verus! {

proof fn lemma_word_from(m: Seq<char>, i: nat)
    requires
        is_word(m),
        i <= m.len(),
    ensures
        lex_from(m, i, m.take(i as int)) == (seq![m], false),
    decreases m.len() - i,
{
    if i == m.len() {
        assert(m.take(i as int) == m);
    } else {
        let c = m[i as int];
        assert(ascii_digit(c) || ascii_lower_letter(c));
        assert(lower_char(c) == c);
        assert(m.take(i as int).push(c) == m.take(i + 1 as int));
        lemma_word_from(m, i + 1);
    }
}

/// A lower-case word on a line of its own is read as exactly one token.
pub proof fn lemma_word_tokens(m: Seq<char>)
    requires
        is_word(m),
    ensures
        line_tokens(m) == (seq![m], false),
{
    lemma_word_from(m, 0);
    assert(m.take(0) == Seq::<char>::empty());
}

proof fn lemma_word_line(p: bool, w: Seq<char>, out: Seq<char>)
    requires
        is_word(w),
    ensures
        run_line(p, w, out) == match step(p, w) {
            Err(e) => Err(e),
            Ok((s, q)) => Ok::<(bool, Seq<char>), Fault>((q, out + s)),
        },
{
    lemma_word_tokens(w);
    assert(seq![w].drop_first() == Seq::<Seq<char>>::empty());
    assert(seq![w][0] == w);
    match step(p, w) {
        Err(e) => {},
        Ok((s, q)) => {
            assert(run_tokens(q, Seq::<Seq<char>>::empty(), out + s) == Ok::<(bool, Seq<char>), Fault>((q, out + s)));
        },
    }
}

proof fn lemma_prefixes()
    ensures
        "dup"@ == seq!['d', 'u', 'p'],
        "log"@ == seq!['l', 'o', 'g'],
        "push"@ == seq!['p', 'u', 's', 'h'],
        "swap"@ == seq!['s', 'w', 'a', 'p'],
{
    reveal_strlit("dup");
    reveal_strlit("log");
    reveal_strlit("push");
    reveal_strlit("swap");
}

proof fn lemma_member(f: Family, d: Seq<char>)
    requires
        is_digits(d),
    ensures
        is_word(f.spec_prefix() + d),
        match_family(f.spec_prefix() + d) == Some((f, decimal(d))),
{
    lemma_prefixes();
    let p = f.spec_prefix();
    let t = p + d;
    assert(t.take(p.len() as int) == p);
    assert(t.skip(p.len() as int) == d);
    assert forall|i: int| 0 <= i < t.len() implies ascii_digit(#[trigger] t[i]) || ascii_lower_letter(t[i]) by {
        if i >= p.len() {
            assert(t[i] == d[i - p.len()]);
        }
    }
    assert(family_suffix(f, t) == Some(decimal(d)));
    let first = t[0];
    if f != Family::Duplicate {
        assert(t.take(3)[0] == first);
        assert(family_suffix(Family::Duplicate, t) is None);
    }
    if f != Family::Log {
        assert(t.take(3)[0] == first);
        assert(family_suffix(Family::Log, t) is None);
    }
    if f != Family::Push {
        assert(t.take(4)[0] == first);
        assert(family_suffix(Family::Push, t) is None);
    }
}

/// No family member is also a fixed mnemonic.
#[verifier::rlimit(100)]
pub proof fn lemma_member_not_fixed(f: Family, d: Seq<char>)
    requires
        is_digits(d),
    ensures
        fixed_opcode(f.spec_prefix() + d) is None,
{
    lemma_prefixes();
    crate::opcodes::reveal_fixed_mnemonics();
    let t = f.spec_prefix() + d;
    assert(t[0] == f.spec_prefix()[0]);
    assert(t[t.len() - 1] == d[d.len() - 1]);
    assert(ascii_digit(t[t.len() - 1]));
}

proof fn lemma_one_line(w: Seq<char>)
    requires
        is_word(w),
    ensures
        assembled(seq![w]) == match resolve(w) {
            Err(e) => Err(e),
            Ok((s, q)) => if q {
                Err(Fault::Missing)
            } else {
                Ok::<Seq<char>, Fault>(seq!['0', 'x'] + s)
            },
        },
{
    let ls = seq![w];
    lemma_word_line(false, w, seq!['0', 'x']);
    match resolve(w) {
        Err(e) => {},
        Ok((s, q)) => {
            assert(run_lines(ls, 1, q, seq!['0', 'x'] + s) == if q {
                Err(Fault::Missing)
            } else {
                Ok::<Seq<char>, Fault>(seq!['0', 'x'] + s)
            });
        },
    }
}

proof fn lemma_two_lines(w: Seq<char>, u: Seq<char>)
    requires
        is_word(w),
        is_word(u),
    ensures
        assembled(seq![w, u]) == match resolve(w) {
            Err(e) => Err(e),
            Ok((s, q)) => match step(q, u) {
                Err(e) => Err(e),
                Ok((s2, q2)) => if q2 {
                    Err(Fault::Missing)
                } else {
                    Ok::<Seq<char>, Fault>(seq!['0', 'x'] + s + s2)
                },
            },
        },
{
    let ls = seq![w, u];
    let start = seq!['0', 'x'];
    lemma_word_line(false, w, start);
    match resolve(w) {
        Err(e) => {},
        Ok((s, q)) => {
            lemma_word_line(q, u, start + s);
            match step(q, u) {
                Err(e) => {
                    assert(run_lines(ls, 1, q, start + s) == Err::<Seq<char>, Fault>(e));
                },
                Ok((s2, q2)) => {
                    assert(run_lines(ls, 2, q2, start + s + s2) == if q2 {
                        Err(Fault::Missing)
                    } else {
                        Ok::<Seq<char>, Fault>(start + s + s2)
                    });
                    assert(run_lines(ls, 1, q, start + s) == run_lines(ls, 2, q2, start + s + s2));
                },
            }
        },
    }
}

/// A line holding only a fixed mnemonic translates to `0x` followed by the
/// two hexadecimal digits of its byte.
pub proof fn lemma_fixed_mnemonic_line(m: Seq<char>)
    requires
        fixed_opcode(m) is Some,
    ensures
        assembled(seq![m]) == Ok::<Seq<char>, Fault>(seq!['0', 'x'] + byte_text(fixed_opcode(m)->0)),
{
    lemma_fixed_mnemonic_is_word(m);
    lemma_one_line(m);
}

/// The text of a family member with suffix `n` is `resolve`d to the two
/// hexadecimal digits of base plus `n`, when `n` lies in the family's range.
proof fn lemma_member_resolves(f: Family, d: Seq<char>)
    requires
        is_digits(d),
        1 <= decimal(d) <= f.spec_max(),
    ensures
        resolve(f.spec_prefix() + d) == Ok::<(Seq<char>, bool), Fault>(
            (byte_text((f.spec_base() + decimal(d)) as u8), f == Family::Push),
        ),
{
    lemma_member(f, d);
    lemma_member_not_fixed(f, d);
    let b = (f.spec_base() + decimal(d)) as u8;
    assert(b as nat == f.spec_base() + decimal(d));
    lemma_hex_text_of_byte(b);
}

/// A line holding only `dupN`, `logN` or `swapN`, with `N` in the family's
/// range, translates to `0x` followed by the byte base plus `N`.
pub proof fn lemma_sized_mnemonic_line(f: Family, d: Seq<char>)
    requires
        f != Family::Push,
        is_digits(d),
        1 <= decimal(d) <= f.spec_max(),
    ensures
        assembled(seq![f.spec_prefix() + d]) == Ok::<Seq<char>, Fault>(
            seq!['0', 'x'] + byte_text((f.spec_base() + decimal(d)) as u8),
        ),
{
    lemma_member(f, d);
    lemma_member_resolves(f, d);
    lemma_one_line(f.spec_prefix() + d);
}

/// `pushN`, with `N` in range, followed by a `0x` literal translates to
/// `0x`, the byte `0x5f + N`, then the literal's digits as written.
pub proof fn lemma_push_with_operand(d: Seq<char>, h: Seq<char>)
    requires
        is_digits(d),
        1 <= decimal(d) <= 32,
        is_hex_literal(h),
    ensures
        assembled(seq!["push"@ + d, h]) == Ok::<Seq<char>, Fault>(
            seq!['0', 'x'] + byte_text((0x5f + decimal(d)) as u8) + h.skip(2),
        ),
{
    let f = Family::Push;
    lemma_member(f, d);
    lemma_member_resolves(f, d);
    assert forall|i: int| 0 <= i < h.len() implies ascii_digit(#[trigger] h[i]) || ascii_lower_letter(h[i]) by {
        if i >= 2 {
            assert(hex_digit(h[i]));
        }
    }
    lemma_two_lines(f.spec_prefix() + d, h);
}

/// A push that is followed by a token other than a `0x` literal, or that
/// ends the input, is a missing-operand error.
pub proof fn lemma_push_without_operand(d: Seq<char>, u: Seq<char>)
    requires
        is_digits(d),
        1 <= decimal(d) <= 32,
        is_word(u),
        !is_hex_literal(u),
    ensures
        assembled(seq!["push"@ + d, u]) == Err::<Seq<char>, Fault>(Fault::Missing),
        assembled(seq!["push"@ + d]) == Err::<Seq<char>, Fault>(Fault::Missing),
{
    let f = Family::Push;
    lemma_member(f, d);
    lemma_member_resolves(f, d);
    lemma_two_lines(f.spec_prefix() + d, u);
    lemma_one_line(f.spec_prefix() + d);
}

/// A family member whose suffix is zero or beyond the family's maximum is
/// an invalid-size error.
pub proof fn lemma_suffix_out_of_range(f: Family, d: Seq<char>)
    requires
        is_digits(d),
        decimal(d) == 0 || decimal(d) > f.spec_max(),
    ensures
        assembled(seq![f.spec_prefix() + d]) == Err::<Seq<char>, Fault>(Fault::Size),
{
    lemma_member(f, d);
    lemma_member_not_fixed(f, d);
    lemma_one_line(f.spec_prefix() + d);
}

/// The tokens of one stretch of a line followed by those of the next:
/// an illegal character in the first stretch ends the line there.
pub open spec fn join_lexed(x: (Seq<Seq<char>>, bool), y: (Seq<Seq<char>>, bool)) -> (Seq<Seq<char>>, bool) {
    if x.1 {
        x
    } else {
        (x.0 + y.0, y.1)
    }
}

proof fn lemma_lex_shift(x: Seq<char>, b: Seq<char>, j: nat, acc: Seq<char>)
    requires
        j <= b.len(),
    ensures
        lex_from(x + b, x.len() + j, acc) == lex_from(b, j, acc),
    decreases b.len() - j,
{
    let xb = x + b;
    if j < b.len() {
        assert(xb[x.len() + j as int] == b[j as int]);
        lemma_lex_shift(x, b, j + 1, acc.push(lower_char(b[j as int])));
        lemma_lex_shift(x, b, j + 1, seq![]);
    }
}

proof fn lemma_lex_join(a: Seq<char>, b: Seq<char>, i: nat, acc: Seq<char>)
    requires
        i <= a.len(),
    ensures
        lex_from(a + seq![' '] + b, i, acc) == join_lexed(lex_from(a, i, acc), lex_from(b, 0, seq![])),
    decreases a.len() - i,
{
    let l = a + seq![' '] + b;
    let y = lex_from(b, 0, seq![]);
    if i == a.len() {
        assert(l[i as int] == ' ');
        assert(a + seq![' '] + b == (a + seq![' ']) + b);
        lemma_lex_shift(a + seq![' '], b, 0, seq![]);
        if acc.len() > 0 {
            assert(lex_from(a, i, acc) == (seq![acc], false));
        } else {
            assert(lex_from(a, i, acc).0 + y.0 == y.0);
        }
    } else {
        let c = a[i as int];
        assert(l[i as int] == c);
        lemma_lex_join(a, b, i + 1, acc.push(lower_char(c)));
        lemma_lex_join(a, b, i + 1, seq![]);
        let r = lex_from(a, i + 1, seq![]);
        if !r.1 {
            assert(seq![acc] + (r.0 + y.0) == (seq![acc] + r.0) + y.0);
        }
    }
}

proof fn lemma_run_tokens_append(p: bool, ts: Seq<Seq<char>>, us: Seq<Seq<char>>, out: Seq<char>)
    ensures
        run_tokens(p, ts + us, out) == match run_tokens(p, ts, out) {
            Err(e) => Err(e),
            Ok((q, o)) => run_tokens(q, us, o),
        },
    decreases ts.len(),
{
    if ts.len() == 0 {
        assert(ts + us == us);
    } else {
        assert((ts + us)[0] == ts[0]);
        assert((ts + us).drop_first() == ts.drop_first() + us);
        match step(p, ts[0]) {
            Err(e) => {},
            Ok((s, q)) => lemma_run_tokens_append(q, ts.drop_first(), us, out + s),
        }
    }
}

/// A listing of two lines translates as the single line that joins them
/// with a space: tokens never span lines, and a push on one line takes its
/// operand from the next.
pub proof fn lemma_lines_join(a: Seq<char>, b: Seq<char>)
    ensures
        assembled(seq![a, b]) == assembled(seq![a + seq![' '] + b]),
{
    let start = seq!['0', 'x'];
    let x = line_tokens(a);
    let y = line_tokens(b);
    lemma_lex_join(a, b, 0, seq![]);
    lemma_run_tokens_append(false, x.0, y.0, start);
    let two = seq![a, b];
    let one = seq![a + seq![' '] + b];
    match run_line(false, a, start) {
        Err(e) => {},
        Ok((q, o)) => {
            assert(run_lines(two, 1, q, o) == match run_line(q, b, o) {
                Err(e) => Err(e),
                Ok((q2, o2)) => run_lines(two, 2, q2, o2),
            });
            match run_line(q, b, o) {
                Err(e) => {},
                Ok((q2, o2)) => {
                    assert(run_lines(one, 1, q2, o2) == run_lines(two, 2, q2, o2));
                },
            }
        },
    }
}

proof fn lemma_same_tokens_from(ls: Seq<Seq<char>>, k: int, l: Seq<char>, i: nat, p: bool, o: Seq<char>)
    requires
        0 <= k < ls.len(),
        line_tokens(ls[k]) == line_tokens(l),
    ensures
        run_lines(ls, i, p, o) == run_lines(ls.update(k, l), i, p, o),
    decreases ls.len() - i,
{
    let ls2 = ls.update(k, l);
    if i < ls.len() {
        assert(run_line(p, ls[i as int], o) == run_line(p, ls2[i as int], o));
        match run_line(p, ls[i as int], o) {
            Err(e) => {},
            Ok((q, o2)) => lemma_same_tokens_from(ls, k, l, i + 1, q, o2),
        }
    }
}

/// The ASCII lower-case form of a line.
pub open spec fn lower_line(l: Seq<char>) -> Seq<char> {
    l.map_values(|c: char| lower_char(c))
}

proof fn lemma_lex_lower(l: Seq<char>, i: nat, acc: Seq<char>)
    requires
        i <= l.len(),
    ensures
        lex_from(lower_line(l), i, acc) == lex_from(l, i, acc),
    decreases l.len() - i,
{
    if i < l.len() {
        let c = l[i as int];
        assert(lower_line(l)[i as int] == lower_char(c));
        lemma_lex_lower(l, i + 1, acc.push(lower_char(c)));
        lemma_lex_lower(l, i + 1, seq![]);
    }
}

/// Upper-case ASCII letters and whitespace around a line change nothing:
/// any line of a listing may be lower-cased, or padded with a space on
/// each side, and the translation stays the same.
pub proof fn lemma_case_and_padding(ls: Seq<Seq<char>>, k: int)
    requires
        0 <= k < ls.len(),
    ensures
        assembled(ls.update(k, lower_line(ls[k]))) == assembled(ls),
        assembled(ls.update(k, seq![' '] + ls[k] + seq![' '])) == assembled(ls),
{
    let l = ls[k];
    let start = seq!['0', 'x'];
    lemma_lex_lower(l, 0, seq![]);
    lemma_same_tokens_from(ls, k, lower_line(l), 0, false, start);
    let padded = seq![' '] + l + seq![' '];
    lemma_lex_join(l, Seq::<char>::empty(), 0, seq![]);
    assert(l + seq![' '] + Seq::<char>::empty() == l + seq![' ']);
    assert(line_tokens(Seq::<char>::empty()) == (Seq::<Seq<char>>::empty(), false));
    assert(line_tokens(l).0 + Seq::<Seq<char>>::empty() == line_tokens(l).0);
    assert(padded == seq![' '] + (l + seq![' ']));
    lemma_lex_shift(seq![' '], l + seq![' '], 0, seq![]);
    assert(padded[0] == ' ');
    assert(line_tokens(padded) == lex_from(padded, 1, seq![]));
    lemma_same_tokens_from(ls, k, padded, 0, false, start);
}

/// A line holding one word that is neither a fixed mnemonic nor a family
/// member is an unknown-opcode error naming that word.
pub proof fn lemma_unknown_word(w: Seq<char>)
    requires
        is_word(w),
        fixed_opcode(w) is None,
        match_family(w) is None,
    ensures
        assembled(seq![w]) == Err::<Seq<char>, Fault>(Fault::Unknown(w)),
{
    lemma_one_line(w);
}

proof fn lemma_word_then_illegal(a: Seq<char>, c: char, b: Seq<char>, i: nat)
    requires
        a.len() == 0 || is_word(a),
        !is_alnum(c),
        !is_space(c),
        i <= a.len(),
    ensures
        lex_from(a + seq![c] + b, i, a.take(i as int)) == (Seq::<Seq<char>>::empty(), true),
    decreases a.len() - i,
{
    let l = a + seq![c] + b;
    if i == a.len() {
        assert(l[i as int] == c);
    } else {
        let x = a[i as int];
        assert(l[i as int] == x);
        assert(ascii_digit(x) || ascii_lower_letter(x));
        assert(a.take(i as int).push(lower_char(x)) == a.take(i + 1 as int));
        lemma_word_then_illegal(a, c, b, i + 1);
    }
}

/// A line whose first token runs into a character that is neither
/// alphanumeric nor whitespace is a lexical error, whatever follows.
pub proof fn lemma_illegal_character(a: Seq<char>, c: char, b: Seq<char>)
    requires
        a.len() == 0 || is_word(a),
        !is_alnum(c),
        !is_space(c),
    ensures
        assembled(seq![a + seq![c] + b]) == Err::<Seq<char>, Fault>(Fault::Lexical),
{
    lemma_word_then_illegal(a, c, b, 0);
    assert(a.take(0) == Seq::<char>::empty());
    assert(run_tokens(false, Seq::<Seq<char>>::empty(), seq!['0', 'x']) == Ok::<(bool, Seq<char>), Fault>((false, seq!['0', 'x'])));
}

} // verus!
