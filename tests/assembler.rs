use alex::assembler::{family_of, hex_operand, parse, resolve_token, translate_token};
use alex::error::AsmError;
use alex::family::{family_member, sized_opcode, Family};
use alex::hex::{byte_hex, to_hex, to_nibble};
use alex::lexer::next_symbol;
use alex::opcodes::fixed_lookup;
use alex::text::{chars_of, same_text, to_ascii_lower};

fn translate(lines: &[&str]) -> Result<String, AsmError> {
    let owned: Vec<String> = lines.iter().map(|s| s.to_string()).collect();
    parse(&owned)
}

const FIXED: [(&str, &str); 66] = [
        ("stop", "00"),
        ("add", "01"),
        ("mul", "02"),
        ("sub", "03"),
        ("div", "04"),
        ("sdiv", "05"),
        ("mod", "06"),
        ("smod", "07"),
        ("addmod", "08"),
        ("mulmod", "09"),
        ("exp", "0a"),
        ("signextend", "0b"),
        ("lt", "10"),
        ("gt", "11"),
        ("slt", "12"),
        ("sgt", "13"),
        ("eq", "14"),
        ("iszero", "15"),
        ("and", "16"),
        ("or", "17"),
        ("xor", "18"),
        ("not", "19"),
        ("byte", "1a"),
        ("sha3", "20"),
        ("address", "30"),
        ("balance", "31"),
        ("origin", "32"),
        ("caller", "33"),
        ("callvalue", "34"),
        ("calldataload", "35"),
        ("calldatasize", "36"),
        ("calldatacopy", "37"),
        ("codesize", "38"),
        ("codecopy", "39"),
        ("gasprice", "3a"),
        ("extcodesize", "3b"),
        ("extcodecopy", "3c"),
        ("returndatasize", "3d"),
        ("returndatacopy", "3e"),
        ("blockhash", "40"),
        ("coinbase", "41"),
        ("timestamp", "42"),
        ("number", "43"),
        ("difficulty", "44"),
        ("gaslimit", "45"),
        ("pop", "50"),
        ("mload", "51"),
        ("mstore", "52"),
        ("mstore8", "53"),
        ("sload", "54"),
        ("sstore", "55"),
        ("jump", "56"),
        ("jumpi", "57"),
        ("pc", "58"),
        ("msize", "59"),
        ("gas", "5a"),
        ("jumpdest", "5b"),
        ("create", "f0"),
        ("call", "f1"),
        ("callcode", "f2"),
        ("return", "f3"),
        ("delegatecall", "f4"),
        ("staticcall", "fa"),
        ("revert", "fd"),
        ("invalid", "fe"),
        ("selfdestruct", "ff"),
];

#[test]
fn every_fixed_mnemonic_alone() {
    for (m, code) in FIXED.iter() {
        assert_eq!(translate(&[m]), Ok(format!("0x{}", code)), "mnemonic {}", m);
    }
}

#[test]
fn fixed_lookup_known_and_unknown() {
    assert_eq!(fixed_lookup("stop"), Some(0x00));
    assert_eq!(fixed_lookup("selfdestruct"), Some(0xff));
    assert_eq!(fixed_lookup("mstore8"), Some(0x53));
    assert_eq!(fixed_lookup("push1"), None);
    assert_eq!(fixed_lookup("ad"), None);
    assert_eq!(fixed_lookup(""), None);
}

#[test]
fn dup_family_in_range() {
    for n in 1..=16u32 {
        assert_eq!(translate(&[&format!("dup{}", n)]), Ok(format!("0x{:02x}", 0x7f + n)));
    }
    assert_eq!(translate(&["dup1"]), Ok("0x80".to_string()));
    assert_eq!(translate(&["dup16"]), Ok("0x8f".to_string()));
}

#[test]
fn swap_family_in_range() {
    for n in 1..=16u32 {
        assert_eq!(translate(&[&format!("swap{}", n)]), Ok(format!("0x{:02x}", 0x8f + n)));
    }
    assert_eq!(translate(&["swap1"]), Ok("0x90".to_string()));
    assert_eq!(translate(&["swap16"]), Ok("0x9f".to_string()));
}

#[test]
fn log_family_in_range() {
    assert_eq!(translate(&["log1"]), Ok("0xa0".to_string()));
    assert_eq!(translate(&["log2"]), Ok("0xa1".to_string()));
    assert_eq!(translate(&["log3"]), Ok("0xa2".to_string()));
    assert_eq!(translate(&["log4"]), Ok("0xa3".to_string()));
}

#[test]
fn push_family_in_range() {
    for n in 1..=32u32 {
        assert_eq!(
            translate(&[&format!("push{} 0x00", n)]),
            Ok(format!("0x{:02x}00", 0x5f + n))
        );
    }
    assert_eq!(translate(&["push1 0x00"]), Ok("0x6000".to_string()));
    assert_eq!(translate(&["push32 0x00"]), Ok("0x7f00".to_string()));
}

#[test]
fn leading_zero_suffix() {
    assert_eq!(translate(&["dup01"]), Ok("0x80".to_string()));
}

#[test]
fn suffix_out_of_range() {
    for t in ["dup0", "dup17", "log0", "log5", "push0", "push33", "swap0", "swap17"] {
        assert_eq!(translate(&[t]), Err(AsmError::InvalidOpcodeSize), "token {}", t);
    }
    assert_eq!(translate(&["dup99999999999999999999"]), Err(AsmError::InvalidOpcodeSize));
}

#[test]
fn push_with_operand() {
    assert_eq!(translate(&["push1 0x01"]), Ok("0x6001".to_string()));
    assert_eq!(translate(&["push2 0xabcd"]), Ok("0x61abcd".to_string()));
}

#[test]
fn push_operand_is_lower_cased() {
    assert_eq!(translate(&["PUSH2 0XABCD"]), Ok("0x61abcd".to_string()));
}

#[test]
fn push_followed_by_mnemonic() {
    assert_eq!(translate(&["push1 add"]), Err(AsmError::MissingOperand));
    assert_eq!(translate(&["push1 0xzz"]), Err(AsmError::MissingOperand));
    assert_eq!(translate(&["push1 0x"]), Err(AsmError::MissingOperand));
}

#[test]
fn push_at_end_of_input() {
    assert_eq!(translate(&["push1"]), Err(AsmError::MissingOperand));
    assert_eq!(translate(&["add", "push4", ""]), Err(AsmError::MissingOperand));
}

#[test]
fn case_and_whitespace() {
    assert_eq!(translate(&["ADD"]), Ok("0x01".to_string()));
    assert_eq!(translate(&["add"]), Ok("0x01".to_string()));
    assert_eq!(translate(&["  add  "]), Ok("0x01".to_string()));
    assert_eq!(translate(&["\tAdD\t"]), Ok("0x01".to_string()));
    assert_eq!(translate(&["add mul sub"]), Ok("0x010203".to_string()));
    assert_eq!(translate(&["add   \t mul  sub "]), Ok("0x010203".to_string()));
}

#[test]
fn unicode_whitespace_separates() {
    assert_eq!(translate(&["add\u{a0}mul"]), Ok("0x0102".to_string()));
}

#[test]
fn operand_on_next_line() {
    assert_eq!(translate(&["push1", "0x2a"]), Ok("0x602a".to_string()));
    assert_eq!(translate(&["push1 0x2a"]), Ok("0x602a".to_string()));
}

#[test]
fn lines_concatenate() {
    assert_eq!(translate(&["add", "", "mul", "  "]), Ok("0x0102".to_string()));
}

#[test]
fn empty_listing() {
    assert_eq!(translate(&[]), Ok("0x".to_string()));
    assert_eq!(translate(&["", "   "]), Ok("0x".to_string()));
}

#[test]
fn unknown_opcode() {
    assert_eq!(translate(&["foobar"]), Err(AsmError::UnknownOpcode("foobar".to_string())));
    assert_eq!(translate(&["add FooBar"]), Err(AsmError::UnknownOpcode("foobar".to_string())));
    assert_eq!(translate(&["0x2a"]), Err(AsmError::UnknownOpcode("0x2a".to_string())));
    assert_eq!(translate(&["dup1x"]), Err(AsmError::UnknownOpcode("dup1x".to_string())));
    assert_eq!(translate(&["xdup1"]), Err(AsmError::UnknownOpcode("xdup1".to_string())));
    assert_eq!(translate(&["dup"]), Err(AsmError::UnknownOpcode("dup".to_string())));
    assert_eq!(translate(&["\u{e9}"]), Err(AsmError::UnknownOpcode("\u{e9}".to_string())));
}

#[test]
fn illegal_character() {
    assert_eq!(translate(&["add;mul"]), Err(AsmError::IllegalCharacter));
    assert_eq!(translate(&["add ;"]), Err(AsmError::IllegalCharacter));
    assert_eq!(translate(&["add", "mul,"]), Err(AsmError::IllegalCharacter));
}

#[test]
fn first_failure_wins() {
    assert_eq!(translate(&["foobar ;"]), Err(AsmError::UnknownOpcode("foobar".to_string())));
    assert_eq!(translate(&["dup0 foobar"]), Err(AsmError::InvalidOpcodeSize));
}

#[test]
fn nibble_digits() {
    assert_eq!(to_nibble(0), "0");
    assert_eq!(to_nibble(9), "9");
    assert_eq!(to_nibble(10), "a");
    assert_eq!(to_nibble(15), "f");
}

#[test]
fn hex_minimal_width() {
    assert_eq!(to_hex(0), "");
    assert_eq!(to_hex(1), "1");
    assert_eq!(to_hex(0x60), "60");
    assert_eq!(to_hex(255), "ff");
    assert_eq!(to_hex(4096), "1000");
    assert_eq!(to_hex(0xdeadbeef), "deadbeef");
}

#[test]
fn byte_two_digits() {
    assert_eq!(byte_hex(0), "00");
    assert_eq!(byte_hex(0x0b), "0b");
    assert_eq!(byte_hex(0xfa), "fa");
}

#[test]
fn next_symbol_moves_cursor() {
    let line: Vec<char> = "  ADD mul".chars().collect();
    let mut cur = 0usize;
    assert_eq!(next_symbol(&line, &mut cur), Ok("add".to_string()));
    assert_eq!(cur, 5);
    assert_eq!(next_symbol(&line, &mut cur), Ok("mul".to_string()));
    assert_eq!(cur, 9);
    assert_eq!(next_symbol(&line, &mut cur), Ok(String::new()));
}

#[test]
fn next_symbol_trailing_space() {
    let line: Vec<char> = "add ".chars().collect();
    let mut cur = 3usize;
    assert_eq!(next_symbol(&line, &mut cur), Ok(String::new()));
    assert_eq!(cur, 4);
}

#[test]
fn next_symbol_illegal() {
    let line: Vec<char> = "ab+".chars().collect();
    let mut cur = 0usize;
    assert_eq!(next_symbol(&line, &mut cur), Err(AsmError::IllegalCharacter));
}

#[test]
fn family_member_reads_suffix() {
    assert_eq!(family_member("dup12", "dup"), Some(12));
    assert_eq!(family_member("dup", "dup"), None);
    assert_eq!(family_member("dupx", "dup"), None);
    assert_eq!(family_member("log3", "dup"), None);
    assert_eq!(family_member("push123456789", "push"), Some(1000));
}

#[test]
fn family_of_order() {
    assert_eq!(family_of("log2"), Some((Family::Log, 2)));
    assert_eq!(family_of("swap7"), Some((Family::Swap, 7)));
    assert_eq!(family_of("push32"), Some((Family::Push, 32)));
    assert_eq!(family_of("pop"), None);
}

#[test]
fn sized_opcode_range() {
    assert_eq!(sized_opcode(1, 0x7f, 16), Ok("80".to_string()));
    assert_eq!(sized_opcode(16, 0x7f, 16), Ok("8f".to_string()));
    assert_eq!(sized_opcode(0, 0x7f, 16), Err(AsmError::InvalidOpcodeSize));
    assert_eq!(sized_opcode(17, 0x7f, 16), Err(AsmError::InvalidOpcodeSize));
}

#[test]
fn hex_operand_digits() {
    assert_eq!(hex_operand("0x2a"), Some("2a".to_string()));
    assert_eq!(hex_operand("0x"), None);
    assert_eq!(hex_operand("1x2a"), None);
    assert_eq!(hex_operand("0x2g"), None);
}

#[test]
fn token_translation() {
    assert_eq!(resolve_token(&"push3".to_string()), Ok(("62".to_string(), true)));
    assert_eq!(resolve_token(&"jumpdest".to_string()), Ok(("5b".to_string(), false)));
    assert_eq!(translate_token(true, &"0xff".to_string()), Ok(("ff".to_string(), false)));
    assert_eq!(translate_token(true, &"gas".to_string()), Err(AsmError::MissingOperand));
}

#[test]
fn text_helpers() {
    assert!(same_text("abc", "abc"));
    assert!(!same_text("abc", "abd"));
    assert!(!same_text("abc", "ab"));
    assert_eq!(chars_of("a\u{e9}b"), vec!['a', '\u{e9}', 'b']);
    assert_eq!(to_ascii_lower('Q'), 'q');
    assert_eq!(to_ascii_lower('q'), 'q');
    assert_eq!(to_ascii_lower('\u{c9}'), '\u{c9}');
}
