//! The fixed part of the instruction set: mnemonics that stand for one
//! byte each, with no numeric suffix.

use vstd::prelude::*;
use crate::text::{same_text, ascii_digit, ascii_lower_letter};

verus! {

/// The byte of a fixed mnemonic, if `m` is one.
pub open spec fn fixed_opcode(m: Seq<char>) -> Option<u8> {
    if m == "stop"@ {
        Some(0x00)
    } else if m == "add"@ {
        Some(0x01)
    } else if m == "mul"@ {
        Some(0x02)
    } else if m == "sub"@ {
        Some(0x03)
    } else if m == "div"@ {
        Some(0x04)
    } else if m == "sdiv"@ {
        Some(0x05)
    } else if m == "mod"@ {
        Some(0x06)
    } else if m == "smod"@ {
        Some(0x07)
    } else if m == "addmod"@ {
        Some(0x08)
    } else if m == "mulmod"@ {
        Some(0x09)
    } else if m == "exp"@ {
        Some(0x0a)
    } else if m == "signextend"@ {
        Some(0x0b)
    } else if m == "lt"@ {
        Some(0x10)
    } else if m == "gt"@ {
        Some(0x11)
    } else if m == "slt"@ {
        Some(0x12)
    } else if m == "sgt"@ {
        Some(0x13)
    } else if m == "eq"@ {
        Some(0x14)
    } else if m == "iszero"@ {
        Some(0x15)
    } else if m == "and"@ {
        Some(0x16)
    } else if m == "or"@ {
        Some(0x17)
    } else if m == "xor"@ {
        Some(0x18)
    } else if m == "not"@ {
        Some(0x19)
    } else if m == "byte"@ {
        Some(0x1a)
    } else if m == "sha3"@ {
        Some(0x20)
    } else if m == "address"@ {
        Some(0x30)
    } else if m == "balance"@ {
        Some(0x31)
    } else if m == "origin"@ {
        Some(0x32)
    } else if m == "caller"@ {
        Some(0x33)
    } else if m == "callvalue"@ {
        Some(0x34)
    } else if m == "calldataload"@ {
        Some(0x35)
    } else if m == "calldatasize"@ {
        Some(0x36)
    } else if m == "calldatacopy"@ {
        Some(0x37)
    } else if m == "codesize"@ {
        Some(0x38)
    } else if m == "codecopy"@ {
        Some(0x39)
    } else if m == "gasprice"@ {
        Some(0x3a)
    } else if m == "extcodesize"@ {
        Some(0x3b)
    } else if m == "extcodecopy"@ {
        Some(0x3c)
    } else if m == "returndatasize"@ {
        Some(0x3d)
    } else if m == "returndatacopy"@ {
        Some(0x3e)
    } else if m == "blockhash"@ {
        Some(0x40)
    } else if m == "coinbase"@ {
        Some(0x41)
    } else if m == "timestamp"@ {
        Some(0x42)
    } else if m == "number"@ {
        Some(0x43)
    } else if m == "difficulty"@ {
        Some(0x44)
    } else if m == "gaslimit"@ {
        Some(0x45)
    } else if m == "pop"@ {
        Some(0x50)
    } else if m == "mload"@ {
        Some(0x51)
    } else if m == "mstore"@ {
        Some(0x52)
    } else if m == "mstore8"@ {
        Some(0x53)
    } else if m == "sload"@ {
        Some(0x54)
    } else if m == "sstore"@ {
        Some(0x55)
    } else if m == "jump"@ {
        Some(0x56)
    } else if m == "jumpi"@ {
        Some(0x57)
    } else if m == "pc"@ {
        Some(0x58)
    } else if m == "msize"@ {
        Some(0x59)
    } else if m == "gas"@ {
        Some(0x5a)
    } else if m == "jumpdest"@ {
        Some(0x5b)
    } else if m == "create"@ {
        Some(0xf0)
    } else if m == "call"@ {
        Some(0xf1)
    } else if m == "callcode"@ {
        Some(0xf2)
    } else if m == "return"@ {
        Some(0xf3)
    } else if m == "delegatecall"@ {
        Some(0xf4)
    } else if m == "staticcall"@ {
        Some(0xfa)
    } else if m == "revert"@ {
        Some(0xfd)
    } else if m == "invalid"@ {
        Some(0xfe)
    } else if m == "selfdestruct"@ {
        Some(0xff)
    } else {
        None
    }
}

/// A non-empty run of ASCII lower-case letters and digits.
pub open spec fn is_word(m: Seq<char>) -> bool {
    &&& m.len() > 0
    &&& forall|i: int| 0 <= i < m.len() ==> ascii_digit(#[trigger] m[i]) || ascii_lower_letter(m[i])
}

/// Looks up a token among the fixed mnemonics.
pub fn fixed_lookup(m: &str) -> (r: Option<u8>)
    ensures
        r == fixed_opcode(m@),
{
    if same_text(m, "stop") {
        Some(0x00)
    } else if same_text(m, "add") {
        Some(0x01)
    } else if same_text(m, "mul") {
        Some(0x02)
    } else if same_text(m, "sub") {
        Some(0x03)
    } else if same_text(m, "div") {
        Some(0x04)
    } else if same_text(m, "sdiv") {
        Some(0x05)
    } else if same_text(m, "mod") {
        Some(0x06)
    } else if same_text(m, "smod") {
        Some(0x07)
    } else if same_text(m, "addmod") {
        Some(0x08)
    } else if same_text(m, "mulmod") {
        Some(0x09)
    } else if same_text(m, "exp") {
        Some(0x0a)
    } else if same_text(m, "signextend") {
        Some(0x0b)
    } else if same_text(m, "lt") {
        Some(0x10)
    } else if same_text(m, "gt") {
        Some(0x11)
    } else if same_text(m, "slt") {
        Some(0x12)
    } else if same_text(m, "sgt") {
        Some(0x13)
    } else if same_text(m, "eq") {
        Some(0x14)
    } else if same_text(m, "iszero") {
        Some(0x15)
    } else if same_text(m, "and") {
        Some(0x16)
    } else if same_text(m, "or") {
        Some(0x17)
    } else if same_text(m, "xor") {
        Some(0x18)
    } else if same_text(m, "not") {
        Some(0x19)
    } else if same_text(m, "byte") {
        Some(0x1a)
    } else if same_text(m, "sha3") {
        Some(0x20)
    } else if same_text(m, "address") {
        Some(0x30)
    } else if same_text(m, "balance") {
        Some(0x31)
    } else if same_text(m, "origin") {
        Some(0x32)
    } else if same_text(m, "caller") {
        Some(0x33)
    } else if same_text(m, "callvalue") {
        Some(0x34)
    } else if same_text(m, "calldataload") {
        Some(0x35)
    } else if same_text(m, "calldatasize") {
        Some(0x36)
    } else if same_text(m, "calldatacopy") {
        Some(0x37)
    } else if same_text(m, "codesize") {
        Some(0x38)
    } else if same_text(m, "codecopy") {
        Some(0x39)
    } else if same_text(m, "gasprice") {
        Some(0x3a)
    } else if same_text(m, "extcodesize") {
        Some(0x3b)
    } else if same_text(m, "extcodecopy") {
        Some(0x3c)
    } else if same_text(m, "returndatasize") {
        Some(0x3d)
    } else if same_text(m, "returndatacopy") {
        Some(0x3e)
    } else if same_text(m, "blockhash") {
        Some(0x40)
    } else if same_text(m, "coinbase") {
        Some(0x41)
    } else if same_text(m, "timestamp") {
        Some(0x42)
    } else if same_text(m, "number") {
        Some(0x43)
    } else if same_text(m, "difficulty") {
        Some(0x44)
    } else if same_text(m, "gaslimit") {
        Some(0x45)
    } else if same_text(m, "pop") {
        Some(0x50)
    } else if same_text(m, "mload") {
        Some(0x51)
    } else if same_text(m, "mstore") {
        Some(0x52)
    } else if same_text(m, "mstore8") {
        Some(0x53)
    } else if same_text(m, "sload") {
        Some(0x54)
    } else if same_text(m, "sstore") {
        Some(0x55)
    } else if same_text(m, "jump") {
        Some(0x56)
    } else if same_text(m, "jumpi") {
        Some(0x57)
    } else if same_text(m, "pc") {
        Some(0x58)
    } else if same_text(m, "msize") {
        Some(0x59)
    } else if same_text(m, "gas") {
        Some(0x5a)
    } else if same_text(m, "jumpdest") {
        Some(0x5b)
    } else if same_text(m, "create") {
        Some(0xf0)
    } else if same_text(m, "call") {
        Some(0xf1)
    } else if same_text(m, "callcode") {
        Some(0xf2)
    } else if same_text(m, "return") {
        Some(0xf3)
    } else if same_text(m, "delegatecall") {
        Some(0xf4)
    } else if same_text(m, "staticcall") {
        Some(0xfa)
    } else if same_text(m, "revert") {
        Some(0xfd)
    } else if same_text(m, "invalid") {
        Some(0xfe)
    } else if same_text(m, "selfdestruct") {
        Some(0xff)
    } else {
        None
    }
}

/// Every fixed mnemonic is a lower-case word, so the tokenizer reads it
/// back as a single token.
pub proof fn lemma_fixed_mnemonic_is_word(m: Seq<char>)
    requires
        fixed_opcode(m) is Some,
    ensures
        is_word(m),
{
    reveal_fixed_mnemonics();
}

/// The characters of every fixed mnemonic.
pub proof fn reveal_fixed_mnemonics()
    ensures
        "stop"@ == seq!['s', 't', 'o', 'p'],
        "add"@ == seq!['a', 'd', 'd'],
        "mul"@ == seq!['m', 'u', 'l'],
        "sub"@ == seq!['s', 'u', 'b'],
        "div"@ == seq!['d', 'i', 'v'],
        "sdiv"@ == seq!['s', 'd', 'i', 'v'],
        "mod"@ == seq!['m', 'o', 'd'],
        "smod"@ == seq!['s', 'm', 'o', 'd'],
        "addmod"@ == seq!['a', 'd', 'd', 'm', 'o', 'd'],
        "mulmod"@ == seq!['m', 'u', 'l', 'm', 'o', 'd'],
        "exp"@ == seq!['e', 'x', 'p'],
        "signextend"@ == seq!['s', 'i', 'g', 'n', 'e', 'x', 't', 'e', 'n', 'd'],
        "lt"@ == seq!['l', 't'],
        "gt"@ == seq!['g', 't'],
        "slt"@ == seq!['s', 'l', 't'],
        "sgt"@ == seq!['s', 'g', 't'],
        "eq"@ == seq!['e', 'q'],
        "iszero"@ == seq!['i', 's', 'z', 'e', 'r', 'o'],
        "and"@ == seq!['a', 'n', 'd'],
        "or"@ == seq!['o', 'r'],
        "xor"@ == seq!['x', 'o', 'r'],
        "not"@ == seq!['n', 'o', 't'],
        "byte"@ == seq!['b', 'y', 't', 'e'],
        "sha3"@ == seq!['s', 'h', 'a', '3'],
        "address"@ == seq!['a', 'd', 'd', 'r', 'e', 's', 's'],
        "balance"@ == seq!['b', 'a', 'l', 'a', 'n', 'c', 'e'],
        "origin"@ == seq!['o', 'r', 'i', 'g', 'i', 'n'],
        "caller"@ == seq!['c', 'a', 'l', 'l', 'e', 'r'],
        "callvalue"@ == seq!['c', 'a', 'l', 'l', 'v', 'a', 'l', 'u', 'e'],
        "calldataload"@ == seq!['c', 'a', 'l', 'l', 'd', 'a', 't', 'a', 'l', 'o', 'a', 'd'],
        "calldatasize"@ == seq!['c', 'a', 'l', 'l', 'd', 'a', 't', 'a', 's', 'i', 'z', 'e'],
        "calldatacopy"@ == seq!['c', 'a', 'l', 'l', 'd', 'a', 't', 'a', 'c', 'o', 'p', 'y'],
        "codesize"@ == seq!['c', 'o', 'd', 'e', 's', 'i', 'z', 'e'],
        "codecopy"@ == seq!['c', 'o', 'd', 'e', 'c', 'o', 'p', 'y'],
        "gasprice"@ == seq!['g', 'a', 's', 'p', 'r', 'i', 'c', 'e'],
        "extcodesize"@ == seq!['e', 'x', 't', 'c', 'o', 'd', 'e', 's', 'i', 'z', 'e'],
        "extcodecopy"@ == seq!['e', 'x', 't', 'c', 'o', 'd', 'e', 'c', 'o', 'p', 'y'],
        "returndatasize"@ == seq!['r', 'e', 't', 'u', 'r', 'n', 'd', 'a', 't', 'a', 's', 'i', 'z', 'e'],
        "returndatacopy"@ == seq!['r', 'e', 't', 'u', 'r', 'n', 'd', 'a', 't', 'a', 'c', 'o', 'p', 'y'],
        "blockhash"@ == seq!['b', 'l', 'o', 'c', 'k', 'h', 'a', 's', 'h'],
        "coinbase"@ == seq!['c', 'o', 'i', 'n', 'b', 'a', 's', 'e'],
        "timestamp"@ == seq!['t', 'i', 'm', 'e', 's', 't', 'a', 'm', 'p'],
        "number"@ == seq!['n', 'u', 'm', 'b', 'e', 'r'],
        "difficulty"@ == seq!['d', 'i', 'f', 'f', 'i', 'c', 'u', 'l', 't', 'y'],
        "gaslimit"@ == seq!['g', 'a', 's', 'l', 'i', 'm', 'i', 't'],
        "pop"@ == seq!['p', 'o', 'p'],
        "mload"@ == seq!['m', 'l', 'o', 'a', 'd'],
        "mstore"@ == seq!['m', 's', 't', 'o', 'r', 'e'],
        "mstore8"@ == seq!['m', 's', 't', 'o', 'r', 'e', '8'],
        "sload"@ == seq!['s', 'l', 'o', 'a', 'd'],
        "sstore"@ == seq!['s', 's', 't', 'o', 'r', 'e'],
        "jump"@ == seq!['j', 'u', 'm', 'p'],
        "jumpi"@ == seq!['j', 'u', 'm', 'p', 'i'],
        "pc"@ == seq!['p', 'c'],
        "msize"@ == seq!['m', 's', 'i', 'z', 'e'],
        "gas"@ == seq!['g', 'a', 's'],
        "jumpdest"@ == seq!['j', 'u', 'm', 'p', 'd', 'e', 's', 't'],
        "create"@ == seq!['c', 'r', 'e', 'a', 't', 'e'],
        "call"@ == seq!['c', 'a', 'l', 'l'],
        "callcode"@ == seq!['c', 'a', 'l', 'l', 'c', 'o', 'd', 'e'],
        "return"@ == seq!['r', 'e', 't', 'u', 'r', 'n'],
        "delegatecall"@ == seq!['d', 'e', 'l', 'e', 'g', 'a', 't', 'e', 'c', 'a', 'l', 'l'],
        "staticcall"@ == seq!['s', 't', 'a', 't', 'i', 'c', 'c', 'a', 'l', 'l'],
        "revert"@ == seq!['r', 'e', 'v', 'e', 'r', 't'],
        "invalid"@ == seq!['i', 'n', 'v', 'a', 'l', 'i', 'd'],
        "selfdestruct"@ == seq!['s', 'e', 'l', 'f', 'd', 'e', 's', 't', 'r', 'u', 'c', 't'],
{
    reveal_strlit("stop");
    reveal_strlit("add");
    reveal_strlit("mul");
    reveal_strlit("sub");
    reveal_strlit("div");
    reveal_strlit("sdiv");
    reveal_strlit("mod");
    reveal_strlit("smod");
    reveal_strlit("addmod");
    reveal_strlit("mulmod");
    reveal_strlit("exp");
    reveal_strlit("signextend");
    reveal_strlit("lt");
    reveal_strlit("gt");
    reveal_strlit("slt");
    reveal_strlit("sgt");
    reveal_strlit("eq");
    reveal_strlit("iszero");
    reveal_strlit("and");
    reveal_strlit("or");
    reveal_strlit("xor");
    reveal_strlit("not");
    reveal_strlit("byte");
    reveal_strlit("sha3");
    reveal_strlit("address");
    reveal_strlit("balance");
    reveal_strlit("origin");
    reveal_strlit("caller");
    reveal_strlit("callvalue");
    reveal_strlit("calldataload");
    reveal_strlit("calldatasize");
    reveal_strlit("calldatacopy");
    reveal_strlit("codesize");
    reveal_strlit("codecopy");
    reveal_strlit("gasprice");
    reveal_strlit("extcodesize");
    reveal_strlit("extcodecopy");
    reveal_strlit("returndatasize");
    reveal_strlit("returndatacopy");
    reveal_strlit("blockhash");
    reveal_strlit("coinbase");
    reveal_strlit("timestamp");
    reveal_strlit("number");
    reveal_strlit("difficulty");
    reveal_strlit("gaslimit");
    reveal_strlit("pop");
    reveal_strlit("mload");
    reveal_strlit("mstore");
    reveal_strlit("mstore8");
    reveal_strlit("sload");
    reveal_strlit("sstore");
    reveal_strlit("jump");
    reveal_strlit("jumpi");
    reveal_strlit("pc");
    reveal_strlit("msize");
    reveal_strlit("gas");
    reveal_strlit("jumpdest");
    reveal_strlit("create");
    reveal_strlit("call");
    reveal_strlit("callcode");
    reveal_strlit("return");
    reveal_strlit("delegatecall");
    reveal_strlit("staticcall");
    reveal_strlit("revert");
    reveal_strlit("invalid");
    reveal_strlit("selfdestruct");
}

} // verus!
