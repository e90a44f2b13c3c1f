//! A one-pass assembler from a mnemonic listing of stack-machine
//! instructions to a hexadecimal bytecode string.

pub mod error;
pub mod text;
pub mod hex;
pub mod lexer;
pub mod opcodes;
pub mod family;
pub mod assembler;
pub mod laws;
