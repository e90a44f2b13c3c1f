//! Failures of a translation.

use vstd::prelude::*;

verus! {

/// Why a listing could not be translated. Every failure ends the whole
/// translation.
#[derive(Debug, PartialEq, Eq)]
pub enum AsmError {
    /// A character that is neither alphanumeric nor whitespace.
    IllegalCharacter,
    /// A token that is neither a fixed mnemonic nor a member of a family.
    UnknownOpcode(String),
    /// A family mnemonic whose numeric suffix lies outside its range.
    InvalidOpcodeSize,
    /// A push whose next token is not a `0x` literal, or that ends the input.
    MissingOperand,
}

/// The mathematical form of an [`AsmError`].
pub enum Fault {
    Lexical,
    Unknown(Seq<char>),
    Size,
    Missing,
}

impl View for AsmError {
    type V = Fault;

    open spec fn view(&self) -> Fault {
        match self {
            AsmError::IllegalCharacter => Fault::Lexical,
            AsmError::UnknownOpcode(t) => Fault::Unknown(t@),
            AsmError::InvalidOpcodeSize => Fault::Size,
            AsmError::MissingOperand => Fault::Missing,
        }
    }
}

} // verus!
