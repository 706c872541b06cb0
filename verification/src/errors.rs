//! The error taxonomy: assembly-text faults, binary-decode faults, and
//! execution faults. Memory reads at unwritten addresses are not errors; they
//! return zero by design.

use vstd::prelude::*;

verus! {

/// Why a line of assembly text was rejected.
#[derive(Debug, Copy, Clone, PartialEq, Eq, Structural)]
pub enum ParseErrorKind {
    /// The line is not two tokens separated by exactly one space.
    MalformedLine,
    /// The first token names no opcode.
    UnknownMnemonic,
    /// The second token is neither an unsigned 16-bit integer nor a register
    /// name.
    UnknownOperand,
}

/// A rejected line of assembly text: the zero-based index of the offending
/// line, and why it was rejected. Assembly of the remaining lines is
/// abandoned.
#[derive(Debug, Copy, Clone, PartialEq, Eq, Structural)]
pub struct ParseError {
    pub line: usize,
    pub kind: ParseErrorKind,
}

/// Why a binary stream or word was rejected.
#[derive(Debug, Copy, Clone, PartialEq, Eq, Structural)]
pub enum DecodeError {
    /// The byte stream has odd length.
    OddLength,
    /// The opcode code has no known mnemonic.
    UnknownCommandId,
    /// The operand-tag code is neither 1 nor 2.
    UnknownOperandTypeId,
    /// The operand names no known register.
    UnknownRegisterId,
}

/// Why a step of execution failed. A failed step leaves the machine as it was,
/// apart from the program counter's changed flag, which every step clears
/// first.
#[derive(Debug, Copy, Clone, PartialEq, Eq, Structural)]
pub enum ExecutionError {
    /// The word at the program counter does not decode to an instruction.
    Decode(DecodeError),
    /// LRG was invoked with a literal operand.
    InvalidLrgCommand,
    /// The opcode has no execution semantics (the reserved MULT).
    UnsupportedOpcode,
}

impl ParseErrorKind {
    /// The description `message` returns, as a sequence of characters.
    pub open spec fn message_spec(self) -> Seq<char> {
        match self {
            ParseErrorKind::MalformedLine => "malformed line"@,
            ParseErrorKind::UnknownMnemonic => "unknown mnemonic"@,
            ParseErrorKind::UnknownOperand => "invalid operand"@,
        }
    }

    /// A short description of the fault.
    pub fn message(&self) -> (r: &'static str)
        ensures
            r@ == self.message_spec(),
    {
        match self {
            ParseErrorKind::MalformedLine => "malformed line",
            ParseErrorKind::UnknownMnemonic => "unknown mnemonic",
            ParseErrorKind::UnknownOperand => "invalid operand",
        }
    }
}

impl DecodeError {
    /// The description `message` returns, as a sequence of characters.
    pub open spec fn message_spec(self) -> Seq<char> {
        match self {
            DecodeError::OddLength => "invalid data"@,
            DecodeError::UnknownCommandId => "invalid command id"@,
            DecodeError::UnknownOperandTypeId => "invalid operand type id"@,
            DecodeError::UnknownRegisterId => "invalid register id"@,
        }
    }

    /// A short description of the fault.
    pub fn message(&self) -> (r: &'static str)
        ensures
            r@ == self.message_spec(),
    {
        match self {
            DecodeError::OddLength => "invalid data",
            DecodeError::UnknownCommandId => "invalid command id",
            DecodeError::UnknownOperandTypeId => "invalid operand type id",
            DecodeError::UnknownRegisterId => "invalid register id",
        }
    }
}

impl ExecutionError {
    /// The description `message` returns, as a sequence of characters.
    pub open spec fn message_spec(self) -> Seq<char> {
        match self {
            ExecutionError::Decode(e) => e.message_spec(),
            ExecutionError::InvalidLrgCommand => "invalid lrg command"@,
            ExecutionError::UnsupportedOpcode => "unsupported opcode"@,
        }
    }

    /// A short description of the fault.
    pub fn message(&self) -> (r: &'static str)
        ensures
            r@ == self.message_spec(),
    {
        match self {
            ExecutionError::Decode(e) => e.message(),
            ExecutionError::InvalidLrgCommand => "invalid lrg command",
            ExecutionError::UnsupportedOpcode => "unsupported opcode",
        }
    }
}

} // verus!
