//! The instruction set: opcode mnemonics, their numeric codes, and the
//! instruction type that pairs an opcode with an operand.

use vstd::prelude::*;
use crate::operand::Operand;

verus! {

/// One instruction: an opcode together with its operand.
#[derive(Debug, Copy, Clone, PartialEq, Eq, Structural)]
pub struct Command {
    pub command_type: CommandType,
    pub operand: Operand,
}

/// The closed set of opcode mnemonics.
///
/// Every opcode but `MULT` has a unique numeric code in the binary encoding;
/// `MULT` is reserved: it has no code and no execution semantics.
#[derive(Debug, Copy, Clone, PartialEq, Eq, Structural)]
pub enum CommandType {
    NOP,
    JMP,
    ADD,
    SUB,
    LAC,
    DAC,
    CMP,
    MOV,
    LRG,
    JMPG,
    JMPNG,
    MULT,
}

impl CommandType {
    /// The numeric code of this opcode in the binary encoding, or `None` for
    /// the reserved `MULT`.
    pub open spec fn spec_code(self) -> Option<u16> {
        match self {
            CommandType::NOP => Some(0u16),
            CommandType::JMP => Some(1u16),
            CommandType::ADD => Some(2u16),
            CommandType::LAC => Some(3u16),
            CommandType::DAC => Some(4u16),
            CommandType::SUB => Some(5u16),
            CommandType::CMP => Some(6u16),
            CommandType::MOV => Some(7u16),
            CommandType::LRG => Some(8u16),
            CommandType::JMPG => Some(9u16),
            CommandType::JMPNG => Some(10u16),
            CommandType::MULT => None,
        }
    }

    /// The numeric code of this opcode, or `None` for the reserved `MULT`.
    pub fn get_code(&self) -> (r: Option<u16>)
        ensures
            r == self.spec_code(),
    {
        match self {
            CommandType::NOP => Some(0),
            CommandType::JMP => Some(1),
            CommandType::ADD => Some(2),
            CommandType::LAC => Some(3),
            CommandType::DAC => Some(4),
            CommandType::SUB => Some(5),
            CommandType::CMP => Some(6),
            CommandType::MOV => Some(7),
            CommandType::LRG => Some(8),
            CommandType::JMPG => Some(9),
            CommandType::JMPNG => Some(10),
            CommandType::MULT => None,
        }
    }
}

/// The opcode assigned to a numeric code, or `None` when no opcode carries it.
pub open spec fn spec_command_of_code(code: u16) -> Option<CommandType> {
    if code == 0 {
        Some(CommandType::NOP)
    } else if code == 1 {
        Some(CommandType::JMP)
    } else if code == 2 {
        Some(CommandType::ADD)
    } else if code == 3 {
        Some(CommandType::LAC)
    } else if code == 4 {
        Some(CommandType::DAC)
    } else if code == 5 {
        Some(CommandType::SUB)
    } else if code == 6 {
        Some(CommandType::CMP)
    } else if code == 7 {
        Some(CommandType::MOV)
    } else if code == 8 {
        Some(CommandType::LRG)
    } else if code == 9 {
        Some(CommandType::JMPG)
    } else if code == 10 {
        Some(CommandType::JMPNG)
    } else {
        None
    }
}

/// Look a numeric code up in the opcode table.
pub fn command_of_code(code: u16) -> (r: Option<CommandType>)
    ensures
        r == spec_command_of_code(code),
{
    if code == 0 {
        Some(CommandType::NOP)
    } else if code == 1 {
        Some(CommandType::JMP)
    } else if code == 2 {
        Some(CommandType::ADD)
    } else if code == 3 {
        Some(CommandType::LAC)
    } else if code == 4 {
        Some(CommandType::DAC)
    } else if code == 5 {
        Some(CommandType::SUB)
    } else if code == 6 {
        Some(CommandType::CMP)
    } else if code == 7 {
        Some(CommandType::MOV)
    } else if code == 8 {
        Some(CommandType::LRG)
    } else if code == 9 {
        Some(CommandType::JMPG)
    } else if code == 10 {
        Some(CommandType::JMPNG)
    } else {
        None
    }
}

/// The opcode table is a bijection between the opcodes that carry a code and
/// the codes 0 through 10: looking up an opcode's code finds that opcode
/// again, and every successful lookup returns an opcode that carries exactly
/// the code looked up.
pub proof fn lemma_command_code_bijection()
    ensures
        forall|ct: CommandType| #[trigger] ct.spec_code() is Some ==> spec_command_of_code(
            ct.spec_code()->0,
        ) == Some(ct),
        forall|code: u16| #[trigger] spec_command_of_code(code) is Some ==> spec_command_of_code(
            code,
        )->0.spec_code() == Some(code),
{
    assert forall|ct: CommandType| #[trigger] ct.spec_code() is Some implies spec_command_of_code(
        ct.spec_code()->0,
    ) == Some(ct) by {
        match ct {
            CommandType::NOP => {},
            CommandType::JMP => {},
            CommandType::ADD => {},
            CommandType::LAC => {},
            CommandType::DAC => {},
            CommandType::SUB => {},
            CommandType::CMP => {},
            CommandType::MOV => {},
            CommandType::LRG => {},
            CommandType::JMPG => {},
            CommandType::JMPNG => {},
            CommandType::MULT => {},
        }
    }
}

} // verus!
