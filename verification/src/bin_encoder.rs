//! Encoding one instruction into a two-byte wire word.
//!
//! A word is 16 bits, high to low: 6 bits of opcode code, 2 bits of
//! operand-tag code, 8 bits of operand payload. A literal operand is truncated
//! to its low 8 bits — values above 255 silently lose their high bits, a
//! documented lossy boundary of the binary form.

use vstd::prelude::*;
use crate::byte_formatter::ByteFormatter;
use crate::command::Command;
use crate::operand::Operand;

verus! {

/// An instruction can be encoded when its opcode carries a numeric code;
/// only the reserved `MULT` does not.
pub open spec fn spec_encodable(c: Command) -> bool {
    c.command_type.spec_code() is Some
}

/// The 8-bit payload an operand contributes to the word: a literal's low 8
/// bits, or a register's id.
pub open spec fn spec_operand_payload(op: Operand) -> u16 {
    match op {
        Operand::Literal(v) => (v as int % 256) as u16,
        Operand::Register(name) => name.spec_id(),
    }
}

/// The operand round-trips through the 8-bit payload: a literal below 256, or
/// any register (ids stop at 6).
pub open spec fn spec_operand_fits(op: Operand) -> bool {
    match op {
        Operand::Literal(v) => v < 256,
        Operand::Register(_) => true,
    }
}

/// The wire word of an encodable instruction: opcode code in bits 15..10,
/// operand-tag code in bits 9..8, payload in bits 7..0.
pub open spec fn spec_encode_word(c: Command) -> u16
    recommends
        spec_encodable(c),
{
    (c.command_type.spec_code()->0 as int * 1024 + c.operand.spec_tag().spec_id() as int * 256
        + spec_operand_payload(c.operand) as int) as u16
}

/// Encode one instruction into its two wire bytes under the given byte order.
pub fn encode_command<F: ByteFormatter>(command: &Command, byte_formatter: &F) -> (r: [u8; 2])
    requires
        spec_encodable(*command),
    ensures
        r@[0] == byte_formatter.spec_unwrap(spec_encode_word(*command)).0,
        r@[1] == byte_formatter.spec_unwrap(spec_encode_word(*command)).1,
{
    let cmd_type = command.command_type.get_code().unwrap();
    let operand_type = command.operand.tag().get_id();
    let operand_value = match command.operand {
        Operand::Literal(literal) => literal,
        Operand::Register(name) => name.get_id(),
    };

    let word = cmd_type * 1024 + operand_type * 256 + operand_value % 256;

    byte_formatter.unwrap_bytes(word)
}

} // verus!
