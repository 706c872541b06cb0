//! The word codec, the opcode/tag/register tables, and the binary codec.

use toyvm::bin_decoder::{parse_bin, parse_command, parse_word};
use toyvm::bin_encoder::encode_command;
use toyvm::byte_formatter::{ByteFormatter, LittleEndianFormatter};
use toyvm::command::{command_of_code, Command, CommandType};
use toyvm::errors::DecodeError;
use toyvm::operand::{tag_of_id, Operand, OperandTag};
use toyvm::register::{register_of_id, RegisterName};

#[test]
fn word_codec_round_trip() {
    let f = LittleEndianFormatter {};
    for w in [0u16, 1, 0x00FF, 0x0100, 0x1234, 0x8000, 0xFFFE, 0xFFFF] {
        assert_eq!(f.wrap_bytes(f.unwrap_bytes(w)), w);
    }
}

#[test]
fn word_codec_little_endian_layout() {
    let f = LittleEndianFormatter {};
    assert_eq!(f.unwrap_bytes(0x1234), [0x34, 0x12]);
    assert_eq!(f.wrap_bytes([0x34, 0x12]), 0x1234);
    assert_eq!(f.unwrap_bytes(0x00FF), [0xFF, 0x00]);
    assert_eq!(f.wrap_bytes([0x05, 0x1D]), 0x1D05);
}

#[test]
fn opcode_codes() {
    assert_eq!(CommandType::NOP.get_code(), Some(0));
    assert_eq!(CommandType::JMP.get_code(), Some(1));
    assert_eq!(CommandType::ADD.get_code(), Some(2));
    assert_eq!(CommandType::LAC.get_code(), Some(3));
    assert_eq!(CommandType::DAC.get_code(), Some(4));
    assert_eq!(CommandType::SUB.get_code(), Some(5));
    assert_eq!(CommandType::CMP.get_code(), Some(6));
    assert_eq!(CommandType::MOV.get_code(), Some(7));
    assert_eq!(CommandType::LRG.get_code(), Some(8));
    assert_eq!(CommandType::JMPG.get_code(), Some(9));
    assert_eq!(CommandType::JMPNG.get_code(), Some(10));
    assert_eq!(CommandType::MULT.get_code(), None);
}

#[test]
fn opcode_table_bijection() {
    let all = [
        CommandType::NOP,
        CommandType::JMP,
        CommandType::ADD,
        CommandType::SUB,
        CommandType::LAC,
        CommandType::DAC,
        CommandType::CMP,
        CommandType::MOV,
        CommandType::LRG,
        CommandType::JMPG,
        CommandType::JMPNG,
    ];
    for ct in all {
        let code = ct.get_code().unwrap();
        assert_eq!(command_of_code(code), Some(ct));
    }
    for code in 11u16..64 {
        assert_eq!(command_of_code(code), None);
    }
}

#[test]
fn operand_tag_table_bijection() {
    assert_eq!(OperandTag::Literal.get_id(), 1);
    assert_eq!(OperandTag::Register.get_id(), 2);
    assert_eq!(tag_of_id(1), Some(OperandTag::Literal));
    assert_eq!(tag_of_id(2), Some(OperandTag::Register));
    assert_eq!(tag_of_id(0), None);
    assert_eq!(tag_of_id(3), None);
}

#[test]
fn register_table_bijection() {
    let all = [
        RegisterName::Acc,
        RegisterName::Rg1,
        RegisterName::Rg2,
        RegisterName::Rg3,
        RegisterName::Rg4,
        RegisterName::Rg5,
    ];
    for name in all {
        assert_eq!(register_of_id(name.get_id()), Some(name));
    }
    assert_eq!(register_of_id(0), None);
    assert_eq!(register_of_id(7), None);
}

#[test]
fn operand_tags() {
    assert_eq!(Operand::Literal(9).tag(), OperandTag::Literal);
    assert_eq!(Operand::Register(RegisterName::Rg4).tag(), OperandTag::Register);
}

#[test]
fn encode_mov_literal_five() {
    // opcode code 7, operand tag 1, payload 5: (7<<10)|(1<<8)|5 = 0x1D05,
    // little-endian bytes [0x05, 0x1D].
    let f = LittleEndianFormatter {};
    let c = Command { command_type: CommandType::MOV, operand: Operand::Literal(5) };
    assert_eq!(encode_command(&c, &f), [0x05, 0x1D]);
}

#[test]
fn encode_truncates_large_literal() {
    // A literal above 255 silently loses its high bits in the binary form.
    let f = LittleEndianFormatter {};
    let c = Command { command_type: CommandType::MOV, operand: Operand::Literal(0x0105) };
    assert_eq!(encode_command(&c, &f), [0x05, 0x1D]);
}

#[test]
fn decode_undoes_encode() {
    let f = LittleEndianFormatter {};
    let cases = [
        Command { command_type: CommandType::NOP, operand: Operand::Literal(0) },
        Command { command_type: CommandType::JMP, operand: Operand::Literal(255) },
        Command { command_type: CommandType::ADD, operand: Operand::Literal(3) },
        Command { command_type: CommandType::SUB, operand: Operand::Register(RegisterName::Rg5) },
        Command { command_type: CommandType::LAC, operand: Operand::Literal(10) },
        Command { command_type: CommandType::DAC, operand: Operand::Literal(10) },
        Command { command_type: CommandType::CMP, operand: Operand::Register(RegisterName::Acc) },
        Command { command_type: CommandType::MOV, operand: Operand::Literal(5) },
        Command { command_type: CommandType::LRG, operand: Operand::Register(RegisterName::Rg1) },
        Command { command_type: CommandType::JMPG, operand: Operand::Literal(4) },
        Command { command_type: CommandType::JMPNG, operand: Operand::Literal(6) },
    ];
    for c in cases {
        let bytes = encode_command(&c, &f);
        assert_eq!(parse_command(&bytes, &f), Ok(c));
    }
}

#[test]
fn decode_unknown_opcode() {
    // opcode code 11 is unassigned (MULT is reserved without a code)
    let r = parse_word(11 * 1024 + 1 * 256 + 0);
    assert_eq!(r, Err(DecodeError::UnknownCommandId));
    assert_eq!(r.unwrap_err().message(), "invalid command id");
}

#[test]
fn decode_unknown_operand_tag() {
    assert_eq!(parse_word(1 * 1024 + 0 * 256 + 0), Err(DecodeError::UnknownOperandTypeId));
    assert_eq!(parse_word(1 * 1024 + 3 * 256 + 0), Err(DecodeError::UnknownOperandTypeId));
    assert_eq!(
        DecodeError::UnknownOperandTypeId.message(),
        "invalid operand type id"
    );
}

#[test]
fn decode_unknown_register_id() {
    assert_eq!(parse_word(1 * 1024 + 2 * 256 + 0), Err(DecodeError::UnknownRegisterId));
    assert_eq!(parse_word(1 * 1024 + 2 * 256 + 7), Err(DecodeError::UnknownRegisterId));
    assert_eq!(DecodeError::UnknownRegisterId.message(), "invalid register id");
}

#[test]
fn parse_bin_odd_length_fails() {
    let f = LittleEndianFormatter {};
    let r = parse_bin(&[0x05, 0x1D, 0x00], &f);
    assert_eq!(r, Err(DecodeError::OddLength));
    assert_eq!(r.unwrap_err().message(), "invalid data");
}

#[test]
fn parse_bin_empty_is_empty() {
    let f = LittleEndianFormatter {};
    assert_eq!(parse_bin(&[], &f), Ok(vec![]));
}

#[test]
fn parse_bin_decodes_in_order() {
    let f = LittleEndianFormatter {};
    let mov5 = Command { command_type: CommandType::MOV, operand: Operand::Literal(5) };
    let add3 = Command { command_type: CommandType::ADD, operand: Operand::Literal(3) };
    let mut bytes = Vec::new();
    bytes.extend_from_slice(&encode_command(&mov5, &f));
    bytes.extend_from_slice(&encode_command(&add3, &f));
    assert_eq!(parse_bin(&bytes, &f), Ok(vec![mov5, add3]));
}

#[test]
fn parse_bin_first_fault_aborts() {
    let f = LittleEndianFormatter {};
    // second word has an unassigned opcode code
    let bad = f.unwrap_bytes(13 * 1024);
    let good = encode_command(
        &Command { command_type: CommandType::NOP, operand: Operand::Literal(0) },
        &f,
    );
    let bytes = vec![good[0], good[1], bad[0], bad[1]];
    assert_eq!(parse_bin(&bytes, &f), Err(DecodeError::UnknownCommandId));
}
