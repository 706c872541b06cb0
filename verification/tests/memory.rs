//! The data store, the program store, the register file, and the program
//! counter.

use toyvm::byte_formatter::LittleEndianFormatter;
use toyvm::command::{Command, CommandType};
use toyvm::command_memory::CommandMemory;
use toyvm::data_memory::DataMemory;
use toyvm::errors::DecodeError;
use toyvm::operand::Operand;
use toyvm::program_counter::ProgramCounter;
use toyvm::register::RegisterName;
use toyvm::register_memory::RegisterMemory;

#[test]
fn data_memory_unwritten_reads_zero() {
    let m = DataMemory::default();
    assert_eq!(m.get(0), 0);
    assert_eq!(m.get(12345), 0);
    assert_eq!(m.get(0xFFFF), 0);
}

#[test]
fn data_memory_put_then_get() {
    let mut m = DataMemory::default();
    m.put(10, 0x34);
    m.put(11, 0x12);
    assert_eq!(m.get(10), 0x34);
    assert_eq!(m.get(11), 0x12);
    assert_eq!(m.get(9), 0);
    m.put(10, 0x99);
    assert_eq!(m.get(10), 0x99);
}

#[test]
fn data_memory_put_bytes_ascending() {
    let mut m = DataMemory::default();
    m.put_bytes(100, &[1, 2, 3]);
    assert_eq!(m.get(100), 1);
    assert_eq!(m.get(101), 2);
    assert_eq!(m.get(102), 3);
    assert_eq!(m.get(103), 0);
}

#[test]
fn data_memory_put_bytes_wraps_at_end() {
    let mut m = DataMemory::default();
    m.put_bytes(0xFFFF, &[7, 8]);
    assert_eq!(m.get(0xFFFF), 7);
    assert_eq!(m.get(0), 8);
}

#[test]
fn data_memory_dump_covers_low_half() {
    let mut m = DataMemory::default();
    m.put(0, 0xAA);
    m.put(0x7FFF, 0xBB);
    m.put(0x8000, 0xCC);  // above the snapshot window
    let dump = m.dump();
    assert_eq!(dump.len(), 0x8000);
    assert_eq!(dump[0], 0xAA);
    assert_eq!(dump[0x7FFF], 0xBB);
    assert_eq!(dump[1], 0);
}

#[test]
fn data_memory_snapshot_round_trip() {
    let mut m = DataMemory::default();
    m.put(3, 9);
    m.put(0x7FFF, 250);
    m.put(20000, 42);
    let restored = DataMemory::restore(&m.dump());
    for a in [0u16, 1, 2, 3, 4, 19999, 20000, 20001, 0x7FFE, 0x7FFF] {
        assert_eq!(restored.get(a), m.get(a));
    }
}

#[test]
fn data_memory_restore_short_snapshot() {
    let m = DataMemory::restore(&[5, 6]);
    assert_eq!(m.get(0), 5);
    assert_eq!(m.get(1), 6);
    assert_eq!(m.get(2), 0);
}

#[test]
fn data_memory_restore_ignores_last_address() {
    // restore covers indices up to 65534: address 65535 stays unwritten
    let mut snapshot = vec![0u8; 0x10000];
    snapshot[0xFFFF] = 77;
    snapshot[0xFFFE] = 66;
    let m = DataMemory::restore(&snapshot);
    assert_eq!(m.get(0xFFFE), 66);
    assert_eq!(m.get(0xFFFF), 0);
}

#[test]
fn command_memory_decodes_loaded_words() {
    let f = LittleEndianFormatter {};
    // MOV 5 at address 0: word 0x1D05 little-endian
    let m = CommandMemory::load(vec![0x05, 0x1D], f);
    assert_eq!(
        m.get(0),
        Ok(Some(Command { command_type: CommandType::MOV, operand: Operand::Literal(5) }))
    );
}

#[test]
fn command_memory_unloaded_reads_nop() {
    let f = LittleEndianFormatter {};
    let m = CommandMemory::load(vec![], f);
    let nop = Command { command_type: CommandType::NOP, operand: Operand::Literal(0) };
    assert_eq!(m.get(0), Ok(Some(nop)));
    assert_eq!(m.get(40000), Ok(Some(nop)));
    assert_eq!(m.get(0xFFFF), Ok(Some(nop)));
}

#[test]
fn command_memory_bad_word_is_a_decode_error() {
    let f = LittleEndianFormatter {};
    // word 0x0400: opcode JMP, operand tag 0
    let m = CommandMemory::load(vec![0x00, 0x04], f);
    assert_eq!(m.get(0), Err(DecodeError::UnknownOperandTypeId));
}

#[test]
fn command_memory_get_all_lists_even_addresses() {
    let f = LittleEndianFormatter {};
    // MOV 5, then a word with an unassigned opcode, then ADD 3
    let bad = 13u16 * 1024;
    let m = CommandMemory::load(
        vec![0x05, 0x1D, (bad & 0xFF) as u8, (bad >> 8) as u8, 0x03, 0x09],
        f,
    );
    let all = m.get_all();
    assert_eq!(
        all,
        vec![
            (0, Command { command_type: CommandType::MOV, operand: Operand::Literal(5) }),
            (4, Command { command_type: CommandType::ADD, operand: Operand::Literal(3) }),
        ]
    );
}

#[test]
fn command_memory_get_all_odd_tail() {
    let f = LittleEndianFormatter {};
    // a trailing lone byte pairs with an implicit zero; the resulting word has
    // operand tag 0, fails to decode, and is left out of the listing
    let m = CommandMemory::load(vec![0x05, 0x1D, 0x03], f);
    let all = m.get_all();
    assert_eq!(
        all,
        vec![(0, Command { command_type: CommandType::MOV, operand: Operand::Literal(5) })]
    );
}

#[test]
fn register_memory_starts_zeroed() {
    let m = RegisterMemory::new();
    for name in [
        RegisterName::Acc,
        RegisterName::Rg1,
        RegisterName::Rg2,
        RegisterName::Rg3,
        RegisterName::Rg4,
        RegisterName::Rg5,
    ] {
        assert_eq!(m.get(name).unwrap().as_u16(), 0);
    }
}

#[test]
fn register_memory_writes_one_cell() {
    let mut m = RegisterMemory::new();
    m.get_mut(RegisterName::Rg2).put_u16(77);
    assert_eq!(m.get(RegisterName::Rg2).unwrap().as_u16(), 77);
    assert_eq!(m.get(RegisterName::Rg1).unwrap().as_u16(), 0);
    assert_eq!(m.get(RegisterName::Acc).unwrap().as_u16(), 0);
}

#[test]
fn register_memory_lists_in_id_order() {
    let mut m = RegisterMemory::new();
    m.get_mut(RegisterName::Acc).put_u16(1);
    m.get_mut(RegisterName::Rg5).put_u16(5);
    let all = m.get_all();
    assert_eq!(
        all,
        vec![
            (RegisterName::Acc, 1),
            (RegisterName::Rg1, 0),
            (RegisterName::Rg2, 0),
            (RegisterName::Rg3, 0),
            (RegisterName::Rg4, 0),
            (RegisterName::Rg5, 5),
        ]
    );
}

#[test]
fn register_cell_read_write() {
    let mut r = RegisterName::Acc.new_register();
    assert_eq!(r.as_u16(), 0);
    r.put_u16(0x1234);
    assert_eq!(r.as_u16(), 0x1234);
}

#[test]
fn register_ids() {
    assert_eq!(RegisterName::Acc.get_id(), 1);
    assert_eq!(RegisterName::Rg1.get_id(), 2);
    assert_eq!(RegisterName::Rg2.get_id(), 3);
    assert_eq!(RegisterName::Rg3.get_id(), 4);
    assert_eq!(RegisterName::Rg4.get_id(), 5);
    assert_eq!(RegisterName::Rg5.get_id(), 6);
}

#[test]
fn program_counter_set_and_reset() {
    let mut pc = ProgramCounter::default();
    assert_eq!(pc.pc, 0);
    assert!(!pc.changed);
    pc.set(40);
    assert_eq!(pc.pc, 40);
    assert!(pc.changed);
    pc.reset_flag();
    assert_eq!(pc.pc, 40);
    assert!(!pc.changed);
}
