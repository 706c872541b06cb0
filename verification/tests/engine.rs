//! The execution engine: one instruction per step, opcode effects, program
//! counter control flow, and the faults that abort a step.

use toyvm::asm_decoder::parse_asm;
use toyvm::bin_encoder::encode_command;
use toyvm::byte_formatter::LittleEndianFormatter;
use toyvm::command::Command;
use toyvm::command_memory::CommandMemory;
use toyvm::data_memory::DataMemory;
use toyvm::errors::{DecodeError, ExecutionError};
use toyvm::register::RegisterName;
use toyvm::vm::{init_vm, next_step, VmState};

fn assemble(texts: &[&str]) -> Vec<u8> {
    let lines: Vec<String> = texts.iter().map(|t| t.to_string()).collect();
    let commands: Vec<Command> = parse_asm(&lines).unwrap();
    let f = LittleEndianFormatter {};
    let mut bytes = Vec::new();
    for c in &commands {
        assert!(c.command_type.get_code().is_some(), "opcode has no code");
        bytes.extend_from_slice(&encode_command(c, &f));
    }
    bytes
}

fn boot(program: Vec<u8>) -> VmState<LittleEndianFormatter> {
    let cm = CommandMemory::load(program, LittleEndianFormatter {});
    init_vm(LittleEndianFormatter {}, cm, None).unwrap()
}

fn acc(vm: &VmState<LittleEndianFormatter>) -> u16 {
    vm.registers.get(RegisterName::Acc).unwrap().as_u16()
}

#[test]
fn mov_then_add_leaves_eight() {
    let mut vm = boot(assemble(&["MOV 5", "ADD 3"]));
    assert_eq!(next_step(&mut vm), Ok(true));
    assert_eq!(acc(&vm), 5);
    assert_eq!(next_step(&mut vm), Ok(true));
    assert_eq!(acc(&vm), 8);
    assert_eq!(vm.pc.pc, 4);
}

#[test]
fn non_branching_step_advances_pc_by_two() {
    for text in ["NOP 0", "ADD 1", "SUB 0", "LAC 10", "DAC 10", "CMP 1", "MOV 9", "LRG rg1"] {
        let mut vm = boot(assemble(&[text]));
        assert_eq!(next_step(&mut vm), Ok(true));
        assert_eq!(vm.pc.pc, 2, "after {text}");
        assert!(!vm.pc.changed, "after {text}");
    }
}

#[test]
fn jmp_sets_pc_and_flag() {
    let mut vm = boot(assemble(&["JMP 40"]));
    assert_eq!(next_step(&mut vm), Ok(true));
    assert_eq!(vm.pc.pc, 40);
    assert!(vm.pc.changed);
}

#[test]
fn jmp_through_register() {
    let mut vm = boot(assemble(&["MOV 30", "LRG rg1", "JMP rg1"]));
    assert_eq!(next_step(&mut vm), Ok(true));
    assert_eq!(next_step(&mut vm), Ok(true));
    assert_eq!(next_step(&mut vm), Ok(true));
    assert_eq!(vm.pc.pc, 30);
}

#[test]
fn dac_writes_little_endian_and_lac_reads_back() {
    let mut vm = boot(assemble(&["DAC 10", "MOV 0", "LAC 10"]));
    vm.registers.get_mut(RegisterName::Acc).put_u16(0x1234);
    assert_eq!(next_step(&mut vm), Ok(true));
    assert_eq!(vm.data_memory.get(10), 0x34);
    assert_eq!(vm.data_memory.get(11), 0x12);
    assert_eq!(next_step(&mut vm), Ok(true));
    assert_eq!(acc(&vm), 0);
    assert_eq!(next_step(&mut vm), Ok(true));
    assert_eq!(acc(&vm), 0x1234);
}

#[test]
fn lac_of_unwritten_memory_is_zero() {
    let mut vm = boot(assemble(&["MOV 9", "LAC 100"]));
    assert_eq!(next_step(&mut vm), Ok(true));
    assert_eq!(next_step(&mut vm), Ok(true));
    assert_eq!(acc(&vm), 0);
}

#[test]
fn cmp_stores_ordering_of_acc_against_value() {
    // the comparison direction is the accumulator against the operand
    let mut vm = boot(assemble(&["MOV 5", "CMP 3"]));
    assert_eq!(next_step(&mut vm), Ok(true));
    assert_eq!(next_step(&mut vm), Ok(true));
    assert_eq!(acc(&vm), 1);

    let mut vm = boot(assemble(&["MOV 2", "CMP 3"]));
    next_step(&mut vm).unwrap();
    next_step(&mut vm).unwrap();
    assert_eq!(acc(&vm), 0xFFFF);

    let mut vm = boot(assemble(&["MOV 3", "CMP 3"]));
    next_step(&mut vm).unwrap();
    next_step(&mut vm).unwrap();
    assert_eq!(acc(&vm), 0);
}

#[test]
fn add_wraps_modulo_two_to_the_sixteen() {
    let mut vm = boot(assemble(&["ADD 2"]));
    vm.registers.get_mut(RegisterName::Acc).put_u16(0xFFFF);
    assert_eq!(next_step(&mut vm), Ok(true));
    assert_eq!(acc(&vm), 1);
}

#[test]
fn sub_wraps_modulo_two_to_the_sixteen() {
    // the underflow policy mirrors ADD's wraparound
    let mut vm = boot(assemble(&["MOV 3", "SUB 5"]));
    next_step(&mut vm).unwrap();
    next_step(&mut vm).unwrap();
    assert_eq!(acc(&vm), 0xFFFE);
}

#[test]
fn lrg_copies_acc_into_target() {
    let mut vm = boot(assemble(&["MOV 7", "LRG rg2"]));
    next_step(&mut vm).unwrap();
    next_step(&mut vm).unwrap();
    assert_eq!(vm.registers.get(RegisterName::Rg2).unwrap().as_u16(), 7);
    assert_eq!(acc(&vm), 7);
}

#[test]
fn lrg_with_literal_operand_fails() {
    let mut vm = boot(assemble(&["LRG 5"]));
    let r = next_step(&mut vm);
    assert_eq!(r, Err(ExecutionError::InvalidLrgCommand));
    assert_eq!(r.unwrap_err().message(), "invalid lrg command");
    // the machine is unchanged apart from the cleared flag
    assert_eq!(vm.pc.pc, 0);
    assert!(!vm.pc.changed);
    assert_eq!(acc(&vm), 0);
}

#[test]
fn jmpg_branches_only_when_acc_is_one() {
    let mut vm = boot(assemble(&["MOV 1", "JMPG 40"]));
    next_step(&mut vm).unwrap();
    next_step(&mut vm).unwrap();
    assert_eq!(vm.pc.pc, 40);
    assert!(vm.pc.changed);

    let mut vm = boot(assemble(&["MOV 2", "JMPG 40"]));
    next_step(&mut vm).unwrap();
    next_step(&mut vm).unwrap();
    assert_eq!(vm.pc.pc, 4);
    assert!(!vm.pc.changed);
}

#[test]
fn jmpng_branches_unless_acc_is_one() {
    let mut vm = boot(assemble(&["MOV 2", "JMPNG 40"]));
    next_step(&mut vm).unwrap();
    next_step(&mut vm).unwrap();
    assert_eq!(vm.pc.pc, 40);
    assert!(vm.pc.changed);

    let mut vm = boot(assemble(&["MOV 1", "JMPNG 40"]));
    next_step(&mut vm).unwrap();
    next_step(&mut vm).unwrap();
    assert_eq!(vm.pc.pc, 4);
    assert!(!vm.pc.changed);
}

#[test]
fn running_past_the_program_executes_nops() {
    let mut vm = boot(vec![]);
    assert_eq!(next_step(&mut vm), Ok(true));
    assert_eq!(vm.pc.pc, 2);
    assert_eq!(next_step(&mut vm), Ok(true));
    assert_eq!(vm.pc.pc, 4);
    assert_eq!(acc(&vm), 0);
}

#[test]
fn decode_fault_at_pc_aborts_the_step() {
    // word 0x0400: opcode JMP with operand tag 0
    let mut vm = boot(vec![0x00, 0x04]);
    let r = next_step(&mut vm);
    assert_eq!(r, Err(ExecutionError::Decode(DecodeError::UnknownOperandTypeId)));
    assert_eq!(vm.pc.pc, 0);
    assert!(!vm.pc.changed);
}

#[test]
fn execution_error_messages() {
    assert_eq!(ExecutionError::UnsupportedOpcode.message(), "unsupported opcode");
    assert_eq!(
        ExecutionError::Decode(DecodeError::UnknownCommandId).message(),
        "invalid command id"
    );
}

#[test]
fn init_vm_takes_a_data_snapshot() {
    let mut data = DataMemory::default();
    data.put(10, 0x34);
    data.put(11, 0x12);
    let cm = CommandMemory::load(assemble(&["LAC 10"]), LittleEndianFormatter {});
    let mut vm = init_vm(LittleEndianFormatter {}, cm, Some(data)).unwrap();
    assert_eq!(next_step(&mut vm), Ok(true));
    assert_eq!(acc(&vm), 0x1234);
}

#[test]
fn init_vm_starts_at_zero() {
    let vm = boot(vec![]);
    assert_eq!(vm.pc.pc, 0);
    assert!(!vm.pc.changed);
    for name in [
        RegisterName::Acc,
        RegisterName::Rg1,
        RegisterName::Rg2,
        RegisterName::Rg3,
        RegisterName::Rg4,
        RegisterName::Rg5,
    ] {
        assert_eq!(vm.registers.get(name).unwrap().as_u16(), 0);
    }
}

#[test]
fn countdown_loop_runs_to_completion() {
    // Rg1 counts 3, 2, 1; the loop exits when Acc (copied count) reaches 1.
    let program = assemble(&[
        "MOV 3",        // 0: Acc = 3
        "LRG rg1",      // 2: Rg1 = Acc
        "MOV 0",        // 4: Acc = 0
        "ADD rg1",      // 6: Acc += Rg1
        "SUB 1",        // 8: Acc -= 1
        "LRG rg1",      // 10: Rg1 = Acc
        "CMP 0",        // 12: Acc = ordering(Acc, 0): 1 while positive
        "JMPG 4",       // 14: loop while the count stays positive
    ]);
    let mut vm = boot(program);
    let mut steps = 0;
    while vm.pc.pc != 16 && steps < 100 {
        next_step(&mut vm).unwrap();
        steps += 1;
    }
    assert_eq!(vm.registers.get(RegisterName::Rg1).unwrap().as_u16(), 0);
    assert!(steps < 100);
}
