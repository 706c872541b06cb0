//! The execution engine: machine state and the step operation that advances
//! the machine by exactly one instruction per call.

use vstd::prelude::*;
use crate::byte_formatter::ByteFormatter;
use crate::command::{Command, CommandType};
use crate::command_memory::CommandMemory;
use crate::data_memory::{spec_read, spec_wrap_add, DataMemory};
use crate::errors::ExecutionError;
use crate::operand::Operand;
use crate::program_counter::ProgramCounter;
use crate::register::RegisterName;
use crate::register_memory::RegisterMemory;

verus! {

/// The whole machine: program store, data store, register file, program
/// counter, and the byte order used for data words. The program store is
/// immutable after load; everything else is mutated only by `next_step`.
pub struct VmState<F: ByteFormatter> {
    pub command_memory: CommandMemory<F>,
    pub data_memory: DataMemory,
    pub registers: RegisterMemory,
    pub pc: ProgramCounter,
    pub bytes_formatter: F,
}

/// The mutable part of the machine, as mathematical values: what one step may
/// change.
pub ghost struct VmSnapshot {
    pub data: Map<u16, u8>,
    pub registers: RegisterMemory,
    pub pc: ProgramCounter,
}

/// The counter after an ordinary instruction: advanced by one instruction
/// width (two bytes, wrapping at the end of the address space), flag clear.
pub open spec fn spec_advanced(pc0: u16) -> ProgramCounter {
    ProgramCounter { pc: spec_wrap_add(pc0, 2), changed: false }
}

/// The counter after a taken branch: the branch target, flag set.
pub open spec fn spec_jumped(target: u16) -> ProgramCounter {
    ProgramCounter { pc: target, changed: true }
}

/// Addition on the accumulator wraps modulo 2^16 (two's-complement signed
/// addition has the same bits).
pub open spec fn spec_wrap_add16(a: u16, b: u16) -> u16 {
    ((a + b) % 0x10000) as u16
}

/// Subtraction on the accumulator wraps modulo 2^16, mirroring the wraparound
/// policy of addition.
pub open spec fn spec_wrap_sub16(a: u16, b: u16) -> u16 {
    (((a - b) % 0x10000 + 0x10000) % 0x10000) as u16
}

/// The comparison result CMP stores: the ordering of the accumulator against
/// the operand value, as the unsigned 16-bit encoding of signed -1, 0, or 1.
pub open spec fn spec_compare(acc: u16, value: u16) -> u16 {
    if acc < value {
        0xFFFFu16
    } else if acc == value {
        0u16
    } else {
        1u16
    }
}

impl<F: ByteFormatter> VmState<F> {
    /// The machine's program image fits the address space.
    pub open spec fn wf(self) -> bool {
        self.command_memory.wf()
    }

    /// The mutable part of the machine, as mathematical values.
    pub open spec fn snapshot(self) -> VmSnapshot {
        VmSnapshot { data: self.data_memory@, registers: self.registers, pc: self.pc }
    }

    /// The 16-bit value an operand denotes: a literal's value, or the current
    /// content of the named register.
    pub open spec fn spec_operand_value(self, op: Operand) -> u16 {
        match op {
            Operand::Literal(v) => v,
            Operand::Register(name) => self.registers.spec_get(name),
        }
    }

    /// The effect of one instruction on this machine, before any
    /// auto-increment: data, registers, and — only for a taken branch — the
    /// program counter.
    pub open spec fn spec_dispatch(self, command: Command) -> Result<VmSnapshot, ExecutionError> {
        let value = self.spec_operand_value(command.operand);
        let acc = self.registers.spec_get(RegisterName::Acc);
        let data = self.data_memory@;
        let same = VmSnapshot { data, registers: self.registers, pc: self.pc };
        match command.command_type {
            CommandType::NOP => Ok(same),
            CommandType::JMP => Ok(VmSnapshot { pc: spec_jumped(value), ..same }),
            CommandType::ADD => Ok(
                VmSnapshot {
                    registers: self.registers.spec_set(
                        RegisterName::Acc,
                        spec_wrap_add16(acc, value),
                    ),
                    ..same
                },
            ),
            CommandType::SUB => Ok(
                VmSnapshot {
                    registers: self.registers.spec_set(
                        RegisterName::Acc,
                        spec_wrap_sub16(acc, value),
                    ),
                    ..same
                },
            ),
            CommandType::LAC => Ok(
                VmSnapshot {
                    registers: self.registers.spec_set(
                        RegisterName::Acc,
                        self.bytes_formatter.spec_wrap(
                            spec_read(data, value),
                            spec_read(data, spec_wrap_add(value, 1)),
                        ),
                    ),
                    ..same
                },
            ),
            CommandType::DAC => Ok(
                VmSnapshot {
                    data: data.insert(value, self.bytes_formatter.spec_unwrap(acc).0).insert(
                        spec_wrap_add(value, 1),
                        self.bytes_formatter.spec_unwrap(acc).1,
                    ),
                    ..same
                },
            ),
            CommandType::CMP => Ok(
                VmSnapshot {
                    registers: self.registers.spec_set(RegisterName::Acc, spec_compare(acc, value)),
                    ..same
                },
            ),
            CommandType::MOV => Ok(
                VmSnapshot {
                    registers: self.registers.spec_set(RegisterName::Acc, value),
                    ..same
                },
            ),
            CommandType::LRG => match command.operand {
                Operand::Literal(_) => Err(ExecutionError::InvalidLrgCommand),
                Operand::Register(target) => Ok(
                    VmSnapshot { registers: self.registers.spec_set(target, acc), ..same },
                ),
            },
            CommandType::JMPG => Ok(
                if acc == 1 {
                    VmSnapshot { pc: spec_jumped(value), ..same }
                } else {
                    same
                },
            ),
            CommandType::JMPNG => Ok(
                if acc != 1 {
                    VmSnapshot { pc: spec_jumped(value), ..same }
                } else {
                    same
                },
            ),
            CommandType::MULT => Err(ExecutionError::UnsupportedOpcode),
        }
    }

    /// What one step does, as a function of the current machine state: the
    /// next snapshot, or the error that aborts the step.
    ///
    /// A step clears the counter's changed flag, fetches the instruction at
    /// the counter, applies the instruction's effect, and — unless the
    /// instruction assigned the counter itself — advances the counter by two.
    pub open spec fn spec_step(self) -> Result<VmSnapshot, ExecutionError> {
        let pc0 = self.pc.pc;
        let cleared = VmState { pc: ProgramCounter { pc: pc0, changed: false }, ..self };
        match self.command_memory.spec_get(pc0) {
            Err(e) => Err(ExecutionError::Decode(e)),
            Ok(command) => match cleared.spec_dispatch(command) {
                Err(e) => Err(e),
                Ok(snap) => Ok(
                    if snap.pc.changed {
                        snap
                    } else {
                        VmSnapshot { pc: spec_advanced(snap.pc.pc), ..snap }
                    },
                ),
            },
        }
    }
}

/// Build the initial machine: the given program store and optional data
/// snapshot, a zeroed register file, and a counter at address zero with the
/// flag clear.
pub fn init_vm<F: ByteFormatter>(
    bytes_formatter: F,
    command_memory: CommandMemory<F>,
    data_memory: Option<DataMemory>,
) -> (r: Result<VmState<F>, ExecutionError>)
    requires
        command_memory.wf(),
    ensures
        r matches Ok(vm) && {
            &&& vm.command_memory == command_memory
            &&& vm.bytes_formatter == bytes_formatter
            &&& vm.data_memory@ == match data_memory {
                Some(d) => d@,
                None => Map::<u16, u8>::empty(),
            }
            &&& forall|id: RegisterName| vm.registers.spec_get(id) == 0
            &&& vm.pc == (ProgramCounter { pc: 0u16, changed: false })
            &&& vm.wf()
        },
{
    let registers = RegisterMemory::new();
    let pc = ProgramCounter::default();

    Ok(
        VmState {
            command_memory,
            data_memory: match data_memory {
                Some(d) => d,
                None => DataMemory::default(),
            },
            registers,
            pc,
            bytes_formatter,
        },
    )
}

/// Read the accumulator. The register set is closed, so the lookup always
/// succeeds.
fn read_acc<F: ByteFormatter>(state: &VmState<F>) -> (r: u16)
    ensures
        r == state.registers.spec_get(RegisterName::Acc),
{
    match state.registers.get(RegisterName::Acc) {
        Some(cell) => cell.as_u16(),
        None => {
            proof {
                assert(false);
            }
            0
        },
    }
}

/// Apply one instruction's effect to the machine: everything `next_step` does
/// between the fetch and the auto-increment.
fn dispatch<F: ByteFormatter>(state: &mut VmState<F>, command: Command) -> (r: Result<
    (),
    ExecutionError,
>)
    ensures
        final(state).command_memory == old(state).command_memory,
        final(state).bytes_formatter == old(state).bytes_formatter,
        match old(state).spec_dispatch(command) {
            Ok(snap) => r is Ok && final(state).snapshot() == snap,
            Err(e) => r == Err::<(), ExecutionError>(e) && final(state).snapshot() == old(
                state,
            ).snapshot(),
        },
{
    let value = match command.operand {
        Operand::Literal(v) => v,
        Operand::Register(register_id) => match state.registers.get(register_id) {
            Some(cell) => cell.as_u16(),
            None => {
                proof {
                    assert(false);
                }
                0
            },
        },
    };

    match command.command_type {
        CommandType::NOP => {},
        CommandType::JMP => {
            state.pc.set(value);
        },
        CommandType::ADD => {
            let acc = state.registers.get_mut(RegisterName::Acc);
            let sum = acc.as_u16().wrapping_add(value);
            acc.put_u16(sum);
        },
        CommandType::SUB => {
            let acc = state.registers.get_mut(RegisterName::Acc);
            let diff = acc.as_u16().wrapping_sub(value);
            acc.put_u16(diff);
        },
        CommandType::LAC => {
            let lo = state.data_memory.get(value);
            let hi = state.data_memory.get(
                if value == 0xFFFF {
                    0
                } else {
                    value + 1
                },
            );
            let word = state.bytes_formatter.wrap_bytes([lo, hi]);
            let acc = state.registers.get_mut(RegisterName::Acc);
            acc.put_u16(word);
        },
        CommandType::DAC => {
            let acc_value = read_acc(state);
            let bytes = state.bytes_formatter.unwrap_bytes(acc_value);
            let ghost data0 = state.data_memory@;
            state.data_memory.put_bytes(value, bytes.as_slice());
            proof {
                crate::data_memory::lemma_put_bytes_pair(data0, value, bytes@);
            }
        },
        CommandType::CMP => {
            let acc = state.registers.get_mut(RegisterName::Acc);
            let acc_value = acc.as_u16();
            let res: u16 = if acc_value < value {
                0xFFFF
            } else if acc_value == value {
                0
            } else {
                1
            };
            acc.put_u16(res);
        },
        CommandType::MOV => {
            let acc = state.registers.get_mut(RegisterName::Acc);
            acc.put_u16(value);
        },
        CommandType::LRG => {
            match command.operand {
                Operand::Literal(_) => {
                    return Err(ExecutionError::InvalidLrgCommand);
                },
                Operand::Register(target) => {
                    let acc_value = read_acc(state);
                    let cell = state.registers.get_mut(target);
                    cell.put_u16(acc_value);
                },
            }
        },
        CommandType::JMPG => {
            let acc_value = read_acc(state);
            if acc_value == 1 {
                state.pc.set(value);
            }
        },
        CommandType::JMPNG => {
            let acc_value = read_acc(state);
            if acc_value != 1 {
                state.pc.set(value);
            }
        },
        CommandType::MULT => {
            return Err(ExecutionError::UnsupportedOpcode);
        },
    }
    Ok(())
}

/// After a step that executes a non-branching instruction — NOP, ADD, SUB,
/// LAC, DAC, CMP, MOV, or LRG with a register operand — the program counter
/// has advanced by exactly two (wrapping at the end of the address space) and
/// its changed flag is clear.
pub proof fn lemma_step_auto_increment<F: ByteFormatter>(s: VmState<F>)
    requires
        s.command_memory.spec_get(s.pc.pc) matches Ok(c) && match c.command_type {
            CommandType::NOP
            | CommandType::ADD
            | CommandType::SUB
            | CommandType::LAC
            | CommandType::DAC
            | CommandType::CMP
            | CommandType::MOV => true,
            CommandType::LRG => c.operand is Register,
            _ => false,
        },
    ensures
        s.spec_step() matches Ok(snap) && snap.pc == spec_advanced(s.pc.pc),
{
}

/// After a step that executes JMP, the program counter holds the operand's
/// resolved value and its changed flag is set.
pub proof fn lemma_step_jmp<F: ByteFormatter>(s: VmState<F>)
    requires
        s.command_memory.spec_get(s.pc.pc) matches Ok(c) && c.command_type == CommandType::JMP,
    ensures
        s.spec_step() matches Ok(snap) && {
            let c = s.command_memory.spec_get(s.pc.pc)->Ok_0;
            snap.pc == spec_jumped(s.spec_operand_value(c.operand))
        },
{
}

/// Advance the machine by exactly one instruction.
///
/// On success the machine holds the snapshot `spec_step` describes and the
/// call returns `Ok(true)` — the program store never yields "nothing to
/// execute", so every successful step executes an instruction. On failure the
/// machine is unchanged except for the counter's changed flag, which every
/// step clears first.
pub fn next_step<F: ByteFormatter>(state: &mut VmState<F>) -> (r: Result<bool, ExecutionError>)
    requires
        old(state).wf(),
    ensures
        final(state).command_memory == old(state).command_memory,
        final(state).bytes_formatter == old(state).bytes_formatter,
        final(state).wf(),
        match old(state).spec_step() {
            Ok(snap) => r == Ok::<bool, ExecutionError>(true) && final(state).snapshot() == snap,
            Err(e) => r == Err::<bool, ExecutionError>(e) && final(state).snapshot() == (VmSnapshot {
                pc: ProgramCounter { pc: old(state).pc.pc, changed: false },
                ..old(state).snapshot()
            }),
        },
{
    state.pc.reset_flag();

    let command = match state.command_memory.get(state.pc.pc) {
        Ok(Some(c)) => c,
        Ok(None) => {
            proof {
                assert(false);
            }
            return Err(ExecutionError::UnsupportedOpcode);
        },
        Err(e) => {
            return Err(ExecutionError::Decode(e));
        },
    };

    match dispatch(state, command) {
        Ok(()) => {},
        Err(e) => {
            return Err(e);
        },
    }

    if !state.pc.changed {
        // Auto-increment by the instruction width, wrapping at the end of the
        // address space. The address is assigned directly: only an explicit
        // branch sets the changed flag.
        state.pc.pc = if state.pc.pc >= 0xFFFE {
            (state.pc.pc - 0xFFFE) as u16
        } else {
            state.pc.pc + 2
        };
    }
    Ok(true)
}

} // verus!
