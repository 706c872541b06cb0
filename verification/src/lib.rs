//! A verified toy stored-program computer: a 16-bit instruction set, an
//! assembler for line-oriented text, a binary codec between instructions and
//! two-byte wire words, byte-addressable memories with snapshots, and a
//! fetch-decode-execute engine that advances the machine one instruction at a
//! time.

pub mod asm_decoder;
pub mod bin_decoder;
pub mod bin_encoder;
pub mod byte_formatter;
pub mod command;
pub mod command_memory;
pub mod data_memory;
pub mod errors;
pub mod operand;
pub mod program_counter;
pub mod register;
pub mod register_memory;
pub mod vm;
