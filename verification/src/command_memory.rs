//! The program store: the loaded program's raw bytes, addressed by position
//! and decoded into instructions on read. It is populated once at load time
//! and never mutated afterwards.

use vstd::prelude::*;
use crate::bin_decoder::{spec_parse_word, parse_word};
use crate::byte_formatter::ByteFormatter;
use crate::command::{Command, CommandType};
use crate::errors::DecodeError;
use crate::operand::Operand;

verus! {

/// The instruction at a zero word: reading past the loaded program always
/// yields this well-formed no-op rather than "no instruction".
pub open spec fn spec_zero_command() -> Command {
    Command { command_type: CommandType::NOP, operand: Operand::Literal(0u16) }
}

/// The program store. Byte `i` of the loaded image lives at address `i`;
/// addresses beyond the image read as zero.
pub struct CommandMemory<F: ByteFormatter> {
    data: Vec<u8>,
    bytes_formatter: F,
}

impl<F: ByteFormatter> CommandMemory<F> {
    /// The loaded program bytes, in address order.
    pub closed spec fn program(self) -> Seq<u8> {
        self.data@
    }

    /// The byte order this store decodes under.
    pub closed spec fn formatter(self) -> F {
        self.bytes_formatter
    }

    /// A program image fits the 16-bit address space.
    pub open spec fn wf(self) -> bool {
        self.program().len() <= 0x10000
    }

    /// The byte at a position: an image byte, or zero beyond the image.
    pub open spec fn spec_byte_at(self, i: int) -> u8 {
        if 0 <= i < self.program().len() {
            self.program()[i]
        } else {
            0
        }
    }

    /// The instruction fetched at an address: the two bytes at the address and
    /// its successor, decoded. Two zero bytes — in particular, any fetch past
    /// the loaded program — yield NOP with literal operand zero.
    pub open spec fn spec_get(self, address: u16) -> Result<Command, DecodeError> {
        let b0 = self.spec_byte_at(address as int);
        let b1 = self.spec_byte_at(address as int + 1);
        if b0 == 0 && b1 == 0 {
            Ok(spec_zero_command())
        } else {
            spec_parse_word(self.formatter().spec_wrap(b0, b1))
        }
    }

    /// Load a program image: byte `i` of `commands` is placed at address `i`.
    pub fn load(commands: Vec<u8>, bytes_formatter: F) -> (r: CommandMemory<F>)
        requires
            commands@.len() <= 0x10000,
        ensures
            r.program() == commands@,
            r.formatter() == bytes_formatter,
            r.wf(),
    {
        CommandMemory { data: commands, bytes_formatter }
    }

    /// Fetch and decode the instruction at an address. This never yields
    /// `Ok(None)`: a fetch past the loaded program reads zero bytes, which
    /// decode to NOP with literal operand zero.
    pub fn get(&self, address: u16) -> (r: Result<Option<Command>, DecodeError>)
        requires
            self.wf(),
        ensures
            r == match self.spec_get(address) {
                Ok(c) => Ok::<Option<Command>, DecodeError>(Some(c)),
                Err(e) => Err::<Option<Command>, DecodeError>(e),
            },
    {
        let first_byte = self.byte_at(address);
        let second_byte = if address < 0xFFFF {
            self.byte_at(address + 1)
        } else {
            0
        };

        if first_byte == 0 && second_byte == 0 {
            return Ok(Some(Command { command_type: CommandType::NOP, operand: Operand::Literal(0) }));
        }

        let word = self.bytes_formatter.wrap_bytes([first_byte, second_byte]);
        match parse_word(word) {
            Ok(cmd) => Ok(Some(cmd)),
            Err(e) => Err(e),
        }
    }

    /// Read one raw program byte; addresses beyond the image read as zero.
    fn byte_at(&self, address: u16) -> (r: u8)
        ensures
            r == self.spec_byte_at(address as int),
    {
        if (address as usize) < self.data.len() {
            self.data[address as usize]
        } else {
            0
        }
    }

    /// Any address at or past the loaded program reads as zero-backed: the
    /// fetch yields the well-formed NOP with literal operand zero.
    pub proof fn lemma_get_past_end(self, address: u16)
        requires
            self.program().len() <= address as int,
        ensures
            self.spec_get(address) == Ok::<Command, DecodeError>(spec_zero_command()),
    {
    }

    /// The listing of the first `k` instruction slots: each even address `2j`
    /// (`j < k`) whose word decodes, paired with its instruction, in address
    /// order. Slots that fail to decode are left out.
    pub open spec fn spec_listing(self, k: nat) -> Seq<(u16, Command)>
        decreases k,
    {
        if k == 0 {
            Seq::empty()
        } else {
            let a = (2 * (k - 1)) as u16;
            self.spec_listing((k - 1) as nat) + match self.spec_get(a) {
                Ok(c) => seq![(a, c)],
                Err(_) => Seq::empty(),
            }
        }
    }

    /// How many instruction slots the loaded image spans: one per started pair
    /// of bytes.
    pub open spec fn spec_slots(self) -> nat {
        ((self.program().len() + 1) / 2) as nat
    }

    /// Every loaded instruction with its address: each even address inside the
    /// image whose word decodes, in ascending address order.
    pub fn get_all(&self) -> (r: Vec<(u16, Command)>)
        requires
            self.wf(),
        ensures
            r@ == self.spec_listing(self.spec_slots()),
    {
        let mut res: Vec<(u16, Command)> = Vec::new();
        let mut address: usize = 0;
        let ghost mut k: nat = 0nat;

        while address < self.data.len()
            invariant
                self.wf(),
                address % 2 == 0,
                address == 2 * k,
                address <= self.program().len() + 1,
                res@ == self.spec_listing(k),
            decreases self.program().len() + 2 - address,
        {
            match self.get(address as u16) {
                Ok(Some(c)) => {
                    res.push((address as u16, c));
                },
                Ok(None) => {},
                Err(_) => {},
            }
            address = address + 2;
            proof {
                k = k + 1;
                if self.spec_get((2 * (k - 1)) as u16) is Ok {
                    assert(res@ =~= self.spec_listing((k - 1) as nat) + seq![
                        (
                            (2 * (k - 1)) as u16,
                            self.spec_get((2 * (k - 1)) as u16)->Ok_0,
                        ),
                    ]);
                } else {
                    assert(res@ =~= self.spec_listing((k - 1) as nat) + Seq::<(u16, Command)>::empty());
                }
            }
        }
        proof {
            assert(k == self.spec_slots());
        }
        res
    }
}

} // verus!
