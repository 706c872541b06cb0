//! Registers: the closed set of register names, their numeric ids, and the
//! 16-bit cell a register holds.

use vstd::prelude::*;

verus! {

/// A register cell. The machine has only 16-bit registers.
#[derive(Debug, PartialEq, Eq, Structural)]
pub enum Register {
    R16(Register16),
}

/// A 16-bit register cell, mutable in place.
#[derive(Debug, PartialEq, Eq, Structural)]
pub struct Register16 {
    pub v: u16,
}

impl Register {
    /// The value this register holds.
    pub open spec fn spec_u16(self) -> u16 {
        match self {
            Register::R16(r) => r.v,
        }
    }

    /// Read the register's value.
    pub fn as_u16(&self) -> (r: u16)
        ensures
            r == self.spec_u16(),
    {
        match self {
            Register::R16(r) => r.v,
        }
    }

    /// Overwrite the register's value.
    pub fn put_u16(&mut self, new: u16)
        ensures
            *final(self) == (Register::R16(Register16 { v: new })),
    {
        match self {
            Register::R16(r) => r.v = new,
        }
    }
}

/// The closed set of register names. `Acc` is the implicit accumulator of the
/// arithmetic and comparison opcodes.
#[derive(Debug, Copy, Clone, Hash, PartialEq, Eq, Structural)]
pub enum RegisterName {
    Acc,
    Rg1,
    Rg2,
    Rg3,
    Rg4,
    Rg5,
}

impl RegisterName {
    /// The numeric id of this register in the binary encoding.
    pub open spec fn spec_id(self) -> u16 {
        match self {
            RegisterName::Acc => 1u16,
            RegisterName::Rg1 => 2u16,
            RegisterName::Rg2 => 3u16,
            RegisterName::Rg3 => 4u16,
            RegisterName::Rg4 => 5u16,
            RegisterName::Rg5 => 6u16,
        }
    }

    /// The numeric id of this register in the binary encoding.
    pub fn get_id(&self) -> (r: u16)
        ensures
            r == self.spec_id(),
    {
        match self {
            RegisterName::Acc => 1,
            RegisterName::Rg1 => 2,
            RegisterName::Rg2 => 3,
            RegisterName::Rg3 => 4,
            RegisterName::Rg4 => 5,
            RegisterName::Rg5 => 6,
        }
    }

    /// A fresh register cell for this name, holding zero.
    pub fn new_register(&self) -> (r: Register)
        ensures
            r.spec_u16() == 0,
    {
        Register::R16(Register16 { v: 0 })
    }
}

/// The register that carries a numeric id, or `None` when the id is not 1
/// through 6.
pub open spec fn spec_register_of_id(id: u16) -> Option<RegisterName> {
    if id == 1 {
        Some(RegisterName::Acc)
    } else if id == 2 {
        Some(RegisterName::Rg1)
    } else if id == 3 {
        Some(RegisterName::Rg2)
    } else if id == 4 {
        Some(RegisterName::Rg3)
    } else if id == 5 {
        Some(RegisterName::Rg4)
    } else if id == 6 {
        Some(RegisterName::Rg5)
    } else {
        None
    }
}

/// Look a numeric id up in the register table.
pub fn register_of_id(id: u16) -> (r: Option<RegisterName>)
    ensures
        r == spec_register_of_id(id),
{
    if id == 1 {
        Some(RegisterName::Acc)
    } else if id == 2 {
        Some(RegisterName::Rg1)
    } else if id == 3 {
        Some(RegisterName::Rg2)
    } else if id == 4 {
        Some(RegisterName::Rg3)
    } else if id == 5 {
        Some(RegisterName::Rg4)
    } else if id == 6 {
        Some(RegisterName::Rg5)
    } else {
        None
    }
}

/// The register table is a bijection between the six register names and the
/// ids 1 through 6.
pub proof fn lemma_register_id_bijection()
    ensures
        forall|n: RegisterName| spec_register_of_id(#[trigger] n.spec_id()) == Some(n),
        forall|id: u16| #[trigger] spec_register_of_id(id) is Some ==> spec_register_of_id(
            id,
        )->0.spec_id() == id,
{
}

} // verus!
