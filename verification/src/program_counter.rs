//! The program counter: the current fetch address and a flag recording
//! whether an instruction assigned a new address during the current step.

use vstd::prelude::*;

verus! {

/// The fetch address, plus a flag that is reset at the start of every step and
/// set by any explicit assignment of a new address (a taken branch). While the
/// flag is clear at the end of a step, the engine auto-increments the address.
#[derive(Debug, PartialEq, Eq, Structural)]
pub struct ProgramCounter {
    pub pc: u16,
    pub changed: bool,
}

impl Default for ProgramCounter {
    /// The initial counter: address zero, flag clear.
    fn default() -> (r: Self)
        ensures
            r == (ProgramCounter { pc: 0u16, changed: false }),
    {
        ProgramCounter { pc: 0, changed: false }
    }
}

impl ProgramCounter {
    /// Assign a new fetch address explicitly, marking the counter as changed.
    pub fn set(&mut self, v: u16)
        ensures
            *final(self) == (ProgramCounter { pc: v, changed: true }),
    {
        self.pc = v;
        self.changed = true;
    }

    /// Clear the changed flag, leaving the address alone.
    pub fn reset_flag(&mut self)
        ensures
            *final(self) == (ProgramCounter { pc: old(self).pc, changed: false }),
    {
        self.changed = false;
    }
}

} // verus!
