//! The register file: one 16-bit cell per register name, fixed at
//! construction, all starting at zero. The register set is closed, so lookup
//! never misses.

use vstd::prelude::*;
use crate::register::{Register, Register16, RegisterName};

verus! {

/// The fixed register file, one cell per name.
pub struct RegisterMemory {
    pub acc: Register,
    pub rg1: Register,
    pub rg2: Register,
    pub rg3: Register,
    pub rg4: Register,
    pub rg5: Register,
}

impl RegisterMemory {
    /// The cell a name addresses.
    pub open spec fn spec_cell(self, id: RegisterName) -> Register {
        match id {
            RegisterName::Acc => self.acc,
            RegisterName::Rg1 => self.rg1,
            RegisterName::Rg2 => self.rg2,
            RegisterName::Rg3 => self.rg3,
            RegisterName::Rg4 => self.rg4,
            RegisterName::Rg5 => self.rg5,
        }
    }

    /// The value a name's cell holds.
    pub open spec fn spec_get(self, id: RegisterName) -> u16 {
        self.spec_cell(id).spec_u16()
    }

    /// The file with one cell replaced; the other five keep their values.
    pub open spec fn spec_set_cell(self, id: RegisterName, cell: Register) -> RegisterMemory {
        match id {
            RegisterName::Acc => RegisterMemory { acc: cell, ..self },
            RegisterName::Rg1 => RegisterMemory { rg1: cell, ..self },
            RegisterName::Rg2 => RegisterMemory { rg2: cell, ..self },
            RegisterName::Rg3 => RegisterMemory { rg3: cell, ..self },
            RegisterName::Rg4 => RegisterMemory { rg4: cell, ..self },
            RegisterName::Rg5 => RegisterMemory { rg5: cell, ..self },
        }
    }

    /// The file with one register set to a value; the other five keep theirs.
    pub open spec fn spec_set(self, id: RegisterName, v: u16) -> RegisterMemory {
        self.spec_set_cell(id, Register::R16(Register16 { v }))
    }

    /// Replacing one cell is observed by reads: the named register holds
    /// exactly the written cell's value, and every other register keeps its
    /// value. This holds for `spec_set` too, which is one `spec_set_cell`.
    pub proof fn lemma_set_cell_get(self, id: RegisterName, cell: Register)
        ensures
            self.spec_set_cell(id, cell).spec_get(id) == cell.spec_u16(),
            forall|other: RegisterName| other != id ==> self.spec_set_cell(id, cell).spec_get(
                other,
            ) == self.spec_get(other),
    {
        assert forall|other: RegisterName| other != id implies self.spec_set_cell(
            id,
            cell,
        ).spec_get(other) == self.spec_get(other) by {
            match id {
                RegisterName::Acc => {},
                RegisterName::Rg1 => {},
                RegisterName::Rg2 => {},
                RegisterName::Rg3 => {},
                RegisterName::Rg4 => {},
                RegisterName::Rg5 => {},
            }
        }
    }

    /// A fresh register file, every register holding zero.
    pub fn new() -> (r: RegisterMemory)
        ensures
            forall|id: RegisterName| r.spec_get(id) == 0,
    {
        let r = RegisterMemory {
            acc: RegisterName::Acc.new_register(),
            rg1: RegisterName::Rg1.new_register(),
            rg2: RegisterName::Rg2.new_register(),
            rg3: RegisterName::Rg3.new_register(),
            rg4: RegisterName::Rg4.new_register(),
            rg5: RegisterName::Rg5.new_register(),
        };
        proof {
            assert forall|id: RegisterName| r.spec_get(id) == 0 by {
                match id {
                    RegisterName::Acc => {},
                    RegisterName::Rg1 => {},
                    RegisterName::Rg2 => {},
                    RegisterName::Rg3 => {},
                    RegisterName::Rg4 => {},
                    RegisterName::Rg5 => {},
                }
            }
        }
        r
    }

    /// Borrow the cell a name addresses. The register set is closed, so the
    /// lookup always succeeds.
    pub fn get(&self, id: RegisterName) -> (r: Option<&Register>)
        ensures
            r matches Some(cell) && *cell == self.spec_cell(id),
    {
        match id {
            RegisterName::Acc => Some(&self.acc),
            RegisterName::Rg1 => Some(&self.rg1),
            RegisterName::Rg2 => Some(&self.rg2),
            RegisterName::Rg3 => Some(&self.rg3),
            RegisterName::Rg4 => Some(&self.rg4),
            RegisterName::Rg5 => Some(&self.rg5),
        }
    }

    /// Borrow a cell mutably. The register set is closed, so the lookup always
    /// succeeds; what the caller writes through the borrow lands in exactly
    /// that cell and is observed by every later read. Unlike `get`, no
    /// `Option` wraps the borrow: the write-back relation is stated on the
    /// borrow itself.
    pub fn get_mut(&mut self, id: RegisterName) -> (r: &mut Register)
        ensures
            *r == old(self).spec_cell(id),
            *final(self) == old(self).spec_set_cell(id, *final(r)),
    {
        match id {
            RegisterName::Acc => &mut self.acc,
            RegisterName::Rg1 => &mut self.rg1,
            RegisterName::Rg2 => &mut self.rg2,
            RegisterName::Rg3 => &mut self.rg3,
            RegisterName::Rg4 => &mut self.rg4,
            RegisterName::Rg5 => &mut self.rg5,
        }
    }

    /// Every register with its current value, in id order.
    pub fn get_all(&self) -> (r: Vec<(RegisterName, u16)>)
        ensures
            r@ == seq![
                (RegisterName::Acc, self.spec_get(RegisterName::Acc)),
                (RegisterName::Rg1, self.spec_get(RegisterName::Rg1)),
                (RegisterName::Rg2, self.spec_get(RegisterName::Rg2)),
                (RegisterName::Rg3, self.spec_get(RegisterName::Rg3)),
                (RegisterName::Rg4, self.spec_get(RegisterName::Rg4)),
                (RegisterName::Rg5, self.spec_get(RegisterName::Rg5)),
            ],
    {
        let mut res: Vec<(RegisterName, u16)> = Vec::new();
        res.push((RegisterName::Acc, self.acc.as_u16()));
        res.push((RegisterName::Rg1, self.rg1.as_u16()));
        res.push((RegisterName::Rg2, self.rg2.as_u16()));
        res.push((RegisterName::Rg3, self.rg3.as_u16()));
        res.push((RegisterName::Rg4, self.rg4.as_u16()));
        res.push((RegisterName::Rg5, self.rg5.as_u16()));
        proof {
            assert(res@ =~= seq![
                (RegisterName::Acc, self.spec_get(RegisterName::Acc)),
                (RegisterName::Rg1, self.spec_get(RegisterName::Rg1)),
                (RegisterName::Rg2, self.spec_get(RegisterName::Rg2)),
                (RegisterName::Rg3, self.spec_get(RegisterName::Rg3)),
                (RegisterName::Rg4, self.spec_get(RegisterName::Rg4)),
                (RegisterName::Rg5, self.spec_get(RegisterName::Rg5)),
            ]);
        }
        res
    }
}

} // verus!
