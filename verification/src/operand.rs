//! Operands: a literal 16-bit value or a named register, and the two-bit tag
//! that tells them apart in the binary encoding.

use vstd::prelude::*;
use crate::register::RegisterName;

verus! {

/// An instruction operand: either a literal value or a register reference.
#[derive(Debug, Copy, Clone, PartialEq, Eq, Structural)]
pub enum Operand {
    Literal(u16),
    Register(RegisterName),
}

/// The shape of an operand, used only in the binary encoding.
#[derive(Debug, Copy, Clone, PartialEq, Eq, Structural)]
pub enum OperandTag {
    Literal,
    Register,
}

impl Operand {
    /// The tag of this operand's shape.
    pub open spec fn spec_tag(self) -> OperandTag {
        match self {
            Operand::Literal(_) => OperandTag::Literal,
            Operand::Register(_) => OperandTag::Register,
        }
    }

    /// The tag of this operand's shape.
    pub fn tag(&self) -> (r: OperandTag)
        ensures
            r == self.spec_tag(),
    {
        match self {
            Operand::Literal(_) => OperandTag::Literal,
            Operand::Register(_) => OperandTag::Register,
        }
    }
}

impl OperandTag {
    /// The numeric code of this tag in the binary encoding.
    pub open spec fn spec_id(self) -> u16 {
        match self {
            OperandTag::Literal => 1u16,
            OperandTag::Register => 2u16,
        }
    }

    /// The numeric code of this tag in the binary encoding.
    pub fn get_id(&self) -> (r: u16)
        ensures
            r == self.spec_id(),
    {
        match self {
            OperandTag::Literal => 1,
            OperandTag::Register => 2,
        }
    }
}

/// The tag that carries a numeric code, or `None` when the code is not 1 or 2.
pub open spec fn spec_tag_of_id(id: u16) -> Option<OperandTag> {
    if id == 1 {
        Some(OperandTag::Literal)
    } else if id == 2 {
        Some(OperandTag::Register)
    } else {
        None
    }
}

/// Look a numeric code up in the operand-tag table.
pub fn tag_of_id(id: u16) -> (r: Option<OperandTag>)
    ensures
        r == spec_tag_of_id(id),
{
    if id == 1 {
        Some(OperandTag::Literal)
    } else if id == 2 {
        Some(OperandTag::Register)
    } else {
        None
    }
}

/// The operand-tag table is a bijection between the two tags and the codes 1
/// and 2.
pub proof fn lemma_tag_id_bijection()
    ensures
        forall|t: OperandTag| spec_tag_of_id(#[trigger] t.spec_id()) == Some(t),
        forall|id: u16| #[trigger] spec_tag_of_id(id) is Some ==> spec_tag_of_id(id)->0.spec_id()
            == id,
{
}

} // verus!
