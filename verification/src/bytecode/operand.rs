//! Operands of instructions.
use vstd::prelude::*;
use crate::bytecode::slot::Slot;

verus! {

/// An operand to an instruction, usually a slot.
#[derive(PartialEq, Eq, Copy, Clone, Debug, Structural)]
pub struct Operand {
    slot: Slot,
}

impl Operand {
    /// The operand naming the given slot.
    pub fn new(slot: Slot) -> (o: Self)
        ensures
            o.spec_slot() == slot,
    {
        Self { slot }
    }

    /// The slot of the operand, in specifications.
    pub closed spec fn spec_slot(&self) -> Slot {
        self.slot
    }

    /// The slot of the operand.
    pub fn slot(&self) -> (s: Slot)
        ensures
            s == self.spec_slot(),
    {
        self.slot
    }
}

impl From<Slot> for Operand {
    fn from(slot: Slot) -> (o: Self) {
        Self { slot }
    }
}

impl vstd::std_specs::convert::FromSpecImpl<Slot> for Operand {
    open spec fn obeys_from_spec() -> bool {
        true
    }

    closed spec fn from_spec(v: Slot) -> Self {
        Operand { slot: v }
    }
}

/// Converting a slot into an operand keeps the slot, as `Operand::new` does.
pub proof fn law_operand_from(slot: Slot)
    ensures
        <Operand as vstd::std_specs::convert::FromSpec<Slot>>::from_spec(slot).spec_slot() == slot,
{
}

} // verus!
