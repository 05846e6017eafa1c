//! Register slots of the virtual machine.
use vstd::prelude::*;

verus! {

/// A register slot, identified by its index.
#[derive(PartialEq, Eq, Copy, Clone, Debug, Structural)]
pub struct Slot {
    slot_index: u8,
}

impl Slot {
    /// The slot with the given index.
    pub fn new(slot_index: u8) -> (s: Self)
        ensures
            s.spec_index() == slot_index,
    {
        Self { slot_index }
    }

    /// The index of the slot, in specifications.
    pub closed spec fn spec_index(&self) -> u8 {
        self.slot_index
    }

    /// The index of the slot.
    pub fn index(&self) -> (i: u8)
        ensures
            i == self.spec_index(),
    {
        self.slot_index
    }
}

impl From<u8> for Slot {
    fn from(slot_index: u8) -> (s: Self) {
        Slot { slot_index }
    }
}

impl vstd::std_specs::convert::FromSpecImpl<u8> for Slot {
    open spec fn obeys_from_spec() -> bool {
        true
    }

    closed spec fn from_spec(v: u8) -> Self {
        Slot { slot_index: v }
    }
}

/// Converting a `u8` into a slot keeps the index, as `Slot::new` does.
pub proof fn law_slot_from(index: u8)
    ensures
        <Slot as vstd::std_specs::convert::FromSpec<u8>>::from_spec(index).spec_index() == index,
{
}

} // verus!
