//! The sixteen general-purpose 8-bit registers `V0`..`VF`.
//!
//! `VF` is an ordinary slot here: most opcodes treat it as a reserved flags
//! output, but a few (register-to-register shifts among them) read and write
//! it like any other register, so the register file itself draws no
//! distinction.

use vstd::prelude::*;

verus! {

/// Number of general registers.
pub const REGISTER_COUNT: usize = 16;

/// A pure data container for the sixteen registers; no side effects.
#[derive(Debug)]
pub struct Registers {
    data: Vec<u8>,
}

impl View for Registers {
    type V = Seq<u8>;

    closed spec fn view(&self) -> Seq<u8> {
        self.data@
    }
}

impl Registers {
    /// There are always exactly sixteen registers.
    pub open spec fn wf(&self) -> bool {
        self@.len() == REGISTER_COUNT as int
    }

    pub fn new() -> (r: Registers)
        ensures
            r.wf(),
            forall|i: int| 0 <= i < REGISTER_COUNT as int ==> r@[i] == 0u8,
    {
        Registers { data: crate::memory::make_bytes(REGISTER_COUNT, 0u8) }
    }

    pub fn read(&self, register: u8) -> (r: u8)
        requires
            self.wf(),
            (register as int) < REGISTER_COUNT as int,
        ensures
            r == self@[register as int],
    {
        self.data[register as usize]
    }

    pub fn write(&mut self, register: u8, value: u8)
        requires
            old(self).wf(),
            (register as int) < REGISTER_COUNT as int,
        ensures
            final(self).wf(),
            final(self)@ == old(self)@.update(register as int, value),
    {
        self.data.set(register as usize, value);
    }

    pub fn clear(&mut self)
        requires
            old(self).wf(),
        ensures
            final(self).wf(),
            forall|i: int| 0 <= i < REGISTER_COUNT as int ==> final(self)@[i] == 0u8,
    {
        self.data = crate::memory::make_bytes(REGISTER_COUNT, 0u8);
    }
}

} // verus!
