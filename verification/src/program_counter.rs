//! The program counter.

use vstd::prelude::*;

use crate::constants::{OPCODE_SIZE, PROGRAM_START_ADDR};

verus! {

/// Points at the next instruction to fetch. Starts at the program load
/// address, advances by one instruction width per fetch, and can be set
/// directly by jumps, calls and returns.
#[derive(Debug)]
pub struct ProgramCounter {
    pub address: u16,
}

impl ProgramCounter {
    pub fn new() -> (r: ProgramCounter)
        ensures
            r.address == PROGRAM_START_ADDR,
    {
        ProgramCounter { address: PROGRAM_START_ADDR }
    }

    /// Advance past one instruction, wrapping at the top of the 16-bit
    /// address space.
    pub fn next(&mut self)
        ensures
            final(self).address == (old(self).address + OPCODE_SIZE) % 0x10000,
    {
        self.address = self.address.wrapping_add(OPCODE_SIZE);
    }

    pub fn jump(&mut self, jump_addr: u16)
        ensures
            final(self).address == jump_addr,
    {
        self.address = jump_addr;
    }

    pub fn reset(&mut self)
        ensures
            final(self).address == PROGRAM_START_ADDR,
    {
        self.address = PROGRAM_START_ADDR;
    }
}

} // verus!
