//! A CHIP-8 virtual machine core with SCHIP 1.1 extensions: addressable
//! memory, a register file, a monochrome framebuffer with XOR compositing,
//! timers, a keypad latch and the instruction decode/execute engine, each
//! with a machine-checked contract.

pub mod constants;
pub mod input_buffer;
pub mod memory;
pub mod program_counter;
pub mod registers;
pub mod stack;
pub mod timer;
pub mod video;
pub mod fonts;
pub mod decode;
pub mod semantics;
pub mod utils;
pub mod cpu;
pub mod laws;
pub mod config;
pub mod tape;

use vstd::prelude::*;

verus! {

/// A structural failure of the running program: these conditions indicate a
/// malformed or unsupported program and are surfaced to the caller rather
/// than clamped.
#[derive(Clone, Copy, Debug, PartialEq, Eq, Structural)]
pub enum Fault {
    /// A call was made with sixteen return addresses already pending.
    StackOverflow,
    /// A return was executed with no pending return address.
    StackUnderflow,
    /// An instruction fetch or a data transfer reached past the end of RAM.
    AddressOutOfRange,
    /// A key-skip instruction named a key outside the sixteen-key pad.
    KeyOutOfRange,
    /// A program image larger than the loader's limit was offered.
    RomTooLarge,
}

} // verus!
