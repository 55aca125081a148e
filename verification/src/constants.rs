//! Fixed parameters of the emulated machine.

use vstd::prelude::*;

verus! {

/// Size of the flat byte-addressable RAM.
pub const SYSTEM_RAM: u16 = 4096;

/// Every instruction word is two bytes wide.
pub const OPCODE_SIZE: u16 = 2;

/// First address of the small (5 bytes per glyph) hexadecimal font.
pub const FONT_START_ADDR: u16 = 0x50;

/// First address of the large (10 bytes per glyph) SCHIP font.
pub const LARGE_FONT_START_ADDR: u16 = 0x50;

/// Programs are loaded and started at this address.
pub const PROGRAM_START_ADDR: u16 = 0x200;

/// A program image must be smaller than this many bytes.
pub const MAX_ROM_SIZE: usize = 3585;

/// Screen width in pixels outside of high-resolution mode.
pub const SCREEN_WIDTH: usize = 64;

/// Screen height in pixels outside of high-resolution mode.
pub const SCREEN_HEIGHT: usize = 32;

/// Screen width in pixels in SCHIP high-resolution mode.
pub const HIRES_SCREEN_WIDTH: usize = 128;

/// Screen height in pixels in SCHIP high-resolution mode.
pub const HIRES_SCREEN_HEIGHT: usize = 64;

/// The call stack holds at most this many return addresses.
pub const STACK_DEPTH: usize = 16;

/// Whether SCHIP semantics are enabled by default.
pub const SCHIP_MODE: bool = false;

/// Default instruction rate, in ticks per second, for the external driver.
pub const TARGET_CLOCK_SPEED: usize = 120;

} // verus!
