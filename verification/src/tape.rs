//! The program-image carrier.
//!
//! Holds a ROM image and the simulated-transfer settings. Reading an
//! image from disk and writing one back are I/O concerns of the driver;
//! this type only carries the bytes between the loader and the core.

use vstd::prelude::*;

verus! {

/// A loaded program image with its transfer settings.
#[derive(Debug)]
pub struct Tape {
    /// The program bytes.
    pub rom: Vec<u8>,
    /// Length of the image in bytes.
    pub size: usize,
    /// Simulated transfer rate in bytes per second.
    pub baud: usize,
    /// Whether the driver should sleep to simulate transfer timing.
    pub sim_timing: bool,
}

impl Tape {
    /// An empty tape at the default transfer rate.
    pub fn new() -> (r: Tape)
        ensures
            r.rom@ == Seq::<u8>::empty(),
            r.size == 0,
            r.baud == 750,
            !r.sim_timing,
    {
        let rom: Vec<u8> = Vec::new();
        proof {
            assert(rom@ =~= Seq::<u8>::empty());
        }
        Tape { rom, size: 0, baud: 750, sim_timing: false }
    }
}

} // verus!
