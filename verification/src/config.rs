//! Interpreter configuration and the driver's control states.

use vstd::prelude::*;

use crate::constants;

verus! {

/// The options the interpreter recognizes. `schip_mode` enables the
/// SCHIP-only opcodes and the variant ALU and block-transfer semantics;
/// `target_clock_speed` is the tick rate the external driver should pace
/// itself to; `max_rom_size` bounds what the loader accepts.
#[derive(Clone, Debug)]
pub struct EmulatorConfig {
    pub schip_mode: bool,
    pub quirks_mode: bool,
    pub debug_mode: bool,
    pub step_mode: bool,
    pub target_clock_speed: usize,
    pub max_rom_size: usize,
}

impl Default for EmulatorConfig {
    /// Base CHIP-8 semantics at the default clock rate.
    fn default() -> (r: EmulatorConfig)
        ensures
            r.schip_mode == constants::SCHIP_MODE,
            !r.quirks_mode,
            !r.debug_mode,
            !r.step_mode,
            r.target_clock_speed == constants::TARGET_CLOCK_SPEED,
            r.max_rom_size == constants::MAX_ROM_SIZE,
    {
        EmulatorConfig {
            schip_mode: constants::SCHIP_MODE,
            quirks_mode: false,
            debug_mode: false,
            step_mode: false,
            target_clock_speed: constants::TARGET_CLOCK_SPEED,
            max_rom_size: constants::MAX_ROM_SIZE,
        }
    }
}

/// What the driver decided after reading host input for one frame.
#[derive(Clone, Copy, Debug, PartialEq, Eq, Structural)]
pub enum EmulatorState {
    /// Leave the emulator.
    Quit,
    /// Return the interpreter to its power-on state.
    Reset,
    /// Keep executing normally.
    Running,
    /// Toggle stepwise debugging.
    DebugMode,
    /// Execute a single instruction while debugging.
    Step,
}

} // verus!
