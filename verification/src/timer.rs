//! The 8-bit countdown timers.
//!
//! Two independent instances (delay and sound) are owned by the interpreter
//! core. A timer only ever counts down, one step per tick, stopping at
//! zero; it is raised only by an explicit `set_value`.

use vstd::prelude::*;

verus! {

/// A saturating 8-bit downward counter.
#[derive(Debug)]
pub struct Timer {
    value: u8,
}

impl Timer {
    pub closed spec fn spec_value(&self) -> u8 {
        self.value
    }

    pub fn new() -> (r: Timer)
        ensures
            r.spec_value() == 0u8,
    {
        Timer { value: 0 }
    }

    pub fn get_value(&self) -> (r: u8)
        ensures
            r == self.spec_value(),
    {
        self.value
    }

    pub fn set_value(&mut self, value: u8)
        ensures
            final(self).spec_value() == value,
    {
        self.value = value;
    }

    pub fn clear(&mut self)
        ensures
            final(self).spec_value() == 0u8,
    {
        self.value = 0;
    }

    /// One tick: count down by one, never below zero, never up.
    pub fn decrement_if_positive(&mut self)
        ensures
            final(self).spec_value() == tick_down(old(self).spec_value()),
    {
        if self.value > 0 {
            self.value = self.value - 1;
        }
    }
}

/// The value of a timer after one tick.
pub open spec fn tick_down(v: u8) -> u8 {
    if v > 0 {
        (v - 1) as u8
    } else {
        0u8
    }
}

} // verus!
