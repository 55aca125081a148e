//! Small helpers shared by the executor.

use vstd::prelude::*;

use crate::semantics::spec_bit;

verus! {

/// The bit of `byte` at `bit_position` (counted from the least
/// significant), as 0 or 1; positions past the byte read as 0.
pub fn read_bit_from_byte(byte: u8, bit_position: u8) -> (r: u8)
    ensures
        r == spec_bit(byte, bit_position as int),
        r <= 1u8,
{
    let weight: u8 = if bit_position == 0 {
        1
    } else if bit_position == 1 {
        2
    } else if bit_position == 2 {
        4
    } else if bit_position == 3 {
        8
    } else if bit_position == 4 {
        16
    } else if bit_position == 5 {
        32
    } else if bit_position == 6 {
        64
    } else if bit_position == 7 {
        128
    } else {
        0
    };
    if weight == 0 {
        0
    } else {
        (byte / weight) % 2
    }
}

} // verus!
