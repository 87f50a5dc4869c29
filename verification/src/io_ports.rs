//! The sound registers that the machine shows among its I/O ports.

use vstd::prelude::*;

verus! {

/// What the sound on/off register reads as: the sound unit is on, and its
/// first channel is playing.
pub const NR_52_VALUE: u8 = 0xF1;

/// The block of sound registers.
#[derive(Default)]
pub struct IOPorts;

impl IOPorts {
    /// Reads the sound on/off register.
    pub fn read_nr_52(&self) -> (value: u8)
        ensures
            value == NR_52_VALUE,
    {
        0xF1
    }
}

} // verus!
