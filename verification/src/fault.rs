//! The ways in which the machine can refuse to go on.

use vstd::prelude::*;

verus! {

/// A failure that stops the engine. None of them is recovered from: the
/// caller decides what to do with a machine that has reported one.
#[derive(Clone, Copy, Debug, PartialEq, Eq, Structural)]
pub enum Fault {
    /// A fetched byte has no entry in the opcode table it was decoded
    /// against. `was_special` tells whether that was the table of prefixed
    /// opcodes.
    IllegalOpcode { byte: u8, was_special: bool },
    /// The address belongs to no region of the address space.
    UnmappedAddress { address: u16 },
    /// A write was aimed at a region that only takes reads.
    ReadOnlyViolation { address: u16 },
}

} // verus!
