//! The display's end of the memory. Drawing is not done here: the display
//! only holds the memory that it would draw from.

use vstd::prelude::*;
use crate::memory::{Memory, MemoryState};

verus! {

/// A display over the memory that it reads its picture from.
pub struct Display<M: Memory> {
    memory: M,
}

impl<M: Memory> View for Display<M> {
    type V = MemoryState;

    closed spec fn view(&self) -> MemoryState {
        self.memory@
    }
}

impl<M: Memory> Display<M> {
    /// A display over `memory`.
    pub fn new(memory: M) -> (display: Self)
        ensures
            display@ == memory@,
    {
        Display { memory: memory }
    }

    /// The memory that the display reads from.
    pub fn memory(&self) -> (memory: &M)
        ensures
            memory@ == self@,
    {
        &self.memory
    }
}

} // verus!
