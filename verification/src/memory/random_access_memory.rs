//! Plain storage: every address below its size takes reads and writes.

use vstd::prelude::*;
use crate::fault::Fault;
use crate::memory::{Memory, MemoryState};

verus! {

/// A block of bytes that can be read and written, addressed from zero.
pub struct RandomAccessMemory {
    data: Vec<u8>,
}

impl View for RandomAccessMemory {
    type V = MemoryState;

    closed spec fn view(&self) -> MemoryState {
        MemoryState {
            bytes: Map::new(|a: u16| a < self.data@.len(), |a: u16| self.data@[a as int]),
            writable: Set::new(|a: u16| a < self.data@.len()),
        }
    }
}

impl RandomAccessMemory {
    /// A block of `size` bytes, all zero.
    pub fn new(size: usize) -> (memory: Self)
        ensures
            memory@ == MemoryState::blank(size as nat),
    {
        let memory = RandomAccessMemory { data: vec![0; size] };
        assert(memory@.bytes =~= MemoryState::blank(size as nat).bytes);
        assert(memory@.writable =~= MemoryState::blank(size as nat).writable);
        memory
    }
}

impl Memory for RandomAccessMemory {
    fn read_byte(&self, address: u16) -> (result: Result<u8, Fault>) {
        if (address as usize) < self.data.len() {
            Ok(self.data[address as usize])
        } else {
            Err(Fault::UnmappedAddress { address })
        }
    }

    fn write_byte(&mut self, address: u16, value: u8) -> (result: Result<(), Fault>) {
        if (address as usize) < self.data.len() {
            self.data[address as usize] = value;
            assert(self@.bytes =~= old(self)@.write(address, value).0.bytes);
            assert(self@.writable =~= old(self)@.write(address, value).0.writable);
            Ok(())
        } else {
            Err(Fault::UnmappedAddress { address })
        }
    }
}

} // verus!
