//! Work memory of a fixed size.

use vstd::prelude::*;
use crate::fault::Fault;
use crate::memory::{Memory, MemoryState};

verus! {

/// Number of bytes of work memory.
pub const RAM_BYTES: usize = 0x2000;

/// Eight KiB of memory that can be read and written, addressed from zero.
pub struct Ram {
    data: [u8; 0x2000],
}

impl View for Ram {
    type V = MemoryState;

    closed spec fn view(&self) -> MemoryState {
        MemoryState {
            bytes: Map::new(|a: u16| a < RAM_BYTES, |a: u16| self.data@[a as int]),
            writable: Set::new(|a: u16| a < RAM_BYTES),
        }
    }
}

impl Ram {
    /// Work memory with every byte at zero.
    pub fn new() -> (ram: Ram)
        ensures
            ram@ == MemoryState::blank(RAM_BYTES as nat),
    {
        let ram = Ram { data: [0u8; 0x2000] };
        assert(ram@.bytes =~= MemoryState::blank(RAM_BYTES as nat).bytes);
        assert(ram@.writable =~= MemoryState::blank(RAM_BYTES as nat).writable);
        ram
    }
}

impl Memory for Ram {
    fn read_byte(&self, address: u16) -> (result: Result<u8, Fault>) {
        if (address as usize) < RAM_BYTES {
            Ok(self.data[address as usize])
        } else {
            Err(Fault::UnmappedAddress { address })
        }
    }

    fn write_byte(&mut self, address: u16, value: u8) -> (result: Result<(), Fault>) {
        if (address as usize) < RAM_BYTES {
            self.data[address as usize] = value;
            assert(self@.bytes =~= old(self)@.write(address, value).0.bytes);
            Ok(())
        } else {
            Err(Fault::UnmappedAddress { address })
        }
    }
}

} // verus!
