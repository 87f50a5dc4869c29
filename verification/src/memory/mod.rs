//! What the engine sees of storage: bytes behind 16-bit addresses.

pub mod memory_map;
pub mod ram;
pub mod random_access_memory;

use vstd::prelude::*;
use crate::fault::Fault;
use crate::word::{high_byte, low_byte, word, wrap16, split, join, lemma_split_then_join};

pub use self::memory_map::MemoryMap;
pub use self::memory_map::IO_BASE_REG;
pub use self::random_access_memory::RandomAccessMemory;

verus! {

/// A store as a mathematical value: the byte behind each address that
/// leads somewhere, and the addresses that take writes.
pub struct MemoryState {
    /// The byte behind each mapped address.
    pub bytes: Map<u16, u8>,
    /// The addresses that take writes.
    pub writable: Set<u16>,
}

impl MemoryState {
    /// Whether the address leads somewhere.
    pub open spec fn mapped(self, address: u16) -> bool {
        self.bytes.dom().contains(address)
    }

    /// A block of `size` bytes, all zero, that takes reads and writes.
    pub open spec fn blank(size: nat) -> MemoryState {
        MemoryState {
            bytes: Map::new(|a: u16| a < size, |a: u16| 0u8),
            writable: Set::new(|a: u16| a < size),
        }
    }

    /// What reading one byte gives.
    pub open spec fn read(self, address: u16) -> Result<u8, Fault> {
        if self.mapped(address) {
            Ok(self.bytes[address])
        } else {
            Err(Fault::UnmappedAddress { address })
        }
    }

    /// What writing one byte gives, and the store it leaves. A refused
    /// write leaves the store as it was.
    pub open spec fn write(self, address: u16, value: u8) -> (MemoryState, Result<(), Fault>) {
        if !self.mapped(address) {
            (self, Err(Fault::UnmappedAddress { address }))
        } else if !self.writable.contains(address) {
            (self, Err(Fault::ReadOnlyViolation { address }))
        } else {
            (MemoryState { bytes: self.bytes.insert(address, value), ..self }, Ok(()))
        }
    }

    /// What reading a word gives: its lower byte lies at `address`, its
    /// upper byte at the address after it.
    pub open spec fn read_word(self, address: u16) -> Result<u16, Fault> {
        match self.read(address) {
            Err(fault) => Err(fault),
            Ok(low) => match self.read(wrap16(address + 1)) {
                Err(fault) => Err(fault),
                Ok(high) => Ok(word(high, low)),
            },
        }
    }

    /// What writing a word gives, and the store it leaves: the lower byte
    /// goes to `address` first, then the upper byte to the address after
    /// it. Where the second write is refused, the first one stays.
    pub open spec fn write_word(self, address: u16, value: u16) -> (MemoryState, Result<(), Fault>) {
        let first = self.write(address, low_byte(value));
        match first.1 {
            Err(fault) => first,
            Ok(_) => first.0.write(wrap16(address + 1), high_byte(value)),
        }
    }
}

/// What was written can be read back: after a write that succeeded, the
/// address holds the written byte, every other address holds what it held,
/// and the same addresses are mapped and take writes as before.
pub proof fn lemma_write_then_read(state: MemoryState, address: u16, value: u8)
    requires
        state.write(address, value).1 is Ok,
    ensures
        state.write(address, value).0.read(address) == Ok::<u8, Fault>(value),
        forall|other: u16|
            other != address ==> state.write(address, value).0.read(other) == state.read(other),
        state.write(address, value).0.bytes.dom() == state.bytes.dom(),
        state.write(address, value).0.writable == state.writable,
{
    assert(state.bytes.insert(address, value).dom() =~= state.bytes.dom());
}

/// A word that was written can be read back from the same address.
pub proof fn lemma_write_word_then_read(state: MemoryState, address: u16, value: u16)
    requires
        state.write_word(address, value).1 is Ok,
    ensures
        state.write_word(address, value).0.read_word(address) == Ok::<u16, Fault>(value),
{
    lemma_split_then_join(value);
}

/// A store of bytes behind 16-bit addresses.
pub trait Memory: View<V = MemoryState> {
    /// Reads the byte at `address`, or fails where the address leads
    /// nowhere.
    fn read_byte(&self, address: u16) -> (result: Result<u8, Fault>)
        ensures
            result == self@.read(address),
    ;

    /// Reads the word whose lower byte lies at `address`.
    fn read_word(&self, address: u16) -> (result: Result<u16, Fault>)
        ensures
            result == self@.read_word(address),
    {
        let low: u8 = self.read_byte(address)?;
        let high: u8 = self.read_byte(address.wrapping_add(1))?;
        Ok(join(high, low))
    }

    /// Stores a byte at `address`, or fails where the address leads nowhere
    /// or to storage that only takes reads; the store is then unchanged.
    fn write_byte(&mut self, address: u16, value: u8) -> (result: Result<(), Fault>)
        ensures
            final(self)@ == old(self)@.write(address, value).0,
            result == old(self)@.write(address, value).1,
    ;

    /// Stores the word whose lower byte goes to `address`.
    fn write_word(&mut self, address: u16, value: u16) -> (result: Result<(), Fault>)
        ensures
            final(self)@ == old(self)@.write_word(address, value).0,
            result == old(self)@.write_word(address, value).1,
    {
        let (high, low) = split(value);
        self.write_byte(address, low)?;
        self.write_byte(address.wrapping_add(1), high)
    }
}

} // verus!
