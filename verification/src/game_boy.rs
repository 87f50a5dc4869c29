//! The whole machine: the extended engine over the address router.

use vstd::prelude::*;
use crate::cpu::registers::RegisterState;
use crate::fault::Fault;
use crate::machine::MachineState;
use crate::memory::MemoryMap;
use crate::memory::memory_map::{BOOTROM_SIZE, GAMEROM_SIZE};
use crate::processor;
use crate::processor::{Processor, Trace};

verus! {

/// A machine made of an engine and the memory behind the address router.
pub struct GameBoy {
    processor: Processor<MemoryMap>,
}

impl View for GameBoy {
    type V = MachineState;

    closed spec fn view(&self) -> MachineState {
        self.processor@
    }
}

impl GameBoy {
    /// A machine that has just been switched on: all registers are zero,
    /// the two images lie in memory as they were given, and the rest of
    /// memory is zero. The boot image has at least 255 bytes and the
    /// cartridge image at least 16 KiB.
    pub fn new(bootrom: Box<[u8]>, gamerom: Box<[u8]>) -> (game_boy: GameBoy)
        requires
            bootrom@.len() >= BOOTROM_SIZE,
            gamerom@.len() >= GAMEROM_SIZE,
        ensures
            game_boy@.registers == RegisterState::reset(),
            game_boy@.memory == MemoryMap::initial(bootrom@, gamerom@),
    {
        let memory_map = MemoryMap::new(bootrom, gamerom);

        GameBoy { processor: Processor::new(memory_map) }
    }

    /// The engine.
    pub fn processor(&self) -> (processor: &Processor<MemoryMap>)
        ensures
            processor@ == self@,
    {
        &self.processor
    }

    /// The engine, to change it in place.
    pub fn processor_mut(&mut self) -> (processor: &mut Processor<MemoryMap>)
        ensures
            processor@ == old(self)@,
            final(self)@ == final(processor)@,
    {
        &mut self.processor
    }

    /// Tells what the next step will fetch and decode, without carrying
    /// anything out.
    pub fn trace(&self) -> (result: Result<Trace, Fault>)
        ensures
            result == processor::trace(self@),
    {
        self.processor.trace()
    }

    /// Carries out one instruction. Where the lower nibble of F was zero
    /// before the step, it is zero after it.
    pub fn step(&mut self) -> (result: Result<(), Fault>)
        ensures
            final(self)@ == processor::step(old(self)@).0,
            result == processor::step(old(self)@).1,
            old(self)@.registers.flags_clean() ==> final(self)@.registers.flags_clean(),
    {
        self.processor.step()
    }
}

} // verus!
