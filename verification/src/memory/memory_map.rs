//! The address router: it splits the 16-bit bus into regions, each with its
//! own storage, and refuses writes to the two images.
//!
//! The boot image and the cartridge image both begin at address 0x0000.
//! Where both claim an address, the boot image has it: the cartridge image
//! is seen from the address after the boot image on, at the offsets it
//! would have had from 0x0000. So no address leads to two regions.

use vstd::prelude::*;
use crate::fault::Fault;
use crate::memory::{Memory, MemoryState};

verus! {

/// Address at which the boot image begins.
pub const BOOTROM_START: u16 = 0x0000;

/// Number of bytes of the boot image that are mapped.
pub const BOOTROM_SIZE: u16 = 0xFF;

/// Last address of the boot image.
pub const BOOTROM_END: u16 = BOOTROM_START + BOOTROM_SIZE - 1;

/// Address that the cartridge image counts its offsets from.
pub const GAMEROM_START: u16 = 0x0000;

/// Number of bytes of the cartridge image that are mapped, its hidden first
/// part included.
pub const GAMEROM_SIZE: u16 = 0x4000;

/// Last address of the cartridge image.
pub const GAMEROM_END: u16 = GAMEROM_START + GAMEROM_SIZE - 1;

/// Address at which video memory begins.
pub const VRAM_START: u16 = 0x8000;

/// Number of bytes of video memory.
pub const VRAM_SIZE: u16 = 0x2000;

/// Last address of video memory.
pub const VRAM_END: u16 = VRAM_START + VRAM_SIZE - 1;

/// Address at which work memory begins.
pub const RAM_START: u16 = 0xC000;

/// Number of bytes of work memory.
pub const RAM_SIZE: u16 = 0x2000;

/// Last address of work memory.
pub const RAM_END: u16 = RAM_START + RAM_SIZE - 1;

/// Address at which the block of I/O registers begins.
pub const IO_REG_START: u16 = 0xFF00;

/// Number of I/O registers.
pub const IO_REG_SIZE: u16 = 0x4c;

/// Last address of the block of I/O registers.
pub const IO_REG_END: u16 = IO_REG_START + IO_REG_SIZE - 1;

/// Address at which the memory at the top of the address space begins.
pub const ZERO_PAGE_START: u16 = 0xFF80;

/// Number of bytes of the memory at the top of the address space.
pub const ZERO_PAGE_SIZE: u16 = 0x7F;

/// Last address of the memory at the top of the address space.
pub const ZERO_PAGE_END: u16 = ZERO_PAGE_START + ZERO_PAGE_SIZE - 1;

/// Address from which the I/O instructions count their offset.
pub const IO_BASE_REG: u16 = 0xFF00;

/// The storage behind a part of the address space.
#[derive(Clone, Copy, Debug, PartialEq, Eq, Structural)]
pub enum Region {
    /// The boot image. It only takes reads.
    Bootrom,
    /// The cartridge image. It only takes reads. The image is addressed
    /// from 0x0000, but the boot image lies in front of its first 255
    /// bytes, so the part of it that can be reached begins right after the
    /// boot image.
    Gamerom,
    /// Video memory.
    Vram,
    /// Work memory.
    Ram,
    /// The block of I/O registers.
    IoReg,
    /// The small memory at the top of the address space.
    ZeroPage,
}

impl Region {
    /// The address that the region's storage counts its offsets from.
    pub open spec fn base(self) -> u16 {
        match self {
            Region::Bootrom => BOOTROM_START,
            Region::Gamerom => GAMEROM_START,
            Region::Vram => VRAM_START,
            Region::Ram => RAM_START,
            Region::IoReg => IO_REG_START,
            Region::ZeroPage => ZERO_PAGE_START,
        }
    }

    /// The lowest address that leads to the region.
    pub open spec fn first(self) -> u16 {
        match self {
            Region::Gamerom => (BOOTROM_END + 1) as u16,
            _ => self.base(),
        }
    }

    /// The highest address that leads to the region.
    pub open spec fn last(self) -> u16 {
        match self {
            Region::Bootrom => BOOTROM_END,
            Region::Gamerom => GAMEROM_END,
            Region::Vram => VRAM_END,
            Region::Ram => RAM_END,
            Region::IoReg => IO_REG_END,
            Region::ZeroPage => ZERO_PAGE_END,
        }
    }

    /// Whether the region takes writes.
    pub open spec fn writable(self) -> bool {
        match self {
            Region::Bootrom => false,
            Region::Gamerom => false,
            _ => true,
        }
    }

    /// Whether the address leads to the region.
    pub open spec fn contains(self, address: u16) -> bool {
        self.first() <= address <= self.last()
    }

    /// The region that begins right where this one ends, if there is one.
    pub open spec fn successor(self) -> Option<Region> {
        match self {
            Region::Bootrom => Some(Region::Gamerom),
            _ => None,
        }
    }
}

/// Where an address leads: a region and an offset into its storage.
#[derive(Clone, Copy, Debug, PartialEq, Eq, Structural)]
pub struct Mapping {
    pub region: Region,
    pub offset: u16,
}

/// The region that an address leads to, if any.
pub open spec fn region_of(address: u16) -> Option<Region> {
    if address <= BOOTROM_END {
        Some(Region::Bootrom)
    } else if address <= GAMEROM_END {
        Some(Region::Gamerom)
    } else if VRAM_START <= address <= VRAM_END {
        Some(Region::Vram)
    } else if RAM_START <= address <= RAM_END {
        Some(Region::Ram)
    } else if IO_REG_START <= address <= IO_REG_END {
        Some(Region::IoReg)
    } else if ZERO_PAGE_START <= address <= ZERO_PAGE_END {
        Some(Region::ZeroPage)
    } else {
        None
    }
}

/// Where an address leads, if anywhere.
pub open spec fn route(address: u16) -> Option<Mapping> {
    match region_of(address) {
        Some(region) => Some(Mapping { region, offset: (address - region.base()) as u16 }),
        None => None,
    }
}

/// An address leads to a region exactly when it lies between the region's
/// first and last address, so no address leads to two regions.
pub proof fn lemma_region_of(address: u16, region: Region)
    ensures
        region_of(address) == Some(region) <==> region.contains(address),
{
}

/// The first and the last address of a region lead into it, at the offsets
/// that they have from the region's base; the address after the last one
/// leads to the region that follows, or nowhere.
pub proof fn lemma_region_bounds(region: Region)
    ensures
        region.base() <= region.first() <= region.last() < 0xFFFF,
        route(region.first()) == Some(
            Mapping { region, offset: (region.first() - region.base()) as u16 },
        ),
        route(region.last()) == Some(
            Mapping { region, offset: (region.last() - region.base()) as u16 },
        ),
        region_of((region.last() + 1) as u16) == region.successor(),
        region.successor() matches Some(next) ==> next.first() == region.last() + 1,
{
}

/// The router. It owns the two images and the four blocks of memory.
pub struct MemoryMap {
    bootrom: Box<[u8]>,
    gamerom: Box<[u8]>,
    zero_page: Vec<u8>,
    ram: Vec<u8>,
    vram: Vec<u8>,
    io: Vec<u8>,
}

impl MemoryMap {
    #[verifier::type_invariant]
    spec fn inv(self) -> bool {
        &&& self.bootrom@.len() >= BOOTROM_SIZE
        &&& self.gamerom@.len() >= GAMEROM_SIZE
        &&& self.zero_page@.len() == ZERO_PAGE_SIZE
        &&& self.ram@.len() == RAM_SIZE
        &&& self.vram@.len() == VRAM_SIZE
        &&& self.io@.len() == IO_REG_SIZE
    }

    /// The byte that the router holds for an address.
    spec fn stored(&self, address: u16) -> u8 {
        match route(address) {
            Some(Mapping { region: Region::Bootrom, offset }) => self.bootrom@[offset as int],
            Some(Mapping { region: Region::Gamerom, offset }) => self.gamerom@[offset as int],
            Some(Mapping { region: Region::Vram, offset }) => self.vram@[offset as int],
            Some(Mapping { region: Region::Ram, offset }) => self.ram@[offset as int],
            Some(Mapping { region: Region::IoReg, offset }) => self.io@[offset as int],
            Some(Mapping { region: Region::ZeroPage, offset }) => self.zero_page@[offset as int],
            None => 0,
        }
    }

    /// The memory of a machine that has just been switched on: the two
    /// images as they were given, and zero everywhere else.
    pub open spec fn initial(bootrom: Seq<u8>, gamerom: Seq<u8>) -> MemoryState {
        MemoryState {
            bytes: Map::new(
                |a: u16| region_of(a) is Some,
                |a: u16|
                    match region_of(a) {
                        Some(Region::Bootrom) => bootrom[a - BOOTROM_START],
                        Some(Region::Gamerom) => gamerom[a - GAMEROM_START],
                        _ => 0u8,
                    },
            ),
            writable: Set::new(|a: u16| region_of(a) matches Some(region) && region.writable()),
        }
    }

    /// The addresses that lead to a region are mapped, those that lead to a
    /// region other than the two images take writes, and no others.
    pub proof fn lemma_layout(&self)
        ensures
            forall|a: u16| self@.mapped(a) <==> region_of(a) is Some,
            forall|a: u16|
                self@.writable.contains(a) <==> (region_of(a) matches Some(region)
                    && region.writable()),
    {
    }

    /// What becomes of a read and of a write, by the region that the
    /// address leads to: both fail with `UnmappedAddress` where it leads
    /// nowhere; a write to one of the two images fails with
    /// `ReadOnlyViolation` and changes nothing; every other read and write
    /// succeeds.
    pub proof fn lemma_access(&self, address: u16, value: u8)
        ensures
            match region_of(address) {
                None => {
                    &&& self@.read(address) == Err::<u8, Fault>(Fault::UnmappedAddress { address })
                    &&& self@.write(address, value) == (
                        self@,
                        Err::<(), Fault>(Fault::UnmappedAddress { address }),
                    )
                },
                Some(region) => {
                    &&& self@.read(address) is Ok
                    &&& !region.writable() ==> self@.write(address, value) == (
                        self@,
                        Err::<(), Fault>(Fault::ReadOnlyViolation { address }),
                    )
                    &&& region.writable() ==> self@.write(address, value).1 is Ok
                },
            },
    {
    }

    /// A write to the first address of an image fails with
    /// `ReadOnlyViolation`.
    pub proof fn lemma_images_refuse_writes(&self, region: Region, value: u8)
        requires
            !region.writable(),
        ensures
            self@.write(region.first(), value).1 == Err::<(), Fault>(
                Fault::ReadOnlyViolation { address: region.first() },
            ),
            self@.write(region.last(), value).1 == Err::<(), Fault>(
                Fault::ReadOnlyViolation { address: region.last() },
            ),
    {
    }

    /// A router over a boot image of at least 255 bytes and a cartridge
    /// image of at least 16 KiB, with all memory at zero.
    pub fn new(bootrom: Box<[u8]>, gamerom: Box<[u8]>) -> (map: MemoryMap)
        requires
            bootrom@.len() >= BOOTROM_SIZE,
            gamerom@.len() >= GAMEROM_SIZE,
        ensures
            map@ == Self::initial(bootrom@, gamerom@),
    {
        let map = MemoryMap {
            bootrom: bootrom,
            gamerom: gamerom,
            zero_page: vec![0; ZERO_PAGE_SIZE as usize],
            ram: vec![0; RAM_SIZE as usize],
            vram: vec![0; VRAM_SIZE as usize],
            io: vec![0; IO_REG_SIZE as usize],
        };
        assert(map@.bytes =~= Self::initial(bootrom@, gamerom@).bytes);
        assert(map@.writable =~= Self::initial(bootrom@, gamerom@).writable);
        map
    }

    /// Finds the region that an address leads to and the offset into its
    /// storage, or fails where the address leads nowhere.
    pub fn map_address(&self, address: u16) -> (result: Result<Mapping, Fault>)
        ensures
            result == match route(address) {
                Some(mapping) => Ok::<Mapping, Fault>(mapping),
                None => Err::<Mapping, Fault>(Fault::UnmappedAddress { address }),
            },
    {
        if address <= BOOTROM_END {
            Ok(Mapping { region: Region::Bootrom, offset: address - BOOTROM_START })
        } else if address <= GAMEROM_END {
            Ok(Mapping { region: Region::Gamerom, offset: address - GAMEROM_START })
        } else if RAM_START <= address && address <= RAM_END {
            Ok(Mapping { region: Region::Ram, offset: address - RAM_START })
        } else if VRAM_START <= address && address <= VRAM_END {
            Ok(Mapping { region: Region::Vram, offset: address - VRAM_START })
        } else if ZERO_PAGE_START <= address && address <= ZERO_PAGE_END {
            Ok(Mapping { region: Region::ZeroPage, offset: address - ZERO_PAGE_START })
        } else if IO_REG_START <= address && address <= IO_REG_END {
            Ok(Mapping { region: Region::IoReg, offset: address - IO_REG_START })
        } else {
            Err(Fault::UnmappedAddress { address })
        }
    }
}

impl View for MemoryMap {
    type V = MemoryState;

    closed spec fn view(&self) -> MemoryState {
        MemoryState {
            bytes: Map::new(|a: u16| region_of(a) is Some, |a: u16| self.stored(a)),
            writable: Set::new(|a: u16| region_of(a) matches Some(region) && region.writable()),
        }
    }
}

impl Memory for MemoryMap {
    fn read_byte(&self, address: u16) -> (result: Result<u8, Fault>) {
        proof {
            use_type_invariant(self);
        }
        let mapping = self.map_address(address)?;
        let offset: usize = mapping.offset as usize;
        match mapping.region {
            Region::Bootrom => Ok(self.bootrom[offset]),
            Region::Gamerom => Ok(self.gamerom[offset]),
            Region::ZeroPage => Ok(self.zero_page[offset]),
            Region::Ram => Ok(self.ram[offset]),
            Region::Vram => Ok(self.vram[offset]),
            Region::IoReg => Ok(self.io[offset]),
        }
    }

    fn write_byte(&mut self, address: u16, value: u8) -> (result: Result<(), Fault>) {
        proof {
            use_type_invariant(&*self);
        }
        let mapping = self.map_address(address)?;
        match mapping.region {
            Region::Bootrom => {
                return Err(Fault::ReadOnlyViolation { address });
            },
            Region::Gamerom => {
                return Err(Fault::ReadOnlyViolation { address });
            },
            Region::ZeroPage => {
                self.zero_page[mapping.offset as usize] = value;
            },
            Region::Ram => {
                self.ram[mapping.offset as usize] = value;
            },
            Region::Vram => {
                self.vram[mapping.offset as usize] = value;
            },
            Region::IoReg => {
                self.io[mapping.offset as usize] = value;
            },
        }
        assert(self@.bytes =~= old(self)@.write(address, value).0.bytes);
        Ok(())
    }
}

} // verus!
