//! Address translation between the cartridge window and the ROM image.

use vstd::prelude::*;

verus! {

/// Number of bytes in one bank of program ROM.
pub const PRG_BANK_SIZE: u16 = 0x4000;

/// A translation scheme from addresses, as the console sees them, to
/// offsets in the ROM image. A translation depends on the address and on
/// the mapper's bank counts alone.
pub trait Mapper {
    /// The offset in the program ROM that a cartridge-relative address of
    /// the CPU stands for.
    spec fn cpu_offset(&self, cpu_address: u16) -> int;

    /// The offset in the character ROM that an address of the PPU stands
    /// for.
    spec fn ppu_offset(&self, ppu_address: u16) -> int;

    /// Translates a cartridge-relative address of the CPU.
    fn map_cpu_address(&self, cpu_address: u16) -> (offset: u16)
        ensures
            offset as int == self.cpu_offset(cpu_address),
    ;

    /// Translates an address of the PPU.
    fn map_ppu_address(&self, ppu_address: u16) -> (offset: u16)
        ensures
            offset as int == self.ppu_offset(ppu_address),
    ;
}

/// The offset in the program ROM of a cartridge without bank switching:
/// two banks or more fill the 32 KiB window, one bank (or none) is seen
/// twice in it.
pub open spec fn nrom_offset(nprg_banks: u8, address: u16) -> int {
    if nprg_banks > 1 {
        address as int % 0x8000
    } else {
        address as int % 0x4000
    }
}

/// The mapper of cartridges without bank switching.
#[derive(Clone, Copy, Debug, PartialEq, Eq, Structural)]
pub struct Mapper0 {
    pub nprg_banks: u8,
    pub nchr_banks: u8,
}

impl Mapper for Mapper0 {
    open spec fn cpu_offset(&self, cpu_address: u16) -> int {
        nrom_offset(self.nprg_banks, cpu_address)
    }

    open spec fn ppu_offset(&self, ppu_address: u16) -> int {
        ppu_address as int
    }

    fn map_cpu_address(&self, cpu_address: u16) -> (offset: u16) {
        assert(cpu_address & 0x7FFF == cpu_address % 0x8000 && cpu_address & 0x3FFF == cpu_address
            % 0x4000) by (bit_vector);
        if self.nprg_banks > 1 {
            cpu_address & 0x7FFF
        } else {
            cpu_address & 0x3FFF
        }
    }

    fn map_ppu_address(&self, ppu_address: u16) -> (offset: u16) {
        ppu_address
    }
}

/// With a single bank, an address and the address one bank further on
/// stand for the same offset.
pub proof fn lemma_single_bank_is_mirrored(mapper: Mapper0, address: u16)
    requires
        mapper.nprg_banks <= 1,
        address as int + 0x4000 <= 0xFFFF,
    ensures
        mapper.cpu_offset((address + 0x4000) as u16) == mapper.cpu_offset(address),
{
}

/// Every offset lies inside the 32 KiB window.
pub proof fn lemma_offset_in_window(mapper: Mapper0, address: u16)
    ensures
        0 <= mapper.cpu_offset(address) < 0x8000,
{
}

} // verus!
