//! The CPU's address bus: it hands each 16-bit address to the component
//! that owns it.

use vstd::prelude::*;
use crate::cartridge::Cartridge;
use crate::cartridge::CartridgeModel;
use crate::cartridge::LoadError;
use crate::ppu::PPU;
use crate::ppu::PpuModel;
use crate::ram::RAM;
use crate::ram::mirror;
use crate::ram::page_of;

verus! {

/// Last address of the window onto work RAM.
pub const RAM_WINDOW_END: u16 = 0x17FF;

/// First address of the window onto the PPU's registers.
pub const PPU_WINDOW_START: u16 = 0x2000;

/// Last address of the window onto the PPU's registers.
pub const PPU_WINDOW_END: u16 = 0x3FFF;

/// First address of the input and output registers.
pub const IO_WINDOW_START: u16 = 0x4000;

/// Last address of the input and output registers.
pub const IO_WINDOW_END: u16 = 0x4017;

/// The register that starts a copy of one page of RAM into sprite memory.
pub const OAM_DMA_REGISTER: u16 = 0x4014;

/// First address of the cartridge.
pub const CARTRIDGE_BASE: u16 = 0x8000;

/// The component that answers for an address.
#[derive(Clone, Copy, Debug, PartialEq, Eq, Structural)]
pub enum Owner {
    /// Work RAM, mirrored.
    Ram,
    /// The registers of the PPU, repeated every eight addresses.
    Ppu,
    /// Input and output registers: the controllers and the trigger of the
    /// copy into sprite memory.
    Io,
    /// The cartridge's program ROM.
    Cartridge,
    /// Nothing: reads give zero and writes are lost.
    Unmapped,
}

/// The owner of an address. Every address has exactly one.
pub open spec fn spec_owner_of(address: u16) -> Owner {
    if address <= 0x17FF {
        Owner::Ram
    } else if 0x2000 <= address <= 0x3FFF {
        Owner::Ppu
    } else if 0x4000 <= address <= 0x4017 {
        Owner::Io
    } else if address >= 0x8000 {
        Owner::Cartridge
    } else {
        Owner::Unmapped
    }
}

/// The owner of an address.
pub fn owner_of(address: u16) -> (owner: Owner)
    ensures
        owner == spec_owner_of(address),
{
    if address <= RAM_WINDOW_END {
        Owner::Ram
    } else if address >= PPU_WINDOW_START && address <= PPU_WINDOW_END {
        Owner::Ppu
    } else if address >= IO_WINDOW_START && address <= IO_WINDOW_END {
        Owner::Io
    } else if address >= CARTRIDGE_BASE {
        Owner::Cartridge
    } else {
        Owner::Unmapped
    }
}

/// What is on the bus.
pub struct BusModel {
    /// The cells of work RAM.
    pub ram: Seq<u8>,
    /// The picture-processing unit.
    pub ppu: PpuModel,
    /// The cartridge.
    pub cart: CartridgeModel,
}

impl BusModel {
    /// The bus at power-on, with a cartridge that holds no image.
    pub open spec fn initial() -> BusModel {
        BusModel {
            ram: Seq::new(2048, |i: int| 0u8),
            ppu: PpuModel::initial(),
            cart: CartridgeModel::empty(),
        }
    }

    /// Every component has its size, and the PPU's counters are inside the
    /// frame.
    pub open spec fn wf(self) -> bool {
        &&& self.ram.len() == 2048
        &&& self.ppu.wf()
        &&& self.cart.rom.len() == 32768
    }

    /// The byte that a read at `address` returns.
    #[verifier::opaque]
    pub open spec fn read_value(self, address: u16) -> u8 {
        match spec_owner_of(address) {
            Owner::Ram => self.ram[mirror(address)],
            Owner::Ppu => self.ppu.read_value(address),
            Owner::Cartridge => self.cart.byte_at((address - 0x8000) as u16),
            Owner::Io => 0,
            Owner::Unmapped => 0,
        }
    }

    /// The bus after a read at `address`: only a read of a PPU register
    /// changes anything.
    #[verifier::opaque]
    pub open spec fn after_read(self, address: u16) -> BusModel {
        match spec_owner_of(address) {
            Owner::Ppu => BusModel { ppu: self.ppu.after_read(address), ..self },
            _ => self,
        }
    }

    /// The bus after `data` was written at `address`. A write to the copy
    /// register moves the page of RAM that `data` names into sprite
    /// memory, whole; a write to the cartridge or to an address that
    /// nothing owns is lost.
    #[verifier::opaque]
    pub open spec fn after_write(self, address: u16, data: u8) -> BusModel {
        match spec_owner_of(address) {
            Owner::Ram => BusModel { ram: self.ram.update(mirror(address), data), ..self },
            Owner::Ppu => BusModel { ppu: self.ppu.after_write(address, data), ..self },
            Owner::Io => if address == 0x4014 {
                BusModel { ppu: self.ppu.after_dma(page_of(self.ram, data)), ..self }
            } else {
                self
            },
            Owner::Cartridge => self,
            Owner::Unmapped => self,
        }
    }

    /// The bus after one tick of the PPU.
    pub open spec fn after_ppu_tick(self) -> BusModel {
        BusModel { ppu: self.ppu.tick(), ..self }
    }

    /// The bus after an image was offered to the cartridge.
    pub open spec fn after_load(self, image: Seq<u8>) -> BusModel {
        BusModel { cart: self.cart.after_load(image), ..self }
    }
}

/// The bus with the components that it reaches.
pub struct CPUBus {
    ram: RAM,
    ppu: PPU,
    cart: Cartridge,
}

impl View for CPUBus {
    type V = BusModel;

    closed spec fn view(&self) -> BusModel {
        BusModel { ram: self.ram@, ppu: self.ppu@, cart: self.cart@ }
    }
}

impl CPUBus {
    /// The bus at power-on, with a cartridge that holds no image.
    pub fn new() -> (bus: CPUBus)
        ensures
            bus@ == BusModel::initial(),
            bus@.wf(),
    {
        CPUBus { ram: RAM::new(), ppu: PPU::new(), cart: Cartridge::new() }
    }

    /// Offers an image to the cartridge. An image without a complete
    /// header is refused, and the bus stays as it was.
    pub fn load_cartridge(&mut self, image: &[u8]) -> (result: Result<(), LoadError>)
        ensures
            result == CartridgeModel::load_result(image@),
            final(self)@ == old(self)@.after_load(image@),
    {
        self.cart.load(image)
    }

    /// Moves the PPU on by one dot, and tells whether that completed a
    /// frame.
    pub fn clock_ppu(&mut self) -> (frame_done: bool)
        ensures
            final(self)@ == old(self)@.after_ppu_tick(),
            frame_done == old(self)@.ppu.at_frame_end(),
            final(self)@.wf(),
    {
        proof {
            self.ram.lemma_size();
            self.cart.lemma_size();
        }
        self.ppu.clock()
    }

    /// The pixels of the current frame.
    pub fn get_frame_buffer(&mut self) -> (pixels: &[u8; 184320])
        ensures
            pixels@ == old(self)@.ppu.frame_buffer,
            final(self)@ == old(self)@,
    {
        self.ppu.frame_buffer()
    }

    /// Reads the byte at `address` from the component that owns the
    /// address. An address that nothing owns reads as zero.
    pub fn read(&mut self, address: u16) -> (value: u8)
        ensures
            value == old(self)@.read_value(address),
            final(self)@ == old(self)@.after_read(address),
    {
        proof {
            reveal(BusModel::read_value);
            reveal(BusModel::after_read);
            reveal(BusModel::after_write);
        }
        match owner_of(address) {
            Owner::Ram => self.ram.read(address),
            Owner::Ppu => self.ppu.cpu_read(address),
            Owner::Cartridge => self.cart.read(address - CARTRIDGE_BASE),
            Owner::Io => 0,
            Owner::Unmapped => 0,
        }
    }

    /// Writes `data` at `address` to the component that owns the address.
    pub fn write(&mut self, address: u16, data: u8)
        ensures
            final(self)@ == old(self)@.after_write(address, data),
    {
        proof {
            reveal(BusModel::read_value);
            reveal(BusModel::after_read);
            reveal(BusModel::after_write);
        }
        match owner_of(address) {
            Owner::Ram => {
                self.ram.write(address, data);
            },
            Owner::Ppu => {
                self.ppu.cpu_write(address, data);
            },
            Owner::Io => {
                if address == OAM_DMA_REGISTER {
                    let page: [u8; 256] = self.ram.get_page(data);
                    self.ppu.OAMDMA(page);
                }
            },
            Owner::Cartridge => {
                self.cart.write(address - CARTRIDGE_BASE);
            },
            Owner::Unmapped => {},
        }
    }

    /// The bus is well-formed, whatever was done on it.
    pub proof fn lemma_wf(&self)
        requires
            self@.ppu.wf(),
        ensures
            self@.wf(),
    {
        self.ram.lemma_size();
        self.cart.lemma_size();
    }
}

/// Reads, writes, ticks and loads keep the bus well-formed.
pub proof fn lemma_bus_stays_wf(bus: BusModel, address: u16, data: u8, image: Seq<u8>)
    requires
        bus.wf(),
    ensures
        bus.after_read(address).wf(),
        bus.after_write(address, data).wf(),
        bus.after_ppu_tick().wf(),
        bus.after_load(image).wf(),
{
    reveal(BusModel::read_value);
    reveal(BusModel::after_read);
    reveal(BusModel::after_write);
    crate::ppu::lemma_register_access_keeps_wf(bus.ppu, address, data, page_of(bus.ram, data));
    crate::ppu::lemma_tick_position(bus.ppu);
}

/// A byte written to an address of the RAM window is read back at the
/// address modulo the size of the RAM, and at every other address of the
/// window that has the same remainder.
pub proof fn lemma_ram_is_mirrored(bus: BusModel, address: u16, other: u16, data: u8)
    requires
        bus.wf(),
        address <= 0x17FF,
        other <= 0x17FF,
        other as int % 2048 == address as int % 2048,
    ensures
        bus.after_write(address, data).read_value((address as int % 2048) as u16) == data,
        bus.after_write(address, data).read_value(other) == data,
        bus.after_write(address, data).read_value(address) == data,
{
    reveal(BusModel::read_value);
    reveal(BusModel::after_read);
    reveal(BusModel::after_write);
}

/// A write to RAM changes one cell: a read at an address of the window
/// with another remainder gives what it gave before.
pub proof fn lemma_ram_write_is_local(bus: BusModel, address: u16, other: u16, data: u8)
    requires
        bus.wf(),
        address <= 0x17FF,
        other <= 0x17FF,
        other as int % 2048 != address as int % 2048,
    ensures
        bus.after_write(address, data).read_value(other) == bus.read_value(other),
{
    reveal(BusModel::read_value);
    reveal(BusModel::after_read);
    reveal(BusModel::after_write);
}

/// Addresses that nothing owns, and the input and output registers, read
/// as zero, and a write to them or to the cartridge changes nothing,
/// except for the write that starts the copy into sprite memory.
pub proof fn lemma_unowned_addresses_are_inert(bus: BusModel, address: u16, data: u8)
    requires
        spec_owner_of(address) == Owner::Unmapped || spec_owner_of(address) == Owner::Io
            || spec_owner_of(address) == Owner::Cartridge,
    ensures
        spec_owner_of(address) != Owner::Cartridge ==> bus.read_value(address) == 0,
        bus.after_read(address) == bus,
        address != 0x4014 ==> bus.after_write(address, data) == bus,
{
    reveal(BusModel::read_value);
    reveal(BusModel::after_read);
    reveal(BusModel::after_write);
}

/// A write to the copy register replaces sprite memory by the page of RAM
/// that the written byte names, and changes nothing else.
pub proof fn lemma_oam_dma_copies_page(bus: BusModel, page: u8, i: int)
    requires
        bus.wf(),
        0 <= i < 256,
    ensures
        bus.after_write(0x4014, page).ppu.oam.len() == 256,
        bus.after_write(0x4014, page).ppu.oam[i] == bus.ram[(page as int * 256 + i) % 2048],
        bus.after_write(0x4014, page).ram == bus.ram,
        bus.after_write(0x4014, page).cart == bus.cart,
{
    reveal(BusModel::read_value);
    reveal(BusModel::after_read);
    reveal(BusModel::after_write);
}

} // verus!
