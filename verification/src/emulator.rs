//! The console as a whole: the processor with the bus that it owns, and
//! the entry points that a front end drives it by.

use vstd::prelude::*;
use crate::cartridge::CartridgeModel;
use crate::cartridge::LoadError;
use crate::cpu::CPU6502;
use crate::cpu::CpuModel;

verus! {

/// The console. Its state is that of its processor, which owns the bus
/// and through it the RAM, the PPU and the cartridge.
pub struct Emulator {
    cpu: CPU6502,
}

impl View for Emulator {
    type V = CpuModel;

    closed spec fn view(&self) -> CpuModel {
        self.cpu@
    }
}

impl Emulator {
    /// The console at power-on, with a cartridge that holds no image.
    pub fn new() -> (emulator: Emulator)
        ensures
            emulator@ == CpuModel::initial(),
    {
        Emulator { cpu: CPU6502::new() }
    }

    /// Offers a cartridge image. An image that is missing or that ends
    /// before its header does is refused, and the console stays as it
    /// was: nothing of the image is taken.
    pub fn load_cartridge(&mut self, image: &[u8]) -> (result: Result<(), LoadError>)
        ensures
            result == CartridgeModel::load_result(image@),
            final(self)@ == old(self)@.after_load(image@),
    {
        self.cpu.load_cartridge(image)
    }

    /// Moves the processor on by exactly one tick of its clock.
    pub fn step_cpu(&mut self)
        ensures
            final(self)@ == old(self)@.tick(),
    {
        self.cpu.clock();
    }

    /// Moves the PPU on by exactly one dot, and tells whether that
    /// completed a frame.
    pub fn step_ppu(&mut self) -> (frame_done: bool)
        ensures
            final(self)@ == old(self)@.after_ppu_tick(),
            frame_done == old(self)@.bus.ppu.at_frame_end(),
    {
        self.cpu.clock_ppu()
    }

    /// The pixels of the current frame.
    pub fn read_frame_buffer(&mut self) -> (pixels: &[u8; 184320])
        ensures
            pixels@ == old(self)@.bus.ppu.frame_buffer,
            final(self)@ == old(self)@,
    {
        self.cpu.get_frame_buffer()
    }

    /// The processor, to look at its registers.
    pub fn cpu(&self) -> (cpu: &CPU6502)
        ensures
            cpu@ == self@,
    {
        &self.cpu
    }
}

/// A tick of the PPU leaves the processor alone, and a tick of the
/// processor leaves the PPU's counters alone: the two clocks are driven
/// apart, in the ratio that the caller chooses.
pub proof fn lemma_clocks_are_apart(console: CpuModel)
    ensures
        console.after_ppu_tick() == (CpuModel {
            bus: console.after_ppu_tick().bus,
            ..console
        }),
        console.after_ppu_tick().bus.ram == console.bus.ram,
        console.after_ppu_tick().bus.cart == console.bus.cart,
        console.after_ppu_tick().bus.ppu == console.bus.ppu.tick(),
{
}

/// A refused image leaves the console exactly as it was, and an accepted
/// one changes the cartridge alone.
pub proof fn lemma_load_is_whole_or_nothing(console: CpuModel, image: Seq<u8>)
    ensures
        CartridgeModel::load_result(image) is Err ==> console.after_load(image) == console,
        CartridgeModel::load_result(image) is Ok ==> console.after_load(image).bus.cart
            == CartridgeModel::from_image(image),
        console.after_load(image).bus.ram == console.bus.ram,
        console.after_load(image).bus.ppu == console.bus.ppu,
        console.after_load(image).pc == console.pc,
{
}

} // verus!
