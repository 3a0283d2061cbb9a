//! The cartridge: a program-ROM image behind a mapper.

use vstd::prelude::*;
use crate::mapper::Mapper;
use crate::mapper::Mapper0;
use crate::mapper::nrom_offset;

verus! {

/// Number of bytes of the header that precedes the program ROM in an image.
pub const HEADER_SIZE: usize = 16;

/// Number of bytes of program ROM that the console can address.
pub const ROM_WINDOW: usize = 32768;

/// Position in the header of the number of program-ROM banks.
pub const PRG_COUNT_OFFSET: usize = 4;

/// Position in the header of the number of character-ROM banks.
pub const CHR_COUNT_OFFSET: usize = 5;

/// Why an image could not be loaded.
#[derive(Clone, Copy, Debug, PartialEq, Eq, Structural)]
pub enum LoadError {
    /// There is no image: it holds no byte at all.
    Missing,
    /// The image ends before its header does.
    Truncated,
}

/// What a cartridge holds.
pub struct CartridgeModel {
    /// The program ROM, `ROM_WINDOW` bytes.
    pub rom: Seq<u8>,
    /// Number of program-ROM banks, from the header.
    pub prg_banks: u8,
    /// Number of character-ROM banks, from the header.
    pub chr_banks: u8,
    /// Whether an image has been loaded.
    pub populated: bool,
}

impl CartridgeModel {
    /// A cartridge without an image: all zero, no banks.
    pub open spec fn empty() -> CartridgeModel {
        CartridgeModel {
            rom: Seq::new(32768, |i: int| 0u8),
            prg_banks: 0,
            chr_banks: 0,
            populated: false,
        }
    }

    /// The cartridge that an image of at least `HEADER_SIZE` bytes gives:
    /// the bank counts from the header, and the bytes after the header in
    /// the order of the image, as many as the window holds; what the image
    /// does not fill is zero.
    pub open spec fn from_image(image: Seq<u8>) -> CartridgeModel {
        CartridgeModel {
            rom: Seq::new(
                32768,
                |i: int|
                    if 16 + i < image.len() {
                        image[16 + i]
                    } else {
                        0u8
                    },
            ),
            prg_banks: image[4],
            chr_banks: image[5],
            populated: true,
        }
    }

    /// The byte that a read at a cartridge-relative address returns.
    pub open spec fn byte_at(self, address: u16) -> u8 {
        self.rom[nrom_offset(self.prg_banks, address)]
    }

    /// What loading `image` makes of this cartridge.
    pub open spec fn after_load(self, image: Seq<u8>) -> CartridgeModel {
        if image.len() < 16 {
            self
        } else {
            CartridgeModel::from_image(image)
        }
    }

    /// The result that loading `image` reports.
    pub open spec fn load_result(image: Seq<u8>) -> Result<(), LoadError> {
        if image.len() == 0 {
            Err(LoadError::Missing)
        } else if image.len() < 16 {
            Err(LoadError::Truncated)
        } else {
            Ok(())
        }
    }
}

/// A cartridge.
pub struct Cartridge {
    data: Box<[u8; 32768]>,
    mapper: Mapper0,
    populated: bool,
}

impl View for Cartridge {
    type V = CartridgeModel;

    closed spec fn view(&self) -> CartridgeModel {
        CartridgeModel {
            rom: self.data@,
            prg_banks: self.mapper.nprg_banks,
            chr_banks: self.mapper.nchr_banks,
            populated: self.populated,
        }
    }
}

impl Cartridge {
    /// A cartridge without an image.
    pub fn new() -> (cart: Cartridge)
        ensures
            cart@ == CartridgeModel::empty(),
    {
        let data: Box<[u8; 32768]> = Box::new([0u8; 32768]);
        assert(data@ =~= Seq::new(32768, |i: int| 0u8));
        Cartridge { data, mapper: Mapper0 { nprg_banks: 0, nchr_banks: 0 }, populated: false }
    }

    /// The program ROM fills the window, whatever was loaded.
    pub proof fn lemma_size(&self)
        ensures
            self@.rom.len() == 32768,
    {
    }

    /// Reads the byte that a cartridge-relative address stands for.
    pub fn read(&mut self, address: u16) -> (value: u8)
        ensures
            value == old(self)@.byte_at(address),
            final(self)@ == old(self)@,
    {
        let offset: u16 = self.mapper.map_cpu_address(address);
        self.data[offset as usize]
    }

    /// A write to ROM changes nothing.
    pub fn write(&mut self, address: u16)
        ensures
            final(self)@ == old(self)@,
    {
    }

    /// Whether an image has been loaded.
    pub fn is_populated(&self) -> (populated: bool)
        ensures
            populated == self@.populated,
    {
        self.populated
    }

    /// Number of program-ROM banks of the loaded image.
    pub fn prg_banks(&self) -> (count: u8)
        ensures
            count == self@.prg_banks,
    {
        self.mapper.nprg_banks
    }

    /// Number of character-ROM banks of the loaded image.
    pub fn chr_banks(&self) -> (count: u8)
        ensures
            count == self@.chr_banks,
    {
        self.mapper.nchr_banks
    }

    /// Loads an image: a header of `HEADER_SIZE` bytes, then the program
    /// ROM. An image without a complete header is refused and the
    /// cartridge stays as it was.
    pub fn load(&mut self, image: &[u8]) -> (result: Result<(), LoadError>)
        ensures
            result == CartridgeModel::load_result(image@),
            final(self)@ == old(self)@.after_load(image@),
    {
        if image.len() == 0 {
            return Err(LoadError::Missing);
        }
        if image.len() < HEADER_SIZE {
            return Err(LoadError::Truncated);
        }
        let payload: usize = image.len() - HEADER_SIZE;
        let mut i: usize = 0;
        while i < ROM_WINDOW
            invariant
                i <= 32768,
                image@.len() >= 16,
                payload == image@.len() - 16,
                forall|k: int|
                    0 <= k < i ==> self.data@[k] == (if 16 + k < image@.len() {
                        image@[16 + k]
                    } else {
                        0u8
                    }),
            decreases 32768 - i,
        {
            if i < payload {
                self.data[i] = image[HEADER_SIZE + i];
            } else {
                self.data[i] = 0;
            }
            i += 1;
        }
        self.mapper = Mapper0 {
            nprg_banks: image[PRG_COUNT_OFFSET],
            nchr_banks: image[CHR_COUNT_OFFSET],
        };
        self.populated = true;
        assert(self.data@ =~= CartridgeModel::from_image(image@).rom);
        Ok(())
    }
}

/// With a single bank of program ROM, address 0 and the address one bank
/// further on read the same byte, and so does every pair of addresses one
/// bank apart.
pub proof fn lemma_single_bank_reads_mirror(cart: CartridgeModel, address: u16)
    requires
        cart.prg_banks <= 1,
        address < 0x4000,
    ensures
        cart.byte_at((address + 0x4000) as u16) == cart.byte_at(address),
        cart.byte_at(0x4000) == cart.byte_at(0),
{
}

/// An image that is too short leaves the cartridge as it was, and is
/// reported; any other image is accepted.
pub proof fn lemma_short_image_is_refused(cart: CartridgeModel, image: Seq<u8>)
    ensures
        image.len() < 16 <==> CartridgeModel::load_result(image) is Err,
        image.len() < 16 ==> cart.after_load(image) == cart,
        !cart.populated && image.len() < 16 ==> !cart.after_load(image).populated,
{
}

} // verus!
