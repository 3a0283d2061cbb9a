//! Work RAM: a flat byte array that is reached through mirrored addresses.

use vstd::prelude::*;

verus! {

/// Number of bytes of work RAM.
pub const RAM_SIZE: usize = 2048;

/// Number of bytes in one page.
pub const PAGE_SIZE: usize = 256;

/// The cell of RAM that an address aliases to: the address modulo the size
/// of the RAM.
pub open spec fn mirror(address: u16) -> int {
    address as int % 2048
}

/// The page `page` of a RAM with the given contents, read through the mirror.
pub open spec fn page_of(cells: Seq<u8>, page: u8) -> Seq<u8> {
    Seq::new(256, |i: int| cells[(page as int * 256 + i) % 2048])
}

/// The work RAM of the console.
pub struct RAM {
    data: Box<[u8; 2048]>,
}

impl View for RAM {
    type V = Seq<u8>;

    closed spec fn view(&self) -> Seq<u8> {
        self.data@
    }
}

impl RAM {
    /// A RAM with every cell zero.
    pub fn new() -> (ram: RAM)
        ensures
            ram@ == Seq::new(2048, |i: int| 0u8),
    {
        let data: Box<[u8; 2048]> = Box::new([0u8; 2048]);
        assert(data@ =~= Seq::new(2048, |i: int| 0u8));
        RAM { data }
    }

    /// A RAM holds `RAM_SIZE` cells, whatever was written to it.
    pub proof fn lemma_size(&self)
        ensures
            self@.len() == 2048,
    {
    }

    /// Reads the cell that `address` aliases to. The RAM is left as it was.
    pub fn read(&mut self, address: u16) -> (value: u8)
        ensures
            value == old(self)@[mirror(address)],
            final(self)@ == old(self)@,
    {
        proof {
            lemma_mask_is_mirror(address);
        }
        self.data[(address & 0x07FF) as usize]
    }

    /// Stores `data` in the cell that `address` aliases to, and changes no
    /// other cell.
    pub fn write(&mut self, address: u16, data: u8)
        ensures
            final(self)@ == old(self)@.update(mirror(address), data),
    {
        proof {
            lemma_mask_is_mirror(address);
        }
        self.data[(address & 0x07FF) as usize] = data;
    }

    /// Copies out one page of 256 bytes, each byte read through the mirror.
    pub fn get_page(&mut self, page: u8) -> (bytes: [u8; 256])
        ensures
            bytes@ == page_of(old(self)@, page),
            final(self)@ == old(self)@,
    {
        let base: u16 = (page as u16) << 8;
        assert(base as int == page as int * 256) by (bit_vector)
            requires
                base == (page as u16) << 8,
        ;
        let mut bytes: [u8; 256] = [0u8; 256];
        let mut i: usize = 0;
        while i < PAGE_SIZE
            invariant
                i <= 256,
                base as int == page as int * 256,
                forall|k: int| 0 <= k < i ==> bytes@[k] == self.data@[(page as int * 256 + k) % 2048],
            decreases 256 - i,
        {
            let address: u16 = base + i as u16;
            proof {
                lemma_mask_is_mirror(address);
            }
            bytes[i] = self.data[(address & 0x07FF) as usize];
            i += 1;
        }
        assert(bytes@ =~= page_of(self.data@, page));
        bytes
    }
}

/// Masking an address with the size less one selects the mirrored cell.
pub proof fn lemma_mask_is_mirror(address: u16)
    ensures
        (address & 0x07FF) as int == mirror(address),
        0 <= mirror(address) < 2048,
{
    assert((address & 0x07FF) == address % 2048) by (bit_vector);
}

} // verus!
