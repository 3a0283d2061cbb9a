//! The picture-processing unit: its registers as the CPU sees them, its
//! video memory and sprite memory, and its dot and scanline counters.

use vstd::prelude::*;

verus! {

/// Number of bytes of video memory.
pub const VRAM_SIZE: usize = 16384;

/// Number of bytes of sprite memory (OAM).
pub const OAM_SIZE: usize = 256;

/// Number of bytes of the frame buffer: 256 by 240 pixels, three bytes each.
pub const FRAME_BUFFER_SIZE: usize = 184320;

/// Number of dots in a scanline.
pub const DOTS_PER_SCANLINE: u16 = 341;

/// Number of scanlines in a frame.
pub const SCANLINES_PER_FRAME: u16 = 262;

/// Bit of the control register that selects the step of the video
/// address: clear for 1 (across), set for 32 (down).
pub const CTRL_INCREMENT_DOWN: u8 = 0x04;

/// Bit of the status register that signals vertical blank.
pub const STATUS_VBLANK: u8 = 0x80;

/// The register that an address selects: the registers repeat every eight
/// addresses.
pub open spec fn register_of(address: u16) -> int {
    address as int % 8
}

/// The cell of video memory that a video address selects.
pub open spec fn vram_cell(addr: u16) -> int {
    addr as int % 16384
}

/// A register value with the vertical-blank bit cleared.
pub open spec fn without_vblank(status: u8) -> u8 {
    if status >= 128 {
        (status - 128) as u8
    } else {
        status
    }
}

/// The video address after one access: it moves on by 32 where the
/// control register asks for steps down, else by 1, and wraps at 16 bits.
pub open spec fn next_vram_addr(addr: u16, ctrl: u8) -> u16 {
    if (ctrl as int / 4) % 2 == 1 {
        ((addr as int + 32) % 0x10000) as u16
    } else {
        ((addr as int + 1) % 0x10000) as u16
    }
}

/// A 16-bit value whose high half is `byte` and whose low half is zero.
pub open spec fn high_half(byte: u8) -> u16 {
    (byte as int * 256) as u16
}

/// The 16-bit value with the high half of `value` and `byte` as low half.
pub open spec fn with_low_half(value: u16, byte: u8) -> u16 {
    ((value as int / 256) * 256 + byte as int) as u16
}

/// What the picture-processing unit holds.
pub struct PpuModel {
    /// Control register.
    pub ctrl: u8,
    /// Mask register.
    pub mask: u8,
    /// Status register.
    pub status: u8,
    /// Address in sprite memory of the next access.
    pub oam_addr: u8,
    /// Scroll position, set by two writes.
    pub scroll: u16,
    /// Address in video memory of the next access, set by two writes.
    pub addr: u16,
    /// Video memory, `VRAM_SIZE` bytes.
    pub vram: Seq<u8>,
    /// Sprite memory, `OAM_SIZE` bytes.
    pub oam: Seq<u8>,
    /// The value being assembled by the two-write registers.
    pub temp_address: u16,
    /// The write latch: whether the next write to a two-write register is
    /// the first of the two.
    pub first_write: bool,
    /// Dot within the scanline.
    pub dot: u16,
    /// Scanline within the frame.
    pub scanline: u16,
    /// Whether the latest tick completed a frame.
    pub frame_done: bool,
    /// The pixels of the current frame.
    pub frame_buffer: Seq<u8>,
}

impl PpuModel {
    /// The unit as it is at power-on.
    pub open spec fn initial() -> PpuModel {
        PpuModel {
            ctrl: 0,
            mask: 0,
            status: 0,
            oam_addr: 0,
            scroll: 0,
            addr: 0,
            vram: Seq::new(16384, |i: int| 0u8),
            oam: Seq::new(256, |i: int| 0u8),
            temp_address: 0,
            first_write: true,
            dot: 0,
            scanline: 0,
            frame_done: false,
            frame_buffer: Seq::new(184320, |i: int| 0u8),
        }
    }

    /// The counters are inside the frame and the memories have their size.
    pub open spec fn wf(self) -> bool {
        &&& self.dot <= 340
        &&& self.scanline <= 261
        &&& self.vram.len() == 16384
        &&& self.oam.len() == 256
        &&& self.frame_buffer.len() == 184320
    }

    /// The byte that the CPU reads at `address`.
    pub open spec fn read_value(self, address: u16) -> u8 {
        let register = register_of(address);
        if register == 0 {
            self.ctrl
        } else if register == 1 {
            self.mask
        } else if register == 2 {
            self.status
        } else if register == 3 {
            self.oam_addr
        } else if register == 4 {
            self.oam[self.oam_addr as int]
        } else if register == 7 {
            self.vram[vram_cell(self.addr)]
        } else {
            0
        }
    }

    /// The unit after the CPU has read at `address`. A read of the status
    /// register ends vertical blank and resets the write latch; a read of
    /// the video data register moves the video address on.
    pub open spec fn after_read(self, address: u16) -> PpuModel {
        let register = register_of(address);
        if register == 2 {
            PpuModel { status: without_vblank(self.status), first_write: true, ..self }
        } else if register == 7 {
            PpuModel { addr: next_vram_addr(self.addr, self.ctrl), ..self }
        } else {
            self
        }
    }

    /// The unit after the first or second write of `data` to a two-write
    /// register; `to_addr` tells the video address from the scroll position.
    pub open spec fn after_double_write(self, data: u8, to_addr: bool) -> PpuModel {
        if self.first_write {
            PpuModel { temp_address: high_half(data), first_write: false, ..self }
        } else {
            let whole = with_low_half(self.temp_address, data);
            if to_addr {
                PpuModel { temp_address: whole, addr: whole, first_write: true, ..self }
            } else {
                PpuModel { temp_address: whole, scroll: whole, first_write: true, ..self }
            }
        }
    }

    /// The unit after the CPU has written `data` at `address`.
    pub open spec fn after_write(self, address: u16, data: u8) -> PpuModel {
        let register = register_of(address);
        if register == 0 {
            PpuModel { ctrl: data, ..self }
        } else if register == 1 {
            PpuModel { mask: data, ..self }
        } else if register == 2 {
            PpuModel { status: data, ..self }
        } else if register == 3 {
            PpuModel { oam_addr: data, ..self }
        } else if register == 4 {
            PpuModel {
                oam: self.oam.update(self.oam_addr as int, data),
                oam_addr: ((self.oam_addr as int + 1) % 256) as u8,
                ..self
            }
        } else if register == 5 {
            self.after_double_write(data, false)
        } else if register == 6 {
            self.after_double_write(data, true)
        } else {
            PpuModel {
                vram: self.vram.update(vram_cell(self.addr), data),
                addr: next_vram_addr(self.addr, self.ctrl),
                ..self
            }
        }
    }

    /// The unit after a page has been copied into sprite memory.
    pub open spec fn after_dma(self, page: Seq<u8>) -> PpuModel {
        PpuModel { oam: page, ..self }
    }

    /// Whether the next tick completes a frame: the unit is at the last
    /// dot of the last scanline.
    pub open spec fn at_frame_end(self) -> bool {
        self.dot >= 340 && self.scanline >= 261
    }

    /// The unit one dot later. The dot wraps first and moves the scanline
    /// on; the scanline wraps last and completes the frame.
    pub open spec fn tick(self) -> PpuModel {
        if self.dot < 340 {
            PpuModel { dot: (self.dot + 1) as u16, frame_done: false, ..self }
        } else if self.scanline < 261 {
            PpuModel { dot: 0, scanline: (self.scanline + 1) as u16, frame_done: false, ..self }
        } else {
            PpuModel { dot: 0, scanline: 0, frame_done: true, ..self }
        }
    }

    /// The unit `n` dots later.
    pub open spec fn advance(self, n: nat) -> PpuModel
        decreases n,
    {
        if n == 0 {
            self
        } else {
            self.advance((n - 1) as nat).tick()
        }
    }

    /// How many of the next `n` ticks complete a frame.
    pub open spec fn frames_completed(self, n: nat) -> nat
        decreases n,
    {
        if n == 0 {
            0
        } else {
            self.frames_completed((n - 1) as nat) + (if self.advance((n - 1) as nat).at_frame_end() {
                1nat
            } else {
                0nat
            })
        }
    }

    /// How many dots of the frame have gone by.
    pub open spec fn position(self) -> int {
        self.scanline as int * 341 + self.dot as int
    }
}

/// The picture-processing unit.
pub struct PPU {
    ctrl: u8,
    mask: u8,
    status: u8,
    oam_addr: u8,
    scroll: u16,
    addr: u16,
    vram: Box<[u8; 16384]>,
    oam: Box<[u8; 256]>,
    temp_address: u16,
    first_write: bool,
    dot: u16,
    scanline: u16,
    frame_done: bool,
    frame_buffer: Box<[u8; 184320]>,
}

impl View for PPU {
    type V = PpuModel;

    closed spec fn view(&self) -> PpuModel {
        PpuModel {
            ctrl: self.ctrl,
            mask: self.mask,
            status: self.status,
            oam_addr: self.oam_addr,
            scroll: self.scroll,
            addr: self.addr,
            vram: self.vram@,
            oam: self.oam@,
            temp_address: self.temp_address,
            first_write: self.first_write,
            dot: self.dot,
            scanline: self.scanline,
            frame_done: self.frame_done,
            frame_buffer: self.frame_buffer@,
        }
    }
}

impl PPU {
    /// The counters never leave the frame.
    #[verifier::type_invariant]
    closed spec fn counters_in_frame(self) -> bool {
        self.dot <= 340 && self.scanline <= 261
    }

    /// The unit as it is at power-on: registers and memories zero, the
    /// write latch reset, the counters at the start of the frame.
    pub fn new() -> (ppu: PPU)
        ensures
            ppu@ == PpuModel::initial(),
    {
        let vram: Box<[u8; 16384]> = Box::new([0u8; 16384]);
        let oam: Box<[u8; 256]> = Box::new([0u8; 256]);
        let frame_buffer: Box<[u8; 184320]> = Box::new([0u8; 184320]);
        assert(vram@ =~= Seq::new(16384, |i: int| 0u8));
        assert(oam@ =~= Seq::new(256, |i: int| 0u8));
        assert(frame_buffer@ =~= Seq::new(184320, |i: int| 0u8));
        PPU {
            ctrl: 0,
            mask: 0,
            status: 0,
            oam_addr: 0,
            scroll: 0,
            addr: 0,
            vram,
            oam,
            temp_address: 0,
            first_write: true,
            dot: 0,
            scanline: 0,
            frame_done: false,
            frame_buffer,
        }
    }

    /// A read on the PPU's own bus. Nothing is mapped there: it gives zero.
    pub fn read(&mut self, address: u16) -> (value: u8)
        ensures
            value == 0,
            final(self)@ == old(self)@,
    {
        0
    }

    /// A write on the PPU's own bus. Nothing is mapped there: it is
    /// discarded.
    pub fn write(&mut self, address: u16, data: u8)
        ensures
            final(self)@ == old(self)@,
    {
    }

    /// A read by the CPU of the register that `address` selects.
    pub fn cpu_read(&mut self, address: u16) -> (value: u8)
        ensures
            value == old(self)@.read_value(address),
            final(self)@ == old(self)@.after_read(address),
            final(self)@.wf(),
    {
        proof {
            use_type_invariant(&*self);
            lemma_register_mask(address);
            lemma_vram_mask(self.addr);
        }
        let register: u16 = address & 0x0007;
        if register == 0 {
            self.ctrl
        } else if register == 1 {
            self.mask
        } else if register == 2 {
            let value: u8 = self.status;
            proof {
                lemma_clear_vblank(value);
            }
            self.status = value & 0x7F;
            self.first_write = true;
            value
        } else if register == 3 {
            self.oam_addr
        } else if register == 4 {
            self.oam[self.oam_addr as usize]
        } else if register == 7 {
            let value: u8 = self.vram[(self.addr & 0x3FFF) as usize];
            self.addr = self.stepped_addr();
            value
        } else {
            0
        }
    }

    /// The video address after one access.
    fn stepped_addr(&self) -> (next: u16)
        ensures
            next == next_vram_addr(self@.addr, self@.ctrl),
    {
        proof {
            lemma_increment_bit(self.ctrl);
        }
        if self.ctrl & CTRL_INCREMENT_DOWN == 0 {
            self.addr.wrapping_add(1)
        } else {
            self.addr.wrapping_add(32)
        }
    }

    /// One write of `data` to a two-write register.
    fn double_write(&mut self, data: u8, to_addr: bool)
        ensures
            final(self)@ == old(self)@.after_double_write(data, to_addr),
    {
        proof {
            use_type_invariant(&*self);
        }
        if self.first_write {
            proof {
                lemma_halves(self.temp_address, data);
            }
            self.temp_address = (data as u16) << 8;
            self.first_write = false;
        } else {
            proof {
                lemma_halves(self.temp_address, data);
            }
            let whole: u16 = (self.temp_address & 0xFF00) | (data as u16);
            self.temp_address = whole;
            if to_addr {
                self.addr = whole;
            } else {
                self.scroll = whole;
            }
            self.first_write = true;
        }
    }

    /// A write by the CPU of `data` to the register that `address` selects.
    pub fn cpu_write(&mut self, address: u16, data: u8)
        ensures
            final(self)@ == old(self)@.after_write(address, data),
            final(self)@.wf(),
    {
        proof {
            use_type_invariant(&*self);
            lemma_register_mask(address);
            lemma_vram_mask(self.addr);
        }
        let register: u16 = address & 0x0007;
        if register == 0 {
            self.ctrl = data;
        } else if register == 1 {
            self.mask = data;
        } else if register == 2 {
            self.status = data;
        } else if register == 3 {
            self.oam_addr = data;
        } else if register == 4 {
            self.oam[self.oam_addr as usize] = data;
            self.oam_addr = self.oam_addr.wrapping_add(1);
        } else if register == 5 {
            self.double_write(data, false);
        } else if register == 6 {
            self.double_write(data, true);
        } else {
            self.vram[(self.addr & 0x3FFF) as usize] = data;
            self.addr = self.stepped_addr();
        }
    }

    /// Replaces the whole of sprite memory by `data`.
    #[allow(non_snake_case)]
    pub fn OAMDMA(&mut self, data: [u8; 256])
        ensures
            final(self)@ == old(self)@.after_dma(data@),
            final(self)@.wf(),
    {
        proof {
            use_type_invariant(&*self);
        }
        self.oam = Box::new(data);
    }

    /// Moves on by one dot, and tells whether that completed a frame.
    pub fn clock(&mut self) -> (frame_done: bool)
        ensures
            final(self)@ == old(self)@.tick(),
            frame_done == old(self)@.at_frame_end(),
            frame_done == final(self)@.frame_done,
            final(self)@.wf(),
    {
        proof {
            use_type_invariant(&*self);
        }
        if self.dot < DOTS_PER_SCANLINE - 1 {
            self.dot = self.dot + 1;
            self.frame_done = false;
        } else if self.scanline < SCANLINES_PER_FRAME - 1 {
            self.dot = 0;
            self.scanline = self.scanline + 1;
            self.frame_done = false;
        } else {
            self.dot = 0;
            self.scanline = 0;
            self.frame_done = true;
        }
        self.frame_done
    }

    /// The control register.
    pub fn control(&self) -> (value: u8)
        ensures
            value == self@.ctrl,
    {
        self.ctrl
    }

    /// The mask register.
    pub fn mask(&self) -> (value: u8)
        ensures
            value == self@.mask,
    {
        self.mask
    }

    /// The status register. Looking at it here is no read by the CPU: it
    /// changes nothing.
    pub fn status(&self) -> (value: u8)
        ensures
            value == self@.status,
    {
        self.status
    }

    /// The address in sprite memory of the next access.
    pub fn oam_address(&self) -> (value: u8)
        ensures
            value == self@.oam_addr,
    {
        self.oam_addr
    }

    /// The scroll position.
    pub fn scroll(&self) -> (value: u16)
        ensures
            value == self@.scroll,
    {
        self.scroll
    }

    /// The address in video memory of the next access.
    pub fn vram_address(&self) -> (value: u16)
        ensures
            value == self@.addr,
    {
        self.addr
    }

    /// The write latch: whether the next write to a two-write register is
    /// the first of its pair.
    pub fn write_latch(&self) -> (first: bool)
        ensures
            first == self@.first_write,
    {
        self.first_write
    }

    /// The dot within the scanline, from 0 to 340.
    pub fn dot(&self) -> (dot: u16)
        ensures
            dot == self@.dot,
            dot <= 340,
    {
        proof {
            use_type_invariant(self);
        }
        self.dot
    }

    /// The scanline within the frame, from 0 to 261.
    pub fn scanline(&self) -> (scanline: u16)
        ensures
            scanline == self@.scanline,
            scanline <= 261,
    {
        proof {
            use_type_invariant(self);
        }
        self.scanline
    }

    /// Whether the latest tick completed a frame.
    pub fn frame_done(&self) -> (done: bool)
        ensures
            done == self@.frame_done,
    {
        self.frame_done
    }

    /// The pixels of the current frame.
    pub fn frame_buffer(&self) -> (pixels: &[u8; 184320])
        ensures
            pixels@ == self@.frame_buffer,
    {
        &*self.frame_buffer
    }
}

/// Masking an address with 7 selects its register.
pub proof fn lemma_register_mask(address: u16)
    ensures
        (address & 0x0007) as int == register_of(address),
        0 <= register_of(address) < 8,
{
    assert(address & 0x0007 == address % 8) by (bit_vector);
}

/// Masking a video address with the size less one selects its cell.
pub proof fn lemma_vram_mask(addr: u16)
    ensures
        (addr & 0x3FFF) as int == vram_cell(addr),
        0 <= vram_cell(addr) < 16384,
{
    assert(addr & 0x3FFF == addr % 16384) by (bit_vector);
}

/// Masking a status byte with 0x7F clears the vertical-blank bit.
pub proof fn lemma_clear_vblank(status: u8)
    ensures
        status & 0x7F == without_vblank(status),
{
    assert(status & 0x7F == (if status >= 128 {
        (status - 128) as u8
    } else {
        status
    })) by (bit_vector);
}

/// The increment bit of the control register, tested by mask.
pub proof fn lemma_increment_bit(ctrl: u8)
    ensures
        (ctrl & 0x04 == 0) == !((ctrl as int / 4) % 2 == 1),
{
    assert((ctrl & 0x04 == 0) == !((ctrl / 4) % 2 == 1)) by (bit_vector);
}

/// The halves of a 16-bit value, by shift and mask.
pub proof fn lemma_halves(value: u16, byte: u8)
    ensures
        (byte as u16) << 8 == high_half(byte),
        (value & 0xFF00) | (byte as u16) == with_low_half(value, byte),
{
    assert((byte as u16) << 8 == (byte as u16) * 256) by (bit_vector);
    assert((value & 0xFF00) | (byte as u16) == (value / 256) * 256 + (byte as u16)) by (bit_vector);
}

/// Number of dots in a frame: 341 dots on each of 262 scanlines.
pub open spec fn dots_per_frame() -> int {
    89342
}

/// A tick keeps the counters inside the frame and moves the position on by
/// one dot, back to zero from the last dot of the frame; only that tick
/// completes a frame.
pub proof fn lemma_tick_position(m: PpuModel)
    requires
        m.wf(),
    ensures
        m.tick().wf(),
        0 <= m.position() < dots_per_frame(),
        m.tick().position() == (m.position() + 1) % dots_per_frame(),
        m.at_frame_end() <==> m.position() + 1 == dots_per_frame(),
        m.tick().frame_done == m.at_frame_end(),
{
}

/// After `n` ticks the position has moved on by `n` dots around the frame,
/// and a frame was completed each time the position came round.
pub proof fn lemma_advance_position(m: PpuModel, n: nat)
    requires
        m.wf(),
    ensures
        m.advance(n).wf(),
        m.advance(n).position() == (m.position() + n) % dots_per_frame(),
        m.frames_completed(n) == (m.position() + n) / dots_per_frame(),
    decreases n,
{
    if n > 0 {
        let before = m.advance((n - 1) as nat);
        lemma_advance_position(m, (n - 1) as nat);
        lemma_tick_position(before);
        assert(m.advance(n) == before.tick());
        let p = m.position() + n - 1;
        assert(before.position() == p % 89342);
        assert((p + 1) % 89342 == (p % 89342 + 1) % 89342);
        assert((p + 1) / 89342 == p / 89342 + (if p % 89342 + 1 == 89342 {
            1int
        } else {
            0int
        }));
    }
}

/// After exactly 341 times 262 ticks the counters are where they were and
/// exactly one frame has been completed. From the start of a frame that
/// is: the counters are back at dot 0 of scanline 0.
pub proof fn lemma_frame_period(m: PpuModel)
    requires
        m.wf(),
    ensures
        m.advance(89342).dot == m.dot,
        m.advance(89342).scanline == m.scanline,
        m.frames_completed(89342) == 1,
{
    lemma_advance_position(m, 89342);
    lemma_tick_position(m);
    lemma_tick_position(m.advance(89342));
}

/// Ticks change nothing but the counters and the frame signal.
pub proof fn lemma_advance_keeps_registers(m: PpuModel, n: nat)
    ensures
        m.advance(n) == (PpuModel {
            dot: m.advance(n).dot,
            scanline: m.advance(n).scanline,
            frame_done: m.advance(n).frame_done,
            ..m
        }),
    decreases n,
{
    if n > 0 {
        lemma_advance_keeps_registers(m, (n - 1) as nat);
    }
}

/// Reads and writes by the CPU, and a copy into sprite memory of a page of
/// 256 bytes, leave the counters alone and keep the unit well-formed.
pub proof fn lemma_register_access_keeps_wf(m: PpuModel, address: u16, data: u8, page: Seq<u8>)
    requires
        m.wf(),
        page.len() == 256,
    ensures
        m.after_read(address).wf(),
        m.after_write(address, data).wf(),
        m.after_dma(page).wf(),
        m.after_read(address).position() == m.position(),
        m.after_write(address, data).position() == m.position(),
{
}

/// The write latch: a write to the scroll or the video-address register
/// flips it, and a read of the status register resets it.
pub proof fn lemma_write_latch(m: PpuModel, address: u16, data: u8)
    ensures
        register_of(address) == 5 || register_of(address) == 6 ==> m.after_write(
            address,
            data,
        ).first_write == !m.first_write,
        register_of(address) == 2 ==> m.after_read(address).first_write,
        register_of(address) == 2 ==> m.after_read(address).status < 128,
{
}

} // verus!
