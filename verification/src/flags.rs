//! The processor status register: seven named flags.

use vstd::prelude::*;

verus! {

/// The name of one flag of the status register.
#[derive(Clone, Copy, Debug, PartialEq, Eq, Structural)]
pub enum Flag {
    Carry,
    Zero,
    InterruptDisable,
    Decimal,
    Break,
    Overflow,
    Negative,
}

/// The status register. Each named flag is held as a boolean; the byte
/// that the hardware would show is computed by `bits`.
#[derive(Clone, Copy, Debug, PartialEq, Eq, Structural)]
pub struct StatusFlags {
    pub carry: bool,
    pub zero: bool,
    pub interrupt_disable: bool,
    pub decimal: bool,
    pub brk: bool,
    pub overflow: bool,
    pub negative: bool,
}

/// The weight of a flag in the status byte: the value of its bit.
pub open spec fn weight(flag: Flag) -> int {
    match flag {
        Flag::Carry => 1,
        Flag::Zero => 2,
        Flag::InterruptDisable => 4,
        Flag::Decimal => 8,
        Flag::Break => 16,
        Flag::Overflow => 64,
        Flag::Negative => 128,
    }
}

/// The value of the bit that no flag uses. The hardware shows it as set
/// whenever the status byte is pushed on the stack.
pub const UNUSED_BIT: u8 = 0x20;

/// Whether the bit of weight `w` (a power of two) is set in `byte`.
pub open spec fn bit_is_set(byte: u8, w: int) -> bool {
    (byte as int / w) % 2 == 1
}

impl StatusFlags {
    /// Whether `flag` is set.
    pub open spec fn has(self, flag: Flag) -> bool {
        match flag {
            Flag::Carry => self.carry,
            Flag::Zero => self.zero,
            Flag::InterruptDisable => self.interrupt_disable,
            Flag::Decimal => self.decimal,
            Flag::Break => self.brk,
            Flag::Overflow => self.overflow,
            Flag::Negative => self.negative,
        }
    }

    /// The register with `flag` given the value `value` and every other
    /// flag as it was.
    pub open spec fn with(self, flag: Flag, value: bool) -> StatusFlags {
        match flag {
            Flag::Carry => StatusFlags { carry: value, ..self },
            Flag::Zero => StatusFlags { zero: value, ..self },
            Flag::InterruptDisable => StatusFlags { interrupt_disable: value, ..self },
            Flag::Decimal => StatusFlags { decimal: value, ..self },
            Flag::Break => StatusFlags { brk: value, ..self },
            Flag::Overflow => StatusFlags { overflow: value, ..self },
            Flag::Negative => StatusFlags { negative: value, ..self },
        }
    }

    /// The register with Zero and Negative taken from `value`: Zero is set
    /// when the value is zero, Negative when it is 128 or more.
    pub open spec fn with_zn(self, value: u8) -> StatusFlags {
        StatusFlags { zero: value == 0, negative: value >= 128, ..self }
    }

    /// The register with no flag set.
    pub open spec fn spec_empty() -> StatusFlags {
        StatusFlags {
            carry: false,
            zero: false,
            interrupt_disable: false,
            decimal: false,
            brk: false,
            overflow: false,
            negative: false,
        }
    }

    /// The status byte: the sum of the weights of the flags that are set.
    pub open spec fn spec_bits(self) -> int {
        (if self.carry { 1int } else { 0 })
            + (if self.zero { 2int } else { 0 })
            + (if self.interrupt_disable { 4int } else { 0 })
            + (if self.decimal { 8int } else { 0 })
            + (if self.brk { 16int } else { 0 })
            + (if self.overflow { 64int } else { 0 })
            + (if self.negative { 128int } else { 0 })
    }

    /// The register that a byte stands for; the unused bit is dropped.
    pub open spec fn spec_from_bits(byte: u8) -> StatusFlags {
        StatusFlags {
            carry: bit_is_set(byte, 1),
            zero: bit_is_set(byte, 2),
            interrupt_disable: bit_is_set(byte, 4),
            decimal: bit_is_set(byte, 8),
            brk: bit_is_set(byte, 16),
            overflow: bit_is_set(byte, 64),
            negative: bit_is_set(byte, 128),
        }
    }

    /// The byte that is pushed on the stack: the status byte with the
    /// unused bit set.
    pub open spec fn spec_pushed_byte(self) -> int {
        self.spec_bits() + 32
    }

    /// The register with no flag set.
    pub fn empty() -> (flags: StatusFlags)
        ensures
            flags == StatusFlags::spec_empty(),
    {
        StatusFlags {
            carry: false,
            zero: false,
            interrupt_disable: false,
            decimal: false,
            brk: false,
            overflow: false,
            negative: false,
        }
    }

    /// The status byte.
    pub fn bits(&self) -> (byte: u8)
        ensures
            byte as int == self.spec_bits(),
    {
        let mut byte: u8 = 0;
        if self.carry {
            byte = byte + 0x01;
        }
        if self.zero {
            byte = byte + 0x02;
        }
        if self.interrupt_disable {
            byte = byte + 0x04;
        }
        if self.decimal {
            byte = byte + 0x08;
        }
        if self.brk {
            byte = byte + 0x10;
        }
        if self.overflow {
            byte = byte + 0x40;
        }
        if self.negative {
            byte = byte + 0x80;
        }
        byte
    }

    /// The status byte as the hardware pushes it: with the unused bit set.
    pub fn pushed_byte(&self) -> (byte: u8)
        ensures
            byte as int == self.spec_pushed_byte(),
    {
        self.bits() + UNUSED_BIT
    }

    /// The register that `byte` stands for. The unused bit is dropped.
    pub fn from_bits_truncate(byte: u8) -> (flags: StatusFlags)
        ensures
            flags == StatusFlags::spec_from_bits(byte),
    {
        proof {
            lemma_masks_select_bits(byte);
        }
        StatusFlags {
            carry: byte & 0x01 != 0,
            zero: byte & 0x02 != 0,
            interrupt_disable: byte & 0x04 != 0,
            decimal: byte & 0x08 != 0,
            brk: byte & 0x10 != 0,
            overflow: byte & 0x40 != 0,
            negative: byte & 0x80 != 0,
        }
    }

    /// Whether `flag` is set.
    pub fn contains(&self, flag: Flag) -> (set: bool)
        ensures
            set == self.has(flag),
    {
        match flag {
            Flag::Carry => self.carry,
            Flag::Zero => self.zero,
            Flag::InterruptDisable => self.interrupt_disable,
            Flag::Decimal => self.decimal,
            Flag::Break => self.brk,
            Flag::Overflow => self.overflow,
            Flag::Negative => self.negative,
        }
    }

    /// Gives `flag` the value `value` and leaves the other flags alone.
    pub fn set(&mut self, flag: Flag, value: bool)
        ensures
            *final(self) == old(self).with(flag, value),
    {
        match flag {
            Flag::Carry => {
                self.carry = value;
            },
            Flag::Zero => {
                self.zero = value;
            },
            Flag::InterruptDisable => {
                self.interrupt_disable = value;
            },
            Flag::Decimal => {
                self.decimal = value;
            },
            Flag::Break => {
                self.brk = value;
            },
            Flag::Overflow => {
                self.overflow = value;
            },
            Flag::Negative => {
                self.negative = value;
            },
        }
    }

    /// Sets `flag`.
    pub fn insert(&mut self, flag: Flag)
        ensures
            *final(self) == old(self).with(flag, true),
    {
        self.set(flag, true);
    }

    /// Clears `flag`.
    pub fn remove(&mut self, flag: Flag)
        ensures
            *final(self) == old(self).with(flag, false),
    {
        self.set(flag, false);
    }

    /// Takes Zero and Negative from `value`.
    pub fn set_zn(&mut self, value: u8)
        ensures
            *final(self) == old(self).with_zn(value),
    {
        self.zero = value == 0;
        self.negative = value >= 0x80;
    }
}

/// A mask with one bit set tests the bit of that weight.
pub proof fn lemma_masks_select_bits(byte: u8)
    ensures
        (byte & 0x01 != 0) == bit_is_set(byte, 1),
        (byte & 0x02 != 0) == bit_is_set(byte, 2),
        (byte & 0x04 != 0) == bit_is_set(byte, 4),
        (byte & 0x08 != 0) == bit_is_set(byte, 8),
        (byte & 0x10 != 0) == bit_is_set(byte, 16),
        (byte & 0x20 != 0) == bit_is_set(byte, 32),
        (byte & 0x40 != 0) == bit_is_set(byte, 64),
        (byte & 0x80 != 0) == bit_is_set(byte, 128),
{
    assert((byte & 0x01 != 0) == ((byte / 1) % 2 == 1) && (byte & 0x02 != 0) == ((byte / 2) % 2
        == 1) && (byte & 0x04 != 0) == ((byte / 4) % 2 == 1) && (byte & 0x08 != 0) == ((byte / 8)
        % 2 == 1) && (byte & 0x10 != 0) == ((byte / 16) % 2 == 1) && (byte & 0x20 != 0) == ((byte
        / 32) % 2 == 1) && (byte & 0x40 != 0) == ((byte / 64) % 2 == 1) && (byte & 0x80 != 0) == ((
    byte / 128) % 2 == 1)) by (bit_vector);
}

/// A status byte read back gives the register it was made from.
pub proof fn lemma_bits_round_trip(flags: StatusFlags)
    ensures
        0 <= flags.spec_bits() < 256,
        !bit_is_set(flags.spec_bits() as u8, 32),
        StatusFlags::spec_from_bits(flags.spec_bits() as u8) == flags,
        StatusFlags::spec_from_bits(flags.spec_pushed_byte() as u8) == flags,
{
}

} // verus!
