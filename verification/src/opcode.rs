//! The instruction set: mnemonics, addressing modes, and the table that
//! gives each of the 256 opcodes its instruction.

use vstd::prelude::*;

verus! {

/// What an instruction does.
#[derive(Clone, Copy, Debug, PartialEq, Eq, Structural)]
pub enum Mnemonic {
    Adc,
    And,
    Asl,
    Bcc,
    Bcs,
    Beq,
    Bit,
    Bmi,
    Bne,
    Bpl,
    Brk,
    Bvc,
    Bvs,
    Clc,
    Cld,
    Cli,
    Clv,
    Cmp,
    Cpx,
    Cpy,
    Dec,
    Dex,
    Dey,
    Eor,
    Inc,
    Inx,
    Iny,
    Jmp,
    Jsr,
    Lda,
    Ldx,
    Ldy,
    Lsr,
    Nop,
    Ora,
    Pha,
    Php,
    Pla,
    Plp,
    Rol,
    Ror,
    Rti,
    Rts,
    Sbc,
    Sec,
    Sed,
    Sei,
    Sta,
    Stx,
    Sty,
    Tax,
    Tay,
    Tsx,
    Txa,
    Txs,
    Tya,
    /// An opcode without an instruction: it does nothing.
    Unimplemented,
}

/// The kind of work that an instruction does.
#[derive(Clone, Copy, Debug, PartialEq, Eq, Structural)]
pub enum Class {
    /// Arithmetic, logic and comparison on registers.
    Arithmetic,
    /// Shifts, rotations, and steps of a byte in memory.
    Shift,
    /// Loads, stores, transfers and steps of the index registers.
    Register,
    /// Branches, jumps, calls, returns and interrupts.
    Flow,
    /// Pushes and pulls, the flag instructions, and the instructions that
    /// do nothing.
    Stack,
}

/// How an instruction finds its operand.
#[derive(Clone, Copy, Debug, PartialEq, Eq, Structural)]
pub enum AddressingMode {
    /// No operand.
    Implicit,
    /// The accumulator is the operand.
    Accumulator,
    /// The byte after the opcode is the operand.
    Immediate,
    /// The byte after the opcode is an address in page zero.
    ZeroPage,
    /// An address in page zero, moved on by X within the page.
    ZeroPageIndexedX,
    /// An address in page zero, moved on by Y within the page.
    ZeroPageIndexedY,
    /// The two bytes after the opcode are the address, low byte first.
    Absolute,
    /// A 16-bit address, moved on by X.
    AbsoluteIndexedX,
    /// A 16-bit address, moved on by Y.
    AbsoluteIndexedY,
    /// The two bytes after the opcode point to the address.
    Indirect,
    /// A pointer in page zero, found at the operand moved on by X.
    IndexedIndirect,
    /// A pointer in page zero, whose value is moved on by Y.
    IndirectIndexed,
    /// A signed offset from the program counter.
    Relative,
}

/// One entry of the opcode table.
#[derive(Clone, Copy, Debug, PartialEq, Eq, Structural)]
pub struct Instruction {
    /// What the instruction does.
    pub name: Mnemonic,
    /// How it finds its operand.
    pub addressing: AddressingMode,
    /// The cycles it takes at least.
    pub cycles: u8,
    /// Whether it can take longer: a cycle more where its address crosses
    /// a page, or, for a branch, where the branch is taken.
    pub page_penalty: bool,
}

/// The table entry with the given fields.
pub open spec fn entry(
    name: Mnemonic,
    addressing: AddressingMode,
    cycles: u8,
    page_penalty: bool,
) -> Instruction {
    Instruction { name, addressing, cycles, page_penalty }
}

/// The entry of opcodes without an instruction.
pub open spec fn unimplemented_entry() -> Instruction {
    entry(Mnemonic::Unimplemented, AddressingMode::Implicit, 2, false)
}

impl AddressingMode {
    /// Number of operand bytes that follow the opcode.
    pub open spec fn operand_width(self) -> int {
        match self {
            AddressingMode::Implicit => 0,
            AddressingMode::Accumulator => 0,
            AddressingMode::Immediate => 1,
            AddressingMode::ZeroPage => 1,
            AddressingMode::ZeroPageIndexedX => 1,
            AddressingMode::ZeroPageIndexedY => 1,
            AddressingMode::IndexedIndirect => 1,
            AddressingMode::IndirectIndexed => 1,
            AddressingMode::Relative => 1,
            AddressingMode::Absolute => 2,
            AddressingMode::AbsoluteIndexedX => 2,
            AddressingMode::AbsoluteIndexedY => 2,
            AddressingMode::Indirect => 2,
        }
    }

    /// Whether the mode names a place in memory.
    pub open spec fn has_target(self) -> bool {
        match self {
            AddressingMode::Implicit => false,
            AddressingMode::Accumulator => false,
            AddressingMode::Immediate => false,
            AddressingMode::Relative => false,
            _ => true,
        }
    }

    /// Number of operand bytes that follow the opcode.
    pub fn operand_bytes(self) -> (width: u16)
        ensures
            width as int == self.operand_width(),
            width <= 2,
    {
        match self {
            AddressingMode::Implicit | AddressingMode::Accumulator => 0,
            AddressingMode::Absolute
            | AddressingMode::AbsoluteIndexedX
            | AddressingMode::AbsoluteIndexedY
            | AddressingMode::Indirect => 2,
            _ => 1,
        }
    }
}

impl Mnemonic {
    /// The kind of work that the instruction does.
    pub open spec fn spec_class(self) -> Class {
        match self {
            Mnemonic::Adc => Class::Arithmetic,
            Mnemonic::Sbc => Class::Arithmetic,
            Mnemonic::And => Class::Arithmetic,
            Mnemonic::Ora => Class::Arithmetic,
            Mnemonic::Eor => Class::Arithmetic,
            Mnemonic::Bit => Class::Arithmetic,
            Mnemonic::Cmp => Class::Arithmetic,
            Mnemonic::Cpx => Class::Arithmetic,
            Mnemonic::Cpy => Class::Arithmetic,
            Mnemonic::Asl => Class::Shift,
            Mnemonic::Lsr => Class::Shift,
            Mnemonic::Rol => Class::Shift,
            Mnemonic::Ror => Class::Shift,
            Mnemonic::Inc => Class::Shift,
            Mnemonic::Dec => Class::Shift,
            Mnemonic::Inx => Class::Register,
            Mnemonic::Iny => Class::Register,
            Mnemonic::Dex => Class::Register,
            Mnemonic::Dey => Class::Register,
            Mnemonic::Lda => Class::Register,
            Mnemonic::Ldx => Class::Register,
            Mnemonic::Ldy => Class::Register,
            Mnemonic::Sta => Class::Register,
            Mnemonic::Stx => Class::Register,
            Mnemonic::Sty => Class::Register,
            Mnemonic::Tax => Class::Register,
            Mnemonic::Tay => Class::Register,
            Mnemonic::Txa => Class::Register,
            Mnemonic::Tya => Class::Register,
            Mnemonic::Tsx => Class::Register,
            Mnemonic::Txs => Class::Register,
            Mnemonic::Bcc => Class::Flow,
            Mnemonic::Bcs => Class::Flow,
            Mnemonic::Beq => Class::Flow,
            Mnemonic::Bne => Class::Flow,
            Mnemonic::Bmi => Class::Flow,
            Mnemonic::Bpl => Class::Flow,
            Mnemonic::Bvc => Class::Flow,
            Mnemonic::Bvs => Class::Flow,
            Mnemonic::Jmp => Class::Flow,
            Mnemonic::Jsr => Class::Flow,
            Mnemonic::Rts => Class::Flow,
            Mnemonic::Brk => Class::Flow,
            Mnemonic::Rti => Class::Flow,
            _ => Class::Stack,
        }
    }

    /// The kind of work that the instruction does.
    pub fn class(self) -> (class: Class)
        ensures
            class == self.spec_class(),
    {
        match self {
            Mnemonic::Adc
            | Mnemonic::Sbc
            | Mnemonic::And
            | Mnemonic::Ora
            | Mnemonic::Eor
            | Mnemonic::Bit
            | Mnemonic::Cmp
            | Mnemonic::Cpx
            | Mnemonic::Cpy => Class::Arithmetic,
            Mnemonic::Asl
            | Mnemonic::Lsr
            | Mnemonic::Rol
            | Mnemonic::Ror
            | Mnemonic::Inc
            | Mnemonic::Dec => Class::Shift,
            Mnemonic::Inx
            | Mnemonic::Iny
            | Mnemonic::Dex
            | Mnemonic::Dey
            | Mnemonic::Lda
            | Mnemonic::Ldx
            | Mnemonic::Ldy
            | Mnemonic::Sta
            | Mnemonic::Stx
            | Mnemonic::Sty
            | Mnemonic::Tax
            | Mnemonic::Tay
            | Mnemonic::Txa
            | Mnemonic::Tya
            | Mnemonic::Tsx
            | Mnemonic::Txs => Class::Register,
            Mnemonic::Bcc
            | Mnemonic::Bcs
            | Mnemonic::Beq
            | Mnemonic::Bne
            | Mnemonic::Bmi
            | Mnemonic::Bpl
            | Mnemonic::Bvc
            | Mnemonic::Bvs
            | Mnemonic::Jmp
            | Mnemonic::Jsr
            | Mnemonic::Rts
            | Mnemonic::Brk
            | Mnemonic::Rti => Class::Flow,
            _ => Class::Stack,
        }
    }

    /// Whether the instruction works on the byte found at its target. The
    /// stores and the jumps only need the address.
    pub open spec fn spec_reads_operand(self) -> bool {
        match self {
            Mnemonic::Sta => false,
            Mnemonic::Stx => false,
            Mnemonic::Sty => false,
            Mnemonic::Jmp => false,
            Mnemonic::Jsr => false,
            Mnemonic::Unimplemented => false,
            _ => true,
        }
    }

    /// Whether the instruction works on the byte found at its target.
    pub fn reads_operand(self) -> (reads: bool)
        ensures
            reads == self.spec_reads_operand(),
    {
        match self {
            Mnemonic::Sta
            | Mnemonic::Stx
            | Mnemonic::Sty
            | Mnemonic::Jmp
            | Mnemonic::Jsr
            | Mnemonic::Unimplemented => false,
            _ => true,
        }
    }
}

/// The opcode table: the instruction of each of the 256 opcodes. An
/// opcode that is not listed has no instruction.
#[verifier::opaque]
pub open spec fn instruction_table(opcode: u8) -> Instruction {
    match opcode {
        0x00 => entry(Mnemonic::Brk, AddressingMode::Implicit, 7, false),
        0x01 => entry(Mnemonic::Ora, AddressingMode::IndexedIndirect, 6, false),
        0x05 => entry(Mnemonic::Ora, AddressingMode::ZeroPageIndexedX, 3, false),
        0x06 => entry(Mnemonic::Asl, AddressingMode::ZeroPageIndexedX, 5, false),
        0x08 => entry(Mnemonic::Php, AddressingMode::Implicit, 3, false),
        0x09 => entry(Mnemonic::Ora, AddressingMode::Immediate, 2, false),
        0x0A => entry(Mnemonic::Asl, AddressingMode::Accumulator, 2, false),
        0x0D => entry(Mnemonic::Ora, AddressingMode::Absolute, 4, false),
        0x0E => entry(Mnemonic::Asl, AddressingMode::Absolute, 6, false),
        0x10 => entry(Mnemonic::Bpl, AddressingMode::Relative, 2, true),
        0x11 => entry(Mnemonic::Ora, AddressingMode::IndirectIndexed, 5, true),
        0x15 => entry(Mnemonic::Ora, AddressingMode::ZeroPageIndexedX, 4, false),
        0x16 => entry(Mnemonic::Asl, AddressingMode::ZeroPageIndexedX, 6, false),
        0x18 => entry(Mnemonic::Clc, AddressingMode::Implicit, 2, false),
        0x19 => entry(Mnemonic::Ora, AddressingMode::AbsoluteIndexedY, 4, true),
        0x1D => entry(Mnemonic::Ora, AddressingMode::AbsoluteIndexedX, 4, true),
        0x1E => entry(Mnemonic::Asl, AddressingMode::AbsoluteIndexedX, 7, false),
        0x20 => entry(Mnemonic::Jsr, AddressingMode::Absolute, 6, false),
        0x21 => entry(Mnemonic::And, AddressingMode::IndexedIndirect, 6, false),
        0x24 => entry(Mnemonic::Bit, AddressingMode::ZeroPage, 3, false),
        0x25 => entry(Mnemonic::And, AddressingMode::ZeroPage, 3, false),
        0x26 => entry(Mnemonic::Rol, AddressingMode::ZeroPage, 5, false),
        0x28 => entry(Mnemonic::Plp, AddressingMode::Implicit, 4, false),
        0x29 => entry(Mnemonic::And, AddressingMode::Immediate, 2, false),
        0x2A => entry(Mnemonic::Rol, AddressingMode::Accumulator, 2, false),
        0x2C => entry(Mnemonic::Bit, AddressingMode::Absolute, 4, false),
        0x2D => entry(Mnemonic::And, AddressingMode::Absolute, 4, false),
        0x2E => entry(Mnemonic::Rol, AddressingMode::Absolute, 6, false),
        0x30 => entry(Mnemonic::Bmi, AddressingMode::Relative, 2, true),
        0x31 => entry(Mnemonic::And, AddressingMode::IndexedIndirect, 5, true),
        0x35 => entry(Mnemonic::And, AddressingMode::ZeroPageIndexedX, 4, false),
        0x36 => entry(Mnemonic::Rol, AddressingMode::ZeroPageIndexedX, 6, false),
        0x38 => entry(Mnemonic::Sec, AddressingMode::Implicit, 2, false),
        0x39 => entry(Mnemonic::And, AddressingMode::AbsoluteIndexedY, 4, true),
        0x3D => entry(Mnemonic::And, AddressingMode::AbsoluteIndexedX, 4, true),
        0x3E => entry(Mnemonic::Rol, AddressingMode::AbsoluteIndexedX, 7, false),
        0x40 => entry(Mnemonic::Rti, AddressingMode::Implicit, 6, false),
        0x41 => entry(Mnemonic::Eor, AddressingMode::IndexedIndirect, 6, false),
        0x45 => entry(Mnemonic::Eor, AddressingMode::ZeroPage, 3, false),
        0x46 => entry(Mnemonic::Lsr, AddressingMode::ZeroPage, 5, false),
        0x48 => entry(Mnemonic::Pha, AddressingMode::Implicit, 3, false),
        0x49 => entry(Mnemonic::Eor, AddressingMode::Immediate, 2, false),
        0x4A => entry(Mnemonic::Lsr, AddressingMode::Accumulator, 2, false),
        0x4C => entry(Mnemonic::Jmp, AddressingMode::Absolute, 3, false),
        0x4D => entry(Mnemonic::Eor, AddressingMode::Absolute, 4, false),
        0x4E => entry(Mnemonic::Lsr, AddressingMode::Absolute, 6, false),
        0x50 => entry(Mnemonic::Bvc, AddressingMode::Relative, 2, true),
        0x51 => entry(Mnemonic::Eor, AddressingMode::IndirectIndexed, 5, true),
        0x55 => entry(Mnemonic::Eor, AddressingMode::ZeroPageIndexedX, 4, false),
        0x56 => entry(Mnemonic::Lsr, AddressingMode::ZeroPageIndexedX, 6, false),
        0x58 => entry(Mnemonic::Cli, AddressingMode::Implicit, 2, false),
        0x59 => entry(Mnemonic::Eor, AddressingMode::AbsoluteIndexedY, 4, true),
        0x5D => entry(Mnemonic::Eor, AddressingMode::AbsoluteIndexedX, 4, true),
        0x5E => entry(Mnemonic::Lsr, AddressingMode::AbsoluteIndexedX, 7, false),
        0x60 => entry(Mnemonic::Rts, AddressingMode::Implicit, 6, false),
        0x61 => entry(Mnemonic::Adc, AddressingMode::IndexedIndirect, 6, false),
        0x65 => entry(Mnemonic::Adc, AddressingMode::ZeroPageIndexedX, 4, false),
        0x66 => entry(Mnemonic::Ror, AddressingMode::ZeroPageIndexedX, 6, false),
        0x68 => entry(Mnemonic::Pla, AddressingMode::Implicit, 4, false),
        0x69 => entry(Mnemonic::Adc, AddressingMode::Immediate, 2, false),
        0x6A => entry(Mnemonic::Ror, AddressingMode::Accumulator, 2, false),
        0x6C => entry(Mnemonic::Jmp, AddressingMode::Indirect, 5, false),
        0x6D => entry(Mnemonic::Adc, AddressingMode::Absolute, 4, false),
        0x6E => entry(Mnemonic::Ror, AddressingMode::Absolute, 6, false),
        0x70 => entry(Mnemonic::Bvs, AddressingMode::Relative, 2, true),
        0x71 => entry(Mnemonic::Adc, AddressingMode::IndirectIndexed, 5, true),
        0x75 => entry(Mnemonic::Adc, AddressingMode::ZeroPageIndexedX, 4, false),
        0x76 => entry(Mnemonic::Ror, AddressingMode::ZeroPageIndexedX, 6, false),
        0x78 => entry(Mnemonic::Sei, AddressingMode::Implicit, 2, false),
        0x79 => entry(Mnemonic::Adc, AddressingMode::AbsoluteIndexedY, 4, true),
        0x7D => entry(Mnemonic::Adc, AddressingMode::AbsoluteIndexedX, 4, true),
        0x7E => entry(Mnemonic::Ror, AddressingMode::AbsoluteIndexedX, 7, false),
        0x81 => entry(Mnemonic::Sta, AddressingMode::IndexedIndirect, 6, false),
        0x84 => entry(Mnemonic::Sty, AddressingMode::ZeroPage, 3, false),
        0x85 => entry(Mnemonic::Sta, AddressingMode::ZeroPage, 3, false),
        0x86 => entry(Mnemonic::Stx, AddressingMode::ZeroPage, 3, false),
        0x88 => entry(Mnemonic::Dey, AddressingMode::Implicit, 2, false),
        0x8A => entry(Mnemonic::Txa, AddressingMode::Implicit, 2, false),
        0x8C => entry(Mnemonic::Sty, AddressingMode::Absolute, 4, false),
        0x8D => entry(Mnemonic::Sta, AddressingMode::Absolute, 4, false),
        0x8E => entry(Mnemonic::Stx, AddressingMode::Absolute, 4, false),
        0x90 => entry(Mnemonic::Bcc, AddressingMode::Relative, 2, true),
        0x91 => entry(Mnemonic::Sta, AddressingMode::IndirectIndexed, 6, false),
        0x94 => entry(Mnemonic::Sty, AddressingMode::ZeroPageIndexedX, 4, false),
        0x95 => entry(Mnemonic::Sta, AddressingMode::ZeroPageIndexedX, 4, false),
        0x96 => entry(Mnemonic::Stx, AddressingMode::ZeroPageIndexedX, 4, false),
        0x98 => entry(Mnemonic::Tya, AddressingMode::Implicit, 2, false),
        0x99 => entry(Mnemonic::Sta, AddressingMode::AbsoluteIndexedY, 4, false),
        0x9A => entry(Mnemonic::Txs, AddressingMode::Implicit, 2, false),
        0x9D => entry(Mnemonic::Sta, AddressingMode::AbsoluteIndexedX, 5, false),
        0xA0 => entry(Mnemonic::Ldy, AddressingMode::Immediate, 2, false),
        0xA1 => entry(Mnemonic::Lda, AddressingMode::IndexedIndirect, 6, false),
        0xA2 => entry(Mnemonic::Ldx, AddressingMode::Immediate, 2, false),
        0xA4 => entry(Mnemonic::Ldy, AddressingMode::ZeroPage, 3, false),
        0xA5 => entry(Mnemonic::Lda, AddressingMode::ZeroPage, 3, false),
        0xA6 => entry(Mnemonic::Ldx, AddressingMode::ZeroPage, 3, false),
        0xA8 => entry(Mnemonic::Tay, AddressingMode::Implicit, 2, false),
        0xA9 => entry(Mnemonic::Lda, AddressingMode::Immediate, 2, false),
        0xAA => entry(Mnemonic::Tax, AddressingMode::Implicit, 2, false),
        0xAC => entry(Mnemonic::Ldy, AddressingMode::Absolute, 4, false),
        0xAD => entry(Mnemonic::Lda, AddressingMode::Absolute, 4, false),
        0xAE => entry(Mnemonic::Ldx, AddressingMode::Absolute, 4, false),
        0xB0 => entry(Mnemonic::Bcs, AddressingMode::Relative, 2, true),
        0xB1 => entry(Mnemonic::Lda, AddressingMode::IndirectIndexed, 5, true),
        0xB4 => entry(Mnemonic::Ldy, AddressingMode::ZeroPageIndexedX, 4, false),
        0xB5 => entry(Mnemonic::Lda, AddressingMode::ZeroPageIndexedX, 4, false),
        0xB6 => entry(Mnemonic::Ldx, AddressingMode::ZeroPageIndexedY, 4, false),
        0xB8 => entry(Mnemonic::Clv, AddressingMode::Implicit, 2, false),
        0xB9 => entry(Mnemonic::Lda, AddressingMode::AbsoluteIndexedY, 4, true),
        0xBA => entry(Mnemonic::Tsx, AddressingMode::Implicit, 2, false),
        0xBC => entry(Mnemonic::Ldy, AddressingMode::AbsoluteIndexedX, 4, true),
        0xBD => entry(Mnemonic::Lda, AddressingMode::AbsoluteIndexedX, 4, true),
        0xBE => entry(Mnemonic::Ldx, AddressingMode::AbsoluteIndexedY, 4, true),
        0xC0 => entry(Mnemonic::Cpy, AddressingMode::Immediate, 2, false),
        0xC1 => entry(Mnemonic::Cmp, AddressingMode::IndexedIndirect, 6, false),
        0xC4 => entry(Mnemonic::Cpy, AddressingMode::ZeroPage, 3, false),
        0xC5 => entry(Mnemonic::Cmp, AddressingMode::ZeroPage, 3, false),
        0xC6 => entry(Mnemonic::Dec, AddressingMode::ZeroPage, 5, false),
        0xC8 => entry(Mnemonic::Iny, AddressingMode::Implicit, 2, false),
        0xC9 => entry(Mnemonic::Cmp, AddressingMode::Immediate, 2, false),
        0xCA => entry(Mnemonic::Dex, AddressingMode::Implicit, 2, false),
        0xCC => entry(Mnemonic::Cpy, AddressingMode::Absolute, 4, false),
        0xCD => entry(Mnemonic::Cmp, AddressingMode::Absolute, 4, false),
        0xCE => entry(Mnemonic::Dec, AddressingMode::Absolute, 6, false),
        0xD0 => entry(Mnemonic::Bne, AddressingMode::Relative, 2, true),
        0xD1 => entry(Mnemonic::Cmp, AddressingMode::IndirectIndexed, 5, true),
        0xD5 => entry(Mnemonic::Cmp, AddressingMode::ZeroPageIndexedX, 4, false),
        0xD6 => entry(Mnemonic::Dec, AddressingMode::ZeroPageIndexedX, 6, false),
        0xD8 => entry(Mnemonic::Cld, AddressingMode::Implicit, 2, false),
        0xD9 => entry(Mnemonic::Cmp, AddressingMode::AbsoluteIndexedY, 4, true),
        0xDD => entry(Mnemonic::Cmp, AddressingMode::AbsoluteIndexedX, 4, true),
        0xDE => entry(Mnemonic::Dec, AddressingMode::AbsoluteIndexedX, 7, false),
        0xE0 => entry(Mnemonic::Cpx, AddressingMode::Immediate, 2, false),
        0xE1 => entry(Mnemonic::Sbc, AddressingMode::IndexedIndirect, 6, false),
        0xE4 => entry(Mnemonic::Cpx, AddressingMode::ZeroPage, 3, false),
        0xE5 => entry(Mnemonic::Sbc, AddressingMode::ZeroPage, 3, false),
        0xE6 => entry(Mnemonic::Inc, AddressingMode::ZeroPage, 5, false),
        0xE8 => entry(Mnemonic::Inx, AddressingMode::Implicit, 2, false),
        0xE9 => entry(Mnemonic::Sbc, AddressingMode::Immediate, 2, false),
        0xEA => entry(Mnemonic::Nop, AddressingMode::Implicit, 2, false),
        0xEC => entry(Mnemonic::Cpx, AddressingMode::Absolute, 4, false),
        0xED => entry(Mnemonic::Sbc, AddressingMode::Absolute, 4, false),
        0xEE => entry(Mnemonic::Inc, AddressingMode::Absolute, 6, false),
        0xF0 => entry(Mnemonic::Beq, AddressingMode::Relative, 2, true),
        0xF1 => entry(Mnemonic::Sbc, AddressingMode::IndirectIndexed, 5, true),
        0xF5 => entry(Mnemonic::Sbc, AddressingMode::ZeroPageIndexedX, 4, false),
        0xF6 => entry(Mnemonic::Inc, AddressingMode::ZeroPageIndexedX, 6, false),
        0xF8 => entry(Mnemonic::Sed, AddressingMode::Implicit, 2, false),
        0xF9 => entry(Mnemonic::Sbc, AddressingMode::AbsoluteIndexedY, 4, false),
        0xFD => entry(Mnemonic::Sbc, AddressingMode::AbsoluteIndexedX, 4, true),
        0xFE => entry(Mnemonic::Inc, AddressingMode::AbsoluteIndexedX, 7, false),
        _ => unimplemented_entry(),
    }
}

impl Instruction {
    /// The instruction of `opcode`. Every byte has one.
    pub fn for_opcode(opcode: u8) -> (instruction: Instruction)
        ensures
            instruction == instruction_table(opcode),
            2 <= instruction.cycles <= 7,
    {
        proof {
            reveal(instruction_table);
        }
        let (name, addressing, cycles, page_penalty): (Mnemonic, AddressingMode, u8, bool) =
            match opcode {
            0x00 => (Mnemonic::Brk, AddressingMode::Implicit, 7, false),
            0x01 => (Mnemonic::Ora, AddressingMode::IndexedIndirect, 6, false),
            0x05 => (Mnemonic::Ora, AddressingMode::ZeroPageIndexedX, 3, false),
            0x06 => (Mnemonic::Asl, AddressingMode::ZeroPageIndexedX, 5, false),
            0x08 => (Mnemonic::Php, AddressingMode::Implicit, 3, false),
            0x09 => (Mnemonic::Ora, AddressingMode::Immediate, 2, false),
            0x0A => (Mnemonic::Asl, AddressingMode::Accumulator, 2, false),
            0x0D => (Mnemonic::Ora, AddressingMode::Absolute, 4, false),
            0x0E => (Mnemonic::Asl, AddressingMode::Absolute, 6, false),
            0x10 => (Mnemonic::Bpl, AddressingMode::Relative, 2, true),
            0x11 => (Mnemonic::Ora, AddressingMode::IndirectIndexed, 5, true),
            0x15 => (Mnemonic::Ora, AddressingMode::ZeroPageIndexedX, 4, false),
            0x16 => (Mnemonic::Asl, AddressingMode::ZeroPageIndexedX, 6, false),
            0x18 => (Mnemonic::Clc, AddressingMode::Implicit, 2, false),
            0x19 => (Mnemonic::Ora, AddressingMode::AbsoluteIndexedY, 4, true),
            0x1D => (Mnemonic::Ora, AddressingMode::AbsoluteIndexedX, 4, true),
            0x1E => (Mnemonic::Asl, AddressingMode::AbsoluteIndexedX, 7, false),
            0x20 => (Mnemonic::Jsr, AddressingMode::Absolute, 6, false),
            0x21 => (Mnemonic::And, AddressingMode::IndexedIndirect, 6, false),
            0x24 => (Mnemonic::Bit, AddressingMode::ZeroPage, 3, false),
            0x25 => (Mnemonic::And, AddressingMode::ZeroPage, 3, false),
            0x26 => (Mnemonic::Rol, AddressingMode::ZeroPage, 5, false),
            0x28 => (Mnemonic::Plp, AddressingMode::Implicit, 4, false),
            0x29 => (Mnemonic::And, AddressingMode::Immediate, 2, false),
            0x2A => (Mnemonic::Rol, AddressingMode::Accumulator, 2, false),
            0x2C => (Mnemonic::Bit, AddressingMode::Absolute, 4, false),
            0x2D => (Mnemonic::And, AddressingMode::Absolute, 4, false),
            0x2E => (Mnemonic::Rol, AddressingMode::Absolute, 6, false),
            0x30 => (Mnemonic::Bmi, AddressingMode::Relative, 2, true),
            0x31 => (Mnemonic::And, AddressingMode::IndexedIndirect, 5, true),
            0x35 => (Mnemonic::And, AddressingMode::ZeroPageIndexedX, 4, false),
            0x36 => (Mnemonic::Rol, AddressingMode::ZeroPageIndexedX, 6, false),
            0x38 => (Mnemonic::Sec, AddressingMode::Implicit, 2, false),
            0x39 => (Mnemonic::And, AddressingMode::AbsoluteIndexedY, 4, true),
            0x3D => (Mnemonic::And, AddressingMode::AbsoluteIndexedX, 4, true),
            0x3E => (Mnemonic::Rol, AddressingMode::AbsoluteIndexedX, 7, false),
            0x40 => (Mnemonic::Rti, AddressingMode::Implicit, 6, false),
            0x41 => (Mnemonic::Eor, AddressingMode::IndexedIndirect, 6, false),
            0x45 => (Mnemonic::Eor, AddressingMode::ZeroPage, 3, false),
            0x46 => (Mnemonic::Lsr, AddressingMode::ZeroPage, 5, false),
            0x48 => (Mnemonic::Pha, AddressingMode::Implicit, 3, false),
            0x49 => (Mnemonic::Eor, AddressingMode::Immediate, 2, false),
            0x4A => (Mnemonic::Lsr, AddressingMode::Accumulator, 2, false),
            0x4C => (Mnemonic::Jmp, AddressingMode::Absolute, 3, false),
            0x4D => (Mnemonic::Eor, AddressingMode::Absolute, 4, false),
            0x4E => (Mnemonic::Lsr, AddressingMode::Absolute, 6, false),
            0x50 => (Mnemonic::Bvc, AddressingMode::Relative, 2, true),
            0x51 => (Mnemonic::Eor, AddressingMode::IndirectIndexed, 5, true),
            0x55 => (Mnemonic::Eor, AddressingMode::ZeroPageIndexedX, 4, false),
            0x56 => (Mnemonic::Lsr, AddressingMode::ZeroPageIndexedX, 6, false),
            0x58 => (Mnemonic::Cli, AddressingMode::Implicit, 2, false),
            0x59 => (Mnemonic::Eor, AddressingMode::AbsoluteIndexedY, 4, true),
            0x5D => (Mnemonic::Eor, AddressingMode::AbsoluteIndexedX, 4, true),
            0x5E => (Mnemonic::Lsr, AddressingMode::AbsoluteIndexedX, 7, false),
            0x60 => (Mnemonic::Rts, AddressingMode::Implicit, 6, false),
            0x61 => (Mnemonic::Adc, AddressingMode::IndexedIndirect, 6, false),
            0x65 => (Mnemonic::Adc, AddressingMode::ZeroPageIndexedX, 4, false),
            0x66 => (Mnemonic::Ror, AddressingMode::ZeroPageIndexedX, 6, false),
            0x68 => (Mnemonic::Pla, AddressingMode::Implicit, 4, false),
            0x69 => (Mnemonic::Adc, AddressingMode::Immediate, 2, false),
            0x6A => (Mnemonic::Ror, AddressingMode::Accumulator, 2, false),
            0x6C => (Mnemonic::Jmp, AddressingMode::Indirect, 5, false),
            0x6D => (Mnemonic::Adc, AddressingMode::Absolute, 4, false),
            0x6E => (Mnemonic::Ror, AddressingMode::Absolute, 6, false),
            0x70 => (Mnemonic::Bvs, AddressingMode::Relative, 2, true),
            0x71 => (Mnemonic::Adc, AddressingMode::IndirectIndexed, 5, true),
            0x75 => (Mnemonic::Adc, AddressingMode::ZeroPageIndexedX, 4, false),
            0x76 => (Mnemonic::Ror, AddressingMode::ZeroPageIndexedX, 6, false),
            0x78 => (Mnemonic::Sei, AddressingMode::Implicit, 2, false),
            0x79 => (Mnemonic::Adc, AddressingMode::AbsoluteIndexedY, 4, true),
            0x7D => (Mnemonic::Adc, AddressingMode::AbsoluteIndexedX, 4, true),
            0x7E => (Mnemonic::Ror, AddressingMode::AbsoluteIndexedX, 7, false),
            0x81 => (Mnemonic::Sta, AddressingMode::IndexedIndirect, 6, false),
            0x84 => (Mnemonic::Sty, AddressingMode::ZeroPage, 3, false),
            0x85 => (Mnemonic::Sta, AddressingMode::ZeroPage, 3, false),
            0x86 => (Mnemonic::Stx, AddressingMode::ZeroPage, 3, false),
            0x88 => (Mnemonic::Dey, AddressingMode::Implicit, 2, false),
            0x8A => (Mnemonic::Txa, AddressingMode::Implicit, 2, false),
            0x8C => (Mnemonic::Sty, AddressingMode::Absolute, 4, false),
            0x8D => (Mnemonic::Sta, AddressingMode::Absolute, 4, false),
            0x8E => (Mnemonic::Stx, AddressingMode::Absolute, 4, false),
            0x90 => (Mnemonic::Bcc, AddressingMode::Relative, 2, true),
            0x91 => (Mnemonic::Sta, AddressingMode::IndirectIndexed, 6, false),
            0x94 => (Mnemonic::Sty, AddressingMode::ZeroPageIndexedX, 4, false),
            0x95 => (Mnemonic::Sta, AddressingMode::ZeroPageIndexedX, 4, false),
            0x96 => (Mnemonic::Stx, AddressingMode::ZeroPageIndexedX, 4, false),
            0x98 => (Mnemonic::Tya, AddressingMode::Implicit, 2, false),
            0x99 => (Mnemonic::Sta, AddressingMode::AbsoluteIndexedY, 4, false),
            0x9A => (Mnemonic::Txs, AddressingMode::Implicit, 2, false),
            0x9D => (Mnemonic::Sta, AddressingMode::AbsoluteIndexedX, 5, false),
            0xA0 => (Mnemonic::Ldy, AddressingMode::Immediate, 2, false),
            0xA1 => (Mnemonic::Lda, AddressingMode::IndexedIndirect, 6, false),
            0xA2 => (Mnemonic::Ldx, AddressingMode::Immediate, 2, false),
            0xA4 => (Mnemonic::Ldy, AddressingMode::ZeroPage, 3, false),
            0xA5 => (Mnemonic::Lda, AddressingMode::ZeroPage, 3, false),
            0xA6 => (Mnemonic::Ldx, AddressingMode::ZeroPage, 3, false),
            0xA8 => (Mnemonic::Tay, AddressingMode::Implicit, 2, false),
            0xA9 => (Mnemonic::Lda, AddressingMode::Immediate, 2, false),
            0xAA => (Mnemonic::Tax, AddressingMode::Implicit, 2, false),
            0xAC => (Mnemonic::Ldy, AddressingMode::Absolute, 4, false),
            0xAD => (Mnemonic::Lda, AddressingMode::Absolute, 4, false),
            0xAE => (Mnemonic::Ldx, AddressingMode::Absolute, 4, false),
            0xB0 => (Mnemonic::Bcs, AddressingMode::Relative, 2, true),
            0xB1 => (Mnemonic::Lda, AddressingMode::IndirectIndexed, 5, true),
            0xB4 => (Mnemonic::Ldy, AddressingMode::ZeroPageIndexedX, 4, false),
            0xB5 => (Mnemonic::Lda, AddressingMode::ZeroPageIndexedX, 4, false),
            0xB6 => (Mnemonic::Ldx, AddressingMode::ZeroPageIndexedY, 4, false),
            0xB8 => (Mnemonic::Clv, AddressingMode::Implicit, 2, false),
            0xB9 => (Mnemonic::Lda, AddressingMode::AbsoluteIndexedY, 4, true),
            0xBA => (Mnemonic::Tsx, AddressingMode::Implicit, 2, false),
            0xBC => (Mnemonic::Ldy, AddressingMode::AbsoluteIndexedX, 4, true),
            0xBD => (Mnemonic::Lda, AddressingMode::AbsoluteIndexedX, 4, true),
            0xBE => (Mnemonic::Ldx, AddressingMode::AbsoluteIndexedY, 4, true),
            0xC0 => (Mnemonic::Cpy, AddressingMode::Immediate, 2, false),
            0xC1 => (Mnemonic::Cmp, AddressingMode::IndexedIndirect, 6, false),
            0xC4 => (Mnemonic::Cpy, AddressingMode::ZeroPage, 3, false),
            0xC5 => (Mnemonic::Cmp, AddressingMode::ZeroPage, 3, false),
            0xC6 => (Mnemonic::Dec, AddressingMode::ZeroPage, 5, false),
            0xC8 => (Mnemonic::Iny, AddressingMode::Implicit, 2, false),
            0xC9 => (Mnemonic::Cmp, AddressingMode::Immediate, 2, false),
            0xCA => (Mnemonic::Dex, AddressingMode::Implicit, 2, false),
            0xCC => (Mnemonic::Cpy, AddressingMode::Absolute, 4, false),
            0xCD => (Mnemonic::Cmp, AddressingMode::Absolute, 4, false),
            0xCE => (Mnemonic::Dec, AddressingMode::Absolute, 6, false),
            0xD0 => (Mnemonic::Bne, AddressingMode::Relative, 2, true),
            0xD1 => (Mnemonic::Cmp, AddressingMode::IndirectIndexed, 5, true),
            0xD5 => (Mnemonic::Cmp, AddressingMode::ZeroPageIndexedX, 4, false),
            0xD6 => (Mnemonic::Dec, AddressingMode::ZeroPageIndexedX, 6, false),
            0xD8 => (Mnemonic::Cld, AddressingMode::Implicit, 2, false),
            0xD9 => (Mnemonic::Cmp, AddressingMode::AbsoluteIndexedY, 4, true),
            0xDD => (Mnemonic::Cmp, AddressingMode::AbsoluteIndexedX, 4, true),
            0xDE => (Mnemonic::Dec, AddressingMode::AbsoluteIndexedX, 7, false),
            0xE0 => (Mnemonic::Cpx, AddressingMode::Immediate, 2, false),
            0xE1 => (Mnemonic::Sbc, AddressingMode::IndexedIndirect, 6, false),
            0xE4 => (Mnemonic::Cpx, AddressingMode::ZeroPage, 3, false),
            0xE5 => (Mnemonic::Sbc, AddressingMode::ZeroPage, 3, false),
            0xE6 => (Mnemonic::Inc, AddressingMode::ZeroPage, 5, false),
            0xE8 => (Mnemonic::Inx, AddressingMode::Implicit, 2, false),
            0xE9 => (Mnemonic::Sbc, AddressingMode::Immediate, 2, false),
            0xEA => (Mnemonic::Nop, AddressingMode::Implicit, 2, false),
            0xEC => (Mnemonic::Cpx, AddressingMode::Absolute, 4, false),
            0xED => (Mnemonic::Sbc, AddressingMode::Absolute, 4, false),
            0xEE => (Mnemonic::Inc, AddressingMode::Absolute, 6, false),
            0xF0 => (Mnemonic::Beq, AddressingMode::Relative, 2, true),
            0xF1 => (Mnemonic::Sbc, AddressingMode::IndirectIndexed, 5, true),
            0xF5 => (Mnemonic::Sbc, AddressingMode::ZeroPageIndexedX, 4, false),
            0xF6 => (Mnemonic::Inc, AddressingMode::ZeroPageIndexedX, 6, false),
            0xF8 => (Mnemonic::Sed, AddressingMode::Implicit, 2, false),
            0xF9 => (Mnemonic::Sbc, AddressingMode::AbsoluteIndexedY, 4, false),
            0xFD => (Mnemonic::Sbc, AddressingMode::AbsoluteIndexedX, 4, true),
            0xFE => (Mnemonic::Inc, AddressingMode::AbsoluteIndexedX, 7, false),
            _ => (Mnemonic::Unimplemented, AddressingMode::Implicit, 2, false),
        };
        Instruction { name, addressing, cycles, page_penalty }
    }
}

/// Every opcode has an entry, and every entry takes between two and seven
/// cycles.
pub proof fn lemma_table_cycles(opcode: u8)
    ensures
        2 <= instruction_table(opcode).cycles <= 7,
{
    reveal(instruction_table);
}

/// An opcode has a relative operand exactly when it is a branch; every
/// branch takes two cycles at least and can take longer.
pub proof fn lemma_table_branches(opcode: u8)
    ensures
        instruction_table(opcode).addressing == AddressingMode::Relative <==> is_branch(
            instruction_table(opcode).name,
        ),
        instruction_table(opcode).addressing == AddressingMode::Relative
            ==> instruction_table(opcode).cycles == 2 && instruction_table(opcode).page_penalty,
{
    reveal(instruction_table);
}

/// Whether the instruction is one of the eight branches.
pub open spec fn is_branch(name: Mnemonic) -> bool {
    match name {
        Mnemonic::Bcc => true,
        Mnemonic::Bcs => true,
        Mnemonic::Beq => true,
        Mnemonic::Bne => true,
        Mnemonic::Bmi => true,
        Mnemonic::Bpl => true,
        Mnemonic::Bvc => true,
        Mnemonic::Bvs => true,
        _ => false,
    }
}

} // verus!
