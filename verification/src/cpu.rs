//! The processor: its registers, the decoding of an instruction with its
//! addressing mode, the execution of a decoded operation, and the count
//! of cycles.

use vstd::prelude::*;
use crate::alu::AluResult;
use crate::alu::CarryResult;
use crate::alu::add_with_carry;
use crate::alu::branch_target;
use crate::alu::compare;
use crate::alu::crosses_page;
use crate::alu::high;
use crate::alu::high_byte;
use crate::alu::low;
use crate::alu::low_byte;
use crate::alu::make_word;
use crate::alu::page_differs;
use crate::alu::rotate_left;
use crate::alu::rotate_right;
use crate::alu::shift_left;
use crate::alu::shift_right;
use crate::alu::spec_adc;
use crate::alu::spec_asl;
use crate::alu::spec_branch_target;
use crate::alu::spec_compare;
use crate::alu::spec_lsr;
use crate::alu::spec_rol;
use crate::alu::spec_ror;
use crate::alu::spec_sbc;
use crate::alu::subtract_with_carry;
use crate::alu::word;
use crate::alu::wrap16;
use crate::alu::wrap8;
use crate::bus::BusModel;
use crate::bus::CPUBus;
use crate::cartridge::CartridgeModel;
use crate::cartridge::LoadError;
use crate::flags::Flag;
use crate::flags::StatusFlags;
use crate::flags::bit_is_set;
use crate::flags::lemma_masks_select_bits;
use crate::opcode::AddressingMode;
use crate::opcode::Class;
use crate::opcode::Instruction;
use crate::opcode::Mnemonic;
use crate::opcode::instruction_table;
use crate::opcode::is_branch;

verus! {

/// The program counter at power-on.
pub const RESET_PC: u16 = 0xC000;

/// The stack pointer at power-on.
pub const RESET_SP: u8 = 0xFF;

/// First address of the page that holds the stack.
pub const STACK_PAGE: u16 = 0x0100;

/// Address of the low byte of the interrupt vector; the high byte follows.
pub const INTERRUPT_VECTOR: u16 = 0xFFFE;

/// What the processor holds, with the bus that it owns.
pub struct CpuModel {
    /// Program counter.
    pub pc: u16,
    /// Stack pointer: the low byte of the next free cell of the stack.
    pub sp: u8,
    /// Accumulator.
    pub a: u8,
    /// Index register X.
    pub x: u8,
    /// Index register Y.
    pub y: u8,
    /// Status register.
    pub status: StatusFlags,
    /// Cycles that the latest instruction still takes.
    pub cycles_to_wait: u8,
    /// The bus and what is on it.
    pub bus: BusModel,
}

/// A decoded operation: what one instruction is to do, with its operand
/// found.
#[derive(Clone, Copy, Debug, PartialEq, Eq)]
pub struct Executable {
    /// What to do.
    pub name: Mnemonic,
    /// The address that the operand was found at; none where the
    /// instruction works on registers or on a literal.
    pub target: Option<u16>,
    /// The operand: the literal, the offset of a branch, or the byte at
    /// the target.
    pub data: u8,
    /// The cycles that the operation takes, a page crossing included.
    pub cycles: u8,
}

/// A byte read from the bus, with the bus as the read left it.
pub struct ByteRead {
    pub value: u8,
    pub bus: BusModel,
}

/// Two bytes read from the bus, low byte first, as one 16-bit value.
pub struct WordRead {
    pub value: u16,
    pub bus: BusModel,
}

/// An operand address found.
pub struct Resolved {
    /// The address of the operand, where it is in memory.
    pub target: Option<u16>,
    /// The operand byte that followed the opcode, where it is the operand
    /// itself.
    pub literal: u8,
    /// Whether indexing left the page of the base address.
    pub crossed: bool,
    /// The bus after the reads that found the address.
    pub bus: BusModel,
}

/// A decoded operation, with the processor as decoding left it.
pub struct Decoded {
    pub cpu: CpuModel,
    pub op: Executable,
}

/// Reads one byte.
pub open spec fn read_byte(bus: BusModel, address: u16) -> ByteRead {
    ByteRead { value: bus.read_value(address), bus: bus.after_read(address) }
}

/// Reads a 16-bit value: its low byte at `lo_address`, then its high byte
/// at `hi_address`.
pub open spec fn read_word(bus: BusModel, lo_address: u16, hi_address: u16) -> WordRead {
    let lo = read_byte(bus, lo_address);
    let hi = read_byte(lo.bus, hi_address);
    WordRead { value: word(lo.value, hi.value), bus: hi.bus }
}

/// The address in the stack page that a stack pointer stands for.
pub open spec fn stack_address(sp: u8) -> u16 {
    (0x0100 + sp as int) as u16
}

/// A base address moved on by an index register, wrapping at 16 bits,
/// with the note whether that left the page of the base.
pub open spec fn indexed(base: WordRead, index: u8) -> Resolved {
    let target = wrap16(base.value as int + index as int);
    Resolved {
        target: Some(target),
        literal: 0,
        crossed: page_differs(base.value, target),
        bus: base.bus,
    }
}

/// An address in page zero.
pub open spec fn in_zero_page(operand: ByteRead, index: u8) -> Resolved {
    Resolved {
        target: Some(wrap8(operand.value as int + index as int) as u16),
        literal: 0,
        crossed: false,
        bus: operand.bus,
    }
}

/// Finds the operand of an instruction whose operand bytes start at `at`.
pub open spec fn resolve(mode: AddressingMode, bus: BusModel, at: u16, x: u8, y: u8) -> Resolved {
    let next = wrap16(at as int + 1);
    match mode {
        AddressingMode::Implicit => Resolved { target: None, literal: 0, crossed: false, bus },
        AddressingMode::Accumulator => Resolved { target: None, literal: 0, crossed: false, bus },
        AddressingMode::Immediate => {
            let operand = read_byte(bus, at);
            Resolved { target: None, literal: operand.value, crossed: false, bus: operand.bus }
        },
        AddressingMode::Relative => {
            let operand = read_byte(bus, at);
            Resolved { target: None, literal: operand.value, crossed: false, bus: operand.bus }
        },
        AddressingMode::ZeroPage => in_zero_page(read_byte(bus, at), 0),
        AddressingMode::ZeroPageIndexedX => in_zero_page(read_byte(bus, at), x),
        AddressingMode::ZeroPageIndexedY => in_zero_page(read_byte(bus, at), y),
        AddressingMode::Absolute => indexed(read_word(bus, at, next), 0),
        AddressingMode::AbsoluteIndexedX => indexed(read_word(bus, at, next), x),
        AddressingMode::AbsoluteIndexedY => indexed(read_word(bus, at, next), y),
        AddressingMode::Indirect => {
            let pointer = read_word(bus, at, next);
            indexed(
                read_word(pointer.bus, pointer.value, wrap16(pointer.value as int + 1)),
                0,
            )
        },
        AddressingMode::IndexedIndirect => {
            let operand = read_byte(bus, at);
            let pointer = wrap8(operand.value as int + x as int);
            indexed(
                read_word(operand.bus, pointer as u16, wrap8(pointer as int + 1) as u16),
                0,
            )
        },
        AddressingMode::IndirectIndexed => {
            let operand = read_byte(bus, at);
            indexed(
                read_word(
                    operand.bus,
                    operand.value as u16,
                    wrap8(operand.value as int + 1) as u16,
                ),
                y,
            )
        },
    }
}

impl CpuModel {
    /// The processor at power-on, on a bus at power-on.
    pub open spec fn initial() -> CpuModel {
        CpuModel {
            pc: 0xC000,
            sp: 0xFF,
            a: 0,
            x: 0,
            y: 0,
            status: StatusFlags::spec_empty(),
            cycles_to_wait: 0,
            bus: BusModel::initial(),
        }
    }

    /// The processor after a read on its bus.
    pub open spec fn after_read(self, address: u16) -> CpuModel {
        CpuModel { bus: self.bus.after_read(address), ..self }
    }

    /// The processor after a write on its bus.
    pub open spec fn after_write(self, address: u16, data: u8) -> CpuModel {
        CpuModel { bus: self.bus.after_write(address, data), ..self }
    }

    /// The processor after `data` was pushed: the byte is written where
    /// the stack pointer points, and the pointer moves down by one,
    /// wrapping within the page.
    pub open spec fn pushed(self, data: u8) -> CpuModel {
        CpuModel {
            sp: wrap8(self.sp as int - 1),
            bus: self.bus.after_write(stack_address(self.sp), data),
            ..self
        }
    }

    /// The byte that a pop returns: the one above the stack pointer.
    pub open spec fn top(self) -> u8 {
        self.bus.read_value(stack_address(wrap8(self.sp as int + 1)))
    }

    /// The processor after a pop: the stack pointer moves up by one,
    /// wrapping within the page.
    pub open spec fn popped(self) -> CpuModel {
        CpuModel {
            sp: wrap8(self.sp as int + 1),
            bus: self.bus.after_read(stack_address(wrap8(self.sp as int + 1))),
            ..self
        }
    }

    /// Decodes the instruction at the program counter: reads the opcode,
    /// finds the operand by the instruction's addressing mode, fetches the
    /// operand where the instruction works on it, and moves the program
    /// counter past the instruction.
    pub open spec fn decode(self) -> Decoded {
        let opcode = read_byte(self.bus, self.pc);
        let instruction = instruction_table(opcode.value);
        let found = resolve(
            instruction.addressing,
            opcode.bus,
            wrap16(self.pc as int + 1),
            self.x,
            self.y,
        );
        let fetched = if found.target is Some && instruction.name.spec_reads_operand() {
            read_byte(found.bus, found.target->Some_0)
        } else {
            ByteRead { value: found.literal, bus: found.bus }
        };
        let penalty: int = if instruction.page_penalty && found.crossed {
            1
        } else {
            0
        };
        Decoded {
            cpu: CpuModel {
                pc: wrap16(self.pc as int + 1 + instruction.addressing.operand_width()),
                bus: fetched.bus,
                ..self
            },
            op: Executable {
                name: instruction.name,
                target: found.target,
                data: fetched.value,
                cycles: (instruction.cycles as int + penalty) as u8,
            },
        }
    }
    /// The processor with `value` in the accumulator, and Zero and
    /// Negative taken from it.
    pub open spec fn load_a(self, value: u8) -> CpuModel {
        CpuModel { a: value, status: self.status.with_zn(value), ..self }
    }

    /// The processor with `value` in X, and Zero and Negative taken from it.
    pub open spec fn load_x(self, value: u8) -> CpuModel {
        CpuModel { x: value, status: self.status.with_zn(value), ..self }
    }

    /// The processor with `value` in Y, and Zero and Negative taken from it.
    pub open spec fn load_y(self, value: u8) -> CpuModel {
        CpuModel { y: value, status: self.status.with_zn(value), ..self }
    }

    /// The processor with one flag set or cleared.
    pub open spec fn flagged(self, flag: Flag, value: bool) -> CpuModel {
        CpuModel { status: self.status.with(flag, value), ..self }
    }

    /// The processor after an addition or subtraction: the result in the
    /// accumulator, Carry and Overflow from the operation, Zero and
    /// Negative from the result.
    pub open spec fn arithmetic(self, r: AluResult) -> CpuModel {
        CpuModel {
            a: r.value,
            status: StatusFlags {
                carry: r.carry,
                overflow: r.overflow,
                ..self.status.with_zn(r.value)
            },
            ..self
        }
    }

    /// The processor after a comparison: Carry from the comparison, Zero
    /// and Negative from the difference; no register changes.
    pub open spec fn compared(self, r: CarryResult) -> CpuModel {
        CpuModel {
            status: StatusFlags { carry: r.carry, ..self.status.with_zn(r.value) },
            ..self
        }
    }

    /// The byte that a shift or rotation works on: the fetched operand
    /// where the operation has a target, else the accumulator.
    pub open spec fn shift_operand(self, op: Executable) -> u8 {
        if op.target is Some {
            op.data
        } else {
            self.a
        }
    }

    /// The processor after a shift or rotation: the result at the target,
    /// or in the accumulator where there is none; Carry from the bit
    /// shifted out, Zero and Negative from the result.
    pub open spec fn shifted(self, target: Option<u16>, r: CarryResult) -> CpuModel {
        let status = StatusFlags { carry: r.carry, ..self.status.with_zn(r.value) };
        match target {
            Some(address) => CpuModel {
                status,
                bus: self.bus.after_write(address, r.value),
                ..self
            },
            None => CpuModel { status, a: r.value, ..self },
        }
    }

    /// The processor after `value` was stored at the target. Flags stay.
    pub open spec fn stored(self, target: Option<u16>, value: u8) -> CpuModel {
        match target {
            Some(address) => self.after_write(address, value),
            None => self,
        }
    }

    /// The processor after the byte at the target was replaced by `value`,
    /// with Zero and Negative taken from it.
    pub open spec fn stepped_memory(self, target: Option<u16>, value: u8) -> CpuModel {
        match target {
            Some(address) => CpuModel {
                status: self.status.with_zn(value),
                bus: self.bus.after_write(address, value),
                ..self
            },
            None => self,
        }
    }

    /// The processor after a bit test: Zero tells that the accumulator
    /// and the operand share no bit, Overflow and Negative are bits 6 and 7
    /// of the operand. No register changes.
    pub open spec fn bit_tested(self, operand: u8) -> CpuModel {
        CpuModel {
            status: StatusFlags {
                zero: self.a & operand == 0,
                overflow: bit_is_set(operand, 64),
                negative: operand >= 128,
                ..self.status
            },
            ..self
        }
    }

    /// The processor after a branch. A branch that is not taken changes
    /// nothing. A taken branch moves the program counter by the signed
    /// offset and costs one cycle more, and another one where the new
    /// program counter lies in another page.
    pub open spec fn branched(self, taken: bool, offset: u8) -> CpuModel {
        if taken {
            let target = spec_branch_target(self.pc, offset);
            let extra: int = if page_differs(self.pc, target) {
                2
            } else {
                1
            };
            CpuModel { pc: target, cycles_to_wait: (self.cycles_to_wait + extra) as u8, ..self }
        } else {
            self
        }
    }

    /// The processor after a jump.
    pub open spec fn jumped(self, target: Option<u16>) -> CpuModel {
        match target {
            Some(address) => CpuModel { pc: address, ..self },
            None => self,
        }
    }

    /// The processor after a call: the address of the last byte of the
    /// calling instruction is pushed, high byte first, and the program
    /// counter is the target.
    pub open spec fn called(self, target: Option<u16>) -> CpuModel {
        match target {
            Some(address) => {
                let back = wrap16(self.pc as int - 1);
                CpuModel { pc: address, ..self.pushed(high(back)).pushed(low(back)) }
            },
            None => self,
        }
    }

    /// The processor after two bytes were popped, low byte first.
    pub open spec fn popped_word(self) -> CpuModel {
        self.popped().popped()
    }

    /// The 16-bit value that two pops return, low byte first.
    pub open spec fn top_word(self) -> u16 {
        word(self.top(), self.popped().top())
    }

    /// The processor after a return from a call: the program counter is
    /// the popped address and one more.
    pub open spec fn returned(self) -> CpuModel {
        CpuModel { pc: wrap16(self.top_word() as int + 1), ..self.popped_word() }
    }

    /// The processor after a software interrupt: the program counter is
    /// pushed, high byte first, then the status byte; Break is set, and
    /// the program counter comes from the interrupt vector.
    pub open spec fn interrupted(self) -> CpuModel {
        let saved = self.pushed(high(self.pc)).pushed(low(self.pc)).pushed(
            self.status.spec_pushed_byte() as u8,
        );
        let vector = read_word(saved.bus, 0xFFFE, 0xFFFF);
        CpuModel {
            pc: vector.value,
            status: saved.status.with(Flag::Break, true),
            bus: vector.bus,
            ..saved
        }
    }

    /// The processor after a return from an interrupt: the status is
    /// popped, then the program counter, low byte first.
    pub open spec fn returned_from_interrupt(self) -> CpuModel {
        let rest = self.popped();
        CpuModel {
            status: StatusFlags::spec_from_bits(self.top()),
            pc: rest.top_word(),
            ..rest.popped_word()
        }
    }

    /// The processor after the accumulator was pulled from the stack.
    pub open spec fn pulled_a(self) -> CpuModel {
        self.popped().load_a(self.top())
    }

    /// The processor after the status was pulled from the stack.
    pub open spec fn pulled_status(self) -> CpuModel {
        CpuModel { status: StatusFlags::spec_from_bits(self.top()), ..self.popped() }
    }

    /// Whether a branch instruction finds its condition met.
    pub open spec fn branch_taken(self, name: Mnemonic) -> bool {
        match name {
            Mnemonic::Bcc => !self.status.carry,
            Mnemonic::Bcs => self.status.carry,
            Mnemonic::Bne => !self.status.zero,
            Mnemonic::Beq => self.status.zero,
            Mnemonic::Bpl => !self.status.negative,
            Mnemonic::Bmi => self.status.negative,
            Mnemonic::Bvc => !self.status.overflow,
            Mnemonic::Bvs => self.status.overflow,
            _ => false,
        }
    }

    /// The processor after a decoded operation was carried out. The tick
    /// that carries it out is the first of its cycles; the others are
    /// still to wait.
    pub open spec fn execute(self, op: Executable) -> CpuModel {
        (CpuModel { cycles_to_wait: (op.cycles - 1) as u8, ..self }).perform(op)
    }

    /// The processor after the work of a decoded operation was done, its
    /// cycles apart.
    pub open spec fn perform(self, op: Executable) -> CpuModel {
        let c = self;
        match op.name {
            Mnemonic::Adc => c.arithmetic(spec_adc(c.a, op.data, c.status.carry)),
            Mnemonic::Sbc => c.arithmetic(spec_sbc(c.a, op.data, c.status.carry)),
            Mnemonic::And => c.load_a(c.a & op.data),
            Mnemonic::Ora => c.load_a(c.a | op.data),
            Mnemonic::Eor => c.load_a(c.a ^ op.data),
            Mnemonic::Bit => c.bit_tested(op.data),
            Mnemonic::Asl => c.shifted(op.target, spec_asl(c.shift_operand(op))),
            Mnemonic::Lsr => c.shifted(op.target, spec_lsr(c.shift_operand(op))),
            Mnemonic::Rol => c.shifted(op.target, spec_rol(c.shift_operand(op), c.status.carry)),
            Mnemonic::Ror => c.shifted(op.target, spec_ror(c.shift_operand(op), c.status.carry)),
            Mnemonic::Cmp => c.compared(spec_compare(c.a, op.data)),
            Mnemonic::Cpx => c.compared(spec_compare(c.x, op.data)),
            Mnemonic::Cpy => c.compared(spec_compare(c.y, op.data)),
            Mnemonic::Inc => c.stepped_memory(op.target, wrap8(op.data as int + 1)),
            Mnemonic::Dec => c.stepped_memory(op.target, wrap8(op.data as int - 1)),
            Mnemonic::Inx => c.load_x(wrap8(c.x as int + 1)),
            Mnemonic::Iny => c.load_y(wrap8(c.y as int + 1)),
            Mnemonic::Dex => c.load_x(wrap8(c.x as int - 1)),
            Mnemonic::Dey => c.load_y(wrap8(c.y as int - 1)),
            Mnemonic::Lda => c.load_a(op.data),
            Mnemonic::Ldx => c.load_x(op.data),
            Mnemonic::Ldy => c.load_y(op.data),
            Mnemonic::Sta => c.stored(op.target, c.a),
            Mnemonic::Stx => c.stored(op.target, c.x),
            Mnemonic::Sty => c.stored(op.target, c.y),
            Mnemonic::Tax => c.load_x(c.a),
            Mnemonic::Tay => c.load_y(c.a),
            Mnemonic::Txa => c.load_a(c.x),
            Mnemonic::Tya => c.load_a(c.y),
            Mnemonic::Tsx => c.load_x(c.sp),
            Mnemonic::Txs => CpuModel { sp: c.x, ..c },
            Mnemonic::Bcc => c.branched(c.branch_taken(op.name), op.data),
            Mnemonic::Bcs => c.branched(c.branch_taken(op.name), op.data),
            Mnemonic::Beq => c.branched(c.branch_taken(op.name), op.data),
            Mnemonic::Bne => c.branched(c.branch_taken(op.name), op.data),
            Mnemonic::Bmi => c.branched(c.branch_taken(op.name), op.data),
            Mnemonic::Bpl => c.branched(c.branch_taken(op.name), op.data),
            Mnemonic::Bvc => c.branched(c.branch_taken(op.name), op.data),
            Mnemonic::Bvs => c.branched(c.branch_taken(op.name), op.data),
            Mnemonic::Pha => c.pushed(c.a),
            Mnemonic::Php => c.pushed(c.status.spec_pushed_byte() as u8),
            Mnemonic::Pla => c.pulled_a(),
            Mnemonic::Plp => c.pulled_status(),
            Mnemonic::Jmp => c.jumped(op.target),
            Mnemonic::Jsr => c.called(op.target),
            Mnemonic::Rts => c.returned(),
            Mnemonic::Brk => c.interrupted(),
            Mnemonic::Rti => c.returned_from_interrupt(),
            Mnemonic::Clc => c.flagged(Flag::Carry, false),
            Mnemonic::Sec => c.flagged(Flag::Carry, true),
            Mnemonic::Cli => c.flagged(Flag::InterruptDisable, false),
            Mnemonic::Sei => c.flagged(Flag::InterruptDisable, true),
            Mnemonic::Cld => c.flagged(Flag::Decimal, false),
            Mnemonic::Sed => c.flagged(Flag::Decimal, true),
            Mnemonic::Clv => c.flagged(Flag::Overflow, false),
            Mnemonic::Nop => c,
            Mnemonic::Unimplemented => c,
        }
    }

    /// The processor after one tick of the PPU on its bus.
    pub open spec fn after_ppu_tick(self) -> CpuModel {
        CpuModel { bus: self.bus.after_ppu_tick(), ..self }
    }

    /// The processor after an image was offered to the cartridge on its
    /// bus.
    pub open spec fn after_load(self, image: Seq<u8>) -> CpuModel {
        CpuModel { bus: self.bus.after_load(image), ..self }
    }

    /// The processor one tick later. While cycles of the latest
    /// instruction are still to wait, a tick takes one of them off;
    /// else it decodes the next instruction and carries it out.
    pub open spec fn tick(self) -> CpuModel {
        if self.cycles_to_wait > 0 {
            CpuModel { cycles_to_wait: (self.cycles_to_wait - 1) as u8, ..self }
        } else {
            self.decode().cpu.execute(self.decode().op)
        }
    }
}

/// The processor.
pub struct CPU6502 {
    program_counter: u16,
    stack_pointer: u8,
    accumulator: u8,
    reg_x: u8,
    reg_y: u8,
    status: StatusFlags,
    cycles_to_wait: u8,
    main_bus: CPUBus,
}

impl View for CPU6502 {
    type V = CpuModel;

    closed spec fn view(&self) -> CpuModel {
        CpuModel {
            pc: self.program_counter,
            sp: self.stack_pointer,
            a: self.accumulator,
            x: self.reg_x,
            y: self.reg_y,
            status: self.status,
            cycles_to_wait: self.cycles_to_wait,
            bus: self.main_bus@,
        }
    }
}

impl CPU6502 {
    /// The processor at power-on, on a bus at power-on.
    pub fn new() -> (cpu: CPU6502)
        ensures
            cpu@ == CpuModel::initial(),
    {
        CPU6502 {
            program_counter: RESET_PC,
            stack_pointer: RESET_SP,
            accumulator: 0,
            reg_x: 0,
            reg_y: 0,
            status: StatusFlags::empty(),
            cycles_to_wait: 0,
            main_bus: CPUBus::new(),
        }
    }

    /// Reads a byte from the bus.
    pub fn read(&mut self, address: u16) -> (value: u8)
        ensures
            value == old(self)@.bus.read_value(address),
            final(self)@ == old(self)@.after_read(address),
    {
        self.main_bus.read(address)
    }

    /// Writes a byte to the bus.
    pub fn write(&mut self, address: u16, data: u8)
        ensures
            final(self)@ == old(self)@.after_write(address, data),
    {
        self.main_bus.write(address, data);
    }

    /// Reads a 16-bit value: the low byte first, then the high byte.
    fn read_pair(&mut self, lo_address: u16, hi_address: u16) -> (value: u16)
        ensures
            value == read_word(old(self)@.bus, lo_address, hi_address).value,
            final(self)@ == (CpuModel {
                bus: read_word(old(self)@.bus, lo_address, hi_address).bus,
                ..old(self)@
            }),
    {
        let lo: u8 = self.read(lo_address);
        let hi: u8 = self.read(hi_address);
        make_word(lo, hi)
    }

    /// Whether `flag` is set in the status register.
    pub fn is_flag_set(&self, flag: Flag) -> (set: bool)
        ensures
            set == self@.status.has(flag),
    {
        self.status.contains(flag)
    }

    /// Pushes a byte on the stack.
    pub fn push_stack(&mut self, data: u8)
        ensures
            final(self)@ == old(self)@.pushed(data),
    {
        let address: u16 = STACK_PAGE + self.stack_pointer as u16;
        self.write(address, data);
        self.stack_pointer = self.stack_pointer.wrapping_sub(1);
    }

    /// Pops a byte from the stack.
    pub fn pop_stack(&mut self) -> (value: u8)
        ensures
            value == old(self)@.top(),
            final(self)@ == old(self)@.popped(),
    {
        self.stack_pointer = self.stack_pointer.wrapping_add(1);
        let address: u16 = STACK_PAGE + self.stack_pointer as u16;
        self.read(address)
    }

    /// Finds the operand of an instruction with the given addressing mode,
    /// whose opcode is at the program counter. Gives the operand's
    /// address, the literal operand, and whether indexing crossed a page.
    fn resolve_operand(&mut self, mode: AddressingMode) -> (found: (Option<u16>, u8, bool))
        ensures
            ({
                let r = resolve(
                    mode,
                    old(self)@.bus,
                    wrap16(old(self)@.pc as int + 1),
                    old(self)@.x,
                    old(self)@.y,
                );
                &&& found.0 == r.target
                &&& found.1 == r.literal
                &&& found.2 == r.crossed
                &&& final(self)@ == (CpuModel { bus: r.bus, ..old(self)@ })
            }),
    {
        let at: u16 = self.program_counter.wrapping_add(1);
        let next: u16 = at.wrapping_add(1);
        match mode {
            AddressingMode::Implicit | AddressingMode::Accumulator => (None, 0, false),
            AddressingMode::Immediate | AddressingMode::Relative => {
                let literal: u8 = self.read(at);
                (None, literal, false)
            },
            AddressingMode::ZeroPage => {
                let operand: u8 = self.read(at);
                (Some(operand as u16), 0, false)
            },
            AddressingMode::ZeroPageIndexedX => {
                let operand: u8 = self.read(at);
                (Some(operand.wrapping_add(self.reg_x) as u16), 0, false)
            },
            AddressingMode::ZeroPageIndexedY => {
                let operand: u8 = self.read(at);
                (Some(operand.wrapping_add(self.reg_y) as u16), 0, false)
            },
            AddressingMode::Absolute => {
                let base: u16 = self.read_pair(at, next);
                (Some(base), 0, false)
            },
            AddressingMode::AbsoluteIndexedX => {
                let base: u16 = self.read_pair(at, next);
                let target: u16 = base.wrapping_add(self.reg_x as u16);
                (Some(target), 0, crosses_page(base, target))
            },
            AddressingMode::AbsoluteIndexedY => {
                let base: u16 = self.read_pair(at, next);
                let target: u16 = base.wrapping_add(self.reg_y as u16);
                (Some(target), 0, crosses_page(base, target))
            },
            AddressingMode::Indirect => {
                let pointer: u16 = self.read_pair(at, next);
                let target: u16 = self.read_pair(pointer, pointer.wrapping_add(1));
                (Some(target), 0, false)
            },
            AddressingMode::IndexedIndirect => {
                let operand: u8 = self.read(at);
                let pointer: u8 = operand.wrapping_add(self.reg_x);
                let target: u16 = self.read_pair(pointer as u16, pointer.wrapping_add(1) as u16);
                (Some(target), 0, false)
            },
            AddressingMode::IndirectIndexed => {
                let operand: u8 = self.read(at);
                let base: u16 = self.read_pair(operand as u16, operand.wrapping_add(1) as u16);
                let target: u16 = base.wrapping_add(self.reg_y as u16);
                (Some(target), 0, crosses_page(base, target))
            },
        }
    }

    /// Decodes the instruction at the program counter and moves the
    /// program counter past it.
    pub fn decode_next_instruction(&mut self) -> (op: Executable)
        ensures
            op == old(self)@.decode().op,
            final(self)@ == old(self)@.decode().cpu,
            2 <= op.cycles <= 8,
    {
        let opcode: u8 = self.read(self.program_counter);
        let instruction: Instruction = Instruction::for_opcode(opcode);
        let (target, literal, crossed): (Option<u16>, u8, bool) = self.resolve_operand(
            instruction.addressing,
        );
        let mut data: u8 = literal;
        if instruction.name.reads_operand() {
            if let Some(address) = target {
                data = self.read(address);
            }
        }
        let cycles: u8 = if instruction.page_penalty && crossed {
            instruction.cycles + 1
        } else {
            instruction.cycles
        };
        let width: u16 = instruction.addressing.operand_bytes();
        self.program_counter = self.program_counter.wrapping_add(1 + width);
        Executable { name: instruction.name, target, data, cycles }
    }
    /// Puts `value` in the accumulator and takes Zero and Negative from it.
    fn load_a(&mut self, value: u8)
        ensures
            final(self)@ == old(self)@.load_a(value),
    {
        self.accumulator = value;
        self.status.set_zn(value);
    }

    /// Puts `value` in X and takes Zero and Negative from it.
    fn load_x(&mut self, value: u8)
        ensures
            final(self)@ == old(self)@.load_x(value),
    {
        self.reg_x = value;
        self.status.set_zn(value);
    }

    /// Puts `value` in Y and takes Zero and Negative from it.
    fn load_y(&mut self, value: u8)
        ensures
            final(self)@ == old(self)@.load_y(value),
    {
        self.reg_y = value;
        self.status.set_zn(value);
    }

    /// Takes the result of an addition or subtraction.
    fn arithmetic(&mut self, r: AluResult)
        ensures
            final(self)@ == old(self)@.arithmetic(r),
    {
        self.accumulator = r.value;
        self.status.set_zn(r.value);
        self.status.carry = r.carry;
        self.status.overflow = r.overflow;
    }

    /// Takes the flags of a comparison.
    fn compared(&mut self, r: CarryResult)
        ensures
            final(self)@ == old(self)@.compared(r),
    {
        self.status.set_zn(r.value);
        self.status.carry = r.carry;
    }

    /// The byte that a shift or rotation works on.
    fn shift_operand(&self, op: &Executable) -> (value: u8)
        ensures
            value == self@.shift_operand(*op),
    {
        if op.target.is_some() {
            op.data
        } else {
            self.accumulator
        }
    }

    /// Takes the result of a shift or rotation.
    fn shifted(&mut self, target: Option<u16>, r: CarryResult)
        ensures
            final(self)@ == old(self)@.shifted(target, r),
    {
        self.status.set_zn(r.value);
        self.status.carry = r.carry;
        match target {
            Some(address) => {
                self.write(address, r.value);
            },
            None => {
                self.accumulator = r.value;
            },
        }
    }

    /// Stores `value` at the target.
    fn stored(&mut self, target: Option<u16>, value: u8)
        ensures
            final(self)@ == old(self)@.stored(target, value),
    {
        if let Some(address) = target {
            self.write(address, value);
        }
    }

    /// Replaces the byte at the target by `value` and takes Zero and
    /// Negative from it.
    fn stepped_memory(&mut self, target: Option<u16>, value: u8)
        ensures
            final(self)@ == old(self)@.stepped_memory(target, value),
    {
        if let Some(address) = target {
            self.status.set_zn(value);
            self.write(address, value);
        }
    }

    /// Tests the bits of the operand against the accumulator.
    fn bit_tested(&mut self, operand: u8)
        ensures
            final(self)@ == old(self)@.bit_tested(operand),
    {
        proof {
            lemma_masks_select_bits(operand);
        }
        self.status.zero = self.accumulator & operand == 0;
        self.status.overflow = operand & 0x40 != 0;
        self.status.negative = operand >= 0x80;
    }

    /// Whether a branch instruction finds its condition met.
    fn branch_taken(&self, name: Mnemonic) -> (taken: bool)
        ensures
            taken == self@.branch_taken(name),
    {
        match name {
            Mnemonic::Bcc => !self.status.carry,
            Mnemonic::Bcs => self.status.carry,
            Mnemonic::Bne => !self.status.zero,
            Mnemonic::Beq => self.status.zero,
            Mnemonic::Bpl => !self.status.negative,
            Mnemonic::Bmi => self.status.negative,
            Mnemonic::Bvc => !self.status.overflow,
            Mnemonic::Bvs => self.status.overflow,
            _ => false,
        }
    }

    /// Branches where `taken` says so.
    fn branched(&mut self, taken: bool, offset: u8)
        requires
            old(self)@.cycles_to_wait <= 253,
        ensures
            final(self)@ == old(self)@.branched(taken, offset),
    {
        if taken {
            let target: u16 = branch_target(self.program_counter, offset);
            if crosses_page(self.program_counter, target) {
                self.cycles_to_wait = self.cycles_to_wait + 2;
            } else {
                self.cycles_to_wait = self.cycles_to_wait + 1;
            }
            self.program_counter = target;
        }
    }

    /// Pops a 16-bit value, low byte first.
    fn pop_word(&mut self) -> (value: u16)
        ensures
            value == old(self)@.top_word(),
            final(self)@ == old(self)@.popped_word(),
    {
        let lo: u8 = self.pop_stack();
        let hi: u8 = self.pop_stack();
        make_word(lo, hi)
    }

    /// Pushes a 16-bit value, high byte first.
    fn push_word(&mut self, value: u16)
        ensures
            final(self)@ == old(self)@.pushed(high(value)).pushed(low(value)),
    {
        self.push_stack(high_byte(value));
        self.push_stack(low_byte(value));
    }

    /// Calls the subroutine at the target.
    fn called(&mut self, target: Option<u16>)
        ensures
            final(self)@ == old(self)@.called(target),
    {
        if let Some(address) = target {
            self.push_word(self.program_counter.wrapping_sub(1));
            self.program_counter = address;
        }
    }

    /// Returns from a subroutine.
    fn returned(&mut self)
        ensures
            final(self)@ == old(self)@.returned(),
    {
        let back: u16 = self.pop_word();
        self.program_counter = back.wrapping_add(1);
    }

    /// Enters the interrupt handler.
    fn interrupted(&mut self)
        ensures
            final(self)@ == old(self)@.interrupted(),
    {
        self.push_word(self.program_counter);
        self.push_stack(self.status.pushed_byte());
        self.status.insert(Flag::Break);
        self.program_counter = self.read_pair(INTERRUPT_VECTOR, INTERRUPT_VECTOR + 1);
    }

    /// Returns from an interrupt handler.
    fn returned_from_interrupt(&mut self)
        ensures
            final(self)@ == old(self)@.returned_from_interrupt(),
    {
        let byte: u8 = self.pop_stack();
        self.status = StatusFlags::from_bits_truncate(byte);
        self.program_counter = self.pop_word();
    }

    /// Does the work of an arithmetic, logic or comparison instruction.
    fn perform_arithmetic(&mut self, executable: &Executable)
        requires
            executable.name.spec_class() == Class::Arithmetic,
        ensures
            final(self)@ == old(self)@.perform(*executable),
    {
        let data: u8 = executable.data;
        let target: Option<u16> = executable.target;
        match executable.name {
            Mnemonic::Adc => {
                let r: AluResult = add_with_carry(self.accumulator, data, self.status.carry);
                self.arithmetic(r);
            },
            Mnemonic::Sbc => {
                let r: AluResult = subtract_with_carry(self.accumulator, data, self.status.carry);
                self.arithmetic(r);
            },
            Mnemonic::And => {
                self.load_a(self.accumulator & data);
            },
            Mnemonic::Ora => {
                self.load_a(self.accumulator | data);
            },
            Mnemonic::Eor => {
                self.load_a(self.accumulator ^ data);
            },
            Mnemonic::Bit => {
                self.bit_tested(data);
            },
            Mnemonic::Cmp => {
                self.compared(compare(self.accumulator, data));
            },
            Mnemonic::Cpx => {
                self.compared(compare(self.reg_x, data));
            },
            Mnemonic::Cpy => {
                self.compared(compare(self.reg_y, data));
            },
            _ => {},
        }
    }

    /// Does the work of a shift, a rotation or a step of a byte in memory.
    fn perform_shift(&mut self, executable: &Executable)
        requires
            executable.name.spec_class() == Class::Shift,
        ensures
            final(self)@ == old(self)@.perform(*executable),
    {
        let data: u8 = executable.data;
        let target: Option<u16> = executable.target;
        match executable.name {
            Mnemonic::Asl => {
                let r: CarryResult = shift_left(self.shift_operand(executable));
                self.shifted(target, r);
            },
            Mnemonic::Lsr => {
                let r: CarryResult = shift_right(self.shift_operand(executable));
                self.shifted(target, r);
            },
            Mnemonic::Rol => {
                let r: CarryResult = rotate_left(
                    self.shift_operand(executable),
                    self.status.carry,
                );
                self.shifted(target, r);
            },
            Mnemonic::Ror => {
                let r: CarryResult = rotate_right(
                    self.shift_operand(executable),
                    self.status.carry,
                );
                self.shifted(target, r);
            },
            Mnemonic::Inc => {
                self.stepped_memory(target, data.wrapping_add(1));
            },
            Mnemonic::Dec => {
                self.stepped_memory(target, data.wrapping_sub(1));
            },
            _ => {},
        }
    }

    /// Does the work of a load, a store, a transfer or a step of an index
    /// register.
    fn perform_register(&mut self, executable: &Executable)
        requires
            executable.name.spec_class() == Class::Register,
        ensures
            final(self)@ == old(self)@.perform(*executable),
    {
        let data: u8 = executable.data;
        let target: Option<u16> = executable.target;
        match executable.name {
            Mnemonic::Inx => {
                self.load_x(self.reg_x.wrapping_add(1));
            },
            Mnemonic::Iny => {
                self.load_y(self.reg_y.wrapping_add(1));
            },
            Mnemonic::Dex => {
                self.load_x(self.reg_x.wrapping_sub(1));
            },
            Mnemonic::Dey => {
                self.load_y(self.reg_y.wrapping_sub(1));
            },
            Mnemonic::Lda => {
                self.load_a(data);
            },
            Mnemonic::Ldx => {
                self.load_x(data);
            },
            Mnemonic::Ldy => {
                self.load_y(data);
            },
            Mnemonic::Sta => {
                self.stored(target, self.accumulator);
            },
            Mnemonic::Stx => {
                self.stored(target, self.reg_x);
            },
            Mnemonic::Sty => {
                self.stored(target, self.reg_y);
            },
            Mnemonic::Tax => {
                self.load_x(self.accumulator);
            },
            Mnemonic::Tay => {
                self.load_y(self.accumulator);
            },
            Mnemonic::Txa => {
                self.load_a(self.reg_x);
            },
            Mnemonic::Tya => {
                self.load_a(self.reg_y);
            },
            Mnemonic::Tsx => {
                self.load_x(self.stack_pointer);
            },
            Mnemonic::Txs => {
                self.stack_pointer = self.reg_x;
            },
            _ => {},
        }
    }

    /// Does the work of a branch, a jump, a call, a return or an interrupt.
    fn perform_flow(&mut self, executable: &Executable)
        requires
            executable.name.spec_class() == Class::Flow,
            old(self)@.cycles_to_wait <= 253,
        ensures
            final(self)@ == old(self)@.perform(*executable),
    {
        let data: u8 = executable.data;
        let target: Option<u16> = executable.target;
        match executable.name {
            Mnemonic::Jmp => {
                if let Some(address) = target {
                    self.program_counter = address;
                }
            },
            Mnemonic::Jsr => {
                self.called(target);
            },
            Mnemonic::Rts => {
                self.returned();
            },
            Mnemonic::Brk => {
                self.interrupted();
            },
            Mnemonic::Rti => {
                self.returned_from_interrupt();
            },
            Mnemonic::Bcc
            | Mnemonic::Bcs
            | Mnemonic::Beq
            | Mnemonic::Bne
            | Mnemonic::Bmi
            | Mnemonic::Bpl
            | Mnemonic::Bvc
            | Mnemonic::Bvs => {
                let taken: bool = self.branch_taken(executable.name);
                self.branched(taken, data);
            },
            _ => {},
        }
    }

    /// Does the work of a push, a pull or a flag instruction. The
    /// instructions that do nothing are of this kind too.
    fn perform_stack(&mut self, executable: &Executable)
        requires
            executable.name.spec_class() == Class::Stack,
        ensures
            final(self)@ == old(self)@.perform(*executable),
    {
        let data: u8 = executable.data;
        let target: Option<u16> = executable.target;
        match executable.name {
            Mnemonic::Pha => {
                self.push_stack(self.accumulator);
            },
            Mnemonic::Php => {
                self.push_stack(self.status.pushed_byte());
            },
            Mnemonic::Pla => {
                let value: u8 = self.pop_stack();
                self.load_a(value);
            },
            Mnemonic::Plp => {
                let byte: u8 = self.pop_stack();
                self.status = StatusFlags::from_bits_truncate(byte);
            },
            Mnemonic::Clc => {
                self.status.remove(Flag::Carry);
            },
            Mnemonic::Sec => {
                self.status.insert(Flag::Carry);
            },
            Mnemonic::Cli => {
                self.status.remove(Flag::InterruptDisable);
            },
            Mnemonic::Sei => {
                self.status.insert(Flag::InterruptDisable);
            },
            Mnemonic::Cld => {
                self.status.remove(Flag::Decimal);
            },
            Mnemonic::Sed => {
                self.status.insert(Flag::Decimal);
            },
            Mnemonic::Clv => {
                self.status.remove(Flag::Overflow);
            },
            _ => {},
        }
    }

    /// Carries out a decoded operation. An operation without an
    /// instruction only takes its cycles.
    pub fn execute(&mut self, executable: Executable)
        requires
            1 <= executable.cycles <= 253,
        ensures
            final(self)@ == old(self)@.execute(executable),
    {
        self.cycles_to_wait = executable.cycles - 1;
        match executable.name.class() {
            Class::Arithmetic => {
                self.perform_arithmetic(&executable);
            },
            Class::Shift => {
                self.perform_shift(&executable);
            },
            Class::Register => {
                self.perform_register(&executable);
            },
            Class::Flow => {
                self.perform_flow(&executable);
            },
            Class::Stack => {
                self.perform_stack(&executable);
            },
        }
    }

    /// Moves the processor on by one tick of its clock.
    pub fn clock(&mut self)
        ensures
            final(self)@ == old(self)@.tick(),
    {
        if self.cycles_to_wait == 0 {
            let op: Executable = self.decode_next_instruction();
            self.execute(op);
        } else {
            self.cycles_to_wait = self.cycles_to_wait - 1;
        }
    }
    /// The program counter.
    pub fn program_counter(&self) -> (pc: u16)
        ensures
            pc == self@.pc,
    {
        self.program_counter
    }

    /// The stack pointer.
    pub fn stack_pointer(&self) -> (sp: u8)
        ensures
            sp == self@.sp,
    {
        self.stack_pointer
    }

    /// The accumulator.
    pub fn accumulator(&self) -> (a: u8)
        ensures
            a == self@.a,
    {
        self.accumulator
    }

    /// Index register X.
    pub fn reg_x(&self) -> (x: u8)
        ensures
            x == self@.x,
    {
        self.reg_x
    }

    /// Index register Y.
    pub fn reg_y(&self) -> (y: u8)
        ensures
            y == self@.y,
    {
        self.reg_y
    }

    /// The status register.
    pub fn status(&self) -> (status: StatusFlags)
        ensures
            status == self@.status,
    {
        self.status
    }

    /// The cycles that the latest instruction still takes.
    pub fn cycles_to_wait(&self) -> (cycles: u8)
        ensures
            cycles == self@.cycles_to_wait,
    {
        self.cycles_to_wait
    }

    /// Sets the program counter.
    pub fn set_program_counter(&mut self, pc: u16)
        ensures
            final(self)@ == (CpuModel { pc, ..old(self)@ }),
    {
        self.program_counter = pc;
    }

    /// Sets the stack pointer.
    pub fn set_stack_pointer(&mut self, sp: u8)
        ensures
            final(self)@ == (CpuModel { sp, ..old(self)@ }),
    {
        self.stack_pointer = sp;
    }

    /// Sets the accumulator. The flags stay as they are.
    pub fn set_accumulator(&mut self, a: u8)
        ensures
            final(self)@ == (CpuModel { a, ..old(self)@ }),
    {
        self.accumulator = a;
    }

    /// Sets index register X. The flags stay as they are.
    pub fn set_reg_x(&mut self, x: u8)
        ensures
            final(self)@ == (CpuModel { x, ..old(self)@ }),
    {
        self.reg_x = x;
    }

    /// Sets index register Y. The flags stay as they are.
    pub fn set_reg_y(&mut self, y: u8)
        ensures
            final(self)@ == (CpuModel { y, ..old(self)@ }),
    {
        self.reg_y = y;
    }

    /// Sets the status register.
    pub fn set_status(&mut self, status: StatusFlags)
        ensures
            final(self)@ == (CpuModel { status, ..old(self)@ }),
    {
        self.status = status;
    }

    /// Offers an image to the cartridge on the bus. An image without a
    /// complete header is refused, and nothing changes.
    pub fn load_cartridge(&mut self, image: &[u8]) -> (result: Result<(), LoadError>)
        ensures
            result == CartridgeModel::load_result(image@),
            final(self)@ == old(self)@.after_load(image@),
    {
        self.main_bus.load_cartridge(image)
    }

    /// Moves the PPU on the bus on by one dot, and tells whether that
    /// completed a frame.
    pub fn clock_ppu(&mut self) -> (frame_done: bool)
        ensures
            final(self)@ == old(self)@.after_ppu_tick(),
            frame_done == old(self)@.bus.ppu.at_frame_end(),
    {
        self.main_bus.clock_ppu()
    }

    /// The pixels of the current frame.
    pub fn get_frame_buffer(&mut self) -> (pixels: &[u8; 184320])
        ensures
            pixels@ == old(self)@.bus.ppu.frame_buffer,
            final(self)@ == old(self)@,
    {
        self.main_bus.get_frame_buffer()
    }
}

/// Decoding moves the program counter past the opcode and past as many
/// operand bytes as the addressing mode of the opcode declares, wrapping
/// at 16 bits, and changes no other register.
pub proof fn lemma_decode_advances_pc(cpu: CpuModel)
    ensures
        cpu.decode().cpu.pc == wrap16(
            cpu.pc as int + 1 + instruction_table(
                cpu.bus.read_value(cpu.pc),
            ).addressing.operand_width(),
        ),
        cpu.decode().cpu == (CpuModel { pc: cpu.decode().cpu.pc, bus: cpu.decode().cpu.bus, ..cpu }),
{
}

/// How far decoding moves the program counter depends on the addressing
/// mode alone: not on the operand bytes, the registers or the memory.
pub proof fn lemma_pc_advance_ignores_operand(first: CpuModel, second: CpuModel)
    requires
        first.pc == second.pc,
        instruction_table(first.bus.read_value(first.pc)).addressing == instruction_table(
            second.bus.read_value(second.pc),
        ).addressing,
    ensures
        first.decode().cpu.pc == second.decode().cpu.pc,
{
}

/// A decoded operation costs the cycles of its table entry, and one more
/// where the entry allows a penalty and indexing crossed a page.
pub proof fn lemma_decode_cycles(cpu: CpuModel)
    ensures
        ({
            let entry = instruction_table(cpu.bus.read_value(cpu.pc));
            let cost = cpu.decode().op.cycles;
            &&& entry.cycles <= cost <= entry.cycles + 1
            &&& 2 <= cost <= 8
            &&& !entry.page_penalty ==> cost == entry.cycles
            &&& !entry.addressing.has_target() ==> cost == entry.cycles
            &&& cpu.decode().op.name == entry.name
        }),
{
    crate::opcode::lemma_table_cycles(cpu.bus.read_value(cpu.pc));
}

/// The cost of a branch, the tick that carries it out included: its base
/// cycles where it is not taken, one more where it is taken and stays in
/// the page, two more where it is taken and leaves the page.
pub proof fn lemma_branch_cost(cpu: CpuModel, op: Executable)
    requires
        is_branch(op.name),
        1 <= op.cycles <= 253,
    ensures
        ({
            let after = cpu.execute(op);
            let target = spec_branch_target(cpu.pc, op.data);
            let cost = after.cycles_to_wait + 1;
            &&& !cpu.branch_taken(op.name) ==> cost == op.cycles && after.pc == cpu.pc
            &&& cpu.branch_taken(op.name) && !page_differs(cpu.pc, target) ==> cost == op.cycles
                + 1 && after.pc == target
            &&& cpu.branch_taken(op.name) && page_differs(cpu.pc, target) ==> cost == op.cycles + 2
                && after.pc == target
        }),
{
}

/// The cost of a branch from fetch to its last cycle: a tick that finds
/// a branch at the program counter leaves as many cycles to wait as make,
/// with the tick itself, the two cycles of the branch where it is not
/// taken, three where it is taken within the page, and four where it is
/// taken into another page.
pub proof fn lemma_branch_tick_cost(cpu: CpuModel)
    requires
        cpu.cycles_to_wait == 0,
        is_branch(instruction_table(cpu.bus.read_value(cpu.pc)).name),
    ensures
        ({
            let name = instruction_table(cpu.bus.read_value(cpu.pc)).name;
            let next = wrap16(cpu.pc as int + 2);
            let target = spec_branch_target(next, cpu.decode().op.data);
            let cost = cpu.tick().cycles_to_wait + 1;
            &&& !cpu.branch_taken(name) ==> cost == 2 && cpu.tick().pc == next
            &&& cpu.branch_taken(name) && !page_differs(next, target) ==> cost == 3
                && cpu.tick().pc == target
            &&& cpu.branch_taken(name) && page_differs(next, target) ==> cost == 4
                && cpu.tick().pc == target
        }),
{
    crate::opcode::lemma_table_branches(cpu.bus.read_value(cpu.pc));
    lemma_branch_cost(cpu.decode().cpu, cpu.decode().op);
}

/// A byte that was pushed is the byte that the next pop returns, and the
/// pop puts the stack pointer back where it was.
pub proof fn lemma_push_then_pop(cpu: CpuModel, data: u8)
    requires
        cpu.bus.wf(),
    ensures
        cpu.pushed(data).top() == data,
        cpu.pushed(data).popped().sp == cpu.sp,
        cpu.pushed(data).popped().bus == cpu.pushed(data).bus,
        cpu.pushed(data).bus.wf(),
        cpu.pushed(data).bus.ram == cpu.bus.ram.update(0x0100 + cpu.sp as int, data),
        cpu.pushed(data).bus.ppu == cpu.bus.ppu,
        cpu.pushed(data).bus.cart == cpu.bus.cart,
{
    reveal(BusModel::read_value);
    reveal(BusModel::after_read);
    reveal(BusModel::after_write);
}

/// Pushing the accumulator and pulling it again, at once, gives the
/// accumulator the value it had and the stack pointer the place it had.
pub proof fn lemma_push_pull_accumulator(cpu: CpuModel, push: Executable, pull: Executable)
    requires
        cpu.bus.wf(),
        push.name == Mnemonic::Pha,
        pull.name == Mnemonic::Pla,
    ensures
        cpu.execute(push).execute(pull).a == cpu.a,
        cpu.execute(push).execute(pull).sp == cpu.sp,
{
    let waiting = CpuModel { cycles_to_wait: (push.cycles - 1) as u8, ..cpu };
    lemma_push_then_pop(waiting, cpu.a);
    let pushed = cpu.execute(push);
    assert(pushed == waiting.pushed(cpu.a));
    let resumed = CpuModel { cycles_to_wait: (pull.cycles - 1) as u8, ..pushed };
    assert(resumed.top() == pushed.top());
    assert(resumed.popped().sp == pushed.popped().sp);
}

/// Pushing the status and pulling it again, at once, gives the status
/// register the flags it had and the stack pointer the place it had.
pub proof fn lemma_push_pull_status(cpu: CpuModel, push: Executable, pull: Executable)
    requires
        cpu.bus.wf(),
        push.name == Mnemonic::Php,
        pull.name == Mnemonic::Plp,
    ensures
        cpu.execute(push).execute(pull).status == cpu.status,
        cpu.execute(push).execute(pull).sp == cpu.sp,
{
    let waiting = CpuModel { cycles_to_wait: (push.cycles - 1) as u8, ..cpu };
    let byte = cpu.status.spec_pushed_byte() as u8;
    lemma_push_then_pop(waiting, byte);
    crate::flags::lemma_bits_round_trip(cpu.status);
    let pushed = cpu.execute(push);
    assert(pushed == waiting.pushed(byte));
    let resumed = CpuModel { cycles_to_wait: (pull.cycles - 1) as u8, ..pushed };
    assert(resumed.top() == pushed.top());
    assert(resumed.popped().sp == pushed.popped().sp);
}

/// A return leads to the instruction after the call that it answers, and
/// leaves the stack pointer where it was before the call.
pub proof fn lemma_call_then_return(cpu: CpuModel, target: u16)
    requires
        cpu.bus.wf(),
    ensures
        cpu.called(Some(target)).pc == target,
        cpu.called(Some(target)).returned().pc == cpu.pc,
        cpu.called(Some(target)).returned().sp == cpu.sp,
{
    let back = wrap16(cpu.pc as int - 1);
    let first = cpu.pushed(high(back));
    lemma_push_then_pop(cpu, high(back));
    lemma_push_then_pop(first, low(back));
    let both = first.pushed(low(back));
    let inside = CpuModel { pc: target, ..both };
    assert(inside == cpu.called(Some(target)));
    assert(inside.top() == low(back));
    assert(inside.popped().sp == first.sp);
    assert(inside.popped().bus == both.bus);
    assert(inside.popped().top() == high(back)) by {
        reveal(BusModel::read_value);
        reveal(BusModel::after_read);
        reveal(BusModel::after_write);
    }
    assert(inside.popped().popped().sp == cpu.sp);
    assert(word(low(back), high(back)) == back);
}

/// An operation without an instruction takes its cycles and changes
/// nothing else: no register, no flag, no byte of memory.
pub proof fn lemma_unimplemented_is_inert(cpu: CpuModel, op: Executable)
    requires
        op.name == Mnemonic::Unimplemented || op.name == Mnemonic::Nop,
    ensures
        cpu.execute(op) == (CpuModel { cycles_to_wait: (op.cycles - 1) as u8, ..cpu }),
{
}

/// After an instruction that computes or loads the accumulator, Zero
/// tells that the accumulator is zero and Negative that its bit 7 is set.
pub proof fn lemma_accumulator_flags(cpu: CpuModel, op: Executable)
    requires
        op.name == Mnemonic::Adc || op.name == Mnemonic::Sbc || op.name == Mnemonic::And || op.name
            == Mnemonic::Ora || op.name == Mnemonic::Eor || op.name == Mnemonic::Lda || op.name
            == Mnemonic::Txa || op.name == Mnemonic::Tya || op.name == Mnemonic::Pla,
    ensures
        cpu.execute(op).status.zero == (cpu.execute(op).a == 0),
        cpu.execute(op).status.negative == (cpu.execute(op).a >= 128),
{
}

/// A flag instruction sets or clears its one flag and leaves the others,
/// the registers and the memory alone.
pub proof fn lemma_flag_instructions(cpu: CpuModel, op: Executable, other: Flag)
    requires
        op.name == Mnemonic::Clc || op.name == Mnemonic::Sec || op.name == Mnemonic::Cli || op.name
            == Mnemonic::Sei || op.name == Mnemonic::Cld || op.name == Mnemonic::Sed || op.name
            == Mnemonic::Clv,
    ensures
        ({
            let after = cpu.execute(op);
            let flag = match op.name {
                Mnemonic::Clc => Flag::Carry,
                Mnemonic::Sec => Flag::Carry,
                Mnemonic::Cli => Flag::InterruptDisable,
                Mnemonic::Sei => Flag::InterruptDisable,
                Mnemonic::Cld => Flag::Decimal,
                Mnemonic::Sed => Flag::Decimal,
                _ => Flag::Overflow,
            };
            let value = op.name == Mnemonic::Sec || op.name == Mnemonic::Sei || op.name
                == Mnemonic::Sed;
            &&& after.status.has(flag) == value
            &&& other != flag ==> after.status.has(other) == cpu.status.has(other)
            &&& after == (CpuModel {
                status: after.status,
                cycles_to_wait: after.cycles_to_wait,
                ..cpu
            })
        }),
{
}

/// A tick while cycles are still to wait takes one of them off and does
/// nothing else; after an instruction of `n` cycles was carried out,
/// `n - 1` such ticks follow.
pub proof fn lemma_waiting_tick(cpu: CpuModel)
    requires
        cpu.cycles_to_wait > 0,
    ensures
        cpu.tick() == (CpuModel { cycles_to_wait: (cpu.cycles_to_wait - 1) as u8, ..cpu }),
{
}

} // verus!
