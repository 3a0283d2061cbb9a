use nescore::cpu::Executable;
use nescore::cpu::CPU6502;
use nescore::flags::Flag;
use nescore::flags::StatusFlags;
use nescore::opcode::AddressingMode;
use nescore::opcode::Instruction;
use nescore::opcode::Mnemonic;

/// A processor with `bytes` in RAM from `at` on, about to run them.
fn cpu_with_program(at: u16, bytes: &[u8]) -> CPU6502 {
    let mut cpu = CPU6502::new();
    for (i, byte) in bytes.iter().enumerate() {
        cpu.write(at + i as u16, *byte);
    }
    cpu.set_program_counter(at);
    cpu
}

/// Runs one instruction to its last cycle and gives the number of ticks
/// that it took.
fn run_instruction(cpu: &mut CPU6502) -> u32 {
    assert_eq!(cpu.cycles_to_wait(), 0);
    cpu.clock();
    let mut ticks = 1;
    while cpu.cycles_to_wait() != 0 {
        cpu.clock();
        ticks += 1;
    }
    ticks
}

fn op(name: Mnemonic, target: Option<u16>, data: u8) -> Executable {
    Executable { name, target, data, cycles: 2 }
}

fn flags(cpu: &CPU6502) -> (bool, bool, bool, bool) {
    (
        cpu.is_flag_set(Flag::Carry),
        cpu.is_flag_set(Flag::Zero),
        cpu.is_flag_set(Flag::Negative),
        cpu.is_flag_set(Flag::Overflow),
    )
}

#[test]
fn processor_at_power_on() {
    let cpu = CPU6502::new();
    assert_eq!(cpu.program_counter(), 0xC000);
    assert_eq!(cpu.stack_pointer(), 0xFF);
    assert_eq!(cpu.accumulator(), 0);
    assert_eq!(cpu.reg_x(), 0);
    assert_eq!(cpu.reg_y(), 0);
    assert_eq!(cpu.status(), StatusFlags::empty());
    assert_eq!(cpu.cycles_to_wait(), 0);
}

#[test]
fn table_covers_every_opcode_with_two_cycles_or_more() {
    let mut implemented = 0;
    for opcode in 0..=255u8 {
        let instruction = Instruction::for_opcode(opcode);
        assert!(instruction.cycles >= 2);
        assert!(instruction.cycles <= 7);
        if instruction.name != Mnemonic::Unimplemented {
            implemented += 1;
        } else {
            assert_eq!(instruction.addressing, AddressingMode::Implicit);
            assert_eq!(instruction.cycles, 2);
            assert!(!instruction.page_penalty);
        }
    }
    assert_eq!(implemented, 151);
}

#[test]
fn table_entries_of_well_known_opcodes() {
    let brk = Instruction::for_opcode(0x00);
    assert_eq!((brk.name, brk.addressing, brk.cycles), (Mnemonic::Brk, AddressingMode::Implicit, 7));
    let lda = Instruction::for_opcode(0xA9);
    assert_eq!((lda.name, lda.addressing, lda.cycles), (Mnemonic::Lda, AddressingMode::Immediate, 2));
    let jmp = Instruction::for_opcode(0x6C);
    assert_eq!((jmp.name, jmp.addressing, jmp.cycles), (Mnemonic::Jmp, AddressingMode::Indirect, 5));
    let ldax = Instruction::for_opcode(0xBD);
    assert_eq!(ldax.addressing, AddressingMode::AbsoluteIndexedX);
    assert!(ldax.page_penalty);
    let stax = Instruction::for_opcode(0x9D);
    assert_eq!((stax.name, stax.cycles, stax.page_penalty), (Mnemonic::Sta, 5, false));
    let bne = Instruction::for_opcode(0xD0);
    assert_eq!((bne.name, bne.addressing, bne.cycles), (Mnemonic::Bne, AddressingMode::Relative, 2));
    assert!(bne.page_penalty);
    assert_eq!(Instruction::for_opcode(0xEA).name, Mnemonic::Nop);
    assert_eq!(Instruction::for_opcode(0xFF).name, Mnemonic::Unimplemented);
}

#[test]
fn operand_widths_by_mode() {
    assert_eq!(AddressingMode::Implicit.operand_bytes(), 0);
    assert_eq!(AddressingMode::Accumulator.operand_bytes(), 0);
    assert_eq!(AddressingMode::Immediate.operand_bytes(), 1);
    assert_eq!(AddressingMode::ZeroPage.operand_bytes(), 1);
    assert_eq!(AddressingMode::ZeroPageIndexedX.operand_bytes(), 1);
    assert_eq!(AddressingMode::ZeroPageIndexedY.operand_bytes(), 1);
    assert_eq!(AddressingMode::IndexedIndirect.operand_bytes(), 1);
    assert_eq!(AddressingMode::IndirectIndexed.operand_bytes(), 1);
    assert_eq!(AddressingMode::Relative.operand_bytes(), 1);
    assert_eq!(AddressingMode::Absolute.operand_bytes(), 2);
    assert_eq!(AddressingMode::AbsoluteIndexedX.operand_bytes(), 2);
    assert_eq!(AddressingMode::AbsoluteIndexedY.operand_bytes(), 2);
    assert_eq!(AddressingMode::Indirect.operand_bytes(), 2);
}

#[test]
fn decoding_advances_pc_by_the_operand_width_whatever_the_operand() {
    for opcode in 0..=255u8 {
        let width = Instruction::for_opcode(opcode).addressing.operand_bytes();
        for operand in [[0x00u8, 0x00], [0xFF, 0xFF], [0x80, 0x01], [0x14, 0x40]] {
            for index in [0x00u8, 0xFF] {
                let mut cpu = cpu_with_program(0x0200, &[opcode, operand[0], operand[1]]);
                cpu.set_reg_x(index);
                cpu.set_reg_y(index);
                cpu.decode_next_instruction();
                assert_eq!(cpu.program_counter(), 0x0201 + width);
            }
        }
    }
}

#[test]
fn decoding_wraps_the_program_counter() {
    let mut cpu = CPU6502::new();
    cpu.set_program_counter(0xFFFF);
    let decoded = cpu.decode_next_instruction();
    assert_eq!(decoded.name, Mnemonic::Brk);
    assert_eq!(cpu.program_counter(), 0x0000);
}

#[test]
fn decoding_changes_no_register_but_the_program_counter() {
    let mut cpu = cpu_with_program(0x0200, &[0xBD, 0xF0, 0x02]);
    cpu.set_accumulator(0x11);
    cpu.set_reg_x(0x22);
    cpu.set_reg_y(0x33);
    cpu.set_stack_pointer(0x44);
    cpu.set_status(StatusFlags::from_bits_truncate(0xC3));
    cpu.decode_next_instruction();
    assert_eq!(cpu.accumulator(), 0x11);
    assert_eq!(cpu.reg_x(), 0x22);
    assert_eq!(cpu.reg_y(), 0x33);
    assert_eq!(cpu.stack_pointer(), 0x44);
    assert_eq!(cpu.status().bits(), 0xC3);
    assert_eq!(cpu.cycles_to_wait(), 0);
}

#[test]
fn decode_immediate() {
    let mut cpu = cpu_with_program(0x0200, &[0xA9, 0x42]);
    let decoded = cpu.decode_next_instruction();
    assert_eq!(decoded, Executable { name: Mnemonic::Lda, target: None, data: 0x42, cycles: 2 });
}

#[test]
fn decode_zero_page() {
    let mut cpu = cpu_with_program(0x0200, &[0xA5, 0x10]);
    cpu.write(0x0010, 0x77);
    let decoded = cpu.decode_next_instruction();
    assert_eq!(
        decoded,
        Executable { name: Mnemonic::Lda, target: Some(0x0010), data: 0x77, cycles: 3 }
    );
}

#[test]
fn decode_zero_page_indexed_wraps_within_the_page() {
    let mut cpu = cpu_with_program(0x0200, &[0xB5, 0xF0]);
    cpu.set_reg_x(0x20);
    cpu.write(0x0010, 0x66);
    let decoded = cpu.decode_next_instruction();
    assert_eq!(
        decoded,
        Executable { name: Mnemonic::Lda, target: Some(0x0010), data: 0x66, cycles: 4 }
    );
    let mut cpu = cpu_with_program(0x0200, &[0xB6, 0xF0]);
    cpu.set_reg_y(0x21);
    cpu.write(0x0011, 0x55);
    let decoded = cpu.decode_next_instruction();
    assert_eq!(
        decoded,
        Executable { name: Mnemonic::Ldx, target: Some(0x0011), data: 0x55, cycles: 4 }
    );
}

#[test]
fn decode_absolute_is_little_endian() {
    let mut cpu = cpu_with_program(0x0200, &[0xAD, 0x34, 0x12]);
    cpu.write(0x1234, 0x5E);
    let decoded = cpu.decode_next_instruction();
    assert_eq!(
        decoded,
        Executable { name: Mnemonic::Lda, target: Some(0x1234), data: 0x5E, cycles: 4 }
    );
}

#[test]
fn decode_absolute_indexed_pays_for_a_page_crossing() {
    let mut cpu = cpu_with_program(0x0200, &[0xBD, 0xF0, 0x02]);
    cpu.set_reg_x(0x05);
    cpu.write(0x02F5, 0x01);
    let decoded = cpu.decode_next_instruction();
    assert_eq!(
        decoded,
        Executable { name: Mnemonic::Lda, target: Some(0x02F5), data: 0x01, cycles: 4 }
    );
    let mut cpu = cpu_with_program(0x0200, &[0xBD, 0xF0, 0x02]);
    cpu.set_reg_x(0x20);
    cpu.write(0x0310, 0x02);
    let decoded = cpu.decode_next_instruction();
    assert_eq!(
        decoded,
        Executable { name: Mnemonic::Lda, target: Some(0x0310), data: 0x02, cycles: 5 }
    );
    let mut cpu = cpu_with_program(0x0200, &[0xB9, 0xFF, 0x02]);
    cpu.set_reg_y(0x01);
    cpu.write(0x0300, 0x03);
    let decoded = cpu.decode_next_instruction();
    assert_eq!(
        decoded,
        Executable { name: Mnemonic::Lda, target: Some(0x0300), data: 0x03, cycles: 5 }
    );
}

#[test]
fn decode_absolute_indexed_wraps_at_sixteen_bits() {
    let mut cpu = cpu_with_program(0x0200, &[0xBD, 0xFF, 0xFF]);
    cpu.set_reg_x(0x11);
    cpu.write(0x0010, 0x99);
    let decoded = cpu.decode_next_instruction();
    assert_eq!(
        decoded,
        Executable { name: Mnemonic::Lda, target: Some(0x0010), data: 0x99, cycles: 5 }
    );
}

#[test]
fn store_takes_no_penalty_and_fetches_nothing() {
    let mut cpu = cpu_with_program(0x0200, &[0x9D, 0xF0, 0x02]);
    cpu.set_reg_x(0x20);
    cpu.write(0x0310, 0xEE);
    let decoded = cpu.decode_next_instruction();
    assert_eq!(
        decoded,
        Executable { name: Mnemonic::Sta, target: Some(0x0310), data: 0x00, cycles: 5 }
    );
}

#[test]
fn store_to_a_ppu_register_does_not_read_it_first() {
    // STA $2007, twice, from video address 0x0000: were the register read
    // at decoding, the video address would move on twice for each store.
    let mut cpu = cpu_with_program(0x0200, &[0x8D, 0x07, 0x20, 0x8D, 0x07, 0x20]);
    cpu.set_accumulator(0x5A);
    run_instruction(&mut cpu);
    cpu.set_accumulator(0xA5);
    run_instruction(&mut cpu);
    cpu.write(0x2006, 0x00);
    cpu.write(0x2006, 0x00);
    assert_eq!(cpu.read(0x2007), 0x5A);
    assert_eq!(cpu.read(0x2007), 0xA5);
}

#[test]
fn decode_indirect_reads_the_target_through_the_pointer() {
    let mut cpu = cpu_with_program(0x0200, &[0x6C, 0x00, 0x03]);
    cpu.write(0x0300, 0x34);
    cpu.write(0x0301, 0x12);
    let decoded = cpu.decode_next_instruction();
    assert_eq!(
        decoded,
        Executable { name: Mnemonic::Jmp, target: Some(0x1234), data: 0x00, cycles: 5 }
    );
}

#[test]
fn decode_indexed_indirect() {
    let mut cpu = cpu_with_program(0x0200, &[0xA1, 0x20]);
    cpu.set_reg_x(0x04);
    cpu.write(0x0024, 0x00);
    cpu.write(0x0025, 0x03);
    cpu.write(0x0300, 0xBE);
    let decoded = cpu.decode_next_instruction();
    assert_eq!(
        decoded,
        Executable { name: Mnemonic::Lda, target: Some(0x0300), data: 0xBE, cycles: 6 }
    );
}

#[test]
fn decode_indexed_indirect_wraps_in_page_zero() {
    let mut cpu = cpu_with_program(0x0200, &[0xA1, 0xFE]);
    cpu.set_reg_x(0x01);
    cpu.write(0x00FF, 0x10);
    cpu.write(0x0000, 0x03);
    cpu.write(0x0310, 0xEF);
    let decoded = cpu.decode_next_instruction();
    assert_eq!(
        decoded,
        Executable { name: Mnemonic::Lda, target: Some(0x0310), data: 0xEF, cycles: 6 }
    );
}

#[test]
fn decode_indirect_indexed_pays_for_a_page_crossing() {
    let mut cpu = cpu_with_program(0x0200, &[0xB1, 0x40]);
    cpu.set_reg_y(0x05);
    cpu.write(0x0040, 0xF0);
    cpu.write(0x0041, 0x02);
    cpu.write(0x02F5, 0x0A);
    let decoded = cpu.decode_next_instruction();
    assert_eq!(
        decoded,
        Executable { name: Mnemonic::Lda, target: Some(0x02F5), data: 0x0A, cycles: 5 }
    );
    assert_eq!(cpu.program_counter(), 0x0202);
    let mut cpu = cpu_with_program(0x0200, &[0xB1, 0x40]);
    cpu.set_reg_y(0x20);
    cpu.write(0x0040, 0xF0);
    cpu.write(0x0041, 0x02);
    cpu.write(0x0310, 0x0B);
    let decoded = cpu.decode_next_instruction();
    assert_eq!(
        decoded,
        Executable { name: Mnemonic::Lda, target: Some(0x0310), data: 0x0B, cycles: 6 }
    );
}

#[test]
fn decode_relative_and_implicit() {
    let mut cpu = cpu_with_program(0x0200, &[0xD0, 0xFB, 0x0A]);
    let decoded = cpu.decode_next_instruction();
    assert_eq!(decoded, Executable { name: Mnemonic::Bne, target: None, data: 0xFB, cycles: 2 });
    let decoded = cpu.decode_next_instruction();
    assert_eq!(decoded, Executable { name: Mnemonic::Asl, target: None, data: 0x00, cycles: 2 });
    assert_eq!(cpu.program_counter(), 0x0203);
}

#[test]
fn adc_0x7f_plus_one_overflows() {
    let mut cpu = cpu_with_program(0x0200, &[0x69, 0x01]);
    cpu.set_accumulator(0x7F);
    run_instruction(&mut cpu);
    assert_eq!(cpu.accumulator(), 0x80);
    assert_eq!(flags(&cpu), (false, false, true, true));
}

#[test]
fn adc_adds_the_carry() {
    let mut cpu = CPU6502::new();
    cpu.set_accumulator(0xFE);
    cpu.set_status(StatusFlags::from_bits_truncate(0x01));
    cpu.execute(op(Mnemonic::Adc, None, 0x01));
    assert_eq!(cpu.accumulator(), 0x00);
    assert_eq!(flags(&cpu), (true, true, false, false));
}

#[test]
fn sbc_subtracts_with_borrow() {
    let mut cpu = CPU6502::new();
    cpu.set_accumulator(0x50);
    cpu.set_status(StatusFlags::from_bits_truncate(0x01));
    cpu.execute(op(Mnemonic::Sbc, None, 0x30));
    assert_eq!(cpu.accumulator(), 0x20);
    assert_eq!(flags(&cpu), (true, false, false, false));
    cpu.set_status(StatusFlags::empty());
    cpu.execute(op(Mnemonic::Sbc, None, 0x20));
    assert_eq!(cpu.accumulator(), 0xFF);
    assert_eq!(flags(&cpu), (false, false, true, false));
}

#[test]
fn cmp_of_a_smaller_accumulator() {
    let mut cpu = cpu_with_program(0x0200, &[0xC9, 0x20]);
    cpu.set_accumulator(0x10);
    cpu.set_status(StatusFlags::from_bits_truncate(0x03));
    run_instruction(&mut cpu);
    assert_eq!(cpu.accumulator(), 0x10);
    assert_eq!(flags(&cpu), (false, false, true, false));
}

#[test]
fn compares_set_carry_and_zero() {
    let mut cpu = CPU6502::new();
    cpu.set_reg_x(0x40);
    cpu.set_reg_y(0x41);
    cpu.execute(op(Mnemonic::Cpx, None, 0x40));
    assert_eq!(flags(&cpu), (true, true, false, false));
    cpu.execute(op(Mnemonic::Cpy, None, 0x40));
    assert_eq!(flags(&cpu), (true, false, false, false));
    cpu.execute(op(Mnemonic::Cpy, None, 0x42));
    assert_eq!(flags(&cpu), (false, false, true, false));
    assert_eq!((cpu.reg_x(), cpu.reg_y()), (0x40, 0x41));
}

#[test]
fn logic_works_on_the_accumulator() {
    let mut cpu = CPU6502::new();
    cpu.set_status(StatusFlags::from_bits_truncate(0x41));
    cpu.set_accumulator(0xF0);
    cpu.execute(op(Mnemonic::And, None, 0x3C));
    assert_eq!(cpu.accumulator(), 0x30);
    assert_eq!(flags(&cpu), (true, false, false, true));
    cpu.execute(op(Mnemonic::Ora, None, 0x83));
    assert_eq!(cpu.accumulator(), 0xB3);
    assert_eq!(flags(&cpu), (true, false, true, true));
    cpu.execute(op(Mnemonic::Eor, None, 0xB3));
    assert_eq!(cpu.accumulator(), 0x00);
    assert_eq!(flags(&cpu), (true, true, false, true));
    cpu.execute(op(Mnemonic::Eor, None, 0x0F));
    assert_eq!(cpu.accumulator(), 0x0F);
}

#[test]
fn bit_tests_without_changing_the_accumulator() {
    let mut cpu = CPU6502::new();
    cpu.set_accumulator(0x0F);
    cpu.execute(op(Mnemonic::Bit, Some(0x0010), 0xC0));
    assert_eq!(cpu.accumulator(), 0x0F);
    assert_eq!(flags(&cpu), (false, true, true, true));
    cpu.execute(op(Mnemonic::Bit, Some(0x0010), 0x01));
    assert_eq!(flags(&cpu), (false, false, false, false));
}

#[test]
fn shifts_on_the_accumulator() {
    let mut cpu = cpu_with_program(0x0200, &[0x0A, 0x4A, 0x2A, 0x6A]);
    cpu.set_accumulator(0x81);
    run_instruction(&mut cpu);
    assert_eq!(cpu.accumulator(), 0x02);
    assert_eq!(flags(&cpu), (true, false, false, false));
    run_instruction(&mut cpu);
    assert_eq!(cpu.accumulator(), 0x01);
    assert_eq!(flags(&cpu), (false, false, false, false));
    cpu.set_status(StatusFlags::from_bits_truncate(0x01));
    run_instruction(&mut cpu);
    assert_eq!(cpu.accumulator(), 0x03);
    assert_eq!(flags(&cpu), (false, false, false, false));
    run_instruction(&mut cpu);
    assert_eq!(cpu.accumulator(), 0x01);
    assert_eq!(flags(&cpu), (true, false, false, false));
}

#[test]
fn shifts_on_memory_write_the_result_back() {
    // LSR $10; ROL $10; ROR $10; ASL $0000 (absolute, at address zero).
    let mut cpu = cpu_with_program(0x0200, &[0x46, 0x10, 0x26, 0x10, 0x0E, 0x00, 0x00]);
    cpu.write(0x0010, 0x03);
    cpu.write(0x0000, 0xC0);
    cpu.set_accumulator(0x55);
    assert_eq!(run_instruction(&mut cpu), 5);
    assert_eq!(cpu.read(0x0010), 0x01);
    assert_eq!(flags(&cpu), (true, false, false, false));
    assert_eq!(run_instruction(&mut cpu), 5);
    assert_eq!(cpu.read(0x0010), 0x03);
    assert_eq!(flags(&cpu), (false, false, false, false));
    assert_eq!(run_instruction(&mut cpu), 6);
    assert_eq!(cpu.read(0x0000), 0x80);
    assert_eq!(flags(&cpu), (true, false, true, false));
    assert_eq!(cpu.accumulator(), 0x55);
}

#[test]
fn rotate_right_on_memory_takes_the_carry_in() {
    let mut cpu = CPU6502::new();
    cpu.set_status(StatusFlags::from_bits_truncate(0x01));
    cpu.execute(op(Mnemonic::Ror, Some(0x0020), 0x02));
    assert_eq!(cpu.read(0x0020), 0x81);
    assert_eq!(flags(&cpu), (false, false, true, false));
}

#[test]
fn increments_and_decrements() {
    let mut cpu = cpu_with_program(0x0200, &[0xE8, 0xC8, 0xCA, 0x88, 0xE6, 0x10, 0xC6, 0x11]);
    cpu.set_reg_x(0xFF);
    cpu.set_reg_y(0x7F);
    cpu.write(0x0010, 0xFF);
    cpu.write(0x0011, 0x00);
    run_instruction(&mut cpu);
    assert_eq!(cpu.reg_x(), 0x00);
    assert_eq!(flags(&cpu), (false, true, false, false));
    run_instruction(&mut cpu);
    assert_eq!(cpu.reg_y(), 0x80);
    assert_eq!(flags(&cpu), (false, false, true, false));
    run_instruction(&mut cpu);
    assert_eq!(cpu.reg_x(), 0xFF);
    assert_eq!(flags(&cpu), (false, false, true, false));
    run_instruction(&mut cpu);
    assert_eq!(cpu.reg_y(), 0x7F);
    assert_eq!(flags(&cpu), (false, false, false, false));
    assert_eq!(run_instruction(&mut cpu), 5);
    assert_eq!(cpu.read(0x0010), 0x00);
    assert_eq!(flags(&cpu), (false, true, false, false));
    assert_eq!(run_instruction(&mut cpu), 5);
    assert_eq!(cpu.read(0x0011), 0xFF);
    assert_eq!(flags(&cpu), (false, false, true, false));
}

#[test]
fn loads_set_flags_and_stores_do_not() {
    let mut cpu = cpu_with_program(0x0200, &[0xA9, 0x00, 0xA2, 0x80, 0xA0, 0x01, 0x85, 0x10, 0x86, 0x11, 0x84, 0x12]);
    run_instruction(&mut cpu);
    assert_eq!(cpu.accumulator(), 0x00);
    assert_eq!(flags(&cpu), (false, true, false, false));
    run_instruction(&mut cpu);
    assert_eq!(cpu.reg_x(), 0x80);
    assert_eq!(flags(&cpu), (false, false, true, false));
    run_instruction(&mut cpu);
    assert_eq!(cpu.reg_y(), 0x01);
    assert_eq!(flags(&cpu), (false, false, false, false));
    cpu.set_status(StatusFlags::from_bits_truncate(0xC3));
    run_instruction(&mut cpu);
    run_instruction(&mut cpu);
    run_instruction(&mut cpu);
    assert_eq!(cpu.status().bits(), 0xC3);
    assert_eq!(cpu.read(0x0010), 0x00);
    assert_eq!(cpu.read(0x0011), 0x80);
    assert_eq!(cpu.read(0x0012), 0x01);
}

#[test]
fn transfers_copy_between_registers() {
    let mut cpu = CPU6502::new();
    cpu.set_accumulator(0x80);
    cpu.execute(op(Mnemonic::Tax, None, 0));
    assert_eq!(cpu.reg_x(), 0x80);
    assert_eq!(flags(&cpu), (false, false, true, false));
    cpu.set_accumulator(0x00);
    cpu.execute(op(Mnemonic::Tay, None, 0));
    assert_eq!(cpu.reg_y(), 0x00);
    assert_eq!(flags(&cpu), (false, true, false, false));
    cpu.execute(op(Mnemonic::Txa, None, 0));
    assert_eq!(cpu.accumulator(), 0x80);
    cpu.set_reg_y(0x33);
    cpu.execute(op(Mnemonic::Tya, None, 0));
    assert_eq!(cpu.accumulator(), 0x33);
    assert_eq!(flags(&cpu), (false, false, false, false));
    cpu.execute(op(Mnemonic::Tsx, None, 0));
    assert_eq!(cpu.reg_x(), 0xFF);
    assert_eq!(flags(&cpu), (false, false, true, false));
}

#[test]
fn txs_sets_no_flag() {
    let mut cpu = CPU6502::new();
    cpu.set_reg_x(0x00);
    cpu.set_status(StatusFlags::from_bits_truncate(0x80));
    cpu.execute(op(Mnemonic::Txs, None, 0));
    assert_eq!(cpu.stack_pointer(), 0x00);
    assert_eq!(cpu.status().bits(), 0x80);
}

#[test]
fn branch_not_taken_costs_the_base_cycles() {
    let mut cpu = cpu_with_program(0x0200, &[0xD0, 0x05]);
    cpu.set_status(StatusFlags::from_bits_truncate(0x02));
    assert_eq!(run_instruction(&mut cpu), 2);
    assert_eq!(cpu.program_counter(), 0x0202);
}

#[test]
fn branch_taken_within_the_page_costs_one_more() {
    let mut cpu = cpu_with_program(0x0200, &[0xD0, 0x05]);
    assert_eq!(run_instruction(&mut cpu), 3);
    assert_eq!(cpu.program_counter(), 0x0207);
}

#[test]
fn branch_taken_across_a_page_costs_two_more() {
    let mut cpu = cpu_with_program(0x02F0, &[0xD0, 0x20]);
    assert_eq!(run_instruction(&mut cpu), 4);
    assert_eq!(cpu.program_counter(), 0x0312);
}

#[test]
fn branch_backwards() {
    let mut cpu = cpu_with_program(0x0200, &[0xD0, 0xFE]);
    assert_eq!(run_instruction(&mut cpu), 3);
    assert_eq!(cpu.program_counter(), 0x0200);
    let mut cpu = cpu_with_program(0x0200, &[0xD0, 0xFD]);
    assert_eq!(run_instruction(&mut cpu), 4);
    assert_eq!(cpu.program_counter(), 0x01FF);
}

#[test]
fn each_branch_tests_its_flag() {
    let cases = [
        (Mnemonic::Bcc, 0x01u8, false),
        (Mnemonic::Bcs, 0x01, true),
        (Mnemonic::Bne, 0x02, false),
        (Mnemonic::Beq, 0x02, true),
        (Mnemonic::Bvc, 0x40, false),
        (Mnemonic::Bvs, 0x40, true),
        (Mnemonic::Bpl, 0x80, false),
        (Mnemonic::Bmi, 0x80, true),
    ];
    for (name, bit, taken_when_set) in cases {
        for set in [false, true] {
            let mut cpu = CPU6502::new();
            cpu.set_program_counter(0x0210);
            cpu.set_status(StatusFlags::from_bits_truncate(if set { bit } else { !bit }));
            cpu.execute(op(name, None, 0x10));
            if set == taken_when_set {
                assert_eq!(cpu.program_counter(), 0x0220);
                assert_eq!(cpu.cycles_to_wait(), 2);
            } else {
                assert_eq!(cpu.program_counter(), 0x0210);
                assert_eq!(cpu.cycles_to_wait(), 1);
            }
        }
    }
}

#[test]
fn pha_then_pla_restores_accumulator_and_stack_pointer() {
    for (a, sp) in [(0x00u8, 0xFFu8), (0x42, 0xFF), (0x80, 0x80), (0xFF, 0x00), (0x17, 0x01)] {
        let mut cpu = cpu_with_program(0x0200, &[0x48, 0x68]);
        cpu.set_accumulator(a);
        cpu.set_stack_pointer(sp);
        assert_eq!(run_instruction(&mut cpu), 3);
        assert_eq!(cpu.stack_pointer(), sp.wrapping_sub(1));
        assert_eq!(cpu.read(0x0100 + sp as u16), a);
        assert_eq!(run_instruction(&mut cpu), 4);
        assert_eq!(cpu.accumulator(), a);
        assert_eq!(cpu.stack_pointer(), sp);
    }
}

#[test]
fn pla_sets_zero_and_negative() {
    let mut cpu = CPU6502::new();
    cpu.push_stack(0x00);
    cpu.push_stack(0x90);
    cpu.set_accumulator(0x01);
    cpu.execute(op(Mnemonic::Pla, None, 0));
    assert_eq!(cpu.accumulator(), 0x90);
    assert_eq!(flags(&cpu), (false, false, true, false));
    cpu.execute(op(Mnemonic::Pla, None, 0));
    assert_eq!(cpu.accumulator(), 0x00);
    assert_eq!(flags(&cpu), (false, true, false, false));
}

#[test]
fn stack_lives_in_page_one_and_wraps() {
    let mut cpu = CPU6502::new();
    cpu.set_stack_pointer(0x00);
    cpu.push_stack(0xAA);
    assert_eq!(cpu.stack_pointer(), 0xFF);
    assert_eq!(cpu.read(0x0100), 0xAA);
    cpu.push_stack(0xBB);
    assert_eq!(cpu.stack_pointer(), 0xFE);
    assert_eq!(cpu.read(0x01FF), 0xBB);
    assert_eq!(cpu.pop_stack(), 0xBB);
    assert_eq!(cpu.pop_stack(), 0xAA);
    assert_eq!(cpu.stack_pointer(), 0x00);
}

#[test]
fn php_pushes_the_unused_bit_and_plp_drops_it() {
    let mut cpu = CPU6502::new();
    cpu.set_status(StatusFlags::from_bits_truncate(0xC3));
    cpu.execute(op(Mnemonic::Php, None, 0));
    assert_eq!(cpu.read(0x01FF), 0xE3);
    assert_eq!(cpu.status().bits(), 0xC3);
    cpu.set_status(StatusFlags::empty());
    cpu.execute(op(Mnemonic::Plp, None, 0));
    assert_eq!(cpu.status().bits(), 0xC3);
    assert_eq!(cpu.stack_pointer(), 0xFF);
    cpu.push_stack(0xFF);
    cpu.execute(op(Mnemonic::Plp, None, 0));
    assert_eq!(cpu.status().bits(), 0xDF);
}

#[test]
fn jmp_sets_the_program_counter() {
    let mut cpu = cpu_with_program(0x0200, &[0x4C, 0x34, 0x12]);
    assert_eq!(run_instruction(&mut cpu), 3);
    assert_eq!(cpu.program_counter(), 0x1234);
    let mut cpu = cpu_with_program(0x0200, &[0x6C, 0x00, 0x03]);
    cpu.write(0x0300, 0x78);
    cpu.write(0x0301, 0x56);
    assert_eq!(run_instruction(&mut cpu), 5);
    assert_eq!(cpu.program_counter(), 0x5678);
}

#[test]
fn jsr_then_rts_returns_behind_the_call() {
    let mut cpu = cpu_with_program(0x0200, &[0x20, 0x00, 0x03, 0xEA]);
    cpu.write(0x0300, 0x60);
    assert_eq!(run_instruction(&mut cpu), 6);
    assert_eq!(cpu.program_counter(), 0x0300);
    assert_eq!(cpu.stack_pointer(), 0xFD);
    assert_eq!(cpu.read(0x01FF), 0x02);
    assert_eq!(cpu.read(0x01FE), 0x02);
    assert_eq!(run_instruction(&mut cpu), 6);
    assert_eq!(cpu.program_counter(), 0x0203);
    assert_eq!(cpu.stack_pointer(), 0xFF);
}

#[test]
fn brk_pushes_state_and_takes_the_interrupt_vector() {
    let mut image = vec![0x4E, 0x45, 0x53, 0x1A, 1, 1, 0, 0, 0, 0, 0, 0, 0, 0, 0, 0];
    let mut payload = vec![0u8; 0x4000];
    payload[0x3FFE] = 0x00;
    payload[0x3FFF] = 0x03;
    image.extend_from_slice(&payload);
    let mut cpu = cpu_with_program(0x0234, &[0x00]);
    assert_eq!(cpu.load_cartridge(&image), Ok(()));
    cpu.write(0x0300, 0x40);
    cpu.set_status(StatusFlags::from_bits_truncate(0x81));
    assert_eq!(run_instruction(&mut cpu), 7);
    assert_eq!(cpu.program_counter(), 0x0300);
    assert_eq!(cpu.stack_pointer(), 0xFC);
    assert_eq!(cpu.read(0x01FF), 0x02);
    assert_eq!(cpu.read(0x01FE), 0x35);
    assert_eq!(cpu.read(0x01FD), 0xA1);
    assert!(cpu.is_flag_set(Flag::Break));
    assert_eq!(cpu.status().bits(), 0x91);
    // RTI gives back the status and the program counter that were pushed.
    assert_eq!(run_instruction(&mut cpu), 6);
    assert_eq!(cpu.program_counter(), 0x0235);
    assert_eq!(cpu.status().bits(), 0x81);
    assert_eq!(cpu.stack_pointer(), 0xFF);
}

#[test]
fn flag_instructions_change_one_flag() {
    let cases = [
        (Mnemonic::Sec, 0x00u8, 0x01u8),
        (Mnemonic::Sed, 0x00, 0x08),
        (Mnemonic::Sei, 0x00, 0x04),
        (Mnemonic::Clc, 0xDF, 0xDE),
        (Mnemonic::Cld, 0xDF, 0xD7),
        (Mnemonic::Cli, 0xDF, 0xDB),
        (Mnemonic::Clv, 0xDF, 0x9F),
    ];
    for (name, before, after) in cases {
        let mut cpu = CPU6502::new();
        cpu.set_status(StatusFlags::from_bits_truncate(before));
        cpu.execute(op(name, None, 0));
        assert_eq!(cpu.status().bits(), after);
        assert_eq!(cpu.accumulator(), 0);
        assert_eq!(cpu.program_counter(), 0xC000);
    }
}

#[test]
fn unimplemented_opcode_takes_its_cycles_and_changes_nothing() {
    let mut cpu = cpu_with_program(0x0200, &[0x02, 0xFF]);
    cpu.set_accumulator(0x11);
    cpu.set_reg_x(0x22);
    cpu.set_reg_y(0x33);
    cpu.set_status(StatusFlags::from_bits_truncate(0xC3));
    assert_eq!(run_instruction(&mut cpu), 2);
    assert_eq!(cpu.program_counter(), 0x0201);
    assert_eq!(run_instruction(&mut cpu), 2);
    assert_eq!(cpu.program_counter(), 0x0202);
    assert_eq!(cpu.accumulator(), 0x11);
    assert_eq!(cpu.reg_x(), 0x22);
    assert_eq!(cpu.reg_y(), 0x33);
    assert_eq!(cpu.stack_pointer(), 0xFF);
    assert_eq!(cpu.status().bits(), 0xC3);
    assert_eq!(cpu.read(0x0200), 0x02);
}

#[test]
fn memory_operation_without_a_target_does_nothing() {
    let mut cpu = CPU6502::new();
    cpu.set_accumulator(0x77);
    for name in [Mnemonic::Sta, Mnemonic::Inc, Mnemonic::Dec, Mnemonic::Jmp, Mnemonic::Jsr] {
        cpu.execute(op(name, None, 0x10));
        assert_eq!(cpu.program_counter(), 0xC000);
        assert_eq!(cpu.stack_pointer(), 0xFF);
        assert_eq!(cpu.status(), StatusFlags::empty());
        assert_eq!(cpu.cycles_to_wait(), 1);
    }
}

#[test]
fn clock_waits_out_the_cycles_of_an_instruction() {
    // LDA $10 takes three cycles, LDX #1 takes two.
    let mut cpu = cpu_with_program(0x0200, &[0xA5, 0x10, 0xA2, 0x01]);
    cpu.write(0x0010, 0x42);
    cpu.clock();
    assert_eq!(cpu.accumulator(), 0x42);
    assert_eq!(cpu.program_counter(), 0x0202);
    assert_eq!(cpu.cycles_to_wait(), 2);
    cpu.clock();
    assert_eq!(cpu.cycles_to_wait(), 1);
    assert_eq!(cpu.reg_x(), 0);
    cpu.clock();
    assert_eq!(cpu.cycles_to_wait(), 0);
    assert_eq!(cpu.reg_x(), 0);
    assert_eq!(cpu.program_counter(), 0x0202);
    cpu.clock();
    assert_eq!(cpu.reg_x(), 1);
    assert_eq!(cpu.cycles_to_wait(), 1);
    assert_eq!(cpu.program_counter(), 0x0204);
}

#[test]
fn execute_sets_the_cycles_still_to_wait() {
    let mut cpu = CPU6502::new();
    cpu.execute(Executable { name: Mnemonic::Nop, target: None, data: 0, cycles: 7 });
    assert_eq!(cpu.cycles_to_wait(), 6);
    cpu.execute(Executable { name: Mnemonic::Nop, target: None, data: 0, cycles: 1 });
    assert_eq!(cpu.cycles_to_wait(), 0);
}

#[test]
fn processor_runs_from_the_cartridge() {
    // At 0xC000, which a single bank shows at its start: LDA #$05; STA $0010;
    // then a jump to itself.
    let mut image = vec![0x4E, 0x45, 0x53, 0x1A, 1, 0, 0, 0, 0, 0, 0, 0, 0, 0, 0, 0];
    image.extend_from_slice(&[0xA9, 0x05, 0x8D, 0x10, 0x00, 0x4C, 0x05, 0xC0]);
    let mut cpu = CPU6502::new();
    assert_eq!(cpu.load_cartridge(&image), Ok(()));
    run_instruction(&mut cpu);
    run_instruction(&mut cpu);
    assert_eq!(cpu.read(0x0010), 0x05);
    assert_eq!(cpu.program_counter(), 0xC005);
    run_instruction(&mut cpu);
    assert_eq!(cpu.program_counter(), 0xC005);
}
