use nescore::alu::add_with_carry;
use nescore::alu::branch_target;
use nescore::alu::compare;
use nescore::alu::crosses_page;
use nescore::alu::high_byte;
use nescore::alu::is_negative;
use nescore::alu::low_byte;
use nescore::alu::make_word;
use nescore::alu::rotate_left;
use nescore::alu::rotate_right;
use nescore::alu::shift_left;
use nescore::alu::shift_right;
use nescore::alu::subtract_with_carry;
use nescore::alu::AluResult;
use nescore::alu::CarryResult;

#[test]
fn adc_signed_overflow_into_negative() {
    let r = add_with_carry(0x7F, 0x01, false);
    assert_eq!(r, AluResult { value: 0x80, carry: false, overflow: true });
}

#[test]
fn adc_takes_the_incoming_carry() {
    let r = add_with_carry(0x10, 0x20, true);
    assert_eq!(r, AluResult { value: 0x31, carry: false, overflow: false });
}

#[test]
fn adc_unsigned_overflow_sets_carry() {
    let r = add_with_carry(0xFF, 0x01, false);
    assert_eq!(r, AluResult { value: 0x00, carry: true, overflow: false });
    let r = add_with_carry(0xFF, 0xFF, true);
    assert_eq!(r, AluResult { value: 0xFF, carry: true, overflow: false });
}

#[test]
fn adc_two_negatives_overflow_to_positive() {
    let r = add_with_carry(0x80, 0x80, false);
    assert_eq!(r, AluResult { value: 0x00, carry: true, overflow: true });
}

#[test]
fn adc_agrees_with_integer_arithmetic_everywhere() {
    for a in 0..=255u16 {
        for m in 0..=255u16 {
            for c in 0..=1u16 {
                let r = add_with_carry(a as u8, m as u8, c == 1);
                let sum = a + m + c;
                let signed = (a as u8 as i8) as i16 + (m as u8 as i8) as i16 + c as i16;
                assert_eq!(r.value as u16, sum % 256);
                assert_eq!(r.carry, sum > 255);
                assert_eq!(r.overflow, !(-128..=127).contains(&signed));
            }
        }
    }
}

#[test]
fn sbc_is_adc_of_the_complement() {
    for a in [0x00u8, 0x01, 0x50, 0x7F, 0x80, 0xD0, 0xFF] {
        for m in [0x00u8, 0x01, 0x30, 0x70, 0x80, 0xB0, 0xFF] {
            for c in [false, true] {
                assert_eq!(subtract_with_carry(a, m, c), add_with_carry(a, !m, c));
            }
        }
    }
}

#[test]
fn sbc_with_carry_set_subtracts_exactly() {
    let r = subtract_with_carry(0x50, 0x30, true);
    assert_eq!(r, AluResult { value: 0x20, carry: true, overflow: false });
}

#[test]
fn sbc_with_carry_clear_borrows_one() {
    let r = subtract_with_carry(0x50, 0x30, false);
    assert_eq!(r, AluResult { value: 0x1F, carry: true, overflow: false });
}

#[test]
fn sbc_below_zero_clears_carry() {
    let r = subtract_with_carry(0x10, 0x20, true);
    assert_eq!(r, AluResult { value: 0xF0, carry: false, overflow: false });
}

#[test]
fn sbc_signed_overflow() {
    let r = subtract_with_carry(0x50, 0xB0, true);
    assert_eq!(r, AluResult { value: 0xA0, carry: false, overflow: true });
}

#[test]
fn compare_smaller_register_wraps() {
    let r = compare(0x10, 0x20);
    assert_eq!(r, CarryResult { value: 0xF0, carry: false });
    assert!(is_negative(r.value));
}

#[test]
fn compare_equal_and_greater() {
    assert_eq!(compare(0x42, 0x42), CarryResult { value: 0x00, carry: true });
    assert_eq!(compare(0x80, 0x01), CarryResult { value: 0x7F, carry: true });
    assert_eq!(compare(0x00, 0xFF), CarryResult { value: 0x01, carry: false });
}

#[test]
fn shift_left_moves_bit_seven_to_carry() {
    assert_eq!(shift_left(0x81), CarryResult { value: 0x02, carry: true });
    assert_eq!(shift_left(0x40), CarryResult { value: 0x80, carry: false });
}

#[test]
fn shift_right_moves_bit_zero_to_carry() {
    assert_eq!(shift_right(0x81), CarryResult { value: 0x40, carry: true });
    assert_eq!(shift_right(0x02), CarryResult { value: 0x01, carry: false });
}

#[test]
fn rotate_left_takes_carry_into_bit_zero() {
    assert_eq!(rotate_left(0x80, true), CarryResult { value: 0x01, carry: true });
    assert_eq!(rotate_left(0x80, false), CarryResult { value: 0x00, carry: true });
    assert_eq!(rotate_left(0x01, true), CarryResult { value: 0x03, carry: false });
}

#[test]
fn rotate_right_takes_carry_into_bit_seven() {
    assert_eq!(rotate_right(0x01, true), CarryResult { value: 0x80, carry: true });
    assert_eq!(rotate_right(0x01, false), CarryResult { value: 0x00, carry: true });
    assert_eq!(rotate_right(0x80, true), CarryResult { value: 0xC0, carry: false });
}

#[test]
fn rotate_left_and_right_differ() {
    assert_ne!(rotate_left(0x02, false), rotate_right(0x02, false));
    assert_eq!(rotate_left(0x02, false).value, 0x04);
    assert_eq!(rotate_right(0x02, false).value, 0x01);
}

#[test]
fn is_negative_tests_bit_seven() {
    assert!(!is_negative(0x00));
    assert!(!is_negative(0x7F));
    assert!(is_negative(0x80));
    assert!(is_negative(0xFF));
}

#[test]
fn words_are_little_endian_pairs() {
    assert_eq!(make_word(0x34, 0x12), 0x1234);
    assert_eq!(low_byte(0x1234), 0x34);
    assert_eq!(high_byte(0x1234), 0x12);
    assert_eq!(make_word(0xFF, 0xFF), 0xFFFF);
}

#[test]
fn page_crossing_compares_high_bytes() {
    assert!(!crosses_page(0x1200, 0x12FF));
    assert!(crosses_page(0x12FF, 0x1300));
    assert!(crosses_page(0x0000, 0xFFFF));
}

#[test]
fn branch_target_adds_a_signed_offset() {
    assert_eq!(branch_target(0x0202, 0x05), 0x0207);
    assert_eq!(branch_target(0x0202, 0xFE), 0x0200);
    assert_eq!(branch_target(0x0202, 0x80), 0x0182);
    assert_eq!(branch_target(0x0202, 0x7F), 0x0281);
}

#[test]
fn branch_target_wraps_at_sixteen_bits() {
    assert_eq!(branch_target(0xFFFF, 0x01), 0x0000);
    assert_eq!(branch_target(0x0000, 0xFF), 0xFFFF);
}
