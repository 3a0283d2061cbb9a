//! Arithmetic on bytes and addresses, as the processor does it. Each
//! operation is specified in terms of integers and carried out with the
//! machine's own operations.

use vstd::prelude::*;

verus! {

/// The byte that an integer wraps to, for an integer that is at most one
/// turn away from the range of a byte: from -256 to 511.
pub open spec fn wrap8(v: int) -> u8
    recommends
        -256 <= v < 512,
{
    if v < 0 {
        (v + 256) as u8
    } else if v > 255 {
        (v - 256) as u8
    } else {
        v as u8
    }
}

/// The 16-bit value that an integer wraps to, for an integer that is at
/// most one turn away from the range of 16 bits: from -65536 to 131071.
pub open spec fn wrap16(v: int) -> u16
    recommends
        -65536 <= v < 131072,
{
    if v < 0 {
        (v + 65536) as u16
    } else if v > 65535 {
        (v - 65536) as u16
    } else {
        v as u16
    }
}

/// A byte read as a signed number, from -128 to 127.
pub open spec fn signed(byte: u8) -> int {
    if byte >= 128 {
        byte as int - 256
    } else {
        byte as int
    }
}

/// The 16-bit value with the given low and high bytes.
pub open spec fn word(lo: u8, hi: u8) -> u16 {
    (hi as int * 256 + lo as int) as u16
}

/// The low byte of a 16-bit value.
pub open spec fn low(w: u16) -> u8 {
    (w as int % 256) as u8
}

/// The high byte of a 16-bit value.
pub open spec fn high(w: u16) -> u8 {
    (w as int / 256) as u8
}

/// Whether two addresses lie in different pages of 256 bytes.
pub open spec fn page_differs(a: u16, b: u16) -> bool {
    a as int / 256 != b as int / 256
}

/// A carry as a number.
pub open spec fn carry_value(carry: bool) -> int {
    if carry {
        1
    } else {
        0
    }
}

/// The outcome of an addition or a subtraction.
#[derive(Clone, Copy, Debug, PartialEq, Eq, Structural)]
pub struct AluResult {
    /// The low eight bits of the result.
    pub value: u8,
    /// Whether the unsigned result left the range of a byte.
    pub carry: bool,
    /// Whether the signed result left the range of a byte.
    pub overflow: bool,
}

/// The outcome of a shift, a rotation or a comparison.
#[derive(Clone, Copy, Debug, PartialEq, Eq, Structural)]
pub struct CarryResult {
    /// The resulting byte.
    pub value: u8,
    /// The carry that the operation leaves.
    pub carry: bool,
}

/// Addition with carry: the sum of the two bytes and the carry. The carry
/// out tells that the unsigned sum does not fit in a byte, the overflow
/// that the signed sum does not.
pub open spec fn spec_adc(a: u8, m: u8, carry_in: bool) -> AluResult {
    let sum = a as int + m as int + carry_value(carry_in);
    let signed_sum = signed(a) + signed(m) + carry_value(carry_in);
    AluResult {
        value: wrap8(sum),
        carry: sum > 255,
        overflow: signed_sum < -128 || signed_sum > 127,
    }
}

/// Subtraction with borrow: the addition of the one's complement of the
/// operand.
pub open spec fn spec_sbc(a: u8, m: u8, carry_in: bool) -> AluResult {
    spec_adc(a, (255 - m) as u8, carry_in)
}

/// Comparison: the difference modulo 256, and a carry that tells that the
/// register is not less than the operand.
pub open spec fn spec_compare(register: u8, m: u8) -> CarryResult {
    CarryResult { value: wrap8(register as int - m as int), carry: register >= m }
}

/// Shift left: bit 7 goes to the carry, bit 0 becomes zero.
pub open spec fn spec_asl(v: u8) -> CarryResult {
    CarryResult { value: wrap8(v as int * 2), carry: v >= 128 }
}

/// Shift right: bit 0 goes to the carry, bit 7 becomes zero.
pub open spec fn spec_lsr(v: u8) -> CarryResult {
    CarryResult { value: (v as int / 2) as u8, carry: v as int % 2 == 1 }
}

/// Rotate left: bit 7 goes to the carry, the old carry comes in as bit 0.
pub open spec fn spec_rol(v: u8, carry_in: bool) -> CarryResult {
    CarryResult { value: wrap8(v as int * 2 + carry_value(carry_in)), carry: v >= 128 }
}

/// Rotate right: bit 0 goes to the carry, the old carry comes in as bit 7.
pub open spec fn spec_ror(v: u8, carry_in: bool) -> CarryResult {
    CarryResult {
        value: (v as int / 2 + 128 * carry_value(carry_in)) as u8,
        carry: v as int % 2 == 1,
    }
}

/// The address that a branch with the given offset leads to from `pc`:
/// the offset is a signed byte and the sum wraps at 16 bits.
pub open spec fn spec_branch_target(pc: u16, offset: u8) -> u16 {
    wrap16(pc as int + signed(offset))
}

/// Whether bit 7 of a byte is set: whether it is negative when read as a
/// signed number.
pub fn is_negative(number: u8) -> (negative: bool)
    ensures
        negative == (number >= 128),
        negative == (signed(number) < 0),
{
    assert((number & 0x80 == 0x80) == (number >= 128)) by (bit_vector);
    number & 0x80 == 0x80
}

/// The 16-bit value with the given low and high bytes.
pub fn make_word(lo: u8, hi: u8) -> (w: u16)
    ensures
        w == word(lo, hi),
        low(w) == lo,
        high(w) == hi,
{
    (hi as u16) * 256 + (lo as u16)
}

/// The low byte of a 16-bit value.
pub fn low_byte(w: u16) -> (lo: u8)
    ensures
        lo == low(w),
{
    assert(w & 0x00FF == w % 256) by (bit_vector);
    (w & 0x00FF) as u8
}

/// The high byte of a 16-bit value.
pub fn high_byte(w: u16) -> (hi: u8)
    ensures
        hi == high(w),
{
    assert(w >> 8 == w / 256) by (bit_vector);
    (w >> 8) as u8
}

/// Whether two addresses lie in different pages.
pub fn crosses_page(a: u16, b: u16) -> (crossed: bool)
    ensures
        crossed == page_differs(a, b),
{
    assert((a & 0xFF00 != b & 0xFF00) == (a / 256 != b / 256)) by (bit_vector);
    a & 0xFF00 != b & 0xFF00
}

/// Adds the operand and the carry to the accumulator.
pub fn add_with_carry(a: u8, m: u8, carry_in: bool) -> (r: AluResult)
    ensures
        r == spec_adc(a, m, carry_in),
{
    let c: u16 = if carry_in {
        1
    } else {
        0
    };
    let sum: u16 = a as u16 + m as u16 + c;
    let value: u8 = (sum & 0x00FF) as u8;
    let overflow: bool = (!(a ^ m) & (a ^ value)) & 0x80 != 0;
    assert(sum & 0x00FF == sum % 256) by (bit_vector);
    assert(((!(a ^ m) & (a ^ value)) & 0x80 != 0) == ((a >= 128) == (m >= 128) && (value >= 128)
        != (a >= 128))) by (bit_vector);
    AluResult { value, carry: sum > 0x00FF, overflow }
}

/// Subtracts the operand and the borrow (the inverse of the carry) from
/// the accumulator.
pub fn subtract_with_carry(a: u8, m: u8, carry_in: bool) -> (r: AluResult)
    ensures
        r == spec_sbc(a, m, carry_in),
{
    assert(!m == 255 - m) by (bit_vector);
    add_with_carry(a, !m, carry_in)
}

/// Compares a register with the operand.
pub fn compare(register: u8, m: u8) -> (r: CarryResult)
    ensures
        r == spec_compare(register, m),
{
    CarryResult { value: register.wrapping_sub(m), carry: register >= m }
}

/// Shifts a byte left by one bit.
pub fn shift_left(v: u8) -> (r: CarryResult)
    ensures
        r == spec_asl(v),
{
    assert((v << 1) == (v as u16 * 2) % 256 && (v & 0x80 != 0) == (v >= 128)) by (bit_vector);
    CarryResult { value: v << 1, carry: v & 0x80 != 0 }
}

/// Shifts a byte right by one bit.
pub fn shift_right(v: u8) -> (r: CarryResult)
    ensures
        r == spec_lsr(v),
{
    assert((v >> 1) == v / 2 && (v & 0x01 != 0) == (v % 2 == 1)) by (bit_vector);
    CarryResult { value: v >> 1, carry: v & 0x01 != 0 }
}

/// Rotates a byte left by one bit through the carry.
pub fn rotate_left(v: u8, carry_in: bool) -> (r: CarryResult)
    ensures
        r == spec_rol(v, carry_in),
{
    let c: u8 = if carry_in {
        1
    } else {
        0
    };
    assert(((v << 1) | c) == (v as u16 * 2 + c as u16) % 256 && (v & 0x80 != 0) == (v >= 128))
        by (bit_vector)
        requires
            c <= 1,
    ;
    CarryResult { value: (v << 1) | c, carry: v & 0x80 != 0 }
}

/// Rotates a byte right by one bit through the carry.
pub fn rotate_right(v: u8, carry_in: bool) -> (r: CarryResult)
    ensures
        r == spec_ror(v, carry_in),
{
    let c: u8 = if carry_in {
        0x80
    } else {
        0
    };
    assert(((v >> 1) | c) == v / 2 + c && (v & 0x01 != 0) == (v % 2 == 1)) by (bit_vector)
        requires
            c == 0x80 || c == 0,
    ;
    CarryResult { value: (v >> 1) | c, carry: v & 0x01 != 0 }
}

/// The address that a branch leads to.
pub fn branch_target(pc: u16, offset: u8) -> (target: u16)
    ensures
        target == spec_branch_target(pc, offset),
{
    if offset < 0x80 {
        pc.wrapping_add(offset as u16)
    } else {
        pc.wrapping_sub(256 - offset as u16)
    }
}

/// Wrapping is the remainder: modulo 256 for a byte, modulo 65536 for a
/// 16-bit value.
pub proof fn lemma_wrap_is_remainder(v: int)
    ensures
        -256 <= v < 512 ==> wrap8(v) as int == v % 256,
        -65536 <= v < 131072 ==> wrap16(v) as int == v % 65536,
{
}

/// The overflow of an addition, by the signs: it is set exactly when both
/// operands have the same sign and the result has the other one.
pub proof fn lemma_overflow_by_signs(a: u8, m: u8, carry_in: bool)
    ensures
        spec_adc(a, m, carry_in).overflow == ((a >= 128) == (m >= 128) && (spec_adc(
            a,
            m,
            carry_in,
        ).value >= 128) != (a >= 128)),
{
}

} // verus!
