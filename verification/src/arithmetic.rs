//! Carry and overflow of 8-bit addition and subtraction.
//!
//! An instruction that adds or subtracts takes its C and V flags from here:
//! C tells whether the unsigned result left the range of a byte, V whether
//! the signed result did. A subtraction borrows when C is clear, and its C
//! is set when no borrow was needed.

use vstd::prelude::*;
use crate::registers::{
    status_with_nz, status_with_toggled, toggle_status_flag, update_nz, Cpu, STATUS_FLAG_C,
    STATUS_FLAG_V,
};

verus! {

/// The result of an addition or subtraction with its carry and overflow.
#[derive(Clone, Copy, Debug, PartialEq, Eq, Structural)]
pub struct Arithmetic {
    /// The low eight bits of the result.
    pub value: u8,
    /// The carry out of bit 7.
    pub carry: bool,
    /// Whether the result, read as a signed number, is out of range.
    pub overflow: bool,
}

/// The byte `value` read as a two's-complement number.
pub open spec fn signed(value: u8) -> int {
    if value >= 0x80 {
        value - 0x100
    } else {
        value as int
    }
}

/// One if `carry` is set, else zero.
pub open spec fn carry_in(carry: bool) -> int {
    if carry {
        1
    } else {
        0
    }
}

/// `a + operand + carry`, as the processor adds.
pub open spec fn sum_with_carry(a: u8, operand: u8, carry: bool) -> Arithmetic {
    let unsigned_sum = a + operand + carry_in(carry);
    let signed_sum = signed(a) + signed(operand) + carry_in(carry);
    Arithmetic {
        value: (unsigned_sum % 0x100) as u8,
        carry: unsigned_sum > 0xFF,
        overflow: signed_sum < -128 || signed_sum > 127,
    }
}

/// `a - operand - (1 - carry)`, as the processor subtracts.
pub open spec fn difference_with_borrow(a: u8, operand: u8, carry: bool) -> Arithmetic {
    let unsigned_difference = a - operand - (1 - carry_in(carry));
    let signed_difference = signed(a) - signed(operand) - (1 - carry_in(carry));
    Arithmetic {
        value: (unsigned_difference % 0x100) as u8,
        carry: unsigned_difference >= 0,
        overflow: signed_difference < -128 || signed_difference > 127,
    }
}

/// The status byte after an addition or subtraction with result `r`: C and
/// V follow the carry and the overflow, Z and N follow the value.
pub open spec fn status_with_arithmetic(status: u8, r: Arithmetic) -> u8 {
    status_with_nz(
        status_with_toggled(
            status_with_toggled(status, STATUS_FLAG_C, r.carry),
            STATUS_FLAG_V,
            r.overflow,
        ),
        r.value,
    )
}

/// The signed result is out of range exactly when both operands differ in
/// sign from the low eight bits of the result.
proof fn lemma_overflow_bit(a: u8, operand: u8, carry: bool, value: u8)
    requires
        value == (a + operand + carry_in(carry)) % 0x100,
    ensures
        ((a ^ value) & (operand ^ value) & 0x80 != 0) == sum_with_carry(a, operand, carry).overflow,
{
    let c: u8 = if carry {
        1
    } else {
        0
    };
    assert(value == (a + operand + c) % 0x100);
    assert(((a ^ value) & (operand ^ value) & 0x80 != 0) == ({
        let s = (if a >= 0x80 {
            a - 0x100
        } else {
            a as int
        }) + (if operand >= 0x80 {
            operand - 0x100
        } else {
            operand as int
        }) + c;
        s < -128 || s > 127
    })) by (bit_vector)
        requires
            value == (a + operand + c) % 0x100,
            c <= 1,
    ;
}

/// Subtracting is adding the complement of the operand.
pub proof fn lemma_subtraction_adds_complement(a: u8, operand: u8, carry: bool)
    ensures
        difference_with_borrow(a, operand, carry) == sum_with_carry(a, !operand, carry),
{
    assert(!operand == 0xFF - operand) by (bit_vector);
}

/// Adds `operand` and the carry to `a`.
pub fn add_with_carry(a: u8, operand: u8, carry: bool) -> (r: Arithmetic)
    ensures
        r == sum_with_carry(a, operand, carry),
{
    let sum: u16 = a as u16 + operand as u16 + if carry {
        1
    } else {
        0
    };
    let value: u8 = (sum % 0x100) as u8;
    proof {
        lemma_overflow_bit(a, operand, carry, value);
    }
    Arithmetic { value, carry: sum > 0xFF, overflow: (a ^ value) & (operand ^ value) & 0x80 != 0 }
}

/// Subtracts `operand` from `a`, and one more if the carry is clear.
pub fn subtract_with_borrow(a: u8, operand: u8, carry: bool) -> (r: Arithmetic)
    ensures
        r == difference_with_borrow(a, operand, carry),
{
    proof {
        lemma_subtraction_adds_complement(a, operand, carry);
    }
    add_with_carry(a, !operand, carry)
}

/// Updates C, V, Z and N from the result of an addition or subtraction.
pub fn update_arithmetic_flags(cpu: &mut Cpu, r: Arithmetic)
    ensures
        *final(cpu) == (Cpu { status: status_with_arithmetic(old(cpu).status, r), ..*old(cpu) }),
        old(cpu).wf() ==> final(cpu).wf(),
{
    toggle_status_flag(cpu, STATUS_FLAG_C, r.carry);
    toggle_status_flag(cpu, STATUS_FLAG_V, r.overflow);
    update_nz(cpu, r.value);
}

} // verus!
