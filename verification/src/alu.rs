//! Arithmetic and logic of the instruction engine: results wrap modulo
//! 2^8 or 2^16, and each operation says exactly which flags it leaves.

use vstd::prelude::*;
use crate::registers::Registers;

verus! {

/// `a + b` modulo 2^8.
pub open spec fn add8(a: u8, b: u8) -> u8 {
    ((a + b) % 256) as u8
}

/// `a - b` modulo 2^8.
pub open spec fn sub8(a: u8, b: u8) -> u8 {
    ((a - b) % 256) as u8
}

/// `a + b` modulo 2^16.
pub open spec fn add16(a: u16, b: u16) -> u16 {
    ((a + b) % 0x10000) as u16
}

/// `a - b` modulo 2^16.
pub open spec fn sub16(a: u16, b: u16) -> u16 {
    ((a - b) % 0x10000) as u16
}

/// `value` rotated left by one bit.
pub open spec fn rotate_left8(value: u8) -> u8 {
    ((value % 128) * 2 + value / 128) as u8
}

/// `value` rotated right by one bit.
pub open spec fn rotate_right8(value: u8) -> u8 {
    (value / 2 + (value % 2) * 128) as u8
}

/// `value` shifted left by one bit, with `carry` entering at bit 0.
pub open spec fn shift_left_through(value: u8, carry: bool) -> u8 {
    ((value % 128) * 2 + if carry { 1int } else { 0 }) as u8
}

/// `value` shifted right by one bit, with `carry` entering at bit 7.
pub open spec fn shift_right_through(value: u8, carry: bool) -> u8 {
    (value / 2 + if carry { 128int } else { 0 }) as u8
}

/// `value` with its two nibbles exchanged.
pub open spec fn swap_nibbles(value: u8) -> u8 {
    (value / 16 + (value % 16) * 16) as u8
}

/// `value` with bit `bit` cleared.
pub open spec fn clear_bit(value: u8, bit: u8) -> u8 {
    value & !(1u8 << bit)
}

pub open spec fn spec_is_carry_sub8(a: u8, b: u8) -> bool {
    a < b
}

pub open spec fn spec_is_carry_sub16(a: u16, b: u16) -> bool {
    a < b
}

pub open spec fn spec_is_carry_add8(a: u8, b: u8) -> bool {
    a + b > 0xFF
}

pub open spec fn spec_is_carry_add16(a: u16, b: u16) -> bool {
    a + b > 0xFFFF
}

pub open spec fn spec_is_half_carry_add8(a: u8, value: u8) -> bool {
    a % 16 + value % 16 > 0x0F
}

pub open spec fn spec_is_half_carry_add16(a: u16, value: u16) -> bool {
    a % 0x1000 + value % 0x1000 > 0x0FFF
}

pub open spec fn spec_is_half_carry_sub8(a: u8, value: u8) -> bool {
    a % 16 < value % 16
}

pub open spec fn spec_is_half_carry_sub16(a: u16, value: u16) -> bool {
    a % 0x1000 < value % 0x1000
}

/// Borrow out of bit 7: the minuend is below the subtrahend.
#[verifier::when_used_as_spec(spec_is_carry_sub8)]
pub fn is_carry_sub8(a: u8, b: u8) -> (r: bool)
    ensures
        r == spec_is_carry_sub8(a, b),
{
    a < b
}

/// Borrow out of bit 15.
#[verifier::when_used_as_spec(spec_is_carry_sub16)]
pub fn is_carry_sub16(a: u16, b: u16) -> (r: bool)
    ensures
        r == spec_is_carry_sub16(a, b),
{
    a < b
}

/// Carry out of bit 7: the unsigned sum exceeds 0xFF.
#[verifier::when_used_as_spec(spec_is_carry_add8)]
pub fn is_carry_add8(a: u8, b: u8) -> (r: bool)
    ensures
        r == spec_is_carry_add8(a, b),
{
    a > 0xFF - b
}

/// Carry out of bit 15: the unsigned sum exceeds 0xFFFF.
#[verifier::when_used_as_spec(spec_is_carry_add16)]
pub fn is_carry_add16(a: u16, b: u16) -> (r: bool)
    ensures
        r == spec_is_carry_add16(a, b),
{
    a > 0xFFFF - b
}

/// Carry out of bit 3: bit 4 of the sum of the low nibbles.
#[verifier::when_used_as_spec(spec_is_half_carry_add8)]
pub fn is_half_carry_add8(a: u8, value: u8) -> (r: bool)
    ensures
        r == spec_is_half_carry_add8(a, value),
{
    (a % 16) + (value % 16) > 0x0F
}

/// Carry out of bit 11.
#[verifier::when_used_as_spec(spec_is_half_carry_add16)]
pub fn is_half_carry_add16(a: u16, value: u16) -> (r: bool)
    ensures
        r == spec_is_half_carry_add16(a, value),
{
    (a % 0x1000) + (value % 0x1000) > 0x0FFF
}

/// Borrow out of bit 4: the low nibble of the minuend is below that of
/// the subtrahend.
#[verifier::when_used_as_spec(spec_is_half_carry_sub8)]
pub fn is_half_carry_sub8(a: u8, value: u8) -> (r: bool)
    ensures
        r == spec_is_half_carry_sub8(a, value),
{
    a % 16 < value % 16
}

/// Borrow out of bit 12.
#[verifier::when_used_as_spec(spec_is_half_carry_sub16)]
pub fn is_half_carry_sub16(a: u16, value: u16) -> (r: bool)
    ensures
        r == spec_is_half_carry_sub16(a, value),
{
    a % 0x1000 < value % 0x1000
}

pub open spec fn carry_in(carry: bool) -> u8 {
    if carry { 1 } else { 0 }
}

impl Registers {
    /// After `ADD A, operand`.
    pub open spec fn after_add(&self, operand: u8) -> Registers {
        Registers {
            a: add8(self.a, operand),
            zero: add8(self.a, operand) == 0,
            subtract: false,
            half_carry: spec_is_half_carry_add8(self.a, operand),
            carry: spec_is_carry_add8(self.a, operand),
            ..*self
        }
    }

    /// After `ADC A, operand`: the carry flag enters the sum.
    pub open spec fn after_adc(&self, operand: u8) -> Registers {
        let c = carry_in(self.carry);
        Registers {
            a: ((self.a + operand + c) % 256) as u8,
            zero: (self.a + operand + c) % 256 == 0,
            subtract: false,
            half_carry: self.a % 16 + operand % 16 + c > 0x0F,
            carry: self.a + operand + c > 0xFF,
            ..*self
        }
    }

    /// The flags of `A - operand`; A itself is left as it was.
    pub open spec fn after_cp(&self, operand: u8) -> Registers {
        Registers {
            zero: sub8(self.a, operand) == 0,
            subtract: true,
            half_carry: spec_is_half_carry_sub8(self.a, operand),
            carry: spec_is_carry_sub8(self.a, operand),
            ..*self
        }
    }

    /// After `SUB operand`.
    pub open spec fn after_sub(&self, operand: u8) -> Registers {
        Registers { a: sub8(self.a, operand), ..self.after_cp(operand) }
    }

    /// After `SBC A, operand`: the carry flag is subtracted too.
    pub open spec fn after_sbc(&self, operand: u8) -> Registers {
        let c = carry_in(self.carry);
        Registers {
            a: ((self.a - operand - c) % 256) as u8,
            zero: (self.a - operand - c) % 256 == 0,
            subtract: true,
            half_carry: self.a % 16 < operand % 16 + c,
            carry: self.a < operand + c,
            ..*self
        }
    }

    /// After a bitwise operation whose result is `result`.
    pub open spec fn after_logic(&self, result: u8, half_carry: bool) -> Registers {
        Registers { a: result, zero: result == 0, subtract: false, half_carry, carry: false, ..*self }
    }

    pub open spec fn after_and(&self, operand: u8) -> Registers {
        self.after_logic(self.a & operand, true)
    }

    pub open spec fn after_xor(&self, operand: u8) -> Registers {
        self.after_logic(self.a ^ operand, false)
    }

    pub open spec fn after_or(&self, operand: u8) -> Registers {
        self.after_logic(self.a | operand, false)
    }

    /// The flags after a 16-bit addition `a + b`; Z is kept.
    pub open spec fn after_add16(&self, a: u16, b: u16) -> Registers {
        Registers { subtract: false, half_carry: spec_is_half_carry_add16(a, b), carry: spec_is_carry_add16(a, b), ..*self }
    }

    /// The flags after incrementing `value`; C is kept.
    pub open spec fn after_inc(&self, value: u8) -> Registers {
        Registers { zero: add8(value, 1) == 0, subtract: false, half_carry: spec_is_half_carry_add8(value, 1), ..*self }
    }

    /// The flags after decrementing `value`; C is kept.
    pub open spec fn after_dec(&self, value: u8) -> Registers {
        Registers { zero: sub8(value, 1) == 0, subtract: true, half_carry: spec_is_half_carry_sub8(value, 1), ..*self }
    }

    /// The flags after a rotation or shift with result `result` and the
    /// bit `out` leaving the byte.
    pub open spec fn after_rotate(&self, result: u8, out: bool) -> Registers {
        Registers { zero: result == 0, subtract: false, half_carry: false, carry: out, ..*self }
    }

    pub open spec fn after_ccf(&self) -> Registers {
        Registers { subtract: false, half_carry: false, carry: !self.carry, ..*self }
    }

    pub open spec fn after_cpl(&self) -> Registers {
        Registers { a: !self.a, subtract: true, half_carry: true, ..*self }
    }

    pub fn alu_add(&mut self, operand: u8)
        ensures
            *final(self) == old(self).after_add(operand),
    {
        let a: u8 = self.a;
        self.a = a.wrapping_add(operand);
        self.subtract = false;
        self.half_carry = is_half_carry_add8(a, operand);
        self.carry = is_carry_add8(a, operand);
        self.zero = self.a == 0;
    }

    pub fn alu_adc(&mut self, operand: u8)
        ensures
            *final(self) == old(self).after_adc(operand),
    {
        let a: u8 = self.a;
        let c: u8 = if self.carry { 1 } else { 0 };
        let sum: u16 = a as u16 + operand as u16 + c as u16;
        self.a = (sum % 256) as u8;
        self.subtract = false;
        self.half_carry = (a % 16) + (operand % 16) + c > 0x0F;
        self.carry = sum > 0xFF;
        self.zero = self.a == 0;
    }

    /// Sets the flags of `A - value` and returns the difference; A is
    /// left as it was.
    pub fn alu_sub(&mut self, value: u8) -> (r: u8)
        ensures
            *final(self) == old(self).after_cp(value),
            r == sub8(old(self).a, value),
    {
        let result: u8 = self.a.wrapping_sub(value);
        self.zero = result == 0;
        self.subtract = true;
        self.half_carry = is_half_carry_sub8(self.a, value);
        self.carry = is_carry_sub8(self.a, value);
        result
    }

    pub fn alu_cp(&mut self, value: u8)
        ensures
            *final(self) == old(self).after_cp(value),
    {
        let _ = self.alu_sub(value);
    }

    pub fn alu_sub8(&mut self, operand: u8)
        ensures
            *final(self) == old(self).after_sub(operand),
    {
        let result: u8 = self.alu_sub(operand);
        self.a = result;
    }

    pub fn alu_sbc(&mut self, operand: u8)
        ensures
            *final(self) == old(self).after_sbc(operand),
    {
        let a: u8 = self.a;
        let c: u8 = if self.carry { 1 } else { 0 };
        let subtrahend: u16 = operand as u16 + c as u16;
        let difference: u16 = (a as u16 + 256 - subtrahend) % 256;
        self.a = difference as u8;
        self.subtract = true;
        self.half_carry = ((a % 16) as u16) < (operand % 16) as u16 + c as u16;
        self.carry = (a as u16) < subtrahend;
        self.zero = self.a == 0;
    }

    pub fn alu_and(&mut self, operand: u8)
        ensures
            *final(self) == old(self).after_and(operand),
    {
        self.a = self.a & operand;
        self.zero = self.a == 0;
        self.subtract = false;
        self.half_carry = true;
        self.carry = false;
    }

    pub fn alu_xor(&mut self, operand: u8)
        ensures
            *final(self) == old(self).after_xor(operand),
    {
        self.a = self.a ^ operand;
        self.zero = self.a == 0;
        self.subtract = false;
        self.half_carry = false;
        self.carry = false;
    }

    pub fn alu_or(&mut self, operand: u8)
        ensures
            *final(self) == old(self).after_or(operand),
    {
        self.a = self.a | operand;
        self.zero = self.a == 0;
        self.subtract = false;
        self.half_carry = false;
        self.carry = false;
    }

    pub fn alu_add16(&mut self, a: u16, b: u16) -> (r: u16)
        ensures
            *final(self) == old(self).after_add16(a, b),
            r == add16(a, b),
    {
        let sum: u16 = a.wrapping_add(b);
        self.subtract = false;
        self.half_carry = is_half_carry_add16(a, b);
        self.carry = is_carry_add16(a, b);
        sum
    }

    pub fn alu_inc(&mut self, value: u8) -> (r: u8)
        ensures
            *final(self) == old(self).after_inc(value),
            r == add8(value, 1),
    {
        let inc_value: u8 = value.wrapping_add(1);
        self.zero = inc_value == 0;
        self.half_carry = is_half_carry_add8(value, 1);
        self.subtract = false;
        inc_value
    }

    pub fn alu_dec(&mut self, value: u8) -> (r: u8)
        ensures
            *final(self) == old(self).after_dec(value),
            r == sub8(value, 1),
    {
        let dec_value: u8 = value.wrapping_sub(1);
        self.zero = dec_value == 0;
        self.half_carry = is_half_carry_sub8(value, 1);
        self.subtract = true;
        dec_value
    }

    /// Rotate left; bit 7 goes to bit 0 and to the carry.
    pub fn alu_rlca(&mut self, value: u8) -> (r: u8)
        ensures
            r == rotate_left8(value),
            *final(self) == old(self).after_rotate(r, value >= 128),
    {
        let r_value: u8 = (value % 128) * 2 + value / 128;
        self.zero = r_value == 0;
        self.subtract = false;
        self.half_carry = false;
        self.carry = value >= 128;
        r_value
    }

    /// Rotate left through the carry.
    pub fn alu_rla(&mut self, value: u8) -> (r: u8)
        ensures
            r == shift_left_through(value, old(self).carry),
            *final(self) == old(self).after_rotate(r, value >= 128),
    {
        let low: u8 = if self.carry { 1 } else { 0 };
        let r_value: u8 = (value % 128) * 2 + low;
        self.zero = r_value == 0;
        self.subtract = false;
        self.half_carry = false;
        self.carry = value >= 128;
        r_value
    }

    /// Rotate right; bit 0 goes to bit 7 and to the carry.
    pub fn alu_rrca(&mut self, value: u8) -> (r: u8)
        ensures
            r == rotate_right8(value),
            *final(self) == old(self).after_rotate(r, value % 2 == 1),
    {
        let r_value: u8 = value / 2 + (value % 2) * 128;
        self.zero = r_value == 0;
        self.subtract = false;
        self.half_carry = false;
        self.carry = value % 2 == 1;
        r_value
    }

    /// Rotate right through the carry.
    pub fn alu_rra(&mut self, value: u8) -> (r: u8)
        ensures
            r == shift_right_through(value, old(self).carry),
            *final(self) == old(self).after_rotate(r, value % 2 == 1),
    {
        let high: u8 = if self.carry { 128 } else { 0 };
        let r_value: u8 = value / 2 + high;
        self.zero = r_value == 0;
        self.subtract = false;
        self.half_carry = false;
        self.carry = value % 2 == 1;
        r_value
    }

    pub fn alu_ccf(&mut self)
        ensures
            *final(self) == old(self).after_ccf(),
    {
        self.subtract = false;
        self.half_carry = false;
        self.carry = !self.carry;
    }

    pub fn alu_cpl(&mut self)
        ensures
            *final(self) == old(self).after_cpl(),
    {
        self.a = !self.a;
        self.subtract = true;
        self.half_carry = true;
    }
}

/// An 8-bit addition wraps modulo 256, sets the half-carry exactly when
/// the low nibbles carry into bit 4, and the carry exactly when the
/// unsigned sum exceeds 0xFF.
pub proof fn lemma_add8_flags(r: Registers, b: u8)
    ensures
        r.after_add(b).a == (r.a + b) % 256,
        r.after_add(b).half_carry <==> (r.a & 0xF) + (b & 0xF) > 0xF,
        r.after_add(b).carry <==> r.a + b > 0xFF,
        r.after_add(b).zero <==> (r.a + b) % 256 == 0,
        !r.after_add(b).subtract,
{
    let a = r.a;
    assert(a & 0xF == a % 16 && b & 0xF == b % 16) by (bit_vector);
}

/// An 8-bit subtraction wraps modulo 256, sets the half-carry exactly
/// when the low nibble of the minuend is below that of the subtrahend,
/// and the carry exactly when the minuend is below the subtrahend. A
/// comparison sets the same flags and keeps A.
pub proof fn lemma_sub8_flags(r: Registers, b: u8)
    ensures
        r.after_sub(b).a == (r.a - b) % 256,
        r.after_sub(b).half_carry <==> (r.a & 0xF) < (b & 0xF),
        r.after_sub(b).carry <==> r.a < b,
        r.after_sub(b).zero <==> r.a == b,
        r.after_sub(b).subtract,
        r.after_cp(b) == (Registers { a: r.a, ..r.after_sub(b) }),
{
    let a = r.a;
    assert(a & 0xF == a % 16 && b & 0xF == b % 16) by (bit_vector);
}

/// Rotating right undoes rotating left, and exchanging the nibbles
/// twice changes nothing.
pub proof fn lemma_rotate_and_swap(value: u8)
    ensures
        rotate_right8(rotate_left8(value)) == value,
        rotate_left8(rotate_right8(value)) == value,
        swap_nibbles(swap_nibbles(value)) == value,
{
}

/// Clearing a bit clears that bit and no other.
pub proof fn lemma_clear_bit(value: u8, bit: u8, other: u8)
    by (bit_vector)
    requires
        bit < 8,
        other < 8,
    ensures
        clear_bit(value, bit) & (1u8 << bit) == 0,
        other != bit ==> clear_bit(value, bit) & (1u8 << other) == value & (1u8 << other),
{
}

/// Decrementing undoes incrementing.
pub proof fn lemma_dec_inc(a: u8)
    ensures
        sub8(add8(a, 1), 1) == a,
        add8(sub8(a, 1), 1) == a,
{
}

/// The flags that an increment or a decrement sets depend on the operand
/// alone: nothing of the earlier Z, N or H survives, and C is kept.
pub proof fn lemma_inc_dec_flags_fresh(r1: Registers, r2: Registers, value: u8)
    ensures
        r1.after_inc(value).zero == r2.after_inc(value).zero,
        r1.after_inc(value).subtract == r2.after_inc(value).subtract,
        r1.after_inc(value).half_carry == r2.after_inc(value).half_carry,
        r1.after_inc(value).carry == r1.carry,
        r1.after_dec(value).zero == r2.after_dec(value).zero,
        r1.after_dec(value).subtract == r2.after_dec(value).subtract,
        r1.after_dec(value).half_carry == r2.after_dec(value).half_carry,
        r1.after_dec(value).carry == r1.carry,
        r1.after_inc(value).zero <==> value == 0xFF,
        r1.after_inc(value).half_carry <==> value % 16 == 0xF,
        r1.after_dec(value).zero <==> value == 1,
        r1.after_dec(value).half_carry <==> value % 16 == 0,
{
}

} // verus!
