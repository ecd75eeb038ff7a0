//! Single bits of a byte.

use vstd::prelude::*;
use bit_field::BitField;

verus! {

/// Whether bit `bit` of `value` is set.
pub open spec fn bit_set(value: u8, bit: usize) -> bool {
    value & (1u8 << bit) != 0
}

/// The bit as a number: 1 if set, 0 if not.
pub open spec fn bit_value(value: u8, bit: usize) -> u8 {
    if bit_set(value, bit) { 1 } else { 0 }
}

/// `BitField::get_bit` of the crate `bit_field`, on a byte: whether the
/// byte and 1 shifted left by `bit` have a bit in common. The call
/// panics for a bit outside the byte, so the bit must be below 8.
#[verifier::external_body]
pub(crate) fn get_bit(value: u8, bit: usize) -> (r: bool)
    requires
        bit < 8,
    ensures
        r == bit_set(value, bit),
{
    value.get_bit(bit)
}

} // verus!
