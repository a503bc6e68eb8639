//! What the arithmetic and logic operations compute, as functions of their
//! operands: the result byte and the four flags. Sums and differences are
//! taken over the integers and then wrapped, so that carry and half-carry
//! read as plain comparisons.

use vstd::prelude::*;
use crate::registers::FlagsRegister;
use crate::word::{wrap16, wrap8};

verus! {

/// The carry flag as a number: one if set.
pub open spec fn carry_value(carry: bool) -> int {
    if carry { 1 } else { 0 }
}

/// The low four bits of a byte.
pub open spec fn low_nibble(value: u8) -> int {
    value as int % 16
}

/// Result of `a + b + carry`, wrapped into a byte.
pub open spec fn sum8(a: u8, b: u8, carry: bool) -> u8 {
    wrap8(a + b + carry_value(carry))
}

/// Flags of an 8-bit addition with carry-in.
pub open spec fn sum8_flags(a: u8, b: u8, carry: bool) -> FlagsRegister {
    FlagsRegister {
        zero: sum8(a, b, carry) == 0,
        subtract: false,
        half_carry: low_nibble(a) + low_nibble(b) + carry_value(carry) > 0xF,
        carry: a + b + carry_value(carry) > 0xFF,
    }
}

/// Result of `a - b - carry`, wrapped into a byte.
pub open spec fn difference8(a: u8, b: u8, carry: bool) -> u8 {
    wrap8(a - b - carry_value(carry))
}

/// Flags of an 8-bit subtraction with borrow-in.
pub open spec fn difference8_flags(a: u8, b: u8, carry: bool) -> FlagsRegister {
    FlagsRegister {
        zero: difference8(a, b, carry) == 0,
        subtract: true,
        half_carry: low_nibble(a) < low_nibble(b) + carry_value(carry),
        carry: a < b + carry_value(carry),
    }
}

/// Flags of a bitwise AND with the given result: half-carry is always set.
pub open spec fn and_flags(result: u8) -> FlagsRegister {
    FlagsRegister { zero: result == 0, subtract: false, half_carry: true, carry: false }
}

/// Flags of a bitwise OR or XOR with the given result.
pub open spec fn or_flags(result: u8) -> FlagsRegister {
    FlagsRegister { zero: result == 0, subtract: false, half_carry: false, carry: false }
}

/// Flags of an 8-bit increment: those of adding one, but carry stays.
pub open spec fn increment_flags(flags: FlagsRegister, value: u8) -> FlagsRegister {
    FlagsRegister { carry: flags.carry, ..sum8_flags(value, 1, false) }
}

/// Flags of an 8-bit decrement: those of subtracting one, but carry stays.
pub open spec fn decrement_flags(flags: FlagsRegister, value: u8) -> FlagsRegister {
    FlagsRegister { carry: flags.carry, ..difference8_flags(value, 1, false) }
}

/// Result of a 16-bit addition, wrapped into a word.
pub open spec fn sum16(a: u16, b: u16) -> u16 {
    wrap16(a + b)
}

/// Flags of a 16-bit addition: zero stays, half-carry is the carry out of
/// bit 11, carry the carry out of bit 15.
pub open spec fn sum16_flags(flags: FlagsRegister, a: u16, b: u16) -> FlagsRegister {
    FlagsRegister {
        zero: flags.zero,
        subtract: false,
        half_carry: a % 0x1000 + b % 0x1000 > 0xFFF,
        carry: a + b > 0xFFFF,
    }
}

/// Whether the top bit of a byte is set.
pub open spec fn top_bit(value: u8) -> bool {
    value >= 0x80
}

/// Whether the bottom bit of a byte is set.
pub open spec fn bottom_bit(value: u8) -> bool {
    value % 2 == 1
}

/// `value` shifted left by one, with `incoming` as the new bit 0.
pub open spec fn shifted_left(value: u8, incoming: bool) -> u8 {
    wrap8(value * 2 + carry_value(incoming))
}

/// `value` shifted right by one, with `incoming` as the new bit 7.
pub open spec fn shifted_right(value: u8, incoming: bool) -> u8 {
    (value / 2 + 0x80 * carry_value(incoming)) as u8
}

/// `value` with its two nibbles exchanged.
pub open spec fn swapped(value: u8) -> u8 {
    (value % 16 * 16 + value / 16) as u8
}

/// `value` with every bit inverted.
pub open spec fn complemented(value: u8) -> u8 {
    (0xFF - value) as u8
}

/// Flags after a rotate or shift in the extended table: zero from the result.
pub open spec fn rotation_flags(result: u8, carry: bool) -> FlagsRegister {
    FlagsRegister { zero: result == 0, subtract: false, half_carry: false, carry }
}

/// Flags after a rotate of the accumulator, and after setting or toggling
/// the carry flag: zero stays.
pub open spec fn accumulator_flags(flags: FlagsRegister, carry: bool) -> FlagsRegister {
    FlagsRegister { zero: flags.zero, subtract: false, half_carry: false, carry }
}

/// Flags after complementing the accumulator: zero and carry stay.
pub open spec fn complement_flags(flags: FlagsRegister) -> FlagsRegister {
    FlagsRegister { zero: flags.zero, subtract: true, half_carry: true, carry: flags.carry }
}

/// The value of bit number `bit` as a number: `2^bit`.
pub open spec fn bit_weight(bit: u8) -> int
    recommends
        bit < 8,
{
    if bit == 0 {
        1
    } else if bit == 1 {
        2
    } else if bit == 2 {
        4
    } else if bit == 3 {
        8
    } else if bit == 4 {
        16
    } else if bit == 5 {
        32
    } else if bit == 6 {
        64
    } else {
        128
    }
}

/// Whether bit number `bit` of `value` is set.
pub open spec fn bit_is_set(value: u8, bit: u8) -> bool {
    value as int / bit_weight(bit) % 2 == 1
}

/// `value` with bit number `bit` cleared.
pub open spec fn with_bit_clear(value: u8, bit: u8) -> u8 {
    if bit_is_set(value, bit) {
        (value - bit_weight(bit)) as u8
    } else {
        value
    }
}

/// `value` with bit number `bit` set.
pub open spec fn with_bit_set(value: u8, bit: u8) -> u8 {
    if bit_is_set(value, bit) {
        value
    } else {
        (value + bit_weight(bit)) as u8
    }
}

/// Flags after testing a bit: zero says that it was clear, carry stays.
pub open spec fn bit_test_flags(flags: FlagsRegister, value: u8, bit: u8) -> FlagsRegister {
    FlagsRegister {
        zero: !bit_is_set(value, bit),
        subtract: false,
        half_carry: true,
        carry: flags.carry,
    }
}

/// The offset byte of a relative jump as a signed number.
pub open spec fn signed_offset(byte: u8) -> int {
    if byte < 0x80 {
        byte as int
    } else {
        byte - 0x100
    }
}

/// Masking a byte with `0xF` keeps its low nibble.
pub proof fn lemma_low_nibble(value: u8)
    by (bit_vector)
    ensures
        value & 0xF == value % 16,
{
}

/// Masking a word with `0xFFF` keeps its low twelve bits.
pub proof fn lemma_low_twelve_bits(value: u16)
    by (bit_vector)
    ensures
        value & 0xFFF == value % 0x1000,
{
}

/// Testing the masks `0x80` and `0x01` reads the top and the bottom bit.
pub proof fn lemma_end_bits(value: u8)
    by (bit_vector)
    ensures
        (value & 0x80 != 0) == (value >= 0x80),
        (value & 0x01 != 0) == (value % 2 == 1),
        value & 0x80 == (if value >= 0x80 { 0x80u8 } else { 0u8 }),
{
}

/// A left shift by one doubles and wraps; a bit put into the freed place adds.
pub proof fn lemma_shift_left(value: u8, incoming: u8)
    by (bit_vector)
    requires
        incoming == 0 || incoming == 1,
    ensures
        (value << 1u8) | incoming == (if value >= 0x80 {
            value * 2 + incoming - 0x100
        } else {
            value * 2 + incoming
        }),
        value << 1u8 == (if value >= 0x80 {
            value * 2 - 0x100
        } else {
            value * 2
        }),
{
}

/// A right shift by one halves; a bit put into the freed place adds.
pub proof fn lemma_shift_right(value: u8, incoming: u8)
    by (bit_vector)
    requires
        incoming == 0 || incoming == 0x80,
    ensures
        (value >> 1u8) | incoming == value / 2 + incoming,
        value >> 1u8 == value / 2,
{
}

/// Exchanging the nibbles by masks and shifts.
pub proof fn lemma_swap(value: u8)
    by (bit_vector)
    ensures
        ((value & 0x0F) << 4u8) | ((value & 0xF0) >> 4u8) == value % 16 * 16 + value / 16,
{
}

/// Inverting every bit subtracts from `0xFF`.
pub proof fn lemma_complement(value: u8)
    by (bit_vector)
    ensures
        value ^ 0xFF == 0xFF - value,
{
}

/// A one shifted to place `bit` is the weight of that bit, and masking with
/// it tests, clears or sets the bit.
pub proof fn lemma_single_bit(value: u8, bit: u8)
    by (bit_vector)
    requires
        bit < 8,
    ensures
        1u8 << bit == (if bit == 0 {
            1u8
        } else if bit == 1 {
            2u8
        } else if bit == 2 {
            4u8
        } else if bit == 3 {
            8u8
        } else if bit == 4 {
            16u8
        } else if bit == 5 {
            32u8
        } else if bit == 6 {
            64u8
        } else {
            128u8
        }),
        (value & (1u8 << bit) != 0) == (value / (1u8 << bit) % 2 == 1),
        value & !(1u8 << bit) == (if value & (1u8 << bit) != 0 {
            (value - (1u8 << bit)) as u8
        } else {
            value
        }),
        value | (1u8 << bit) == (if value & (1u8 << bit) != 0 {
            value
        } else {
            (value + (1u8 << bit)) as u8
        }),
{
}

} // verus!
