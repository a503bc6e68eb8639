//! The register file: seven general 8-bit registers, the four condition
//! flags, and the packed 16-bit pair views over them.

use vstd::prelude::*;
use crate::word::{high_byte, join_bytes, low_byte, lower_byte, upper_byte, word_of};

verus! {

/// Mask of the zero flag inside the packed flags byte.
pub const ZERO_FLAG_MASK: u8 = 0x80;

/// Mask of the subtract flag inside the packed flags byte.
pub const SUBTRACT_FLAG_MASK: u8 = 0x40;

/// Mask of the half-carry flag inside the packed flags byte.
pub const HALF_CARRY_FLAG_MASK: u8 = 0x20;

/// Mask of the carry flag inside the packed flags byte.
pub const CARRY_FLAG_MASK: u8 = 0x10;

/// The four condition codes. Keeping them as booleans makes the low nibble of
/// the packed byte zero by construction.
#[derive(Clone, Copy, Debug, PartialEq, Eq, Structural)]
pub struct FlagsRegister {
    pub zero: bool,
    pub subtract: bool,
    pub half_carry: bool,
    pub carry: bool,
}

/// Weight of a flag in the packed byte: `2^position` when set, else zero.
pub open spec fn flag_weight(flag: bool, weight: int) -> int {
    if flag { weight } else { 0 }
}

impl FlagsRegister {
    /// The packed byte: zero in bit 7, subtract in bit 6, half-carry in bit 5,
    /// carry in bit 4, and nothing below.
    pub open spec fn packed(self) -> int {
        flag_weight(self.zero, 128) + flag_weight(self.subtract, 64)
            + flag_weight(self.half_carry, 32) + flag_weight(self.carry, 16)
    }

    /// The flags held in the upper nibble of `byte`; the lower nibble is ignored.
    pub open spec fn unpacked(byte: u8) -> FlagsRegister {
        FlagsRegister {
            zero: byte / 128 % 2 == 1,
            subtract: byte / 64 % 2 == 1,
            half_carry: byte / 32 % 2 == 1,
            carry: byte / 16 % 2 == 1,
        }
    }

    /// Packs the flags into the upper nibble of a byte.
    pub fn to_byte(self) -> (byte: u8)
        ensures
            byte == self.packed(),
            byte % 16 == 0,
    {
        let z: u8 = if self.zero { ZERO_FLAG_MASK } else { 0 };
        let n: u8 = if self.subtract { SUBTRACT_FLAG_MASK } else { 0 };
        let h: u8 = if self.half_carry { HALF_CARRY_FLAG_MASK } else { 0 };
        let c: u8 = if self.carry { CARRY_FLAG_MASK } else { 0 };
        proof {
            lemma_pack_bits(z, n, h, c);
        }
        z | n | h | c
    }

    /// Reads the flags from the upper nibble of `byte`.
    pub fn from_byte(byte: u8) -> (flags: FlagsRegister)
        ensures
            flags == Self::unpacked(byte),
    {
        proof {
            lemma_unpack_bits(byte);
        }
        FlagsRegister {
            zero: byte & ZERO_FLAG_MASK != 0,
            subtract: byte & SUBTRACT_FLAG_MASK != 0,
            half_carry: byte & HALF_CARRY_FLAG_MASK != 0,
            carry: byte & CARRY_FLAG_MASK != 0,
        }
    }
}

/// Disjoint single-bit masks combine by `|` as they do by `+`.
proof fn lemma_pack_bits(z: u8, n: u8, h: u8, c: u8)
    by (bit_vector)
    requires
        z == 0 || z == 0x80,
        n == 0 || n == 0x40,
        h == 0 || h == 0x20,
        c == 0 || c == 0x10,
    ensures
        (z | n | h | c) == z + n + h + c,
{
}

/// Testing a mask of the upper nibble reads one binary digit of the byte.
proof fn lemma_unpack_bits(byte: u8)
    by (bit_vector)
    ensures
        (byte & 0x80 != 0) == (byte / 128 % 2 == 1),
        (byte & 0x40 != 0) == (byte / 64 % 2 == 1),
        (byte & 0x20 != 0) == (byte / 32 % 2 == 1),
        (byte & 0x10 != 0) == (byte / 16 % 2 == 1),
{
}

/// The four binary digits of the upper nibble, each at its weight, add up to
/// the byte without its lower nibble.
proof fn lemma_upper_nibble_digits(byte: u8)
    by (bit_vector)
    ensures
        (if byte / 128 % 2 == 1 { 128u8 } else { 0u8 }) + (if byte / 64 % 2 == 1 { 64u8 } else { 0u8 })
            + (if byte / 32 % 2 == 1 { 32u8 } else { 0u8 }) + (if byte / 16 % 2 == 1 { 16u8 } else { 0u8 })
            == byte - byte % 16,
{
}

/// Unpacking a byte and packing the flags again drops the lower nibble.
pub proof fn lemma_packed_round_trip(byte: u8)
    ensures
        FlagsRegister::unpacked(byte).packed() == byte - byte % 16,
{
    lemma_upper_nibble_digits(byte);
}

/// Packing flags and unpacking the byte gives the flags back.
pub proof fn lemma_unpacked_round_trip(flags: FlagsRegister)
    ensures
        0 <= flags.packed() < 256,
        FlagsRegister::unpacked(flags.packed() as u8) == flags,
{
}

/// The lower nibble of a word is that of its lower byte, and the two bytes
/// make up the word.
proof fn lemma_low_nibble_of_word(word: u16)
    by (bit_vector)
    ensures
        (word % 256) % 16 == word % 16,
        (word / 256) * 256 + word % 256 == word,
        word / 256 < 256,
{
}

/// The general registers and the flags. A register pair is a view over two
/// of these fields, never storage of its own.
#[derive(Clone, Copy, Debug, PartialEq, Eq, Structural)]
pub struct Registers {
    pub a: u8,
    pub b: u8,
    pub c: u8,
    pub d: u8,
    pub e: u8,
    pub f: FlagsRegister,
    pub h: u8,
    pub l: u8,
}

impl Registers {
    /// All registers zero and all flags clear.
    pub fn new() -> (registers: Registers)
        ensures
            registers == Self::cleared(),
    {
        Registers {
            a: 0,
            b: 0,
            c: 0,
            d: 0,
            e: 0,
            f: FlagsRegister { zero: false, subtract: false, half_carry: false, carry: false },
            h: 0,
            l: 0,
        }
    }

    /// The registers with everything at zero.
    pub open spec fn cleared() -> Registers {
        Registers {
            a: 0,
            b: 0,
            c: 0,
            d: 0,
            e: 0,
            f: FlagsRegister { zero: false, subtract: false, half_carry: false, carry: false },
            h: 0,
            l: 0,
        }
    }

    /// The AF pair: `a` above the packed flags.
    pub open spec fn af(self) -> u16 {
        (self.a * 256 + self.f.packed()) as u16
    }

    /// The BC pair.
    pub open spec fn bc(self) -> u16 {
        word_of(self.b, self.c)
    }

    /// The DE pair.
    pub open spec fn de(self) -> u16 {
        word_of(self.d, self.e)
    }

    /// The HL pair.
    pub open spec fn hl(self) -> u16 {
        word_of(self.h, self.l)
    }

    /// These registers with AF replaced: the low nibble of `value` is dropped.
    pub open spec fn with_af(self, value: u16) -> Registers {
        Registers { a: high_byte(value), f: FlagsRegister::unpacked(low_byte(value)), ..self }
    }

    /// These registers with BC replaced.
    pub open spec fn with_bc(self, value: u16) -> Registers {
        Registers { b: high_byte(value), c: low_byte(value), ..self }
    }

    /// These registers with DE replaced.
    pub open spec fn with_de(self, value: u16) -> Registers {
        Registers { d: high_byte(value), e: low_byte(value), ..self }
    }

    /// These registers with HL replaced.
    pub open spec fn with_hl(self, value: u16) -> Registers {
        Registers { h: high_byte(value), l: low_byte(value), ..self }
    }

    /// The AF pair; its low nibble is always zero.
    pub fn get_af(&self) -> (value: u16)
        ensures
            value == self.af(),
            value % 16 == 0,
    {
        join_bytes(self.a, self.f.to_byte())
    }

    /// The BC pair.
    pub fn get_bc(&self) -> (value: u16)
        ensures
            value == self.bc(),
    {
        join_bytes(self.b, self.c)
    }

    /// The DE pair.
    pub fn get_de(&self) -> (value: u16)
        ensures
            value == self.de(),
    {
        join_bytes(self.d, self.e)
    }

    /// The HL pair.
    pub fn get_hl(&self) -> (value: u16)
        ensures
            value == self.hl(),
    {
        join_bytes(self.h, self.l)
    }

    /// Sets A and the flags from `value`, dropping its low nibble.
    pub fn set_af(&mut self, value: u16)
        ensures
            *final(self) == old(self).with_af(value),
            final(self).af() == value - value % 16,
    {
        proof {
            lemma_packed_round_trip(low_byte(value));
            lemma_low_nibble_of_word(value);
        }
        self.a = upper_byte(value);
        self.f = FlagsRegister::from_byte(lower_byte(value));
    }

    /// Sets B and C from `value`.
    pub fn set_bc(&mut self, value: u16)
        ensures
            *final(self) == old(self).with_bc(value),
            final(self).bc() == value,
    {
        self.b = upper_byte(value);
        self.c = lower_byte(value);
    }

    /// Sets D and E from `value`.
    pub fn set_de(&mut self, value: u16)
        ensures
            *final(self) == old(self).with_de(value),
            final(self).de() == value,
    {
        self.d = upper_byte(value);
        self.e = lower_byte(value);
    }

    /// Sets H and L from `value`.
    pub fn set_hl(&mut self, value: u16)
        ensures
            *final(self) == old(self).with_hl(value),
            final(self).hl() == value,
    {
        self.h = upper_byte(value);
        self.l = lower_byte(value);
    }
}

} // verus!
