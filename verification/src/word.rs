//! Sixteen-bit words as pairs of bytes: the high byte counts 256 times.

use vstd::prelude::*;

verus! {

/// The word whose upper byte is `high` and whose lower byte is `low`.
pub open spec fn word_of(high: u8, low: u8) -> u16 {
    (high * 256 + low) as u16
}

/// The upper byte of `word`.
pub open spec fn high_byte(word: u16) -> u8 {
    (word / 256) as u8
}

/// The lower byte of `word`.
pub open spec fn low_byte(word: u16) -> u8 {
    (word % 256) as u8
}

/// `address + offset`, wrapped into the 16-bit address space.
pub open spec fn wrap16(value: int) -> u16 {
    (value % 0x1_0000) as u16
}

/// `value`, wrapped into a byte.
pub open spec fn wrap8(value: int) -> u8 {
    (value % 0x100) as u8
}

/// Joins two bytes into a word.
pub fn join_bytes(high: u8, low: u8) -> (word: u16)
    ensures
        word == word_of(high, low),
{
    let h: u16 = high as u16;
    let l: u16 = low as u16;
    assert((h << 8 | l) == h * 256 + l) by (bit_vector)
        requires
            h < 256,
            l < 256,
    ;
    (h << 8) | l
}

/// The upper byte of `word`.
pub fn upper_byte(word: u16) -> (byte: u8)
    ensures
        byte == high_byte(word),
{
    assert(((word & 0xFF00) >> 8) == word / 256) by (bit_vector);
    ((word & 0xFF00) >> 8) as u8
}

/// The lower byte of `word`.
pub fn lower_byte(word: u16) -> (byte: u8)
    ensures
        byte == low_byte(word),
{
    assert((word & 0xFF) == word % 256) by (bit_vector);
    (word & 0xFF) as u8
}

/// Wrapping into a byte adds or takes away 256 at most once when the value
/// is a sum or difference of few bytes.
pub proof fn lemma_wrap8(value: int)
    requires
        -0x100 <= value < 0x200,
    ensures
        wrap8(value) == (if value < 0 {
            value + 0x100
        } else if value >= 0x100 {
            value - 0x100
        } else {
            value
        }),
{
}

/// Wrapping into a word adds or takes away 65536 at most once when the
/// value is a sum or difference of two words.
pub proof fn lemma_wrap16(value: int)
    requires
        -0x1_0000 <= value < 0x2_0000,
    ensures
        wrap16(value) == (if value < 0 {
            value + 0x1_0000
        } else if value >= 0x1_0000 {
            value - 0x1_0000
        } else {
            value
        }),
{
}

} // verus!
