//! The memory bus: one flat array of bytes over the whole 16-bit address
//! space. Words are little-endian, and the address of a word's upper byte
//! wraps from the last address to the first.

use vstd::prelude::*;
use crate::word::{high_byte, join_bytes, low_byte, lower_byte, upper_byte, word_of, wrap16};

verus! {

/// Number of addresses on the bus.
pub const MEMORY_SIZE: usize = 0x1_0000;

/// The byte at `address` in `memory`.
pub open spec fn byte_at(memory: Seq<u8>, address: u16) -> u8 {
    memory[address as int]
}

/// The little-endian word whose lower byte is at `address`.
pub open spec fn word_at(memory: Seq<u8>, address: u16) -> u16 {
    word_of(memory[wrap16(address + 1) as int], memory[address as int])
}

/// `memory` after a byte is stored at `address`.
pub open spec fn store_byte(memory: Seq<u8>, address: u16, value: u8) -> Seq<u8> {
    memory.update(address as int, value)
}

/// `memory` after a word is stored at `address`: the lower byte first, then
/// the upper byte at the next address.
pub open spec fn store_word(memory: Seq<u8>, address: u16, value: u16) -> Seq<u8> {
    memory.update(address as int, low_byte(value)).update(
        wrap16(address + 1) as int,
        high_byte(value),
    )
}

/// The 65536 bytes that the processor addresses.
pub struct MemoryBus {
    memory: [u8; 0x1_0000],
}

impl View for MemoryBus {
    type V = Seq<u8>;

    closed spec fn view(&self) -> Seq<u8> {
        self.memory@
    }
}

impl MemoryBus {
    /// A bus whose every byte is zero.
    pub fn new() -> (bus: MemoryBus)
        ensures
            bus@.len() == MEMORY_SIZE,
            forall|address: int| 0 <= address < MEMORY_SIZE ==> bus@[address] == 0,
    {
        MemoryBus { memory: [0u8; 0x1_0000] }
    }

    /// Every bus spans the whole address space.
    pub proof fn lemma_len(&self)
        ensures
            self@.len() == MEMORY_SIZE,
    {
    }

    /// The byte at `address`.
    pub fn read_byte(&self, address: u16) -> (value: u8)
        ensures
            value == byte_at(self@, address),
    {
        self.memory[address as usize]
    }

    /// The little-endian word at `address`; its upper byte is at the next
    /// address, which wraps.
    pub fn read_word(&self, address: u16) -> (value: u16)
        ensures
            value == word_at(self@, address),
    {
        let least_significant_byte = self.read_byte(address);
        let most_significant_byte = self.read_byte(address.wrapping_add(1));
        join_bytes(most_significant_byte, least_significant_byte)
    }

    /// Stores `value` at `address`.
    pub fn write_byte(&mut self, address: u16, value: u8)
        ensures
            final(self)@ == store_byte(old(self)@, address, value),
    {
        self.memory[address as usize] = value;
    }

    /// Stores `value` at `address`, lower byte first; the address of the
    /// upper byte wraps.
    pub fn write_word(&mut self, address: u16, value: u16)
        ensures
            final(self)@ == store_word(old(self)@, address, value),
    {
        let least_significant_byte = lower_byte(value);
        let most_significant_byte = upper_byte(value);
        self.write_byte(address, least_significant_byte);
        self.write_byte(address.wrapping_add(1), most_significant_byte);
    }
}

} // verus!
