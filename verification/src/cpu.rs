//! The execution engine: fetch, decode and execute, one instruction a step.

use vstd::prelude::*;
use crate::alu::{
    accumulator_flags, bit_is_set, bit_test_flags, bottom_bit, complement_flags, complemented,
    decrement_flags, difference8, increment_flags, lemma_complement, lemma_end_bits,
    lemma_low_nibble, lemma_low_twelve_bits, lemma_shift_left, lemma_shift_right,
    lemma_single_bit, lemma_swap, rotation_flags, shifted_left, shifted_right, signed_offset,
    sum8, swapped,
    top_bit, with_bit_clear, with_bit_set,
};
use crate::instructions::{
    is_byte_operand, is_byte_place, is_word_operand, lemma_table_entries_fit, AddressMode,
    ArithmeticTarget, CpuError, Instruction, JumpTest, LoadByteSource, LoadByteTarget,
    LoadIncDecTarget, LoadType, LoadWordSource, LoadWordTarget, PrefixedTarget, StackTarget,
    BITS_PER_BYTE, PREFIX_BYTE,
};
use crate::memory::MemoryBus;
use crate::registers::Registers;
use crate::state::CpuState;
use crate::word::{lemma_wrap16, lemma_wrap8};

verus! {

/// The processor: registers, program counter, stack pointer and the bus.
pub struct CPU {
    pub registers: Registers,
    pub pc: u16,
    pub sp: u16,
    pub bus: MemoryBus,
}

impl View for CPU {
    type V = CpuState;

    open spec fn view(&self) -> CpuState {
        CpuState { registers: self.registers, pc: self.pc, sp: self.sp, memory: self.bus@ }
    }
}

#[allow(non_snake_case)]
impl CPU {
    /// A processor over `bus` with every register, both pointers and all
    /// flags at zero.
    pub fn new(bus: MemoryBus) -> (cpu: CPU)
        ensures
            cpu@ == (CpuState { registers: Registers::cleared(), pc: 0, sp: 0, memory: bus@ }),
    {
        CPU { registers: Registers::new(), pc: 0, sp: 0, bus }
    }

    /// The view of a processor is always well-formed.
    pub proof fn lemma_view_wf(&self)
        ensures
            self@.wf(),
    {
        self.bus.lemma_len();
    }

    /// The byte after the opcode.
    pub fn get_immediate_byte(&self) -> (value: u8)
        ensures
            value == self@.immediate_byte(),
    {
        self.bus.read_byte(self.pc.wrapping_add(1))
    }

    /// The word after the opcode.
    pub fn get_immediate_word(&self) -> (value: u16)
        ensures
            value == self@.immediate_word(),
    {
        self.bus.read_word(self.pc.wrapping_add(1))
    }

    /// The operand of an 8-bit arithmetic instruction.
    pub fn read_arithmetic_byte_target(&self, target: ArithmeticTarget) -> (value: u8)
        requires
            is_byte_operand(target),
        ensures
            value == self@.arithmetic_byte(target),
    {
        match target {
            ArithmeticTarget::A => self.registers.a,
            ArithmeticTarget::B => self.registers.b,
            ArithmeticTarget::C => self.registers.c,
            ArithmeticTarget::D => self.registers.d,
            ArithmeticTarget::E => self.registers.e,
            ArithmeticTarget::H => self.registers.h,
            ArithmeticTarget::L => self.registers.l,
            ArithmeticTarget::HL => self.bus.read_byte(self.registers.get_hl()),
            _ => self.get_immediate_byte(),
        }
    }

    /// Writes `value` to a register or to the byte at HL.
    pub fn write_arithmetic_byte_target(&mut self, target: ArithmeticTarget, value: u8)
        requires
            is_byte_place(target),
        ensures
            final(self)@ == old(self)@.with_arithmetic_byte(target, value),
    {
        match target {
            ArithmeticTarget::A => self.registers.a = value,
            ArithmeticTarget::B => self.registers.b = value,
            ArithmeticTarget::C => self.registers.c = value,
            ArithmeticTarget::D => self.registers.d = value,
            ArithmeticTarget::E => self.registers.e = value,
            ArithmeticTarget::H => self.registers.h = value,
            ArithmeticTarget::L => self.registers.l = value,
            _ => {
                let address = self.registers.get_hl();
                self.bus.write_byte(address, value)
            },
        }
    }

    /// The operand of a 16-bit arithmetic instruction.
    pub fn read_arithmetic_word_target(&self, target: ArithmeticTarget) -> (value: u16)
        requires
            is_word_operand(target),
        ensures
            value == self@.arithmetic_word(target),
    {
        match target {
            ArithmeticTarget::BC => self.registers.get_bc(),
            ArithmeticTarget::DE => self.registers.get_de(),
            ArithmeticTarget::HL => self.registers.get_hl(),
            _ => self.sp,
        }
    }

    /// Writes `value` to a register pair or to the stack pointer.
    pub fn write_arithmetic_word_target(&mut self, target: ArithmeticTarget, value: u16)
        requires
            is_word_operand(target),
        ensures
            final(self)@ == old(self)@.with_arithmetic_word(target, value),
    {
        match target {
            ArithmeticTarget::BC => self.registers.set_bc(value),
            ArithmeticTarget::DE => self.registers.set_de(value),
            ArithmeticTarget::HL => self.registers.set_hl(value),
            _ => self.sp = value,
        }
    }

    /// The operand of an instruction of the extended table.
    pub fn read_prefixed_target(&self, target: PrefixedTarget) -> (value: u8)
        ensures
            value == self@.prefixed_byte(target),
    {
        match target {
            PrefixedTarget::B => self.registers.b,
            PrefixedTarget::C => self.registers.c,
            PrefixedTarget::D => self.registers.d,
            PrefixedTarget::E => self.registers.e,
            PrefixedTarget::H => self.registers.h,
            PrefixedTarget::L => self.registers.l,
            PrefixedTarget::HL => self.bus.read_byte(self.registers.get_hl()),
            PrefixedTarget::A => self.registers.a,
        }
    }

    /// Writes `new_r` to the operand of an instruction of the extended table.
    pub fn write_prefixed_target(&mut self, target: PrefixedTarget, new_r: u8)
        ensures
            final(self)@ == old(self)@.with_prefixed_byte(target, new_r),
    {
        match target {
            PrefixedTarget::B => self.registers.b = new_r,
            PrefixedTarget::C => self.registers.c = new_r,
            PrefixedTarget::D => self.registers.d = new_r,
            PrefixedTarget::E => self.registers.e = new_r,
            PrefixedTarget::H => self.registers.h = new_r,
            PrefixedTarget::L => self.registers.l = new_r,
            PrefixedTarget::HL => {
                let address = self.registers.get_hl();
                self.bus.write_byte(address, new_r)
            },
            PrefixedTarget::A => self.registers.a = new_r,
        }
    }

    /// Absolute jump: to the word after the opcode if `should_jump`, else to
    /// the next instruction.
    pub fn JP(&self, should_jump: bool) -> (next_pc: u16)
        ensures
            next_pc == self@.absolute_jump(should_jump),
    {
        if should_jump {
            self.bus.read_word(self.pc.wrapping_add(1))
        } else {
            self.pc.wrapping_add(3)
        }
    }

    /// Relative jump: the byte after the opcode, read as a signed offset, is
    /// added to the address of the next instruction if `should_jump`.
    pub fn JR(&self, should_jump: bool) -> (next_pc: u16)
        ensures
            next_pc == self@.relative_jump(should_jump),
    {
        let next = self.pc.wrapping_add(2);
        if should_jump {
            let offset = self.bus.read_byte(self.pc.wrapping_add(1));
            proof {
                lemma_wrap16(self.pc + 1);
                lemma_wrap16(self.pc + 2);
                lemma_wrap16(self.pc + 2 + signed_offset(offset));
            }
            if offset < 0x80 {
                next.wrapping_add(offset as u16)
            } else {
                next.wrapping_sub(0x100 - offset as u16)
            }
        } else {
            next
        }
    }

    /// Takes the word on top of the stack.
    pub fn POP(&mut self) -> (value: u16)
        ensures
            value == old(self)@.stack_top(),
            final(self)@ == old(self)@.popped(),
    {
        proof {
            lemma_wrap16(self.sp + 2);
        }
        let result = self.bus.read_word(self.sp);
        self.sp = self.sp.wrapping_add(2);
        result
    }

    /// Puts `value` on top of the stack.
    pub fn PUSH(&mut self, value: u16)
        ensures
            final(self)@ == old(self)@.pushed(value),
    {
        proof {
            lemma_wrap16(self.sp - 2);
        }
        self.sp = self.sp.wrapping_sub(2);
        self.bus.write_word(self.sp, value);
    }

    /// `value + 1`; sets zero, subtract and half-carry, leaves carry.
    pub fn INC(&mut self, value: u8) -> (new_value: u8)
        ensures
            new_value == sum8(value, 1, false),
            final(self)@ == old(self)@.with_flags(increment_flags(old(self).registers.f, value)),
    {
        proof {
            lemma_low_nibble(value);
            lemma_wrap8(value + 1);
        }
        let new_value = value.wrapping_add(1);
        self.registers.f.zero = new_value == 0;
        self.registers.f.subtract = false;
        self.registers.f.half_carry = (value & 0xF) == 0xF;
        new_value
    }

    /// `value - 1`; sets zero, subtract and half-carry, leaves carry.
    pub fn DEC(&mut self, value: u8) -> (new_value: u8)
        ensures
            new_value == difference8(value, 1, false),
            final(self)@ == old(self)@.with_flags(decrement_flags(old(self).registers.f, value)),
    {
        proof {
            lemma_low_nibble(value);
            lemma_wrap8(value - 1);
        }
        let new_value = value.wrapping_sub(1);
        self.registers.f.zero = new_value == 0;
        self.registers.f.subtract = true;
        self.registers.f.half_carry = (value & 0xF) == 0;
        new_value
    }

    /// Adds `value` to the HL pair; leaves the zero flag.
    pub fn ADDHL(&mut self, value: u16) -> (new_value: u16)
        ensures
            new_value == final(self).registers.hl(),
            final(self)@ == old(self)@.added_to_hl(value),
    {
        let hl = self.registers.get_hl();
        proof {
            lemma_low_twelve_bits(hl);
            lemma_low_twelve_bits(value);
            lemma_wrap16(hl + value);
        }
        let new_value = hl.wrapping_add(value);
        self.registers.f.subtract = false;
        self.registers.f.half_carry = (hl & 0xFFF) + (value & 0xFFF) > 0xFFF;
        self.registers.f.carry = hl as u32 + value as u32 > 0xFFFF;
        self.registers.set_hl(new_value);
        new_value
    }

    /// Adds `value` to A.
    pub fn ADD(&mut self, value: u8) -> (new_value: u8)
        ensures
            new_value == final(self).registers.a,
            final(self)@ == old(self)@.added(value, false),
    {
        let a = self.registers.a;
        proof {
            lemma_low_nibble(a);
            lemma_low_nibble(value);
            lemma_wrap8(a + value);
        }
        let new_value = a.wrapping_add(value);
        self.registers.f.zero = new_value == 0;
        self.registers.f.subtract = false;
        self.registers.f.half_carry = (a & 0xF) + (value & 0xF) > 0xF;
        self.registers.f.carry = a as u16 + value as u16 > 0xFF;
        self.registers.a = new_value;
        new_value
    }

    /// Adds `value` and the carry flag to A.
    pub fn ADC(&mut self, value: u8) -> (new_value: u8)
        ensures
            new_value == final(self).registers.a,
            final(self)@ == old(self)@.added(value, old(self).registers.f.carry),
    {
        let a = self.registers.a;
        let carry_in: u8 = if self.registers.f.carry { 1 } else { 0 };
        proof {
            lemma_low_nibble(a);
            lemma_low_nibble(value);
            lemma_wrap8(a + value + carry_in);
        }
        let new_value = a.wrapping_add(value).wrapping_add(carry_in);
        self.registers.f.zero = new_value == 0;
        self.registers.f.subtract = false;
        self.registers.f.half_carry = (a & 0xF) + (value & 0xF) + carry_in > 0xF;
        self.registers.f.carry = a as u16 + value as u16 + carry_in as u16 > 0xFF;
        self.registers.a = new_value;
        new_value
    }

    /// Subtracts `value` from A.
    pub fn SUB(&mut self, value: u8) -> (new_value: u8)
        ensures
            new_value == final(self).registers.a,
            final(self)@ == old(self)@.subtracted(value, false),
    {
        let a = self.registers.a;
        proof {
            lemma_low_nibble(a);
            lemma_low_nibble(value);
            lemma_wrap8(a - value);
        }
        let new_value = a.wrapping_sub(value);
        self.registers.f.zero = new_value == 0;
        self.registers.f.subtract = true;
        self.registers.f.half_carry = (a & 0xF) < (value & 0xF);
        self.registers.f.carry = a < value;
        self.registers.a = new_value;
        new_value
    }

    /// Subtracts `value` and the carry flag from A.
    pub fn SBC(&mut self, value: u8) -> (new_value: u8)
        ensures
            new_value == final(self).registers.a,
            final(self)@ == old(self)@.subtracted(value, old(self).registers.f.carry),
    {
        let a = self.registers.a;
        let carry_in: u8 = if self.registers.f.carry { 1 } else { 0 };
        proof {
            lemma_low_nibble(a);
            lemma_low_nibble(value);
            lemma_wrap8(a - value - carry_in);
        }
        let new_value = a.wrapping_sub(value).wrapping_sub(carry_in);
        self.registers.f.zero = new_value == 0;
        self.registers.f.subtract = true;
        self.registers.f.half_carry = (a & 0xF) < (value & 0xF) + carry_in;
        self.registers.f.carry = (a as u16) < value as u16 + carry_in as u16;
        self.registers.a = new_value;
        new_value
    }

    /// Bitwise AND of A with `value`; half-carry is always set.
    pub fn AND(&mut self, value: u8) -> (new_value: u8)
        ensures
            new_value == old(self).registers.a & value,
            final(self)@ == old(self)@.conjoined(new_value),
    {
        let new_value = self.registers.a & value;
        self.registers.f.zero = new_value == 0;
        self.registers.f.subtract = false;
        self.registers.f.half_carry = true;
        self.registers.f.carry = false;
        self.registers.a = new_value;
        new_value
    }

    /// Bitwise OR of A with `value`.
    pub fn OR(&mut self, value: u8) -> (new_value: u8)
        ensures
            new_value == old(self).registers.a | value,
            final(self)@ == old(self)@.disjoined(new_value),
    {
        let new_value = self.registers.a | value;
        self.registers.f.zero = new_value == 0;
        self.registers.f.subtract = false;
        self.registers.f.half_carry = false;
        self.registers.f.carry = false;
        self.registers.a = new_value;
        new_value
    }

    /// Bitwise XOR of A with `value`.
    pub fn XOR(&mut self, value: u8) -> (new_value: u8)
        ensures
            new_value == old(self).registers.a ^ value,
            final(self)@ == old(self)@.disjoined(new_value),
    {
        let new_value = self.registers.a ^ value;
        self.registers.f.zero = new_value == 0;
        self.registers.f.subtract = false;
        self.registers.f.half_carry = false;
        self.registers.f.carry = false;
        self.registers.a = new_value;
        new_value
    }

    /// Sets the flags as subtracting `value` from A would; A stays.
    pub fn CP(&mut self, value: u8)
        ensures
            final(self)@ == old(self)@.compared(value),
    {
        let a = self.registers.a;
        proof {
            lemma_low_nibble(a);
            lemma_low_nibble(value);
            lemma_wrap8(a - value);
        }
        let new_value = a.wrapping_sub(value);
        self.registers.f.zero = new_value == 0;
        self.registers.f.subtract = true;
        self.registers.f.half_carry = (a & 0xF) < (value & 0xF);
        self.registers.f.carry = a < value;
    }

    /// Rotates A left; bit 7 goes to bit 0 and to carry.
    pub fn RLCA(&mut self)
        ensures
            final(self)@ == old(self)@.accumulator_rotated(
                shifted_left(old(self).registers.a, top_bit(old(self).registers.a)),
                top_bit(old(self).registers.a),
            ),
    {
        let old_a = self.registers.a;
        let old_msb: u8 = if old_a & 0x80 != 0 { 0x01 } else { 0 };
        proof {
            lemma_end_bits(old_a);
            lemma_shift_left(old_a, old_msb);
        }
        let new_value = (old_a << 1) | old_msb;
        self.registers.f.carry = old_msb != 0;
        self.registers.f.subtract = false;
        self.registers.f.half_carry = false;
        self.registers.a = new_value;
    }

    /// Rotates A right; bit 0 goes to bit 7 and to carry.
    pub fn RRCA(&mut self)
        ensures
            final(self)@ == old(self)@.accumulator_rotated(
                shifted_right(old(self).registers.a, bottom_bit(old(self).registers.a)),
                bottom_bit(old(self).registers.a),
            ),
    {
        let old_a = self.registers.a;
        let old_lsb: u8 = if old_a & 0x01 != 0 { 0x80 } else { 0 };
        proof {
            lemma_end_bits(old_a);
            lemma_shift_right(old_a, old_lsb);
        }
        let new_value = (old_a >> 1) | old_lsb;
        self.registers.f.carry = old_lsb != 0;
        self.registers.f.subtract = false;
        self.registers.f.half_carry = false;
        self.registers.a = new_value;
    }

    /// Rotates A left through carry: carry goes to bit 0, bit 7 to carry.
    pub fn RLA(&mut self)
        ensures
            final(self)@ == old(self)@.accumulator_rotated(
                shifted_left(old(self).registers.a, old(self).registers.f.carry),
                top_bit(old(self).registers.a),
            ),
    {
        let old_a = self.registers.a;
        let carry_in: u8 = if self.registers.f.carry { 0x01 } else { 0 };
        proof {
            lemma_end_bits(old_a);
            lemma_shift_left(old_a, carry_in);
        }
        let new_value = (old_a << 1) | carry_in;
        self.registers.f.subtract = false;
        self.registers.f.half_carry = false;
        self.registers.f.carry = old_a & 0x80 != 0;
        self.registers.a = new_value;
    }

    /// Rotates A right through carry: carry goes to bit 7, bit 0 to carry.
    pub fn RRA(&mut self)
        ensures
            final(self)@ == old(self)@.accumulator_rotated(
                shifted_right(old(self).registers.a, old(self).registers.f.carry),
                bottom_bit(old(self).registers.a),
            ),
    {
        let old_a = self.registers.a;
        let carry_in: u8 = if self.registers.f.carry { 0x80 } else { 0 };
        proof {
            lemma_end_bits(old_a);
            lemma_shift_right(old_a, carry_in);
        }
        let new_value = (old_a >> 1) | carry_in;
        self.registers.f.subtract = false;
        self.registers.f.half_carry = false;
        self.registers.f.carry = old_a & 0x1 != 0;
        self.registers.a = new_value;
    }

    /// Inverts every bit of A; sets subtract and half-carry.
    pub fn CPL(&mut self)
        ensures
            final(self)@ == old(self)@.with_a(complemented(old(self).registers.a)).with_flags(
                complement_flags(old(self).registers.f),
            ),
    {
        proof {
            lemma_complement(self.registers.a);
        }
        let new_a = self.registers.a ^ 0xFF;
        self.registers.f.subtract = true;
        self.registers.f.half_carry = true;
        self.registers.a = new_a;
    }

    /// Sets the carry flag.
    pub fn SCF(&mut self)
        ensures
            final(self)@ == old(self)@.with_flags(accumulator_flags(old(self).registers.f, true)),
    {
        self.registers.f.carry = true;
        self.registers.f.subtract = false;
        self.registers.f.half_carry = false;
    }

    /// Toggles the carry flag.
    pub fn CCF(&mut self)
        ensures
            final(self)@ == old(self)@.with_flags(
                accumulator_flags(old(self).registers.f, !old(self).registers.f.carry),
            ),
    {
        self.registers.f.carry = !self.registers.f.carry;
        self.registers.f.subtract = false;
        self.registers.f.half_carry = false;
    }

    /// Rotates `r` left; bit 7 goes to bit 0 and to carry.
    pub fn RLC(&mut self, r: u8) -> (new_r: u8)
        ensures
            new_r == shifted_left(r, top_bit(r)),
            final(self)@ == old(self)@.with_flags(rotation_flags(new_r, top_bit(r))),
    {
        let old_msb: u8 = if r & 0x80 != 0 { 0x01 } else { 0 };
        proof {
            lemma_end_bits(r);
            lemma_shift_left(r, old_msb);
        }
        let new_r = (r << 1) | old_msb;
        self.registers.f.zero = new_r == 0;
        self.registers.f.subtract = false;
        self.registers.f.half_carry = false;
        self.registers.f.carry = old_msb != 0;
        new_r
    }

    /// Rotates `r` right; bit 0 goes to bit 7 and to carry.
    pub fn RRC(&mut self, r: u8) -> (new_r: u8)
        ensures
            new_r == shifted_right(r, bottom_bit(r)),
            final(self)@ == old(self)@.with_flags(rotation_flags(new_r, bottom_bit(r))),
    {
        let old_lsb: u8 = if r & 0x01 != 0 { 0x80 } else { 0 };
        proof {
            lemma_end_bits(r);
            lemma_shift_right(r, old_lsb);
        }
        let new_r = (r >> 1) | old_lsb;
        self.registers.f.zero = new_r == 0;
        self.registers.f.subtract = false;
        self.registers.f.half_carry = false;
        self.registers.f.carry = old_lsb != 0;
        new_r
    }

    /// Rotates `r` left through carry.
    pub fn RL(&mut self, r: u8) -> (new_r: u8)
        ensures
            new_r == shifted_left(r, old(self).registers.f.carry),
            final(self)@ == old(self)@.with_flags(rotation_flags(new_r, top_bit(r))),
    {
        let carry_in: u8 = if self.registers.f.carry { 0x01 } else { 0 };
        proof {
            lemma_end_bits(r);
            lemma_shift_left(r, carry_in);
        }
        let new_r = (r << 1) | carry_in;
        self.registers.f.zero = new_r == 0;
        self.registers.f.subtract = false;
        self.registers.f.half_carry = false;
        self.registers.f.carry = r & 0x80 != 0;
        new_r
    }

    /// Rotates `r` right through carry.
    pub fn RR(&mut self, r: u8) -> (new_r: u8)
        ensures
            new_r == shifted_right(r, old(self).registers.f.carry),
            final(self)@ == old(self)@.with_flags(rotation_flags(new_r, bottom_bit(r))),
    {
        let carry_in: u8 = if self.registers.f.carry { 0x80 } else { 0 };
        proof {
            lemma_end_bits(r);
            lemma_shift_right(r, carry_in);
        }
        let new_r = (r >> 1) | carry_in;
        self.registers.f.zero = new_r == 0;
        self.registers.f.subtract = false;
        self.registers.f.half_carry = false;
        self.registers.f.carry = r & 0x01 != 0;
        new_r
    }

    /// Shifts `r` left; bit 7 goes to carry, zero comes in.
    pub fn SLA(&mut self, r: u8) -> (new_r: u8)
        ensures
            new_r == shifted_left(r, false),
            final(self)@ == old(self)@.with_flags(rotation_flags(new_r, top_bit(r))),
    {
        proof {
            lemma_end_bits(r);
            lemma_shift_left(r, 0);
        }
        let new_r = r << 1;
        self.registers.f.zero = new_r == 0;
        self.registers.f.subtract = false;
        self.registers.f.half_carry = false;
        self.registers.f.carry = r & 0x80 != 0;
        new_r
    }

    /// Shifts `r` right; bit 0 goes to carry, bit 7 keeps its value.
    pub fn SRA(&mut self, r: u8) -> (new_r: u8)
        ensures
            new_r == shifted_right(r, top_bit(r)),
            final(self)@ == old(self)@.with_flags(rotation_flags(new_r, bottom_bit(r))),
    {
        let old_msb = r & 0x80;
        proof {
            lemma_end_bits(r);
            lemma_shift_right(r, old_msb);
        }
        let new_r = (r >> 1) | old_msb;
        self.registers.f.zero = new_r == 0;
        self.registers.f.subtract = false;
        self.registers.f.half_carry = false;
        self.registers.f.carry = r & 0x01 != 0;
        new_r
    }

    /// Exchanges the nibbles of `r`; clears carry.
    pub fn SWAP(&mut self, r: u8) -> (new_r: u8)
        ensures
            new_r == swapped(r),
            final(self)@ == old(self)@.with_flags(rotation_flags(new_r, false)),
    {
        proof {
            lemma_swap(r);
        }
        let lower_nibble = (r & 0x0F) << 4;
        let upper_nibble = (r & 0xF0) >> 4;
        let new_r = lower_nibble | upper_nibble;
        self.registers.f.zero = new_r == 0;
        self.registers.f.subtract = false;
        self.registers.f.half_carry = false;
        self.registers.f.carry = false;
        new_r
    }

    /// Shifts `r` right; bit 0 goes to carry, zero comes in.
    pub fn SRL(&mut self, r: u8) -> (new_r: u8)
        ensures
            new_r == shifted_right(r, false),
            final(self)@ == old(self)@.with_flags(rotation_flags(new_r, bottom_bit(r))),
    {
        proof {
            lemma_end_bits(r);
            lemma_shift_right(r, 0);
        }
        let new_r = r >> 1;
        self.registers.f.zero = new_r == 0;
        self.registers.f.subtract = false;
        self.registers.f.half_carry = false;
        self.registers.f.carry = r & 0x01 != 0;
        new_r
    }

    /// Tests bit number `bit` of `r`: zero is set if the bit is clear.
    pub fn BIT(&mut self, bit: u8, r: u8)
        requires
            bit < BITS_PER_BYTE,
        ensures
            final(self)@ == old(self)@.with_flags(bit_test_flags(old(self).registers.f, r, bit)),
    {
        proof {
            lemma_single_bit(r, bit);
        }
        let bit_set = r & (1u8 << bit) != 0;
        self.registers.f.zero = !bit_set;
        self.registers.f.subtract = false;
        self.registers.f.half_carry = true;
    }

    /// `r` with bit number `bit` cleared.
    pub fn RES(&self, bit: u8, r: u8) -> (new_r: u8)
        requires
            bit < BITS_PER_BYTE,
        ensures
            new_r == with_bit_clear(r, bit),
    {
        proof {
            lemma_single_bit(r, bit);
        }
        r & !(1u8 << bit)
    }

    /// `r` with bit number `bit` set.
    pub fn SET(&self, bit: u8, r: u8) -> (new_r: u8)
        requires
            bit < BITS_PER_BYTE,
        ensures
            new_r == with_bit_set(r, bit),
    {
        proof {
            lemma_single_bit(r, bit);
        }
        r | (1u8 << bit)
    }

    /// The address `length` bytes past the program counter.
    pub fn pc_past(&self, length: u16) -> (next_pc: u16)
        ensures
            next_pc == self@.pc_after(length as int),
    {
        proof {
            lemma_wrap16(self.pc + length);
        }
        self.pc.wrapping_add(length)
    }

    /// Whether a jump under `test` is taken with the flags as they are.
    pub fn jump_condition(&self, test: JumpTest) -> (taken: bool)
        ensures
            taken == self@.jump_taken(test),
    {
        match test {
            JumpTest::NotZero => !self.registers.f.zero,
            JumpTest::Zero => self.registers.f.zero,
            JumpTest::NotCarry => !self.registers.f.carry,
            JumpTest::Carry => self.registers.f.carry,
            JumpTest::Always => true,
        }
    }

    /// Carries out a load.
    pub fn LD(&mut self, load_type: LoadType)
        requires
            Instruction::LD(load_type).operands_fit(),
        ensures
            final(self)@ == old(self)@.loaded(load_type),
    {
        match load_type {
            LoadType::Byte(target, source) => {
                let source_value = match source {
                    LoadByteSource::A => self.registers.a,
                    LoadByteSource::B => self.registers.b,
                    LoadByteSource::C => self.registers.c,
                    LoadByteSource::D => self.registers.d,
                    LoadByteSource::E => self.registers.e,
                    LoadByteSource::H => self.registers.h,
                    LoadByteSource::L => self.registers.l,
                    LoadByteSource::BC => self.bus.read_byte(self.registers.get_bc()),
                    LoadByteSource::DE => self.bus.read_byte(self.registers.get_de()),
                    LoadByteSource::HL => self.bus.read_byte(self.registers.get_hl()),
                    LoadByteSource::N8 => self.get_immediate_byte(),
                };
                match target {
                    LoadByteTarget::A => self.registers.a = source_value,
                    LoadByteTarget::B => self.registers.b = source_value,
                    LoadByteTarget::C => self.registers.c = source_value,
                    LoadByteTarget::D => self.registers.d = source_value,
                    LoadByteTarget::E => self.registers.e = source_value,
                    LoadByteTarget::H => self.registers.h = source_value,
                    LoadByteTarget::L => self.registers.l = source_value,
                    LoadByteTarget::BC => {
                        let address = self.registers.get_bc();
                        self.bus.write_byte(address, source_value)
                    },
                    LoadByteTarget::DE => {
                        let address = self.registers.get_de();
                        self.bus.write_byte(address, source_value)
                    },
                    LoadByteTarget::HL => {
                        let address = self.registers.get_hl();
                        self.bus.write_byte(address, source_value)
                    },
                }
            },
            LoadType::Word(target, source) => {
                let source_value = match source {
                    LoadWordSource::N16 => self.get_immediate_word(),
                    LoadWordSource::SP => self.sp,
                };
                match target {
                    LoadWordTarget::BC => self.registers.set_bc(source_value),
                    LoadWordTarget::DE => self.registers.set_de(source_value),
                    LoadWordTarget::HL => self.registers.set_hl(source_value),
                    LoadWordTarget::SP => self.sp = source_value,
                    LoadWordTarget::A16 => {
                        let address = match source {
                            LoadWordSource::N16 => self.bus.read_word(self.pc.wrapping_add(3)),
                            LoadWordSource::SP => self.get_immediate_word(),
                        };
                        self.bus.write_word(address, source_value)
                    },
                }
            },
            LoadType::AddressIncDec(target, _, mode) => {
                let hl = self.registers.get_hl();
                proof {
                    lemma_wrap16(hl + 1);
                    lemma_wrap16(hl - 1);
                }
                match target {
                    LoadIncDecTarget::A => self.registers.a = self.bus.read_byte(hl),
                    LoadIncDecTarget::HL => self.bus.write_byte(hl, self.registers.a),
                };
                let new_hl = match mode {
                    AddressMode::Inc => hl.wrapping_add(1),
                    AddressMode::Dec => hl.wrapping_sub(1),
                };
                self.registers.set_hl(new_hl);
            },
        }
    }

    /// Pushes the pair that `target` names.
    pub fn push_pair(&mut self, target: StackTarget)
        ensures
            final(self)@ == old(self)@.after(Instruction::PUSH(target)),
    {
        let value = match target {
            StackTarget::BC => self.registers.get_bc(),
            StackTarget::DE => self.registers.get_de(),
            StackTarget::HL => self.registers.get_hl(),
            StackTarget::AF => self.registers.get_af(),
        };
        self.PUSH(value);
    }

    /// Pops a word into the pair that `target` names; AF drops its low nibble.
    pub fn pop_pair(&mut self, target: StackTarget)
        ensures
            final(self)@ == old(self)@.after(Instruction::POP(target)),
    {
        let value = self.POP();
        match target {
            StackTarget::BC => self.registers.set_bc(value),
            StackTarget::DE => self.registers.set_de(value),
            StackTarget::HL => self.registers.set_hl(value),
            StackTarget::AF => self.registers.set_af(value),
        }
    }

    /// Carries out an instruction of the 8-bit arithmetic and logic families
    /// or one of the increments, decrements and 16-bit additions.
    pub fn execute_arithmetic(&mut self, instruction: Instruction)
        requires
            instruction.is_arithmetic(),
            instruction.operands_fit(),
        ensures
            final(self)@ == old(self)@.after(instruction),
    {
        match instruction {
            Instruction::INC(target) => {
                let r = self.read_arithmetic_byte_target(target);
                let new_r = self.INC(r);
                self.write_arithmetic_byte_target(target, new_r);
            },
            Instruction::DEC(target) => {
                let r = self.read_arithmetic_byte_target(target);
                let new_r = self.DEC(r);
                self.write_arithmetic_byte_target(target, new_r);
            },
            Instruction::INC16(target) => {
                let r = self.read_arithmetic_word_target(target);
                proof {
                    lemma_wrap16(r + 1);
                }
                let new_r = r.wrapping_add(1);
                self.write_arithmetic_word_target(target, new_r);
            },
            Instruction::DEC16(target) => {
                let r = self.read_arithmetic_word_target(target);
                proof {
                    lemma_wrap16(r - 1);
                }
                let new_r = r.wrapping_sub(1);
                self.write_arithmetic_word_target(target, new_r);
            },
            Instruction::ADDHL(target) => {
                let value = self.read_arithmetic_word_target(target);
                let _new_value = self.ADDHL(value);
            },
            Instruction::ADD(target) => {
                let value = self.read_arithmetic_byte_target(target);
                let _new_value = self.ADD(value);
            },
            Instruction::ADC(target) => {
                let value = self.read_arithmetic_byte_target(target);
                let _new_value = self.ADC(value);
            },
            Instruction::SUB(target) => {
                let value = self.read_arithmetic_byte_target(target);
                let _new_value = self.SUB(value);
            },
            Instruction::SBC(target) => {
                let value = self.read_arithmetic_byte_target(target);
                let _new_value = self.SBC(value);
            },
            Instruction::AND(target) => {
                let value = self.read_arithmetic_byte_target(target);
                let _new_value = self.AND(value);
            },
            Instruction::OR(target) => {
                let value = self.read_arithmetic_byte_target(target);
                let _new_value = self.OR(value);
            },
            Instruction::XOR(target) => {
                let value = self.read_arithmetic_byte_target(target);
                let _new_value = self.XOR(value);
            },
            Instruction::CP(target) => {
                let value = self.read_arithmetic_byte_target(target);
                self.CP(value);
            },
            _ => {},
        }
    }

    /// Carries out an instruction of the extended table.
    pub fn execute_prefixed(&mut self, instruction: Instruction)
        requires
            instruction.is_prefixed(),
            instruction.operands_fit(),
        ensures
            final(self)@ == old(self)@.after(instruction),
    {
        match instruction {
            Instruction::RLC(target) => {
                let r = self.read_prefixed_target(target);
                let new_r = self.RLC(r);
                self.write_prefixed_target(target, new_r);
            },
            Instruction::RRC(target) => {
                let r = self.read_prefixed_target(target);
                let new_r = self.RRC(r);
                self.write_prefixed_target(target, new_r);
            },
            Instruction::RL(target) => {
                let r = self.read_prefixed_target(target);
                let new_r = self.RL(r);
                self.write_prefixed_target(target, new_r);
            },
            Instruction::RR(target) => {
                let r = self.read_prefixed_target(target);
                let new_r = self.RR(r);
                self.write_prefixed_target(target, new_r);
            },
            Instruction::SLA(target) => {
                let r = self.read_prefixed_target(target);
                let new_r = self.SLA(r);
                self.write_prefixed_target(target, new_r);
            },
            Instruction::SRA(target) => {
                let r = self.read_prefixed_target(target);
                let new_r = self.SRA(r);
                self.write_prefixed_target(target, new_r);
            },
            Instruction::SWAP(target) => {
                let r = self.read_prefixed_target(target);
                let new_r = self.SWAP(r);
                self.write_prefixed_target(target, new_r);
            },
            Instruction::SRL(target) => {
                let r = self.read_prefixed_target(target);
                let new_r = self.SRL(r);
                self.write_prefixed_target(target, new_r);
            },
            Instruction::BIT(bit, target) => {
                let r = self.read_prefixed_target(target);
                self.BIT(bit, r);
            },
            Instruction::RES(bit, target) => {
                let r = self.read_prefixed_target(target);
                let new_r = self.RES(bit, r);
                self.write_prefixed_target(target, new_r);
            },
            Instruction::SET(bit, target) => {
                let r = self.read_prefixed_target(target);
                let new_r = self.SET(bit, r);
                self.write_prefixed_target(target, new_r);
            },
            _ => {},
        }
    }

    /// Carries out `instruction` and returns the next program counter; the
    /// program counter itself is left for the caller to store. An instruction
    /// whose operands do not fit its family is refused before anything changes.
    pub fn execute(&mut self, instruction: Instruction) -> (outcome: Result<u16, CpuError>)
        ensures
            outcome == execute_outcome(old(self)@, instruction),
            final(self)@ == (if instruction.operands_fit() {
                old(self)@.after(instruction)
            } else {
                old(self)@
            }),
    {
        match instruction.check_operands() {
            Some(target) => {
                return Err(CpuError::IncompatibleOperand { instruction, target });
            },
            None => {},
        }
        let next_pc = self.pc_past(instruction.encoded_length());
        match instruction {
            Instruction::JP(test) => {
                let jump_condition = self.jump_condition(test);
                Ok(self.JP(jump_condition))
            },
            Instruction::JR(test) => {
                let jump_condition = self.jump_condition(test);
                Ok(self.JR(jump_condition))
            },
            Instruction::JPHL() => Ok(self.registers.get_hl()),
            Instruction::LD(load_type) => {
                self.LD(load_type);
                Ok(next_pc)
            },
            Instruction::POP(target) => {
                self.pop_pair(target);
                Ok(next_pc)
            },
            Instruction::PUSH(target) => {
                self.push_pair(target);
                Ok(next_pc)
            },
            Instruction::INC(_)
            | Instruction::DEC(_)
            | Instruction::INC16(_)
            | Instruction::DEC16(_)
            | Instruction::ADDHL(_)
            | Instruction::ADD(_)
            | Instruction::ADC(_)
            | Instruction::SUB(_)
            | Instruction::SBC(_)
            | Instruction::AND(_)
            | Instruction::OR(_)
            | Instruction::XOR(_)
            | Instruction::CP(_) => {
                self.execute_arithmetic(instruction);
                Ok(next_pc)
            },
            Instruction::RLCA() => {
                self.RLCA();
                Ok(next_pc)
            },
            Instruction::RRCA() => {
                self.RRCA();
                Ok(next_pc)
            },
            Instruction::RLA() => {
                self.RLA();
                Ok(next_pc)
            },
            Instruction::RRA() => {
                self.RRA();
                Ok(next_pc)
            },
            Instruction::CPL() => {
                self.CPL();
                Ok(next_pc)
            },
            Instruction::SCF() => {
                self.SCF();
                Ok(next_pc)
            },
            Instruction::CCF() => {
                self.CCF();
                Ok(next_pc)
            },
            Instruction::RLC(_)
            | Instruction::RRC(_)
            | Instruction::RL(_)
            | Instruction::RR(_)
            | Instruction::SLA(_)
            | Instruction::SRA(_)
            | Instruction::SWAP(_)
            | Instruction::SRL(_)
            | Instruction::BIT(_, _)
            | Instruction::RES(_, _)
            | Instruction::SET(_, _) => {
                self.execute_prefixed(instruction);
                Ok(next_pc)
            },
        }
    }

    /// Fetches the instruction at the program counter, carries it out and
    /// stores the next program counter. A byte without a table entry fails
    /// the step and changes nothing.
    pub fn step(&mut self) -> (outcome: Result<(), CpuError>)
        ensures
            match old(self)@.stepped() {
                Ok(state) => outcome == Ok::<(), CpuError>(()) && final(self)@ == state,
                Err(error) => outcome == Err::<(), CpuError>(error) && final(self)@ == old(self)@,
            },
    {
        let mut instruction_byte = self.bus.read_byte(self.pc);
        let prefixed = instruction_byte == PREFIX_BYTE;
        if prefixed {
            instruction_byte = self.bus.read_byte(self.pc.wrapping_add(1));
        }
        proof {
            lemma_table_entries_fit(instruction_byte, prefixed);
        }
        let instruction = match Instruction::decode(instruction_byte, prefixed) {
            Ok(instruction) => instruction,
            Err(error) => {
                return Err(error);
            },
        };
        match self.execute(instruction) {
            Ok(next_pc) => {
                self.pc = next_pc;
                Ok(())
            },
            Err(error) => Err(error),
        }
    }
}

/// What `execute` returns for `instruction` in `state`: the next program
/// counter, or the refusal of operands that do not fit.
pub open spec fn execute_outcome(state: CpuState, instruction: Instruction) -> Result<
    u16,
    CpuError,
> {
    match instruction.refused_operand() {
        Some(target) => Err(CpuError::IncompatibleOperand { instruction, target }),
        None => Ok(state.next_pc(instruction)),
    }
}

} // verus!
