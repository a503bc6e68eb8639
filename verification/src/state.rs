//! The machine as a mathematical value, and what each instruction makes of it.
//!
//! `CpuState` is the view of the processor: the registers, the two pointers
//! and the memory as a sequence of bytes. `executed` gives the state after an
//! instruction together with the next program counter; `stepped` adds the
//! fetch and the decoding in front of it.

use vstd::prelude::*;
use crate::alu::{
    accumulator_flags, and_flags, bit_test_flags, bottom_bit, complement_flags, complemented,
    decrement_flags, difference8, difference8_flags, increment_flags, or_flags, rotation_flags,
    shifted_left, shifted_right, signed_offset, sum16, sum16_flags, sum8, sum8_flags, swapped,
    top_bit, with_bit_clear, with_bit_set,
};
use crate::instructions::{
    is_byte_operand, is_byte_place, is_word_operand, table_entry, AddressMode, CpuError, ArithmeticTarget, Instruction,
    JumpTest, LoadByteSource, LoadByteTarget, LoadIncDecTarget, LoadType, LoadWordSource,
    LoadWordTarget, PrefixedTarget, StackTarget, PREFIX_BYTE,
};
use crate::memory::{byte_at, store_byte, store_word, word_at, MEMORY_SIZE};
use crate::registers::{FlagsRegister, Registers};
use crate::word::wrap16;

verus! {

/// Registers, pointers and memory at one moment.
pub struct CpuState {
    pub registers: Registers,
    pub pc: u16,
    pub sp: u16,
    pub memory: Seq<u8>,
}

impl CpuState {
    /// The memory spans the whole address space.
    pub open spec fn wf(self) -> bool {
        self.memory.len() == MEMORY_SIZE
    }

    pub open spec fn with_registers(self, registers: Registers) -> CpuState {
        CpuState { registers, ..self }
    }

    pub open spec fn with_flags(self, flags: FlagsRegister) -> CpuState {
        CpuState { registers: Registers { f: flags, ..self.registers }, ..self }
    }

    pub open spec fn with_a(self, value: u8) -> CpuState {
        CpuState { registers: Registers { a: value, ..self.registers }, ..self }
    }

    pub open spec fn with_hl(self, value: u16) -> CpuState {
        CpuState { registers: self.registers.with_hl(value), ..self }
    }

    pub open spec fn with_pc(self, pc: u16) -> CpuState {
        CpuState { pc, ..self }
    }

    pub open spec fn with_sp(self, sp: u16) -> CpuState {
        CpuState { sp, ..self }
    }

    pub open spec fn with_byte(self, address: u16, value: u8) -> CpuState {
        CpuState { memory: store_byte(self.memory, address, value), ..self }
    }

    pub open spec fn with_word(self, address: u16, value: u16) -> CpuState {
        CpuState { memory: store_word(self.memory, address, value), ..self }
    }

    /// The byte that follows the opcode.
    pub open spec fn immediate_byte(self) -> u8 {
        byte_at(self.memory, wrap16(self.pc + 1))
    }

    /// The little-endian word that follows the opcode.
    pub open spec fn immediate_word(self) -> u16 {
        word_at(self.memory, wrap16(self.pc + 1))
    }

    /// The program counter after an instruction of `length` bytes that does
    /// not jump.
    pub open spec fn pc_after(self, length: int) -> u16 {
        wrap16(self.pc + length)
    }

    /// Whether a jump under `test` is taken.
    pub open spec fn jump_taken(self, test: JumpTest) -> bool {
        match test {
            JumpTest::NotZero => !self.registers.f.zero,
            JumpTest::Zero => self.registers.f.zero,
            JumpTest::NotCarry => !self.registers.f.carry,
            JumpTest::Carry => self.registers.f.carry,
            JumpTest::Always => true,
        }
    }

    /// Where an absolute jump goes: to the immediate word if taken, else past
    /// its three bytes.
    pub open spec fn absolute_jump(self, taken: bool) -> u16 {
        if taken {
            self.immediate_word()
        } else {
            self.pc_after(3)
        }
    }

    /// Where a relative jump goes: the signed offset is added to the address
    /// past its two bytes if taken.
    pub open spec fn relative_jump(self, taken: bool) -> u16 {
        if taken {
            wrap16(self.pc + 2 + signed_offset(self.immediate_byte()))
        } else {
            self.pc_after(2)
        }
    }

    /// The operand of an 8-bit arithmetic instruction.
    pub open spec fn arithmetic_byte(self, target: ArithmeticTarget) -> u8
        recommends
            is_byte_operand(target),
    {
        match target {
            ArithmeticTarget::A => self.registers.a,
            ArithmeticTarget::B => self.registers.b,
            ArithmeticTarget::C => self.registers.c,
            ArithmeticTarget::D => self.registers.d,
            ArithmeticTarget::E => self.registers.e,
            ArithmeticTarget::H => self.registers.h,
            ArithmeticTarget::L => self.registers.l,
            ArithmeticTarget::HL => byte_at(self.memory, self.registers.hl()),
            _ => self.immediate_byte(),
        }
    }

    /// The state after `value` is written to the place that `target` names.
    pub open spec fn with_arithmetic_byte(self, target: ArithmeticTarget, value: u8) -> CpuState
        recommends
            is_byte_place(target),
    {
        match target {
            ArithmeticTarget::A => self.with_registers(Registers { a: value, ..self.registers }),
            ArithmeticTarget::B => self.with_registers(Registers { b: value, ..self.registers }),
            ArithmeticTarget::C => self.with_registers(Registers { c: value, ..self.registers }),
            ArithmeticTarget::D => self.with_registers(Registers { d: value, ..self.registers }),
            ArithmeticTarget::E => self.with_registers(Registers { e: value, ..self.registers }),
            ArithmeticTarget::H => self.with_registers(Registers { h: value, ..self.registers }),
            ArithmeticTarget::L => self.with_registers(Registers { l: value, ..self.registers }),
            _ => self.with_byte(self.registers.hl(), value),
        }
    }

    /// The operand of a 16-bit arithmetic instruction.
    pub open spec fn arithmetic_word(self, target: ArithmeticTarget) -> u16
        recommends
            is_word_operand(target),
    {
        match target {
            ArithmeticTarget::BC => self.registers.bc(),
            ArithmeticTarget::DE => self.registers.de(),
            ArithmeticTarget::HL => self.registers.hl(),
            _ => self.sp,
        }
    }

    /// The state after `value` is written to the pair that `target` names.
    pub open spec fn with_arithmetic_word(self, target: ArithmeticTarget, value: u16) -> CpuState
        recommends
            is_word_operand(target),
    {
        match target {
            ArithmeticTarget::BC => self.with_registers(self.registers.with_bc(value)),
            ArithmeticTarget::DE => self.with_registers(self.registers.with_de(value)),
            ArithmeticTarget::HL => self.with_registers(self.registers.with_hl(value)),
            _ => self.with_sp(value),
        }
    }

    /// The operand of an instruction of the extended table.
    pub open spec fn prefixed_byte(self, target: PrefixedTarget) -> u8 {
        match target {
            PrefixedTarget::A => self.registers.a,
            PrefixedTarget::B => self.registers.b,
            PrefixedTarget::C => self.registers.c,
            PrefixedTarget::D => self.registers.d,
            PrefixedTarget::E => self.registers.e,
            PrefixedTarget::H => self.registers.h,
            PrefixedTarget::L => self.registers.l,
            PrefixedTarget::HL => byte_at(self.memory, self.registers.hl()),
        }
    }

    /// The state after `value` is written to the place that `target` names.
    pub open spec fn with_prefixed_byte(self, target: PrefixedTarget, value: u8) -> CpuState {
        match target {
            PrefixedTarget::A => self.with_registers(Registers { a: value, ..self.registers }),
            PrefixedTarget::B => self.with_registers(Registers { b: value, ..self.registers }),
            PrefixedTarget::C => self.with_registers(Registers { c: value, ..self.registers }),
            PrefixedTarget::D => self.with_registers(Registers { d: value, ..self.registers }),
            PrefixedTarget::E => self.with_registers(Registers { e: value, ..self.registers }),
            PrefixedTarget::H => self.with_registers(Registers { h: value, ..self.registers }),
            PrefixedTarget::L => self.with_registers(Registers { l: value, ..self.registers }),
            PrefixedTarget::HL => self.with_byte(self.registers.hl(), value),
        }
    }

    /// The byte that a byte load reads.
    pub open spec fn load_byte_source(self, source: LoadByteSource) -> u8 {
        match source {
            LoadByteSource::A => self.registers.a,
            LoadByteSource::B => self.registers.b,
            LoadByteSource::C => self.registers.c,
            LoadByteSource::D => self.registers.d,
            LoadByteSource::E => self.registers.e,
            LoadByteSource::H => self.registers.h,
            LoadByteSource::L => self.registers.l,
            LoadByteSource::BC => byte_at(self.memory, self.registers.bc()),
            LoadByteSource::DE => byte_at(self.memory, self.registers.de()),
            LoadByteSource::HL => byte_at(self.memory, self.registers.hl()),
            LoadByteSource::N8 => self.immediate_byte(),
        }
    }

    /// The state after a byte load has stored `value`.
    pub open spec fn with_load_byte_target(self, target: LoadByteTarget, value: u8) -> CpuState {
        match target {
            LoadByteTarget::A => self.with_registers(Registers { a: value, ..self.registers }),
            LoadByteTarget::B => self.with_registers(Registers { b: value, ..self.registers }),
            LoadByteTarget::C => self.with_registers(Registers { c: value, ..self.registers }),
            LoadByteTarget::D => self.with_registers(Registers { d: value, ..self.registers }),
            LoadByteTarget::E => self.with_registers(Registers { e: value, ..self.registers }),
            LoadByteTarget::H => self.with_registers(Registers { h: value, ..self.registers }),
            LoadByteTarget::L => self.with_registers(Registers { l: value, ..self.registers }),
            LoadByteTarget::BC => self.with_byte(self.registers.bc(), value),
            LoadByteTarget::DE => self.with_byte(self.registers.de(), value),
            LoadByteTarget::HL => self.with_byte(self.registers.hl(), value),
        }
    }

    /// The word that a word load reads.
    pub open spec fn load_word_source(self, source: LoadWordSource) -> u16 {
        match source {
            LoadWordSource::N16 => self.immediate_word(),
            LoadWordSource::SP => self.sp,
        }
    }

    /// The state after a word load has stored `value`. An address target is
    /// the word that follows the opcode and, if the source was an immediate
    /// too, that immediate.
    pub open spec fn with_load_word_target(
        self,
        target: LoadWordTarget,
        source: LoadWordSource,
        value: u16,
    ) -> CpuState {
        match target {
            LoadWordTarget::BC => self.with_registers(self.registers.with_bc(value)),
            LoadWordTarget::DE => self.with_registers(self.registers.with_de(value)),
            LoadWordTarget::HL => self.with_registers(self.registers.with_hl(value)),
            LoadWordTarget::SP => self.with_sp(value),
            LoadWordTarget::A16 => self.with_word(self.load_word_address(source), value),
        }
    }

    /// The address operand of a word load whose source is `source`.
    pub open spec fn load_word_address(self, source: LoadWordSource) -> u16 {
        match source {
            LoadWordSource::N16 => word_at(self.memory, wrap16(self.pc + 3)),
            LoadWordSource::SP => self.immediate_word(),
        }
    }

    /// The state after a transfer between A and memory at HL, and the step
    /// of HL that follows it.
    pub open spec fn with_stepping_load(
        self,
        target: LoadIncDecTarget,
        mode: AddressMode,
    ) -> CpuState {
        let hl = self.registers.hl();
        let moved = match target {
            LoadIncDecTarget::A => self.with_a(byte_at(self.memory, hl)),
            LoadIncDecTarget::HL => self.with_byte(hl, self.registers.a),
        };
        match mode {
            AddressMode::Inc => moved.with_hl(wrap16(hl + 1)),
            AddressMode::Dec => moved.with_hl(wrap16(hl - 1)),
        }
    }

    /// The state after a load.
    pub open spec fn loaded(self, load_type: LoadType) -> CpuState
        recommends
            Instruction::LD(load_type).operands_fit(),
    {
        match load_type {
            LoadType::Byte(target, source) => self.with_load_byte_target(
                target,
                self.load_byte_source(source),
            ),
            LoadType::Word(target, source) => self.with_load_word_target(
                target,
                source,
                self.load_word_source(source),
            ),
            LoadType::AddressIncDec(target, _, mode) => self.with_stepping_load(target, mode),
        }
    }

    /// The value of the pair that a stack instruction names.
    pub open spec fn stack_word(self, target: StackTarget) -> u16 {
        match target {
            StackTarget::BC => self.registers.bc(),
            StackTarget::DE => self.registers.de(),
            StackTarget::HL => self.registers.hl(),
            StackTarget::AF => self.registers.af(),
        }
    }

    /// The state after `value` is written to the pair that a stack
    /// instruction names. Writing AF drops the low nibble.
    pub open spec fn with_stack_word(self, target: StackTarget, value: u16) -> CpuState {
        match target {
            StackTarget::BC => self.with_registers(self.registers.with_bc(value)),
            StackTarget::DE => self.with_registers(self.registers.with_de(value)),
            StackTarget::HL => self.with_registers(self.registers.with_hl(value)),
            StackTarget::AF => self.with_registers(self.registers.with_af(value)),
        }
    }

    /// The state after `value` is pushed: the stack pointer goes down by two,
    /// then the word is stored at it.
    pub open spec fn pushed(self, value: u16) -> CpuState {
        let sp = wrap16(self.sp - 2);
        self.with_sp(sp).with_word(sp, value)
    }

    /// The word on top of the stack.
    pub open spec fn stack_top(self) -> u16 {
        word_at(self.memory, self.sp)
    }

    /// The state after a word is popped: the stack pointer goes up by two.
    pub open spec fn popped(self) -> CpuState {
        self.with_sp(wrap16(self.sp + 2))
    }

    /// The state after an 8-bit addition into A, with carry-in if `carry`.
    pub open spec fn added(self, value: u8, carry: bool) -> CpuState {
        let a = self.registers.a;
        self.with_a(sum8(a, value, carry)).with_flags(sum8_flags(a, value, carry))
    }

    /// The state after an 8-bit comparison with A: the flags of the
    /// subtraction, A as it was.
    pub open spec fn compared(self, value: u8) -> CpuState {
        self.with_flags(difference8_flags(self.registers.a, value, false))
    }

    /// The state after an 8-bit subtraction from A, with borrow-in if `carry`.
    pub open spec fn subtracted(self, value: u8, carry: bool) -> CpuState {
        let a = self.registers.a;
        self.with_a(difference8(a, value, carry)).with_flags(difference8_flags(a, value, carry))
    }

    /// The state after A is replaced by `result` of a bitwise AND.
    pub open spec fn conjoined(self, result: u8) -> CpuState {
        self.with_a(result).with_flags(and_flags(result))
    }

    /// The state after A is replaced by `result` of a bitwise OR or XOR.
    pub open spec fn disjoined(self, result: u8) -> CpuState {
        self.with_a(result).with_flags(or_flags(result))
    }

    /// The state after a 16-bit addition into HL.
    pub open spec fn added_to_hl(self, value: u16) -> CpuState {
        let hl = self.registers.hl();
        self.with_flags(sum16_flags(self.registers.f, hl, value)).with_hl(sum16(hl, value))
    }

    /// The state after a rotate of A that gave `result` and moved `carry` out.
    pub open spec fn accumulator_rotated(self, result: u8, carry: bool) -> CpuState {
        self.with_a(result).with_flags(accumulator_flags(self.registers.f, carry))
    }

    /// The state after a rotate or shift of the extended table that gave
    /// `result` and moved `carry` out.
    pub open spec fn prefixed_rotated(
        self,
        target: PrefixedTarget,
        result: u8,
        carry: bool,
    ) -> CpuState {
        self.with_flags(rotation_flags(result, carry)).with_prefixed_byte(target, result)
    }

    /// The state after an 8-bit increment of the place that `target` names.
    pub open spec fn incremented(self, target: ArithmeticTarget) -> CpuState
        recommends
            is_byte_place(target),
    {
        let value = self.arithmetic_byte(target);
        self.with_flags(increment_flags(self.registers.f, value)).with_arithmetic_byte(
            target,
            sum8(value, 1, false),
        )
    }

    /// The state after an 8-bit decrement of the place that `target` names.
    pub open spec fn decremented(self, target: ArithmeticTarget) -> CpuState
        recommends
            is_byte_place(target),
    {
        let value = self.arithmetic_byte(target);
        self.with_flags(decrement_flags(self.registers.f, value)).with_arithmetic_byte(
            target,
            difference8(value, 1, false),
        )
    }

    /// The state after `instruction`, the program counter left as it was.
    pub open spec fn after(self, instruction: Instruction) -> CpuState
        recommends
            instruction.operands_fit(),
    {
        let a = self.registers.a;
        let f = self.registers.f;
        match instruction {
            Instruction::JP(_) | Instruction::JR(_) | Instruction::JPHL() => self,
            Instruction::LD(load_type) => self.loaded(load_type),
            Instruction::PUSH(target) => self.pushed(self.stack_word(target)),
            Instruction::POP(target) => self.popped().with_stack_word(target, self.stack_top()),
            Instruction::ADD(target) => self.added(self.arithmetic_byte(target), false),
            Instruction::ADC(target) => self.added(self.arithmetic_byte(target), f.carry),
            Instruction::SUB(target) => self.subtracted(self.arithmetic_byte(target), false),
            Instruction::SBC(target) => self.subtracted(self.arithmetic_byte(target), f.carry),
            Instruction::AND(target) => self.conjoined(a & self.arithmetic_byte(target)),
            Instruction::OR(target) => self.disjoined(a | self.arithmetic_byte(target)),
            Instruction::XOR(target) => self.disjoined(a ^ self.arithmetic_byte(target)),
            Instruction::CP(target) => self.compared(self.arithmetic_byte(target)),
            Instruction::INC(target) => self.incremented(target),
            Instruction::DEC(target) => self.decremented(target),
            Instruction::INC16(target) => self.with_arithmetic_word(
                target,
                wrap16(self.arithmetic_word(target) + 1),
            ),
            Instruction::DEC16(target) => self.with_arithmetic_word(
                target,
                wrap16(self.arithmetic_word(target) - 1),
            ),
            Instruction::ADDHL(target) => self.added_to_hl(self.arithmetic_word(target)),
            Instruction::RLCA() => self.accumulator_rotated(
                shifted_left(a, top_bit(a)),
                top_bit(a),
            ),
            Instruction::RRCA() => self.accumulator_rotated(
                shifted_right(a, bottom_bit(a)),
                bottom_bit(a),
            ),
            Instruction::RLA() => self.accumulator_rotated(shifted_left(a, f.carry), top_bit(a)),
            Instruction::RRA() => self.accumulator_rotated(
                shifted_right(a, f.carry),
                bottom_bit(a),
            ),
            Instruction::CPL() => self.with_a(complemented(a)).with_flags(complement_flags(f)),
            Instruction::SCF() => self.with_flags(accumulator_flags(f, true)),
            Instruction::CCF() => self.with_flags(accumulator_flags(f, !f.carry)),
            Instruction::RLC(target) => {
                let r = self.prefixed_byte(target);
                self.prefixed_rotated(target, shifted_left(r, top_bit(r)), top_bit(r))
            },
            Instruction::RRC(target) => {
                let r = self.prefixed_byte(target);
                self.prefixed_rotated(target, shifted_right(r, bottom_bit(r)), bottom_bit(r))
            },
            Instruction::RL(target) => {
                let r = self.prefixed_byte(target);
                self.prefixed_rotated(target, shifted_left(r, f.carry), top_bit(r))
            },
            Instruction::RR(target) => {
                let r = self.prefixed_byte(target);
                self.prefixed_rotated(target, shifted_right(r, f.carry), bottom_bit(r))
            },
            Instruction::SLA(target) => {
                let r = self.prefixed_byte(target);
                self.prefixed_rotated(target, shifted_left(r, false), top_bit(r))
            },
            Instruction::SRA(target) => {
                let r = self.prefixed_byte(target);
                self.prefixed_rotated(target, shifted_right(r, top_bit(r)), bottom_bit(r))
            },
            Instruction::SWAP(target) => self.prefixed_rotated(
                target,
                swapped(self.prefixed_byte(target)),
                false,
            ),
            Instruction::SRL(target) => {
                let r = self.prefixed_byte(target);
                self.prefixed_rotated(target, shifted_right(r, false), bottom_bit(r))
            },
            Instruction::BIT(bit, target) => self.with_flags(
                bit_test_flags(f, self.prefixed_byte(target), bit),
            ),
            Instruction::RES(bit, target) => self.with_prefixed_byte(
                target,
                with_bit_clear(self.prefixed_byte(target), bit),
            ),
            Instruction::SET(bit, target) => self.with_prefixed_byte(
                target,
                with_bit_set(self.prefixed_byte(target), bit),
            ),
        }
    }

    /// The program counter after `instruction`: where a jump goes, else the
    /// address past the instruction's bytes.
    pub open spec fn next_pc(self, instruction: Instruction) -> u16 {
        match instruction {
            Instruction::JP(test) => self.absolute_jump(self.jump_taken(test)),
            Instruction::JR(test) => self.relative_jump(self.jump_taken(test)),
            Instruction::JPHL() => self.registers.hl(),
            _ => self.pc_after(instruction.length()),
        }
    }

    /// The opcode byte at the program counter.
    pub open spec fn opcode(self) -> u8 {
        byte_at(self.memory, self.pc)
    }

    /// Whether the opcode announces an entry of the extended table.
    pub open spec fn is_prefixed(self) -> bool {
        self.opcode() == PREFIX_BYTE
    }

    /// The byte that selects the instruction: the one after a prefix, else
    /// the opcode itself.
    pub open spec fn selector(self) -> u8 {
        if self.is_prefixed() {
            self.immediate_byte()
        } else {
            self.opcode()
        }
    }

    /// The instruction at the program counter, if the tables have it.
    pub open spec fn fetched(self) -> Option<Instruction> {
        table_entry(self.selector(), self.is_prefixed())
    }

    /// The state after one step, or why there is none.
    pub open spec fn stepped(self) -> Result<CpuState, CpuError> {
        match self.fetched() {
            Some(instruction) => Ok(
                self.after(instruction).with_pc(self.next_pc(instruction)),
            ),
            None => Err(
                CpuError::UnimplementedOpcode {
                    byte: self.selector(),
                    extended: self.is_prefixed(),
                },
            ),
        }
    }
}

} // verus!
