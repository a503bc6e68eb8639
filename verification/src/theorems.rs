//! Facts about the instruction set that hold of every state, proved from the
//! definitions in `state` and `alu`.

use vstd::prelude::*;
use crate::alu::{bit_is_set, low_nibble, lemma_low_nibble, signed_offset};
use crate::instructions::{
    is_byte_place, standard_entry, table_entry, ArithmeticTarget, CpuError, Instruction, JumpTest,
    PrefixedTarget, StackTarget, PREFIX_BYTE,
};
use crate::memory::{store_word, word_at, MEMORY_SIZE};
use crate::registers::{lemma_packed_round_trip, FlagsRegister, Registers};
use crate::state::CpuState;
use crate::word::{high_byte, low_byte, word_of, wrap16};

verus! {

/// An 8-bit addition into A leaves the sum modulo 256 in A; zero is set
/// exactly if that is 0, half-carry exactly if the low nibbles add up to more
/// than `0xF`, carry exactly if the sum is more than 255; subtract is clear.
pub proof fn theorem_add_flags(state: CpuState, value: u8)
    ensures
        ({
            let a = state.registers.a;
            let after = state.added(value, false);
            &&& after.registers.a == (a + value) % 256
            &&& after.registers.f.zero <==> (a + value) % 256 == 0
            &&& after.registers.f.half_carry <==> (a & 0xF) + (value & 0xF) > 0xF
            &&& after.registers.f.carry <==> a + value > 255
            &&& !after.registers.f.subtract
        }),
{
    lemma_low_nibble(state.registers.a);
    lemma_low_nibble(value);
}

/// Incrementing and then decrementing a register or the byte at HL gives
/// back the value, the other registers and the memory, and leaves the carry
/// flag as it was before the two.
pub proof fn theorem_inc_then_dec(state: CpuState, target: ArithmeticTarget)
    requires
        state.wf(),
        is_byte_place(target),
    ensures
        ({
            let after = state.after(Instruction::INC(target)).after(Instruction::DEC(target));
            &&& after.arithmetic_byte(target) == state.arithmetic_byte(target)
            &&& after.registers.f.carry == state.registers.f.carry
            &&& after == state.with_flags(after.registers.f)
        }),
{
    let middle = state.after(Instruction::INC(target));
    let after = middle.after(Instruction::DEC(target));
    assert(after.memory =~= state.memory);
}

/// Decrementing and then incrementing a register or the byte at HL gives
/// back the value, the other registers and the memory, and leaves the carry
/// flag as it was before the two.
pub proof fn theorem_dec_then_inc(state: CpuState, target: ArithmeticTarget)
    requires
        state.wf(),
        is_byte_place(target),
    ensures
        ({
            let after = state.after(Instruction::DEC(target)).after(Instruction::INC(target));
            &&& after.arithmetic_byte(target) == state.arithmetic_byte(target)
            &&& after.registers.f.carry == state.registers.f.carry
            &&& after == state.with_flags(after.registers.f)
        }),
{
    let middle = state.after(Instruction::DEC(target));
    let after = middle.after(Instruction::INC(target));
    assert(after.memory =~= state.memory);
}

/// Splitting a word and joining the halves gives the word back, and joining
/// two bytes and splitting the word gives the bytes back.
pub proof fn theorem_bytes_round_trip(word: u16, high: u8, low: u8)
    ensures
        word_of(high_byte(word), low_byte(word)) == word,
        high_byte(word_of(high, low)) == high,
        low_byte(word_of(high, low)) == low,
{
}

/// A word stored at any address is the word read back from that address,
/// also where its upper byte wraps to address 0.
pub proof fn theorem_word_round_trip(memory: Seq<u8>, address: u16, value: u16)
    requires
        memory.len() == MEMORY_SIZE,
    ensures
        word_at(store_word(memory, address, value), address) == value,
        store_word(memory, address, value).len() == MEMORY_SIZE,
{
}

/// Pushing a word and popping again yields that word and the stack pointer
/// from before the push, whatever the stack pointer was.
pub proof fn theorem_push_then_pop(state: CpuState, value: u16)
    requires
        state.wf(),
    ensures
        state.pushed(value).stack_top() == value,
        state.pushed(value).popped().sp == state.sp,
        state.pushed(value).popped().registers == state.registers,
{
    theorem_word_round_trip(state.memory, wrap16(state.sp - 2), value);
}

/// PUSH of a pair followed by POP into the same pair leaves the registers
/// and both pointers as they were.
pub proof fn theorem_push_pop_instructions(state: CpuState, target: StackTarget)
    requires
        state.wf(),
    ensures
        ({
            let after = state.after(Instruction::PUSH(target)).after(Instruction::POP(target));
            &&& after.registers == state.registers
            &&& after.sp == state.sp
            &&& after.pc == state.pc
        }),
{
    let value = state.stack_word(target);
    theorem_push_then_pop(state, value);
    if target == StackTarget::AF {
        crate::registers::lemma_unpacked_round_trip(state.registers.f);
    }
}

/// A relative jump that is taken lands at the address past the instruction
/// plus the signed offset, modulo the address space; one that is not taken
/// lands at the address past the instruction.
pub proof fn theorem_relative_jump(state: CpuState, test: JumpTest)
    ensures
        state.next_pc(Instruction::JR(test)) == (if state.jump_taken(test) {
            wrap16(state.pc + 2 + signed_offset(state.immediate_byte()))
        } else {
            wrap16(state.pc + 2)
        }),
        -128 <= signed_offset(state.immediate_byte()) <= 127,
        state.after(Instruction::JR(test)) == state,
{
}

/// BIT sets zero exactly if the tested bit is clear, clears subtract, sets
/// half-carry, and leaves the carry flag, the tested byte, every register and
/// the memory as they were.
pub proof fn theorem_bit_test(state: CpuState, bit: u8, target: PrefixedTarget)
    requires
        bit < 8,
    ensures
        ({
            let after = state.after(Instruction::BIT(bit, target));
            &&& after.registers.f.zero <==> !bit_is_set(state.prefixed_byte(target), bit)
            &&& !after.registers.f.subtract
            &&& after.registers.f.half_carry
            &&& after.registers.f.carry == state.registers.f.carry
            &&& after.prefixed_byte(target) == state.prefixed_byte(target)
            &&& after == state.with_flags(after.registers.f)
        }),
{
}

/// A step fails only for want of a table entry, and then with the byte that
/// was looked up and the table it was looked up in.
pub proof fn theorem_step_failure(state: CpuState)
    ensures
        state.stepped() is Err <==> table_entry(state.selector(), state.is_prefixed()) is None,
        state.stepped() matches Err(error) ==> error == (CpuError::UnimplementedOpcode {
            byte: state.selector(),
            extended: state.is_prefixed(),
        }),
        state.is_prefixed() ==> state.stepped() is Ok,
{
}

/// No instruction changes the size of the memory.
pub proof fn theorem_memory_size_kept(state: CpuState, instruction: Instruction)
    requires
        state.wf(),
    ensures
        state.after(instruction).wf(),
{
    match instruction {
        Instruction::LD(load_type) => {
            assert(state.loaded(load_type).wf());
        },
        Instruction::PUSH(target) => {
            assert(state.pushed(state.stack_word(target)).wf());
        },
        Instruction::POP(target) => {
            assert(state.popped().with_stack_word(target, state.stack_top()).wf());
        },
        Instruction::INC(target) => {
            assert(state.incremented(target).wf());
        },
        Instruction::DEC(target) => {
            assert(state.decremented(target).wf());
        },
        Instruction::RLC(target)
        | Instruction::RRC(target)
        | Instruction::RL(target)
        | Instruction::RR(target)
        | Instruction::SLA(target)
        | Instruction::SRA(target)
        | Instruction::SWAP(target)
        | Instruction::SRL(target)
        | Instruction::RES(_, target)
        | Instruction::SET(_, target) => {
            assert(forall|value: u8| #[trigger] state.with_prefixed_byte(target, value).wf());
            assert(forall|flags: FlagsRegister, value: u8|
                (#[trigger] state.with_flags(flags).with_prefixed_byte(target, value)).wf());
        },
        _ => {},
    }
}

/// Loads, jumps, 16-bit increments and decrements, and setting or clearing a
/// bit leave all four flags as they were.
pub proof fn theorem_flags_kept(state: CpuState, instruction: Instruction)
    requires
        match instruction {
            Instruction::LD(_)
            | Instruction::JP(_)
            | Instruction::JR(_)
            | Instruction::JPHL()
            | Instruction::PUSH(_)
            | Instruction::INC16(_)
            | Instruction::DEC16(_)
            | Instruction::RES(_, _)
            | Instruction::SET(_, _) => true,
            _ => false,
        },
    ensures
        state.after(instruction).registers.f == state.registers.f,
{
}

/// Writing AF and reading it back drops the low nibble and keeps the rest.
pub proof fn theorem_af_low_nibble(registers: Registers, value: u16)
    ensures
        registers.with_af(value).af() == value - value % 16,
        registers.with_af(value).af() % 16 == 0,
{
    lemma_packed_round_trip(low_byte(value));
    assert(low_byte(value) % 16 == value % 16 && value / 256 * 256 + value % 256 == value
        && value / 256 < 256) by (bit_vector);
}

/// The standard table has no entry for the prefix byte itself.
pub proof fn theorem_prefix_has_no_entry()
    ensures
        standard_entry(PREFIX_BYTE) is None,
{
}

} // verus!
