use gameboy_core::cpu::CPU;
use gameboy_core::instructions::{
    AddressMode, ArithmeticTarget, CpuError, Instruction, JumpTest, LoadByteSource,
    LoadByteTarget, LoadIncDecSource, LoadIncDecTarget, LoadType, LoadWordSource, LoadWordTarget,
    Operand, PrefixedTarget, StackTarget,
};
use gameboy_core::memory::MemoryBus;
use gameboy_core::registers::FlagsRegister;

fn machine_with(program: &[u8], origin: u16) -> CPU {
    let mut bus = MemoryBus::new();
    let mut address = origin;
    for byte in program {
        bus.write_byte(address, *byte);
        address = address.wrapping_add(1);
    }
    let mut cpu = CPU::new(bus);
    cpu.pc = origin;
    cpu
}

fn flags(zero: bool, subtract: bool, half_carry: bool, carry: bool) -> FlagsRegister {
    FlagsRegister { zero, subtract, half_carry, carry }
}

#[test]
fn new_machine_starts_at_zero() {
    let cpu = CPU::new(MemoryBus::new());
    assert_eq!(cpu.pc, 0);
    assert_eq!(cpu.sp, 0);
    assert_eq!(cpu.registers.a, 0);
    assert_eq!(cpu.registers.get_bc(), 0);
    assert_eq!(cpu.registers.f, flags(false, false, false, false));
}

#[test]
fn immediates_follow_the_opcode() {
    let cpu = machine_with(&[0x00, 0x34, 0x12], 0x0200);
    assert_eq!(cpu.get_immediate_byte(), 0x34);
    assert_eq!(cpu.get_immediate_word(), 0x1234);
    assert_eq!(cpu.pc, 0x0200);
}

#[test]
fn immediates_wrap_past_the_last_address() {
    let mut cpu = machine_with(&[0x77, 0x88], 0x0000);
    cpu.pc = 0xFFFF;
    assert_eq!(cpu.get_immediate_byte(), 0x77);
    assert_eq!(cpu.get_immediate_word(), 0x8877);
}

#[test]
fn relative_jump_taken_lands_past_the_instruction_plus_offset() {
    let cpu = machine_with(&[0x18, 0x05], 0x0100);
    assert_eq!(cpu.JR(true), 0x0107);
    let cpu = machine_with(&[0x18, 0xFE], 0x0100);
    assert_eq!(cpu.JR(true), 0x0100);
    let cpu = machine_with(&[0x18, 0x80], 0x0100);
    assert_eq!(cpu.JR(true), 0x0082);
    let cpu = machine_with(&[0x18, 0x7F], 0x0100);
    assert_eq!(cpu.JR(true), 0x0181);
    let cpu = machine_with(&[0x18, 0x00], 0x0100);
    assert_eq!(cpu.JR(true), 0x0102);
}

#[test]
fn relative_jump_not_taken_lands_past_the_instruction() {
    let cpu = machine_with(&[0x20, 0x05], 0x0100);
    assert_eq!(cpu.JR(false), 0x0102);
    let cpu = machine_with(&[0x20, 0xFE], 0xFFFE);
    assert_eq!(cpu.JR(false), 0x0000);
}

#[test]
fn relative_jump_wraps_around_the_address_space() {
    let cpu = machine_with(&[0x18, 0x01], 0xFFFD);
    assert_eq!(cpu.JR(true), 0x0000);
    let cpu = machine_with(&[0x18, 0xFD], 0x0000);
    assert_eq!(cpu.JR(true), 0xFFFF);
    let cpu = machine_with(&[0x18, 0x10], 0xFFFE);
    assert_eq!(cpu.JR(true), 0x0010);
}

#[test]
fn relative_jump_for_every_offset() {
    for pc in [0x0000u16, 0x0001, 0x0100, 0x7FFF, 0x8000, 0xFF80, 0xFFFE, 0xFFFF] {
        for offset in 0..=255u8 {
            let mut bus = MemoryBus::new();
            bus.write_byte(pc.wrapping_add(1), offset);
            let mut cpu = CPU::new(bus);
            cpu.pc = pc;
            let expected = (pc as i32 + 2 + (offset as i8) as i32).rem_euclid(0x1_0000) as u16;
            assert_eq!(cpu.JR(true), expected);
            assert_eq!(cpu.JR(false), pc.wrapping_add(2));
        }
    }
}

#[test]
fn absolute_jump() {
    let cpu = machine_with(&[0xC3, 0x34, 0x12], 0x0100);
    assert_eq!(cpu.JP(true), 0x1234);
    assert_eq!(cpu.JP(false), 0x0103);
}

#[test]
fn jump_conditions_read_zero_and_carry() {
    let mut cpu = CPU::new(MemoryBus::new());
    cpu.registers.f = flags(true, false, false, false);
    assert!(cpu.jump_condition(JumpTest::Zero));
    assert!(!cpu.jump_condition(JumpTest::NotZero));
    assert!(!cpu.jump_condition(JumpTest::Carry));
    assert!(cpu.jump_condition(JumpTest::NotCarry));
    assert!(cpu.jump_condition(JumpTest::Always));
    cpu.registers.f = flags(false, true, true, true);
    assert!(!cpu.jump_condition(JumpTest::Zero));
    assert!(cpu.jump_condition(JumpTest::NotZero));
    assert!(cpu.jump_condition(JumpTest::Carry));
    assert!(!cpu.jump_condition(JumpTest::NotCarry));
    assert!(cpu.jump_condition(JumpTest::Always));
}

#[test]
fn conditional_jumps_through_execute() {
    let mut cpu = machine_with(&[0xCA, 0x00, 0x80], 0x0100);
    cpu.registers.f.zero = true;
    assert_eq!(cpu.execute(Instruction::JP(JumpTest::Zero)), Ok(0x8000));
    assert_eq!(cpu.execute(Instruction::JP(JumpTest::NotZero)), Ok(0x0103));
    assert_eq!(cpu.execute(Instruction::JR(JumpTest::Zero)), Ok(0x0102));
    assert_eq!(cpu.execute(Instruction::JR(JumpTest::Carry)), Ok(0x0102));
    cpu.registers.set_hl(0xBEEF);
    assert_eq!(cpu.execute(Instruction::JPHL()), Ok(0xBEEF));
    assert_eq!(cpu.pc, 0x0100);
}

#[test]
fn push_goes_down_by_two_and_stores_little_endian() {
    let mut cpu = CPU::new(MemoryBus::new());
    cpu.sp = 0xFFFE;
    cpu.PUSH(0x1234);
    assert_eq!(cpu.sp, 0xFFFC);
    assert_eq!(cpu.bus.read_byte(0xFFFC), 0x34);
    assert_eq!(cpu.bus.read_byte(0xFFFD), 0x12);
}

#[test]
fn pop_reads_then_goes_up_by_two() {
    let mut cpu = CPU::new(MemoryBus::new());
    cpu.bus.write_word(0xC000, 0xABCD);
    cpu.sp = 0xC000;
    assert_eq!(cpu.POP(), 0xABCD);
    assert_eq!(cpu.sp, 0xC002);
}

#[test]
fn push_then_pop_returns_the_word_and_the_stack_pointer() {
    let mut cpu = CPU::new(MemoryBus::new());
    for sp in [0x0000u16, 0x0001, 0x0002, 0x8000, 0xFFFE, 0xFFFF] {
        for value in [0x0000u16, 0x0001, 0x00FF, 0x0100, 0x1234, 0xFFFF] {
            cpu.sp = sp;
            cpu.PUSH(value);
            assert_eq!(cpu.sp, sp.wrapping_sub(2));
            assert_eq!(cpu.POP(), value);
            assert_eq!(cpu.sp, sp);
        }
    }
}

#[test]
fn push_then_pop_for_every_stack_pointer() {
    let mut cpu = CPU::new(MemoryBus::new());
    for sp in 0..=0xFFFFu16 {
        let value = sp.wrapping_mul(7).wrapping_add(0x0102);
        cpu.sp = sp;
        cpu.PUSH(value);
        assert_eq!(cpu.POP(), value);
        assert_eq!(cpu.sp, sp);
    }
}

#[test]
fn push_wraps_below_address_zero() {
    let mut cpu = CPU::new(MemoryBus::new());
    cpu.sp = 0x0001;
    cpu.PUSH(0xA1B2);
    assert_eq!(cpu.sp, 0xFFFF);
    assert_eq!(cpu.bus.read_byte(0xFFFF), 0xB2);
    assert_eq!(cpu.bus.read_byte(0x0000), 0xA1);
}

#[test]
fn push_and_pop_instructions_move_pairs() {
    let mut cpu = machine_with(&[0xC5, 0xD1], 0x0100);
    cpu.sp = 0xD000;
    cpu.registers.set_bc(0x1234);
    assert_eq!(cpu.step(), Ok(()));
    assert_eq!(cpu.sp, 0xCFFE);
    assert_eq!(cpu.pc, 0x0101);
    assert_eq!(cpu.step(), Ok(()));
    assert_eq!(cpu.registers.get_de(), 0x1234);
    assert_eq!(cpu.sp, 0xD000);
    assert_eq!(cpu.pc, 0x0102);
}

#[test]
fn pop_into_af_drops_the_low_nibble() {
    let mut cpu = machine_with(&[0xF1], 0x0100);
    cpu.bus.write_word(0xC000, 0x12FF);
    cpu.sp = 0xC000;
    assert_eq!(cpu.step(), Ok(()));
    assert_eq!(cpu.registers.a, 0x12);
    assert_eq!(cpu.registers.f, flags(true, true, true, true));
    assert_eq!(cpu.registers.get_af(), 0x12F0);
    cpu.bus.write_word(0xC002, 0x340F);
    cpu.pop_pair(StackTarget::AF);
    assert_eq!(cpu.registers.get_af(), 0x3400);
    assert_eq!(cpu.sp, 0xC004);
}

#[test]
fn push_af_stores_the_packed_flags() {
    let mut cpu = CPU::new(MemoryBus::new());
    cpu.sp = 0xC002;
    cpu.registers.a = 0x9A;
    cpu.registers.f = flags(true, false, true, false);
    cpu.push_pair(StackTarget::AF);
    assert_eq!(cpu.bus.read_word(0xC000), 0x9AA0);
    assert_eq!(cpu.sp, 0xC000);
}

#[test]
fn step_loads_an_immediate_byte() {
    let mut cpu = machine_with(&[0x3E, 0x42], 0x0100);
    assert_eq!(cpu.step(), Ok(()));
    assert_eq!(cpu.registers.a, 0x42);
    assert_eq!(cpu.pc, 0x0102);
}

#[test]
fn step_on_a_byte_without_entry_fails_and_changes_nothing() {
    let mut cpu = machine_with(&[0xD3, 0x12], 0x0100);
    cpu.registers.a = 0x55;
    cpu.sp = 0xFFFE;
    let before = cpu.registers;
    assert_eq!(cpu.step(), Err(CpuError::UnimplementedOpcode { byte: 0xD3, extended: false }));
    assert_eq!(cpu.pc, 0x0100);
    assert_eq!(cpu.sp, 0xFFFE);
    assert_eq!(cpu.registers, before);
    assert_eq!(cpu.bus.read_byte(0x0100), 0xD3);
    assert_eq!(cpu.step(), Err(CpuError::UnimplementedOpcode { byte: 0xD3, extended: false }));
}

#[test]
fn step_on_zeroed_memory_fails_at_the_first_byte() {
    let mut cpu = CPU::new(MemoryBus::new());
    assert_eq!(cpu.step(), Err(CpuError::UnimplementedOpcode { byte: 0x00, extended: false }));
    assert_eq!(cpu.pc, 0);
}

#[test]
fn step_after_the_prefix_uses_the_extended_table() {
    let mut cpu = machine_with(&[0xCB, 0x37], 0x0100);
    cpu.registers.a = 0xAB;
    cpu.registers.f.carry = true;
    assert_eq!(cpu.step(), Ok(()));
    assert_eq!(cpu.registers.a, 0xBA);
    assert_eq!(cpu.registers.f, flags(false, false, false, false));
    assert_eq!(cpu.pc, 0x0102);
}

#[test]
fn prefix_at_the_last_address_takes_its_second_byte_from_the_first() {
    let mut cpu = CPU::new(MemoryBus::new());
    cpu.bus.write_byte(0xFFFF, 0xCB);
    cpu.bus.write_byte(0x0000, 0xC7);
    cpu.pc = 0xFFFF;
    assert_eq!(cpu.step(), Ok(()));
    assert_eq!(cpu.registers.a, 0x01);
    assert_eq!(cpu.pc, 0x0001);
}

#[test]
fn extended_instructions_on_the_byte_at_hl() {
    let mut cpu = machine_with(&[0xCB, 0x06, 0xCB, 0x46, 0xCB, 0x86, 0xCB, 0xFE], 0x0100);
    cpu.registers.set_hl(0xC000);
    cpu.bus.write_byte(0xC000, 0x81);
    assert_eq!(cpu.step(), Ok(()));
    assert_eq!(cpu.bus.read_byte(0xC000), 0x03);
    assert_eq!(cpu.registers.f, flags(false, false, false, true));
    assert_eq!(cpu.step(), Ok(()));
    assert_eq!(cpu.bus.read_byte(0xC000), 0x03);
    assert_eq!(cpu.registers.f, flags(false, false, true, true));
    assert_eq!(cpu.step(), Ok(()));
    assert_eq!(cpu.bus.read_byte(0xC000), 0x02);
    assert_eq!(cpu.registers.f, flags(false, false, true, true));
    assert_eq!(cpu.step(), Ok(()));
    assert_eq!(cpu.bus.read_byte(0xC000), 0x82);
    assert_eq!(cpu.pc, 0x0108);
}

#[test]
fn bit_through_execute_leaves_the_tested_byte() {
    let mut cpu = CPU::new(MemoryBus::new());
    cpu.registers.h = 0b0111_1111;
    cpu.registers.f = flags(false, true, false, true);
    let before = cpu.registers;
    assert_eq!(cpu.execute(Instruction::BIT(7, PrefixedTarget::H)), Ok(0x0002));
    assert_eq!(cpu.registers.h, 0b0111_1111);
    assert_eq!(cpu.registers.f, flags(true, false, true, true));
    assert_eq!(cpu.registers.get_bc(), before.get_bc());
    assert_eq!(cpu.registers.a, before.a);
}

#[test]
fn operands_that_do_not_fit_are_refused_before_anything_changes() {
    let mut cpu = machine_with(&[0x00, 0x11, 0x22], 0x0100);
    cpu.registers.a = 0x10;
    cpu.registers.set_bc(0x2030);
    cpu.registers.set_hl(0xC000);
    let before = cpu.registers;
    let refused = [
        (Instruction::ADD(ArithmeticTarget::BC), Operand::Arithmetic(ArithmeticTarget::BC)),
        (Instruction::SBC(ArithmeticTarget::SP), Operand::Arithmetic(ArithmeticTarget::SP)),
        (Instruction::INC(ArithmeticTarget::N8), Operand::Arithmetic(ArithmeticTarget::N8)),
        (Instruction::DEC(ArithmeticTarget::DE), Operand::Arithmetic(ArithmeticTarget::DE)),
        (Instruction::INC16(ArithmeticTarget::A), Operand::Arithmetic(ArithmeticTarget::A)),
        (Instruction::ADDHL(ArithmeticTarget::N8), Operand::Arithmetic(ArithmeticTarget::N8)),
        (Instruction::BIT(8, PrefixedTarget::A), Operand::Bit(8)),
        (Instruction::SET(9, PrefixedTarget::HL), Operand::Bit(9)),
        (
            Instruction::LD(LoadType::AddressIncDec(
                LoadIncDecTarget::A,
                LoadIncDecSource::A,
                AddressMode::Inc,
            )),
            Operand::Transfer(LoadIncDecTarget::A, LoadIncDecSource::A),
        ),
        (
            Instruction::LD(LoadType::AddressIncDec(
                LoadIncDecTarget::HL,
                LoadIncDecSource::HL,
                AddressMode::Dec,
            )),
            Operand::Transfer(LoadIncDecTarget::HL, LoadIncDecSource::HL),
        ),
    ];
    for (instruction, target) in refused {
        assert_eq!(instruction.check_operands(), Some(target));
        assert_eq!(
            cpu.execute(instruction),
            Err(CpuError::IncompatibleOperand { instruction, target })
        );
        assert_eq!(cpu.registers, before);
        assert_eq!(cpu.pc, 0x0100);
        assert_eq!(cpu.bus.read_byte(0xC000), 0);
    }
}

#[test]
fn execute_returns_the_next_program_counter_and_leaves_pc() {
    let mut cpu = machine_with(&[0xC6, 0x05], 0x0100);
    cpu.registers.a = 0x01;
    assert_eq!(cpu.execute(Instruction::ADD(ArithmeticTarget::N8)), Ok(0x0102));
    assert_eq!(cpu.registers.a, 0x06);
    assert_eq!(cpu.pc, 0x0100);
    assert_eq!(cpu.execute(Instruction::ADD(ArithmeticTarget::A)), Ok(0x0101));
    assert_eq!(cpu.registers.a, 0x0C);
    assert_eq!(cpu.execute(Instruction::SCF()), Ok(0x0101));
    assert_eq!(cpu.execute(Instruction::SWAP(PrefixedTarget::A)), Ok(0x0102));
    assert_eq!(cpu.registers.a, 0xC0);
}

#[test]
fn program_counter_wraps_past_the_last_address() {
    let mut cpu = CPU::new(MemoryBus::new());
    cpu.bus.write_byte(0xFFFF, 0x3C);
    cpu.pc = 0xFFFF;
    assert_eq!(cpu.step(), Ok(()));
    assert_eq!(cpu.registers.a, 1);
    assert_eq!(cpu.pc, 0x0000);
}

#[test]
fn arithmetic_operands_are_read_from_registers_memory_and_immediates() {
    let mut cpu = machine_with(&[0x86, 0x99], 0x0100);
    cpu.registers.b = 1;
    cpu.registers.c = 2;
    cpu.registers.d = 3;
    cpu.registers.e = 4;
    cpu.registers.h = 0xC0;
    cpu.registers.l = 0x10;
    cpu.registers.a = 7;
    cpu.bus.write_byte(0xC010, 0x5A);
    assert_eq!(cpu.read_arithmetic_byte_target(ArithmeticTarget::A), 7);
    assert_eq!(cpu.read_arithmetic_byte_target(ArithmeticTarget::B), 1);
    assert_eq!(cpu.read_arithmetic_byte_target(ArithmeticTarget::C), 2);
    assert_eq!(cpu.read_arithmetic_byte_target(ArithmeticTarget::D), 3);
    assert_eq!(cpu.read_arithmetic_byte_target(ArithmeticTarget::E), 4);
    assert_eq!(cpu.read_arithmetic_byte_target(ArithmeticTarget::H), 0xC0);
    assert_eq!(cpu.read_arithmetic_byte_target(ArithmeticTarget::L), 0x10);
    assert_eq!(cpu.read_arithmetic_byte_target(ArithmeticTarget::HL), 0x5A);
    assert_eq!(cpu.read_arithmetic_byte_target(ArithmeticTarget::N8), 0x99);
    assert_eq!(cpu.read_arithmetic_word_target(ArithmeticTarget::BC), 0x0102);
    assert_eq!(cpu.read_arithmetic_word_target(ArithmeticTarget::DE), 0x0304);
    assert_eq!(cpu.read_arithmetic_word_target(ArithmeticTarget::HL), 0xC010);
    cpu.sp = 0xFFF0;
    assert_eq!(cpu.read_arithmetic_word_target(ArithmeticTarget::SP), 0xFFF0);
    assert_eq!(cpu.read_prefixed_target(PrefixedTarget::HL), 0x5A);
    assert_eq!(cpu.read_prefixed_target(PrefixedTarget::E), 4);
}

#[test]
fn targets_are_written_to_registers_and_memory() {
    let mut cpu = CPU::new(MemoryBus::new());
    cpu.registers.set_hl(0xC000);
    cpu.write_prefixed_target(PrefixedTarget::B, 0x11);
    cpu.write_prefixed_target(PrefixedTarget::HL, 0x22);
    cpu.write_arithmetic_byte_target(ArithmeticTarget::E, 0x33);
    assert_eq!(cpu.registers.b, 0x11);
    assert_eq!(cpu.bus.read_byte(0xC000), 0x22);
    assert_eq!(cpu.registers.e, 0x33);
    assert_eq!(cpu.registers.get_hl(), 0xC000);
    cpu.write_arithmetic_byte_target(ArithmeticTarget::HL, 0x44);
    assert_eq!(cpu.bus.read_byte(0xC000), 0x44);
    cpu.write_arithmetic_word_target(ArithmeticTarget::BC, 0x5566);
    cpu.write_arithmetic_word_target(ArithmeticTarget::SP, 0x7788);
    assert_eq!(cpu.registers.get_bc(), 0x5566);
    assert_eq!(cpu.sp, 0x7788);
}

#[test]
fn byte_loads_copy_and_leave_the_flags() {
    let mut cpu = machine_with(&[0x06, 0x7B, 0x48, 0x36, 0x9C, 0x7E, 0x12, 0x0A], 0x0100);
    cpu.registers.f = flags(true, false, true, false);
    cpu.registers.set_hl(0xC000);
    cpu.registers.set_de(0xC100);
    assert_eq!(cpu.step(), Ok(()));
    assert_eq!(cpu.registers.b, 0x7B);
    assert_eq!(cpu.pc, 0x0102);
    assert_eq!(cpu.step(), Ok(()));
    assert_eq!(cpu.registers.c, 0x7B);
    assert_eq!(cpu.pc, 0x0103);
    assert_eq!(cpu.step(), Ok(()));
    assert_eq!(cpu.bus.read_byte(0xC000), 0x9C);
    assert_eq!(cpu.pc, 0x0105);
    assert_eq!(cpu.step(), Ok(()));
    assert_eq!(cpu.registers.a, 0x9C);
    assert_eq!(cpu.step(), Ok(()));
    assert_eq!(cpu.bus.read_byte(0xC100), 0x9C);
    cpu.registers.set_bc(0xC100);
    cpu.registers.a = 0;
    assert_eq!(cpu.step(), Ok(()));
    assert_eq!(cpu.registers.a, 0x9C);
    assert_eq!(cpu.pc, 0x0108);
    assert_eq!(cpu.registers.f, flags(true, false, true, false));
}

#[test]
fn word_loads_copy_immediates_and_the_stack_pointer() {
    let mut cpu = machine_with(&[0x21, 0x34, 0x12, 0x31, 0xFE, 0xFF, 0x08, 0x00, 0xC0], 0x0100);
    cpu.registers.f = flags(false, true, false, true);
    assert_eq!(cpu.step(), Ok(()));
    assert_eq!(cpu.registers.get_hl(), 0x1234);
    assert_eq!(cpu.pc, 0x0103);
    assert_eq!(cpu.step(), Ok(()));
    assert_eq!(cpu.sp, 0xFFFE);
    assert_eq!(cpu.pc, 0x0106);
    assert_eq!(cpu.step(), Ok(()));
    assert_eq!(cpu.bus.read_byte(0xC000), 0xFE);
    assert_eq!(cpu.bus.read_byte(0xC001), 0xFF);
    assert_eq!(cpu.pc, 0x0109);
    assert_eq!(cpu.registers.f, flags(false, true, false, true));
}

#[test]
fn word_load_combinations_outside_the_tables() {
    let mut cpu = machine_with(&[0x00, 0x34, 0x12, 0x00, 0xC0], 0x0100);
    cpu.sp = 0xABCD;
    let load = Instruction::LD(LoadType::Word(LoadWordTarget::DE, LoadWordSource::SP));
    assert_eq!(cpu.execute(load), Ok(0x0101));
    assert_eq!(cpu.registers.get_de(), 0xABCD);
    let load = Instruction::LD(LoadType::Word(LoadWordTarget::A16, LoadWordSource::N16));
    assert_eq!(cpu.execute(load), Ok(0x0105));
    assert_eq!(cpu.bus.read_word(0xC000), 0x1234);
    let load = Instruction::LD(LoadType::Byte(LoadByteTarget::BC, LoadByteSource::DE));
    cpu.registers.set_bc(0xD000);
    cpu.bus.write_byte(0xABCD, 0x77);
    assert_eq!(cpu.execute(load), Ok(0x0101));
    assert_eq!(cpu.bus.read_byte(0xD000), 0x77);
}

#[test]
fn loads_through_hl_step_hl_after_the_transfer() {
    let mut cpu = machine_with(&[0x22, 0x32, 0x2A, 0x3A], 0x0100);
    cpu.registers.set_hl(0xC000);
    cpu.registers.a = 0x11;
    assert_eq!(cpu.step(), Ok(()));
    assert_eq!(cpu.bus.read_byte(0xC000), 0x11);
    assert_eq!(cpu.registers.get_hl(), 0xC001);
    cpu.registers.a = 0x22;
    assert_eq!(cpu.step(), Ok(()));
    assert_eq!(cpu.bus.read_byte(0xC001), 0x22);
    assert_eq!(cpu.registers.get_hl(), 0xC000);
    assert_eq!(cpu.step(), Ok(()));
    assert_eq!(cpu.registers.a, 0x11);
    assert_eq!(cpu.registers.get_hl(), 0xC001);
    assert_eq!(cpu.step(), Ok(()));
    assert_eq!(cpu.registers.a, 0x22);
    assert_eq!(cpu.registers.get_hl(), 0xC000);
    assert_eq!(cpu.pc, 0x0104);
}

#[test]
fn stepping_hl_wraps() {
    let mut cpu = CPU::new(MemoryBus::new());
    cpu.registers.set_hl(0xFFFF);
    cpu.LD(LoadType::AddressIncDec(LoadIncDecTarget::A, LoadIncDecSource::HL, AddressMode::Inc));
    assert_eq!(cpu.registers.get_hl(), 0x0000);
    cpu.LD(LoadType::AddressIncDec(LoadIncDecTarget::A, LoadIncDecSource::HL, AddressMode::Dec));
    assert_eq!(cpu.registers.get_hl(), 0xFFFF);
}

#[test]
fn increment_and_decrement_of_the_byte_at_hl() {
    let mut cpu = machine_with(&[0x34, 0x35, 0x35], 0x0100);
    cpu.registers.set_hl(0xC000);
    cpu.bus.write_byte(0xC000, 0xFF);
    cpu.registers.f.carry = true;
    assert_eq!(cpu.step(), Ok(()));
    assert_eq!(cpu.bus.read_byte(0xC000), 0x00);
    assert_eq!(cpu.registers.f, flags(true, false, true, true));
    assert_eq!(cpu.step(), Ok(()));
    assert_eq!(cpu.bus.read_byte(0xC000), 0xFF);
    assert_eq!(cpu.registers.f, flags(false, true, true, true));
    assert_eq!(cpu.step(), Ok(()));
    assert_eq!(cpu.bus.read_byte(0xC000), 0xFE);
    assert_eq!(cpu.registers.f, flags(false, true, false, true));
}

#[test]
fn inc_then_dec_instruction_restores_every_register() {
    let targets = [
        ArithmeticTarget::A,
        ArithmeticTarget::B,
        ArithmeticTarget::C,
        ArithmeticTarget::D,
        ArithmeticTarget::E,
        ArithmeticTarget::H,
        ArithmeticTarget::L,
        ArithmeticTarget::HL,
    ];
    for target in targets {
        for carry in [false, true] {
            for value in [0x00u8, 0x0F, 0x10, 0x7F, 0x80, 0xFF] {
                let mut cpu = CPU::new(MemoryBus::new());
                cpu.registers.set_hl(0xC000);
                cpu.registers.f.carry = carry;
                cpu.write_arithmetic_byte_target(target, value);
                let before = cpu.registers;
                assert_eq!(cpu.execute(Instruction::INC(target)), Ok(1));
                assert_eq!(cpu.execute(Instruction::DEC(target)), Ok(1));
                assert_eq!(cpu.read_arithmetic_byte_target(target), value);
                assert_eq!(cpu.registers.f.carry, carry);
                assert_eq!(cpu.registers.get_bc(), before.get_bc());
                assert_eq!(cpu.registers.get_de(), before.get_de());
                assert_eq!(cpu.registers.get_hl(), before.get_hl());
                assert_eq!(cpu.registers.a, before.a);
                assert_eq!(cpu.execute(Instruction::DEC(target)), Ok(1));
                assert_eq!(cpu.execute(Instruction::INC(target)), Ok(1));
                assert_eq!(cpu.read_arithmetic_byte_target(target), value);
                assert_eq!(cpu.registers.f.carry, carry);
            }
        }
    }
}

#[test]
fn sixteen_bit_increment_and_decrement_wrap_and_touch_no_flag() {
    let mut cpu = machine_with(&[0x03, 0x1B, 0x33, 0x2B], 0x0100);
    cpu.registers.f = flags(true, true, true, true);
    cpu.registers.set_bc(0xFFFF);
    cpu.registers.set_de(0x0000);
    cpu.registers.set_hl(0x0100);
    cpu.sp = 0x00FF;
    assert_eq!(cpu.step(), Ok(()));
    assert_eq!(cpu.registers.get_bc(), 0x0000);
    assert_eq!(cpu.step(), Ok(()));
    assert_eq!(cpu.registers.get_de(), 0xFFFF);
    assert_eq!(cpu.step(), Ok(()));
    assert_eq!(cpu.sp, 0x0100);
    assert_eq!(cpu.step(), Ok(()));
    assert_eq!(cpu.registers.get_hl(), 0x00FF);
    assert_eq!(cpu.registers.f, flags(true, true, true, true));
    assert_eq!(cpu.pc, 0x0104);
}

#[test]
fn addhl_takes_pairs_and_the_stack_pointer() {
    let mut cpu = machine_with(&[0x09, 0x29, 0x39], 0x0100);
    cpu.registers.set_hl(0x1000);
    cpu.registers.set_bc(0x0234);
    cpu.sp = 0xF000;
    cpu.registers.f.zero = true;
    assert_eq!(cpu.step(), Ok(()));
    assert_eq!(cpu.registers.get_hl(), 0x1234);
    assert_eq!(cpu.step(), Ok(()));
    assert_eq!(cpu.registers.get_hl(), 0x2468);
    assert_eq!(cpu.step(), Ok(()));
    assert_eq!(cpu.registers.get_hl(), 0x1468);
    assert_eq!(cpu.registers.f, flags(true, false, false, true));
    assert_eq!(cpu.sp, 0xF000);
}

#[test]
fn arithmetic_families_dispatch_by_instruction() {
    let mut cpu = CPU::new(MemoryBus::new());
    cpu.registers.a = 0x3C;
    cpu.registers.b = 0x0F;
    cpu.execute_arithmetic(Instruction::AND(ArithmeticTarget::B));
    assert_eq!(cpu.registers.a, 0x0C);
    cpu.execute_arithmetic(Instruction::OR(ArithmeticTarget::B));
    assert_eq!(cpu.registers.a, 0x0F);
    cpu.execute_arithmetic(Instruction::XOR(ArithmeticTarget::A));
    assert_eq!(cpu.registers.a, 0x00);
    assert_eq!(cpu.registers.f, flags(true, false, false, false));
    cpu.execute_arithmetic(Instruction::CP(ArithmeticTarget::B));
    assert_eq!(cpu.registers.a, 0x00);
    assert_eq!(cpu.registers.f, flags(false, true, true, true));
    cpu.execute_arithmetic(Instruction::ADC(ArithmeticTarget::B));
    assert_eq!(cpu.registers.a, 0x10);
    cpu.execute_arithmetic(Instruction::SUB(ArithmeticTarget::B));
    assert_eq!(cpu.registers.a, 0x01);
    cpu.registers.f.carry = true;
    cpu.execute_arithmetic(Instruction::SBC(ArithmeticTarget::A));
    assert_eq!(cpu.registers.a, 0xFF);
    cpu.execute_prefixed(Instruction::SRL(PrefixedTarget::A));
    assert_eq!(cpu.registers.a, 0x7F);
    cpu.execute_prefixed(Instruction::RES(0, PrefixedTarget::A));
    assert_eq!(cpu.registers.a, 0x7E);
}

#[test]
fn a_short_program_counts_down() {
    // LD B,3 ; LD A,0 ; loop: ADD A,B ; DEC B ; JR NZ,loop ; LD (HL),A
    let program = [0x06, 0x03, 0x3E, 0x00, 0x80, 0x05, 0x20, 0xFC, 0x77, 0xD3];
    let mut cpu = machine_with(&program, 0x0100);
    cpu.registers.set_hl(0xC000);
    let mut steps = 0;
    let stopped = loop {
        match cpu.step() {
            Ok(()) => steps += 1,
            Err(error) => break error,
        }
        assert!(steps < 100);
    };
    assert_eq!(stopped, CpuError::UnimplementedOpcode { byte: 0xD3, extended: false });
    assert_eq!(steps, 12);
    assert_eq!(cpu.registers.a, 6);
    assert_eq!(cpu.registers.b, 0);
    assert_eq!(cpu.bus.read_byte(0xC000), 6);
    assert_eq!(cpu.pc, 0x0109);
}
