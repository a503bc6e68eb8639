//! Decoded instructions and the two opcode tables.
//!
//! An opcode byte splits into three octal digits `x y z` (`byte = 64x + 8y + z`);
//! `y` further splits into `p = y / 2` and `q = y % 2`. Both tables are regular
//! in these digits, and `standard_entry` and `prefixed_entry` are written over
//! them.

use vstd::prelude::*;

verus! {

/// Condition under which a jump is taken.
#[derive(Clone, Copy, Debug, PartialEq, Eq)]
pub enum JumpTest {
    NotZero,
    Zero,
    NotCarry,
    Carry,
    Always,
}

/// Where a byte load stores: a register, or memory at a register pair.
#[derive(Clone, Copy, Debug, PartialEq, Eq)]
pub enum LoadByteTarget {
    A,
    B,
    C,
    D,
    E,
    H,
    L,
    BC,
    DE,
    HL,
}

/// Where a byte load reads: a register, memory at a register pair, or the
/// byte that follows the opcode.
#[derive(Clone, Copy, Debug, PartialEq, Eq)]
pub enum LoadByteSource {
    A,
    B,
    C,
    D,
    E,
    H,
    L,
    BC,
    DE,
    HL,
    N8,
}

/// Where a word load stores: a register pair, the stack pointer, or memory at
/// an address given in the instruction.
#[derive(Clone, Copy, Debug, PartialEq, Eq)]
pub enum LoadWordTarget {
    BC,
    DE,
    HL,
    SP,
    A16,
}

/// Where a word load reads: the word that follows the opcode, or the stack
/// pointer.
#[derive(Clone, Copy, Debug, PartialEq, Eq)]
pub enum LoadWordSource {
    N16,
    SP,
}

/// Where a load that steps HL stores: memory at HL, or A.
#[derive(Clone, Copy, Debug, PartialEq, Eq)]
pub enum LoadIncDecTarget {
    HL,
    A,
}

/// Where a load that steps HL reads: memory at HL, or A.
#[derive(Clone, Copy, Debug, PartialEq, Eq)]
pub enum LoadIncDecSource {
    HL,
    A,
}

/// Whether HL steps up or down after the transfer.
#[derive(Clone, Copy, Debug, PartialEq, Eq)]
pub enum AddressMode {
    Inc,
    Dec,
}

/// The three kinds of load.
#[derive(Clone, Copy, Debug, PartialEq, Eq)]
pub enum LoadType {
    Byte(LoadByteTarget, LoadByteSource),
    Word(LoadWordTarget, LoadWordSource),
    AddressIncDec(LoadIncDecTarget, LoadIncDecSource, AddressMode),
}

/// The pair that PUSH or POP moves.
#[derive(Clone, Copy, Debug, PartialEq, Eq)]
pub enum StackTarget {
    BC,
    DE,
    HL,
    AF,
}

/// Operand of the arithmetic families. In an 8-bit family `HL` is the byte in
/// memory at HL; in a 16-bit family it is the pair itself.
#[derive(Clone, Copy, Debug, PartialEq, Eq)]
pub enum ArithmeticTarget {
    A,
    B,
    C,
    D,
    E,
    H,
    L,
    BC,
    DE,
    HL,
    SP,
    N8,
}

/// Operand of the extended table: a register, or the byte in memory at HL.
#[derive(Clone, Copy, Debug, PartialEq, Eq)]
pub enum PrefixedTarget {
    A,
    B,
    C,
    D,
    E,
    H,
    L,
    HL,
}

/// One decoded instruction with its operands.
#[allow(non_snake_case)]
#[derive(Clone, Copy, Debug, PartialEq, Eq)]
pub enum Instruction {
    JP(JumpTest),
    JR(JumpTest),
    JPHL(),
    LD(LoadType),
    PUSH(StackTarget),
    POP(StackTarget),
    ADD(ArithmeticTarget),
    ADDHL(ArithmeticTarget),
    ADC(ArithmeticTarget),
    SUB(ArithmeticTarget),
    SBC(ArithmeticTarget),
    AND(ArithmeticTarget),
    OR(ArithmeticTarget),
    XOR(ArithmeticTarget),
    CP(ArithmeticTarget),
    INC(ArithmeticTarget),
    DEC(ArithmeticTarget),
    INC16(ArithmeticTarget),
    DEC16(ArithmeticTarget),
    CCF(),
    SCF(),
    RRA(),
    RLA(),
    RRCA(),
    RLCA(),
    CPL(),
    RLC(PrefixedTarget),
    RRC(PrefixedTarget),
    RL(PrefixedTarget),
    RR(PrefixedTarget),
    SLA(PrefixedTarget),
    SRA(PrefixedTarget),
    SWAP(PrefixedTarget),
    SRL(PrefixedTarget),
    BIT(u8, PrefixedTarget),
    RES(u8, PrefixedTarget),
    SET(u8, PrefixedTarget),
}

/// The opcode that announces a second byte to be looked up in the extended table.
pub const PREFIX_BYTE: u8 = 0xCB;

/// The two ways in which an instruction can fail. Both leave the machine as
/// it was.
#[derive(Clone, Copy, Debug, PartialEq, Eq)]
pub enum CpuError {
    /// The table asked has no entry for the byte.
    UnimplementedOpcode { byte: u8, extended: bool },
    /// The instruction carries an operand that its family does not take.
    IncompatibleOperand { instruction: Instruction, target: Operand },
}

/// An operand on which an instruction's family sets a condition.
#[derive(Clone, Copy, Debug, PartialEq, Eq)]
pub enum Operand {
    /// The operand of an arithmetic family.
    Arithmetic(ArithmeticTarget),
    /// The two ends of a transfer that steps HL.
    Transfer(LoadIncDecTarget, LoadIncDecSource),
    /// A bit index.
    Bit(u8),
}

/// Register operand number `index` as the target of a byte load.
pub open spec fn byte_target_at(index: int) -> LoadByteTarget {
    if index == 0 {
        LoadByteTarget::B
    } else if index == 1 {
        LoadByteTarget::C
    } else if index == 2 {
        LoadByteTarget::D
    } else if index == 3 {
        LoadByteTarget::E
    } else if index == 4 {
        LoadByteTarget::H
    } else if index == 5 {
        LoadByteTarget::L
    } else if index == 6 {
        LoadByteTarget::HL
    } else {
        LoadByteTarget::A
    }
}

/// Register operand number `index` as the source of a byte load.
pub open spec fn byte_source_at(index: int) -> LoadByteSource {
    if index == 0 {
        LoadByteSource::B
    } else if index == 1 {
        LoadByteSource::C
    } else if index == 2 {
        LoadByteSource::D
    } else if index == 3 {
        LoadByteSource::E
    } else if index == 4 {
        LoadByteSource::H
    } else if index == 5 {
        LoadByteSource::L
    } else if index == 6 {
        LoadByteSource::HL
    } else {
        LoadByteSource::A
    }
}

/// Register operand number `index` as an 8-bit arithmetic operand.
pub open spec fn byte_operand_at(index: int) -> ArithmeticTarget {
    if index == 0 {
        ArithmeticTarget::B
    } else if index == 1 {
        ArithmeticTarget::C
    } else if index == 2 {
        ArithmeticTarget::D
    } else if index == 3 {
        ArithmeticTarget::E
    } else if index == 4 {
        ArithmeticTarget::H
    } else if index == 5 {
        ArithmeticTarget::L
    } else if index == 6 {
        ArithmeticTarget::HL
    } else {
        ArithmeticTarget::A
    }
}

/// Register operand number `index` as an operand of the extended table.
pub open spec fn prefixed_target_at(index: int) -> PrefixedTarget {
    if index == 0 {
        PrefixedTarget::B
    } else if index == 1 {
        PrefixedTarget::C
    } else if index == 2 {
        PrefixedTarget::D
    } else if index == 3 {
        PrefixedTarget::E
    } else if index == 4 {
        PrefixedTarget::H
    } else if index == 5 {
        PrefixedTarget::L
    } else if index == 6 {
        PrefixedTarget::HL
    } else {
        PrefixedTarget::A
    }
}

/// Pair number `index` as a 16-bit arithmetic operand.
pub open spec fn word_operand_at(index: int) -> ArithmeticTarget {
    if index == 0 {
        ArithmeticTarget::BC
    } else if index == 1 {
        ArithmeticTarget::DE
    } else if index == 2 {
        ArithmeticTarget::HL
    } else {
        ArithmeticTarget::SP
    }
}

/// Pair number `index` as the target of a word load.
pub open spec fn word_target_at(index: int) -> LoadWordTarget {
    if index == 0 {
        LoadWordTarget::BC
    } else if index == 1 {
        LoadWordTarget::DE
    } else if index == 2 {
        LoadWordTarget::HL
    } else {
        LoadWordTarget::SP
    }
}

/// Pair number `index` as a stack operand.
pub open spec fn stack_target_at(index: int) -> StackTarget {
    if index == 0 {
        StackTarget::BC
    } else if index == 1 {
        StackTarget::DE
    } else if index == 2 {
        StackTarget::HL
    } else {
        StackTarget::AF
    }
}

/// Condition number `index`.
pub open spec fn jump_test_at(index: int) -> JumpTest {
    if index == 0 {
        JumpTest::NotZero
    } else if index == 1 {
        JumpTest::Zero
    } else if index == 2 {
        JumpTest::NotCarry
    } else {
        JumpTest::Carry
    }
}

/// 8-bit arithmetic operation number `index` applied to `operand`.
pub open spec fn arithmetic_at(index: int, operand: ArithmeticTarget) -> Instruction {
    if index == 0 {
        Instruction::ADD(operand)
    } else if index == 1 {
        Instruction::ADC(operand)
    } else if index == 2 {
        Instruction::SUB(operand)
    } else if index == 3 {
        Instruction::SBC(operand)
    } else if index == 4 {
        Instruction::AND(operand)
    } else if index == 5 {
        Instruction::XOR(operand)
    } else if index == 6 {
        Instruction::OR(operand)
    } else {
        Instruction::CP(operand)
    }
}

/// Rotate or shift number `index` of the extended table applied to `target`.
pub open spec fn rotation_at(index: int, target: PrefixedTarget) -> Instruction {
    if index == 0 {
        Instruction::RLC(target)
    } else if index == 1 {
        Instruction::RRC(target)
    } else if index == 2 {
        Instruction::RL(target)
    } else if index == 3 {
        Instruction::RR(target)
    } else if index == 4 {
        Instruction::SLA(target)
    } else if index == 5 {
        Instruction::SRA(target)
    } else if index == 6 {
        Instruction::SWAP(target)
    } else {
        Instruction::SRL(target)
    }
}

/// The first quarter of the standard table (`x == 0`): jumps, loads with
/// immediates or through pairs, increments and the accumulator operations.
pub open spec fn standard_low_quarter(y: int, z: int) -> Option<Instruction> {
    let p = y / 2;
    let q = y % 2;
    if z == 0 {
        if y == 1 {
            Some(Instruction::LD(LoadType::Word(LoadWordTarget::A16, LoadWordSource::SP)))
        } else if y == 3 {
            Some(Instruction::JR(JumpTest::Always))
        } else if y >= 4 {
            Some(Instruction::JR(jump_test_at(y - 4)))
        } else {
            None
        }
    } else if z == 1 {
        if q == 0 {
            Some(Instruction::LD(LoadType::Word(word_target_at(p), LoadWordSource::N16)))
        } else {
            Some(Instruction::ADDHL(word_operand_at(p)))
        }
    } else if z == 2 {
        Some(Instruction::LD(accumulator_transfer(p, q)))
    } else if z == 3 {
        if q == 0 {
            Some(Instruction::INC16(word_operand_at(p)))
        } else {
            Some(Instruction::DEC16(word_operand_at(p)))
        }
    } else if z == 4 {
        Some(Instruction::INC(byte_operand_at(y)))
    } else if z == 5 {
        Some(Instruction::DEC(byte_operand_at(y)))
    } else if z == 6 {
        Some(Instruction::LD(LoadType::Byte(byte_target_at(y), LoadByteSource::N8)))
    } else {
        accumulator_operation(y)
    }
}

/// Transfers between A and memory at a pair (`z == 2` in the first quarter):
/// `p` picks BC, DE, HL with increment, HL with decrement; `q` the direction.
pub open spec fn accumulator_transfer(p: int, q: int) -> LoadType {
    if p == 0 {
        if q == 0 {
            LoadType::Byte(LoadByteTarget::BC, LoadByteSource::A)
        } else {
            LoadType::Byte(LoadByteTarget::A, LoadByteSource::BC)
        }
    } else if p == 1 {
        if q == 0 {
            LoadType::Byte(LoadByteTarget::DE, LoadByteSource::A)
        } else {
            LoadType::Byte(LoadByteTarget::A, LoadByteSource::DE)
        }
    } else {
        let mode = if p == 2 { AddressMode::Inc } else { AddressMode::Dec };
        if q == 0 {
            LoadType::AddressIncDec(LoadIncDecTarget::HL, LoadIncDecSource::A, mode)
        } else {
            LoadType::AddressIncDec(LoadIncDecTarget::A, LoadIncDecSource::HL, mode)
        }
    }
}

/// Operations on A and the flags alone (`z == 7` in the first quarter).
/// Number 4, the decimal adjustment, has no entry.
pub open spec fn accumulator_operation(y: int) -> Option<Instruction> {
    if y == 0 {
        Some(Instruction::RLCA())
    } else if y == 1 {
        Some(Instruction::RRCA())
    } else if y == 2 {
        Some(Instruction::RLA())
    } else if y == 3 {
        Some(Instruction::RRA())
    } else if y == 5 {
        Some(Instruction::CPL())
    } else if y == 6 {
        Some(Instruction::SCF())
    } else if y == 7 {
        Some(Instruction::CCF())
    } else {
        None
    }
}

/// The last quarter of the standard table (`x == 3`): stack operations,
/// absolute jumps and arithmetic on an immediate byte. Calls, returns,
/// restarts and the high-page loads have no entry.
pub open spec fn standard_high_quarter(y: int, z: int) -> Option<Instruction> {
    let p = y / 2;
    let q = y % 2;
    if z == 1 {
        if q == 0 {
            Some(Instruction::POP(stack_target_at(p)))
        } else if p == 2 {
            Some(Instruction::JPHL())
        } else {
            None
        }
    } else if z == 2 {
        if y < 4 {
            Some(Instruction::JP(jump_test_at(y)))
        } else {
            None
        }
    } else if z == 3 {
        if y == 0 {
            Some(Instruction::JP(JumpTest::Always))
        } else {
            None
        }
    } else if z == 5 {
        if q == 0 {
            Some(Instruction::PUSH(stack_target_at(p)))
        } else {
            None
        }
    } else if z == 6 {
        Some(arithmetic_at(y, ArithmeticTarget::N8))
    } else {
        None
    }
}

/// The entry of the standard table for `byte`, if it has one.
pub open spec fn standard_entry(byte: u8) -> Option<Instruction> {
    let x = byte / 64;
    let y = byte / 8 % 8;
    let z = byte % 8;
    if x == 0 {
        standard_low_quarter(y as int, z as int)
    } else if x == 1 {
        if y == 6 && z == 6 {
            None
        } else {
            Some(Instruction::LD(LoadType::Byte(byte_target_at(y as int), byte_source_at(z as int))))
        }
    } else if x == 2 {
        Some(arithmetic_at(y as int, byte_operand_at(z as int)))
    } else {
        standard_high_quarter(y as int, z as int)
    }
}

/// The entry of the extended table for `byte`. Every byte has one.
pub open spec fn prefixed_entry(byte: u8) -> Instruction {
    let x = byte / 64;
    let y = byte / 8 % 8;
    let target = prefixed_target_at((byte % 8) as int);
    if x == 0 {
        rotation_at(y as int, target)
    } else if x == 1 {
        Instruction::BIT(y, target)
    } else if x == 2 {
        Instruction::RES(y, target)
    } else {
        Instruction::SET(y, target)
    }
}

/// The entry for `byte` in the table that `prefixed` selects.
pub open spec fn table_entry(byte: u8, prefixed: bool) -> Option<Instruction> {
    if prefixed {
        Some(prefixed_entry(byte))
    } else {
        standard_entry(byte)
    }
}

/// Operands of the 8-bit arithmetic and logic families: a register, the byte
/// in memory at HL, or the byte that follows the opcode.
pub open spec fn is_byte_operand(target: ArithmeticTarget) -> bool {
    match target {
        ArithmeticTarget::BC | ArithmeticTarget::DE | ArithmeticTarget::SP => false,
        _ => true,
    }
}

/// Operands of the 8-bit increment and decrement: a byte that can be written back.
pub open spec fn is_byte_place(target: ArithmeticTarget) -> bool {
    is_byte_operand(target) && target != ArithmeticTarget::N8
}

/// Operands of the 16-bit families: a register pair or the stack pointer.
pub open spec fn is_word_operand(target: ArithmeticTarget) -> bool {
    match target {
        ArithmeticTarget::BC | ArithmeticTarget::DE | ArithmeticTarget::HL | ArithmeticTarget::SP => true,
        _ => false,
    }
}

/// Number of bits in a byte: bit indices run below it.
pub const BITS_PER_BYTE: u8 = 8;

impl Instruction {
    /// Whether the instruction belongs to the extended table.
    pub open spec fn is_prefixed(self) -> bool {
        match self {
            Instruction::RLC(_)
            | Instruction::RRC(_)
            | Instruction::RL(_)
            | Instruction::RR(_)
            | Instruction::SLA(_)
            | Instruction::SRA(_)
            | Instruction::SWAP(_)
            | Instruction::SRL(_)
            | Instruction::BIT(_, _)
            | Instruction::RES(_, _)
            | Instruction::SET(_, _) => true,
            _ => false,
        }
    }

    /// Whether the instruction is one of the 8-bit arithmetic and logic
    /// families, an increment, a decrement or the 16-bit addition.
    pub open spec fn is_arithmetic(self) -> bool {
        match self {
            Instruction::ADD(_)
            | Instruction::ADC(_)
            | Instruction::SUB(_)
            | Instruction::SBC(_)
            | Instruction::AND(_)
            | Instruction::OR(_)
            | Instruction::XOR(_)
            | Instruction::CP(_)
            | Instruction::INC(_)
            | Instruction::DEC(_)
            | Instruction::INC16(_)
            | Instruction::DEC16(_)
            | Instruction::ADDHL(_) => true,
            _ => false,
        }
    }

    /// Whether every operand is one that the instruction's family takes.
    pub open spec fn operands_fit(self) -> bool {
        match self {
            Instruction::ADD(target)
            | Instruction::ADC(target)
            | Instruction::SUB(target)
            | Instruction::SBC(target)
            | Instruction::AND(target)
            | Instruction::OR(target)
            | Instruction::XOR(target)
            | Instruction::CP(target) => is_byte_operand(target),
            Instruction::INC(target) | Instruction::DEC(target) => is_byte_place(target),
            Instruction::ADDHL(target)
            | Instruction::INC16(target)
            | Instruction::DEC16(target) => is_word_operand(target),
            Instruction::LD(LoadType::AddressIncDec(target, source, _)) => {
                ||| (target == LoadIncDecTarget::A && source == LoadIncDecSource::HL)
                ||| (target == LoadIncDecTarget::HL && source == LoadIncDecSource::A)
            },
            Instruction::BIT(bit, _) | Instruction::RES(bit, _) | Instruction::SET(bit, _) => bit
                < BITS_PER_BYTE,
            _ => true,
        }
    }

    /// The operand that the instruction's family refuses, if there is one.
    pub open spec fn refused_operand(self) -> Option<Operand> {
        if self.operands_fit() {
            None
        } else {
            match self {
                Instruction::ADD(target)
                | Instruction::ADC(target)
                | Instruction::SUB(target)
                | Instruction::SBC(target)
                | Instruction::AND(target)
                | Instruction::OR(target)
                | Instruction::XOR(target)
                | Instruction::CP(target)
                | Instruction::INC(target)
                | Instruction::DEC(target)
                | Instruction::ADDHL(target)
                | Instruction::INC16(target)
                | Instruction::DEC16(target) => Some(Operand::Arithmetic(target)),
                Instruction::LD(LoadType::AddressIncDec(target, source, _)) => Some(
                    Operand::Transfer(target, source),
                ),
                Instruction::BIT(bit, _) | Instruction::RES(bit, _) | Instruction::SET(bit, _) => Some(
                    Operand::Bit(bit),
                ),
                _ => None,
            }
        }
    }

    /// Number of bytes that the instruction occupies, opcode and prefix
    /// included: one, plus one for an immediate byte or a prefix, plus two
    /// for each immediate word or address.
    pub open spec fn length(self) -> int {
        match self {
            Instruction::JP(_) => 3,
            Instruction::JR(_) => 2,
            Instruction::LD(LoadType::Byte(_, source)) => if source == LoadByteSource::N8 {
                2
            } else {
                1
            },
            Instruction::LD(LoadType::Word(target, source)) => 1 + (if source
                == LoadWordSource::N16 {
                2int
            } else {
                0
            }) + (if target == LoadWordTarget::A16 {
                2int
            } else {
                0
            }),
            Instruction::ADD(target)
            | Instruction::ADC(target)
            | Instruction::SUB(target)
            | Instruction::SBC(target)
            | Instruction::AND(target)
            | Instruction::OR(target)
            | Instruction::XOR(target)
            | Instruction::CP(target) => if target == ArithmeticTarget::N8 {
                2
            } else {
                1
            },
            Instruction::RLC(_)
            | Instruction::RRC(_)
            | Instruction::RL(_)
            | Instruction::RR(_)
            | Instruction::SLA(_)
            | Instruction::SRA(_)
            | Instruction::SWAP(_)
            | Instruction::SRL(_)
            | Instruction::BIT(_, _)
            | Instruction::RES(_, _)
            | Instruction::SET(_, _) => 2,
            _ => 1,
        }
    }

    /// Whether every operand is one that the instruction's family takes.
    pub fn operands_valid(&self) -> (valid: bool)
        ensures
            valid == self.operands_fit(),
    {
        match self {
            Instruction::ADD(target)
            | Instruction::ADC(target)
            | Instruction::SUB(target)
            | Instruction::SBC(target)
            | Instruction::AND(target)
            | Instruction::OR(target)
            | Instruction::XOR(target)
            | Instruction::CP(target) => match target {
                ArithmeticTarget::BC | ArithmeticTarget::DE | ArithmeticTarget::SP => false,
                _ => true,
            },
            Instruction::INC(target) | Instruction::DEC(target) => match target {
                ArithmeticTarget::BC
                | ArithmeticTarget::DE
                | ArithmeticTarget::SP
                | ArithmeticTarget::N8 => false,
                _ => true,
            },
            Instruction::ADDHL(target)
            | Instruction::INC16(target)
            | Instruction::DEC16(target) => match target {
                ArithmeticTarget::BC
                | ArithmeticTarget::DE
                | ArithmeticTarget::HL
                | ArithmeticTarget::SP => true,
                _ => false,
            },
            Instruction::LD(LoadType::AddressIncDec(target, source, _)) => match (target, source) {
                (LoadIncDecTarget::A, LoadIncDecSource::HL) => true,
                (LoadIncDecTarget::HL, LoadIncDecSource::A) => true,
                _ => false,
            },
            Instruction::BIT(bit, _) | Instruction::RES(bit, _) | Instruction::SET(bit, _) => *bit
                < BITS_PER_BYTE,
            _ => true,
        }
    }

    /// The operand that keeps the instruction from being carried out, if
    /// there is one.
    pub fn check_operands(&self) -> (refused: Option<Operand>)
        ensures
            refused == self.refused_operand(),
            refused is None <==> self.operands_fit(),
    {
        if self.operands_valid() {
            return None;
        }
        match self {
            Instruction::ADD(target)
            | Instruction::ADC(target)
            | Instruction::SUB(target)
            | Instruction::SBC(target)
            | Instruction::AND(target)
            | Instruction::OR(target)
            | Instruction::XOR(target)
            | Instruction::CP(target)
            | Instruction::INC(target)
            | Instruction::DEC(target)
            | Instruction::ADDHL(target)
            | Instruction::INC16(target)
            | Instruction::DEC16(target) => Some(Operand::Arithmetic(*target)),
            Instruction::LD(LoadType::AddressIncDec(target, source, _)) => Some(
                Operand::Transfer(*target, *source),
            ),
            Instruction::BIT(bit, _) | Instruction::RES(bit, _) | Instruction::SET(bit, _) => Some(
                Operand::Bit(*bit),
            ),
            _ => None,
        }
    }

    /// Number of bytes that the instruction occupies.
    pub fn encoded_length(&self) -> (bytes: u16)
        ensures
            bytes == self.length(),
            1 <= bytes <= 5,
    {
        match self {
            Instruction::JP(_) => 3,
            Instruction::JR(_) => 2,
            Instruction::LD(LoadType::Byte(_, LoadByteSource::N8)) => 2,
            Instruction::LD(LoadType::Word(target, source)) => {
                let immediate: u16 = match source {
                    LoadWordSource::N16 => 2,
                    LoadWordSource::SP => 0,
                };
                let address: u16 = match target {
                    LoadWordTarget::A16 => 2,
                    _ => 0,
                };
                1 + immediate + address
            },
            Instruction::ADD(ArithmeticTarget::N8)
            | Instruction::ADC(ArithmeticTarget::N8)
            | Instruction::SUB(ArithmeticTarget::N8)
            | Instruction::SBC(ArithmeticTarget::N8)
            | Instruction::AND(ArithmeticTarget::N8)
            | Instruction::OR(ArithmeticTarget::N8)
            | Instruction::XOR(ArithmeticTarget::N8)
            | Instruction::CP(ArithmeticTarget::N8) => 2,
            Instruction::RLC(_)
            | Instruction::RRC(_)
            | Instruction::RL(_)
            | Instruction::RR(_)
            | Instruction::SLA(_)
            | Instruction::SRA(_)
            | Instruction::SWAP(_)
            | Instruction::SRL(_)
            | Instruction::BIT(_, _)
            | Instruction::RES(_, _)
            | Instruction::SET(_, _) => 2,
            _ => 1,
        }
    }

    /// Looks `byte` up in the extended table if `prefixed`, else in the
    /// standard table. `None` means the table has no entry.
    pub fn from_byte(byte: u8, prefixed: bool) -> (instruction: Option<Instruction>)
        ensures
            instruction == table_entry(byte, prefixed),
    {
        if prefixed {
            Instruction::from_byte_prefixed(byte)
        } else {
            Instruction::from_byte_standard(byte)
        }
    }

    /// As `from_byte`, with the missing entry as a typed error.
    pub fn decode(byte: u8, extended: bool) -> (decoded: Result<Instruction, CpuError>)
        ensures
            decoded == decode_outcome(byte, extended, table_entry(byte, extended)),
    {
        match Instruction::from_byte(byte, extended) {
            Some(instruction) => Ok(instruction),
            None => Err(CpuError::UnimplementedOpcode { byte, extended }),
        }
    }

    /// Looks `byte` up in the standard table.
    pub fn from_byte_standard(byte: u8) -> (instruction: Option<Instruction>)
        ensures
            instruction == standard_entry(byte),
    {
        match byte {
            // byte loads
            0x02 => Some(Instruction::LD(LoadType::Byte(LoadByteTarget::BC, LoadByteSource::A))),
            0x06 => Some(Instruction::LD(LoadType::Byte(LoadByteTarget::B, LoadByteSource::N8))),
            0x0A => Some(Instruction::LD(LoadType::Byte(LoadByteTarget::A, LoadByteSource::BC))),
            0x0E => Some(Instruction::LD(LoadType::Byte(LoadByteTarget::C, LoadByteSource::N8))),
            0x12 => Some(Instruction::LD(LoadType::Byte(LoadByteTarget::DE, LoadByteSource::A))),
            0x16 => Some(Instruction::LD(LoadType::Byte(LoadByteTarget::D, LoadByteSource::N8))),
            0x1A => Some(Instruction::LD(LoadType::Byte(LoadByteTarget::A, LoadByteSource::DE))),
            0x1E => Some(Instruction::LD(LoadType::Byte(LoadByteTarget::E, LoadByteSource::N8))),
            0x26 => Some(Instruction::LD(LoadType::Byte(LoadByteTarget::H, LoadByteSource::N8))),
            0x2E => Some(Instruction::LD(LoadType::Byte(LoadByteTarget::L, LoadByteSource::N8))),
            0x36 => Some(Instruction::LD(LoadType::Byte(LoadByteTarget::HL, LoadByteSource::N8))),
            0x3E => Some(Instruction::LD(LoadType::Byte(LoadByteTarget::A, LoadByteSource::N8))),
            0x40 => Some(Instruction::LD(LoadType::Byte(LoadByteTarget::B, LoadByteSource::B))),
            0x41 => Some(Instruction::LD(LoadType::Byte(LoadByteTarget::B, LoadByteSource::C))),
            0x42 => Some(Instruction::LD(LoadType::Byte(LoadByteTarget::B, LoadByteSource::D))),
            0x43 => Some(Instruction::LD(LoadType::Byte(LoadByteTarget::B, LoadByteSource::E))),
            0x44 => Some(Instruction::LD(LoadType::Byte(LoadByteTarget::B, LoadByteSource::H))),
            0x45 => Some(Instruction::LD(LoadType::Byte(LoadByteTarget::B, LoadByteSource::L))),
            0x46 => Some(Instruction::LD(LoadType::Byte(LoadByteTarget::B, LoadByteSource::HL))),
            0x47 => Some(Instruction::LD(LoadType::Byte(LoadByteTarget::B, LoadByteSource::A))),
            0x48 => Some(Instruction::LD(LoadType::Byte(LoadByteTarget::C, LoadByteSource::B))),
            0x49 => Some(Instruction::LD(LoadType::Byte(LoadByteTarget::C, LoadByteSource::C))),
            0x4A => Some(Instruction::LD(LoadType::Byte(LoadByteTarget::C, LoadByteSource::D))),
            0x4B => Some(Instruction::LD(LoadType::Byte(LoadByteTarget::C, LoadByteSource::E))),
            0x4C => Some(Instruction::LD(LoadType::Byte(LoadByteTarget::C, LoadByteSource::H))),
            0x4D => Some(Instruction::LD(LoadType::Byte(LoadByteTarget::C, LoadByteSource::L))),
            0x4E => Some(Instruction::LD(LoadType::Byte(LoadByteTarget::C, LoadByteSource::HL))),
            0x4F => Some(Instruction::LD(LoadType::Byte(LoadByteTarget::C, LoadByteSource::A))),
            0x50 => Some(Instruction::LD(LoadType::Byte(LoadByteTarget::D, LoadByteSource::B))),
            0x51 => Some(Instruction::LD(LoadType::Byte(LoadByteTarget::D, LoadByteSource::C))),
            0x52 => Some(Instruction::LD(LoadType::Byte(LoadByteTarget::D, LoadByteSource::D))),
            0x53 => Some(Instruction::LD(LoadType::Byte(LoadByteTarget::D, LoadByteSource::E))),
            0x54 => Some(Instruction::LD(LoadType::Byte(LoadByteTarget::D, LoadByteSource::H))),
            0x55 => Some(Instruction::LD(LoadType::Byte(LoadByteTarget::D, LoadByteSource::L))),
            0x56 => Some(Instruction::LD(LoadType::Byte(LoadByteTarget::D, LoadByteSource::HL))),
            0x57 => Some(Instruction::LD(LoadType::Byte(LoadByteTarget::D, LoadByteSource::A))),
            0x58 => Some(Instruction::LD(LoadType::Byte(LoadByteTarget::E, LoadByteSource::B))),
            0x59 => Some(Instruction::LD(LoadType::Byte(LoadByteTarget::E, LoadByteSource::C))),
            0x5A => Some(Instruction::LD(LoadType::Byte(LoadByteTarget::E, LoadByteSource::D))),
            0x5B => Some(Instruction::LD(LoadType::Byte(LoadByteTarget::E, LoadByteSource::E))),
            0x5C => Some(Instruction::LD(LoadType::Byte(LoadByteTarget::E, LoadByteSource::H))),
            0x5D => Some(Instruction::LD(LoadType::Byte(LoadByteTarget::E, LoadByteSource::L))),
            0x5E => Some(Instruction::LD(LoadType::Byte(LoadByteTarget::E, LoadByteSource::HL))),
            0x5F => Some(Instruction::LD(LoadType::Byte(LoadByteTarget::E, LoadByteSource::A))),
            0x60 => Some(Instruction::LD(LoadType::Byte(LoadByteTarget::H, LoadByteSource::B))),
            0x61 => Some(Instruction::LD(LoadType::Byte(LoadByteTarget::H, LoadByteSource::C))),
            0x62 => Some(Instruction::LD(LoadType::Byte(LoadByteTarget::H, LoadByteSource::D))),
            0x63 => Some(Instruction::LD(LoadType::Byte(LoadByteTarget::H, LoadByteSource::E))),
            0x64 => Some(Instruction::LD(LoadType::Byte(LoadByteTarget::H, LoadByteSource::H))),
            0x65 => Some(Instruction::LD(LoadType::Byte(LoadByteTarget::H, LoadByteSource::L))),
            0x66 => Some(Instruction::LD(LoadType::Byte(LoadByteTarget::H, LoadByteSource::HL))),
            0x67 => Some(Instruction::LD(LoadType::Byte(LoadByteTarget::H, LoadByteSource::A))),
            0x68 => Some(Instruction::LD(LoadType::Byte(LoadByteTarget::L, LoadByteSource::B))),
            0x69 => Some(Instruction::LD(LoadType::Byte(LoadByteTarget::L, LoadByteSource::C))),
            0x6A => Some(Instruction::LD(LoadType::Byte(LoadByteTarget::L, LoadByteSource::D))),
            0x6B => Some(Instruction::LD(LoadType::Byte(LoadByteTarget::L, LoadByteSource::E))),
            0x6C => Some(Instruction::LD(LoadType::Byte(LoadByteTarget::L, LoadByteSource::H))),
            0x6D => Some(Instruction::LD(LoadType::Byte(LoadByteTarget::L, LoadByteSource::L))),
            0x6E => Some(Instruction::LD(LoadType::Byte(LoadByteTarget::L, LoadByteSource::HL))),
            0x6F => Some(Instruction::LD(LoadType::Byte(LoadByteTarget::L, LoadByteSource::A))),
            0x70 => Some(Instruction::LD(LoadType::Byte(LoadByteTarget::HL, LoadByteSource::B))),
            0x71 => Some(Instruction::LD(LoadType::Byte(LoadByteTarget::HL, LoadByteSource::C))),
            0x72 => Some(Instruction::LD(LoadType::Byte(LoadByteTarget::HL, LoadByteSource::D))),
            0x73 => Some(Instruction::LD(LoadType::Byte(LoadByteTarget::HL, LoadByteSource::E))),
            0x74 => Some(Instruction::LD(LoadType::Byte(LoadByteTarget::HL, LoadByteSource::H))),
            0x75 => Some(Instruction::LD(LoadType::Byte(LoadByteTarget::HL, LoadByteSource::L))),
            0x77 => Some(Instruction::LD(LoadType::Byte(LoadByteTarget::HL, LoadByteSource::A))),
            0x78 => Some(Instruction::LD(LoadType::Byte(LoadByteTarget::A, LoadByteSource::B))),
            0x79 => Some(Instruction::LD(LoadType::Byte(LoadByteTarget::A, LoadByteSource::C))),
            0x7A => Some(Instruction::LD(LoadType::Byte(LoadByteTarget::A, LoadByteSource::D))),
            0x7B => Some(Instruction::LD(LoadType::Byte(LoadByteTarget::A, LoadByteSource::E))),
            0x7C => Some(Instruction::LD(LoadType::Byte(LoadByteTarget::A, LoadByteSource::H))),
            0x7D => Some(Instruction::LD(LoadType::Byte(LoadByteTarget::A, LoadByteSource::L))),
            0x7E => Some(Instruction::LD(LoadType::Byte(LoadByteTarget::A, LoadByteSource::HL))),
            0x7F => Some(Instruction::LD(LoadType::Byte(LoadByteTarget::A, LoadByteSource::A))),
            // word loads
            0x01 => Some(Instruction::LD(LoadType::Word(LoadWordTarget::BC, LoadWordSource::N16))),
            0x08 => Some(Instruction::LD(LoadType::Word(LoadWordTarget::A16, LoadWordSource::SP))),
            0x11 => Some(Instruction::LD(LoadType::Word(LoadWordTarget::DE, LoadWordSource::N16))),
            0x21 => Some(Instruction::LD(LoadType::Word(LoadWordTarget::HL, LoadWordSource::N16))),
            0x31 => Some(Instruction::LD(LoadType::Word(LoadWordTarget::SP, LoadWordSource::N16))),
            // loads through HL with post-increment or post-decrement
            0x22 => Some(Instruction::LD(LoadType::AddressIncDec(LoadIncDecTarget::HL, LoadIncDecSource::A, AddressMode::Inc))),
            0x2A => Some(Instruction::LD(LoadType::AddressIncDec(LoadIncDecTarget::A, LoadIncDecSource::HL, AddressMode::Inc))),
            0x32 => Some(Instruction::LD(LoadType::AddressIncDec(LoadIncDecTarget::HL, LoadIncDecSource::A, AddressMode::Dec))),
            0x3A => Some(Instruction::LD(LoadType::AddressIncDec(LoadIncDecTarget::A, LoadIncDecSource::HL, AddressMode::Dec))),
            // 8-bit increment
            0x04 => Some(Instruction::INC(ArithmeticTarget::B)),
            0x0C => Some(Instruction::INC(ArithmeticTarget::C)),
            0x14 => Some(Instruction::INC(ArithmeticTarget::D)),
            0x1C => Some(Instruction::INC(ArithmeticTarget::E)),
            0x24 => Some(Instruction::INC(ArithmeticTarget::H)),
            0x2C => Some(Instruction::INC(ArithmeticTarget::L)),
            0x34 => Some(Instruction::INC(ArithmeticTarget::HL)),
            0x3C => Some(Instruction::INC(ArithmeticTarget::A)),
            // 8-bit decrement
            0x05 => Some(Instruction::DEC(ArithmeticTarget::B)),
            0x0D => Some(Instruction::DEC(ArithmeticTarget::C)),
            0x15 => Some(Instruction::DEC(ArithmeticTarget::D)),
            0x1D => Some(Instruction::DEC(ArithmeticTarget::E)),
            0x25 => Some(Instruction::DEC(ArithmeticTarget::H)),
            0x2D => Some(Instruction::DEC(ArithmeticTarget::L)),
            0x35 => Some(Instruction::DEC(ArithmeticTarget::HL)),
            0x3D => Some(Instruction::DEC(ArithmeticTarget::A)),
            // 16-bit increment
            0x03 => Some(Instruction::INC16(ArithmeticTarget::BC)),
            0x13 => Some(Instruction::INC16(ArithmeticTarget::DE)),
            0x23 => Some(Instruction::INC16(ArithmeticTarget::HL)),
            0x33 => Some(Instruction::INC16(ArithmeticTarget::SP)),
            // 16-bit decrement
            0x0B => Some(Instruction::DEC16(ArithmeticTarget::BC)),
            0x1B => Some(Instruction::DEC16(ArithmeticTarget::DE)),
            0x2B => Some(Instruction::DEC16(ArithmeticTarget::HL)),
            0x3B => Some(Instruction::DEC16(ArithmeticTarget::SP)),
            // 16-bit add into HL
            0x09 => Some(Instruction::ADDHL(ArithmeticTarget::BC)),
            0x19 => Some(Instruction::ADDHL(ArithmeticTarget::DE)),
            0x29 => Some(Instruction::ADDHL(ArithmeticTarget::HL)),
            0x39 => Some(Instruction::ADDHL(ArithmeticTarget::SP)),
            // ADD
            0x80 => Some(Instruction::ADD(ArithmeticTarget::B)),
            0x81 => Some(Instruction::ADD(ArithmeticTarget::C)),
            0x82 => Some(Instruction::ADD(ArithmeticTarget::D)),
            0x83 => Some(Instruction::ADD(ArithmeticTarget::E)),
            0x84 => Some(Instruction::ADD(ArithmeticTarget::H)),
            0x85 => Some(Instruction::ADD(ArithmeticTarget::L)),
            0x86 => Some(Instruction::ADD(ArithmeticTarget::HL)),
            0x87 => Some(Instruction::ADD(ArithmeticTarget::A)),
            0xC6 => Some(Instruction::ADD(ArithmeticTarget::N8)),
            // ADC
            0x88 => Some(Instruction::ADC(ArithmeticTarget::B)),
            0x89 => Some(Instruction::ADC(ArithmeticTarget::C)),
            0x8A => Some(Instruction::ADC(ArithmeticTarget::D)),
            0x8B => Some(Instruction::ADC(ArithmeticTarget::E)),
            0x8C => Some(Instruction::ADC(ArithmeticTarget::H)),
            0x8D => Some(Instruction::ADC(ArithmeticTarget::L)),
            0x8E => Some(Instruction::ADC(ArithmeticTarget::HL)),
            0x8F => Some(Instruction::ADC(ArithmeticTarget::A)),
            0xCE => Some(Instruction::ADC(ArithmeticTarget::N8)),
            // SUB
            0x90 => Some(Instruction::SUB(ArithmeticTarget::B)),
            0x91 => Some(Instruction::SUB(ArithmeticTarget::C)),
            0x92 => Some(Instruction::SUB(ArithmeticTarget::D)),
            0x93 => Some(Instruction::SUB(ArithmeticTarget::E)),
            0x94 => Some(Instruction::SUB(ArithmeticTarget::H)),
            0x95 => Some(Instruction::SUB(ArithmeticTarget::L)),
            0x96 => Some(Instruction::SUB(ArithmeticTarget::HL)),
            0x97 => Some(Instruction::SUB(ArithmeticTarget::A)),
            0xD6 => Some(Instruction::SUB(ArithmeticTarget::N8)),
            // SBC
            0x98 => Some(Instruction::SBC(ArithmeticTarget::B)),
            0x99 => Some(Instruction::SBC(ArithmeticTarget::C)),
            0x9A => Some(Instruction::SBC(ArithmeticTarget::D)),
            0x9B => Some(Instruction::SBC(ArithmeticTarget::E)),
            0x9C => Some(Instruction::SBC(ArithmeticTarget::H)),
            0x9D => Some(Instruction::SBC(ArithmeticTarget::L)),
            0x9E => Some(Instruction::SBC(ArithmeticTarget::HL)),
            0x9F => Some(Instruction::SBC(ArithmeticTarget::A)),
            0xDE => Some(Instruction::SBC(ArithmeticTarget::N8)),
            // AND
            0xA0 => Some(Instruction::AND(ArithmeticTarget::B)),
            0xA1 => Some(Instruction::AND(ArithmeticTarget::C)),
            0xA2 => Some(Instruction::AND(ArithmeticTarget::D)),
            0xA3 => Some(Instruction::AND(ArithmeticTarget::E)),
            0xA4 => Some(Instruction::AND(ArithmeticTarget::H)),
            0xA5 => Some(Instruction::AND(ArithmeticTarget::L)),
            0xA6 => Some(Instruction::AND(ArithmeticTarget::HL)),
            0xA7 => Some(Instruction::AND(ArithmeticTarget::A)),
            0xE6 => Some(Instruction::AND(ArithmeticTarget::N8)),
            // XOR
            0xA8 => Some(Instruction::XOR(ArithmeticTarget::B)),
            0xA9 => Some(Instruction::XOR(ArithmeticTarget::C)),
            0xAA => Some(Instruction::XOR(ArithmeticTarget::D)),
            0xAB => Some(Instruction::XOR(ArithmeticTarget::E)),
            0xAC => Some(Instruction::XOR(ArithmeticTarget::H)),
            0xAD => Some(Instruction::XOR(ArithmeticTarget::L)),
            0xAE => Some(Instruction::XOR(ArithmeticTarget::HL)),
            0xAF => Some(Instruction::XOR(ArithmeticTarget::A)),
            0xEE => Some(Instruction::XOR(ArithmeticTarget::N8)),
            // OR
            0xB0 => Some(Instruction::OR(ArithmeticTarget::B)),
            0xB1 => Some(Instruction::OR(ArithmeticTarget::C)),
            0xB2 => Some(Instruction::OR(ArithmeticTarget::D)),
            0xB3 => Some(Instruction::OR(ArithmeticTarget::E)),
            0xB4 => Some(Instruction::OR(ArithmeticTarget::H)),
            0xB5 => Some(Instruction::OR(ArithmeticTarget::L)),
            0xB6 => Some(Instruction::OR(ArithmeticTarget::HL)),
            0xB7 => Some(Instruction::OR(ArithmeticTarget::A)),
            0xF6 => Some(Instruction::OR(ArithmeticTarget::N8)),
            // CP
            0xB8 => Some(Instruction::CP(ArithmeticTarget::B)),
            0xB9 => Some(Instruction::CP(ArithmeticTarget::C)),
            0xBA => Some(Instruction::CP(ArithmeticTarget::D)),
            0xBB => Some(Instruction::CP(ArithmeticTarget::E)),
            0xBC => Some(Instruction::CP(ArithmeticTarget::H)),
            0xBD => Some(Instruction::CP(ArithmeticTarget::L)),
            0xBE => Some(Instruction::CP(ArithmeticTarget::HL)),
            0xBF => Some(Instruction::CP(ArithmeticTarget::A)),
            0xFE => Some(Instruction::CP(ArithmeticTarget::N8)),
            // stack
            0xC1 => Some(Instruction::POP(StackTarget::BC)),
            0xD1 => Some(Instruction::POP(StackTarget::DE)),
            0xE1 => Some(Instruction::POP(StackTarget::HL)),
            0xF1 => Some(Instruction::POP(StackTarget::AF)),
            0xC5 => Some(Instruction::PUSH(StackTarget::BC)),
            0xD5 => Some(Instruction::PUSH(StackTarget::DE)),
            0xE5 => Some(Instruction::PUSH(StackTarget::HL)),
            0xF5 => Some(Instruction::PUSH(StackTarget::AF)),
            // jumps
            0xC2 => Some(Instruction::JP(JumpTest::NotZero)),
            0xC3 => Some(Instruction::JP(JumpTest::Always)),
            0xCA => Some(Instruction::JP(JumpTest::Zero)),
            0xD2 => Some(Instruction::JP(JumpTest::NotCarry)),
            0xDA => Some(Instruction::JP(JumpTest::Carry)),
            0x18 => Some(Instruction::JR(JumpTest::Always)),
            0x20 => Some(Instruction::JR(JumpTest::NotZero)),
            0x28 => Some(Instruction::JR(JumpTest::Zero)),
            0x30 => Some(Instruction::JR(JumpTest::NotCarry)),
            0x38 => Some(Instruction::JR(JumpTest::Carry)),
            0xE9 => Some(Instruction::JPHL()),
            // accumulator rotates and flag operations
            0x07 => Some(Instruction::RLCA()),
            0x0F => Some(Instruction::RRCA()),
            0x17 => Some(Instruction::RLA()),
            0x1F => Some(Instruction::RRA()),
            0x2F => Some(Instruction::CPL()),
            0x37 => Some(Instruction::SCF()),
            0x3F => Some(Instruction::CCF()),
            _ => None,
        }
    }

    /// Looks `byte` up in the extended table, which has an entry for every
    /// byte.
    pub fn from_byte_prefixed(byte: u8) -> (instruction: Option<Instruction>)
        ensures
            instruction == Some(prefixed_entry(byte)),
    {
        proof {
            lemma_octal_digits(byte);
        }
        let target = match byte & 0x07 {
            0 => PrefixedTarget::B,
            1 => PrefixedTarget::C,
            2 => PrefixedTarget::D,
            3 => PrefixedTarget::E,
            4 => PrefixedTarget::H,
            5 => PrefixedTarget::L,
            6 => PrefixedTarget::HL,
            _ => PrefixedTarget::A,
        };
        let y: u8 = (byte >> 3) & 0x07;
        let instruction = match byte >> 6 {
            0 => match y {
                0 => Instruction::RLC(target),
                1 => Instruction::RRC(target),
                2 => Instruction::RL(target),
                3 => Instruction::RR(target),
                4 => Instruction::SLA(target),
                5 => Instruction::SRA(target),
                6 => Instruction::SWAP(target),
                _ => Instruction::SRL(target),
            },
            1 => Instruction::BIT(y, target),
            2 => Instruction::RES(y, target),
            _ => Instruction::SET(y, target),
        };
        Some(instruction)
    }
}

/// What `decode` returns for `byte` given the table's `entry` for it.
pub open spec fn decode_outcome(byte: u8, extended: bool, entry: Option<Instruction>) -> Result<
    Instruction,
    CpuError,
> {
    match entry {
        Some(instruction) => Ok(instruction),
        None => Err(CpuError::UnimplementedOpcode { byte, extended }),
    }
}

/// Shifts and masks read the octal digits of a byte.
proof fn lemma_octal_digits(byte: u8)
    by (bit_vector)
    ensures
        byte >> 6u8 == byte / 64,
        (byte >> 3u8) & 0x07 == byte / 8 % 8,
        byte & 0x07 == byte % 8,
{
}

/// Every entry of either table carries operands that its family takes, and
/// occupies one, two or three bytes; an entry of the extended table occupies
/// two, the prefix counted.
pub proof fn lemma_table_entries_fit(byte: u8, prefixed: bool)
    ensures
        table_entry(byte, prefixed) matches Some(instruction) ==> {
            &&& instruction.operands_fit()
            &&& 1 <= instruction.length() <= 3
            &&& prefixed ==> instruction.length() == 2
        },
{
}

} // verus!
