//! Instruction values and the decoder: a pure table lookup from an opcode
//! byte to a structured instruction, for the base table and the CB-prefixed
//! table.  Opcodes outside the tables decode to `None`; the caller treats
//! that as a fatal condition for the instruction stream.
use vstd::prelude::*;

verus! {

/// An 8-bit arithmetic or rotate operand.
#[derive(Copy, Clone, Debug, PartialEq, Eq)]
pub enum ArithmeticTarget {
    A,
    B,
    C,
    D,
    E,
    H,
    L,
    HLI,
    D8,
}

/// A 16-bit arithmetic operand.
#[derive(Copy, Clone, Debug, PartialEq, Eq)]
pub enum Add16Target {
    BC,
    DE,
    HL,
    SP,
}

/// A 16-bit register pair.
#[derive(Copy, Clone, Debug, PartialEq, Eq)]
pub enum BigRegisterTarget {
    AF,
    BC,
    DE,
    HL,
}

/// A condition for the control-flow instructions.
#[derive(Copy, Clone, Debug, PartialEq, Eq)]
pub enum JumpTest {
    NotZero,
    Zero,
    NotCarry,
    Carry,
    Always,
}

/// Where an 8-bit load writes.
#[derive(Copy, Clone, Debug, PartialEq, Eq)]
pub enum LoadByteTarget {
    A,
    B,
    C,
    D,
    E,
    H,
    L,
    HLI,
}

/// Where an 8-bit load reads.
#[derive(Copy, Clone, Debug, PartialEq, Eq)]
pub enum LoadByteSource {
    A,
    B,
    C,
    D,
    E,
    H,
    L,
    D8,
    HLI,
}

/// Where a 16-bit immediate load writes.
#[derive(Copy, Clone, Debug, PartialEq, Eq)]
pub enum BigLoadByteTarget {
    AF,
    BC,
    DE,
    HL,
    SP,
}

/// A 16-bit register pair read by a load.
#[derive(Copy, Clone, Debug, PartialEq, Eq)]
pub enum BigLoadByteSource {
    AF,
    BC,
    DE,
    HL,
}

/// The load forms.
#[derive(Copy, Clone, Debug, PartialEq, Eq)]
pub enum LoadType {
    R8ToR8(LoadByteTarget, LoadByteSource),
    D16toR16(BigLoadByteTarget),
    HLtoSP,
    SPtoA16,
    R16toSP(BigRegisterTarget),
    SP8toHL,
}

/// A stack operand.
#[derive(Copy, Clone, Debug, PartialEq, Eq)]
pub enum StackTargets {
    AF,
    BC,
    DE,
    HL,
}

/// One decoded instruction, consumed immediately by the execution engine.
#[derive(Copy, Clone, Debug, PartialEq, Eq)]
pub enum Instruction {
    ADD(ArithmeticTarget),
    ADD16(Add16Target),
    SUB(ArithmeticTarget),
    ADC(ArithmeticTarget),
    SBC(ArithmeticTarget),
    INC(ArithmeticTarget),
    DEC(ArithmeticTarget),
    INC16(Add16Target),
    DEC16(Add16Target),
    JP(JumpTest),
    JR(JumpTest),
    LD(LoadType),
    PUSH(StackTargets),
    POP(StackTargets),
    XOR(ArithmeticTarget),
    CP(ArithmeticTarget),
    AND(ArithmeticTarget),
    OR(ArithmeticTarget),
    CALL(JumpTest),
    RET(JumpTest),
    RLCA(ArithmeticTarget),
    RLA(ArithmeticTarget),
    RRCA(ArithmeticTarget),
    RRA(ArithmeticTarget),
    DAA,
    CPL,
    SCF,
    CCF,
    NOP,
    HALT,
}

/// The base opcode table as a function: what `decode` returns for an
/// unprefixed byte.  Marked opaque: callers reason through `decode`'s
/// contract, and reveal the table only to look an entry up.
#[verifier::opaque]
pub open spec fn spec_decode_base(byte: u8) -> Option<Instruction> {
    match byte {
        0x00 => Some(Instruction::NOP),
        0x01 => Some(Instruction::LD(LoadType::D16toR16(BigLoadByteTarget::BC))),
        0x03 => Some(Instruction::INC16(Add16Target::BC)),
        0x04 => Some(Instruction::INC(ArithmeticTarget::B)),
        0x05 => Some(Instruction::DEC(ArithmeticTarget::B)),
        0x06 => Some(Instruction::LD(LoadType::R8ToR8(LoadByteTarget::B, LoadByteSource::D8))),
        0x07 => Some(Instruction::RLCA(ArithmeticTarget::A)),
        0x08 => Some(Instruction::LD(LoadType::SPtoA16)),
        0x09 => Some(Instruction::ADD16(Add16Target::BC)),
        0x0B => Some(Instruction::DEC16(Add16Target::BC)),
        0x0C => Some(Instruction::INC(ArithmeticTarget::C)),
        0x0D => Some(Instruction::DEC(ArithmeticTarget::C)),
        0x0E => Some(Instruction::LD(LoadType::R8ToR8(LoadByteTarget::C, LoadByteSource::D8))),
        0x0F => Some(Instruction::RRCA(ArithmeticTarget::A)),
        0x11 => Some(Instruction::LD(LoadType::D16toR16(BigLoadByteTarget::DE))),
        0x13 => Some(Instruction::INC16(Add16Target::DE)),
        0x14 => Some(Instruction::INC(ArithmeticTarget::D)),
        0x15 => Some(Instruction::DEC(ArithmeticTarget::D)),
        0x16 => Some(Instruction::LD(LoadType::R8ToR8(LoadByteTarget::D, LoadByteSource::D8))),
        0x17 => Some(Instruction::RLA(ArithmeticTarget::A)),
        0x18 => Some(Instruction::JR(JumpTest::Always)),
        0x19 => Some(Instruction::ADD16(Add16Target::DE)),
        0x1B => Some(Instruction::DEC16(Add16Target::DE)),
        0x1C => Some(Instruction::INC(ArithmeticTarget::E)),
        0x1D => Some(Instruction::DEC(ArithmeticTarget::E)),
        0x1E => Some(Instruction::LD(LoadType::R8ToR8(LoadByteTarget::E, LoadByteSource::D8))),
        0x1F => Some(Instruction::RRA(ArithmeticTarget::A)),
        0x20 => Some(Instruction::JR(JumpTest::NotZero)),
        0x21 => Some(Instruction::LD(LoadType::D16toR16(BigLoadByteTarget::HL))),
        0x23 => Some(Instruction::INC16(Add16Target::HL)),
        0x24 => Some(Instruction::INC(ArithmeticTarget::H)),
        0x25 => Some(Instruction::DEC(ArithmeticTarget::H)),
        0x26 => Some(Instruction::LD(LoadType::R8ToR8(LoadByteTarget::H, LoadByteSource::D8))),
        0x27 => Some(Instruction::DAA),
        0x28 => Some(Instruction::JR(JumpTest::Zero)),
        0x29 => Some(Instruction::ADD16(Add16Target::HL)),
        0x2B => Some(Instruction::DEC16(Add16Target::HL)),
        0x2C => Some(Instruction::INC(ArithmeticTarget::L)),
        0x2D => Some(Instruction::DEC(ArithmeticTarget::L)),
        0x2E => Some(Instruction::LD(LoadType::R8ToR8(LoadByteTarget::L, LoadByteSource::D8))),
        0x2F => Some(Instruction::CPL),
        0x30 => Some(Instruction::JR(JumpTest::NotCarry)),
        0x31 => Some(Instruction::LD(LoadType::D16toR16(BigLoadByteTarget::SP))),
        0x33 => Some(Instruction::INC16(Add16Target::SP)),
        0x34 => Some(Instruction::INC(ArithmeticTarget::HLI)),
        0x35 => Some(Instruction::DEC(ArithmeticTarget::HLI)),
        0x36 => Some(Instruction::LD(LoadType::R8ToR8(LoadByteTarget::HLI, LoadByteSource::D8))),
        0x37 => Some(Instruction::SCF),
        0x38 => Some(Instruction::JR(JumpTest::Carry)),
        0x39 => Some(Instruction::ADD16(Add16Target::SP)),
        0x3B => Some(Instruction::DEC16(Add16Target::SP)),
        0x3C => Some(Instruction::INC(ArithmeticTarget::A)),
        0x3D => Some(Instruction::DEC(ArithmeticTarget::A)),
        0x3E => Some(Instruction::LD(LoadType::R8ToR8(LoadByteTarget::A, LoadByteSource::D8))),
        0x3F => Some(Instruction::CCF),
        0x40 => Some(Instruction::LD(LoadType::R8ToR8(LoadByteTarget::B, LoadByteSource::B))),
        0x41 => Some(Instruction::LD(LoadType::R8ToR8(LoadByteTarget::B, LoadByteSource::C))),
        0x42 => Some(Instruction::LD(LoadType::R8ToR8(LoadByteTarget::B, LoadByteSource::D))),
        0x43 => Some(Instruction::LD(LoadType::R8ToR8(LoadByteTarget::B, LoadByteSource::E))),
        0x44 => Some(Instruction::LD(LoadType::R8ToR8(LoadByteTarget::B, LoadByteSource::H))),
        0x45 => Some(Instruction::LD(LoadType::R8ToR8(LoadByteTarget::B, LoadByteSource::L))),
        0x46 => Some(Instruction::LD(LoadType::R8ToR8(LoadByteTarget::B, LoadByteSource::HLI))),
        0x47 => Some(Instruction::LD(LoadType::R8ToR8(LoadByteTarget::B, LoadByteSource::A))),
        0x48 => Some(Instruction::LD(LoadType::R8ToR8(LoadByteTarget::C, LoadByteSource::B))),
        0x49 => Some(Instruction::LD(LoadType::R8ToR8(LoadByteTarget::C, LoadByteSource::C))),
        0x4A => Some(Instruction::LD(LoadType::R8ToR8(LoadByteTarget::C, LoadByteSource::D))),
        0x4B => Some(Instruction::LD(LoadType::R8ToR8(LoadByteTarget::C, LoadByteSource::E))),
        0x4C => Some(Instruction::LD(LoadType::R8ToR8(LoadByteTarget::C, LoadByteSource::H))),
        0x4D => Some(Instruction::LD(LoadType::R8ToR8(LoadByteTarget::C, LoadByteSource::L))),
        0x4E => Some(Instruction::LD(LoadType::R8ToR8(LoadByteTarget::C, LoadByteSource::HLI))),
        0x4F => Some(Instruction::LD(LoadType::R8ToR8(LoadByteTarget::C, LoadByteSource::A))),
        0x50 => Some(Instruction::LD(LoadType::R8ToR8(LoadByteTarget::D, LoadByteSource::B))),
        0x51 => Some(Instruction::LD(LoadType::R8ToR8(LoadByteTarget::D, LoadByteSource::C))),
        0x52 => Some(Instruction::LD(LoadType::R8ToR8(LoadByteTarget::D, LoadByteSource::D))),
        0x53 => Some(Instruction::LD(LoadType::R8ToR8(LoadByteTarget::D, LoadByteSource::E))),
        0x54 => Some(Instruction::LD(LoadType::R8ToR8(LoadByteTarget::D, LoadByteSource::H))),
        0x55 => Some(Instruction::LD(LoadType::R8ToR8(LoadByteTarget::D, LoadByteSource::L))),
        0x56 => Some(Instruction::LD(LoadType::R8ToR8(LoadByteTarget::D, LoadByteSource::HLI))),
        0x57 => Some(Instruction::LD(LoadType::R8ToR8(LoadByteTarget::D, LoadByteSource::A))),
        0x58 => Some(Instruction::LD(LoadType::R8ToR8(LoadByteTarget::E, LoadByteSource::B))),
        0x59 => Some(Instruction::LD(LoadType::R8ToR8(LoadByteTarget::E, LoadByteSource::C))),
        0x5A => Some(Instruction::LD(LoadType::R8ToR8(LoadByteTarget::E, LoadByteSource::D))),
        0x5B => Some(Instruction::LD(LoadType::R8ToR8(LoadByteTarget::E, LoadByteSource::E))),
        0x5C => Some(Instruction::LD(LoadType::R8ToR8(LoadByteTarget::E, LoadByteSource::H))),
        0x5D => Some(Instruction::LD(LoadType::R8ToR8(LoadByteTarget::E, LoadByteSource::L))),
        0x5E => Some(Instruction::LD(LoadType::R8ToR8(LoadByteTarget::E, LoadByteSource::HLI))),
        0x5F => Some(Instruction::LD(LoadType::R8ToR8(LoadByteTarget::E, LoadByteSource::A))),
        0x60 => Some(Instruction::LD(LoadType::R8ToR8(LoadByteTarget::H, LoadByteSource::B))),
        0x61 => Some(Instruction::LD(LoadType::R8ToR8(LoadByteTarget::H, LoadByteSource::C))),
        0x62 => Some(Instruction::LD(LoadType::R8ToR8(LoadByteTarget::H, LoadByteSource::D))),
        0x63 => Some(Instruction::LD(LoadType::R8ToR8(LoadByteTarget::H, LoadByteSource::E))),
        0x64 => Some(Instruction::LD(LoadType::R8ToR8(LoadByteTarget::H, LoadByteSource::H))),
        0x65 => Some(Instruction::LD(LoadType::R8ToR8(LoadByteTarget::H, LoadByteSource::L))),
        0x66 => Some(Instruction::LD(LoadType::R8ToR8(LoadByteTarget::H, LoadByteSource::HLI))),
        0x67 => Some(Instruction::LD(LoadType::R8ToR8(LoadByteTarget::H, LoadByteSource::A))),
        0x68 => Some(Instruction::LD(LoadType::R8ToR8(LoadByteTarget::L, LoadByteSource::B))),
        0x69 => Some(Instruction::LD(LoadType::R8ToR8(LoadByteTarget::L, LoadByteSource::C))),
        0x6A => Some(Instruction::LD(LoadType::R8ToR8(LoadByteTarget::L, LoadByteSource::D))),
        0x6B => Some(Instruction::LD(LoadType::R8ToR8(LoadByteTarget::L, LoadByteSource::E))),
        0x6C => Some(Instruction::LD(LoadType::R8ToR8(LoadByteTarget::L, LoadByteSource::H))),
        0x6D => Some(Instruction::LD(LoadType::R8ToR8(LoadByteTarget::L, LoadByteSource::L))),
        0x6E => Some(Instruction::LD(LoadType::R8ToR8(LoadByteTarget::L, LoadByteSource::HLI))),
        0x6F => Some(Instruction::LD(LoadType::R8ToR8(LoadByteTarget::L, LoadByteSource::A))),
        0x70 => Some(Instruction::LD(LoadType::R8ToR8(LoadByteTarget::HLI, LoadByteSource::B))),
        0x71 => Some(Instruction::LD(LoadType::R8ToR8(LoadByteTarget::HLI, LoadByteSource::C))),
        0x72 => Some(Instruction::LD(LoadType::R8ToR8(LoadByteTarget::HLI, LoadByteSource::D))),
        0x73 => Some(Instruction::LD(LoadType::R8ToR8(LoadByteTarget::HLI, LoadByteSource::E))),
        0x74 => Some(Instruction::LD(LoadType::R8ToR8(LoadByteTarget::HLI, LoadByteSource::H))),
        0x75 => Some(Instruction::LD(LoadType::R8ToR8(LoadByteTarget::HLI, LoadByteSource::L))),
        0x76 => Some(Instruction::HALT),
        0x77 => Some(Instruction::LD(LoadType::R8ToR8(LoadByteTarget::HLI, LoadByteSource::A))),
        0x78 => Some(Instruction::LD(LoadType::R8ToR8(LoadByteTarget::A, LoadByteSource::B))),
        0x79 => Some(Instruction::LD(LoadType::R8ToR8(LoadByteTarget::A, LoadByteSource::C))),
        0x7A => Some(Instruction::LD(LoadType::R8ToR8(LoadByteTarget::A, LoadByteSource::D))),
        0x7B => Some(Instruction::LD(LoadType::R8ToR8(LoadByteTarget::A, LoadByteSource::E))),
        0x7C => Some(Instruction::LD(LoadType::R8ToR8(LoadByteTarget::A, LoadByteSource::H))),
        0x7D => Some(Instruction::LD(LoadType::R8ToR8(LoadByteTarget::A, LoadByteSource::L))),
        0x7E => Some(Instruction::LD(LoadType::R8ToR8(LoadByteTarget::A, LoadByteSource::HLI))),
        0x7F => Some(Instruction::LD(LoadType::R8ToR8(LoadByteTarget::A, LoadByteSource::A))),
        0x80 => Some(Instruction::ADD(ArithmeticTarget::B)),
        0x81 => Some(Instruction::ADD(ArithmeticTarget::C)),
        0x82 => Some(Instruction::ADD(ArithmeticTarget::D)),
        0x83 => Some(Instruction::ADD(ArithmeticTarget::E)),
        0x84 => Some(Instruction::ADD(ArithmeticTarget::H)),
        0x85 => Some(Instruction::ADD(ArithmeticTarget::L)),
        0x86 => Some(Instruction::ADD(ArithmeticTarget::HLI)),
        0x87 => Some(Instruction::ADD(ArithmeticTarget::A)),
        0x88 => Some(Instruction::ADC(ArithmeticTarget::B)),
        0x89 => Some(Instruction::ADC(ArithmeticTarget::C)),
        0x8A => Some(Instruction::ADC(ArithmeticTarget::D)),
        0x8B => Some(Instruction::ADC(ArithmeticTarget::E)),
        0x8C => Some(Instruction::ADC(ArithmeticTarget::H)),
        0x8D => Some(Instruction::ADC(ArithmeticTarget::L)),
        0x8E => Some(Instruction::ADC(ArithmeticTarget::HLI)),
        0x8F => Some(Instruction::ADC(ArithmeticTarget::A)),
        0x90 => Some(Instruction::SUB(ArithmeticTarget::B)),
        0x91 => Some(Instruction::SUB(ArithmeticTarget::C)),
        0x92 => Some(Instruction::SUB(ArithmeticTarget::D)),
        0x93 => Some(Instruction::SUB(ArithmeticTarget::E)),
        0x94 => Some(Instruction::SUB(ArithmeticTarget::H)),
        0x95 => Some(Instruction::SUB(ArithmeticTarget::L)),
        0x96 => Some(Instruction::SUB(ArithmeticTarget::HLI)),
        0x97 => Some(Instruction::SUB(ArithmeticTarget::A)),
        0x98 => Some(Instruction::SBC(ArithmeticTarget::B)),
        0x99 => Some(Instruction::SBC(ArithmeticTarget::C)),
        0x9A => Some(Instruction::SBC(ArithmeticTarget::D)),
        0x9B => Some(Instruction::SBC(ArithmeticTarget::E)),
        0x9C => Some(Instruction::SBC(ArithmeticTarget::H)),
        0x9D => Some(Instruction::SBC(ArithmeticTarget::L)),
        0x9E => Some(Instruction::SBC(ArithmeticTarget::HLI)),
        0x9F => Some(Instruction::SBC(ArithmeticTarget::A)),
        0xA0 => Some(Instruction::AND(ArithmeticTarget::B)),
        0xA1 => Some(Instruction::AND(ArithmeticTarget::C)),
        0xA2 => Some(Instruction::AND(ArithmeticTarget::D)),
        0xA3 => Some(Instruction::AND(ArithmeticTarget::E)),
        0xA4 => Some(Instruction::AND(ArithmeticTarget::H)),
        0xA5 => Some(Instruction::AND(ArithmeticTarget::L)),
        0xA6 => Some(Instruction::AND(ArithmeticTarget::HLI)),
        0xA7 => Some(Instruction::AND(ArithmeticTarget::A)),
        0xA8 => Some(Instruction::XOR(ArithmeticTarget::B)),
        0xA9 => Some(Instruction::XOR(ArithmeticTarget::C)),
        0xAA => Some(Instruction::XOR(ArithmeticTarget::D)),
        0xAB => Some(Instruction::XOR(ArithmeticTarget::E)),
        0xAC => Some(Instruction::XOR(ArithmeticTarget::H)),
        0xAD => Some(Instruction::XOR(ArithmeticTarget::L)),
        0xAE => Some(Instruction::XOR(ArithmeticTarget::HLI)),
        0xAF => Some(Instruction::XOR(ArithmeticTarget::A)),
        0xB0 => Some(Instruction::OR(ArithmeticTarget::B)),
        0xB1 => Some(Instruction::OR(ArithmeticTarget::C)),
        0xB2 => Some(Instruction::OR(ArithmeticTarget::D)),
        0xB3 => Some(Instruction::OR(ArithmeticTarget::E)),
        0xB4 => Some(Instruction::OR(ArithmeticTarget::H)),
        0xB5 => Some(Instruction::OR(ArithmeticTarget::L)),
        0xB6 => Some(Instruction::OR(ArithmeticTarget::HLI)),
        0xB7 => Some(Instruction::OR(ArithmeticTarget::A)),
        0xB8 => Some(Instruction::CP(ArithmeticTarget::B)),
        0xB9 => Some(Instruction::CP(ArithmeticTarget::C)),
        0xBA => Some(Instruction::CP(ArithmeticTarget::D)),
        0xBB => Some(Instruction::CP(ArithmeticTarget::E)),
        0xBC => Some(Instruction::CP(ArithmeticTarget::H)),
        0xBD => Some(Instruction::CP(ArithmeticTarget::L)),
        0xBE => Some(Instruction::CP(ArithmeticTarget::HLI)),
        0xBF => Some(Instruction::CP(ArithmeticTarget::A)),
        0xC0 => Some(Instruction::RET(JumpTest::NotZero)),
        0xC1 => Some(Instruction::POP(StackTargets::BC)),
        0xC2 => Some(Instruction::JP(JumpTest::NotZero)),
        0xC3 => Some(Instruction::JP(JumpTest::Always)),
        0xC4 => Some(Instruction::CALL(JumpTest::NotZero)),
        0xC5 => Some(Instruction::PUSH(StackTargets::BC)),
        0xC6 => Some(Instruction::ADD(ArithmeticTarget::D8)),
        0xC8 => Some(Instruction::RET(JumpTest::Zero)),
        0xC9 => Some(Instruction::RET(JumpTest::Always)),
        0xCA => Some(Instruction::JP(JumpTest::Zero)),
        0xCC => Some(Instruction::CALL(JumpTest::Zero)),
        0xCD => Some(Instruction::CALL(JumpTest::Always)),
        0xCE => Some(Instruction::ADC(ArithmeticTarget::D8)),
        0xD0 => Some(Instruction::RET(JumpTest::NotCarry)),
        0xD1 => Some(Instruction::POP(StackTargets::DE)),
        0xD2 => Some(Instruction::JP(JumpTest::NotCarry)),
        0xD4 => Some(Instruction::CALL(JumpTest::NotCarry)),
        0xD5 => Some(Instruction::PUSH(StackTargets::DE)),
        0xD6 => Some(Instruction::SUB(ArithmeticTarget::D8)),
        0xD8 => Some(Instruction::RET(JumpTest::Carry)),
        0xDA => Some(Instruction::JP(JumpTest::Carry)),
        0xDC => Some(Instruction::CALL(JumpTest::Carry)),
        0xDE => Some(Instruction::SBC(ArithmeticTarget::D8)),
        0xE1 => Some(Instruction::POP(StackTargets::HL)),
        0xE5 => Some(Instruction::PUSH(StackTargets::HL)),
        0xE6 => Some(Instruction::AND(ArithmeticTarget::D8)),
        0xEE => Some(Instruction::XOR(ArithmeticTarget::D8)),
        0xF1 => Some(Instruction::POP(StackTargets::AF)),
        0xF5 => Some(Instruction::PUSH(StackTargets::AF)),
        0xF6 => Some(Instruction::OR(ArithmeticTarget::D8)),
        0xF8 => Some(Instruction::LD(LoadType::SP8toHL)),
        0xF9 => Some(Instruction::LD(LoadType::HLtoSP)),
        0xFE => Some(Instruction::CP(ArithmeticTarget::D8)),
        _ => None,
    }
}

/// The CB-prefixed opcode table as a function.  It maps a single opcode; the
/// rest of the CB space is left undecoded on purpose.
pub open spec fn spec_decode_cb(byte: u8) -> Option<Instruction> {
    match byte {
        0xC9 => Some(Instruction::RET(JumpTest::Always)),
        _ => None,
    }
}

/// What `decode` returns: the two tables are disjoint opcode spaces selected
/// by the prefix flag.
pub open spec fn spec_decode(byte: u8, prefixed: bool) -> Option<Instruction> {
    if prefixed {
        spec_decode_cb(byte)
    } else {
        spec_decode_base(byte)
    }
}

impl Instruction {
    /// Decodes one opcode byte.  A pure lookup: the result is a function of
    /// the two arguments alone, so repeated calls on the same input return
    /// the same instruction.
    pub fn decode(byte: u8, prefixed: bool) -> (r: Option<Instruction>)
        ensures
            r == spec_decode(byte, prefixed),
    {
        if prefixed {
            Self::decode_cb(byte)
        } else {
            Self::decode_base(byte)
        }
    }

    fn decode_cb(byte: u8) -> (r: Option<Instruction>)
        ensures
            r == spec_decode_cb(byte),
    {
        match byte {
            0xC9 => Some(Instruction::RET(JumpTest::Always)),
            _ => None,
        }
    }

    fn decode_base(byte: u8) -> (r: Option<Instruction>)
        ensures
            r == spec_decode_base(byte),
    {
        proof {
            reveal(spec_decode_base);
        }
        match byte {
        0x00 => Some(Instruction::NOP),
        0x01 => Some(Instruction::LD(LoadType::D16toR16(BigLoadByteTarget::BC))),
        0x03 => Some(Instruction::INC16(Add16Target::BC)),
        0x04 => Some(Instruction::INC(ArithmeticTarget::B)),
        0x05 => Some(Instruction::DEC(ArithmeticTarget::B)),
        0x06 => Some(Instruction::LD(LoadType::R8ToR8(LoadByteTarget::B, LoadByteSource::D8))),
        0x07 => Some(Instruction::RLCA(ArithmeticTarget::A)),
        0x08 => Some(Instruction::LD(LoadType::SPtoA16)),
        0x09 => Some(Instruction::ADD16(Add16Target::BC)),
        0x0B => Some(Instruction::DEC16(Add16Target::BC)),
        0x0C => Some(Instruction::INC(ArithmeticTarget::C)),
        0x0D => Some(Instruction::DEC(ArithmeticTarget::C)),
        0x0E => Some(Instruction::LD(LoadType::R8ToR8(LoadByteTarget::C, LoadByteSource::D8))),
        0x0F => Some(Instruction::RRCA(ArithmeticTarget::A)),
        0x11 => Some(Instruction::LD(LoadType::D16toR16(BigLoadByteTarget::DE))),
        0x13 => Some(Instruction::INC16(Add16Target::DE)),
        0x14 => Some(Instruction::INC(ArithmeticTarget::D)),
        0x15 => Some(Instruction::DEC(ArithmeticTarget::D)),
        0x16 => Some(Instruction::LD(LoadType::R8ToR8(LoadByteTarget::D, LoadByteSource::D8))),
        0x17 => Some(Instruction::RLA(ArithmeticTarget::A)),
        0x18 => Some(Instruction::JR(JumpTest::Always)),
        0x19 => Some(Instruction::ADD16(Add16Target::DE)),
        0x1B => Some(Instruction::DEC16(Add16Target::DE)),
        0x1C => Some(Instruction::INC(ArithmeticTarget::E)),
        0x1D => Some(Instruction::DEC(ArithmeticTarget::E)),
        0x1E => Some(Instruction::LD(LoadType::R8ToR8(LoadByteTarget::E, LoadByteSource::D8))),
        0x1F => Some(Instruction::RRA(ArithmeticTarget::A)),
        0x20 => Some(Instruction::JR(JumpTest::NotZero)),
        0x21 => Some(Instruction::LD(LoadType::D16toR16(BigLoadByteTarget::HL))),
        0x23 => Some(Instruction::INC16(Add16Target::HL)),
        0x24 => Some(Instruction::INC(ArithmeticTarget::H)),
        0x25 => Some(Instruction::DEC(ArithmeticTarget::H)),
        0x26 => Some(Instruction::LD(LoadType::R8ToR8(LoadByteTarget::H, LoadByteSource::D8))),
        0x27 => Some(Instruction::DAA),
        0x28 => Some(Instruction::JR(JumpTest::Zero)),
        0x29 => Some(Instruction::ADD16(Add16Target::HL)),
        0x2B => Some(Instruction::DEC16(Add16Target::HL)),
        0x2C => Some(Instruction::INC(ArithmeticTarget::L)),
        0x2D => Some(Instruction::DEC(ArithmeticTarget::L)),
        0x2E => Some(Instruction::LD(LoadType::R8ToR8(LoadByteTarget::L, LoadByteSource::D8))),
        0x2F => Some(Instruction::CPL),
        0x30 => Some(Instruction::JR(JumpTest::NotCarry)),
        0x31 => Some(Instruction::LD(LoadType::D16toR16(BigLoadByteTarget::SP))),
        0x33 => Some(Instruction::INC16(Add16Target::SP)),
        0x34 => Some(Instruction::INC(ArithmeticTarget::HLI)),
        0x35 => Some(Instruction::DEC(ArithmeticTarget::HLI)),
        0x36 => Some(Instruction::LD(LoadType::R8ToR8(LoadByteTarget::HLI, LoadByteSource::D8))),
        0x37 => Some(Instruction::SCF),
        0x38 => Some(Instruction::JR(JumpTest::Carry)),
        0x39 => Some(Instruction::ADD16(Add16Target::SP)),
        0x3B => Some(Instruction::DEC16(Add16Target::SP)),
        0x3C => Some(Instruction::INC(ArithmeticTarget::A)),
        0x3D => Some(Instruction::DEC(ArithmeticTarget::A)),
        0x3E => Some(Instruction::LD(LoadType::R8ToR8(LoadByteTarget::A, LoadByteSource::D8))),
        0x3F => Some(Instruction::CCF),
        0x40 => Some(Instruction::LD(LoadType::R8ToR8(LoadByteTarget::B, LoadByteSource::B))),
        0x41 => Some(Instruction::LD(LoadType::R8ToR8(LoadByteTarget::B, LoadByteSource::C))),
        0x42 => Some(Instruction::LD(LoadType::R8ToR8(LoadByteTarget::B, LoadByteSource::D))),
        0x43 => Some(Instruction::LD(LoadType::R8ToR8(LoadByteTarget::B, LoadByteSource::E))),
        0x44 => Some(Instruction::LD(LoadType::R8ToR8(LoadByteTarget::B, LoadByteSource::H))),
        0x45 => Some(Instruction::LD(LoadType::R8ToR8(LoadByteTarget::B, LoadByteSource::L))),
        0x46 => Some(Instruction::LD(LoadType::R8ToR8(LoadByteTarget::B, LoadByteSource::HLI))),
        0x47 => Some(Instruction::LD(LoadType::R8ToR8(LoadByteTarget::B, LoadByteSource::A))),
        0x48 => Some(Instruction::LD(LoadType::R8ToR8(LoadByteTarget::C, LoadByteSource::B))),
        0x49 => Some(Instruction::LD(LoadType::R8ToR8(LoadByteTarget::C, LoadByteSource::C))),
        0x4A => Some(Instruction::LD(LoadType::R8ToR8(LoadByteTarget::C, LoadByteSource::D))),
        0x4B => Some(Instruction::LD(LoadType::R8ToR8(LoadByteTarget::C, LoadByteSource::E))),
        0x4C => Some(Instruction::LD(LoadType::R8ToR8(LoadByteTarget::C, LoadByteSource::H))),
        0x4D => Some(Instruction::LD(LoadType::R8ToR8(LoadByteTarget::C, LoadByteSource::L))),
        0x4E => Some(Instruction::LD(LoadType::R8ToR8(LoadByteTarget::C, LoadByteSource::HLI))),
        0x4F => Some(Instruction::LD(LoadType::R8ToR8(LoadByteTarget::C, LoadByteSource::A))),
        0x50 => Some(Instruction::LD(LoadType::R8ToR8(LoadByteTarget::D, LoadByteSource::B))),
        0x51 => Some(Instruction::LD(LoadType::R8ToR8(LoadByteTarget::D, LoadByteSource::C))),
        0x52 => Some(Instruction::LD(LoadType::R8ToR8(LoadByteTarget::D, LoadByteSource::D))),
        0x53 => Some(Instruction::LD(LoadType::R8ToR8(LoadByteTarget::D, LoadByteSource::E))),
        0x54 => Some(Instruction::LD(LoadType::R8ToR8(LoadByteTarget::D, LoadByteSource::H))),
        0x55 => Some(Instruction::LD(LoadType::R8ToR8(LoadByteTarget::D, LoadByteSource::L))),
        0x56 => Some(Instruction::LD(LoadType::R8ToR8(LoadByteTarget::D, LoadByteSource::HLI))),
        0x57 => Some(Instruction::LD(LoadType::R8ToR8(LoadByteTarget::D, LoadByteSource::A))),
        0x58 => Some(Instruction::LD(LoadType::R8ToR8(LoadByteTarget::E, LoadByteSource::B))),
        0x59 => Some(Instruction::LD(LoadType::R8ToR8(LoadByteTarget::E, LoadByteSource::C))),
        0x5A => Some(Instruction::LD(LoadType::R8ToR8(LoadByteTarget::E, LoadByteSource::D))),
        0x5B => Some(Instruction::LD(LoadType::R8ToR8(LoadByteTarget::E, LoadByteSource::E))),
        0x5C => Some(Instruction::LD(LoadType::R8ToR8(LoadByteTarget::E, LoadByteSource::H))),
        0x5D => Some(Instruction::LD(LoadType::R8ToR8(LoadByteTarget::E, LoadByteSource::L))),
        0x5E => Some(Instruction::LD(LoadType::R8ToR8(LoadByteTarget::E, LoadByteSource::HLI))),
        0x5F => Some(Instruction::LD(LoadType::R8ToR8(LoadByteTarget::E, LoadByteSource::A))),
        0x60 => Some(Instruction::LD(LoadType::R8ToR8(LoadByteTarget::H, LoadByteSource::B))),
        0x61 => Some(Instruction::LD(LoadType::R8ToR8(LoadByteTarget::H, LoadByteSource::C))),
        0x62 => Some(Instruction::LD(LoadType::R8ToR8(LoadByteTarget::H, LoadByteSource::D))),
        0x63 => Some(Instruction::LD(LoadType::R8ToR8(LoadByteTarget::H, LoadByteSource::E))),
        0x64 => Some(Instruction::LD(LoadType::R8ToR8(LoadByteTarget::H, LoadByteSource::H))),
        0x65 => Some(Instruction::LD(LoadType::R8ToR8(LoadByteTarget::H, LoadByteSource::L))),
        0x66 => Some(Instruction::LD(LoadType::R8ToR8(LoadByteTarget::H, LoadByteSource::HLI))),
        0x67 => Some(Instruction::LD(LoadType::R8ToR8(LoadByteTarget::H, LoadByteSource::A))),
        0x68 => Some(Instruction::LD(LoadType::R8ToR8(LoadByteTarget::L, LoadByteSource::B))),
        0x69 => Some(Instruction::LD(LoadType::R8ToR8(LoadByteTarget::L, LoadByteSource::C))),
        0x6A => Some(Instruction::LD(LoadType::R8ToR8(LoadByteTarget::L, LoadByteSource::D))),
        0x6B => Some(Instruction::LD(LoadType::R8ToR8(LoadByteTarget::L, LoadByteSource::E))),
        0x6C => Some(Instruction::LD(LoadType::R8ToR8(LoadByteTarget::L, LoadByteSource::H))),
        0x6D => Some(Instruction::LD(LoadType::R8ToR8(LoadByteTarget::L, LoadByteSource::L))),
        0x6E => Some(Instruction::LD(LoadType::R8ToR8(LoadByteTarget::L, LoadByteSource::HLI))),
        0x6F => Some(Instruction::LD(LoadType::R8ToR8(LoadByteTarget::L, LoadByteSource::A))),
        0x70 => Some(Instruction::LD(LoadType::R8ToR8(LoadByteTarget::HLI, LoadByteSource::B))),
        0x71 => Some(Instruction::LD(LoadType::R8ToR8(LoadByteTarget::HLI, LoadByteSource::C))),
        0x72 => Some(Instruction::LD(LoadType::R8ToR8(LoadByteTarget::HLI, LoadByteSource::D))),
        0x73 => Some(Instruction::LD(LoadType::R8ToR8(LoadByteTarget::HLI, LoadByteSource::E))),
        0x74 => Some(Instruction::LD(LoadType::R8ToR8(LoadByteTarget::HLI, LoadByteSource::H))),
        0x75 => Some(Instruction::LD(LoadType::R8ToR8(LoadByteTarget::HLI, LoadByteSource::L))),
        0x76 => Some(Instruction::HALT),
        0x77 => Some(Instruction::LD(LoadType::R8ToR8(LoadByteTarget::HLI, LoadByteSource::A))),
        0x78 => Some(Instruction::LD(LoadType::R8ToR8(LoadByteTarget::A, LoadByteSource::B))),
        0x79 => Some(Instruction::LD(LoadType::R8ToR8(LoadByteTarget::A, LoadByteSource::C))),
        0x7A => Some(Instruction::LD(LoadType::R8ToR8(LoadByteTarget::A, LoadByteSource::D))),
        0x7B => Some(Instruction::LD(LoadType::R8ToR8(LoadByteTarget::A, LoadByteSource::E))),
        0x7C => Some(Instruction::LD(LoadType::R8ToR8(LoadByteTarget::A, LoadByteSource::H))),
        0x7D => Some(Instruction::LD(LoadType::R8ToR8(LoadByteTarget::A, LoadByteSource::L))),
        0x7E => Some(Instruction::LD(LoadType::R8ToR8(LoadByteTarget::A, LoadByteSource::HLI))),
        0x7F => Some(Instruction::LD(LoadType::R8ToR8(LoadByteTarget::A, LoadByteSource::A))),
        0x80 => Some(Instruction::ADD(ArithmeticTarget::B)),
        0x81 => Some(Instruction::ADD(ArithmeticTarget::C)),
        0x82 => Some(Instruction::ADD(ArithmeticTarget::D)),
        0x83 => Some(Instruction::ADD(ArithmeticTarget::E)),
        0x84 => Some(Instruction::ADD(ArithmeticTarget::H)),
        0x85 => Some(Instruction::ADD(ArithmeticTarget::L)),
        0x86 => Some(Instruction::ADD(ArithmeticTarget::HLI)),
        0x87 => Some(Instruction::ADD(ArithmeticTarget::A)),
        0x88 => Some(Instruction::ADC(ArithmeticTarget::B)),
        0x89 => Some(Instruction::ADC(ArithmeticTarget::C)),
        0x8A => Some(Instruction::ADC(ArithmeticTarget::D)),
        0x8B => Some(Instruction::ADC(ArithmeticTarget::E)),
        0x8C => Some(Instruction::ADC(ArithmeticTarget::H)),
        0x8D => Some(Instruction::ADC(ArithmeticTarget::L)),
        0x8E => Some(Instruction::ADC(ArithmeticTarget::HLI)),
        0x8F => Some(Instruction::ADC(ArithmeticTarget::A)),
        0x90 => Some(Instruction::SUB(ArithmeticTarget::B)),
        0x91 => Some(Instruction::SUB(ArithmeticTarget::C)),
        0x92 => Some(Instruction::SUB(ArithmeticTarget::D)),
        0x93 => Some(Instruction::SUB(ArithmeticTarget::E)),
        0x94 => Some(Instruction::SUB(ArithmeticTarget::H)),
        0x95 => Some(Instruction::SUB(ArithmeticTarget::L)),
        0x96 => Some(Instruction::SUB(ArithmeticTarget::HLI)),
        0x97 => Some(Instruction::SUB(ArithmeticTarget::A)),
        0x98 => Some(Instruction::SBC(ArithmeticTarget::B)),
        0x99 => Some(Instruction::SBC(ArithmeticTarget::C)),
        0x9A => Some(Instruction::SBC(ArithmeticTarget::D)),
        0x9B => Some(Instruction::SBC(ArithmeticTarget::E)),
        0x9C => Some(Instruction::SBC(ArithmeticTarget::H)),
        0x9D => Some(Instruction::SBC(ArithmeticTarget::L)),
        0x9E => Some(Instruction::SBC(ArithmeticTarget::HLI)),
        0x9F => Some(Instruction::SBC(ArithmeticTarget::A)),
        0xA0 => Some(Instruction::AND(ArithmeticTarget::B)),
        0xA1 => Some(Instruction::AND(ArithmeticTarget::C)),
        0xA2 => Some(Instruction::AND(ArithmeticTarget::D)),
        0xA3 => Some(Instruction::AND(ArithmeticTarget::E)),
        0xA4 => Some(Instruction::AND(ArithmeticTarget::H)),
        0xA5 => Some(Instruction::AND(ArithmeticTarget::L)),
        0xA6 => Some(Instruction::AND(ArithmeticTarget::HLI)),
        0xA7 => Some(Instruction::AND(ArithmeticTarget::A)),
        0xA8 => Some(Instruction::XOR(ArithmeticTarget::B)),
        0xA9 => Some(Instruction::XOR(ArithmeticTarget::C)),
        0xAA => Some(Instruction::XOR(ArithmeticTarget::D)),
        0xAB => Some(Instruction::XOR(ArithmeticTarget::E)),
        0xAC => Some(Instruction::XOR(ArithmeticTarget::H)),
        0xAD => Some(Instruction::XOR(ArithmeticTarget::L)),
        0xAE => Some(Instruction::XOR(ArithmeticTarget::HLI)),
        0xAF => Some(Instruction::XOR(ArithmeticTarget::A)),
        0xB0 => Some(Instruction::OR(ArithmeticTarget::B)),
        0xB1 => Some(Instruction::OR(ArithmeticTarget::C)),
        0xB2 => Some(Instruction::OR(ArithmeticTarget::D)),
        0xB3 => Some(Instruction::OR(ArithmeticTarget::E)),
        0xB4 => Some(Instruction::OR(ArithmeticTarget::H)),
        0xB5 => Some(Instruction::OR(ArithmeticTarget::L)),
        0xB6 => Some(Instruction::OR(ArithmeticTarget::HLI)),
        0xB7 => Some(Instruction::OR(ArithmeticTarget::A)),
        0xB8 => Some(Instruction::CP(ArithmeticTarget::B)),
        0xB9 => Some(Instruction::CP(ArithmeticTarget::C)),
        0xBA => Some(Instruction::CP(ArithmeticTarget::D)),
        0xBB => Some(Instruction::CP(ArithmeticTarget::E)),
        0xBC => Some(Instruction::CP(ArithmeticTarget::H)),
        0xBD => Some(Instruction::CP(ArithmeticTarget::L)),
        0xBE => Some(Instruction::CP(ArithmeticTarget::HLI)),
        0xBF => Some(Instruction::CP(ArithmeticTarget::A)),
        0xC0 => Some(Instruction::RET(JumpTest::NotZero)),
        0xC1 => Some(Instruction::POP(StackTargets::BC)),
        0xC2 => Some(Instruction::JP(JumpTest::NotZero)),
        0xC3 => Some(Instruction::JP(JumpTest::Always)),
        0xC4 => Some(Instruction::CALL(JumpTest::NotZero)),
        0xC5 => Some(Instruction::PUSH(StackTargets::BC)),
        0xC6 => Some(Instruction::ADD(ArithmeticTarget::D8)),
        0xC8 => Some(Instruction::RET(JumpTest::Zero)),
        0xC9 => Some(Instruction::RET(JumpTest::Always)),
        0xCA => Some(Instruction::JP(JumpTest::Zero)),
        0xCC => Some(Instruction::CALL(JumpTest::Zero)),
        0xCD => Some(Instruction::CALL(JumpTest::Always)),
        0xCE => Some(Instruction::ADC(ArithmeticTarget::D8)),
        0xD0 => Some(Instruction::RET(JumpTest::NotCarry)),
        0xD1 => Some(Instruction::POP(StackTargets::DE)),
        0xD2 => Some(Instruction::JP(JumpTest::NotCarry)),
        0xD4 => Some(Instruction::CALL(JumpTest::NotCarry)),
        0xD5 => Some(Instruction::PUSH(StackTargets::DE)),
        0xD6 => Some(Instruction::SUB(ArithmeticTarget::D8)),
        0xD8 => Some(Instruction::RET(JumpTest::Carry)),
        0xDA => Some(Instruction::JP(JumpTest::Carry)),
        0xDC => Some(Instruction::CALL(JumpTest::Carry)),
        0xDE => Some(Instruction::SBC(ArithmeticTarget::D8)),
        0xE1 => Some(Instruction::POP(StackTargets::HL)),
        0xE5 => Some(Instruction::PUSH(StackTargets::HL)),
        0xE6 => Some(Instruction::AND(ArithmeticTarget::D8)),
        0xEE => Some(Instruction::XOR(ArithmeticTarget::D8)),
        0xF1 => Some(Instruction::POP(StackTargets::AF)),
        0xF5 => Some(Instruction::PUSH(StackTargets::AF)),
        0xF6 => Some(Instruction::OR(ArithmeticTarget::D8)),
        0xF8 => Some(Instruction::LD(LoadType::SP8toHL)),
        0xF9 => Some(Instruction::LD(LoadType::HLtoSP)),
        0xFE => Some(Instruction::CP(ArithmeticTarget::D8)),
            _ => None,
        }
    }
}

} // verus!
