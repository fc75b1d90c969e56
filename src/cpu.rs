use vstd::prelude::*;

use crate::alu::{
    adc_binary, adc_decimal, add_binary, add_decimal, asl, bit_flags, bit_test, compare,
    compare_flags, lsr, rol, ror, rotate_left, rotate_right, sbc_binary, sbc_decimal, set_flag,
    set_nz, shift_left, shift_right, subtract_decimal, with_flag, with_nz, BREAK, CARRY, DECIMAL,
    IRQB, NEGATIVE, OVERFLOW, USER, ZERO,
};
use crate::bus::{memory_kept, stored, Bus};

verus! {

/// Run mode of the CPU.
#[derive(Clone, Copy, Debug, PartialEq, Eq, Structural)]
pub enum CPUState {
    /// Power-on sequence; the count of ticks spent in it (0..=6).
    Init(u8),
    Run,
    Wait,
    Halt,
}

#[derive(Clone, Copy, Debug, PartialEq, Eq, Structural)]
pub enum AddressMode {
    Absolute,
    AbsoluteIndexedIndirect,
    AbsoluteIndexedWithX,
    AbsoluteIndexedWithY,
    AbsoluteIndirect,
    Accumulator,
    ImmediateAddressing,
    Implied,
    ProgramCounterRelative,
    Stack,
    ZeroPage,
    ZeroPageIndexedIndirect,
    ZeroPageIndexedWithX,
    ZeroPageIndexedWithY,
    ZeroPageIndirect,
    ZeroPageIndirectIndexedWithY,
}

/// The instruction set; `NOP(bytes, cycles)` stands for the no-operation
/// opcodes, with their length and cycle count.
#[derive(Clone, Copy, Debug, PartialEq, Eq, Structural)]
pub enum Instruction {
    ADC,
    AND,
    ASL,
    BBR(u8),
    BBS(u8),
    BCC,
    BCS,
    BEQ,
    BIT,
    BMI,
    BNE,
    BPL,
    BRA,
    BRK,
    BVC,
    BVS,
    CLC,
    CLD,
    CLI,
    CLV,
    CMP,
    CPX,
    CPY,
    DEC,
    DEX,
    DEY,
    EOR,
    INC,
    INX,
    INY,
    JMP,
    JSR,
    LDA,
    LDX,
    LDY,
    LSR,
    NOP(u8, u8),
    ORA,
    PHA,
    PHP,
    PHX,
    PHY,
    PLA,
    PLP,
    PLX,
    PLY,
    RMB(u8),
    ROL,
    ROR,
    RTI,
    RTS,
    SBC,
    SEC,
    SED,
    SEI,
    SMB(u8),
    STA,
    STP,
    STX,
    STY,
    STZ,
    TAX,
    TAY,
    TRB,
    TSB,
    TSX,
    TXA,
    TXS,
    TYA,
    WAI,
}

/// What an opcode byte decodes to.
pub open spec fn opcode(val: u8) -> (Instruction, AddressMode) {
    match val {
        0x6D => (Instruction::ADC, AddressMode::Absolute),
        0x7D => (Instruction::ADC, AddressMode::AbsoluteIndexedWithX),
        0x79 => (Instruction::ADC, AddressMode::AbsoluteIndexedWithY),
        0x69 => (Instruction::ADC, AddressMode::ImmediateAddressing),
        0x65 => (Instruction::ADC, AddressMode::ZeroPage),
        0x61 => (Instruction::ADC, AddressMode::ZeroPageIndexedIndirect),
        0x75 => (Instruction::ADC, AddressMode::ZeroPageIndexedWithX),
        0x72 => (Instruction::ADC, AddressMode::ZeroPageIndirect),
        0x71 => (Instruction::ADC, AddressMode::ZeroPageIndirectIndexedWithY),
        0x2D => (Instruction::AND, AddressMode::Absolute),
        0x3D => (Instruction::AND, AddressMode::AbsoluteIndexedWithX),
        0x39 => (Instruction::AND, AddressMode::AbsoluteIndexedWithY),
        0x29 => (Instruction::AND, AddressMode::ImmediateAddressing),
        0x25 => (Instruction::AND, AddressMode::ZeroPage),
        0x21 => (Instruction::AND, AddressMode::ZeroPageIndexedIndirect),
        0x35 => (Instruction::AND, AddressMode::ZeroPageIndexedWithX),
        0x32 => (Instruction::AND, AddressMode::ZeroPageIndirect),
        0x31 => (Instruction::AND, AddressMode::ZeroPageIndirectIndexedWithY),
        0x0E => (Instruction::ASL, AddressMode::Absolute),
        0x1E => (Instruction::ASL, AddressMode::AbsoluteIndexedWithX),
        0x0A => (Instruction::ASL, AddressMode::Accumulator),
        0x06 => (Instruction::ASL, AddressMode::ZeroPage),
        0x16 => (Instruction::ASL, AddressMode::ZeroPageIndexedWithX),
        0x0F => (Instruction::BBR(0), AddressMode::ProgramCounterRelative),
        0x1F => (Instruction::BBR(1), AddressMode::ProgramCounterRelative),
        0x2F => (Instruction::BBR(2), AddressMode::ProgramCounterRelative),
        0x3F => (Instruction::BBR(3), AddressMode::ProgramCounterRelative),
        0x4F => (Instruction::BBR(4), AddressMode::ProgramCounterRelative),
        0x5F => (Instruction::BBR(5), AddressMode::ProgramCounterRelative),
        0x6F => (Instruction::BBR(6), AddressMode::ProgramCounterRelative),
        0x7F => (Instruction::BBR(7), AddressMode::ProgramCounterRelative),
        0x8F => (Instruction::BBS(0), AddressMode::ProgramCounterRelative),
        0x9F => (Instruction::BBS(1), AddressMode::ProgramCounterRelative),
        0xAF => (Instruction::BBS(2), AddressMode::ProgramCounterRelative),
        0xBF => (Instruction::BBS(3), AddressMode::ProgramCounterRelative),
        0xCF => (Instruction::BBS(4), AddressMode::ProgramCounterRelative),
        0xDF => (Instruction::BBS(5), AddressMode::ProgramCounterRelative),
        0xEF => (Instruction::BBS(6), AddressMode::ProgramCounterRelative),
        0xFF => (Instruction::BBS(7), AddressMode::ProgramCounterRelative),
        0x90 => (Instruction::BCC, AddressMode::ProgramCounterRelative),
        0xB0 => (Instruction::BCS, AddressMode::ProgramCounterRelative),
        0xF0 => (Instruction::BEQ, AddressMode::ProgramCounterRelative),
        0x2C => (Instruction::BIT, AddressMode::Absolute),
        0x3C => (Instruction::BIT, AddressMode::AbsoluteIndexedWithX),
        0x89 => (Instruction::BIT, AddressMode::ImmediateAddressing),
        0x24 => (Instruction::BIT, AddressMode::ZeroPage),
        0x34 => (Instruction::BIT, AddressMode::ZeroPageIndexedWithX),
        0x30 => (Instruction::BMI, AddressMode::ProgramCounterRelative),
        0xD0 => (Instruction::BNE, AddressMode::ProgramCounterRelative),
        0x10 => (Instruction::BPL, AddressMode::ProgramCounterRelative),
        0x80 => (Instruction::BRA, AddressMode::ProgramCounterRelative),
        0x00 => (Instruction::BRK, AddressMode::Stack),
        0x50 => (Instruction::BVC, AddressMode::ProgramCounterRelative),
        0x70 => (Instruction::BVS, AddressMode::ProgramCounterRelative),
        0x18 => (Instruction::CLC, AddressMode::Implied),
        0xD8 => (Instruction::CLD, AddressMode::Implied),
        0x58 => (Instruction::CLI, AddressMode::Implied),
        0xB8 => (Instruction::CLV, AddressMode::Implied),
        0xCD => (Instruction::CMP, AddressMode::Absolute),
        0xDD => (Instruction::CMP, AddressMode::AbsoluteIndexedWithX),
        0xD9 => (Instruction::CMP, AddressMode::AbsoluteIndexedWithY),
        0xC9 => (Instruction::CMP, AddressMode::ImmediateAddressing),
        0xC5 => (Instruction::CMP, AddressMode::ZeroPage),
        0xC1 => (Instruction::CMP, AddressMode::ZeroPageIndexedIndirect),
        0xD5 => (Instruction::CMP, AddressMode::ZeroPageIndexedWithX),
        0xD2 => (Instruction::CMP, AddressMode::ZeroPageIndirect),
        0xD1 => (Instruction::CMP, AddressMode::ZeroPageIndirectIndexedWithY),
        0xEC => (Instruction::CPX, AddressMode::Absolute),
        0xE0 => (Instruction::CPX, AddressMode::ImmediateAddressing),
        0xE4 => (Instruction::CPX, AddressMode::ZeroPage),
        0xCC => (Instruction::CPY, AddressMode::Absolute),
        0xC0 => (Instruction::CPY, AddressMode::ImmediateAddressing),
        0xC4 => (Instruction::CPY, AddressMode::ZeroPage),
        0xCE => (Instruction::DEC, AddressMode::Absolute),
        0xDE => (Instruction::DEC, AddressMode::AbsoluteIndexedWithX),
        0x3A => (Instruction::DEC, AddressMode::Accumulator),
        0xC6 => (Instruction::DEC, AddressMode::ZeroPage),
        0xD6 => (Instruction::DEC, AddressMode::ZeroPageIndexedWithX),
        0xCA => (Instruction::DEX, AddressMode::Implied),
        0x88 => (Instruction::DEY, AddressMode::Implied),
        0x4D => (Instruction::EOR, AddressMode::Absolute),
        0x5D => (Instruction::EOR, AddressMode::AbsoluteIndexedWithX),
        0x59 => (Instruction::EOR, AddressMode::AbsoluteIndexedWithY),
        0x49 => (Instruction::EOR, AddressMode::ImmediateAddressing),
        0x45 => (Instruction::EOR, AddressMode::ZeroPage),
        0x41 => (Instruction::EOR, AddressMode::ZeroPageIndexedIndirect),
        0x55 => (Instruction::EOR, AddressMode::ZeroPageIndexedWithX),
        0x52 => (Instruction::EOR, AddressMode::ZeroPageIndirect),
        0x51 => (Instruction::EOR, AddressMode::ZeroPageIndirectIndexedWithY),
        0xEE => (Instruction::INC, AddressMode::Absolute),
        0xFE => (Instruction::INC, AddressMode::AbsoluteIndexedWithX),
        0x1A => (Instruction::INC, AddressMode::Accumulator),
        0xE6 => (Instruction::INC, AddressMode::ZeroPage),
        0xF6 => (Instruction::INC, AddressMode::ZeroPageIndexedWithX),
        0xE8 => (Instruction::INX, AddressMode::Implied),
        0xC8 => (Instruction::INY, AddressMode::Implied),
        0x4C => (Instruction::JMP, AddressMode::Absolute),
        0x7C => (Instruction::JMP, AddressMode::AbsoluteIndexedIndirect),
        0x6C => (Instruction::JMP, AddressMode::AbsoluteIndirect),
        0x20 => (Instruction::JSR, AddressMode::Absolute),
        0xAD => (Instruction::LDA, AddressMode::Absolute),
        0xBD => (Instruction::LDA, AddressMode::AbsoluteIndexedWithX),
        0xB9 => (Instruction::LDA, AddressMode::AbsoluteIndexedWithY),
        0xA9 => (Instruction::LDA, AddressMode::ImmediateAddressing),
        0xA5 => (Instruction::LDA, AddressMode::ZeroPage),
        0xA1 => (Instruction::LDA, AddressMode::ZeroPageIndexedIndirect),
        0xB5 => (Instruction::LDA, AddressMode::ZeroPageIndexedWithX),
        0xB2 => (Instruction::LDA, AddressMode::ZeroPageIndirect),
        0xB1 => (Instruction::LDA, AddressMode::ZeroPageIndirectIndexedWithY),
        0xAE => (Instruction::LDX, AddressMode::Absolute),
        0xBE => (Instruction::LDX, AddressMode::AbsoluteIndexedWithY),
        0xA2 => (Instruction::LDX, AddressMode::ImmediateAddressing),
        0xA6 => (Instruction::LDX, AddressMode::ZeroPage),
        0xB6 => (Instruction::LDX, AddressMode::ZeroPageIndexedWithY),
        0xAC => (Instruction::LDY, AddressMode::Absolute),
        0xBC => (Instruction::LDY, AddressMode::AbsoluteIndexedWithX),
        0xA0 => (Instruction::LDY, AddressMode::ImmediateAddressing),
        0xA4 => (Instruction::LDY, AddressMode::ZeroPage),
        0xB4 => (Instruction::LDY, AddressMode::ZeroPageIndexedWithX),
        0x4E => (Instruction::LSR, AddressMode::Absolute),
        0x5E => (Instruction::LSR, AddressMode::AbsoluteIndexedWithX),
        0x4A => (Instruction::LSR, AddressMode::Accumulator),
        0x46 => (Instruction::LSR, AddressMode::ZeroPage),
        0x56 => (Instruction::LSR, AddressMode::ZeroPageIndexedWithX),
        0xEA => (Instruction::NOP(1, 2), AddressMode::Implied),
        0x02 => (Instruction::NOP(2, 2), AddressMode::Implied),
        0x22 => (Instruction::NOP(2, 2), AddressMode::Implied),
        0x42 => (Instruction::NOP(2, 2), AddressMode::Implied),
        0x62 => (Instruction::NOP(2, 2), AddressMode::Implied),
        0x82 => (Instruction::NOP(2, 2), AddressMode::Implied),
        0xC2 => (Instruction::NOP(2, 2), AddressMode::Implied),
        0xE2 => (Instruction::NOP(2, 2), AddressMode::Implied),
        0x03 => (Instruction::NOP(1, 1), AddressMode::Implied),
        0x13 => (Instruction::NOP(1, 1), AddressMode::Implied),
        0x23 => (Instruction::NOP(1, 1), AddressMode::Implied),
        0x33 => (Instruction::NOP(1, 1), AddressMode::Implied),
        0x43 => (Instruction::NOP(1, 1), AddressMode::Implied),
        0x53 => (Instruction::NOP(1, 1), AddressMode::Implied),
        0x63 => (Instruction::NOP(1, 1), AddressMode::Implied),
        0x73 => (Instruction::NOP(1, 1), AddressMode::Implied),
        0x83 => (Instruction::NOP(1, 1), AddressMode::Implied),
        0x93 => (Instruction::NOP(1, 1), AddressMode::Implied),
        0xA3 => (Instruction::NOP(1, 1), AddressMode::Implied),
        0xB3 => (Instruction::NOP(1, 1), AddressMode::Implied),
        0xC3 => (Instruction::NOP(1, 1), AddressMode::Implied),
        0xD3 => (Instruction::NOP(1, 1), AddressMode::Implied),
        0xE3 => (Instruction::NOP(1, 1), AddressMode::Implied),
        0xF3 => (Instruction::NOP(1, 1), AddressMode::Implied),
        0x44 => (Instruction::NOP(2, 3), AddressMode::Implied),
        0x54 => (Instruction::NOP(2, 4), AddressMode::Implied),
        0xD4 => (Instruction::NOP(2, 4), AddressMode::Implied),
        0xF4 => (Instruction::NOP(2, 4), AddressMode::Implied),
        0x0B => (Instruction::NOP(1, 1), AddressMode::Implied),
        0x1B => (Instruction::NOP(1, 1), AddressMode::Implied),
        0x2B => (Instruction::NOP(1, 1), AddressMode::Implied),
        0x3B => (Instruction::NOP(1, 1), AddressMode::Implied),
        0x4B => (Instruction::NOP(1, 1), AddressMode::Implied),
        0x5B => (Instruction::NOP(1, 1), AddressMode::Implied),
        0x6B => (Instruction::NOP(1, 1), AddressMode::Implied),
        0x7B => (Instruction::NOP(1, 1), AddressMode::Implied),
        0x8B => (Instruction::NOP(1, 1), AddressMode::Implied),
        0x9B => (Instruction::NOP(1, 1), AddressMode::Implied),
        0xAB => (Instruction::NOP(1, 1), AddressMode::Implied),
        0xBB => (Instruction::NOP(1, 1), AddressMode::Implied),
        0xEB => (Instruction::NOP(1, 1), AddressMode::Implied),
        0xFB => (Instruction::NOP(1, 1), AddressMode::Implied),
        0x5C => (Instruction::NOP(3, 8), AddressMode::Implied),
        0xDC => (Instruction::NOP(3, 4), AddressMode::Implied),
        0xFC => (Instruction::NOP(3, 4), AddressMode::Implied),
        0x0D => (Instruction::ORA, AddressMode::Absolute),
        0x1D => (Instruction::ORA, AddressMode::AbsoluteIndexedWithX),
        0x19 => (Instruction::ORA, AddressMode::AbsoluteIndexedWithY),
        0x09 => (Instruction::ORA, AddressMode::ImmediateAddressing),
        0x05 => (Instruction::ORA, AddressMode::ZeroPage),
        0x01 => (Instruction::ORA, AddressMode::ZeroPageIndexedIndirect),
        0x15 => (Instruction::ORA, AddressMode::ZeroPageIndexedWithX),
        0x12 => (Instruction::ORA, AddressMode::ZeroPageIndirect),
        0x11 => (Instruction::ORA, AddressMode::ZeroPageIndirectIndexedWithY),
        0x48 => (Instruction::PHA, AddressMode::Stack),
        0x08 => (Instruction::PHP, AddressMode::Stack),
        0xDA => (Instruction::PHX, AddressMode::Stack),
        0x5A => (Instruction::PHY, AddressMode::Stack),
        0x68 => (Instruction::PLA, AddressMode::Stack),
        0x28 => (Instruction::PLP, AddressMode::Stack),
        0xFA => (Instruction::PLX, AddressMode::Stack),
        0x7A => (Instruction::PLY, AddressMode::Stack),
        0x07 => (Instruction::RMB(0), AddressMode::ZeroPage),
        0x17 => (Instruction::RMB(1), AddressMode::ZeroPage),
        0x27 => (Instruction::RMB(2), AddressMode::ZeroPage),
        0x37 => (Instruction::RMB(3), AddressMode::ZeroPage),
        0x47 => (Instruction::RMB(4), AddressMode::ZeroPage),
        0x57 => (Instruction::RMB(5), AddressMode::ZeroPage),
        0x67 => (Instruction::RMB(6), AddressMode::ZeroPage),
        0x77 => (Instruction::RMB(7), AddressMode::ZeroPage),
        0x2E => (Instruction::ROL, AddressMode::Absolute),
        0x3E => (Instruction::ROL, AddressMode::AbsoluteIndexedWithX),
        0x2A => (Instruction::ROL, AddressMode::Accumulator),
        0x26 => (Instruction::ROL, AddressMode::ZeroPage),
        0x36 => (Instruction::ROL, AddressMode::ZeroPageIndexedWithX),
        0x6E => (Instruction::ROR, AddressMode::Absolute),
        0x7E => (Instruction::ROR, AddressMode::AbsoluteIndexedWithX),
        0x6A => (Instruction::ROR, AddressMode::Accumulator),
        0x66 => (Instruction::ROR, AddressMode::ZeroPage),
        0x76 => (Instruction::ROR, AddressMode::ZeroPageIndexedWithX),
        0x40 => (Instruction::RTI, AddressMode::Stack),
        0x60 => (Instruction::RTS, AddressMode::Stack),
        0xED => (Instruction::SBC, AddressMode::Absolute),
        0xFD => (Instruction::SBC, AddressMode::AbsoluteIndexedWithX),
        0xF9 => (Instruction::SBC, AddressMode::AbsoluteIndexedWithY),
        0xE9 => (Instruction::SBC, AddressMode::ImmediateAddressing),
        0xE5 => (Instruction::SBC, AddressMode::ZeroPage),
        0xE1 => (Instruction::SBC, AddressMode::ZeroPageIndexedIndirect),
        0xF5 => (Instruction::SBC, AddressMode::ZeroPageIndexedWithX),
        0xF2 => (Instruction::SBC, AddressMode::ZeroPageIndirect),
        0xF1 => (Instruction::SBC, AddressMode::ZeroPageIndirectIndexedWithY),
        0x38 => (Instruction::SEC, AddressMode::Implied),
        0xF8 => (Instruction::SED, AddressMode::Implied),
        0x78 => (Instruction::SEI, AddressMode::Implied),
        0x87 => (Instruction::SMB(0), AddressMode::ZeroPage),
        0x97 => (Instruction::SMB(1), AddressMode::ZeroPage),
        0xA7 => (Instruction::SMB(2), AddressMode::ZeroPage),
        0xB7 => (Instruction::SMB(3), AddressMode::ZeroPage),
        0xC7 => (Instruction::SMB(4), AddressMode::ZeroPage),
        0xD7 => (Instruction::SMB(5), AddressMode::ZeroPage),
        0xE7 => (Instruction::SMB(6), AddressMode::ZeroPage),
        0xF7 => (Instruction::SMB(7), AddressMode::ZeroPage),
        0x8D => (Instruction::STA, AddressMode::Absolute),
        0x9D => (Instruction::STA, AddressMode::AbsoluteIndexedWithX),
        0x99 => (Instruction::STA, AddressMode::AbsoluteIndexedWithY),
        0x85 => (Instruction::STA, AddressMode::ZeroPage),
        0x81 => (Instruction::STA, AddressMode::ZeroPageIndexedIndirect),
        0x95 => (Instruction::STA, AddressMode::ZeroPageIndexedWithX),
        0x92 => (Instruction::STA, AddressMode::ZeroPageIndirect),
        0x91 => (Instruction::STA, AddressMode::ZeroPageIndirectIndexedWithY),
        0xDB => (Instruction::STP, AddressMode::Implied),
        0x8E => (Instruction::STX, AddressMode::Absolute),
        0x86 => (Instruction::STX, AddressMode::ZeroPage),
        0x96 => (Instruction::STX, AddressMode::ZeroPageIndexedWithY),
        0x8C => (Instruction::STY, AddressMode::Absolute),
        0x84 => (Instruction::STY, AddressMode::ZeroPage),
        0x94 => (Instruction::STY, AddressMode::ZeroPageIndexedWithX),
        0x9C => (Instruction::STZ, AddressMode::Absolute),
        0x9E => (Instruction::STZ, AddressMode::AbsoluteIndexedWithX),
        0x64 => (Instruction::STZ, AddressMode::ZeroPage),
        0x74 => (Instruction::STZ, AddressMode::ZeroPageIndexedWithX),
        0xAA => (Instruction::TAX, AddressMode::Implied),
        0xA8 => (Instruction::TAY, AddressMode::Implied),
        0x1C => (Instruction::TRB, AddressMode::Absolute),
        0x14 => (Instruction::TRB, AddressMode::ZeroPage),
        0x0C => (Instruction::TSB, AddressMode::Absolute),
        0x04 => (Instruction::TSB, AddressMode::ZeroPage),
        0xBA => (Instruction::TSX, AddressMode::Implied),
        0x8A => (Instruction::TXA, AddressMode::Implied),
        0x9A => (Instruction::TXS, AddressMode::Implied),
        0x98 => (Instruction::TYA, AddressMode::Implied),
        0xCB => (Instruction::WAI, AddressMode::Implied),
    }
}

/// Decodes an opcode byte.
pub fn decode(val: u8) -> (r: (Instruction, AddressMode))
    ensures
        r == opcode(val),
{
    match val {
        0x6D => (Instruction::ADC, AddressMode::Absolute),
        0x7D => (Instruction::ADC, AddressMode::AbsoluteIndexedWithX),
        0x79 => (Instruction::ADC, AddressMode::AbsoluteIndexedWithY),
        0x69 => (Instruction::ADC, AddressMode::ImmediateAddressing),
        0x65 => (Instruction::ADC, AddressMode::ZeroPage),
        0x61 => (Instruction::ADC, AddressMode::ZeroPageIndexedIndirect),
        0x75 => (Instruction::ADC, AddressMode::ZeroPageIndexedWithX),
        0x72 => (Instruction::ADC, AddressMode::ZeroPageIndirect),
        0x71 => (Instruction::ADC, AddressMode::ZeroPageIndirectIndexedWithY),
        0x2D => (Instruction::AND, AddressMode::Absolute),
        0x3D => (Instruction::AND, AddressMode::AbsoluteIndexedWithX),
        0x39 => (Instruction::AND, AddressMode::AbsoluteIndexedWithY),
        0x29 => (Instruction::AND, AddressMode::ImmediateAddressing),
        0x25 => (Instruction::AND, AddressMode::ZeroPage),
        0x21 => (Instruction::AND, AddressMode::ZeroPageIndexedIndirect),
        0x35 => (Instruction::AND, AddressMode::ZeroPageIndexedWithX),
        0x32 => (Instruction::AND, AddressMode::ZeroPageIndirect),
        0x31 => (Instruction::AND, AddressMode::ZeroPageIndirectIndexedWithY),
        0x0E => (Instruction::ASL, AddressMode::Absolute),
        0x1E => (Instruction::ASL, AddressMode::AbsoluteIndexedWithX),
        0x0A => (Instruction::ASL, AddressMode::Accumulator),
        0x06 => (Instruction::ASL, AddressMode::ZeroPage),
        0x16 => (Instruction::ASL, AddressMode::ZeroPageIndexedWithX),
        0x0F => (Instruction::BBR(0), AddressMode::ProgramCounterRelative),
        0x1F => (Instruction::BBR(1), AddressMode::ProgramCounterRelative),
        0x2F => (Instruction::BBR(2), AddressMode::ProgramCounterRelative),
        0x3F => (Instruction::BBR(3), AddressMode::ProgramCounterRelative),
        0x4F => (Instruction::BBR(4), AddressMode::ProgramCounterRelative),
        0x5F => (Instruction::BBR(5), AddressMode::ProgramCounterRelative),
        0x6F => (Instruction::BBR(6), AddressMode::ProgramCounterRelative),
        0x7F => (Instruction::BBR(7), AddressMode::ProgramCounterRelative),
        0x8F => (Instruction::BBS(0), AddressMode::ProgramCounterRelative),
        0x9F => (Instruction::BBS(1), AddressMode::ProgramCounterRelative),
        0xAF => (Instruction::BBS(2), AddressMode::ProgramCounterRelative),
        0xBF => (Instruction::BBS(3), AddressMode::ProgramCounterRelative),
        0xCF => (Instruction::BBS(4), AddressMode::ProgramCounterRelative),
        0xDF => (Instruction::BBS(5), AddressMode::ProgramCounterRelative),
        0xEF => (Instruction::BBS(6), AddressMode::ProgramCounterRelative),
        0xFF => (Instruction::BBS(7), AddressMode::ProgramCounterRelative),
        0x90 => (Instruction::BCC, AddressMode::ProgramCounterRelative),
        0xB0 => (Instruction::BCS, AddressMode::ProgramCounterRelative),
        0xF0 => (Instruction::BEQ, AddressMode::ProgramCounterRelative),
        0x2C => (Instruction::BIT, AddressMode::Absolute),
        0x3C => (Instruction::BIT, AddressMode::AbsoluteIndexedWithX),
        0x89 => (Instruction::BIT, AddressMode::ImmediateAddressing),
        0x24 => (Instruction::BIT, AddressMode::ZeroPage),
        0x34 => (Instruction::BIT, AddressMode::ZeroPageIndexedWithX),
        0x30 => (Instruction::BMI, AddressMode::ProgramCounterRelative),
        0xD0 => (Instruction::BNE, AddressMode::ProgramCounterRelative),
        0x10 => (Instruction::BPL, AddressMode::ProgramCounterRelative),
        0x80 => (Instruction::BRA, AddressMode::ProgramCounterRelative),
        0x00 => (Instruction::BRK, AddressMode::Stack),
        0x50 => (Instruction::BVC, AddressMode::ProgramCounterRelative),
        0x70 => (Instruction::BVS, AddressMode::ProgramCounterRelative),
        0x18 => (Instruction::CLC, AddressMode::Implied),
        0xD8 => (Instruction::CLD, AddressMode::Implied),
        0x58 => (Instruction::CLI, AddressMode::Implied),
        0xB8 => (Instruction::CLV, AddressMode::Implied),
        0xCD => (Instruction::CMP, AddressMode::Absolute),
        0xDD => (Instruction::CMP, AddressMode::AbsoluteIndexedWithX),
        0xD9 => (Instruction::CMP, AddressMode::AbsoluteIndexedWithY),
        0xC9 => (Instruction::CMP, AddressMode::ImmediateAddressing),
        0xC5 => (Instruction::CMP, AddressMode::ZeroPage),
        0xC1 => (Instruction::CMP, AddressMode::ZeroPageIndexedIndirect),
        0xD5 => (Instruction::CMP, AddressMode::ZeroPageIndexedWithX),
        0xD2 => (Instruction::CMP, AddressMode::ZeroPageIndirect),
        0xD1 => (Instruction::CMP, AddressMode::ZeroPageIndirectIndexedWithY),
        0xEC => (Instruction::CPX, AddressMode::Absolute),
        0xE0 => (Instruction::CPX, AddressMode::ImmediateAddressing),
        0xE4 => (Instruction::CPX, AddressMode::ZeroPage),
        0xCC => (Instruction::CPY, AddressMode::Absolute),
        0xC0 => (Instruction::CPY, AddressMode::ImmediateAddressing),
        0xC4 => (Instruction::CPY, AddressMode::ZeroPage),
        0xCE => (Instruction::DEC, AddressMode::Absolute),
        0xDE => (Instruction::DEC, AddressMode::AbsoluteIndexedWithX),
        0x3A => (Instruction::DEC, AddressMode::Accumulator),
        0xC6 => (Instruction::DEC, AddressMode::ZeroPage),
        0xD6 => (Instruction::DEC, AddressMode::ZeroPageIndexedWithX),
        0xCA => (Instruction::DEX, AddressMode::Implied),
        0x88 => (Instruction::DEY, AddressMode::Implied),
        0x4D => (Instruction::EOR, AddressMode::Absolute),
        0x5D => (Instruction::EOR, AddressMode::AbsoluteIndexedWithX),
        0x59 => (Instruction::EOR, AddressMode::AbsoluteIndexedWithY),
        0x49 => (Instruction::EOR, AddressMode::ImmediateAddressing),
        0x45 => (Instruction::EOR, AddressMode::ZeroPage),
        0x41 => (Instruction::EOR, AddressMode::ZeroPageIndexedIndirect),
        0x55 => (Instruction::EOR, AddressMode::ZeroPageIndexedWithX),
        0x52 => (Instruction::EOR, AddressMode::ZeroPageIndirect),
        0x51 => (Instruction::EOR, AddressMode::ZeroPageIndirectIndexedWithY),
        0xEE => (Instruction::INC, AddressMode::Absolute),
        0xFE => (Instruction::INC, AddressMode::AbsoluteIndexedWithX),
        0x1A => (Instruction::INC, AddressMode::Accumulator),
        0xE6 => (Instruction::INC, AddressMode::ZeroPage),
        0xF6 => (Instruction::INC, AddressMode::ZeroPageIndexedWithX),
        0xE8 => (Instruction::INX, AddressMode::Implied),
        0xC8 => (Instruction::INY, AddressMode::Implied),
        0x4C => (Instruction::JMP, AddressMode::Absolute),
        0x7C => (Instruction::JMP, AddressMode::AbsoluteIndexedIndirect),
        0x6C => (Instruction::JMP, AddressMode::AbsoluteIndirect),
        0x20 => (Instruction::JSR, AddressMode::Absolute),
        0xAD => (Instruction::LDA, AddressMode::Absolute),
        0xBD => (Instruction::LDA, AddressMode::AbsoluteIndexedWithX),
        0xB9 => (Instruction::LDA, AddressMode::AbsoluteIndexedWithY),
        0xA9 => (Instruction::LDA, AddressMode::ImmediateAddressing),
        0xA5 => (Instruction::LDA, AddressMode::ZeroPage),
        0xA1 => (Instruction::LDA, AddressMode::ZeroPageIndexedIndirect),
        0xB5 => (Instruction::LDA, AddressMode::ZeroPageIndexedWithX),
        0xB2 => (Instruction::LDA, AddressMode::ZeroPageIndirect),
        0xB1 => (Instruction::LDA, AddressMode::ZeroPageIndirectIndexedWithY),
        0xAE => (Instruction::LDX, AddressMode::Absolute),
        0xBE => (Instruction::LDX, AddressMode::AbsoluteIndexedWithY),
        0xA2 => (Instruction::LDX, AddressMode::ImmediateAddressing),
        0xA6 => (Instruction::LDX, AddressMode::ZeroPage),
        0xB6 => (Instruction::LDX, AddressMode::ZeroPageIndexedWithY),
        0xAC => (Instruction::LDY, AddressMode::Absolute),
        0xBC => (Instruction::LDY, AddressMode::AbsoluteIndexedWithX),
        0xA0 => (Instruction::LDY, AddressMode::ImmediateAddressing),
        0xA4 => (Instruction::LDY, AddressMode::ZeroPage),
        0xB4 => (Instruction::LDY, AddressMode::ZeroPageIndexedWithX),
        0x4E => (Instruction::LSR, AddressMode::Absolute),
        0x5E => (Instruction::LSR, AddressMode::AbsoluteIndexedWithX),
        0x4A => (Instruction::LSR, AddressMode::Accumulator),
        0x46 => (Instruction::LSR, AddressMode::ZeroPage),
        0x56 => (Instruction::LSR, AddressMode::ZeroPageIndexedWithX),
        0xEA => (Instruction::NOP(1, 2), AddressMode::Implied),
        0x02 => (Instruction::NOP(2, 2), AddressMode::Implied),
        0x22 => (Instruction::NOP(2, 2), AddressMode::Implied),
        0x42 => (Instruction::NOP(2, 2), AddressMode::Implied),
        0x62 => (Instruction::NOP(2, 2), AddressMode::Implied),
        0x82 => (Instruction::NOP(2, 2), AddressMode::Implied),
        0xC2 => (Instruction::NOP(2, 2), AddressMode::Implied),
        0xE2 => (Instruction::NOP(2, 2), AddressMode::Implied),
        0x03 => (Instruction::NOP(1, 1), AddressMode::Implied),
        0x13 => (Instruction::NOP(1, 1), AddressMode::Implied),
        0x23 => (Instruction::NOP(1, 1), AddressMode::Implied),
        0x33 => (Instruction::NOP(1, 1), AddressMode::Implied),
        0x43 => (Instruction::NOP(1, 1), AddressMode::Implied),
        0x53 => (Instruction::NOP(1, 1), AddressMode::Implied),
        0x63 => (Instruction::NOP(1, 1), AddressMode::Implied),
        0x73 => (Instruction::NOP(1, 1), AddressMode::Implied),
        0x83 => (Instruction::NOP(1, 1), AddressMode::Implied),
        0x93 => (Instruction::NOP(1, 1), AddressMode::Implied),
        0xA3 => (Instruction::NOP(1, 1), AddressMode::Implied),
        0xB3 => (Instruction::NOP(1, 1), AddressMode::Implied),
        0xC3 => (Instruction::NOP(1, 1), AddressMode::Implied),
        0xD3 => (Instruction::NOP(1, 1), AddressMode::Implied),
        0xE3 => (Instruction::NOP(1, 1), AddressMode::Implied),
        0xF3 => (Instruction::NOP(1, 1), AddressMode::Implied),
        0x44 => (Instruction::NOP(2, 3), AddressMode::Implied),
        0x54 => (Instruction::NOP(2, 4), AddressMode::Implied),
        0xD4 => (Instruction::NOP(2, 4), AddressMode::Implied),
        0xF4 => (Instruction::NOP(2, 4), AddressMode::Implied),
        0x0B => (Instruction::NOP(1, 1), AddressMode::Implied),
        0x1B => (Instruction::NOP(1, 1), AddressMode::Implied),
        0x2B => (Instruction::NOP(1, 1), AddressMode::Implied),
        0x3B => (Instruction::NOP(1, 1), AddressMode::Implied),
        0x4B => (Instruction::NOP(1, 1), AddressMode::Implied),
        0x5B => (Instruction::NOP(1, 1), AddressMode::Implied),
        0x6B => (Instruction::NOP(1, 1), AddressMode::Implied),
        0x7B => (Instruction::NOP(1, 1), AddressMode::Implied),
        0x8B => (Instruction::NOP(1, 1), AddressMode::Implied),
        0x9B => (Instruction::NOP(1, 1), AddressMode::Implied),
        0xAB => (Instruction::NOP(1, 1), AddressMode::Implied),
        0xBB => (Instruction::NOP(1, 1), AddressMode::Implied),
        0xEB => (Instruction::NOP(1, 1), AddressMode::Implied),
        0xFB => (Instruction::NOP(1, 1), AddressMode::Implied),
        0x5C => (Instruction::NOP(3, 8), AddressMode::Implied),
        0xDC => (Instruction::NOP(3, 4), AddressMode::Implied),
        0xFC => (Instruction::NOP(3, 4), AddressMode::Implied),
        0x0D => (Instruction::ORA, AddressMode::Absolute),
        0x1D => (Instruction::ORA, AddressMode::AbsoluteIndexedWithX),
        0x19 => (Instruction::ORA, AddressMode::AbsoluteIndexedWithY),
        0x09 => (Instruction::ORA, AddressMode::ImmediateAddressing),
        0x05 => (Instruction::ORA, AddressMode::ZeroPage),
        0x01 => (Instruction::ORA, AddressMode::ZeroPageIndexedIndirect),
        0x15 => (Instruction::ORA, AddressMode::ZeroPageIndexedWithX),
        0x12 => (Instruction::ORA, AddressMode::ZeroPageIndirect),
        0x11 => (Instruction::ORA, AddressMode::ZeroPageIndirectIndexedWithY),
        0x48 => (Instruction::PHA, AddressMode::Stack),
        0x08 => (Instruction::PHP, AddressMode::Stack),
        0xDA => (Instruction::PHX, AddressMode::Stack),
        0x5A => (Instruction::PHY, AddressMode::Stack),
        0x68 => (Instruction::PLA, AddressMode::Stack),
        0x28 => (Instruction::PLP, AddressMode::Stack),
        0xFA => (Instruction::PLX, AddressMode::Stack),
        0x7A => (Instruction::PLY, AddressMode::Stack),
        0x07 => (Instruction::RMB(0), AddressMode::ZeroPage),
        0x17 => (Instruction::RMB(1), AddressMode::ZeroPage),
        0x27 => (Instruction::RMB(2), AddressMode::ZeroPage),
        0x37 => (Instruction::RMB(3), AddressMode::ZeroPage),
        0x47 => (Instruction::RMB(4), AddressMode::ZeroPage),
        0x57 => (Instruction::RMB(5), AddressMode::ZeroPage),
        0x67 => (Instruction::RMB(6), AddressMode::ZeroPage),
        0x77 => (Instruction::RMB(7), AddressMode::ZeroPage),
        0x2E => (Instruction::ROL, AddressMode::Absolute),
        0x3E => (Instruction::ROL, AddressMode::AbsoluteIndexedWithX),
        0x2A => (Instruction::ROL, AddressMode::Accumulator),
        0x26 => (Instruction::ROL, AddressMode::ZeroPage),
        0x36 => (Instruction::ROL, AddressMode::ZeroPageIndexedWithX),
        0x6E => (Instruction::ROR, AddressMode::Absolute),
        0x7E => (Instruction::ROR, AddressMode::AbsoluteIndexedWithX),
        0x6A => (Instruction::ROR, AddressMode::Accumulator),
        0x66 => (Instruction::ROR, AddressMode::ZeroPage),
        0x76 => (Instruction::ROR, AddressMode::ZeroPageIndexedWithX),
        0x40 => (Instruction::RTI, AddressMode::Stack),
        0x60 => (Instruction::RTS, AddressMode::Stack),
        0xED => (Instruction::SBC, AddressMode::Absolute),
        0xFD => (Instruction::SBC, AddressMode::AbsoluteIndexedWithX),
        0xF9 => (Instruction::SBC, AddressMode::AbsoluteIndexedWithY),
        0xE9 => (Instruction::SBC, AddressMode::ImmediateAddressing),
        0xE5 => (Instruction::SBC, AddressMode::ZeroPage),
        0xE1 => (Instruction::SBC, AddressMode::ZeroPageIndexedIndirect),
        0xF5 => (Instruction::SBC, AddressMode::ZeroPageIndexedWithX),
        0xF2 => (Instruction::SBC, AddressMode::ZeroPageIndirect),
        0xF1 => (Instruction::SBC, AddressMode::ZeroPageIndirectIndexedWithY),
        0x38 => (Instruction::SEC, AddressMode::Implied),
        0xF8 => (Instruction::SED, AddressMode::Implied),
        0x78 => (Instruction::SEI, AddressMode::Implied),
        0x87 => (Instruction::SMB(0), AddressMode::ZeroPage),
        0x97 => (Instruction::SMB(1), AddressMode::ZeroPage),
        0xA7 => (Instruction::SMB(2), AddressMode::ZeroPage),
        0xB7 => (Instruction::SMB(3), AddressMode::ZeroPage),
        0xC7 => (Instruction::SMB(4), AddressMode::ZeroPage),
        0xD7 => (Instruction::SMB(5), AddressMode::ZeroPage),
        0xE7 => (Instruction::SMB(6), AddressMode::ZeroPage),
        0xF7 => (Instruction::SMB(7), AddressMode::ZeroPage),
        0x8D => (Instruction::STA, AddressMode::Absolute),
        0x9D => (Instruction::STA, AddressMode::AbsoluteIndexedWithX),
        0x99 => (Instruction::STA, AddressMode::AbsoluteIndexedWithY),
        0x85 => (Instruction::STA, AddressMode::ZeroPage),
        0x81 => (Instruction::STA, AddressMode::ZeroPageIndexedIndirect),
        0x95 => (Instruction::STA, AddressMode::ZeroPageIndexedWithX),
        0x92 => (Instruction::STA, AddressMode::ZeroPageIndirect),
        0x91 => (Instruction::STA, AddressMode::ZeroPageIndirectIndexedWithY),
        0xDB => (Instruction::STP, AddressMode::Implied),
        0x8E => (Instruction::STX, AddressMode::Absolute),
        0x86 => (Instruction::STX, AddressMode::ZeroPage),
        0x96 => (Instruction::STX, AddressMode::ZeroPageIndexedWithY),
        0x8C => (Instruction::STY, AddressMode::Absolute),
        0x84 => (Instruction::STY, AddressMode::ZeroPage),
        0x94 => (Instruction::STY, AddressMode::ZeroPageIndexedWithX),
        0x9C => (Instruction::STZ, AddressMode::Absolute),
        0x9E => (Instruction::STZ, AddressMode::AbsoluteIndexedWithX),
        0x64 => (Instruction::STZ, AddressMode::ZeroPage),
        0x74 => (Instruction::STZ, AddressMode::ZeroPageIndexedWithX),
        0xAA => (Instruction::TAX, AddressMode::Implied),
        0xA8 => (Instruction::TAY, AddressMode::Implied),
        0x1C => (Instruction::TRB, AddressMode::Absolute),
        0x14 => (Instruction::TRB, AddressMode::ZeroPage),
        0x0C => (Instruction::TSB, AddressMode::Absolute),
        0x04 => (Instruction::TSB, AddressMode::ZeroPage),
        0xBA => (Instruction::TSX, AddressMode::Implied),
        0x8A => (Instruction::TXA, AddressMode::Implied),
        0x9A => (Instruction::TXS, AddressMode::Implied),
        0x98 => (Instruction::TYA, AddressMode::Implied),
        0xCB => (Instruction::WAI, AddressMode::Implied),
    }
}

pub type Opcode = (Instruction, AddressMode);

/// Flags of the processor status register.
#[derive(Clone, Copy, Debug, PartialEq, Eq, Structural)]
pub enum CPUFlag {
    Carry,
    Zero,
    IRQB,
    Decimal,
    BRK,
    User,
    Overflow,
    Negative,
}

pub open spec fn flag_mask(f: CPUFlag) -> u8 {
    match f {
        CPUFlag::Carry => CARRY,
        CPUFlag::Zero => ZERO,
        CPUFlag::IRQB => IRQB,
        CPUFlag::Decimal => DECIMAL,
        CPUFlag::BRK => BREAK,
        CPUFlag::User => USER,
        CPUFlag::Overflow => OVERFLOW,
        CPUFlag::Negative => NEGATIVE,
    }
}

impl CPUFlag {
    pub fn mask(&self) -> (r: u8)
        ensures
            r == flag_mask(*self),
    {
        match self {
            CPUFlag::Carry => CARRY,
            CPUFlag::Zero => ZERO,
            CPUFlag::IRQB => IRQB,
            CPUFlag::Decimal => DECIMAL,
            CPUFlag::BRK => BREAK,
            CPUFlag::User => USER,
            CPUFlag::Overflow => OVERFLOW,
            CPUFlag::Negative => NEGATIVE,
        }
    }
}

/// Address of stack slot `s` (page 0x01).
pub open spec fn stack_addr(s: u8) -> u16 {
    (0x0100 + s as int) as u16
}

/// Program counter after a relative branch by the signed offset `off`.
pub open spec fn branch_target(pc: u16, off: u8) -> u16 {
    if off < 0x80 {
        ((pc as int + off as int) % 0x10000) as u16
    } else {
        ((pc as int + off as int + 0xFF00) % 0x10000) as u16
    }
}

/// The micro-sequenced CPU. Each `cycle` is one clock tick with at most
/// one bus access.
pub struct W65C02S<B: Bus> {
    pub state: CPUState,
    /// Instruction register: the instruction being executed.
    pub ir: Opcode,
    /// Timing control unit: the step within the instruction.
    pub tcu: u8,
    pub a: u8,
    pub x: u8,
    pub y: u8,
    pub p: u8,
    pub pc: u16,
    pub s: u8,
    pub temp8: u8,
    pub temp16: u16,
    /// Level of the interrupt request input.
    pub interrupt: bool,
    pub bus: B,
}

/// Whether an interrupt request is pending and enabled.
pub open spec fn interrupt_taken<B: Bus>(c: W65C02S<B>) -> bool {
    c.interrupt && c.p & IRQB == 0
}

/// `c1` holds the same registers as `c0` (the bus aside).
pub open spec fn same_regs<B: Bus>(c0: W65C02S<B>, c1: W65C02S<B>) -> bool {
    &&& c1.state == c0.state && c1.ir == c0.ir && c1.tcu == c0.tcu
    &&& c1.a == c0.a && c1.x == c0.x && c1.y == c0.y && c1.p == c0.p
    &&& c1.pc == c0.pc && c1.s == c0.s
    &&& c1.temp8 == c0.temp8 && c1.temp16 == c0.temp16 && c1.interrupt == c0.interrupt
}

/// One tick of the power-on sequence from `Init(n)`.
pub open spec fn init_step<B: Bus>(c0: W65C02S<B>, c1: W65C02S<B>, n: u8) -> bool {
    if n == 5 {
        same_regs(
            c1,
            W65C02S {
                pc: c0.bus.peek_spec(0xFFFC) as u16,
                state: CPUState::Init(6),
                bus: c1.bus,
                ..c0
            },
        )
    } else if n == 6 {
        same_regs(
            c1,
            W65C02S {
                pc: c0.pc | ((c0.bus.peek_spec(0xFFFD) as u16) << 8),
                state: CPUState::Run,
                bus: c1.bus,
                ..c0
            },
        )
    } else {
        c1 == W65C02S { state: CPUState::Init((n + 1) as u8), ..c0 }
    }
}

/// The first tick of an instruction: an enabled interrupt request starts
/// a break sequence; otherwise the opcode at PC is fetched and decoded.
pub open spec fn begin_step<B: Bus>(c0: W65C02S<B>, c1: W65C02S<B>) -> bool {
    if interrupt_taken(c0) {
        c1 == W65C02S { ir: (Instruction::BRK, AddressMode::Implied), tcu: 1, ..c0 }
    } else {
        let op = opcode(c0.bus.peek_spec(c0.pc));
        memory_kept(c0.bus, c1.bus) && same_regs(
            c1,
            W65C02S {
                ir: op,
                pc: c0.pc.wrapping_add(1),
                tcu: if op.0 == Instruction::NOP(1, 1) {
                    0
                } else {
                    1
                },
                bus: c1.bus,
                ..c0
            },
        )
    }
}

/// A tick in `Wait`: only an enabled interrupt request resumes, with the
/// break sequence.
pub open spec fn wait_step<B: Bus>(c0: W65C02S<B>, c1: W65C02S<B>) -> bool {
    if interrupt_taken(c0) {
        c1 == W65C02S {
            ir: (Instruction::BRK, AddressMode::Implied),
            tcu: 1,
            state: CPUState::Run,
            ..c0
        }
    } else {
        c1 == c0
    }
}

/// A later tick of an instruction: it either moves to the next step or
/// completes the instruction (TCU back to 0), or the CPU stops.
pub open spec fn later_step<B: Bus>(c0: W65C02S<B>, c1: W65C02S<B>) -> bool {
    &&& c1.bus.wf()
    &&& c1.tcu <= 8
    &&& c1.interrupt == c0.interrupt
    &&& c1.state == CPUState::Halt || (c1.state == CPUState::Wait && c1.tcu == 0) || (c1.state
        == CPUState::Run && (c1.tcu == 0 || c1.tcu == c0.tcu + 1))
}

/// A memory byte `v` after the modify tick of a read-modify-write
/// instruction, with the new status: `(byte, P)`.
pub open spec fn modify(ins: Instruction, v: u8, a: u8, p: u8) -> (u8, u8) {
    match ins {
        Instruction::ASL => asl(v, p),
        Instruction::LSR => lsr(v, p),
        Instruction::ROL => rol(v, p),
        Instruction::ROR => ror(v, p),
        Instruction::DEC => (v.wrapping_sub(1), with_nz(p, v.wrapping_sub(1))),
        Instruction::INC => (v.wrapping_add(1), with_nz(p, v.wrapping_add(1))),
        Instruction::TRB => (v & !a, with_flag(p, ZERO, v & a == 0)),
        Instruction::TSB => (v | a, with_flag(p, ZERO, v & a == 0)),
        Instruction::RMB(n) => (v & !(1u8 << (n & 7)), p),
        Instruction::SMB(n) => (v | (1u8 << (n & 7)), p),
        _ => (v, p),
    }
}

/// The ticks of a read-modify-write instruction: read the byte at temp16,
/// modify it, (an idle tick for indexed shifts and rotates), write it back.
pub open spec fn rmw_step<B: Bus>(c0: W65C02S<B>, c1: W65C02S<B>) -> bool {
    let base = rmw_start(c0.ir.1);
    let shifts = match c0.ir.0 {
        Instruction::ASL | Instruction::LSR | Instruction::ROL | Instruction::ROR => true,
        _ => false,
    };
    let idle = shifts && c0.ir.1 == AddressMode::AbsoluteIndexedWithX;
    let next = (c0.tcu + 1) as u8;
    if c0.tcu == base {
        same_regs(c1, W65C02S { temp8: c0.bus.peek_spec(c0.temp16), tcu: next, bus: c1.bus, ..c0 })
    } else if c0.tcu == base + 1 {
        let r = modify(c0.ir.0, c0.temp8, c0.a, c0.p);
        c1 == W65C02S { temp8: r.0, p: r.1, tcu: next, ..c0 }
    } else if idle && c0.tcu == base + 2 {
        c1 == W65C02S { tcu: next, ..c0 }
    } else {
        &&& stored(c0.bus, c1.bus, c0.temp16, c0.temp8)
        &&& same_regs(c1, W65C02S { tcu: 0, bus: c1.bus, ..c0 })
    }
}

/// `c1` is `c0` with `v` pushed: written at the stack slot, S moved down.
pub open spec fn pushed<B: Bus>(c0: W65C02S<B>, c1: W65C02S<B>, v: u8, tcu: u8) -> bool {
    &&& stored(c0.bus, c1.bus, stack_addr(c0.s), v)
    &&& same_regs(c1, W65C02S { s: c0.s.wrapping_sub(1), tcu, bus: c1.bus, ..c0 })
}

/// The byte a pull reads, and S after it.
pub open spec fn pulled<B: Bus>(c0: W65C02S<B>) -> (u8, u8) {
    (c0.bus.peek_spec(stack_addr(c0.s.wrapping_add(1))), c0.s.wrapping_add(1))
}

/// The break sequence: push PC high, PC low, P (with Break and User set),
/// then set InterruptDisable, clear Decimal, and load PC from 0xFFFE.
pub open spec fn brk_step<B: Bus>(c0: W65C02S<B>, c1: W65C02S<B>) -> bool {
    let t = c0.tcu;
    if t == 1 && c0.ir.1 == AddressMode::Implied {
        c1 == W65C02S { tcu: 2, ..c0 }
    } else if t == 1 {
        same_regs(c1, W65C02S {
            p: c0.p | BREAK,
            pc: c0.pc.wrapping_add(1),
            tcu: 2,
            bus: c1.bus,
            ..c0
        })
    } else if t == 2 {
        pushed(c0, c1, (c0.pc >> 8) as u8, 3)
    } else if t == 3 {
        pushed(c0, c1, (c0.pc & 0xff) as u8, 4)
    } else if t == 4 {
        pushed(c0, c1, c0.p | BREAK | USER, 5)
    } else if t == 5 {
        same_regs(c1, W65C02S {
            p: (c0.p | IRQB) & !DECIMAL,
            pc: c0.bus.peek_spec(0xFFFE) as u16,
            tcu: 6,
            bus: c1.bus,
            ..c0
        })
    } else {
        same_regs(c1, W65C02S {
            pc: c0.pc | ((c0.bus.peek_spec(0xFFFF) as u16) << 8),
            tcu: 0,
            bus: c1.bus,
            ..c0
        })
    }
}

/// Jumps, the subroutine call and the returns.
pub open spec fn flow_step<B: Bus>(c0: W65C02S<B>, c1: W65C02S<B>) -> bool {
    let (i, m, t) = (c0.ir.0, c0.ir.1, c0.tcu);
    let b = c0.bus;
    let next = (t + 1) as u8;
    if i == Instruction::JMP {
        if m == AddressMode::Absolute {
            same_regs(c1, W65C02S {
                pc: c0.temp16 | ((b.peek_spec(c0.pc) as u16) << 8),
                tcu: 0,
                bus: c1.bus,
                ..c0
            })
        } else if t == 3 {
            same_regs(c1, W65C02S { temp8: b.peek_spec(c0.temp16), tcu: next, bus: c1.bus, ..c0 })
        } else if t == 4 && m == AddressMode::AbsoluteIndexedIndirect {
            c1 == W65C02S { tcu: next, ..c0 }
        } else {
            same_regs(c1, W65C02S {
                pc: (c0.temp8 as u16) | ((b.peek_spec(c0.temp16.wrapping_add(1)) as u16) << 8),
                tcu: 0,
                bus: c1.bus,
                ..c0
            })
        }
    } else if i == Instruction::JSR {
        if t == 1 {
            same_regs(c1, W65C02S {
                temp16: b.peek_spec(c0.pc) as u16,
                pc: c0.pc.wrapping_add(1),
                tcu: next,
                bus: c1.bus,
                ..c0
            })
        } else if t == 2 {
            same_regs(c1, W65C02S { tcu: next, bus: c1.bus, ..c0 })
        } else if t == 3 {
            pushed(c0, c1, (c0.pc >> 8) as u8, next)
        } else if t == 4 {
            pushed(c0, c1, (c0.pc & 0xFF) as u8, next)
        } else {
            let target = c0.temp16 | ((b.peek_spec(c0.pc) as u16) << 8);
            same_regs(c1, W65C02S { temp16: target, pc: target, tcu: 0, bus: c1.bus, ..c0 })
        }
    } else if i == Instruction::RTI {
        if t == 1 {
            same_regs(c1, W65C02S {
                p: pulled(c0).0,
                s: pulled(c0).1,
                tcu: next,
                bus: c1.bus,
                ..c0
            })
        } else if t == 2 || t == 4 {
            c1 == W65C02S { tcu: next, ..c0 }
        } else if t == 3 {
            same_regs(c1, W65C02S {
                pc: pulled(c0).0 as u16,
                s: pulled(c0).1,
                tcu: next,
                bus: c1.bus,
                ..c0
            })
        } else {
            same_regs(c1, W65C02S {
                pc: c0.pc | ((pulled(c0).0 as u16) << 8),
                s: pulled(c0).1,
                tcu: 0,
                bus: c1.bus,
                ..c0
            })
        }
    } else {
        if t == 1 {
            same_regs(c1, W65C02S { pc: c0.pc.wrapping_add(1), tcu: next, bus: c1.bus, ..c0 })
        } else if t == 2 {
            same_regs(c1, W65C02S { tcu: next, bus: c1.bus, ..c0 })
        } else if t == 3 {
            same_regs(c1, W65C02S {
                temp16: pulled(c0).0 as u16,
                s: pulled(c0).1,
                tcu: next,
                bus: c1.bus,
                ..c0
            })
        } else if t == 4 {
            same_regs(c1, W65C02S {
                temp16: c0.temp16 | ((pulled(c0).0 as u16) << 8),
                s: pulled(c0).1,
                tcu: next,
                bus: c1.bus,
                ..c0
            })
        } else {
            same_regs(c1, W65C02S { pc: c0.temp16.wrapping_add(1), tcu: 0, bus: c1.bus, ..c0 })
        }
    }
}

/// The later ticks of a push (complete) or a pull (flags, then complete).
pub open spec fn stack_finish_step<B: Bus>(c0: W65C02S<B>, c1: W65C02S<B>) -> bool {
    if pushes(c0.ir.0) || c0.tcu == 3 {
        c1 == W65C02S { tcu: 0, ..c0 }
    } else {
        let p = match c0.ir.0 {
            Instruction::PLA => with_nz(c0.p, c0.a),
            Instruction::PLX => with_nz(c0.p, c0.x),
            Instruction::PLY => with_nz(c0.p, c0.y),
            _ => c0.p,
        };
        c1 == W65C02S { p, tcu: 3, ..c0 }
    }
}

/// The bit-test branches: zero-page address, offset, the byte, then the
/// branch when bit n of the byte is set (BBS) or clear (BBR).
pub open spec fn bit_branch_step<B: Bus>(c0: W65C02S<B>, c1: W65C02S<B>) -> bool {
    let t = c0.tcu;
    let b = c0.bus;
    let next = (t + 1) as u8;
    if t == 1 {
        same_regs(c1, W65C02S {
            temp16: b.peek_spec(c0.pc) as u16,
            pc: c0.pc.wrapping_add(1),
            tcu: next,
            bus: c1.bus,
            ..c0
        })
    } else if t == 2 {
        same_regs(c1, W65C02S {
            temp8: b.peek_spec(c0.pc),
            pc: c0.pc.wrapping_add(1),
            tcu: next,
            bus: c1.bus,
            ..c0
        })
    } else if t == 3 {
        same_regs(c1, W65C02S {
            temp16: b.peek_spec(c0.temp16) as u16,
            tcu: next,
            bus: c1.bus,
            ..c0
        })
    } else {
        let (n, wanted) = match c0.ir.0 {
            Instruction::BBS(n) => (n, true),
            Instruction::BBR(n) => (n, false),
            _ => (0u8, false),
        };
        let set = (c0.temp16 >> ((n & 7) as u16)) & 1 == 1;
        c1 == W65C02S {
            pc: if set == wanted { branch_target(c0.pc, c0.temp8) } else { c0.pc },
            tcu: 0,
            ..c0
        }
    }
}

/// STP, WAI and the no-operation opcodes. A `NOP(bytes, cycles)` reads
/// its remaining `bytes - 1` program bytes and completes after `cycles`
/// ticks in all.
pub open spec fn misc_step<B: Bus>(c0: W65C02S<B>, c1: W65C02S<B>) -> bool {
    let t = c0.tcu;
    match c0.ir.0 {
        Instruction::NOP(bytes, cycles) => same_regs(
            c1,
            W65C02S {
                pc: if t < bytes { c0.pc.wrapping_add(1) } else { c0.pc },
                tcu: if t + 1 >= cycles || t >= 7 { 0 } else { (t + 1) as u8 },
                bus: c1.bus,
                ..c0
            },
        ),
        Instruction::STP => if t == 1 {
            c1 == W65C02S { tcu: 2, ..c0 }
        } else {
            c1 == W65C02S { state: CPUState::Halt, ..c0 }
        },
        _ => if t == 1 {
            c1 == W65C02S { tcu: 2, ..c0 }
        } else {
            c1 == W65C02S { p: c0.p | BREAK, state: CPUState::Wait, tcu: 0, ..c0 }
        },
    }
}

/// Whether this tick writes to the bus.
pub open spec fn writes<B: Bus>(c: W65C02S<B>) -> bool {
    let base = rmw_start(c.ir.1);
    let shifts = match c.ir.0 {
        Instruction::ASL | Instruction::LSR | Instruction::ROL | Instruction::ROR => true,
        _ => false,
    };
    let idle = shifts && c.ir.1 == AddressMode::AbsoluteIndexedWithX;
    ||| store_handles(c) && !store_idle_step(c.ir.0, c.ir.1, c.tcu)
    ||| rmw_handles(c) && ((!idle && c.tcu == base + 2) || (idle && c.tcu == base + 3))
    ||| stack_handles(c) && pushes(c.ir.0) && c.tcu == 1
    ||| brk_handles(c) && 2 <= c.tcu <= 4
    ||| flow_handles(c) && c.ir.0 == Instruction::JSR && (c.tcu == 3 || c.tcu == 4)
}

/// A tick of an instruction after its first.
#[verifier::opaque]
pub open spec fn run_step<B: Bus>(c0: W65C02S<B>, c1: W65C02S<B>) -> bool {
    &&& later_step(c0, c1)
    &&& !writes(c0) ==> memory_kept(c0.bus, c1.bus)
    &&& read_handles(c0) ==> read_step(c0, c1)
    &&& (register_result(c0) matches Some(v) ==> c1 == W65C02S {
        a: v.0,
        x: v.1,
        y: v.2,
        p: v.3,
        s: v.4,
        tcu: 0,
        ..c0
    })
    &&& store_handles(c0) ==> store_step(c0, c1)
    &&& branch_handles(c0) && c0.tcu == 1 && branch_taken(c0.ir.0, c0.p) is Some
        ==> branch_offset_step(c0, c1)
    &&& stack_handles(c0) && c0.tcu == 1 ==> stack_transfer_step(c0, c1)
    &&& rmw_handles(c0) ==> rmw_step(c0, c1)
    &&& brk_handles(c0) ==> brk_step(c0, c1)
    &&& flow_handles(c0) ==> flow_step(c0, c1)
    &&& stack_handles(c0) && c0.tcu >= 2 ==> stack_finish_step(c0, c1)
    &&& branch_handles(c0) && is_bit_branch(c0.ir.0) ==> bit_branch_step(c0, c1)
    &&& misc_handles(c0) ==> misc_step(c0, c1)
    &&& !instruction_handles(c0) ==> mode_step(c0, c1)
}

/// `c1` is `c0` after one clock tick.
pub open spec fn ticked<B: Bus>(c0: W65C02S<B>, c1: W65C02S<B>) -> bool {
    match c0.state {
        CPUState::Halt => c1 == c0,
        CPUState::Wait => wait_step(c0, c1),
        CPUState::Init(n) => init_step(c0, c1, n),
        CPUState::Run => if c0.tcu == 0 {
            begin_step(c0, c1)
        } else {
            run_step(c0, c1)
        },
    }
}

/// Instructions that read one operand byte.
pub open spec fn reads_operand(i: Instruction) -> bool {
    match i {
        Instruction::ADC | Instruction::AND | Instruction::BIT | Instruction::CMP
        | Instruction::CPX | Instruction::CPY | Instruction::EOR | Instruction::LDA
        | Instruction::LDX | Instruction::LDY | Instruction::ORA | Instruction::SBC => true,
        _ => false,
    }
}

/// The extra tick that decimal-mode ADC and SBC take after the operand.
pub open spec fn decimal_tail<B: Bus>(c: W65C02S<B>) -> bool {
    (c.ir.0 == Instruction::ADC || c.ir.0 == Instruction::SBC) && c.tcu >= 2 && operand_step(
        c.ir.1,
        (c.tcu - 1) as u8,
    )
}

/// Whether this tick belongs to a read-type instruction: its operand read
/// or its decimal-mode extra tick.
pub open spec fn read_handles<B: Bus>(c: W65C02S<B>) -> bool {
    reads_operand(c.ir.0) && (decimal_tail(c) || operand_step(c.ir.1, c.tcu))
}

/// Registers `(A, X, Y, P, temp8)` after a read-type instruction takes
/// `op`, and whether it is complete (decimal ADC and SBC take one more
/// tick).
pub open spec fn operate(
    ins: Instruction,
    c_a: u8,
    c_x: u8,
    c_y: u8,
    c_p: u8,
    c_t8: u8,
    op: u8,
    immediate: bool,
) -> (u8, u8, u8, u8, u8, bool) {
    let decimal = c_p & DECIMAL != 0;
    match ins {
        Instruction::ADC => {
            let (a, p) = if decimal { adc_decimal(c_a, op, c_p) } else { adc_binary(c_a, op, c_p) };
            (a, c_x, c_y, p, c_t8, !decimal)
        },
        Instruction::SBC => {
            let (a, p) = if decimal { sbc_decimal(c_a, op, c_p) } else { sbc_binary(c_a, op, c_p) };
            (a, c_x, c_y, p, c_t8, !decimal)
        },
        Instruction::AND => (c_a & op, c_x, c_y, with_nz(c_p, c_a & op), c_t8, true),
        Instruction::ORA => (c_a | op, c_x, c_y, with_nz(c_p, c_a | op), c_t8, true),
        Instruction::EOR => (c_a ^ op, c_x, c_y, with_nz(c_p, c_a ^ op), c_t8, true),
        Instruction::LDA => (op, c_x, c_y, with_nz(c_p, op), c_t8, true),
        Instruction::LDX => (c_a, op, c_y, with_nz(c_p, op), c_t8, true),
        Instruction::LDY => (c_a, c_x, op, with_nz(c_p, op), c_t8, true),
        Instruction::CMP => (c_a, c_x, c_y, compare(c_a, op, c_p), op, true),
        Instruction::CPX => (c_a, c_x, c_y, compare(c_x, op, c_p), op, true),
        Instruction::CPY => (c_a, c_x, c_y, compare(c_y, op, c_p), op, true),
        _ => (c_a, c_x, c_y, bit_test(c_a, op, c_p, immediate), c_t8, true),
    }
}

/// A tick of a read-type instruction: the decimal extra tick completes;
/// otherwise the operand (next program byte, or the byte at temp16) goes
/// through the instruction's operation.
pub open spec fn read_step<B: Bus>(c0: W65C02S<B>, c1: W65C02S<B>) -> bool {
    if decimal_tail(c0) {
        c1 == W65C02S { tcu: 0, ..c0 }
    } else {
        let imm = c0.ir.1 == AddressMode::ImmediateAddressing;
        let op = if imm { c0.bus.peek_spec(c0.pc) } else { c0.bus.peek_spec(c0.temp16) };
        let r = operate(c0.ir.0, c0.a, c0.x, c0.y, c0.p, c0.temp8, op, imm);
        same_regs(
            c1,
            W65C02S {
                a: r.0,
                x: r.1,
                y: r.2,
                p: r.3,
                temp8: r.4,
                pc: if imm { c0.pc.wrapping_add(1) } else { c0.pc },
                tcu: if r.5 { 0 } else { (c0.tcu + 1) as u8 },
                bus: c1.bus,
                ..c0
            },
        )
    }
}

/// Registers `(A, X, Y, P, S)` after a single-tick register instruction,
/// or `None` for any other instruction.
pub open spec fn register_op(
    ins: Instruction,
    accumulator: bool,
    a: u8,
    x: u8,
    y: u8,
    p: u8,
    s: u8,
) -> Option<(u8, u8, u8, u8, u8)> {
    match ins {
        Instruction::ASL if accumulator => Some((asl(a, p).0, x, y, asl(a, p).1, s)),
        Instruction::LSR if accumulator => Some((lsr(a, p).0, x, y, lsr(a, p).1, s)),
        Instruction::ROL if accumulator => Some((rol(a, p).0, x, y, rol(a, p).1, s)),
        Instruction::ROR if accumulator => Some((ror(a, p).0, x, y, ror(a, p).1, s)),
        Instruction::DEC if accumulator => {
            Some((a.wrapping_sub(1), x, y, with_nz(p, a.wrapping_sub(1)), s))
        },
        Instruction::INC if accumulator => {
            Some((a.wrapping_add(1), x, y, with_nz(p, a.wrapping_add(1)), s))
        },
        Instruction::CLC => Some((a, x, y, with_flag(p, CARRY, false), s)),
        Instruction::CLD => Some((a, x, y, with_flag(p, DECIMAL, false), s)),
        Instruction::CLI => Some((a, x, y, with_flag(p, IRQB, false), s)),
        Instruction::CLV => Some((a, x, y, with_flag(p, OVERFLOW, false), s)),
        Instruction::SEC => Some((a, x, y, with_flag(p, CARRY, true), s)),
        Instruction::SED => Some((a, x, y, with_flag(p, DECIMAL, true), s)),
        Instruction::SEI => Some((a, x, y, with_flag(p, IRQB, true), s)),
        Instruction::DEX => Some((a, x.wrapping_sub(1), y, with_nz(p, x.wrapping_sub(1)), s)),
        Instruction::DEY => Some((a, x, y.wrapping_sub(1), with_nz(p, y.wrapping_sub(1)), s)),
        Instruction::INX => Some((a, x.wrapping_add(1), y, with_nz(p, x.wrapping_add(1)), s)),
        Instruction::INY => Some((a, x, y.wrapping_add(1), with_nz(p, y.wrapping_add(1)), s)),
        Instruction::TAX => Some((a, a, y, with_nz(p, a), s)),
        Instruction::TAY => Some((a, x, a, with_nz(p, a), s)),
        Instruction::TSX => Some((a, s, y, with_nz(p, s), s)),
        Instruction::TXA => Some((x, x, y, with_nz(p, x), s)),
        Instruction::TXS => Some((a, x, y, p, x)),
        Instruction::TYA => Some((y, x, y, with_nz(p, y), s)),
        _ => None,
    }
}

/// The result of a register instruction's single tick, if this is one.
pub open spec fn register_result<B: Bus>(c: W65C02S<B>) -> Option<(u8, u8, u8, u8, u8)> {
    if c.tcu == 1 {
        register_op(c.ir.0, c.ir.1 == AddressMode::Accumulator, c.a, c.x, c.y, c.p, c.s)
    } else {
        None
    }
}

/// Instructions that read, modify and write back a memory byte.
pub open spec fn modifies_memory(i: Instruction) -> bool {
    match i {
        Instruction::ASL | Instruction::LSR | Instruction::ROL | Instruction::ROR
        | Instruction::DEC | Instruction::INC | Instruction::TRB | Instruction::TSB
        | Instruction::RMB(_) | Instruction::SMB(_) => true,
        _ => false,
    }
}

/// The tick at which a read-modify-write instruction reads memory (0: the
/// mode has none).
pub open spec fn rmw_start(mode: AddressMode) -> u8 {
    match mode {
        AddressMode::ZeroPage => 2,
        AddressMode::ZeroPageIndexedWithX | AddressMode::Absolute
        | AddressMode::AbsoluteIndexedWithX => 3,
        _ => 0,
    }
}

pub open spec fn rmw_handles<B: Bus>(c: W65C02S<B>) -> bool {
    let base = rmw_start(c.ir.1);
    let shifts = match c.ir.0 {
        Instruction::ASL | Instruction::LSR | Instruction::ROL | Instruction::ROR => true,
        _ => false,
    };
    let idle = shifts && c.ir.1 == AddressMode::AbsoluteIndexedWithX;
    modifies_memory(c.ir.0) && base != 0 && (c.tcu == base || c.tcu == base + 1 || c.tcu == base
        + 2 || (idle && c.tcu == base + 3))
}

/// The tick at which a store writes (0: the mode has none).
pub open spec fn store_write_step(ins: Instruction, mode: AddressMode) -> u8 {
    match mode {
        AddressMode::ZeroPage => 2,
        AddressMode::ZeroPageIndexedWithX | AddressMode::ZeroPageIndexedWithY
        | AddressMode::Absolute => 3,
        AddressMode::AbsoluteIndexedWithX => if ins == Instruction::STA {
            4
        } else {
            3
        },
        AddressMode::AbsoluteIndexedWithY | AddressMode::ZeroPageIndirect => 4,
        AddressMode::ZeroPageIndexedIndirect | AddressMode::ZeroPageIndirectIndexedWithY => 5,
        _ => 0,
    }
}

/// Whether this is the idle tick that an indexed store of A takes.
pub open spec fn store_idle_step(ins: Instruction, mode: AddressMode, tcu: u8) -> bool {
    match mode {
        AddressMode::AbsoluteIndexedWithX => ins == Instruction::STA && tcu == 3,
        AddressMode::AbsoluteIndexedWithY => tcu == 3,
        AddressMode::ZeroPageIndirectIndexedWithY => tcu == 4,
        _ => false,
    }
}

pub open spec fn stores(i: Instruction) -> bool {
    i == Instruction::STA || i == Instruction::STX || i == Instruction::STY || i
        == Instruction::STZ
}

pub open spec fn store_handles<B: Bus>(c: W65C02S<B>) -> bool {
    stores(c.ir.0) && (store_idle_step(c.ir.0, c.ir.1, c.tcu) || (store_write_step(c.ir.0, c.ir.1)
        != 0 && c.tcu == store_write_step(c.ir.0, c.ir.1)))
}

/// The byte a store writes.
pub open spec fn stored_value<B: Bus>(c: W65C02S<B>) -> u8 {
    match c.ir.0 {
        Instruction::STA => c.a,
        Instruction::STX => c.x,
        Instruction::STY => c.y,
        _ => 0,
    }
}

/// A store's write tick: the byte goes to temp16 and the instruction
/// completes.
pub open spec fn store_step<B: Bus>(c0: W65C02S<B>, c1: W65C02S<B>) -> bool {
    if store_idle_step(c0.ir.0, c0.ir.1, c0.tcu) {
        c1 == W65C02S { tcu: (c0.tcu + 1) as u8, ..c0 }
    } else {
        &&& stored(c0.bus, c1.bus, c0.temp16, stored_value(c0))
        &&& same_regs(c1, W65C02S { tcu: 0, bus: c1.bus, ..c0 })
    }
}

/// Whether a conditional branch (or BRA) is taken with status `p`.
pub open spec fn branch_taken(ins: Instruction, p: u8) -> Option<bool> {
    match ins {
        Instruction::BCC => Some(p & CARRY == 0),
        Instruction::BCS => Some(p & CARRY == CARRY),
        Instruction::BEQ => Some(p & ZERO == ZERO),
        Instruction::BNE => Some(p & ZERO == 0),
        Instruction::BMI => Some(p & NEGATIVE == NEGATIVE),
        Instruction::BPL => Some(p & NEGATIVE == 0),
        Instruction::BVC => Some(p & OVERFLOW == 0),
        Instruction::BVS => Some(p & OVERFLOW == OVERFLOW),
        Instruction::BRA => Some(true),
        _ => None,
    }
}

/// BBR and BBS.
pub open spec fn is_bit_branch(i: Instruction) -> bool {
    i matches Instruction::BBR(_) || i matches Instruction::BBS(_)
}

pub open spec fn branch_handles<B: Bus>(c: W65C02S<B>) -> bool {
    c.ir.1 == AddressMode::ProgramCounterRelative && ((c.tcu == 1 && branch_taken(c.ir.0, c.p)
        is Some) || (c.ir.0 matches Instruction::BBR(_) || c.ir.0 matches Instruction::BBS(_))
        && 1 <= c.tcu <= 4)
}

/// The offset tick of a branch: the offset is fetched; a taken branch goes
/// on to the step that adds it to PC, an untaken one completes.
pub open spec fn branch_offset_step<B: Bus>(c0: W65C02S<B>, c1: W65C02S<B>) -> bool {
    same_regs(
        c1,
        W65C02S {
            temp8: c0.bus.peek_spec(c0.pc),
            pc: c0.pc.wrapping_add(1),
            tcu: if branch_taken(c0.ir.0, c0.p) == Some(true) {
                2
            } else {
                0
            },
            bus: c1.bus,
            ..c0
        },
    )
}

pub open spec fn brk_handles<B: Bus>(c: W65C02S<B>) -> bool {
    c.ir.0 == Instruction::BRK && ((c.tcu == 1 && (c.ir.1 == AddressMode::Implied || c.ir.1
        == AddressMode::Stack)) || 2 <= c.tcu <= 6)
}

pub open spec fn flow_handles<B: Bus>(c: W65C02S<B>) -> bool {
    let (i, m, t) = (c.ir.0, c.ir.1, c.tcu);
    ||| i == Instruction::JMP && m == AddressMode::Absolute && t == 2
    ||| i == Instruction::JMP && m == AddressMode::AbsoluteIndirect && (t == 3 || t == 4)
    ||| i == Instruction::JMP && m == AddressMode::AbsoluteIndexedIndirect && 3 <= t <= 5
    ||| i == Instruction::JSR && m == AddressMode::Absolute && 1 <= t <= 5
    ||| (i == Instruction::RTI || i == Instruction::RTS) && m == AddressMode::Stack && 1 <= t <= 5
}

pub open spec fn pushes(i: Instruction) -> bool {
    i == Instruction::PHA || i == Instruction::PHP || i == Instruction::PHX || i
        == Instruction::PHY
}

pub open spec fn pulls(i: Instruction) -> bool {
    i == Instruction::PLA || i == Instruction::PLP || i == Instruction::PLX || i
        == Instruction::PLY
}

pub open spec fn stack_handles<B: Bus>(c: W65C02S<B>) -> bool {
    c.ir.1 == AddressMode::Stack && ((pushes(c.ir.0) && 1 <= c.tcu <= 2) || (pulls(c.ir.0) && 1
        <= c.tcu <= 3))
}

/// The byte a push writes.
pub open spec fn pushed_value<B: Bus>(c: W65C02S<B>) -> u8 {
    match c.ir.0 {
        Instruction::PHA => c.a,
        Instruction::PHX => c.x,
        Instruction::PHY => c.y,
        _ => c.p | BREAK | USER,
    }
}

/// The first tick of a push or a pull: the byte is written below S, or
/// read above it into the register.
pub open spec fn stack_transfer_step<B: Bus>(c0: W65C02S<B>, c1: W65C02S<B>) -> bool {
    if pushes(c0.ir.0) {
        &&& stored(c0.bus, c1.bus, stack_addr(c0.s), pushed_value(c0))
        &&& same_regs(c1, W65C02S { s: c0.s.wrapping_sub(1), tcu: 2, bus: c1.bus, ..c0 })
    } else {
        let s = c0.s.wrapping_add(1);
        let v = c0.bus.peek_spec(stack_addr(s));
        same_regs(
            c1,
            W65C02S {
                s,
                a: if c0.ir.0 == Instruction::PLA { v } else { c0.a },
                x: if c0.ir.0 == Instruction::PLX { v } else { c0.x },
                y: if c0.ir.0 == Instruction::PLY { v } else { c0.y },
                p: if c0.ir.0 == Instruction::PLP { v } else { c0.p },
                tcu: 2,
                bus: c1.bus,
                ..c0
            },
        )
    }
}

pub open spec fn misc_handles<B: Bus>(c: W65C02S<B>) -> bool {
    c.ir.1 == AddressMode::Implied && (((c.ir.0 == Instruction::STP || c.ir.0 == Instruction::WAI)
        && 1 <= c.tcu <= 2) || c.ir.0 matches Instruction::NOP(_, _))
}

/// Whether some instruction-specific step handles this tick; otherwise the
/// address-mode steps apply.
pub open spec fn instruction_handles<B: Bus>(c: W65C02S<B>) -> bool {
    ||| read_handles(c)
    ||| rmw_handles(c)
    ||| register_result(c) is Some
    ||| store_handles(c)
    ||| branch_handles(c)
    ||| brk_handles(c)
    ||| flow_handles(c)
    ||| stack_handles(c)
    ||| misc_handles(c)
}

/// The shared address-mode steps: building the effective address in
/// temp16 (through temp8 for the indirect zero-page modes), and adding a
/// branch offset to PC. A tick that nothing handles halts the CPU.
pub open spec fn mode_step<B: Bus>(c0: W65C02S<B>, c1: W65C02S<B>) -> bool {
    let m = c0.ir.1;
    let t = c0.tcu;
    let next = (t + 1) as u8;
    let b = c0.bus;
    let hi = |v: u8| (v as u16) << 8;
    if t == 1 && (m == AddressMode::Absolute || m == AddressMode::AbsoluteIndexedIndirect || m
        == AddressMode::AbsoluteIndexedWithX || m == AddressMode::AbsoluteIndexedWithY || m
        == AddressMode::AbsoluteIndirect || m == AddressMode::ZeroPage || m
        == AddressMode::ZeroPageIndexedWithX || m == AddressMode::ZeroPageIndexedWithY) {
        same_regs(c1, W65C02S {
            temp16: b.peek_spec(c0.pc) as u16,
            pc: c0.pc.wrapping_add(1),
            tcu: next,
            bus: c1.bus,
            ..c0
        })
    } else if t == 2 && (m == AddressMode::Absolute || m == AddressMode::AbsoluteIndirect) {
        same_regs(c1, W65C02S {
            temp16: c0.temp16 | hi(b.peek_spec(c0.pc)),
            pc: c0.pc.wrapping_add(1),
            tcu: next,
            bus: c1.bus,
            ..c0
        })
    } else if t == 2 && (m == AddressMode::AbsoluteIndexedWithX || m
        == AddressMode::AbsoluteIndexedIndirect) {
        same_regs(c1, W65C02S {
            temp16: (c0.temp16 | hi(b.peek_spec(c0.pc))).wrapping_add(c0.x as u16),
            pc: c0.pc.wrapping_add(1),
            tcu: next,
            bus: c1.bus,
            ..c0
        })
    } else if t == 2 && m == AddressMode::AbsoluteIndexedWithY {
        same_regs(c1, W65C02S {
            temp16: (c0.temp16 | hi(b.peek_spec(c0.pc))).wrapping_add(c0.y as u16),
            pc: c0.pc.wrapping_add(1),
            tcu: next,
            bus: c1.bus,
            ..c0
        })
    } else if t == 2 && m == AddressMode::ProgramCounterRelative {
        c1 == W65C02S { pc: branch_target(c0.pc, c0.temp8), tcu: 0, ..c0 }
    } else if t == 2 && m == AddressMode::ZeroPageIndexedWithX {
        c1 == W65C02S {
            temp16: (c0.temp16.wrapping_add(c0.x as u16) % 0x100) as u16,
            tcu: next,
            ..c0
        }
    } else if t == 2 && m == AddressMode::ZeroPageIndexedWithY {
        c1 == W65C02S {
            temp16: (c0.temp16.wrapping_add(c0.y as u16) % 0x100) as u16,
            tcu: next,
            ..c0
        }
    } else if t == 1 && (m == AddressMode::ZeroPageIndexedIndirect || m
        == AddressMode::ZeroPageIndirect || m == AddressMode::ZeroPageIndirectIndexedWithY) {
        same_regs(c1, W65C02S {
            temp8: b.peek_spec(c0.pc),
            pc: c0.pc.wrapping_add(1),
            tcu: next,
            bus: c1.bus,
            ..c0
        })
    } else if t == 2 && m == AddressMode::ZeroPageIndexedIndirect {
        c1 == W65C02S { temp8: c0.temp8.wrapping_add(c0.x), tcu: next, ..c0 }
    } else if (t == 3 && m == AddressMode::ZeroPageIndexedIndirect) || (t == 2 && (m
        == AddressMode::ZeroPageIndirect || m == AddressMode::ZeroPageIndirectIndexedWithY)) {
        same_regs(c1, W65C02S {
            temp16: b.peek_spec(c0.temp8 as u16) as u16,
            tcu: next,
            bus: c1.bus,
            ..c0
        })
    } else if (t == 4 && m == AddressMode::ZeroPageIndexedIndirect) || (t == 3 && m
        == AddressMode::ZeroPageIndirect) {
        same_regs(c1, W65C02S {
            temp16: c0.temp16 | hi(b.peek_spec(c0.temp8.wrapping_add(1) as u16)),
            tcu: next,
            bus: c1.bus,
            ..c0
        })
    } else if t == 3 && m == AddressMode::ZeroPageIndirectIndexedWithY {
        same_regs(c1, W65C02S {
            temp16: (c0.temp16 | hi(b.peek_spec(c0.temp8.wrapping_add(1) as u16))).wrapping_add(
                c0.y as u16,
            ),
            tcu: next,
            bus: c1.bus,
            ..c0
        })
    } else {
        c1 == W65C02S { state: CPUState::Halt, ..c0 }
    }
}

/// Which tick of a read-type instruction reads its operand.
pub open spec fn operand_step(mode: AddressMode, tcu: u8) -> bool {
    match mode {
        AddressMode::ImmediateAddressing => tcu == 1,
        AddressMode::ZeroPage => tcu == 2,
        AddressMode::ZeroPageIndexedWithX | AddressMode::ZeroPageIndexedWithY
        | AddressMode::Absolute | AddressMode::AbsoluteIndexedWithX
        | AddressMode::AbsoluteIndexedWithY => tcu == 3,
        AddressMode::ZeroPageIndexedIndirect => tcu == 5,
        AddressMode::ZeroPageIndirectIndexedWithY | AddressMode::ZeroPageIndirect => tcu == 4,
        _ => false,
    }
}

fn is_operand_step(mode: AddressMode, tcu: u8) -> (r: bool)
    ensures
        r == operand_step(mode, tcu),
{
    match mode {
        AddressMode::ImmediateAddressing => tcu == 1,
        AddressMode::ZeroPage => tcu == 2,
        AddressMode::ZeroPageIndexedWithX | AddressMode::ZeroPageIndexedWithY
        | AddressMode::Absolute | AddressMode::AbsoluteIndexedWithX
        | AddressMode::AbsoluteIndexedWithY => tcu == 3,
        AddressMode::ZeroPageIndexedIndirect => tcu == 5,
        AddressMode::ZeroPageIndirectIndexedWithY | AddressMode::ZeroPageIndirect => tcu == 4,
        _ => false,
    }
}

/// The tick at which a read-modify-write instruction reads memory.
fn rmw_base(mode: AddressMode) -> (r: u8)
    ensures
        r <= 3,
        r == rmw_start(mode),
{
    match mode {
        AddressMode::ZeroPage => 2,
        AddressMode::ZeroPageIndexedWithX | AddressMode::Absolute
        | AddressMode::AbsoluteIndexedWithX => 3,
        _ => 0,
    }
}

fn relative(pc: u16, off: u8) -> (r: u16)
    ensures
        r == branch_target(pc, off),
{
    if off < 0x80 {
        ((pc as u32 + off as u32) % 0x10000) as u16
    } else {
        ((pc as u32 + off as u32 + 0xFF00) % 0x10000) as u16
    }
}

impl<B: Bus> W65C02S<B> {
    pub open spec fn wf(&self) -> bool {
        &&& self.bus.wf()
        &&& self.tcu <= 8
        &&& self.state matches CPUState::Init(n) ==> n <= 6
    }

    /// A CPU in its power-on sequence, with all registers zero.
    pub fn new(bus: B) -> (r: W65C02S<B>)
        requires
            bus.wf(),
        ensures
            r.wf(),
            r.state == CPUState::Init(0),
            r.tcu == 0 && r.a == 0 && r.x == 0 && r.y == 0 && r.p == 0 && r.pc == 0 && r.s == 0,
            r.temp8 == 0 && r.temp16 == 0 && !r.interrupt,
            r.bus == bus,
    {
        W65C02S {
            state: CPUState::Init(0),
            ir: (Instruction::NOP(0, 0), AddressMode::Implied),
            tcu: 0,
            a: 0,
            x: 0,
            y: 0,
            p: 0,
            pc: 0,
            s: 0,
            temp8: 0,
            temp16: 0,
            interrupt: false,
            bus,
        }
    }

    pub fn is_halted(&self) -> (r: bool)
        ensures
            r == (self.state == CPUState::Halt),
    {
        match self.state {
            CPUState::Halt => true,
            _ => false,
        }
    }

    /// Sets the level of the interrupt request input.
    pub fn set_interrupt(&mut self, val: bool)
        ensures
            *final(self) == (W65C02S { interrupt: val, ..*old(self) }),
    {
        self.interrupt = val;
    }

    /// Stops the CPU; `cycle` then does nothing.
    pub fn halt(&mut self)
        ensures
            *final(self) == (W65C02S { state: CPUState::Halt, ..*old(self) }),
    {
        self.state = CPUState::Halt;
    }

    fn read(&mut self, addr: u16) -> (r: u8)
        requires
            old(self).bus.wf(),
        ensures
            memory_kept(old(self).bus, final(self).bus),
            final(self).bus.wf(),
            r == old(self).bus.peek_spec(addr),
            same_regs(*old(self), *final(self)),
    {
        self.bus.read(addr)
    }

    fn write(&mut self, addr: u16, val: u8)
        requires
            old(self).bus.wf(),
        ensures
            final(self).bus.wf(),
            stored(old(self).bus, final(self).bus, addr, val),
            same_regs(*old(self), *final(self)),
    {
        self.bus.write(addr, val)
    }

    fn stack_push(&mut self, val: u8)
        requires
            old(self).bus.wf(),
        ensures
            final(self).bus.wf(),
            stored(old(self).bus, final(self).bus, stack_addr(old(self).s), val),
            same_regs(*final(self), W65C02S {
                s: old(self).s.wrapping_sub(1),
                bus: final(self).bus,
                ..*old(self)
            }),
    {
        self.write(0x0100 + (self.s as u16), val);
        self.s = self.s.wrapping_sub(1);
    }

    fn stack_pop(&mut self) -> (r: u8)
        requires
            old(self).bus.wf(),
        ensures
            memory_kept(old(self).bus, final(self).bus),
            final(self).bus.wf(),
            r == old(self).bus.peek_spec(stack_addr(old(self).s.wrapping_add(1))),
            same_regs(*final(self), W65C02S {
                s: old(self).s.wrapping_add(1),
                bus: final(self).bus,
                ..*old(self)
            }),
    {
        self.s = self.s.wrapping_add(1);
        self.read(0x0100 + (self.s as u16))
    }

    fn stack_peek(&mut self) -> (r: u8)
        requires
            old(self).bus.wf(),
        ensures
            memory_kept(old(self).bus, final(self).bus),
            final(self).bus.wf(),
            r == old(self).bus.peek_spec(stack_addr(old(self).s)),
            same_regs(*old(self), *final(self)),
    {
        self.read(0x0100 + (self.s as u16))
    }

    /// Reads the byte at PC and advances PC.
    fn fetch(&mut self) -> (r: u8)
        requires
            old(self).bus.wf(),
        ensures
            memory_kept(old(self).bus, final(self).bus),
            final(self).bus.wf(),
            r == old(self).bus.peek_spec(old(self).pc),
            same_regs(*final(self), W65C02S {
                pc: old(self).pc.wrapping_add(1),
                bus: final(self).bus,
                ..*old(self)
            }),
    {
        let val = self.read(self.pc);
        self.pc = self.pc.wrapping_add(1);
        val
    }

    /// The operand of a read-type instruction: the next program byte in
    /// immediate mode, else the byte at the effective address.
    fn operand(&mut self) -> (r: u8)
        requires
            old(self).bus.wf(),
        ensures
            memory_kept(old(self).bus, final(self).bus),
            final(self).bus.wf(),
            old(self).ir.1 == AddressMode::ImmediateAddressing ==> r == old(self).bus.peek_spec(
                old(self).pc,
            )
                && same_regs(*final(self), W65C02S {
                    pc: old(self).pc.wrapping_add(1),
                    bus: final(self).bus,
                    ..*old(self)
                }),
            old(self).ir.1 != AddressMode::ImmediateAddressing ==> r == old(self).bus.peek_spec(
                old(self).temp16,
            )
                && same_regs(*old(self), *final(self)),
    {
        if self.ir.1 == AddressMode::ImmediateAddressing {
            self.fetch()
        } else {
            self.read(self.temp16)
        }
    }

    /// Conditional branch: fetches the offset; goes on to the offset step
    /// when the flag has the wanted level, else completes.
    fn branch(&mut self, flag: CPUFlag, val: bool)
        requires
            old(self).bus.wf(),
            old(self).state == CPUState::Run,
            old(self).tcu == 1,
        ensures
            later_step(*old(self), *final(self)),
            final(self).state == CPUState::Run,
            memory_kept(old(self).bus, final(self).bus),
            same_regs(*final(self), W65C02S {
                temp8: old(self).bus.peek_spec(old(self).pc),
                pc: old(self).pc.wrapping_add(1),
                tcu: if old(self).p & flag_mask(flag) == (if val {
                    flag_mask(flag)
                } else {
                    0
                }) {
                    2
                } else {
                    0
                },
                bus: final(self).bus,
                ..*old(self)
            }),
    {
        self.temp8 = self.fetch();
        let f = flag.mask();
        if self.p & f == (if val { f } else { 0 }) {
            self.tcu = self.tcu + 1;
        } else {
            self.tcu = 0;
        }
    }

    /// Read-type instructions: load, logic, arithmetic, compare and bit
    /// test on one operand byte.
    fn exec_read_group(&mut self) -> (r: bool)
        requires
            old(self).wf(),
            old(self).state == CPUState::Run,
            1 <= old(self).tcu <= 8,
        ensures
            !writes(*old(self)) ==> memory_kept(old(self).bus, final(self).bus),
            r ==> later_step(*old(self), *final(self)),
            !r ==> *final(self) == *old(self),
            r == read_handles(*old(self)),
            r ==> read_step(*old(self), *final(self)),
    {
        let (ins, mode) = self.ir;
        let tcu = self.tcu;
        match ins {
            Instruction::ADC | Instruction::SBC => {
                if tcu >= 2 && is_operand_step(mode, tcu - 1) {
                    // the extra cycle of decimal mode
                    self.tcu = 0;
                    return true;
                }
            },
            Instruction::AND | Instruction::BIT | Instruction::CMP | Instruction::CPX
            | Instruction::CPY | Instruction::EOR | Instruction::LDA | Instruction::LDX
            | Instruction::LDY | Instruction::ORA => {},
            _ => {
                return false;
            },
        }
        if !is_operand_step(mode, tcu) {
            return false;
        }
        let op = self.operand();
        let mut done = true;
        match ins {
            Instruction::ADC => {
                if self.p & DECIMAL == 0 {
                    let (a, p) = add_binary(self.a, op, self.p);
                    self.a = a;
                    self.p = p;
                } else {
                    let (a, p) = add_decimal(self.a, op, self.p);
                    self.a = a;
                    self.p = p;
                    done = false;
                }
            },
            Instruction::SBC => {
                if self.p & DECIMAL == 0 {
                    let (a, p) = add_binary(self.a, !op, self.p);
                    self.a = a;
                    self.p = p;
                } else {
                    let (a, p) = subtract_decimal(self.a, op, self.p);
                    self.a = a;
                    self.p = p;
                    done = false;
                }
            },
            Instruction::AND => {
                self.a = self.a & op;
                self.p = set_nz(self.p, self.a);
            },
            Instruction::ORA => {
                self.a = self.a | op;
                self.p = set_nz(self.p, self.a);
            },
            Instruction::EOR => {
                self.a = self.a ^ op;
                self.p = set_nz(self.p, self.a);
            },
            Instruction::LDA => {
                self.a = op;
                self.p = set_nz(self.p, self.a);
            },
            Instruction::LDX => {
                self.x = op;
                self.p = set_nz(self.p, self.x);
            },
            Instruction::LDY => {
                self.y = op;
                self.p = set_nz(self.p, self.y);
            },
            Instruction::CMP => {
                self.temp8 = op;
                self.p = compare_flags(self.a, op, self.p);
            },
            Instruction::CPX => {
                self.temp8 = op;
                self.p = compare_flags(self.x, op, self.p);
            },
            Instruction::CPY => {
                self.temp8 = op;
                self.p = compare_flags(self.y, op, self.p);
            },
            _ => {
                self.p = bit_flags(self.a, op, self.p, mode == AddressMode::ImmediateAddressing);
            },
        }
        if done {
            self.tcu = 0;
        } else {
            self.tcu = self.tcu + 1;
        }
        true
    }

    /// Read-modify-write instructions on memory: read, modify, (an idle
    /// tick for indexed shifts and rotates), write back.
    fn exec_rmw_group(&mut self) -> (r: bool)
        requires
            old(self).wf(),
            old(self).state == CPUState::Run,
            1 <= old(self).tcu <= 8,
        ensures
            !writes(*old(self)) ==> memory_kept(old(self).bus, final(self).bus),
            r ==> later_step(*old(self), *final(self)),
            !r ==> *final(self) == *old(self),
            r ==> rmw_step(*old(self), *final(self)),
            r == rmw_handles(*old(self)),
    {
        let (ins, mode) = self.ir;
        let tcu = self.tcu;
        let shifts = match ins {
            Instruction::ASL | Instruction::LSR | Instruction::ROL | Instruction::ROR => true,
            Instruction::DEC | Instruction::INC | Instruction::TRB | Instruction::TSB
            | Instruction::RMB(_) | Instruction::SMB(_) => false,
            _ => {
                return false;
            },
        };
        let base = rmw_base(mode);
        if base == 0 {
            return false;
        }
        let idle = shifts && mode == AddressMode::AbsoluteIndexedWithX;
        if tcu == base {
            self.temp8 = self.read(self.temp16);
            self.tcu = self.tcu + 1;
        } else if tcu == base + 1 {
            let v = self.temp8;
            match ins {
                Instruction::ASL => {
                    let (r, p) = shift_left(v, self.p);
                    self.temp8 = r;
                    self.p = p;
                },
                Instruction::LSR => {
                    let (r, p) = shift_right(v, self.p);
                    self.temp8 = r;
                    self.p = p;
                },
                Instruction::ROL => {
                    let (r, p) = rotate_left(v, self.p);
                    self.temp8 = r;
                    self.p = p;
                },
                Instruction::ROR => {
                    let (r, p) = rotate_right(v, self.p);
                    self.temp8 = r;
                    self.p = p;
                },
                Instruction::DEC => {
                    self.temp8 = v.wrapping_sub(1);
                    self.p = set_nz(self.p, self.temp8);
                },
                Instruction::INC => {
                    self.temp8 = v.wrapping_add(1);
                    self.p = set_nz(self.p, self.temp8);
                },
                Instruction::TRB => {
                    self.p = set_flag(self.p, ZERO, v & self.a == 0);
                    self.temp8 = v & !self.a;
                },
                Instruction::TSB => {
                    self.p = set_flag(self.p, ZERO, v & self.a == 0);
                    self.temp8 = v | self.a;
                },
                Instruction::RMB(n) => {
                    let k = n & 7;
                    assert(k < 8) by (bit_vector)
                        requires
                            k == n & 7,
                    ;
                    self.temp8 = v & !(1u8 << k);
                },
                Instruction::SMB(n) => {
                    let k = n & 7;
                    assert(k < 8) by (bit_vector)
                        requires
                            k == n & 7,
                    ;
                    self.temp8 = v | (1u8 << k);
                },
                _ => {},
            }
            self.tcu = self.tcu + 1;
        } else if idle && tcu == base + 2 {
            self.tcu = self.tcu + 1;
        } else if (!idle && tcu == base + 2) || (idle && tcu == base + 3) {
            self.write(self.temp16, self.temp8);
            self.tcu = 0;
        } else {
            return false;
        }
        true
    }

    /// Single-tick instructions on registers and flags.
    fn exec_register_group(&mut self) -> (r: bool)
        requires
            old(self).wf(),
            old(self).state == CPUState::Run,
            1 <= old(self).tcu <= 8,
        ensures
            !writes(*old(self)) ==> memory_kept(old(self).bus, final(self).bus),
            r ==> later_step(*old(self), *final(self)),
            !r ==> *final(self) == *old(self),
            r == register_result(*old(self)) is Some,
            (register_result(*old(self)) matches Some(v) ==> *final(self) == W65C02S {
                a: v.0, x: v.1, y: v.2, p: v.3, s: v.4, tcu: 0, ..*old(self)
            }),
    {
        let (ins, mode) = self.ir;
        if self.tcu != 1 {
            return false;
        }
        let accumulator = mode == AddressMode::Accumulator;
        match ins {
            Instruction::ASL if accumulator => {
                let (r, p) = shift_left(self.a, self.p);
                self.a = r;
                self.p = p;
            },
            Instruction::LSR if accumulator => {
                let (r, p) = shift_right(self.a, self.p);
                self.a = r;
                self.p = p;
            },
            Instruction::ROL if accumulator => {
                let (r, p) = rotate_left(self.a, self.p);
                self.a = r;
                self.p = p;
            },
            Instruction::ROR if accumulator => {
                let (r, p) = rotate_right(self.a, self.p);
                self.a = r;
                self.p = p;
            },
            Instruction::DEC if accumulator => {
                self.a = self.a.wrapping_sub(1);
                self.p = set_nz(self.p, self.a);
            },
            Instruction::INC if accumulator => {
                self.a = self.a.wrapping_add(1);
                self.p = set_nz(self.p, self.a);
            },
            Instruction::CLC => {
                self.p = set_flag(self.p, CARRY, false);
            },
            Instruction::CLD => {
                self.p = set_flag(self.p, DECIMAL, false);
            },
            Instruction::CLI => {
                self.p = set_flag(self.p, IRQB, false);
            },
            Instruction::CLV => {
                self.p = set_flag(self.p, OVERFLOW, false);
            },
            Instruction::SEC => {
                self.p = set_flag(self.p, CARRY, true);
            },
            Instruction::SED => {
                self.p = set_flag(self.p, DECIMAL, true);
            },
            Instruction::SEI => {
                self.p = set_flag(self.p, IRQB, true);
            },
            Instruction::DEX => {
                self.x = self.x.wrapping_sub(1);
                self.p = set_nz(self.p, self.x);
            },
            Instruction::DEY => {
                self.y = self.y.wrapping_sub(1);
                self.p = set_nz(self.p, self.y);
            },
            Instruction::INX => {
                self.x = self.x.wrapping_add(1);
                self.p = set_nz(self.p, self.x);
            },
            Instruction::INY => {
                self.y = self.y.wrapping_add(1);
                self.p = set_nz(self.p, self.y);
            },
            Instruction::TAX => {
                self.x = self.a;
                self.p = set_nz(self.p, self.x);
            },
            Instruction::TAY => {
                self.y = self.a;
                self.p = set_nz(self.p, self.y);
            },
            Instruction::TSX => {
                self.x = self.s;
                self.p = set_nz(self.p, self.x);
            },
            Instruction::TXA => {
                self.a = self.x;
                self.p = set_nz(self.p, self.a);
            },
            Instruction::TXS => {
                self.s = self.x;
            },
            Instruction::TYA => {
                self.a = self.y;
                self.p = set_nz(self.p, self.a);
            },
            _ => {
                return false;
            },
        }
        self.tcu = 0;
        true
    }

    /// Stores of A, X, Y or zero; indexed stores of A take an idle tick
    /// before the write.
    fn exec_store_group(&mut self) -> (r: bool)
        requires
            old(self).wf(),
            old(self).state == CPUState::Run,
            1 <= old(self).tcu <= 8,
        ensures
            !writes(*old(self)) ==> memory_kept(old(self).bus, final(self).bus),
            r ==> later_step(*old(self), *final(self)),
            !r ==> *final(self) == *old(self),
            r == store_handles(*old(self)),
            r ==> store_step(*old(self), *final(self)),
    {
        let (ins, mode) = self.ir;
        let tcu = self.tcu;
        let val = match ins {
            Instruction::STA => self.a,
            Instruction::STX => self.x,
            Instruction::STY => self.y,
            Instruction::STZ => 0,
            _ => {
                return false;
            },
        };
        let sta = ins == Instruction::STA;
        let write_step: u8 = match mode {
            AddressMode::ZeroPage => 2,
            AddressMode::ZeroPageIndexedWithX | AddressMode::ZeroPageIndexedWithY
            | AddressMode::Absolute => 3,
            AddressMode::AbsoluteIndexedWithX => if sta {
                4
            } else {
                3
            },
            AddressMode::AbsoluteIndexedWithY => 4,
            AddressMode::ZeroPageIndirect => 4,
            AddressMode::ZeroPageIndexedIndirect | AddressMode::ZeroPageIndirectIndexedWithY => 5,
            _ => 0,
        };
        let idle_step = match mode {
            AddressMode::AbsoluteIndexedWithX => sta && tcu == 3,
            AddressMode::AbsoluteIndexedWithY => tcu == 3,
            AddressMode::ZeroPageIndirectIndexedWithY => tcu == 4,
            _ => false,
        };
        if idle_step {
            self.tcu = self.tcu + 1;
        } else if write_step != 0 && tcu == write_step {
            self.write(self.temp16, val);
            self.tcu = 0;
        } else {
            return false;
        }
        true
    }

    /// Branches: the conditional ones, BRA, and the bit tests BBR/BBS.
    fn exec_branch_group(&mut self) -> (r: bool)
        requires
            old(self).wf(),
            old(self).state == CPUState::Run,
            1 <= old(self).tcu <= 8,
        ensures
            !writes(*old(self)) ==> memory_kept(old(self).bus, final(self).bus),
            r ==> later_step(*old(self), *final(self)),
            !r ==> *final(self) == *old(self),
            r && is_bit_branch(old(self).ir.0) ==> bit_branch_step(*old(self), *final(self)),
            r == branch_handles(*old(self)),
            r && old(self).tcu == 1 && branch_taken(old(self).ir.0, old(self).p) is Some
                ==> branch_offset_step(*old(self), *final(self)),
    {
        let (ins, mode) = self.ir;
        let tcu = self.tcu;
        if mode != AddressMode::ProgramCounterRelative {
            return false;
        }
        match ins {
            Instruction::BCC if tcu == 1 => self.branch(CPUFlag::Carry, false),
            Instruction::BCS if tcu == 1 => self.branch(CPUFlag::Carry, true),
            Instruction::BEQ if tcu == 1 => self.branch(CPUFlag::Zero, true),
            Instruction::BNE if tcu == 1 => self.branch(CPUFlag::Zero, false),
            Instruction::BMI if tcu == 1 => self.branch(CPUFlag::Negative, true),
            Instruction::BPL if tcu == 1 => self.branch(CPUFlag::Negative, false),
            Instruction::BVC if tcu == 1 => self.branch(CPUFlag::Overflow, false),
            Instruction::BVS if tcu == 1 => self.branch(CPUFlag::Overflow, true),
            Instruction::BRA if tcu == 1 => {
                self.temp8 = self.fetch();
                self.tcu = self.tcu + 1;
            },
            Instruction::BBR(n) | Instruction::BBS(n) => {
                if tcu == 1 {
                    self.temp16 = self.fetch() as u16;
                    self.tcu = self.tcu + 1;
                } else if tcu == 2 {
                    self.temp8 = self.fetch();
                    self.tcu = self.tcu + 1;
                } else if tcu == 3 {
                    self.temp16 = self.read(self.temp16) as u16;
                    self.tcu = self.tcu + 1;
                } else if tcu == 4 {
                    let k = (n & 7) as u16;
                    assert(k < 8) by (bit_vector)
                        requires
                            k == (n & 7) as u16,
                    ;
                    let set = (self.temp16 >> k) & 1 == 1;
                    let wanted = match ins {
                        Instruction::BBS(_) => true,
                        _ => false,
                    };
                    if set == wanted {
                        self.pc = relative(self.pc, self.temp8);
                    }
                    self.tcu = 0;
                } else {
                    return false;
                }
            },
            _ => {
                return false;
            },
        }
        true
    }

    /// Break: pushes PC and P, then loads PC from the vector at 0xFFFE.
    /// The opcode form also sets the Break flag and skips a signature
    /// byte; the form started by an interrupt request does not.
    fn exec_brk(&mut self) -> (r: bool)
        requires
            old(self).wf(),
            old(self).state == CPUState::Run,
            1 <= old(self).tcu <= 8,
        ensures
            !writes(*old(self)) ==> memory_kept(old(self).bus, final(self).bus),
            r ==> later_step(*old(self), *final(self)),
            !r ==> *final(self) == *old(self),
            r ==> brk_step(*old(self), *final(self)),
            r == brk_handles(*old(self)),
    {
        let (ins, mode) = self.ir;
        let tcu = self.tcu;
        if ins != Instruction::BRK {
            return false;
        }
        if tcu == 1 {
            if mode == AddressMode::Implied {
                self.tcu = self.tcu + 1;
            } else if mode == AddressMode::Stack {
                self.p = self.p | BREAK;
                self.fetch();
                self.tcu = self.tcu + 1;
            } else {
                return false;
            }
        } else if tcu == 2 {
            self.stack_push((self.pc >> 8) as u8);
            self.tcu = self.tcu + 1;
        } else if tcu == 3 {
            self.stack_push((self.pc & 0xff) as u8);
            self.tcu = self.tcu + 1;
        } else if tcu == 4 {
            self.stack_push(self.p | BREAK | USER);
            self.tcu = self.tcu + 1;
        } else if tcu == 5 {
            self.p = self.p | IRQB;
            self.p = self.p & !DECIMAL;
            self.pc = self.read(0xFFFE) as u16;
            self.tcu = self.tcu + 1;
        } else if tcu == 6 {
            self.pc = self.pc | ((self.read(0xFFFF) as u16) << 8);
            self.tcu = 0;
        } else {
            return false;
        }
        true
    }

    /// Jumps, subroutine call and returns.
    fn exec_flow_group(&mut self) -> (r: bool)
        requires
            old(self).wf(),
            old(self).state == CPUState::Run,
            1 <= old(self).tcu <= 8,
        ensures
            !writes(*old(self)) ==> memory_kept(old(self).bus, final(self).bus),
            r ==> later_step(*old(self), *final(self)),
            !r ==> *final(self) == *old(self),
            r ==> flow_step(*old(self), *final(self)),
            r == flow_handles(*old(self)),
    {
        let (ins, mode) = self.ir;
        let tcu = self.tcu;
        match (ins, mode) {
            (Instruction::JMP, AddressMode::Absolute) if tcu == 2 => {
                let hi = self.fetch();
                self.pc = self.temp16 | ((hi as u16) << 8);
                self.tcu = 0;
            },
            (Instruction::JMP, AddressMode::AbsoluteIndirect) if tcu == 3 => {
                self.temp8 = self.read(self.temp16);
                self.tcu = self.tcu + 1;
            },
            (Instruction::JMP, AddressMode::AbsoluteIndexedIndirect) if tcu == 3 => {
                self.temp8 = self.read(self.temp16);
                self.tcu = self.tcu + 1;
            },
            (Instruction::JMP, AddressMode::AbsoluteIndexedIndirect) if tcu == 4 => {
                self.tcu = self.tcu + 1;
            },
            (Instruction::JMP, AddressMode::AbsoluteIndirect) if tcu == 4 => {
                let hi = self.read(self.temp16.wrapping_add(1));
                self.pc = (self.temp8 as u16) | ((hi as u16) << 8);
                self.tcu = 0;
            },
            (Instruction::JMP, AddressMode::AbsoluteIndexedIndirect) if tcu == 5 => {
                let hi = self.read(self.temp16.wrapping_add(1));
                self.pc = (self.temp8 as u16) | ((hi as u16) << 8);
                self.tcu = 0;
            },
            (Instruction::JSR, AddressMode::Absolute) => {
                if tcu == 1 {
                    self.temp16 = self.fetch() as u16;
                    self.tcu = self.tcu + 1;
                } else if tcu == 2 {
                    self.stack_peek();
                    self.tcu = self.tcu + 1;
                } else if tcu == 3 {
                    self.stack_push((self.pc >> 8) as u8);
                    self.tcu = self.tcu + 1;
                } else if tcu == 4 {
                    self.stack_push((self.pc & 0xFF) as u8);
                    self.tcu = self.tcu + 1;
                } else if tcu == 5 {
                    let hi = self.fetch();
                    self.temp16 = self.temp16 | ((hi as u16) << 8);
                    self.pc = self.temp16;
                    self.tcu = 0;
                } else {
                    return false;
                }
            },
            (Instruction::RTI, AddressMode::Stack) => {
                if tcu == 1 {
                    self.p = self.stack_pop();
                    self.tcu = self.tcu + 1;
                } else if tcu == 2 || tcu == 4 {
                    self.tcu = self.tcu + 1;
                } else if tcu == 3 {
                    self.pc = self.stack_pop() as u16;
                    self.tcu = self.tcu + 1;
                } else if tcu == 5 {
                    let hi = self.stack_pop();
                    self.pc = self.pc | ((hi as u16) << 8);
                    self.tcu = 0;
                } else {
                    return false;
                }
            },
            (Instruction::RTS, AddressMode::Stack) => {
                if tcu == 1 {
                    self.fetch();
                    self.tcu = self.tcu + 1;
                } else if tcu == 2 {
                    self.stack_peek();
                    self.tcu = self.tcu + 1;
                } else if tcu == 3 {
                    self.temp16 = self.stack_pop() as u16;
                    self.tcu = self.tcu + 1;
                } else if tcu == 4 {
                    let hi = self.stack_pop();
                    self.temp16 = self.temp16 | ((hi as u16) << 8);
                    self.tcu = self.tcu + 1;
                } else if tcu == 5 {
                    self.pc = self.temp16;
                    self.fetch();
                    self.tcu = 0;
                } else {
                    return false;
                }
            },
            _ => {
                return false;
            },
        }
        true
    }

    /// Pushes and pulls of A, X, Y and P.
    fn exec_stack_group(&mut self) -> (r: bool)
        requires
            old(self).wf(),
            old(self).state == CPUState::Run,
            1 <= old(self).tcu <= 8,
        ensures
            !writes(*old(self)) ==> memory_kept(old(self).bus, final(self).bus),
            r ==> later_step(*old(self), *final(self)),
            !r ==> *final(self) == *old(self),
            r && old(self).tcu >= 2 ==> stack_finish_step(*old(self), *final(self)),
            r == stack_handles(*old(self)),
            r && old(self).tcu == 1 ==> stack_transfer_step(*old(self), *final(self)),
    {
        let (ins, mode) = self.ir;
        let tcu = self.tcu;
        if mode != AddressMode::Stack {
            return false;
        }
        match ins {
            Instruction::PHA | Instruction::PHP | Instruction::PHX | Instruction::PHY => {
                if tcu == 1 {
                    let v = match ins {
                        Instruction::PHA => self.a,
                        Instruction::PHX => self.x,
                        Instruction::PHY => self.y,
                        _ => self.p | BREAK | USER,
                    };
                    self.stack_push(v);
                    self.tcu = self.tcu + 1;
                } else if tcu == 2 {
                    self.tcu = 0;
                } else {
                    return false;
                }
            },
            Instruction::PLA | Instruction::PLP | Instruction::PLX | Instruction::PLY => {
                if tcu == 1 {
                    let v = self.stack_pop();
                    match ins {
                        Instruction::PLA => {
                            self.a = v;
                        },
                        Instruction::PLX => {
                            self.x = v;
                        },
                        Instruction::PLY => {
                            self.y = v;
                        },
                        _ => {
                            self.p = v;
                        },
                    }
                    self.tcu = self.tcu + 1;
                } else if tcu == 2 {
                    match ins {
                        Instruction::PLA => {
                            self.p = set_nz(self.p, self.a);
                        },
                        Instruction::PLX => {
                            self.p = set_nz(self.p, self.x);
                        },
                        Instruction::PLY => {
                            self.p = set_nz(self.p, self.y);
                        },
                        _ => {},
                    }
                    self.tcu = self.tcu + 1;
                } else if tcu == 3 {
                    self.tcu = 0;
                } else {
                    return false;
                }
            },
            _ => {
                return false;
            },
        }
        true
    }

    /// STP, WAI and the no-operation opcodes.
    fn exec_misc_group(&mut self) -> (r: bool)
        requires
            old(self).wf(),
            old(self).state == CPUState::Run,
            1 <= old(self).tcu <= 8,
        ensures
            !writes(*old(self)) ==> memory_kept(old(self).bus, final(self).bus),
            r ==> later_step(*old(self), *final(self)),
            !r ==> *final(self) == *old(self),
            r ==> misc_step(*old(self), *final(self)),
            r == misc_handles(*old(self)),
    {
        let (ins, mode) = self.ir;
        let tcu = self.tcu;
        if mode != AddressMode::Implied {
            return false;
        }
        match ins {
            Instruction::STP => {
                if tcu == 1 {
                    self.tcu = self.tcu + 1;
                } else if tcu == 2 {
                    self.state = CPUState::Halt;
                } else {
                    return false;
                }
            },
            Instruction::WAI => {
                if tcu == 1 {
                    self.tcu = self.tcu + 1;
                } else if tcu == 2 {
                    self.p = self.p | BREAK;
                    self.state = CPUState::Wait;
                    self.tcu = 0;
                } else {
                    return false;
                }
            },
            Instruction::NOP(bytes, cycles) => {
                if tcu < bytes {
                    self.fetch();
                }
                if tcu + 1 >= cycles || tcu >= 7 {
                    self.tcu = 0;
                } else {
                    self.tcu = self.tcu + 1;
                }
            },
            _ => {
                return false;
            },
        }
        true
    }

    /// Address-mode steps shared by all instructions: fetching and
    /// indexing the effective address, and the offset step of branches.
    /// A step that nothing handles halts the CPU.
    fn address_mode_step(&mut self)
        requires
            old(self).wf(),
            old(self).state == CPUState::Run,
            1 <= old(self).tcu <= 8,
        ensures
            later_step(*old(self), *final(self)),
            mode_step(*old(self), *final(self)),
            memory_kept(old(self).bus, final(self).bus),
    {
        let mode = self.ir.1;
        let tcu = self.tcu;
        match (mode, tcu) {
            (AddressMode::Absolute, 1)
            | (AddressMode::AbsoluteIndexedIndirect, 1)
            | (AddressMode::AbsoluteIndexedWithX, 1)
            | (AddressMode::AbsoluteIndexedWithY, 1)
            | (AddressMode::AbsoluteIndirect, 1)
            | (AddressMode::ZeroPage, 1)
            | (AddressMode::ZeroPageIndexedWithX, 1)
            | (AddressMode::ZeroPageIndexedWithY, 1) => {
                self.temp16 = self.fetch() as u16;
                self.tcu = self.tcu + 1;
            },
            (AddressMode::Absolute, 2) | (AddressMode::AbsoluteIndirect, 2) => {
                let hi = self.fetch();
                self.temp16 = self.temp16 | ((hi as u16) << 8);
                self.tcu = self.tcu + 1;
            },
            (AddressMode::AbsoluteIndexedWithX, 2) | (AddressMode::AbsoluteIndexedIndirect, 2) => {
                let hi = self.fetch();
                self.temp16 = (self.temp16 | ((hi as u16) << 8)).wrapping_add(self.x as u16);
                self.tcu = self.tcu + 1;
            },
            (AddressMode::AbsoluteIndexedWithY, 2) => {
                let hi = self.fetch();
                self.temp16 = (self.temp16 | ((hi as u16) << 8)).wrapping_add(self.y as u16);
                self.tcu = self.tcu + 1;
            },
            (AddressMode::ProgramCounterRelative, 2) => {
                self.pc = relative(self.pc, self.temp8);
                self.tcu = 0;
            },
            (AddressMode::ZeroPageIndexedWithX, 2) => {
                self.temp16 = self.temp16.wrapping_add(self.x as u16) % 0x100;
                self.tcu = self.tcu + 1;
            },
            (AddressMode::ZeroPageIndexedWithY, 2) => {
                self.temp16 = self.temp16.wrapping_add(self.y as u16) % 0x100;
                self.tcu = self.tcu + 1;
            },
            (AddressMode::ZeroPageIndexedIndirect, 1)
            | (AddressMode::ZeroPageIndirect, 1)
            | (AddressMode::ZeroPageIndirectIndexedWithY, 1) => {
                self.temp8 = self.fetch();
                self.tcu = self.tcu + 1;
            },
            (AddressMode::ZeroPageIndexedIndirect, 2) => {
                self.temp8 = self.temp8.wrapping_add(self.x);
                self.tcu = self.tcu + 1;
            },
            (AddressMode::ZeroPageIndexedIndirect, 3)
            | (AddressMode::ZeroPageIndirect, 2)
            | (AddressMode::ZeroPageIndirectIndexedWithY, 2) => {
                self.temp16 = self.read(self.temp8 as u16) as u16;
                self.tcu = self.tcu + 1;
            },
            (AddressMode::ZeroPageIndexedIndirect, 4) | (AddressMode::ZeroPageIndirect, 3) => {
                let hi = self.read(self.temp8.wrapping_add(1) as u16);
                self.temp16 = self.temp16 | ((hi as u16) << 8);
                self.tcu = self.tcu + 1;
            },
            (AddressMode::ZeroPageIndirectIndexedWithY, 3) => {
                let hi = self.read(self.temp8.wrapping_add(1) as u16);
                self.temp16 = (self.temp16 | ((hi as u16) << 8)).wrapping_add(self.y as u16);
                self.tcu = self.tcu + 1;
            },
            _ => {
                self.state = CPUState::Halt;
            },
        }
    }

    /// A tick after the first of an instruction.
    fn execute(&mut self)
        requires
            old(self).wf(),
            old(self).state == CPUState::Run,
            1 <= old(self).tcu <= 8,
        ensures
            run_step(*old(self), *final(self)),
    {
        reveal(run_step);
        if self.exec_read_group() {
        } else if self.exec_rmw_group() {
        } else if self.exec_register_group() {
        } else if self.exec_store_group() {
        } else if self.exec_branch_group() {
        } else if self.exec_brk() {
        } else if self.exec_flow_group() {
        } else if self.exec_stack_group() {
        } else if self.exec_misc_group() {
        } else {
            self.address_mode_step();
        }
    }

    /// The first tick of an instruction.
    fn begin(&mut self)
        requires
            old(self).wf(),
            old(self).state == CPUState::Run,
            old(self).tcu == 0,
        ensures
            final(self).wf(),
            begin_step(*old(self), *final(self)),
    {
        if self.p & IRQB == 0 && self.interrupt {
            self.ir = (Instruction::BRK, AddressMode::Implied);
            self.tcu = 1;
        } else {
            let op = self.fetch();
            self.ir = decode(op);
            if self.ir.0 == Instruction::NOP(1, 1) {
                self.tcu = 0;
            } else {
                self.tcu = 1;
            }
        }
    }

    /// Advances the CPU by one clock tick.
    pub fn cycle(&mut self)
        requires
            old(self).wf(),
        ensures
            final(self).wf(),
            ticked(*old(self), *final(self)),
    {
        reveal(run_step);
        match self.state {
            CPUState::Init(c) => {
                if c == 5 {
                    self.pc = self.read(0xFFFC) as u16;
                    self.state = CPUState::Init(c + 1);
                } else if c == 6 {
                    let hi = self.read(0xFFFD);
                    self.pc = self.pc | ((hi as u16) << 8);
                    self.state = CPUState::Run;
                } else {
                    self.state = CPUState::Init(c + 1);
                }
            },
            CPUState::Run => {
                if self.tcu == 0 {
                    self.begin();
                } else {
                    self.execute();
                }
            },
            CPUState::Wait => {
                if self.p & IRQB == 0 && self.interrupt {
                    self.ir = (Instruction::BRK, AddressMode::Implied);
                    self.tcu = 1;
                    self.state = CPUState::Run;
                }
            },
            CPUState::Halt => {},
        }
    }
}

} // verus!
