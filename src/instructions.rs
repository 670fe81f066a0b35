//! Instruction decoding of 6502 opcodes.
use vstd::prelude::*;

verus! {

/// The operation an opcode selects: one variant per documented mnemonic,
/// and `ILL` for the opcodes that the documented set leaves unassigned.
#[allow(non_camel_case_types, clippy::upper_case_acronyms)]
#[derive(Clone, Copy, Debug, PartialEq, Eq, Structural)]
pub enum Instruction {
    ADC,
    AND,
    ASL,
    BCC,
    BCS,
    BEQ,
    BIT,
    BMI,
    BNE,
    BPL,
    BRK,
    BVC,
    BVS,
    CLC,
    CLD,
    CLI,
    CLV,
    CMP,
    CPX,
    CPY,
    DEC,
    DEX,
    DEY,
    EOR,
    INC,
    INX,
    INY,
    JMP,
    JSR,
    LDA,
    LDX,
    LDY,
    LSR,
    NOP,
    ORA,
    PHA,
    PHP,
    PLA,
    PLP,
    ROL,
    ROR,
    RTI,
    RTS,
    SBC,
    SEC,
    SED,
    SEI,
    STA,
    STX,
    STY,
    TAX,
    TAY,
    TSX,
    TXA,
    TXS,
    TYA,
    ILL,
}

/// The instruction that the documented encoding assigns to `opcode`.
pub open spec fn instruction_of(opcode: u8) -> Instruction {
    match opcode {
        0x69 | 0x65 | 0x75 | 0x6D | 0x7D | 0x79 | 0x61 | 0x71 => Instruction::ADC,
        0x29 | 0x25 | 0x35 | 0x2D | 0x3D | 0x39 | 0x21 | 0x31 => Instruction::AND,
        0x0A | 0x06 | 0x16 | 0x0E | 0x1E => Instruction::ASL,
        0x90 => Instruction::BCC,
        0xB0 => Instruction::BCS,
        0xF0 => Instruction::BEQ,
        0x24 | 0x2C => Instruction::BIT,
        0x30 => Instruction::BMI,
        0xD0 => Instruction::BNE,
        0x10 => Instruction::BPL,
        0x00 => Instruction::BRK,
        0x50 => Instruction::BVC,
        0x70 => Instruction::BVS,
        0x18 => Instruction::CLC,
        0xD8 => Instruction::CLD,
        0x58 => Instruction::CLI,
        0xB8 => Instruction::CLV,
        0xC9 | 0xC5 | 0xD5 | 0xCD | 0xDD | 0xD9 | 0xC1 | 0xD1 => Instruction::CMP,
        0xE0 | 0xE4 | 0xEC => Instruction::CPX,
        0xC0 | 0xC4 | 0xCC => Instruction::CPY,
        0xC6 | 0xD6 | 0xCE | 0xDE => Instruction::DEC,
        0xCA => Instruction::DEX,
        0x88 => Instruction::DEY,
        0x49 | 0x45 | 0x55 | 0x4D | 0x5D | 0x59 | 0x41 | 0x51 => Instruction::EOR,
        0xE6 | 0xF6 | 0xEE | 0xFE => Instruction::INC,
        0xE8 => Instruction::INX,
        0xC8 => Instruction::INY,
        0x4C | 0x6C => Instruction::JMP,
        0x20 => Instruction::JSR,
        0xA9 | 0xA5 | 0xB5 | 0xAD | 0xBD | 0xB9 | 0xA1 | 0xB1 => Instruction::LDA,
        0xA2 | 0xA6 | 0xB6 | 0xAE | 0xBE => Instruction::LDX,
        0xA0 | 0xA4 | 0xB4 | 0xAC | 0xBC => Instruction::LDY,
        0x4A | 0x46 | 0x56 | 0x4E | 0x5E => Instruction::LSR,
        0xEA => Instruction::NOP,
        0x09 | 0x05 | 0x15 | 0x0D | 0x1D | 0x19 | 0x01 | 0x11 => Instruction::ORA,
        0x48 => Instruction::PHA,
        0x08 => Instruction::PHP,
        0x68 => Instruction::PLA,
        0x28 => Instruction::PLP,
        0x2A | 0x26 | 0x36 | 0x2E | 0x3E => Instruction::ROL,
        0x6A | 0x66 | 0x76 | 0x6E | 0x7E => Instruction::ROR,
        0x40 => Instruction::RTI,
        0x60 => Instruction::RTS,
        0xE9 | 0xE5 | 0xF5 | 0xED | 0xFD | 0xF9 | 0xE1 | 0xF1 => Instruction::SBC,
        0x38 => Instruction::SEC,
        0xF8 => Instruction::SED,
        0x78 => Instruction::SEI,
        0x85 | 0x95 | 0x8D | 0x9D | 0x99 | 0x81 | 0x91 => Instruction::STA,
        0x86 | 0x96 | 0x8E => Instruction::STX,
        0x84 | 0x94 | 0x8C => Instruction::STY,
        0xAA => Instruction::TAX,
        0xA8 => Instruction::TAY,
        0xBA => Instruction::TSX,
        0x8A => Instruction::TXA,
        0x9A => Instruction::TXS,
        0x98 => Instruction::TYA,
        _ => Instruction::ILL,
    }
}

/// Looks up the instruction selected by `opcode`.
pub fn instruction(opcode: u8) -> (r: Instruction)
    ensures
        r == instruction_of(opcode),
{
    match opcode {
        0x69 | 0x65 | 0x75 | 0x6D | 0x7D | 0x79 | 0x61 | 0x71 => Instruction::ADC,
        0x29 | 0x25 | 0x35 | 0x2D | 0x3D | 0x39 | 0x21 | 0x31 => Instruction::AND,
        0x0A | 0x06 | 0x16 | 0x0E | 0x1E => Instruction::ASL,
        0x90 => Instruction::BCC,
        0xB0 => Instruction::BCS,
        0xF0 => Instruction::BEQ,
        0x24 | 0x2C => Instruction::BIT,
        0x30 => Instruction::BMI,
        0xD0 => Instruction::BNE,
        0x10 => Instruction::BPL,
        0x00 => Instruction::BRK,
        0x50 => Instruction::BVC,
        0x70 => Instruction::BVS,
        0x18 => Instruction::CLC,
        0xD8 => Instruction::CLD,
        0x58 => Instruction::CLI,
        0xB8 => Instruction::CLV,
        0xC9 | 0xC5 | 0xD5 | 0xCD | 0xDD | 0xD9 | 0xC1 | 0xD1 => Instruction::CMP,
        0xE0 | 0xE4 | 0xEC => Instruction::CPX,
        0xC0 | 0xC4 | 0xCC => Instruction::CPY,
        0xC6 | 0xD6 | 0xCE | 0xDE => Instruction::DEC,
        0xCA => Instruction::DEX,
        0x88 => Instruction::DEY,
        0x49 | 0x45 | 0x55 | 0x4D | 0x5D | 0x59 | 0x41 | 0x51 => Instruction::EOR,
        0xE6 | 0xF6 | 0xEE | 0xFE => Instruction::INC,
        0xE8 => Instruction::INX,
        0xC8 => Instruction::INY,
        0x4C | 0x6C => Instruction::JMP,
        0x20 => Instruction::JSR,
        0xA9 | 0xA5 | 0xB5 | 0xAD | 0xBD | 0xB9 | 0xA1 | 0xB1 => Instruction::LDA,
        0xA2 | 0xA6 | 0xB6 | 0xAE | 0xBE => Instruction::LDX,
        0xA0 | 0xA4 | 0xB4 | 0xAC | 0xBC => Instruction::LDY,
        0x4A | 0x46 | 0x56 | 0x4E | 0x5E => Instruction::LSR,
        0xEA => Instruction::NOP,
        0x09 | 0x05 | 0x15 | 0x0D | 0x1D | 0x19 | 0x01 | 0x11 => Instruction::ORA,
        0x48 => Instruction::PHA,
        0x08 => Instruction::PHP,
        0x68 => Instruction::PLA,
        0x28 => Instruction::PLP,
        0x2A | 0x26 | 0x36 | 0x2E | 0x3E => Instruction::ROL,
        0x6A | 0x66 | 0x76 | 0x6E | 0x7E => Instruction::ROR,
        0x40 => Instruction::RTI,
        0x60 => Instruction::RTS,
        0xE9 | 0xE5 | 0xF5 | 0xED | 0xFD | 0xF9 | 0xE1 | 0xF1 => Instruction::SBC,
        0x38 => Instruction::SEC,
        0xF8 => Instruction::SED,
        0x78 => Instruction::SEI,
        0x85 | 0x95 | 0x8D | 0x9D | 0x99 | 0x81 | 0x91 => Instruction::STA,
        0x86 | 0x96 | 0x8E => Instruction::STX,
        0x84 | 0x94 | 0x8C => Instruction::STY,
        0xAA => Instruction::TAX,
        0xA8 => Instruction::TAY,
        0xBA => Instruction::TSX,
        0x8A => Instruction::TXA,
        0x9A => Instruction::TXS,
        0x98 => Instruction::TYA,
        _ => Instruction::ILL,
    }
}

impl Instruction {
    /// Read-modify-write instructions: shifts, rotates, increments and
    /// decrements of memory.
    pub open spec fn is_rmw(self) -> bool {
        match self {
            Instruction::ASL | Instruction::DEC | Instruction::INC | Instruction::LSR
            | Instruction::ROL | Instruction::ROR => true,
            _ => false,
        }
    }

    /// Tells whether the instruction reads, alters and writes back its operand.
    pub fn rwr(&self) -> (r: bool)
        ensures
            r == self.is_rmw(),
    {
        match self {
            Instruction::ASL | Instruction::DEC | Instruction::INC | Instruction::LSR
            | Instruction::ROL | Instruction::ROR => true,
            _ => false,
        }
    }
}

} // verus!
