//! Addressing-mode decoding of 6502 opcodes.
//!
//! An opcode byte is read as `aaabbbcc`: the low two bits `cc` pick one of
//! four groups and the middle three bits `bbb` pick the base mode within the
//! group. A handful of opcodes override the base choice.
use vstd::prelude::*;

verus! {

/// How an instruction finds its operand.
#[derive(Clone, Copy, Debug, PartialEq, Eq, Structural)]
pub enum AddressingMode {
    /// The second and third bytes form the operand address.
    Absolute,
    /// The second and third bytes form a base address to which X is added.
    AbsoluteX,
    /// The second and third bytes form a base address to which Y is added.
    AbsoluteY,
    /// The second and third bytes address a pointer to the operand.
    AbsoluteIndirect,
    /// The operand is the second byte.
    Immediate,
    /// A single-byte instruction; shifts and rotates act on the accumulator.
    Implied,
    /// The second byte is a signed branch displacement.
    Relative,
    /// The second byte addresses the zero page.
    ZeroPage,
    /// X is added to the second byte (within the zero page) to locate a pointer.
    ZeroPageIndexedIndirectX,
    /// X is added to the second byte, wrapping within the zero page.
    ZeroPageX,
    /// Y is added to the second byte, wrapping within the zero page.
    ZeroPageY,
    /// The second byte locates a zero-page pointer to which Y is added.
    ZeroPageIndirectIndexedY,
}

/// The middle three bits `bbb` of an opcode.
pub open spec fn mode_bits(opcode: u8) -> u8 {
    ((opcode as int % 32) / 4) as u8
}

pub open spec fn spec_group_one(opcode: u8) -> AddressingMode {
    match mode_bits(opcode) {
        0 => AddressingMode::ZeroPageIndexedIndirectX,
        1 => AddressingMode::ZeroPage,
        2 => AddressingMode::Immediate,
        3 => AddressingMode::Absolute,
        4 => AddressingMode::ZeroPageIndirectIndexedY,
        5 => AddressingMode::ZeroPageX,
        6 => AddressingMode::AbsoluteY,
        _ => AddressingMode::AbsoluteX,
    }
}

pub open spec fn spec_group_two(opcode: u8) -> AddressingMode {
    match mode_bits(opcode) {
        0 => AddressingMode::Immediate,
        1 => AddressingMode::ZeroPage,
        2 => AddressingMode::Implied,
        3 => AddressingMode::Absolute,
        4 => AddressingMode::Implied,
        5 => if opcode == 0x96 || opcode == 0xB6 {
            AddressingMode::ZeroPageY
        } else {
            AddressingMode::ZeroPageX
        },
        6 => AddressingMode::Implied,
        _ => if opcode == 0x9E || opcode == 0xBE {
            AddressingMode::AbsoluteY
        } else {
            AddressingMode::AbsoluteX
        },
    }
}

pub open spec fn spec_group_three(opcode: u8) -> AddressingMode {
    match mode_bits(opcode) {
        0 => if opcode == 0x00 || opcode == 0x40 || opcode == 0x60 {
            AddressingMode::Implied
        } else if opcode == 0x20 {
            AddressingMode::Absolute
        } else {
            AddressingMode::Immediate
        },
        1 => AddressingMode::ZeroPage,
        2 => AddressingMode::Implied,
        3 => if opcode == 0x6C {
            AddressingMode::AbsoluteIndirect
        } else {
            AddressingMode::Absolute
        },
        4 => AddressingMode::Relative,
        5 => AddressingMode::ZeroPageX,
        6 => AddressingMode::Implied,
        _ => AddressingMode::AbsoluteX,
    }
}

pub open spec fn spec_group_four(opcode: u8) -> AddressingMode {
    match mode_bits(opcode) {
        0 => AddressingMode::ZeroPageIndexedIndirectX,
        1 => AddressingMode::ZeroPage,
        2 => AddressingMode::Immediate,
        3 => AddressingMode::Absolute,
        4 => AddressingMode::ZeroPageIndirectIndexedY,
        5 => if opcode == 0x97 || opcode == 0xB7 {
            AddressingMode::ZeroPageY
        } else {
            AddressingMode::ZeroPageX
        },
        6 => AddressingMode::AbsoluteY,
        _ => if opcode == 0x9F || opcode == 0xBF {
            AddressingMode::AbsoluteY
        } else {
            AddressingMode::AbsoluteX
        },
    }
}

/// The addressing mode that the encoding assigns to `opcode`.
pub open spec fn addressing_mode_of(opcode: u8) -> AddressingMode {
    match opcode % 4 {
        1 => spec_group_one(opcode),
        2 => spec_group_two(opcode),
        0 => spec_group_three(opcode),
        _ => spec_group_four(opcode),
    }
}

fn middle_bits(opcode: u8) -> (r: u8)
    ensures
        r == mode_bits(opcode),
        r < 8,
{
    let r = (opcode & 0b0001_1100) >> 2;
    assert(((opcode & 0b0001_1100) >> 2) as int == (opcode as int % 32) / 4) by (bit_vector);
    r
}

fn group_one(opcode: u8) -> (r: AddressingMode)
    ensures
        r == spec_group_one(opcode),
{
    match middle_bits(opcode) {
        0b000 => AddressingMode::ZeroPageIndexedIndirectX,
        0b001 => AddressingMode::ZeroPage,
        0b010 => AddressingMode::Immediate,
        0b011 => AddressingMode::Absolute,
        0b100 => AddressingMode::ZeroPageIndirectIndexedY,
        0b101 => AddressingMode::ZeroPageX,
        0b110 => AddressingMode::AbsoluteY,
        _ => AddressingMode::AbsoluteX,
    }
}

fn group_two(opcode: u8) -> (r: AddressingMode)
    ensures
        r == spec_group_two(opcode),
{
    match middle_bits(opcode) {
        0b000 => AddressingMode::Immediate,
        0b001 => AddressingMode::ZeroPage,
        0b010 => AddressingMode::Implied,
        0b011 => AddressingMode::Absolute,
        0b100 => AddressingMode::Implied,
        0b101 => {
            if opcode == 0x96 || opcode == 0xB6 {
                AddressingMode::ZeroPageY
            } else {
                AddressingMode::ZeroPageX
            }
        },
        0b110 => AddressingMode::Implied,
        _ => {
            if opcode == 0x9E || opcode == 0xBE {
                AddressingMode::AbsoluteY
            } else {
                AddressingMode::AbsoluteX
            }
        },
    }
}

fn group_three(opcode: u8) -> (r: AddressingMode)
    ensures
        r == spec_group_three(opcode),
{
    match middle_bits(opcode) {
        0b000 => match opcode {
            0x00 | 0x40 | 0x60 => AddressingMode::Implied,
            0x20 => AddressingMode::Absolute,
            _ => AddressingMode::Immediate,
        },
        0b001 => AddressingMode::ZeroPage,
        0b010 => AddressingMode::Implied,
        0b011 => {
            if opcode == 0x6C {
                AddressingMode::AbsoluteIndirect
            } else {
                AddressingMode::Absolute
            }
        },
        0b100 => AddressingMode::Relative,
        0b101 => AddressingMode::ZeroPageX,
        0b110 => AddressingMode::Implied,
        _ => AddressingMode::AbsoluteX,
    }
}

fn group_four(opcode: u8) -> (r: AddressingMode)
    ensures
        r == spec_group_four(opcode),
{
    match middle_bits(opcode) {
        0b000 => AddressingMode::ZeroPageIndexedIndirectX,
        0b001 => AddressingMode::ZeroPage,
        0b010 => AddressingMode::Immediate,
        0b011 => AddressingMode::Absolute,
        0b100 => AddressingMode::ZeroPageIndirectIndexedY,
        0b101 => {
            if opcode == 0x97 || opcode == 0xB7 {
                AddressingMode::ZeroPageY
            } else {
                AddressingMode::ZeroPageX
            }
        },
        0b110 => AddressingMode::AbsoluteY,
        _ => {
            if opcode == 0x9F || opcode == 0xBF {
                AddressingMode::AbsoluteY
            } else {
                AddressingMode::AbsoluteX
            }
        },
    }
}

/// Classifies `opcode` by its group bits and then by its mode bits.
pub fn addressing_mode(opcode: u8) -> (r: AddressingMode)
    ensures
        r == addressing_mode_of(opcode),
{
    let group = opcode & 0b11;
    assert(opcode & 0b11 == opcode % 4) by (bit_vector);
    match group {
        0b01 => group_one(opcode),
        0b10 => group_two(opcode),
        0b00 => group_three(opcode),
        _ => group_four(opcode),
    }
}

/// The number of bytes an instruction in `mode` occupies, opcode included.
pub open spec fn mode_length(mode: AddressingMode) -> u16 {
    match mode {
        AddressingMode::Absolute
        | AddressingMode::AbsoluteIndirect
        | AddressingMode::AbsoluteX
        | AddressingMode::AbsoluteY => 3,
        AddressingMode::Implied => 1,
        _ => 2,
    }
}

/// Returns the instruction length in bytes for `mode`.
pub fn instruction_length(mode: AddressingMode) -> (r: u16)
    ensures
        r == mode_length(mode),
{
    match mode {
        AddressingMode::Absolute
        | AddressingMode::AbsoluteIndirect
        | AddressingMode::AbsoluteX
        | AddressingMode::AbsoluteY => 3,
        AddressingMode::ZeroPage
        | AddressingMode::ZeroPageX
        | AddressingMode::ZeroPageY
        | AddressingMode::ZeroPageIndirectIndexedY
        | AddressingMode::ZeroPageIndexedIndirectX
        | AddressingMode::Immediate
        | AddressingMode::Relative => 2,
        AddressingMode::Implied => 1,
    }
}

} // verus!
