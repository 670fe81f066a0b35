//! Cycle costs of instructions.
use vstd::prelude::*;
use crate::addressing_modes::AddressingMode;
use crate::instructions::Instruction;

verus! {

/// Cycles taken by an instruction in `mode`. For `Relative`, `crossed_page`
/// means that the branch was taken; the extra cycle of a taken branch that
/// lands on another page is charged by `branch_page_penalty`.
pub open spec fn cycles_of(mode: AddressingMode, instruction: Instruction, crossed_page: bool) -> nat {
    match mode {
        AddressingMode::Implied => match instruction {
            Instruction::BRK => 7,
            Instruction::RTI | Instruction::RTS => 6,
            Instruction::PHA | Instruction::PHP => 3,
            Instruction::PLA | Instruction::PLP => 4,
            _ => 2,
        },
        AddressingMode::Immediate => 2,
        AddressingMode::ZeroPage => if instruction.is_rmw() { 5 } else { 3 },
        AddressingMode::ZeroPageX => if instruction.is_rmw() { 6 } else { 4 },
        AddressingMode::ZeroPageY => 4,
        AddressingMode::Absolute => match instruction {
            Instruction::JMP => 3,
            Instruction::JSR => 6,
            _ => if instruction.is_rmw() { 6 } else { 4 },
        },
        AddressingMode::AbsoluteX => if instruction == Instruction::STA {
            5
        } else if instruction.is_rmw() {
            7
        } else if crossed_page {
            5
        } else {
            4
        },
        AddressingMode::AbsoluteY => if instruction == Instruction::STA || crossed_page {
            5
        } else {
            4
        },
        AddressingMode::AbsoluteIndirect => 5,
        AddressingMode::ZeroPageIndexedIndirectX => 6,
        AddressingMode::ZeroPageIndirectIndexedY => if instruction == Instruction::STA
            || crossed_page {
            6
        } else {
            5
        },
        AddressingMode::Relative => if crossed_page { 3 } else { 2 },
    }
}

/// Returns the cycle cost of `instruction` in `mode`.
pub fn get_timing(mode: AddressingMode, instruction: Instruction, crossed_page: bool) -> (r: usize)
    ensures
        r == cycles_of(mode, instruction, crossed_page),
        2 <= r <= 7,
{
    match mode {
        AddressingMode::Implied => match instruction {
            Instruction::BRK => 7,
            Instruction::RTI | Instruction::RTS => 6,
            Instruction::PHA | Instruction::PHP => 3,
            Instruction::PLA | Instruction::PLP => 4,
            _ => 2,
        },
        AddressingMode::Immediate => 2,
        AddressingMode::ZeroPage => {
            if instruction.rwr() {
                5
            } else {
                3
            }
        },
        AddressingMode::ZeroPageX => {
            if instruction.rwr() {
                6
            } else {
                4
            }
        },
        AddressingMode::ZeroPageY => 4,
        AddressingMode::Absolute => match instruction {
            Instruction::JMP => 3,
            Instruction::JSR => 6,
            _ => {
                if instruction.rwr() {
                    6
                } else {
                    4
                }
            },
        },
        AddressingMode::AbsoluteX => {
            if instruction == Instruction::STA {
                5
            } else if instruction.rwr() {
                7
            } else if crossed_page {
                5
            } else {
                4
            }
        },
        AddressingMode::AbsoluteY => {
            if instruction == Instruction::STA || crossed_page {
                5
            } else {
                4
            }
        },
        AddressingMode::AbsoluteIndirect => 5,
        AddressingMode::ZeroPageIndexedIndirectX => 6,
        AddressingMode::ZeroPageIndirectIndexedY => {
            if instruction == Instruction::STA || crossed_page {
                6
            } else {
                5
            }
        },
        AddressingMode::Relative => {
            if crossed_page {
                3
            } else {
                2
            }
        },
    }
}

/// The cost of a branch: two cycles, one more when taken, and one more
/// when the taken branch lands on another page.
pub open spec fn branch_cycles(taken: bool, crossed_page: bool) -> nat {
    if !taken {
        2
    } else if crossed_page {
        4
    } else {
        3
    }
}

/// Returns the cycle cost of a branch.
pub fn branch_timing(instruction: Instruction, taken: bool, crossed_page: bool) -> (r: usize)
    ensures
        r == branch_cycles(taken, crossed_page),
{
    let base = get_timing(AddressingMode::Relative, instruction, taken);
    if taken && crossed_page {
        base + 1
    } else {
        base
    }
}

} // verus!
