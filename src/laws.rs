//! Properties that hold across the decoder, the resolver, the timing model
//! and the engine.
use vstd::prelude::*;
use crate::addressing_modes::{addressing_mode_of, AddressingMode};
use crate::cpu::{add16, read_word, resolve, word, Mos6502, Operand};
use crate::cpu_memory::{peek, BusError, MemoryView};
use crate::engine::{execute, reset_result, reset_state, RESET_VECTOR};
use crate::instructions::{instruction_of, Instruction};
use crate::semantics::{is_branch, is_control, is_register_op, is_store, is_value_op};
use crate::timing::cycles_of;

verus! {

/// An indexed absolute access reports a page cross exactly when adding the
/// index changes the high byte of the base address read from the
/// instruction; the program counter's own page plays no part.
pub proof fn lemma_absolute_indexed_page_cross(cpu: Mos6502, m: MemoryView, mode: AddressingMode)
    requires
        mode == AddressingMode::AbsoluteX || mode == AddressingMode::AbsoluteY,
        resolve(cpu, m, mode) is Ok,
    ensures
        ({
            let base = read_word(m, add16(cpu.program_counter, 1), add16(cpu.program_counter, 2))->Ok_0;
            let index = if mode == AddressingMode::AbsoluteX { cpu.index_x } else { cpu.index_y };
            let address = add16(base, index as int);
            &&& resolve(cpu, m, mode)->Ok_0.0 == Operand::Address(address)
            &&& resolve(cpu, m, mode)->Ok_0.1 == ((base & 0xFF00u16) != (address & 0xFF00u16))
        }),
{
}

/// Zero-page indexed accesses never report a page cross and stay within
/// the zero page, the index sum wrapping at 256.
pub proof fn lemma_zero_page_indexed_wraps(cpu: Mos6502, m: MemoryView, mode: AddressingMode)
    requires
        mode == AddressingMode::ZeroPageX || mode == AddressingMode::ZeroPageY,
        resolve(cpu, m, mode) is Ok,
    ensures
        ({
            let z = peek(m, add16(cpu.program_counter, 1));
            let index = if mode == AddressingMode::ZeroPageX { cpu.index_x } else { cpu.index_y };
            &&& !resolve(cpu, m, mode)->Ok_0.1
            &&& resolve(cpu, m, mode)->Ok_0.0 == Operand::Address(((z as int + index as int) % 256) as u16)
            &&& resolve(cpu, m, mode)->Ok_0.0->Address_0 <= 0xFF
        }),
{
}

/// A branch costs two cycles when not taken, three when taken to the same
/// page, and four when taken to another page.
pub proof fn lemma_branch_timing(
    cpu: Mos6502,
    m: MemoryView,
    ins: Instruction,
    offset: u16,
)
    requires
        is_branch(ins),
    ensures
        ({
            let next = add16(cpu.program_counter, 2);
            let target = add16(next, offset as int);
            let o = execute(cpu, m, ins, AddressingMode::Relative, Operand::Offset(offset), cpu.branch_taken(ins))->Ok_0;
            &&& execute(cpu, m, ins, AddressingMode::Relative, Operand::Offset(offset), cpu.branch_taken(ins)) is Ok
            &&& !cpu.branch_taken(ins) ==> o.cycles == 2 && o.cpu.program_counter == next
            &&& cpu.branch_taken(ins) && next / 256 == target / 256 ==> o.cycles == 3 && o.cpu.program_counter == target
            &&& cpu.branch_taken(ins) && next / 256 != target / 256 ==> o.cycles == 4 && o.cpu.program_counter == target
        }),
{
}

/// Stores through an indexed mode always pay the indexed cost, page cross
/// or not.
pub proof fn lemma_indexed_store_cost(crossed: bool)
    ensures
        cycles_of(AddressingMode::AbsoluteX, Instruction::STA, crossed) == 5,
        cycles_of(AddressingMode::AbsoluteY, Instruction::STA, crossed) == 5,
        cycles_of(AddressingMode::ZeroPageIndirectIndexedY, Instruction::STA, crossed) == 6,
{
}

/// A reset depends on the reset vector alone: two resets in succession on
/// the same bus give the same registers and flags, whatever came before.
pub proof fn lemma_reset_deterministic(m: MemoryView, first: Mos6502, second: Mos6502)
    requires
        reset_result(m) == Ok::<Mos6502, BusError>(first),
    ensures
        reset_result(m) == Ok::<Mos6502, BusError>(second) ==> first == second,
        first == reset_state(word(peek(m, RESET_VECTOR), peek(m, add16(RESET_VECTOR, 1)))),
{
}

/// Every instruction but the unassigned-opcode marker has a handler: it
/// reads a value, touches registers only, modifies in place, stores,
/// branches, or transfers control.
pub proof fn lemma_every_instruction_handled(ins: Instruction)
    requires
        ins != Instruction::ILL,
    ensures
        is_value_op(ins) || is_register_op(ins) || ins.is_rmw() || is_store(ins) || is_branch(ins)
            || is_control(ins),
{
}

/// Decoding pairs every documented instruction with a mode its handler
/// expects: value-reading instructions and stores get an operand with a
/// value or a location, and branches, and only branches, are relative.
#[verifier::rlimit(100)]
pub proof fn lemma_decoded_modes_fit(opcode: u8)
    requires
        instruction_of(opcode) != Instruction::ILL,
    ensures
        is_value_op(instruction_of(opcode)) ==> addressing_mode_of(opcode) != AddressingMode::Implied
            && addressing_mode_of(opcode) != AddressingMode::Relative,
        is_store(instruction_of(opcode)) ==> addressing_mode_of(opcode) != AddressingMode::Implied
            && addressing_mode_of(opcode) != AddressingMode::Relative
            && addressing_mode_of(opcode) != AddressingMode::Immediate,
        is_branch(instruction_of(opcode)) <==> addressing_mode_of(opcode) == AddressingMode::Relative,
{
}

/// Opcodes whose low two bits are `01` take their mode straight from the
/// middle three bits, with no exception.
pub proof fn lemma_group_one_has_no_exceptions(opcode: u8)
    requires
        opcode & 0b11 == 0b01,
    ensures
        addressing_mode_of(opcode) == seq![
            AddressingMode::ZeroPageIndexedIndirectX,
            AddressingMode::ZeroPage,
            AddressingMode::Immediate,
            AddressingMode::Absolute,
            AddressingMode::ZeroPageIndirectIndexedY,
            AddressingMode::ZeroPageX,
            AddressingMode::AbsoluteY,
            AddressingMode::AbsoluteX,
        ][((opcode & 0b0001_1100) >> 2) as int],
{
    assert(opcode & 0b11 == 0b01 ==> opcode % 4 == 1) by (bit_vector);
    assert(((opcode & 0b0001_1100) >> 2) as int == (opcode as int % 32) / 4) by (bit_vector);
}

/// The exceptions to the group rules: only 0x96, 0xB6, 0x97 and 0xB7 index
/// the zero page by Y, and only 0x6C jumps through a pointer.
pub proof fn lemma_mode_exceptions(opcode: u8)
    ensures
        addressing_mode_of(opcode) == AddressingMode::ZeroPageY <==> (opcode == 0x96 || opcode == 0xB6
            || opcode == 0x97 || opcode == 0xB7),
        addressing_mode_of(opcode) == AddressingMode::AbsoluteIndirect <==> opcode == 0x6C,
{
}

} // verus!
