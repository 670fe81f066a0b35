//! The execution engine: register file, operand resolution and stepping.
use vstd::prelude::*;
use crate::addressing_modes::AddressingMode;
use crate::cpu_memory::{bus_read, BusError, CpuMemory, MemoryView};

verus! {

/// The register and flag file of the processor.
#[derive(Clone, Copy, Debug, PartialEq, Eq, Structural)]
pub struct Mos6502 {
    pub program_counter: u16,
    pub accumulator: u8,
    pub index_x: u8,
    pub index_y: u8,
    pub stack_pointer: u8,
    pub carry: bool,
    pub zero: bool,
    pub interrupt_disable: bool,
    pub decimal_mode: bool,
    pub overflow: bool,
    pub sign: bool,
    /// A non-maskable interrupt waits for the next instruction boundary.
    pub nmi_pending: bool,
    /// A maskable interrupt waits until interrupts are enabled.
    pub irq_pending: bool,
}

/// The operand of one instruction, resolved from its addressing mode.
#[derive(Clone, Copy, Debug, PartialEq, Eq, Structural)]
pub enum Operand {
    /// A location on the bus.
    Address(u16),
    /// A literal byte.
    Immediate(u8),
    /// A branch displacement, sign-extended to 16 bits.
    Offset(u16),
    /// No operand.
    Implied,
}

/// Why a step did not complete.
#[derive(Clone, Copy, Debug, PartialEq, Eq, Structural)]
pub enum StepError {
    /// The bus could not serve an access.
    Bus(BusError),
    /// The opcode has no documented instruction.
    IllegalOpcode(u8),
}

/// The two interrupt lines.
#[derive(Clone, Copy, Debug, PartialEq, Eq, Structural)]
pub enum Interrupt {
    Nmi,
    Irq,
}

/// `a + k` modulo 2^16.
pub open spec fn add16(a: u16, k: int) -> u16 {
    ((a as int + k) % 65536) as u16
}

/// `a + k` modulo 2^8.
pub open spec fn add8(a: u8, k: int) -> u8 {
    ((a as int + k) % 256) as u8
}

/// The little-endian word made of `lo` and `hi`.
pub open spec fn word(lo: u8, hi: u8) -> u16 {
    (hi as int * 256 + lo as int) as u16
}

/// A word read from two bus locations, low byte first.
pub open spec fn read_word(m: MemoryView, lo_addr: u16, hi_addr: u16) -> Result<u16, BusError> {
    match bus_read(m, lo_addr) {
        Ok(lo) => match bus_read(m, hi_addr) {
            Ok(hi) => Ok(word(lo, hi)),
            Err(e) => Err(e),
        },
        Err(e) => Err(e),
    }
}

/// A signed byte widened to a 16-bit two's-complement displacement.
pub open spec fn sign_extend(v: u8) -> u16 {
    if v < 128 {
        v as u16
    } else {
        (v as int + 0xFF00) as u16
    }
}

/// Whether adding `index` to `base` changes the page, i.e. the high byte.
pub open spec fn page_crossed(base: u16, index: u8) -> bool {
    (base & 0xFF00u16) != (add16(base, index as int) & 0xFF00u16)
}

/// The operand of an indexed absolute access.
pub open spec fn indexed(base: u16, index: u8) -> (Operand, bool) {
    (Operand::Address(add16(base, index as int)), page_crossed(base, index))
}

/// The operand that `mode` selects for the instruction at the program
/// counter, with whether an index crossed a page.
pub open spec fn resolve(cpu: Mos6502, m: MemoryView, mode: AddressingMode) -> Result<(Operand, bool), BusError> {
    let pc1 = add16(cpu.program_counter, 1);
    let pc2 = add16(cpu.program_counter, 2);
    match mode {
        AddressingMode::Absolute => match read_word(m, pc1, pc2) {
            Ok(a) => Ok((Operand::Address(a), false)),
            Err(e) => Err(e),
        },
        AddressingMode::AbsoluteIndirect => match read_word(m, pc1, pc2) {
            Ok(p) => match read_word(m, p, add16(p, 1)) {
                Ok(a) => Ok((Operand::Address(a), false)),
                Err(e) => Err(e),
            },
            Err(e) => Err(e),
        },
        AddressingMode::AbsoluteX => match read_word(m, pc1, pc2) {
            Ok(b) => Ok(indexed(b, cpu.index_x)),
            Err(e) => Err(e),
        },
        AddressingMode::AbsoluteY => match read_word(m, pc1, pc2) {
            Ok(b) => Ok(indexed(b, cpu.index_y)),
            Err(e) => Err(e),
        },
        AddressingMode::ZeroPage => match bus_read(m, pc1) {
            Ok(z) => Ok((Operand::Address(z as u16), false)),
            Err(e) => Err(e),
        },
        AddressingMode::ZeroPageX => match bus_read(m, pc1) {
            Ok(z) => Ok((Operand::Address(add8(z, cpu.index_x as int) as u16), false)),
            Err(e) => Err(e),
        },
        AddressingMode::ZeroPageY => match bus_read(m, pc1) {
            Ok(z) => Ok((Operand::Address(add8(z, cpu.index_y as int) as u16), false)),
            Err(e) => Err(e),
        },
        AddressingMode::ZeroPageIndexedIndirectX => match bus_read(m, pc1) {
            Ok(z) => {
                let p = add8(z, cpu.index_x as int);
                match read_word(m, p as u16, add8(p, 1) as u16) {
                    Ok(a) => Ok((Operand::Address(a), false)),
                    Err(e) => Err(e),
                }
            },
            Err(e) => Err(e),
        },
        AddressingMode::ZeroPageIndirectIndexedY => match bus_read(m, pc1) {
            Ok(z) => match read_word(m, z as u16, add8(z, 1) as u16) {
                Ok(b) => Ok(indexed(b, cpu.index_y)),
                Err(e) => Err(e),
            },
            Err(e) => Err(e),
        },
        AddressingMode::Immediate => match bus_read(m, pc1) {
            Ok(v) => Ok((Operand::Immediate(v), false)),
            Err(e) => Err(e),
        },
        AddressingMode::Relative => match bus_read(m, pc1) {
            Ok(v) => Ok((Operand::Offset(sign_extend(v)), false)),
            Err(e) => Err(e),
        },
        AddressingMode::Implied => Ok((Operand::Implied, false)),
    }
}

impl Operand {
    /// Whether the operand has a value to read.
    pub open spec fn readable(self) -> bool {
        self is Address || self is Immediate
    }

    /// The value a readable operand holds. An offset or the implied operand
    /// holds none and reads as zero; decoding never hands one to an
    /// instruction that reads a value.
    pub open spec fn value(self, m: MemoryView) -> Result<u8, BusError> {
        match self {
            Operand::Address(a) => bus_read(m, a),
            Operand::Immediate(v) => Ok(v),
            _ => Ok(0),
        }
    }

    /// Reads the value of an address or an immediate operand.
    pub fn read(&self, memory: &CpuMemory) -> (r: Result<u8, BusError>)
        requires
            memory.wf(),
            self.readable(),
        ensures
            r == self.value(memory@),
    {
        match self {
            Operand::Address(a) => memory.read(*a),
            Operand::Immediate(v) => Ok(*v),
            _ => Ok(0),
        }
    }
}

fn wrap_add16(a: u16, k: u16) -> (r: u16)
    ensures
        r == add16(a, k as int),
{
    ((a as u32 + k as u32) % 65536) as u16
}

fn wrap_add8(a: u8, k: u8) -> (r: u8)
    ensures
        r == add8(a, k as int),
{
    ((a as u16 + k as u16) % 256) as u8
}

fn make_word(lo: u8, hi: u8) -> (r: u16)
    ensures
        r == word(lo, hi),
{
    hi as u16 * 256 + lo as u16
}

fn fetch_word(memory: &CpuMemory, lo_addr: u16, hi_addr: u16) -> (r: Result<u16, BusError>)
    requires
        memory.wf(),
    ensures
        r == read_word(memory@, lo_addr, hi_addr),
{
    match memory.read(lo_addr) {
        Ok(lo) => match memory.read(hi_addr) {
            Ok(hi) => Ok(make_word(lo, hi)),
            Err(e) => Err(e),
        },
        Err(e) => Err(e),
    }
}

fn index_base(base: u16, index: u8) -> (r: (Operand, bool))
    ensures
        r == indexed(base, index),
{
    let address = wrap_add16(base, index as u16);
    (Operand::Address(address), base & 0xFF00 != address & 0xFF00)
}

impl Mos6502 {
    /// Resolves the operand of the instruction at the program counter.
    pub fn get_operand(&self, memory: &CpuMemory, mode: AddressingMode) -> (r: Result<(Operand, bool), BusError>)
        requires
            memory.wf(),
        ensures
            r == resolve(*self, memory@, mode),
    {
        let pc1 = wrap_add16(self.program_counter, 1);
        let pc2 = wrap_add16(self.program_counter, 2);
        match mode {
            AddressingMode::Absolute => match fetch_word(memory, pc1, pc2) {
                Ok(a) => Ok((Operand::Address(a), false)),
                Err(e) => Err(e),
            },
            AddressingMode::AbsoluteIndirect => match fetch_word(memory, pc1, pc2) {
                Ok(p) => match fetch_word(memory, p, wrap_add16(p, 1)) {
                    Ok(a) => Ok((Operand::Address(a), false)),
                    Err(e) => Err(e),
                },
                Err(e) => Err(e),
            },
            AddressingMode::AbsoluteX => match fetch_word(memory, pc1, pc2) {
                Ok(b) => Ok(index_base(b, self.index_x)),
                Err(e) => Err(e),
            },
            AddressingMode::AbsoluteY => match fetch_word(memory, pc1, pc2) {
                Ok(b) => Ok(index_base(b, self.index_y)),
                Err(e) => Err(e),
            },
            AddressingMode::ZeroPage => match memory.read(pc1) {
                Ok(z) => Ok((Operand::Address(z as u16), false)),
                Err(e) => Err(e),
            },
            AddressingMode::ZeroPageX => match memory.read(pc1) {
                Ok(z) => Ok((Operand::Address(wrap_add8(z, self.index_x) as u16), false)),
                Err(e) => Err(e),
            },
            AddressingMode::ZeroPageY => match memory.read(pc1) {
                Ok(z) => Ok((Operand::Address(wrap_add8(z, self.index_y) as u16), false)),
                Err(e) => Err(e),
            },
            AddressingMode::ZeroPageIndexedIndirectX => match memory.read(pc1) {
                Ok(z) => {
                    let p = wrap_add8(z, self.index_x);
                    match fetch_word(memory, p as u16, wrap_add8(p, 1) as u16) {
                        Ok(a) => Ok((Operand::Address(a), false)),
                        Err(e) => Err(e),
                    }
                },
                Err(e) => Err(e),
            },
            AddressingMode::ZeroPageIndirectIndexedY => match memory.read(pc1) {
                Ok(z) => match fetch_word(memory, z as u16, wrap_add8(z, 1) as u16) {
                    Ok(b) => Ok(index_base(b, self.index_y)),
                    Err(e) => Err(e),
                },
                Err(e) => Err(e),
            },
            AddressingMode::Immediate => match memory.read(pc1) {
                Ok(v) => Ok((Operand::Immediate(v), false)),
                Err(e) => Err(e),
            },
            AddressingMode::Relative => match memory.read(pc1) {
                Ok(v) => {
                    let offset: u16 = if v < 128 { v as u16 } else { v as u16 + 0xFF00 };
                    Ok((Operand::Offset(offset), false))
                },
                Err(e) => Err(e),
            },
            AddressingMode::Implied => Ok((Operand::Implied, false)),
        }
    }
}

} // verus!
