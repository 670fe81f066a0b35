//! One instruction at a time: fetch, decode, resolve, execute, time.
use vstd::prelude::*;
use crate::addressing_modes::{addressing_mode, addressing_mode_of, instruction_length, mode_length, AddressingMode};
use crate::cpu::{add16, add8, read_word, resolve, word, Interrupt, Mos6502, Operand, StepError};
use crate::cpu_memory::{bus_read, bus_write, mapped, peek, poke, BusError, CpuMemory, MemoryView};
use crate::instructions::{instruction, instruction_of, Instruction};
use crate::semantics::{
    is_branch, is_register_op, is_store, is_value_op, modify, rmw_result, stack_address,
};
use crate::timing::{branch_cycles, branch_timing, cycles_of, get_timing};

verus! {

/// Address of the non-maskable interrupt vector.
pub const NMI_VECTOR: u16 = 0xFFFA;
/// Address of the reset vector.
pub const RESET_VECTOR: u16 = 0xFFFC;
/// Address of the maskable interrupt and break vector.
pub const IRQ_VECTOR: u16 = 0xFFFE;

/// The registers, the bus contents and the cycles after one step.
pub struct Outcome {
    pub cpu: Mos6502,
    pub memory: MemoryView,
    pub cycles: nat,
}

/// Whether `r`, `after` and `m_after` are what `res` prescribes, and on an
/// error, that nothing changed.
pub open spec fn produces<E>(
    res: Result<Outcome, E>,
    r: Result<usize, E>,
    before: Mos6502,
    after: Mos6502,
    m_before: MemoryView,
    m_after: MemoryView,
) -> bool {
    match res {
        Ok(o) => r == Ok::<usize, E>(o.cycles as usize) && after == o.cpu && m_after == o.memory,
        Err(e) => r == Err::<usize, E>(e) && after == before && m_after == m_before,
    }
}

/// The high and low bytes of a word.
pub open spec fn high(w: u16) -> u8 {
    (w / 256) as u8
}

pub open spec fn low(w: u16) -> u8 {
    (w % 256) as u8
}

/// The bus after pushing `a`, `b` and `c` in that order, from stack pointer `sp` downwards.
pub open spec fn push3(m: MemoryView, sp: u8, a: u8, b: u8, c: u8) -> MemoryView {
    poke(
        poke(poke(m, stack_address(sp), a), stack_address(add8(sp, 255)), b),
        stack_address(add8(sp, 254)),
        c,
    )
}

/// What the jump, call, return, break and stack instructions do.
pub open spec fn control(cpu: Mos6502, m: MemoryView, ins: Instruction, operand: Operand, next: Mos6502, cycles: nat) -> Result<Outcome, BusError> {
    let sp = cpu.stack_pointer;
    match ins {
        Instruction::JMP => match operand {
            Operand::Address(a) => Ok(Outcome { cpu: Mos6502 { program_counter: a, ..cpu }, memory: m, cycles }),
            _ => Ok(Outcome { cpu: next, memory: m, cycles }),
        },
        Instruction::JSR => match operand {
            Operand::Address(a) => {
                let ret = add16(cpu.program_counter, 2);
                let m2 = poke(poke(m, stack_address(sp), high(ret)), stack_address(add8(sp, 255)), low(ret));
                Ok(Outcome {
                    cpu: Mos6502 { program_counter: a, stack_pointer: add8(sp, 254), ..cpu },
                    memory: m2,
                    cycles,
                })
            },
            _ => Ok(Outcome { cpu: next, memory: m, cycles }),
        },
        Instruction::RTS => {
            let target = word(peek(m, stack_address(add8(sp, 1))), peek(m, stack_address(add8(sp, 2))));
            Ok(Outcome {
                cpu: Mos6502 { program_counter: add16(target, 1), stack_pointer: add8(sp, 2), ..cpu },
                memory: m,
                cycles,
            })
        },
        Instruction::RTI => {
            let status = peek(m, stack_address(add8(sp, 1)));
            let target = word(peek(m, stack_address(add8(sp, 2))), peek(m, stack_address(add8(sp, 3))));
            Ok(Outcome {
                cpu: Mos6502 { program_counter: target, stack_pointer: add8(sp, 3), ..cpu }.with_status(status),
                memory: m,
                cycles,
            })
        },
        Instruction::BRK => match read_word(m, IRQ_VECTOR, add16(IRQ_VECTOR, 1)) {
            Ok(target) => {
                let ret = add16(cpu.program_counter, 2);
                Ok(Outcome {
                    cpu: Mos6502 {
                        program_counter: target,
                        stack_pointer: add8(sp, 253),
                        interrupt_disable: true,
                        ..cpu
                    },
                    memory: push3(m, sp, high(ret), low(ret), cpu.status_byte(true)),
                    cycles,
                })
            },
            Err(e) => Err(e),
        },
        Instruction::PHA => Ok(Outcome {
            cpu: Mos6502 { stack_pointer: add8(sp, 255), ..next },
            memory: poke(m, stack_address(sp), cpu.accumulator),
            cycles,
        }),
        Instruction::PHP => Ok(Outcome {
            cpu: Mos6502 { stack_pointer: add8(sp, 255), ..next },
            memory: poke(m, stack_address(sp), cpu.status_byte(true)),
            cycles,
        }),
        Instruction::PLA => {
            let v = peek(m, stack_address(add8(sp, 1)));
            Ok(Outcome {
                cpu: Mos6502 { accumulator: v, stack_pointer: add8(sp, 1), ..next }.with_nz(v),
                memory: m,
                cycles,
            })
        },
        _ => {
            let v = peek(m, stack_address(add8(sp, 1)));
            Ok(Outcome {
                cpu: Mos6502 { stack_pointer: add8(sp, 1), ..next }.with_status(v),
                memory: m,
                cycles,
            })
        },
    }
}

/// What executing `ins` on the resolved `operand` does.
pub open spec fn execute(
    cpu: Mos6502,
    m: MemoryView,
    ins: Instruction,
    mode: AddressingMode,
    operand: Operand,
    crossed: bool,
) -> Result<Outcome, BusError> {
    let next = Mos6502 { program_counter: add16(cpu.program_counter, mode_length(mode) as int), ..cpu };
    let cycles = cycles_of(mode, ins, crossed);
    if is_value_op(ins) {
        match operand.value(m) {
            Ok(v) => Ok(Outcome { cpu: next.value_op(ins, v), memory: m, cycles }),
            Err(e) => Err(e),
        }
    } else if is_register_op(ins) {
        Ok(Outcome { cpu: next.register_op(ins), memory: m, cycles })
    } else if ins.is_rmw() {
        match operand {
            Operand::Address(a) => match bus_read(m, a) {
                Ok(v) => Ok(Outcome {
                    cpu: next.rmw_flags(ins, cpu.carry, v),
                    memory: poke(m, a, rmw_result(ins, cpu.carry, v).0),
                    cycles,
                }),
                Err(e) => Err(e),
            },
            _ => Ok(Outcome {
                cpu: Mos6502 {
                    accumulator: rmw_result(ins, cpu.carry, cpu.accumulator).0,
                    ..next.rmw_flags(ins, cpu.carry, cpu.accumulator)
                },
                memory: m,
                cycles,
            }),
        }
    } else if is_store(ins) {
        match operand {
            Operand::Address(a) => match bus_write(m, a, cpu.store_value(ins)) {
                Ok(m2) => Ok(Outcome { cpu: next, memory: m2, cycles }),
                Err(e) => Err(e),
            },
            _ => Ok(Outcome { cpu: next, memory: m, cycles }),
        }
    } else if is_branch(ins) {
        let offset = match operand {
            Operand::Offset(o) => o,
            _ => 0,
        };
        let target = add16(next.program_counter, offset as int);
        if cpu.branch_taken(ins) {
            Ok(Outcome {
                cpu: Mos6502 { program_counter: target, ..cpu },
                memory: m,
                cycles: branch_cycles(true, next.program_counter / 256 != target / 256),
            })
        } else {
            Ok(Outcome { cpu: next, memory: m, cycles: branch_cycles(false, false) })
        }
    } else {
        control(cpu, m, ins, operand, next, cycles)
    }
}

/// Entering an interrupt handler through the vector at `vector`: the
/// program counter and the status (break bit clear) are pushed.
pub open spec fn service(cpu: Mos6502, m: MemoryView, vector: u16) -> Result<Outcome, BusError> {
    match read_word(m, vector, add16(vector, 1)) {
        Ok(target) => Ok(Outcome {
            cpu: Mos6502 {
                program_counter: target,
                stack_pointer: add8(cpu.stack_pointer, 253),
                interrupt_disable: true,
                ..cpu
            },
            memory: push3(
                m,
                cpu.stack_pointer,
                high(cpu.program_counter),
                low(cpu.program_counter),
                cpu.status_byte(false),
            ),
            cycles: 7,
        }),
        Err(e) => Err(e),
    }
}

pub open spec fn lift(r: Result<Outcome, BusError>) -> Result<Outcome, StepError> {
    match r {
        Ok(o) => Ok(o),
        Err(e) => Err(StepError::Bus(e)),
    }
}

/// One step: a pending interrupt is entered, else the instruction at the
/// program counter runs.
pub open spec fn step_result(cpu: Mos6502, m: MemoryView) -> Result<Outcome, StepError> {
    if cpu.nmi_pending {
        lift(service(Mos6502 { nmi_pending: false, ..cpu }, m, NMI_VECTOR))
    } else if cpu.irq_pending && !cpu.interrupt_disable {
        lift(service(Mos6502 { irq_pending: false, ..cpu }, m, IRQ_VECTOR))
    } else {
        match bus_read(m, cpu.program_counter) {
            Err(e) => Err(StepError::Bus(e)),
            Ok(opcode) => {
                let ins = instruction_of(opcode);
                let mode = addressing_mode_of(opcode);
                if ins == Instruction::ILL {
                    Err(StepError::IllegalOpcode(opcode))
                } else {
                    match resolve(cpu, m, mode) {
                        Err(e) => Err(StepError::Bus(e)),
                        Ok(resolved) => lift(execute(cpu, m, ins, mode, resolved.0, resolved.1)),
                    }
                }
            },
        }
    }
}

/// The state after a reset that loaded `vector` into the program counter.
pub open spec fn reset_state(vector: u16) -> Mos6502 {
    Mos6502 {
        program_counter: vector,
        accumulator: 0,
        index_x: 0,
        index_y: 0,
        stack_pointer: 0xFD,
        carry: false,
        zero: false,
        interrupt_disable: true,
        decimal_mode: false,
        overflow: false,
        sign: false,
        nmi_pending: false,
        irq_pending: false,
    }
}

/// What a reset yields on bus contents `m`: it depends on the reset vector alone.
pub open spec fn reset_result(m: MemoryView) -> Result<Mos6502, BusError> {
    match read_word(m, RESET_VECTOR, add16(RESET_VECTOR, 1)) {
        Ok(v) => Ok(reset_state(v)),
        Err(e) => Err(e),
    }
}

proof fn lemma_add8_twice(a: u8, j: int, k: int)
    requires
        0 <= j < 256,
        0 <= k < 256,
    ensures
        add8(add8(a, j), k) == add8(a, j + k),
{
    assert(((((a as int + j) % 256) as u8) as int) == (a as int + j) % 256);
    vstd::arithmetic::div_mod::lemma_add_mod_noop(a as int + j, k, 256);
    vstd::arithmetic::div_mod::lemma_mod_twice(k, 256);
}

fn stack_slot(sp: u8) -> (r: u16)
    ensures
        r == stack_address(sp),
        mapped(r),
{
    0x100 + sp as u16
}

fn wrap8(a: u8, k: u8) -> (r: u8)
    ensures
        r == add8(a, k as int),
{
    ((a as u16 + k as u16) % 256) as u8
}

fn wrap16(a: u16, k: u16) -> (r: u16)
    ensures
        r == add16(a, k as int),
{
    ((a as u32 + k as u32) % 65536) as u16
}

impl Mos6502 {
    /// The state after a reset whose vector held `vector`.
    pub fn power_on(vector: u16) -> (r: Mos6502)
        ensures
            r == reset_state(vector),
    {
        Mos6502 {
            program_counter: vector,
            accumulator: 0,
            index_x: 0,
            index_y: 0,
            stack_pointer: 0xFD,
            carry: false,
            zero: false,
            interrupt_disable: true,
            decimal_mode: false,
            overflow: false,
            sign: false,
            nmi_pending: false,
            irq_pending: false,
        }
    }

    /// Reinitialises registers and flags from the reset vector on the bus.
    /// On a bus error nothing changes.
    pub fn reset(&mut self, memory: &CpuMemory) -> (r: Result<(), BusError>)
        requires
            memory.wf(),
        ensures
            match reset_result(memory@) {
                Ok(s) => r == Ok::<(), BusError>(()) && *final(self) == s,
                Err(e) => r == Err::<(), BusError>(e) && *final(self) == *old(self),
            },
    {
        match memory.read(RESET_VECTOR) {
            Ok(lo) => match memory.read(RESET_VECTOR + 1) {
                Ok(hi) => {
                    *self = Mos6502::power_on(hi as u16 * 256 + lo as u16);
                    Ok(())
                },
                Err(e) => Err(e),
            },
            Err(e) => Err(e),
        }
    }

    /// Latches an interrupt request, to be entered at the next instruction boundary.
    pub fn request_interrupt(&mut self, kind: Interrupt)
        ensures
            *final(self) == (match kind {
                Interrupt::Nmi => Mos6502 { nmi_pending: true, ..*old(self) },
                Interrupt::Irq => Mos6502 { irq_pending: true, ..*old(self) },
            }),
    {
        match kind {
            Interrupt::Nmi => self.nmi_pending = true,
            Interrupt::Irq => self.irq_pending = true,
        }
    }

    fn push(&mut self, memory: &mut CpuMemory, value: u8)
        requires
            old(memory).wf(),
        ensures
            final(memory).wf(),
            final(memory)@ == poke(old(memory)@, stack_address(old(self).stack_pointer), value),
            *final(self) == (Mos6502 { stack_pointer: add8(old(self).stack_pointer, 255), ..*old(self) }),
    {
        let address = stack_slot(self.stack_pointer);
        match memory.write(address, value) {
            Ok(()) => {},
            Err(_) => {},
        }
        self.stack_pointer = wrap8(self.stack_pointer, 255);
    }

    fn pull(&mut self, memory: &CpuMemory) -> (r: u8)
        requires
            memory.wf(),
        ensures
            r == peek(memory@, stack_address(add8(old(self).stack_pointer, 1))),
            *final(self) == (Mos6502 { stack_pointer: add8(old(self).stack_pointer, 1), ..*old(self) }),
    {
        self.stack_pointer = wrap8(self.stack_pointer, 1);
        match memory.read(stack_slot(self.stack_pointer)) {
            Ok(v) => v,
            Err(_) => 0,
        }
    }

    /// Advances the program counter past an instruction in `mode`; returns 1
    /// when that moves it to another page, else 0.
    pub fn move_program_counter(&mut self, mode: AddressingMode) -> (r: usize)
        ensures
            *final(self) == (Mos6502 {
                program_counter: add16(old(self).program_counter, mode_length(mode) as int),
                ..*old(self)
            }),
            r == (if old(self).program_counter / 256 != final(self).program_counter / 256 { 1usize } else { 0usize }),
    {
        let prev = self.program_counter;
        self.program_counter = wrap16(self.program_counter, instruction_length(mode));
        if self.program_counter / 256 != prev / 256 {
            1
        } else {
            0
        }
    }

    /// Add with carry on the operand's value.
    pub fn adc(&mut self, memory: &CpuMemory, operand: Operand) -> (r: Result<(), BusError>)
        requires
            memory.wf(),
            operand.readable(),
        ensures
            match operand.value(memory@) {
                Ok(v) => r == Ok::<(), BusError>(()) && *final(self) == old(self).add_spec(v),
                Err(e) => r == Err::<(), BusError>(e) && *final(self) == *old(self),
            },
    {
        match operand.read(memory) {
            Ok(v) => {
                self.add_with_carry(v);
                Ok(())
            },
            Err(e) => Err(e),
        }
    }

    /// Bitwise and of the accumulator with the operand's value.
    pub fn and(&mut self, memory: &CpuMemory, operand: Operand) -> (r: Result<(), BusError>)
        requires
            memory.wf(),
            operand.readable(),
        ensures
            match operand.value(memory@) {
                Ok(v) => r == Ok::<(), BusError>(()) && *final(self) == old(self).value_op(Instruction::AND, v),
                Err(e) => r == Err::<(), BusError>(e) && *final(self) == *old(self),
            },
    {
        match operand.read(memory) {
            Ok(v) => {
                self.apply_value(Instruction::AND, v);
                Ok(())
            },
            Err(e) => Err(e),
        }
    }

    /// Arithmetic shift left of the operand's location in place, or of the
    /// accumulator for an implied operand.
    pub fn asl(&mut self, memory: &mut CpuMemory, operand: Operand) -> (r: Result<(), BusError>)
        requires
            old(memory).wf(),
        ensures
            final(memory).wf(),
            match operand {
                Operand::Address(a) => match bus_read(old(memory)@, a) {
                    Ok(v) => r == Ok::<(), BusError>(())
                        && *final(self) == old(self).rmw_flags(Instruction::ASL, old(self).carry, v)
                        && final(memory)@ == poke(old(memory)@, a, rmw_result(Instruction::ASL, old(self).carry, v).0),
                    Err(e) => r == Err::<(), BusError>(e) && *final(self) == *old(self) && final(memory)@ == old(memory)@,
                },
                _ => r == Ok::<(), BusError>(()) && final(memory)@ == old(memory)@
                    && *final(self) == (Mos6502 {
                        accumulator: rmw_result(Instruction::ASL, old(self).carry, old(self).accumulator).0,
                        ..old(self).rmw_flags(Instruction::ASL, old(self).carry, old(self).accumulator)
                    }),
            },
    {
        self.read_modify_write(memory, Instruction::ASL, operand)
    }

    fn read_modify_write(&mut self, memory: &mut CpuMemory, ins: Instruction, operand: Operand) -> (r: Result<(), BusError>)
        requires
            old(memory).wf(),
        ensures
            final(memory).wf(),
            match operand {
                Operand::Address(a) => match bus_read(old(memory)@, a) {
                    Ok(v) => r == Ok::<(), BusError>(())
                        && *final(self) == old(self).rmw_flags(ins, old(self).carry, v)
                        && final(memory)@ == poke(old(memory)@, a, rmw_result(ins, old(self).carry, v).0),
                    Err(e) => r == Err::<(), BusError>(e) && *final(self) == *old(self) && final(memory)@ == old(memory)@,
                },
                _ => r == Ok::<(), BusError>(()) && final(memory)@ == old(memory)@
                    && *final(self) == (Mos6502 {
                        accumulator: rmw_result(ins, old(self).carry, old(self).accumulator).0,
                        ..old(self).rmw_flags(ins, old(self).carry, old(self).accumulator)
                    }),
            },
    {
        match operand {
            Operand::Address(a) => match memory.read(a) {
                Ok(v) => {
                    let (result, carry) = modify(ins, self.carry, v);
                    match memory.write(a, result) {
                        Ok(()) => {},
                        Err(_) => {},
                    }
                    self.carry = carry;
                    self.zero = result == 0;
                    self.sign = result >= 128;
                    Ok(())
                },
                Err(e) => Err(e),
            },
            _ => {
                let (result, carry) = modify(ins, self.carry, self.accumulator);
                self.accumulator = result;
                self.carry = carry;
                self.zero = result == 0;
                self.sign = result >= 128;
                Ok(())
            },
        }
    }
}

impl Mos6502 {
    #[verifier::rlimit(100)]
    fn run_jump(&mut self, memory: &mut CpuMemory, ins: Instruction, mode: AddressingMode, operand: Operand, crossed: bool) -> (r: Result<usize, BusError>)
        requires
            old(memory).wf(),
            ins == Instruction::JMP || ins == Instruction::JSR,
        ensures
            final(memory).wf(),
            produces(
                control(*old(self), old(memory)@, ins, operand,
                    Mos6502 { program_counter: add16(old(self).program_counter, mode_length(mode) as int), ..*old(self) },
                    cycles_of(mode, ins, crossed)),
                r, *old(self), *final(self), old(memory)@, final(memory)@),
    {
        let cycles = get_timing(mode, ins, crossed);
        match operand {
            Operand::Address(a) => {
                if ins == Instruction::JSR {
                    let sp = self.stack_pointer;
                    let ret = wrap16(self.program_counter, 2);
                    self.push(memory, (ret / 256) as u8);
                    self.push(memory, (ret % 256) as u8);
                    proof {
                        lemma_add8_twice(sp, 255, 255);
                        assert(add8(sp, 510) == add8(sp, 254));
                    }
                }
                self.program_counter = a;
            },
            _ => {
                self.move_program_counter(mode);
            },
        }
        Ok(cycles)
    }

    fn run_return(&mut self, memory: &mut CpuMemory, ins: Instruction, mode: AddressingMode, operand: Operand, crossed: bool) -> (r: Result<usize, BusError>)
        requires
            old(memory).wf(),
            ins == Instruction::RTS,
        ensures
            final(memory).wf(),
            produces(
                control(*old(self), old(memory)@, ins, operand,
                    Mos6502 { program_counter: add16(old(self).program_counter, mode_length(mode) as int), ..*old(self) },
                    cycles_of(mode, ins, crossed)),
                r, *old(self), *final(self), old(memory)@, final(memory)@),
    {
        let cycles = get_timing(mode, ins, crossed);
        let sp = self.stack_pointer;
        let lo = self.pull(memory);
        let hi = self.pull(memory);
        proof {
            lemma_add8_twice(sp, 1, 1);
        }
        self.program_counter = wrap16(hi as u16 * 256 + lo as u16, 1);
        Ok(cycles)
    }

    fn run_interrupt_return(&mut self, memory: &mut CpuMemory, ins: Instruction, mode: AddressingMode, operand: Operand, crossed: bool) -> (r: Result<usize, BusError>)
        requires
            old(memory).wf(),
            ins == Instruction::RTI,
        ensures
            final(memory).wf(),
            produces(
                control(*old(self), old(memory)@, ins, operand,
                    Mos6502 { program_counter: add16(old(self).program_counter, mode_length(mode) as int), ..*old(self) },
                    cycles_of(mode, ins, crossed)),
                r, *old(self), *final(self), old(memory)@, final(memory)@),
    {
        let cycles = get_timing(mode, ins, crossed);
        let sp = self.stack_pointer;
        let status = self.pull(memory);
        let lo = self.pull(memory);
        let hi = self.pull(memory);
        proof {
            lemma_add8_twice(sp, 1, 1);
            lemma_add8_twice(sp, 2, 1);
        }
        self.program_counter = hi as u16 * 256 + lo as u16;
        self.set_status(status);
        Ok(cycles)
    }

    fn run_stack(&mut self, memory: &mut CpuMemory, ins: Instruction, mode: AddressingMode, operand: Operand, crossed: bool) -> (r: Result<usize, BusError>)
        requires
            old(memory).wf(),
            !(ins == Instruction::JMP || ins == Instruction::JSR || ins == Instruction::RTS
                || ins == Instruction::RTI || ins == Instruction::BRK),
        ensures
            final(memory).wf(),
            produces(
                control(*old(self), old(memory)@, ins, operand,
                    Mos6502 { program_counter: add16(old(self).program_counter, mode_length(mode) as int), ..*old(self) },
                    cycles_of(mode, ins, crossed)),
                r, *old(self), *final(self), old(memory)@, final(memory)@),
    {
        let cycles = get_timing(mode, ins, crossed);
        self.move_program_counter(mode);
        match ins {
            Instruction::PHA => {
                let a = self.accumulator;
                self.push(memory, a);
            },
            Instruction::PHP => {
                let status = self.status(true);
                self.push(memory, status);
            },
            Instruction::PLA => {
                let v = self.pull(memory);
                self.accumulator = v;
                self.zero = v == 0;
                self.sign = v >= 128;
            },
            _ => {
                let v = self.pull(memory);
                self.set_status(v);
            },
        }
        Ok(cycles)
    }

    fn run_control(&mut self, memory: &mut CpuMemory, ins: Instruction, mode: AddressingMode, operand: Operand, crossed: bool) -> (r: Result<usize, BusError>)
        requires
            old(memory).wf(),
        ensures
            final(memory).wf(),
            produces(
                control(*old(self), old(memory)@, ins, operand,
                    Mos6502 { program_counter: add16(old(self).program_counter, mode_length(mode) as int), ..*old(self) },
                    cycles_of(mode, ins, crossed)),
                r, *old(self), *final(self), old(memory)@, final(memory)@),
    {
        match ins {
            Instruction::JMP | Instruction::JSR => self.run_jump(memory, ins, mode, operand, crossed),
            Instruction::RTS => self.run_return(memory, ins, mode, operand, crossed),
            Instruction::RTI => self.run_interrupt_return(memory, ins, mode, operand, crossed),
            Instruction::BRK => {
                let cycles = get_timing(mode, ins, crossed);
                match self.enter_handler(memory, IRQ_VECTOR, true) {
                    Ok(()) => Ok(cycles),
                    Err(e) => Err(e),
                }
            },
            _ => self.run_stack(memory, ins, mode, operand, crossed),
        }
    }

    /// Pushes the return address and the status, then jumps through `vector`.
    /// For the break instruction the return address skips its padding byte
    /// and the pushed status has the break bit set.
    fn enter_handler(&mut self, memory: &mut CpuMemory, vector: u16, brk: bool) -> (r: Result<(), BusError>)
        requires
            old(memory).wf(),
            vector == NMI_VECTOR || vector == IRQ_VECTOR,
        ensures
            final(memory).wf(),
            ({
                let ret = if brk { add16(old(self).program_counter, 2) } else { old(self).program_counter };
                let sp = old(self).stack_pointer;
                match read_word(old(memory)@, vector, add16(vector, 1)) {
                    Ok(target) => r == Ok::<(), BusError>(())
                        && *final(self) == (Mos6502 {
                            program_counter: target,
                            stack_pointer: add8(sp, 253),
                            interrupt_disable: true,
                            ..*old(self)
                        })
                        && final(memory)@ == push3(old(memory)@, sp, high(ret), low(ret), old(self).status_byte(brk)),
                    Err(e) => r == Err::<(), BusError>(e) && *final(self) == *old(self) && final(memory)@ == old(memory)@,
                }
            }),
    {
        let lo = match memory.read(vector) {
            Ok(v) => v,
            Err(e) => return Err(e),
        };
        let hi = match memory.read(vector + 1) {
            Ok(v) => v,
            Err(e) => return Err(e),
        };
        let ret = if brk { wrap16(self.program_counter, 2) } else { self.program_counter };
        let status = self.status(brk);
        self.push(memory, (ret / 256) as u8);
        self.push(memory, (ret % 256) as u8);
        self.push(memory, status);
        self.interrupt_disable = true;
        self.program_counter = hi as u16 * 256 + lo as u16;
        Ok(())
    }

    fn run_branch(&mut self, ins: Instruction, mode: AddressingMode, operand: Operand) -> (r: usize)
        ensures
            ({
                let next = add16(old(self).program_counter, mode_length(mode) as int);
                let offset = match operand {
                    Operand::Offset(o) => o,
                    _ => 0,
                };
                let target = add16(next, offset as int);
                if old(self).branch_taken(ins) {
                    *final(self) == (Mos6502 { program_counter: target, ..*old(self) })
                        && r == branch_cycles(true, next / 256 != target / 256)
                } else {
                    *final(self) == (Mos6502 { program_counter: next, ..*old(self) })
                        && r == branch_cycles(false, false)
                }
            }),
    {
        let taken = self.branch_condition(ins);
        self.move_program_counter(mode);
        if taken {
            let offset = match operand {
                Operand::Offset(o) => o,
                _ => 0,
            };
            let next = self.program_counter;
            self.program_counter = wrap16(next, offset);
            branch_timing(ins, true, next / 256 != self.program_counter / 256)
        } else {
            branch_timing(ins, false, false)
        }
    }

    fn run_value(&mut self, memory: &CpuMemory, ins: Instruction, mode: AddressingMode, operand: Operand, crossed: bool) -> (r: Result<usize, BusError>)
        requires
            memory.wf(),
            is_value_op(ins),
            operand.readable(),
        ensures
            produces(execute(*old(self), memory@, ins, mode, operand, crossed), r, *old(self), *final(self), memory@, memory@),
    {
        match operand.read(memory) {
            Ok(v) => {
                self.move_program_counter(mode);
                self.apply_value(ins, v);
                Ok(get_timing(mode, ins, crossed))
            },
            Err(e) => Err(e),
        }
    }

    fn run_rmw(&mut self, memory: &mut CpuMemory, ins: Instruction, mode: AddressingMode, operand: Operand, crossed: bool) -> (r: Result<usize, BusError>)
        requires
            old(memory).wf(),
            !is_value_op(ins),
            !is_register_op(ins),
            ins.is_rmw(),
        ensures
            final(memory).wf(),
            produces(execute(*old(self), old(memory)@, ins, mode, operand, crossed), r, *old(self), *final(self), old(memory)@, final(memory)@),
    {
        let ghost before = *self;
        match self.read_modify_write(memory, ins, operand) {
            Ok(()) => {
                self.move_program_counter(mode);
                proof {
                    let next = Mos6502 { program_counter: add16(before.program_counter, mode_length(mode) as int), ..before };
                    match operand {
                        Operand::Address(a) => {
                            let v = peek(old(memory)@, a);
                            assert(next.rmw_flags(ins, before.carry, v) == Mos6502 {
                                program_counter: next.program_counter, ..before.rmw_flags(ins, before.carry, v) });
                        },
                        _ => {},
                    }
                }
                Ok(get_timing(mode, ins, crossed))
            },
            Err(e) => Err(e),
        }
    }

    fn run_store(&mut self, memory: &mut CpuMemory, ins: Instruction, mode: AddressingMode, operand: Operand, crossed: bool) -> (r: Result<usize, BusError>)
        requires
            old(memory).wf(),
            !is_value_op(ins),
            !is_register_op(ins),
            !ins.is_rmw(),
            is_store(ins),
        ensures
            final(memory).wf(),
            produces(execute(*old(self), old(memory)@, ins, mode, operand, crossed), r, *old(self), *final(self), old(memory)@, final(memory)@),
    {
        let value = self.stored(ins);
        match operand {
            Operand::Address(a) => match memory.write(a, value) {
                Ok(()) => {},
                Err(e) => return Err(e),
            },
            _ => {},
        }
        self.move_program_counter(mode);
        Ok(get_timing(mode, ins, crossed))
    }

    fn run(&mut self, memory: &mut CpuMemory, ins: Instruction, mode: AddressingMode, operand: Operand, crossed: bool) -> (r: Result<usize, BusError>)
        requires
            old(memory).wf(),
            is_value_op(ins) ==> operand.readable(),
        ensures
            final(memory).wf(),
            produces(execute(*old(self), old(memory)@, ins, mode, operand, crossed), r, *old(self), *final(self), old(memory)@, final(memory)@),
    {
        if matches!(ins, Instruction::ADC | Instruction::AND | Instruction::BIT | Instruction::CMP
            | Instruction::CPX | Instruction::CPY | Instruction::EOR | Instruction::LDA
            | Instruction::LDX | Instruction::LDY | Instruction::ORA | Instruction::SBC) {
            self.run_value(memory, ins, mode, operand, crossed)
        } else if matches!(ins, Instruction::CLC | Instruction::CLD | Instruction::CLI | Instruction::CLV
            | Instruction::SEC | Instruction::SED | Instruction::SEI | Instruction::DEX
            | Instruction::DEY | Instruction::INX | Instruction::INY | Instruction::TAX
            | Instruction::TAY | Instruction::TSX | Instruction::TXA | Instruction::TXS
            | Instruction::TYA | Instruction::NOP) {
            self.move_program_counter(mode);
            self.apply_register_op(ins);
            Ok(get_timing(mode, ins, crossed))
        } else if ins.rwr() {
            self.run_rmw(memory, ins, mode, operand, crossed)
        } else if matches!(ins, Instruction::STA | Instruction::STX | Instruction::STY) {
            self.run_store(memory, ins, mode, operand, crossed)
        } else if matches!(ins, Instruction::BCC | Instruction::BCS | Instruction::BEQ | Instruction::BMI
            | Instruction::BNE | Instruction::BPL | Instruction::BVC | Instruction::BVS) {
            Ok(self.run_branch(ins, mode, operand))
        } else {
            self.run_control(memory, ins, mode, operand, crossed)
        }
    }

    /// Fetches, decodes and executes the instruction at the program counter.
    pub fn run_instruction(&mut self, memory: &mut CpuMemory) -> (r: Result<usize, StepError>)
        requires
            old(memory).wf(),
        ensures
            final(memory).wf(),
            produces(
                match bus_read(old(memory)@, old(self).program_counter) {
                    Err(e) => Err(StepError::Bus(e)),
                    Ok(opcode) => if instruction_of(opcode) == Instruction::ILL {
                        Err(StepError::IllegalOpcode(opcode))
                    } else {
                        match resolve(*old(self), old(memory)@, addressing_mode_of(opcode)) {
                            Err(e) => Err(StepError::Bus(e)),
                            Ok(resolved) => lift(execute(*old(self), old(memory)@, instruction_of(opcode),
                                addressing_mode_of(opcode), resolved.0, resolved.1)),
                        }
                    },
                },
                r, *old(self), *final(self), old(memory)@, final(memory)@),
    {
        let opcode = match memory.read(self.program_counter) {
            Ok(v) => v,
            Err(e) => return Err(StepError::Bus(e)),
        };
        let mode = addressing_mode(opcode);
        let ins = instruction(opcode);
        if ins == Instruction::ILL {
            return Err(StepError::IllegalOpcode(opcode));
        }
        let (operand, crossed) = match self.get_operand(memory, mode) {
            Ok(resolved) => resolved,
            Err(e) => return Err(StepError::Bus(e)),
        };
        proof {
            crate::laws::lemma_decoded_modes_fit(opcode);
        }
        match self.run(memory, ins, mode, operand, crossed) {
            Ok(cycles) => Ok(cycles),
            Err(e) => Err(StepError::Bus(e)),
        }
    }

    /// Executes one instruction, or enters a pending interrupt, and returns
    /// the cycles it took. On an error neither the registers nor the bus change.
    pub fn step(&mut self, memory: &mut CpuMemory) -> (r: Result<usize, StepError>)
        requires
            old(memory).wf(),
        ensures
            final(memory).wf(),
            produces(step_result(*old(self), old(memory)@), r, *old(self), *final(self), old(memory)@, final(memory)@),
    {
        if self.nmi_pending {
            let before = *self;
            self.nmi_pending = false;
            match self.enter_handler(memory, NMI_VECTOR, false) {
                Ok(()) => Ok(7),
                Err(e) => {
                    *self = before;
                    Err(StepError::Bus(e))
                },
            }
        } else if self.irq_pending && !self.interrupt_disable {
            let before = *self;
            self.irq_pending = false;
            match self.enter_handler(memory, IRQ_VECTOR, false) {
                Ok(()) => Ok(7),
                Err(e) => {
                    *self = before;
                    Err(StepError::Bus(e))
                },
            }
        } else {
            self.run_instruction(memory)
        }
    }
}

} // verus!
