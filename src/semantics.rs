//! What each instruction does to the registers, the flags and the bus.
use vstd::prelude::*;
use crate::cpu::{add8, Mos6502};
use crate::instructions::Instruction;

verus! {

pub open spec fn bit(b: bool) -> int {
    if b {
        1
    } else {
        0
    }
}

/// Two operands of one sign giving a result of the other sign.
pub open spec fn signed_overflow(a: u8, b: u8, r: u8) -> bool {
    (a >= 128) == (b >= 128) && (r >= 128) != (a >= 128)
}

/// Where a stack pointer value points: page one.
pub open spec fn stack_address(sp: u8) -> u16 {
    (0x100 + sp as int) as u16
}

/// Instructions that read one value and update registers from it.
pub open spec fn is_value_op(ins: Instruction) -> bool {
    matches!(ins, Instruction::ADC | Instruction::AND | Instruction::BIT | Instruction::CMP
        | Instruction::CPX | Instruction::CPY | Instruction::EOR | Instruction::LDA
        | Instruction::LDX | Instruction::LDY | Instruction::ORA | Instruction::SBC)
}

/// Instructions that only touch registers and flags.
pub open spec fn is_register_op(ins: Instruction) -> bool {
    matches!(ins, Instruction::CLC | Instruction::CLD | Instruction::CLI | Instruction::CLV
        | Instruction::SEC | Instruction::SED | Instruction::SEI | Instruction::DEX
        | Instruction::DEY | Instruction::INX | Instruction::INY | Instruction::TAX
        | Instruction::TAY | Instruction::TSX | Instruction::TXA | Instruction::TXS
        | Instruction::TYA | Instruction::NOP)
}

pub open spec fn is_store(ins: Instruction) -> bool {
    matches!(ins, Instruction::STA | Instruction::STX | Instruction::STY)
}

pub open spec fn is_branch(ins: Instruction) -> bool {
    matches!(ins, Instruction::BCC | Instruction::BCS | Instruction::BEQ | Instruction::BMI
        | Instruction::BNE | Instruction::BPL | Instruction::BVC | Instruction::BVS)
}

/// Jumps, calls, returns, the software interrupt and the stack operations.
pub open spec fn is_control(ins: Instruction) -> bool {
    matches!(ins, Instruction::JMP | Instruction::JSR | Instruction::RTS | Instruction::RTI
        | Instruction::BRK | Instruction::PHA | Instruction::PHP | Instruction::PLA
        | Instruction::PLP)
}

/// The result and carry-out of a shift, rotate, increment or decrement of `v`.
pub open spec fn rmw_result(ins: Instruction, carry: bool, v: u8) -> (u8, bool) {
    match ins {
        Instruction::ASL => (((v as int * 2) % 256) as u8, v >= 128),
        Instruction::LSR => ((v / 2) as u8, v % 2 == 1),
        Instruction::ROL => (((v as int * 2 + bit(carry)) % 256) as u8, v >= 128),
        Instruction::ROR => ((v / 2 + 128 * bit(carry)) as u8, v % 2 == 1),
        Instruction::INC => (add8(v, 1), carry),
        Instruction::DEC => (add8(v, 255), carry),
        _ => (v, carry),
    }
}

impl Mos6502 {
    /// Sets zero and sign from `v`.
    pub open spec fn with_nz(self, v: u8) -> Mos6502 {
        Mos6502 { zero: v == 0, sign: v >= 128, ..self }
    }

    /// The status register as pushed; `brk` sets the break bit. Bit 5 is always set.
    pub open spec fn status_byte(self, brk: bool) -> u8 {
        (bit(self.sign) * 128 + bit(self.overflow) * 64 + 32 + bit(brk) * 16 + bit(self.decimal_mode)
            * 8 + bit(self.interrupt_disable) * 4 + bit(self.zero) * 2 + bit(self.carry)) as u8
    }

    /// The flags loaded from a status byte; the break bit and bit 5 are ignored.
    pub open spec fn with_status(self, b: u8) -> Mos6502 {
        Mos6502 {
            carry: b % 2 == 1,
            zero: (b / 2) % 2 == 1,
            interrupt_disable: (b / 4) % 2 == 1,
            decimal_mode: (b / 8) % 2 == 1,
            overflow: (b / 64) % 2 == 1,
            sign: b >= 128,
            ..self
        }
    }

    /// Add with carry, binary or decimal by the decimal flag.
    pub open spec fn add_spec(self, v: u8) -> Mos6502 {
        if !self.decimal_mode {
            let sum = self.accumulator as int + v as int + bit(self.carry);
            let r = (sum % 256) as u8;
            Mos6502 {
                accumulator: r,
                carry: sum > 255,
                overflow: signed_overflow(self.accumulator, v, r),
                ..self
            }.with_nz(r)
        } else {
            let lo = self.accumulator as int % 16 + v as int % 16 + bit(self.carry);
            let hi = self.accumulator as int / 16 + v as int / 16 + bit(lo > 9);
            let r = ((hi % 10) * 16 + lo % 10) as u8;
            Mos6502 { accumulator: r, carry: hi > 9, ..self }.with_nz(r)
        }
    }

    /// Subtract with borrow (the carry clear), binary or decimal by the decimal flag.
    pub open spec fn subtract_spec(self, v: u8) -> Mos6502 {
        if !self.decimal_mode {
            let sum = self.accumulator as int + (255 - v) + bit(self.carry);
            let r = (sum % 256) as u8;
            Mos6502 {
                accumulator: r,
                carry: sum > 255,
                overflow: signed_overflow(self.accumulator, (255 - v) as u8, r),
                ..self
            }.with_nz(r)
        } else {
            let lo = self.accumulator as int % 16 - v as int % 16 - (1 - bit(self.carry));
            let lo_digit = if lo < 0 { lo + 10 } else { lo };
            let hi = self.accumulator as int / 16 - v as int / 16 - bit(lo < 0);
            let hi_digit = if hi < 0 { hi + 10 } else { hi };
            let r = (((hi_digit + 16) % 16) * 16 + (lo_digit + 16) % 16) as u8;
            Mos6502 { accumulator: r, carry: hi >= 0, ..self }.with_nz(r)
        }
    }

    /// Compares `reg` with `v` as `reg - v` does.
    pub open spec fn compare_spec(self, reg: u8, v: u8) -> Mos6502 {
        Mos6502 { carry: reg >= v, ..self }.with_nz(add8(reg, 256 - v))
    }

    /// The effect of an instruction that reads the value `v`.
    pub open spec fn value_op(self, ins: Instruction, v: u8) -> Mos6502 {
        match ins {
            Instruction::ADC => self.add_spec(v),
            Instruction::SBC => self.subtract_spec(v),
            Instruction::AND => Mos6502 { accumulator: self.accumulator & v, ..self }.with_nz(
                self.accumulator & v,
            ),
            Instruction::ORA => Mos6502 { accumulator: self.accumulator | v, ..self }.with_nz(
                self.accumulator | v,
            ),
            Instruction::EOR => Mos6502 { accumulator: self.accumulator ^ v, ..self }.with_nz(
                self.accumulator ^ v,
            ),
            Instruction::CMP => self.compare_spec(self.accumulator, v),
            Instruction::CPX => self.compare_spec(self.index_x, v),
            Instruction::CPY => self.compare_spec(self.index_y, v),
            Instruction::BIT => Mos6502 {
                zero: self.accumulator & v == 0,
                sign: v >= 128,
                overflow: v & 0x40 != 0,
                ..self
            },
            Instruction::LDA => Mos6502 { accumulator: v, ..self }.with_nz(v),
            Instruction::LDX => Mos6502 { index_x: v, ..self }.with_nz(v),
            Instruction::LDY => Mos6502 { index_y: v, ..self }.with_nz(v),
            _ => self,
        }
    }

    /// The effect of an instruction on registers and flags alone.
    pub open spec fn register_op(self, ins: Instruction) -> Mos6502 {
        match ins {
            Instruction::CLC => Mos6502 { carry: false, ..self },
            Instruction::CLD => Mos6502 { decimal_mode: false, ..self },
            Instruction::CLI => Mos6502 { interrupt_disable: false, ..self },
            Instruction::CLV => Mos6502 { overflow: false, ..self },
            Instruction::SEC => Mos6502 { carry: true, ..self },
            Instruction::SED => Mos6502 { decimal_mode: true, ..self },
            Instruction::SEI => Mos6502 { interrupt_disable: true, ..self },
            Instruction::DEX => Mos6502 { index_x: add8(self.index_x, 255), ..self }.with_nz(
                add8(self.index_x, 255),
            ),
            Instruction::DEY => Mos6502 { index_y: add8(self.index_y, 255), ..self }.with_nz(
                add8(self.index_y, 255),
            ),
            Instruction::INX => Mos6502 { index_x: add8(self.index_x, 1), ..self }.with_nz(
                add8(self.index_x, 1),
            ),
            Instruction::INY => Mos6502 { index_y: add8(self.index_y, 1), ..self }.with_nz(
                add8(self.index_y, 1),
            ),
            Instruction::TAX => Mos6502 { index_x: self.accumulator, ..self }.with_nz(
                self.accumulator,
            ),
            Instruction::TAY => Mos6502 { index_y: self.accumulator, ..self }.with_nz(
                self.accumulator,
            ),
            Instruction::TSX => Mos6502 { index_x: self.stack_pointer, ..self }.with_nz(
                self.stack_pointer,
            ),
            Instruction::TXA => Mos6502 { accumulator: self.index_x, ..self }.with_nz(
                self.index_x,
            ),
            Instruction::TYA => Mos6502 { accumulator: self.index_y, ..self }.with_nz(
                self.index_y,
            ),
            Instruction::TXS => Mos6502 { stack_pointer: self.index_x, ..self },
            _ => self,
        }
    }

    /// The flags after a read-modify-write of `v`, with `carry_in` the carry before it.
    pub open spec fn rmw_flags(self, ins: Instruction, carry_in: bool, v: u8) -> Mos6502 {
        Mos6502 { carry: rmw_result(ins, carry_in, v).1, ..self }.with_nz(rmw_result(ins, carry_in, v).0)
    }

    /// The register that a store instruction writes out.
    pub open spec fn store_value(self, ins: Instruction) -> u8 {
        match ins {
            Instruction::STX => self.index_x,
            Instruction::STY => self.index_y,
            _ => self.accumulator,
        }
    }

    /// Whether a branch instruction's condition holds.
    pub open spec fn branch_taken(self, ins: Instruction) -> bool {
        match ins {
            Instruction::BCC => !self.carry,
            Instruction::BCS => self.carry,
            Instruction::BEQ => self.zero,
            Instruction::BNE => !self.zero,
            Instruction::BMI => self.sign,
            Instruction::BPL => !self.sign,
            Instruction::BVC => !self.overflow,
            Instruction::BVS => self.overflow,
            _ => false,
        }
    }
}

fn flag(b: bool) -> (r: u8)
    ensures
        r as int == bit(b),
{
    if b {
        1
    } else {
        0
    }
}

impl Mos6502 {
    fn set_nz(&mut self, v: u8)
        ensures
            *final(self) == old(self).with_nz(v),
    {
        self.zero = v == 0;
        self.sign = v >= 128;
    }

    /// Encodes the flags as a status byte.
    pub fn status(&self, brk: bool) -> (r: u8)
        ensures
            r == self.status_byte(brk),
    {
        flag(self.sign) * 128 + flag(self.overflow) * 64 + 32 + flag(brk) * 16 + flag(self.decimal_mode)
            * 8 + flag(self.interrupt_disable) * 4 + flag(self.zero) * 2 + flag(self.carry)
    }

    /// Loads the flags from a status byte.
    pub fn set_status(&mut self, b: u8)
        ensures
            *final(self) == old(self).with_status(b),
    {
        self.carry = b % 2 == 1;
        self.zero = (b / 2) % 2 == 1;
        self.interrupt_disable = (b / 4) % 2 == 1;
        self.decimal_mode = (b / 8) % 2 == 1;
        self.overflow = (b / 64) % 2 == 1;
        self.sign = b >= 128;
    }

    /// Adds `v` and the carry to the accumulator.
    pub fn add_with_carry(&mut self, v: u8)
        ensures
            *final(self) == old(self).add_spec(v),
    {
        let c = flag(self.carry);
        let a = self.accumulator;
        if !self.decimal_mode {
            let sum: u16 = a as u16 + v as u16 + c as u16;
            let r = (sum % 256) as u8;
            self.accumulator = r;
            self.carry = sum > 255;
            self.overflow = (a >= 128) == (v >= 128) && (r >= 128) != (a >= 128);
            self.set_nz(r);
        } else {
            let lo: u8 = a % 16 + v % 16 + c;
            let hi: u8 = a / 16 + v / 16 + flag(lo > 9);
            let r: u8 = (hi % 10) * 16 + lo % 10;
            self.accumulator = r;
            self.carry = hi > 9;
            self.set_nz(r);
        }
    }

    /// Subtracts `v` and the borrow from the accumulator.
    pub fn subtract_with_carry(&mut self, v: u8)
        ensures
            *final(self) == old(self).subtract_spec(v),
    {
        let c = flag(self.carry);
        let a = self.accumulator;
        if !self.decimal_mode {
            let inverted: u8 = 255 - v;
            let sum: u16 = a as u16 + inverted as u16 + c as u16;
            let r = (sum % 256) as u8;
            self.accumulator = r;
            self.carry = sum > 255;
            self.overflow = (a >= 128) == (inverted >= 128) && (r >= 128) != (a >= 128);
            self.set_nz(r);
        } else {
            let lo: i16 = (a % 16) as i16 - (v % 16) as i16 - (1 - c as i16);
            let lo_digit: i16 = if lo < 0 { lo + 10 } else { lo };
            let hi: i16 = (a / 16) as i16 - (v / 16) as i16 - (if lo < 0 { 1 } else { 0 });
            let hi_digit: i16 = if hi < 0 { hi + 10 } else { hi };
            let r: u8 = (((hi_digit + 16) % 16) * 16 + (lo_digit + 16) % 16) as u8;
            self.accumulator = r;
            self.carry = hi >= 0;
            self.set_nz(r);
        }
    }

    fn compare(&mut self, reg: u8, v: u8)
        ensures
            *final(self) == old(self).compare_spec(reg, v),
    {
        self.carry = reg >= v;
        let diff = ((reg as u16 + 256 - v as u16) % 256) as u8;
        self.set_nz(diff);
    }

    /// Applies an instruction that reads the value `v`.
    pub fn apply_value(&mut self, ins: Instruction, v: u8)
        ensures
            *final(self) == old(self).value_op(ins, v),
    {
        match ins {
            Instruction::ADC => self.add_with_carry(v),
            Instruction::SBC => self.subtract_with_carry(v),
            Instruction::AND => {
                self.accumulator = self.accumulator & v;
                self.set_nz(self.accumulator);
            },
            Instruction::ORA => {
                self.accumulator = self.accumulator | v;
                self.set_nz(self.accumulator);
            },
            Instruction::EOR => {
                self.accumulator = self.accumulator ^ v;
                self.set_nz(self.accumulator);
            },
            Instruction::CMP => {
                let a = self.accumulator;
                self.compare(a, v);
            },
            Instruction::CPX => {
                let x = self.index_x;
                self.compare(x, v);
            },
            Instruction::CPY => {
                let y = self.index_y;
                self.compare(y, v);
            },
            Instruction::BIT => {
                self.zero = self.accumulator & v == 0;
                self.sign = v >= 128;
                self.overflow = v & 0x40 != 0;
            },
            Instruction::LDA => {
                self.accumulator = v;
                self.set_nz(v);
            },
            Instruction::LDX => {
                self.index_x = v;
                self.set_nz(v);
            },
            Instruction::LDY => {
                self.index_y = v;
                self.set_nz(v);
            },
            _ => {},
        }
    }

    /// Applies an instruction that touches registers and flags alone.
    pub fn apply_register_op(&mut self, ins: Instruction)
        ensures
            *final(self) == old(self).register_op(ins),
    {
        match ins {
            Instruction::CLC => self.carry = false,
            Instruction::CLD => self.decimal_mode = false,
            Instruction::CLI => self.interrupt_disable = false,
            Instruction::CLV => self.overflow = false,
            Instruction::SEC => self.carry = true,
            Instruction::SED => self.decimal_mode = true,
            Instruction::SEI => self.interrupt_disable = true,
            Instruction::DEX => {
                self.index_x = ((self.index_x as u16 + 255) % 256) as u8;
                self.set_nz(self.index_x);
            },
            Instruction::DEY => {
                self.index_y = ((self.index_y as u16 + 255) % 256) as u8;
                self.set_nz(self.index_y);
            },
            Instruction::INX => {
                self.index_x = ((self.index_x as u16 + 1) % 256) as u8;
                self.set_nz(self.index_x);
            },
            Instruction::INY => {
                self.index_y = ((self.index_y as u16 + 1) % 256) as u8;
                self.set_nz(self.index_y);
            },
            Instruction::TAX => {
                self.index_x = self.accumulator;
                self.set_nz(self.index_x);
            },
            Instruction::TAY => {
                self.index_y = self.accumulator;
                self.set_nz(self.index_y);
            },
            Instruction::TSX => {
                self.index_x = self.stack_pointer;
                self.set_nz(self.index_x);
            },
            Instruction::TXA => {
                self.accumulator = self.index_x;
                self.set_nz(self.accumulator);
            },
            Instruction::TYA => {
                self.accumulator = self.index_y;
                self.set_nz(self.accumulator);
            },
            Instruction::TXS => self.stack_pointer = self.index_x,
            _ => {},
        }
    }

    /// Tells whether the condition of a branch instruction holds.
    pub fn branch_condition(&self, ins: Instruction) -> (r: bool)
        ensures
            r == self.branch_taken(ins),
    {
        match ins {
            Instruction::BCC => !self.carry,
            Instruction::BCS => self.carry,
            Instruction::BEQ => self.zero,
            Instruction::BNE => !self.zero,
            Instruction::BMI => self.sign,
            Instruction::BPL => !self.sign,
            Instruction::BVC => !self.overflow,
            Instruction::BVS => self.overflow,
            _ => false,
        }
    }

    /// The register a store instruction writes out.
    pub fn stored(&self, ins: Instruction) -> (r: u8)
        ensures
            r == self.store_value(ins),
    {
        match ins {
            Instruction::STX => self.index_x,
            Instruction::STY => self.index_y,
            _ => self.accumulator,
        }
    }
}

/// Computes a shift, rotate, increment or decrement of `v`, with its carry-out.
pub fn modify(ins: Instruction, carry: bool, v: u8) -> (r: (u8, bool))
    ensures
        r == rmw_result(ins, carry, v),
{
    match ins {
        Instruction::ASL => (((v as u16 * 2) % 256) as u8, v >= 128),
        Instruction::LSR => (v / 2, v % 2 == 1),
        Instruction::ROL => (((v as u16 * 2 + flag(carry) as u16) % 256) as u8, v >= 128),
        Instruction::ROR => (v / 2 + 128 * flag(carry), v % 2 == 1),
        Instruction::INC => (((v as u16 + 1) % 256) as u8, carry),
        Instruction::DEC => (((v as u16 + 255) % 256) as u8, carry),
        _ => (v, carry),
    }
}

} // verus!
