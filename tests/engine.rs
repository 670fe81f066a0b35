use mos6502::addressing_modes::AddressingMode;
use mos6502::cpu::{Interrupt, Mos6502, Operand, StepError};
use mos6502::cpu_memory::{BusError, CpuMemory};
use mos6502::instructions::{instruction, Instruction};

fn load(memory: &mut CpuMemory, at: u16, bytes: &[u8]) {
    for (i, b) in bytes.iter().enumerate() {
        memory.write(at + i as u16, *b).unwrap();
    }
}

fn machine(program: &[u8]) -> (Mos6502, CpuMemory) {
    let mut memory = CpuMemory::new();
    load(&mut memory, 0x0200, program);
    (Mos6502::power_on(0x0200), memory)
}

#[test]
fn bus_mirrors_work_ram() {
    let mut memory = CpuMemory::new();
    memory.write(0x0001, 0x42).unwrap();
    assert_eq!(memory.read(0x0801), Ok(0x42));
    assert_eq!(memory.read(0x1801), Ok(0x42));
    memory.write(0x2000, 7).unwrap();
    assert_eq!(memory.read(0x2008), Ok(7));
    assert_eq!(memory.read(0x3FF8), Ok(7));
}

#[test]
fn bus_reports_unbacked_regions() {
    let mut memory = CpuMemory::new();
    assert_eq!(memory.read(0x4000), Err(BusError::ApuIo));
    assert_eq!(memory.read(0x4017), Err(BusError::ApuIo));
    assert_eq!(memory.read(0x4018), Err(BusError::TestMode));
    assert_eq!(memory.read(0x401F), Err(BusError::TestMode));
    assert_eq!(memory.write(0x4000, 1), Err(BusError::ApuIo));
    assert_eq!(memory.write(0x401F, 1), Err(BusError::TestMode));
}

#[test]
fn bus_backs_cartridge_space() {
    let mut memory = CpuMemory::new();
    assert_eq!(memory.read(0x4020), Ok(0));
    assert_eq!(memory.read(0xFFFF), Ok(0));
    memory.write(0x8000, 0xEA).unwrap();
    memory.write(0xFFFC, 0x34).unwrap();
    assert_eq!(memory.read(0x8000), Ok(0xEA));
    assert_eq!(memory.read(0xFFFC), Ok(0x34));
    assert_eq!(memory.read(0x8001), Ok(0));
    assert_eq!(memory.read(0x0000), Ok(0));
}

#[test]
fn add_with_carry_sets_overflow() {
    let memory = CpuMemory::new();
    let mut cpu = Mos6502::power_on(0);
    cpu.accumulator = 0x50;
    cpu.carry = false;
    cpu.adc(&memory, Operand::Immediate(0x50)).unwrap();
    assert_eq!(cpu.accumulator, 0xA0);
    assert!(cpu.overflow);
    assert!(!cpu.carry);
    assert!(cpu.sign);
}

#[test]
fn add_with_carry_wraps_to_zero() {
    let memory = CpuMemory::new();
    let mut cpu = Mos6502::power_on(0);
    cpu.accumulator = 0x01;
    cpu.carry = false;
    cpu.adc(&memory, Operand::Immediate(0xFF)).unwrap();
    assert_eq!(cpu.accumulator, 0x00);
    assert!(cpu.carry);
    assert!(cpu.zero);
    assert!(!cpu.overflow);
}

#[test]
fn decimal_add_carries_between_nibbles() {
    let memory = CpuMemory::new();
    let mut cpu = Mos6502::power_on(0);
    cpu.decimal_mode = true;
    cpu.accumulator = 0x09;
    cpu.carry = false;
    cpu.adc(&memory, Operand::Immediate(0x01)).unwrap();
    assert_eq!(cpu.accumulator, 0x10);
    assert!(!cpu.carry);
}

#[test]
fn decimal_add_carries_out() {
    let memory = CpuMemory::new();
    let mut cpu = Mos6502::power_on(0);
    cpu.decimal_mode = true;
    cpu.accumulator = 0x58;
    cpu.carry = true;
    cpu.adc(&memory, Operand::Immediate(0x46)).unwrap();
    assert_eq!(cpu.accumulator, 0x05);
    assert!(cpu.carry);
}

#[test]
fn adc_reads_through_an_address() {
    let mut memory = CpuMemory::new();
    memory.write(0x0010, 0x22).unwrap();
    let mut cpu = Mos6502::power_on(0);
    cpu.accumulator = 0x11;
    cpu.adc(&memory, Operand::Address(0x0010)).unwrap();
    assert_eq!(cpu.accumulator, 0x33);
    let before = cpu;
    assert_eq!(cpu.adc(&memory, Operand::Address(0x4000)), Err(BusError::ApuIo));
    assert_eq!(cpu, before);
}

#[test]
fn and_masks_accumulator() {
    let memory = CpuMemory::new();
    let mut cpu = Mos6502::power_on(0);
    cpu.accumulator = 0b1100_1100;
    cpu.and(&memory, Operand::Immediate(0b1010_1010)).unwrap();
    assert_eq!(cpu.accumulator, 0b1000_1000);
    assert!(cpu.sign);
    cpu.and(&memory, Operand::Immediate(0)).unwrap();
    assert!(cpu.zero);
}

#[test]
fn asl_on_accumulator_and_memory() {
    let mut memory = CpuMemory::new();
    let mut cpu = Mos6502::power_on(0);
    cpu.accumulator = 0x81;
    cpu.asl(&mut memory, Operand::Implied).unwrap();
    assert_eq!(cpu.accumulator, 0x02);
    assert!(cpu.carry);
    memory.write(0x0020, 0x40).unwrap();
    cpu.asl(&mut memory, Operand::Address(0x0020)).unwrap();
    assert_eq!(memory.read(0x0020), Ok(0x80));
    assert!(!cpu.carry);
    assert!(cpu.sign);
    assert_eq!(cpu.accumulator, 0x02);
}

#[test]
fn absolute_x_page_cross_uses_base_address() {
    // LDA $01F0,X with X = 0x20 reaches 0x0210: another page than the base.
    let (mut cpu, memory) = machine(&[0xBD, 0xF0, 0x01]);
    cpu.index_x = 0x20;
    assert_eq!(
        cpu.get_operand(&memory, AddressingMode::AbsoluteX),
        Ok((Operand::Address(0x0210), true))
    );
    // LDA $0100,X with X = 0x10 stays on page one although the program counter is on page two.
    let (mut cpu, memory) = machine(&[0xBD, 0x00, 0x01]);
    cpu.index_x = 0x10;
    assert_eq!(
        cpu.get_operand(&memory, AddressingMode::AbsoluteX),
        Ok((Operand::Address(0x0110), false))
    );
}

#[test]
fn absolute_y_wraps_at_top_of_memory() {
    let (mut cpu, memory) = machine(&[0xB9, 0xFF, 0xFF]);
    cpu.index_y = 0x02;
    assert_eq!(
        cpu.get_operand(&memory, AddressingMode::AbsoluteY),
        Ok((Operand::Address(0x0001), true))
    );
}

#[test]
fn zero_page_x_wraps_within_zero_page() {
    let (mut cpu, memory) = machine(&[0xB5, 0xF0]);
    cpu.index_x = 0x20;
    assert_eq!(
        cpu.get_operand(&memory, AddressingMode::ZeroPageX),
        Ok((Operand::Address(0x0010), false))
    );
    let (mut cpu, memory) = machine(&[0xB6, 0xFF]);
    cpu.index_y = 0x01;
    assert_eq!(
        cpu.get_operand(&memory, AddressingMode::ZeroPageY),
        Ok((Operand::Address(0x0000), false))
    );
}

#[test]
fn indirect_modes_read_pointers() {
    let (mut cpu, mut memory) = machine(&[0xA1, 0x10]);
    load(&mut memory, 0x0014, &[0x34, 0x12]);
    cpu.index_x = 4;
    assert_eq!(
        cpu.get_operand(&memory, AddressingMode::ZeroPageIndexedIndirectX),
        Ok((Operand::Address(0x1234), false))
    );
    let (mut cpu, mut memory) = machine(&[0xB1, 0x10]);
    load(&mut memory, 0x0010, &[0xF0, 0x02]);
    cpu.index_y = 0x20;
    assert_eq!(
        cpu.get_operand(&memory, AddressingMode::ZeroPageIndirectIndexedY),
        Ok((Operand::Address(0x0310), true))
    );
    let (cpu, mut memory) = machine(&[0x6C, 0x00, 0x03]);
    load(&mut memory, 0x0300, &[0x00, 0x04]);
    assert_eq!(
        cpu.get_operand(&memory, AddressingMode::AbsoluteIndirect),
        Ok((Operand::Address(0x0400), false))
    );
}

#[test]
fn relative_offset_is_sign_extended() {
    let (cpu, memory) = machine(&[0xD0, 0xFE]);
    assert_eq!(cpu.get_operand(&memory, AddressingMode::Relative), Ok((Operand::Offset(0xFFFE), false)));
    let (cpu, memory) = machine(&[0xD0, 0x05]);
    assert_eq!(cpu.get_operand(&memory, AddressingMode::Relative), Ok((Operand::Offset(0x0005), false)));
}

#[test]
fn move_program_counter_reports_page_change() {
    let mut cpu = Mos6502::power_on(0x02FE);
    assert_eq!(cpu.move_program_counter(AddressingMode::Implied), 0);
    assert_eq!(cpu.program_counter, 0x02FF);
    assert_eq!(cpu.move_program_counter(AddressingMode::Absolute), 1);
    assert_eq!(cpu.program_counter, 0x0302);
}

#[test]
fn step_load_and_store() {
    // LDA #$00; LDX #$80; STX $10; STA $0300
    let (mut cpu, mut memory) = machine(&[0xA9, 0x00, 0xA2, 0x80, 0x86, 0x10, 0x8D, 0x00, 0x03]);
    cpu.accumulator = 5;
    assert_eq!(cpu.step(&mut memory), Ok(2));
    assert_eq!(cpu.accumulator, 0);
    assert!(cpu.zero);
    assert_eq!(cpu.step(&mut memory), Ok(2));
    assert_eq!(cpu.index_x, 0x80);
    assert!(cpu.sign && !cpu.zero);
    assert_eq!(cpu.step(&mut memory), Ok(3));
    assert_eq!(memory.read(0x0010), Ok(0x80));
    assert_eq!(cpu.step(&mut memory), Ok(4));
    assert_eq!(memory.read(0x0300), Ok(0));
    assert_eq!(cpu.program_counter, 0x0209);
}

#[test]
fn step_branch_timing() {
    // BNE +2 not taken (zero set): 2 cycles.
    let (mut cpu, mut memory) = machine(&[0xD0, 0x02]);
    cpu.zero = true;
    assert_eq!(cpu.step(&mut memory), Ok(2));
    assert_eq!(cpu.program_counter, 0x0202);
    // Taken within the page: 3 cycles.
    let (mut cpu, mut memory) = machine(&[0xD0, 0x02]);
    cpu.zero = false;
    assert_eq!(cpu.step(&mut memory), Ok(3));
    assert_eq!(cpu.program_counter, 0x0204);
    // Taken backwards onto the previous page: 4 cycles.
    let (mut cpu, mut memory) = machine(&[0xD0, 0xF0]);
    cpu.zero = false;
    assert_eq!(cpu.step(&mut memory), Ok(4));
    assert_eq!(cpu.program_counter, 0x01F2);
}

#[test]
fn step_store_absolute_x_cost() {
    // STA $0300,X with X = 1: no page cross, still 5 cycles.
    let (mut cpu, mut memory) = machine(&[0x9D, 0x00, 0x03]);
    cpu.index_x = 1;
    cpu.accumulator = 9;
    assert_eq!(cpu.step(&mut memory), Ok(5));
    assert_eq!(memory.read(0x0301), Ok(9));
}

#[test]
fn step_load_absolute_x_page_cross_cost() {
    let (mut cpu, mut memory) = machine(&[0xBD, 0xFF, 0x02, 0xBD, 0x00, 0x03]);
    cpu.index_x = 1;
    assert_eq!(cpu.step(&mut memory), Ok(5));
    assert_eq!(cpu.step(&mut memory), Ok(4));
}

#[test]
fn subroutine_call_and_return() {
    // JSR $0300 ... at $0300: RTS
    let (mut cpu, mut memory) = machine(&[0x20, 0x00, 0x03]);
    load(&mut memory, 0x0300, &[0x60]);
    assert_eq!(cpu.step(&mut memory), Ok(6));
    assert_eq!(cpu.program_counter, 0x0300);
    assert_eq!(cpu.stack_pointer, 0xFB);
    assert_eq!(memory.read(0x01FD), Ok(0x02));
    assert_eq!(memory.read(0x01FC), Ok(0x02));
    assert_eq!(cpu.step(&mut memory), Ok(6));
    assert_eq!(cpu.program_counter, 0x0203);
    assert_eq!(cpu.stack_pointer, 0xFD);
}

#[test]
fn stack_push_and_pull() {
    // LDA #$7F; PHA; LDA #$00; PLA; PHP; PLP
    let (mut cpu, mut memory) = machine(&[0xA9, 0x7F, 0x48, 0xA9, 0x00, 0x68, 0x08, 0x28]);
    assert_eq!(cpu.step(&mut memory), Ok(2));
    assert_eq!(cpu.step(&mut memory), Ok(3));
    assert_eq!(memory.read(0x01FD), Ok(0x7F));
    assert_eq!(cpu.step(&mut memory), Ok(2));
    assert!(cpu.zero);
    assert_eq!(cpu.step(&mut memory), Ok(4));
    assert_eq!(cpu.accumulator, 0x7F);
    assert!(!cpu.zero);
    let flags = cpu;
    assert_eq!(cpu.step(&mut memory), Ok(3));
    // N V 1 B D I Z C with the interrupt-disable flag set after power-on.
    assert_eq!(memory.read(0x01FD), Ok(0b0011_0100));
    assert_eq!(cpu.step(&mut memory), Ok(4));
    assert_eq!(cpu.carry, flags.carry);
    assert_eq!(cpu.interrupt_disable, flags.interrupt_disable);
    assert_eq!(cpu.stack_pointer, 0xFD);
}

#[test]
fn subtract_and_compare() {
    // SEC; LDA #$10; SBC #$01; CMP #$0F; CPX #$01
    let (mut cpu, mut memory) = machine(&[0x38, 0xA9, 0x10, 0xE9, 0x01, 0xC9, 0x0F, 0xE0, 0x01]);
    for _ in 0..3 {
        cpu.step(&mut memory).unwrap();
    }
    assert_eq!(cpu.accumulator, 0x0F);
    assert!(cpu.carry);
    cpu.step(&mut memory).unwrap();
    assert!(cpu.zero && cpu.carry);
    cpu.step(&mut memory).unwrap();
    assert!(!cpu.carry && !cpu.zero && cpu.sign);
}

#[test]
fn decimal_subtract() {
    let mut cpu = Mos6502::power_on(0);
    cpu.decimal_mode = true;
    cpu.carry = true;
    cpu.accumulator = 0x10;
    cpu.subtract_with_carry(0x01);
    assert_eq!(cpu.accumulator, 0x09);
    assert!(cpu.carry);
    cpu.carry = true;
    cpu.accumulator = 0x00;
    cpu.subtract_with_carry(0x01);
    assert_eq!(cpu.accumulator, 0x99);
    assert!(!cpu.carry);
}

#[test]
fn increments_wrap() {
    // LDX #$FF; INX; DEY
    let (mut cpu, mut memory) = machine(&[0xA2, 0xFF, 0xE8, 0x88]);
    cpu.step(&mut memory).unwrap();
    cpu.step(&mut memory).unwrap();
    assert_eq!(cpu.index_x, 0);
    assert!(cpu.zero);
    cpu.step(&mut memory).unwrap();
    assert_eq!(cpu.index_y, 0xFF);
    assert!(cpu.sign);
}

#[test]
fn rotate_through_carry_in_memory() {
    // SEC; ROR $10 (0x02 -> 0x81, carry clear); INC $10 -> 0x82
    let (mut cpu, mut memory) = machine(&[0x38, 0x66, 0x10, 0xE6, 0x10]);
    memory.write(0x0010, 0x02).unwrap();
    cpu.step(&mut memory).unwrap();
    assert_eq!(cpu.step(&mut memory), Ok(5));
    assert_eq!(memory.read(0x0010), Ok(0x81));
    assert!(!cpu.carry);
    assert_eq!(cpu.step(&mut memory), Ok(5));
    assert_eq!(memory.read(0x0010), Ok(0x82));
}

#[test]
fn bit_test_flags() {
    // LDA #$01; BIT $10 with $10 = 0xC0
    let (mut cpu, mut memory) = machine(&[0xA9, 0x01, 0x24, 0x10]);
    memory.write(0x0010, 0xC0).unwrap();
    cpu.step(&mut memory).unwrap();
    assert_eq!(cpu.step(&mut memory), Ok(3));
    assert!(cpu.zero && cpu.sign && cpu.overflow);
    assert_eq!(cpu.accumulator, 1);
}

#[test]
fn illegal_opcode_is_reported() {
    let (mut cpu, mut memory) = machine(&[0x02]);
    let before = cpu;
    assert_eq!(cpu.step(&mut memory), Err(StepError::IllegalOpcode(0x02)));
    assert_eq!(cpu, before);
}

#[test]
fn store_to_unbacked_region_leaves_state() {
    // STA $4000
    let (mut cpu, mut memory) = machine(&[0x8D, 0x00, 0x40]);
    let before = cpu;
    assert_eq!(cpu.step(&mut memory), Err(StepError::Bus(BusError::ApuIo)));
    assert_eq!(cpu, before);
}

#[test]
fn every_opcode_has_a_handler() {
    for op in 0..=255u8 {
        let (mut cpu, mut memory) = machine(&[op, 0x00, 0x00]);
        let result = cpu.step(&mut memory);
        if instruction(op) == Instruction::ILL {
            assert_eq!(result, Err(StepError::IllegalOpcode(op)));
        } else {
            assert!(result.is_ok(), "opcode {:#04x} gave {:?}", op, result);
        }
    }
}

#[test]
fn reset_loads_vector() {
    let mut memory = CpuMemory::new();
    load(&mut memory, 0xFFFC, &[0x00, 0x80]);
    let mut cpu = Mos6502::power_on(0x1234);
    cpu.accumulator = 3;
    cpu.carry = true;
    cpu.stack_pointer = 0x10;
    assert_eq!(cpu.reset(&memory), Ok(()));
    let after_first = cpu;
    assert_eq!(cpu.program_counter, 0x8000);
    assert_eq!(cpu.stack_pointer, 0xFD);
    assert_eq!(cpu.accumulator, 0);
    assert!(cpu.interrupt_disable && !cpu.carry);
    cpu.index_x = 9;
    assert_eq!(cpu.reset(&memory), Ok(()));
    assert_eq!(cpu, after_first);
    assert_eq!(cpu, Mos6502::power_on(0x8000));
}

#[test]
fn nmi_enters_handler_and_rti_returns() {
    let (mut cpu, mut memory) = machine(&[0xEA]);
    load(&mut memory, 0xFFFA, &[0x00, 0x90]);
    load(&mut memory, 0x9000, &[0x40]);
    cpu.carry = true;
    cpu.interrupt_disable = false;
    cpu.request_interrupt(Interrupt::Nmi);
    assert!(cpu.nmi_pending);
    assert_eq!(cpu.step(&mut memory), Ok(7));
    assert!(!cpu.nmi_pending);
    assert_eq!(cpu.program_counter, 0x9000);
    assert!(cpu.interrupt_disable);
    assert_eq!(cpu.stack_pointer, 0xFA);
    assert_eq!(memory.read(0x01FD), Ok(0x02));
    assert_eq!(memory.read(0x01FC), Ok(0x00));
    // Break bit clear, bit 5 and carry set.
    assert_eq!(memory.read(0x01FB), Ok(0b0010_0001));
    assert_eq!(cpu.step(&mut memory), Ok(6));
    assert_eq!(cpu.program_counter, 0x0200);
    assert_eq!(cpu.stack_pointer, 0xFD);
    assert!(!cpu.interrupt_disable);
    assert!(cpu.carry);
}

#[test]
fn irq_waits_until_enabled() {
    // NOP; CLI; NOP
    let (mut cpu, mut memory) = machine(&[0xEA, 0x58, 0xEA]);
    load(&mut memory, 0xFFFE, &[0x00, 0xA0]);
    cpu.request_interrupt(Interrupt::Irq);
    assert_eq!(cpu.step(&mut memory), Ok(2));
    assert!(cpu.irq_pending);
    assert_eq!(cpu.program_counter, 0x0201);
    assert_eq!(cpu.step(&mut memory), Ok(2));
    assert!(!cpu.interrupt_disable);
    assert_eq!(cpu.step(&mut memory), Ok(7));
    assert!(!cpu.irq_pending);
    assert_eq!(cpu.program_counter, 0xA000);
    assert_eq!(memory.read(0x01FD), Ok(0x02));
    assert_eq!(memory.read(0x01FC), Ok(0x02));
}

#[test]
fn break_enters_handler_and_rti_returns() {
    let (mut cpu, mut memory) = machine(&[0x00, 0xFF, 0xEA]);
    load(&mut memory, 0xFFFE, &[0x00, 0xA0]);
    load(&mut memory, 0xA000, &[0x40]);
    cpu.interrupt_disable = false;
    assert_eq!(cpu.step(&mut memory), Ok(7));
    assert_eq!(cpu.program_counter, 0xA000);
    assert!(cpu.interrupt_disable);
    assert_eq!(memory.read(0x01FD), Ok(0x02));
    assert_eq!(memory.read(0x01FC), Ok(0x02));
    // Break bit and bit 5 set.
    assert_eq!(memory.read(0x01FB), Ok(0b0011_0000));
    assert_eq!(cpu.step(&mut memory), Ok(6));
    assert_eq!(cpu.program_counter, 0x0202);
    assert!(!cpu.interrupt_disable);
}

#[test]
fn program_runs_from_cartridge_space() {
    let mut memory = CpuMemory::new();
    // LDA #$2A; STA $0010 at 0x8000, reached through the reset vector.
    load(&mut memory, 0x8000, &[0xA9, 0x2A, 0x8D, 0x10, 0x00]);
    load(&mut memory, 0xFFFC, &[0x00, 0x80]);
    let mut cpu = Mos6502::power_on(0);
    cpu.reset(&memory).unwrap();
    assert_eq!(cpu.step(&mut memory), Ok(2));
    assert_eq!(cpu.step(&mut memory), Ok(4));
    assert_eq!(memory.read(0x0010), Ok(0x2A));
    assert_eq!(cpu.program_counter, 0x8005);
}

#[test]
fn status_byte_round_trip() {
    let mut cpu = Mos6502::power_on(0);
    cpu.carry = true;
    cpu.sign = true;
    let b = cpu.status(false);
    assert_eq!(b, 0b1010_0101);
    let mut other = Mos6502::power_on(0);
    other.interrupt_disable = false;
    other.set_status(b);
    assert!(other.carry && other.sign && other.interrupt_disable && !other.zero);
}

#[test]
fn jump_indirect() {
    let (mut cpu, mut memory) = machine(&[0x6C, 0x00, 0x03]);
    load(&mut memory, 0x0300, &[0x34, 0x12]);
    assert_eq!(cpu.step(&mut memory), Ok(5));
    assert_eq!(cpu.program_counter, 0x1234);
}
