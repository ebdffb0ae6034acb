//! The fetch-decode-execute loop: instruction semantics, flags and errors.

use nes_cpu::cpu::CPU;
use nes_cpu::error::CpuError;

const CARRY: u8 = 0x01;
const ZERO: u8 = 0x02;
const OVERFLOW: u8 = 0x40;
const NEGATIVE: u8 = 0x80;

#[test]
fn lda_store_round_trip() {
    let mut cpu = CPU::new();
    cpu.load_and_run(vec![0xA9, 0x05, 0x85, 0x10, 0x00]).unwrap();
    assert_eq!(cpu.register_a, 0x05);
    assert_eq!(cpu.mem_read(0x0010), 0x05);
}

#[test]
fn lda_zero_sets_zero_flag() {
    let mut cpu = CPU::new();
    cpu.load_and_run(vec![0xA9, 0x00, 0x00]).unwrap();
    assert_eq!(cpu.register_a, 0x00);
    assert!(cpu.status & ZERO != 0);
    assert!(cpu.status & NEGATIVE == 0);
}

#[test]
fn lda_high_bit_sets_negative_flag() {
    let mut cpu = CPU::new();
    cpu.load_and_run(vec![0xA9, 0x80, 0x00]).unwrap();
    assert_eq!(cpu.register_a, 0x80);
    assert!(cpu.status & ZERO == 0);
    assert!(cpu.status & NEGATIVE != 0);
}

#[test]
fn lda_small_value_clears_both_flags() {
    let mut cpu = CPU::new();
    cpu.load_and_run(vec![0xA9, 0x05, 0x00]).unwrap();
    assert!(cpu.status & ZERO == 0);
    assert!(cpu.status & NEGATIVE == 0);
}

#[test]
fn lda_zero_page_reads_memory() {
    let mut cpu = CPU::new();
    cpu.load(vec![0xA5, 0x10, 0x00]);
    cpu.reset();
    cpu.mem_write(0x0010, 0x55);
    cpu.run().unwrap();
    assert_eq!(cpu.register_a, 0x55);
}

#[test]
fn ldx_and_stx_round_trip() {
    let mut cpu = CPU::new();
    cpu.load_and_run(vec![0xA2, 0x07, 0x86, 0x20, 0x00]).unwrap();
    assert_eq!(cpu.register_x, 0x07);
    assert_eq!(cpu.mem_read(0x0020), 0x07);
}

#[test]
fn ldy_and_sty_round_trip() {
    let mut cpu = CPU::new();
    cpu.load_and_run(vec![0xA0, 0x09, 0x84, 0x21, 0x00]).unwrap();
    assert_eq!(cpu.register_y, 0x09);
    assert_eq!(cpu.mem_read(0x0021), 0x09);
}

#[test]
fn adc_signed_overflow_boundary() {
    let mut cpu = CPU::new();
    cpu.load_and_run(vec![0xA9, 0x50, 0x69, 0x50, 0x00]).unwrap();
    assert_eq!(cpu.register_a, 0xA0);
    assert!(cpu.status & CARRY == 0);
    assert!(cpu.status & OVERFLOW != 0);
    assert!(cpu.status & ZERO == 0);
    assert!(cpu.status & NEGATIVE != 0);
}

#[test]
fn adc_carry_boundary() {
    let mut cpu = CPU::new();
    cpu.load_and_run(vec![0xA9, 0xFF, 0x69, 0x01, 0x00]).unwrap();
    assert_eq!(cpu.register_a, 0x00);
    assert!(cpu.status & CARRY != 0);
    assert!(cpu.status & ZERO != 0);
    assert!(cpu.status & NEGATIVE == 0);
    assert!(cpu.status & OVERFLOW == 0);
}

#[test]
fn sbc_subtracts_operand_plus_one() {
    let mut cpu = CPU::new();
    cpu.load_and_run(vec![0xA9, 0x10, 0xE9, 0x05, 0x00]).unwrap();
    assert_eq!(cpu.register_a, 0x0A);
    assert!(cpu.status & CARRY != 0);
}

#[test]
fn inx_wraps_255_to_0() {
    let mut cpu = CPU::new();
    cpu.load_and_run(vec![0xA2, 0xFF, 0xE8, 0x00]).unwrap();
    assert_eq!(cpu.register_x, 0x00);
    assert!(cpu.status & ZERO != 0);
    assert!(cpu.status & NEGATIVE == 0);
}

#[test]
fn dex_wraps_0_to_255() {
    let mut cpu = CPU::new();
    cpu.load_and_run(vec![0xCA, 0x00]).unwrap();
    assert_eq!(cpu.register_x, 0xFF);
    assert!(cpu.status & ZERO == 0);
    assert!(cpu.status & NEGATIVE != 0);
}

#[test]
fn iny_wraps_255_to_0() {
    let mut cpu = CPU::new();
    cpu.load_and_run(vec![0xA0, 0xFF, 0xC8, 0x00]).unwrap();
    assert_eq!(cpu.register_y, 0x00);
    assert!(cpu.status & ZERO != 0);
}

#[test]
fn dey_wraps_0_to_255() {
    let mut cpu = CPU::new();
    cpu.load_and_run(vec![0x88, 0x00]).unwrap();
    assert_eq!(cpu.register_y, 0xFF);
    assert!(cpu.status & NEGATIVE != 0);
}

#[test]
fn inx_increments() {
    let mut cpu = CPU::new();
    cpu.load_and_run(vec![0xA2, 0x41, 0xE8, 0x00]).unwrap();
    assert_eq!(cpu.register_x, 0x42);
    assert!(cpu.status & ZERO == 0);
    assert!(cpu.status & NEGATIVE == 0);
}

#[test]
fn transfers_copy_registers() {
    let mut cpu = CPU::new();
    cpu.load_and_run(vec![0xA9, 0x42, 0xAA, 0x00]).unwrap();
    assert_eq!(cpu.register_x, 0x42);

    let mut cpu = CPU::new();
    cpu.load_and_run(vec![0xA9, 0x42, 0xA8, 0x00]).unwrap();
    assert_eq!(cpu.register_y, 0x42);

    let mut cpu = CPU::new();
    cpu.load_and_run(vec![0xA2, 0x21, 0x8A, 0x00]).unwrap();
    assert_eq!(cpu.register_a, 0x21);

    let mut cpu = CPU::new();
    cpu.load_and_run(vec![0xA0, 0x33, 0x98, 0x00]).unwrap();
    assert_eq!(cpu.register_a, 0x33);
}

#[test]
fn and_masks_accumulator() {
    let mut cpu = CPU::new();
    cpu.load_and_run(vec![0xA9, 0x0C, 0x29, 0x0A, 0x00]).unwrap();
    assert_eq!(cpu.register_a, 0x08);
}

#[test]
fn ora_merges_accumulator() {
    let mut cpu = CPU::new();
    cpu.load_and_run(vec![0xA9, 0x0C, 0x09, 0x0A, 0x00]).unwrap();
    assert_eq!(cpu.register_a, 0x0E);
}

#[test]
fn eor_flips_accumulator() {
    let mut cpu = CPU::new();
    cpu.load_and_run(vec![0xA9, 0x0C, 0x49, 0x0A, 0x00]).unwrap();
    assert_eq!(cpu.register_a, 0x06);
}

#[test]
fn zero_negative_update_leaves_carry_alone() {
    let mut cpu = CPU::new();
    // ADC sets Carry; the INX that follows updates only Zero/Negative.
    cpu.load_and_run(vec![0xA9, 0xFF, 0x69, 0x01, 0xE8, 0x00]).unwrap();
    assert_eq!(cpu.register_a, 0x00);
    assert_eq!(cpu.register_x, 0x01);
    assert!(cpu.status & CARRY != 0);
    assert!(cpu.status & ZERO == 0);
}

#[test]
fn pc_advances_by_instruction_length() {
    // One-byte instruction.
    let mut cpu = CPU::new();
    cpu.load(vec![0xE8, 0x00]);
    cpu.reset();
    let before = cpu.program_counter;
    cpu.step().unwrap();
    assert_eq!(cpu.program_counter, before + 1);

    // Two-byte immediate-mode instruction.
    let mut cpu = CPU::new();
    cpu.load(vec![0xA9, 0x05, 0x00]);
    cpu.reset();
    let before = cpu.program_counter;
    cpu.step().unwrap();
    assert_eq!(cpu.program_counter, before + 2);

    // Three-byte absolute-mode instruction.
    let mut cpu = CPU::new();
    cpu.load(vec![0xAD, 0x34, 0x12, 0x00]);
    cpu.reset();
    let before = cpu.program_counter;
    cpu.step().unwrap();
    assert_eq!(cpu.program_counter, before + 3);
}

#[test]
fn nop_changes_nothing_but_pc() {
    let mut cpu = CPU::new();
    cpu.load_and_run(vec![0xEA, 0x00]).unwrap();
    assert_eq!(cpu.register_a, 0);
    assert_eq!(cpu.register_x, 0);
    assert_eq!(cpu.register_y, 0);
    assert_eq!(cpu.status, 0);
    assert_eq!(cpu.program_counter, 0x8002);
}

#[test]
fn brk_halts_without_further_mutation() {
    let mut cpu = CPU::new();
    // The trailing increment is never executed.
    cpu.load_and_run(vec![0xA9, 0x42, 0x00, 0xE8]).unwrap();
    assert_eq!(cpu.register_a, 0x42);
    assert_eq!(cpu.register_x, 0x00);
    assert_eq!(cpu.register_y, 0x00);
    assert_eq!(cpu.program_counter, 0x8003);
}

#[test]
fn step_signals_halt_on_brk() {
    let mut cpu = CPU::new();
    cpu.load(vec![0x00]);
    cpu.reset();
    assert_eq!(cpu.step(), Ok(true));
}

#[test]
fn indirect_y_end_to_end() {
    let mut cpu = CPU::new();
    cpu.load(vec![0xB1, 0x10, 0x00]);
    cpu.reset();
    cpu.mem_write(0x0010, 0x34);
    cpu.mem_write(0x0011, 0x12);
    cpu.mem_write(0x1244, 0x77);
    cpu.register_y = 0x10;
    cpu.run().unwrap();
    assert_eq!(cpu.register_a, 0x77);
}

#[test]
fn indirect_x_load_end_to_end() {
    let mut cpu = CPU::new();
    cpu.load(vec![0xA1, 0x0F, 0x00]);
    cpu.reset();
    cpu.mem_write(0x0010, 0x34);
    cpu.mem_write(0x0011, 0x12);
    cpu.mem_write(0x1234, 0x66);
    cpu.register_x = 0x01;
    cpu.run().unwrap();
    assert_eq!(cpu.register_a, 0x66);
}

#[test]
fn sta_absolute_writes_memory() {
    let mut cpu = CPU::new();
    cpu.load_and_run(vec![0xA9, 0x7F, 0x8D, 0x00, 0x02, 0x00]).unwrap();
    assert_eq!(cpu.mem_read(0x0200), 0x7F);
}

#[test]
fn lda_absolute_x_adds_index() {
    let mut cpu = CPU::new();
    cpu.load(vec![0xBD, 0x00, 0x02, 0x00]);
    cpu.reset();
    cpu.register_x = 0x05;
    cpu.mem_write(0x0205, 0x3C);
    cpu.run().unwrap();
    assert_eq!(cpu.register_a, 0x3C);
}

#[test]
fn sbc_below_zero_goes_negative() {
    let mut cpu = CPU::new();
    // 0x05 - 0x10 - 1 in 8-bit arithmetic is 0xF4.
    cpu.load_and_run(vec![0xA9, 0x05, 0xE9, 0x10, 0x00]).unwrap();
    assert_eq!(cpu.register_a, 0xF4);
    assert!(cpu.status & CARRY == 0);
    assert!(cpu.status & NEGATIVE != 0);
}

#[test]
fn unknown_opcode_is_reported() {
    let mut cpu = CPU::new();
    assert_eq!(cpu.load_and_run(vec![0xFF]), Err(CpuError::UnknownOpcode(0xFF)));
}

#[test]
fn access_past_memory_end_is_reported() {
    let mut cpu = CPU::new();
    // LDA from the one address outside the 65535-byte memory.
    assert_eq!(
        cpu.load_and_run(vec![0xAD, 0xFF, 0xFF, 0x00]),
        Err(CpuError::AddressOutOfRange)
    );
}
