//! Memory primitives and effective-address resolution.

use nes_cpu::cpu::CPU;
use nes_cpu::mode::AddressingMode;

#[test]
fn new_zeroes_state() {
    let cpu = CPU::new();
    assert_eq!(cpu.register_a, 0);
    assert_eq!(cpu.register_x, 0);
    assert_eq!(cpu.register_y, 0);
    assert_eq!(cpu.status, 0);
    assert_eq!(cpu.program_counter, 0);
    assert_eq!(cpu.mem_read(0x0000), 0);
    assert_eq!(cpu.mem_read(0x8000), 0);
    assert_eq!(cpu.mem_read(0xFFFE), 0);
}

#[test]
fn mem_read_write_roundtrip() {
    let mut cpu = CPU::new();
    cpu.mem_write(0x0000, 0xAB);
    cpu.mem_write(0x1234, 0xCD);
    cpu.mem_write(0xFFFE, 0xEF);
    assert_eq!(cpu.mem_read(0x0000), 0xAB);
    assert_eq!(cpu.mem_read(0x1234), 0xCD);
    assert_eq!(cpu.mem_read(0xFFFE), 0xEF);
    cpu.mem_write(0x1234, 0x11);
    assert_eq!(cpu.mem_read(0x1234), 0x11);
}

#[test]
fn load_places_image_and_reset_vector() {
    let mut cpu = CPU::new();
    cpu.load(vec![0x01, 0x02, 0x03]);
    assert_eq!(cpu.mem_read(0x8000), 0x01);
    assert_eq!(cpu.mem_read(0x8001), 0x02);
    assert_eq!(cpu.mem_read(0x8002), 0x03);
    assert_eq!(cpu.mem_read(0x8003), 0x00);
    assert_eq!(cpu.mem_read(0xFFFC), 0x00);
    assert_eq!(cpu.mem_read(0xFFFD), 0x80);
}

#[test]
fn reset_zeroes_registers_and_loads_pc() {
    let mut cpu = CPU::new();
    cpu.register_a = 0x11;
    cpu.register_x = 0x22;
    cpu.register_y = 0x33;
    cpu.status = 0xFF;
    cpu.load(vec![0x00]);
    cpu.reset();
    assert_eq!(cpu.register_a, 0);
    assert_eq!(cpu.register_x, 0);
    assert_eq!(cpu.register_y, 0);
    assert_eq!(cpu.status, 0);
    assert_eq!(cpu.program_counter, 0x8000);
}

#[test]
fn immediate_resolves_to_pc() {
    let mut cpu = CPU::new();
    cpu.program_counter = 0x0200;
    assert_eq!(cpu.get_operand_address(&AddressingMode::Immediate), 0x0200);
}

#[test]
fn zero_page_resolves() {
    let mut cpu = CPU::new();
    cpu.program_counter = 0x0200;
    cpu.mem_write(0x0200, 0x42);
    assert_eq!(cpu.get_operand_address(&AddressingMode::ZeroPage), 0x0042);
}

#[test]
fn absolute_resolves_little_endian() {
    let mut cpu = CPU::new();
    cpu.program_counter = 0x0200;
    cpu.mem_write(0x0200, 0x34);
    cpu.mem_write(0x0201, 0x12);
    assert_eq!(cpu.get_operand_address(&AddressingMode::Absolute), 0x1234);
}

#[test]
fn zero_page_x_wraps_at_8_bits() {
    let mut cpu = CPU::new();
    cpu.program_counter = 0x0200;
    cpu.mem_write(0x0200, 0xFF);
    cpu.register_x = 0x01;
    assert_eq!(cpu.get_operand_address(&AddressingMode::ZeroPage_X), 0x0000);
}

#[test]
fn zero_page_y_wraps_at_8_bits() {
    let mut cpu = CPU::new();
    cpu.program_counter = 0x0200;
    cpu.mem_write(0x0200, 0x80);
    cpu.register_y = 0x90;
    assert_eq!(cpu.get_operand_address(&AddressingMode::ZeroPage_Y), 0x0010);
}

#[test]
fn absolute_x_wraps_at_16_bits() {
    let mut cpu = CPU::new();
    cpu.program_counter = 0x0200;
    cpu.mem_write(0x0200, 0xFF);
    cpu.mem_write(0x0201, 0xFF);
    cpu.register_x = 0x02;
    assert_eq!(cpu.get_operand_address(&AddressingMode::Absolute_X), 0x0001);
}

#[test]
fn absolute_y_wraps_at_16_bits() {
    let mut cpu = CPU::new();
    cpu.program_counter = 0x0200;
    cpu.mem_write(0x0200, 0xFE);
    cpu.mem_write(0x0201, 0xFF);
    cpu.register_y = 0x05;
    assert_eq!(cpu.get_operand_address(&AddressingMode::Absolute_Y), 0x0003);
}

#[test]
fn indirect_x_pointer_wraps_at_8_bits() {
    let mut cpu = CPU::new();
    cpu.program_counter = 0x0200;
    cpu.mem_write(0x0200, 0xFE);
    cpu.register_x = 0x01;
    cpu.mem_write(0x00FF, 0x34);
    cpu.mem_write(0x0000, 0x12);
    assert_eq!(cpu.get_operand_address(&AddressingMode::Indirect_X), 0x1234);
}

#[test]
fn indirect_y_resolves_base_plus_y() {
    let mut cpu = CPU::new();
    cpu.program_counter = 0x0200;
    cpu.mem_write(0x0200, 0x10);
    cpu.mem_write(0x0010, 0x34);
    cpu.mem_write(0x0011, 0x12);
    cpu.register_y = 0x10;
    assert_eq!(cpu.get_operand_address(&AddressingMode::Indirect_Y), 0x1244);
}

#[test]
fn get_value_reads_resolved_byte() {
    let mut cpu = CPU::new();
    cpu.program_counter = 0x0200;
    cpu.mem_write(0x0200, 0x34);
    cpu.mem_write(0x0201, 0x12);
    cpu.mem_write(0x1234, 0x99);
    assert_eq!(cpu.get_value(&AddressingMode::Absolute), 0x99);
}
