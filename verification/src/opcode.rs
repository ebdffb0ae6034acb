//! The opcode table: read-only metadata for every supported opcode byte.
//!
//! Each entry names the instruction, its total byte length (opcode plus
//! operand bytes) and its addressing mode.  The table is immutable reference
//! data; the execution loop only consumes it.

use vstd::prelude::*;

use crate::mode::AddressingMode;

verus! {

/// The instruction a supported opcode byte stands for.
#[derive(Clone, Copy, Debug, PartialEq, Eq, Structural)]
pub enum Mnemonic {
    BRK,
    NOP,
    LDA,
    LDX,
    LDY,
    STA,
    STX,
    STY,
    TAX,
    TAY,
    TXA,
    TYA,
    INX,
    INY,
    DEX,
    DEY,
    AND,
    ORA,
    EOR,
    ADC,
    SBC,
}

/// One opcode's immutable metadata: its mnemonic, its total length in bytes
/// and its addressing mode.
#[derive(Clone, Copy, Debug, PartialEq, Eq, Structural)]
pub struct OpCode {
    pub mnemonic: Mnemonic,
    pub bytes: u8,
    pub mode: AddressingMode,
}

/// The total instruction length that goes with an addressing mode: one
/// opcode byte, plus two operand bytes for the absolute modes, none for
/// implicit operands, and one otherwise.
pub open spec fn spec_mode_bytes(mode: AddressingMode) -> u8 {
    match mode {
        AddressingMode::NoneAddressing => 1,
        AddressingMode::Absolute
        | AddressingMode::Absolute_X
        | AddressingMode::Absolute_Y => 3,
        _ => 2,
    }
}

/// A table entry, with the byte length the mode dictates.
pub open spec fn spec_entry(mnemonic: Mnemonic, mode: AddressingMode) -> OpCode {
    OpCode { mnemonic, bytes: spec_mode_bytes(mode), mode }
}

/// The opcode table as a mathematical map: the metadata for a byte, or
/// `None` for a byte outside the supported subset.
pub open spec fn spec_opcode_lookup(code: u8) -> Option<OpCode> {
    match code {
        0x00u8 => Option::Some(spec_entry(Mnemonic::BRK, AddressingMode::NoneAddressing)),
        0xEAu8 => Option::Some(spec_entry(Mnemonic::NOP, AddressingMode::NoneAddressing)),
        0xAAu8 => Option::Some(spec_entry(Mnemonic::TAX, AddressingMode::NoneAddressing)),
        0xA8u8 => Option::Some(spec_entry(Mnemonic::TAY, AddressingMode::NoneAddressing)),
        0x8Au8 => Option::Some(spec_entry(Mnemonic::TXA, AddressingMode::NoneAddressing)),
        0x98u8 => Option::Some(spec_entry(Mnemonic::TYA, AddressingMode::NoneAddressing)),
        0xE8u8 => Option::Some(spec_entry(Mnemonic::INX, AddressingMode::NoneAddressing)),
        0xC8u8 => Option::Some(spec_entry(Mnemonic::INY, AddressingMode::NoneAddressing)),
        0xCAu8 => Option::Some(spec_entry(Mnemonic::DEX, AddressingMode::NoneAddressing)),
        0x88u8 => Option::Some(spec_entry(Mnemonic::DEY, AddressingMode::NoneAddressing)),
        0xA9u8 => Option::Some(spec_entry(Mnemonic::LDA, AddressingMode::Immediate)),
        0xA5u8 => Option::Some(spec_entry(Mnemonic::LDA, AddressingMode::ZeroPage)),
        0xB5u8 => Option::Some(spec_entry(Mnemonic::LDA, AddressingMode::ZeroPage_X)),
        0xADu8 => Option::Some(spec_entry(Mnemonic::LDA, AddressingMode::Absolute)),
        0xBDu8 => Option::Some(spec_entry(Mnemonic::LDA, AddressingMode::Absolute_X)),
        0xB9u8 => Option::Some(spec_entry(Mnemonic::LDA, AddressingMode::Absolute_Y)),
        0xA1u8 => Option::Some(spec_entry(Mnemonic::LDA, AddressingMode::Indirect_X)),
        0xB1u8 => Option::Some(spec_entry(Mnemonic::LDA, AddressingMode::Indirect_Y)),
        0xA2u8 => Option::Some(spec_entry(Mnemonic::LDX, AddressingMode::Immediate)),
        0xA6u8 => Option::Some(spec_entry(Mnemonic::LDX, AddressingMode::ZeroPage)),
        0xB6u8 => Option::Some(spec_entry(Mnemonic::LDX, AddressingMode::ZeroPage_Y)),
        0xAEu8 => Option::Some(spec_entry(Mnemonic::LDX, AddressingMode::Absolute)),
        0xBEu8 => Option::Some(spec_entry(Mnemonic::LDX, AddressingMode::Absolute_Y)),
        0xA0u8 => Option::Some(spec_entry(Mnemonic::LDY, AddressingMode::Immediate)),
        0xA4u8 => Option::Some(spec_entry(Mnemonic::LDY, AddressingMode::ZeroPage)),
        0xB4u8 => Option::Some(spec_entry(Mnemonic::LDY, AddressingMode::ZeroPage_X)),
        0xACu8 => Option::Some(spec_entry(Mnemonic::LDY, AddressingMode::Absolute)),
        0xBCu8 => Option::Some(spec_entry(Mnemonic::LDY, AddressingMode::Absolute_X)),
        0x85u8 => Option::Some(spec_entry(Mnemonic::STA, AddressingMode::ZeroPage)),
        0x95u8 => Option::Some(spec_entry(Mnemonic::STA, AddressingMode::ZeroPage_X)),
        0x8Du8 => Option::Some(spec_entry(Mnemonic::STA, AddressingMode::Absolute)),
        0x9Du8 => Option::Some(spec_entry(Mnemonic::STA, AddressingMode::Absolute_X)),
        0x99u8 => Option::Some(spec_entry(Mnemonic::STA, AddressingMode::Absolute_Y)),
        0x81u8 => Option::Some(spec_entry(Mnemonic::STA, AddressingMode::Indirect_X)),
        0x91u8 => Option::Some(spec_entry(Mnemonic::STA, AddressingMode::Indirect_Y)),
        0x86u8 => Option::Some(spec_entry(Mnemonic::STX, AddressingMode::ZeroPage)),
        0x96u8 => Option::Some(spec_entry(Mnemonic::STX, AddressingMode::ZeroPage_Y)),
        0x8Eu8 => Option::Some(spec_entry(Mnemonic::STX, AddressingMode::Absolute)),
        0x84u8 => Option::Some(spec_entry(Mnemonic::STY, AddressingMode::ZeroPage)),
        0x94u8 => Option::Some(spec_entry(Mnemonic::STY, AddressingMode::ZeroPage_X)),
        0x8Cu8 => Option::Some(spec_entry(Mnemonic::STY, AddressingMode::Absolute)),
        0x29u8 => Option::Some(spec_entry(Mnemonic::AND, AddressingMode::Immediate)),
        0x25u8 => Option::Some(spec_entry(Mnemonic::AND, AddressingMode::ZeroPage)),
        0x35u8 => Option::Some(spec_entry(Mnemonic::AND, AddressingMode::ZeroPage_X)),
        0x2Du8 => Option::Some(spec_entry(Mnemonic::AND, AddressingMode::Absolute)),
        0x3Du8 => Option::Some(spec_entry(Mnemonic::AND, AddressingMode::Absolute_X)),
        0x39u8 => Option::Some(spec_entry(Mnemonic::AND, AddressingMode::Absolute_Y)),
        0x21u8 => Option::Some(spec_entry(Mnemonic::AND, AddressingMode::Indirect_X)),
        0x31u8 => Option::Some(spec_entry(Mnemonic::AND, AddressingMode::Indirect_Y)),
        0x09u8 => Option::Some(spec_entry(Mnemonic::ORA, AddressingMode::Immediate)),
        0x05u8 => Option::Some(spec_entry(Mnemonic::ORA, AddressingMode::ZeroPage)),
        0x15u8 => Option::Some(spec_entry(Mnemonic::ORA, AddressingMode::ZeroPage_X)),
        0x0Du8 => Option::Some(spec_entry(Mnemonic::ORA, AddressingMode::Absolute)),
        0x1Du8 => Option::Some(spec_entry(Mnemonic::ORA, AddressingMode::Absolute_X)),
        0x19u8 => Option::Some(spec_entry(Mnemonic::ORA, AddressingMode::Absolute_Y)),
        0x01u8 => Option::Some(spec_entry(Mnemonic::ORA, AddressingMode::Indirect_X)),
        0x11u8 => Option::Some(spec_entry(Mnemonic::ORA, AddressingMode::Indirect_Y)),
        0x49u8 => Option::Some(spec_entry(Mnemonic::EOR, AddressingMode::Immediate)),
        0x45u8 => Option::Some(spec_entry(Mnemonic::EOR, AddressingMode::ZeroPage)),
        0x55u8 => Option::Some(spec_entry(Mnemonic::EOR, AddressingMode::ZeroPage_X)),
        0x4Du8 => Option::Some(spec_entry(Mnemonic::EOR, AddressingMode::Absolute)),
        0x5Du8 => Option::Some(spec_entry(Mnemonic::EOR, AddressingMode::Absolute_X)),
        0x59u8 => Option::Some(spec_entry(Mnemonic::EOR, AddressingMode::Absolute_Y)),
        0x41u8 => Option::Some(spec_entry(Mnemonic::EOR, AddressingMode::Indirect_X)),
        0x51u8 => Option::Some(spec_entry(Mnemonic::EOR, AddressingMode::Indirect_Y)),
        0x69u8 => Option::Some(spec_entry(Mnemonic::ADC, AddressingMode::Immediate)),
        0x65u8 => Option::Some(spec_entry(Mnemonic::ADC, AddressingMode::ZeroPage)),
        0x75u8 => Option::Some(spec_entry(Mnemonic::ADC, AddressingMode::ZeroPage_X)),
        0x6Du8 => Option::Some(spec_entry(Mnemonic::ADC, AddressingMode::Absolute)),
        0x7Du8 => Option::Some(spec_entry(Mnemonic::ADC, AddressingMode::Absolute_X)),
        0x79u8 => Option::Some(spec_entry(Mnemonic::ADC, AddressingMode::Absolute_Y)),
        0x61u8 => Option::Some(spec_entry(Mnemonic::ADC, AddressingMode::Indirect_X)),
        0x71u8 => Option::Some(spec_entry(Mnemonic::ADC, AddressingMode::Indirect_Y)),
        0xE9u8 => Option::Some(spec_entry(Mnemonic::SBC, AddressingMode::Immediate)),
        0xE5u8 => Option::Some(spec_entry(Mnemonic::SBC, AddressingMode::ZeroPage)),
        0xF5u8 => Option::Some(spec_entry(Mnemonic::SBC, AddressingMode::ZeroPage_X)),
        0xEDu8 => Option::Some(spec_entry(Mnemonic::SBC, AddressingMode::Absolute)),
        0xFDu8 => Option::Some(spec_entry(Mnemonic::SBC, AddressingMode::Absolute_X)),
        0xF9u8 => Option::Some(spec_entry(Mnemonic::SBC, AddressingMode::Absolute_Y)),
        0xE1u8 => Option::Some(spec_entry(Mnemonic::SBC, AddressingMode::Indirect_X)),
        0xF1u8 => Option::Some(spec_entry(Mnemonic::SBC, AddressingMode::Indirect_Y)),
        _ => Option::None,
    }
}

/// Every table entry's byte length is the one its addressing mode dictates;
/// in particular it lies between 1 and 3.
pub proof fn lemma_opcode_table_bytes()
    ensures
        forall|code: u8|
            (#[trigger] spec_opcode_lookup(code)) matches Option::Some(op)
                ==> op.bytes == spec_mode_bytes(op.mode) && 1 <= op.bytes <= 3,
{
}

/// A table entry, with the byte length its mode dictates.
fn entry(mnemonic: Mnemonic, mode: AddressingMode) -> (r: OpCode)
    ensures
        r == spec_entry(mnemonic, mode),
{
    let bytes: u8 = match mode {
        AddressingMode::NoneAddressing => 1,
        AddressingMode::Absolute
        | AddressingMode::Absolute_X
        | AddressingMode::Absolute_Y => 3,
        _ => 2,
    };
    OpCode { mnemonic, bytes, mode }
}

/// Looks an opcode byte up in the table.
pub fn opcode_lookup(code: u8) -> (r: Option<OpCode>)
    ensures
        r == spec_opcode_lookup(code),
{
    match code {
        0x00u8 => Option::Some(entry(Mnemonic::BRK, AddressingMode::NoneAddressing)),
        0xEAu8 => Option::Some(entry(Mnemonic::NOP, AddressingMode::NoneAddressing)),
        0xAAu8 => Option::Some(entry(Mnemonic::TAX, AddressingMode::NoneAddressing)),
        0xA8u8 => Option::Some(entry(Mnemonic::TAY, AddressingMode::NoneAddressing)),
        0x8Au8 => Option::Some(entry(Mnemonic::TXA, AddressingMode::NoneAddressing)),
        0x98u8 => Option::Some(entry(Mnemonic::TYA, AddressingMode::NoneAddressing)),
        0xE8u8 => Option::Some(entry(Mnemonic::INX, AddressingMode::NoneAddressing)),
        0xC8u8 => Option::Some(entry(Mnemonic::INY, AddressingMode::NoneAddressing)),
        0xCAu8 => Option::Some(entry(Mnemonic::DEX, AddressingMode::NoneAddressing)),
        0x88u8 => Option::Some(entry(Mnemonic::DEY, AddressingMode::NoneAddressing)),
        0xA9u8 => Option::Some(entry(Mnemonic::LDA, AddressingMode::Immediate)),
        0xA5u8 => Option::Some(entry(Mnemonic::LDA, AddressingMode::ZeroPage)),
        0xB5u8 => Option::Some(entry(Mnemonic::LDA, AddressingMode::ZeroPage_X)),
        0xADu8 => Option::Some(entry(Mnemonic::LDA, AddressingMode::Absolute)),
        0xBDu8 => Option::Some(entry(Mnemonic::LDA, AddressingMode::Absolute_X)),
        0xB9u8 => Option::Some(entry(Mnemonic::LDA, AddressingMode::Absolute_Y)),
        0xA1u8 => Option::Some(entry(Mnemonic::LDA, AddressingMode::Indirect_X)),
        0xB1u8 => Option::Some(entry(Mnemonic::LDA, AddressingMode::Indirect_Y)),
        0xA2u8 => Option::Some(entry(Mnemonic::LDX, AddressingMode::Immediate)),
        0xA6u8 => Option::Some(entry(Mnemonic::LDX, AddressingMode::ZeroPage)),
        0xB6u8 => Option::Some(entry(Mnemonic::LDX, AddressingMode::ZeroPage_Y)),
        0xAEu8 => Option::Some(entry(Mnemonic::LDX, AddressingMode::Absolute)),
        0xBEu8 => Option::Some(entry(Mnemonic::LDX, AddressingMode::Absolute_Y)),
        0xA0u8 => Option::Some(entry(Mnemonic::LDY, AddressingMode::Immediate)),
        0xA4u8 => Option::Some(entry(Mnemonic::LDY, AddressingMode::ZeroPage)),
        0xB4u8 => Option::Some(entry(Mnemonic::LDY, AddressingMode::ZeroPage_X)),
        0xACu8 => Option::Some(entry(Mnemonic::LDY, AddressingMode::Absolute)),
        0xBCu8 => Option::Some(entry(Mnemonic::LDY, AddressingMode::Absolute_X)),
        0x85u8 => Option::Some(entry(Mnemonic::STA, AddressingMode::ZeroPage)),
        0x95u8 => Option::Some(entry(Mnemonic::STA, AddressingMode::ZeroPage_X)),
        0x8Du8 => Option::Some(entry(Mnemonic::STA, AddressingMode::Absolute)),
        0x9Du8 => Option::Some(entry(Mnemonic::STA, AddressingMode::Absolute_X)),
        0x99u8 => Option::Some(entry(Mnemonic::STA, AddressingMode::Absolute_Y)),
        0x81u8 => Option::Some(entry(Mnemonic::STA, AddressingMode::Indirect_X)),
        0x91u8 => Option::Some(entry(Mnemonic::STA, AddressingMode::Indirect_Y)),
        0x86u8 => Option::Some(entry(Mnemonic::STX, AddressingMode::ZeroPage)),
        0x96u8 => Option::Some(entry(Mnemonic::STX, AddressingMode::ZeroPage_Y)),
        0x8Eu8 => Option::Some(entry(Mnemonic::STX, AddressingMode::Absolute)),
        0x84u8 => Option::Some(entry(Mnemonic::STY, AddressingMode::ZeroPage)),
        0x94u8 => Option::Some(entry(Mnemonic::STY, AddressingMode::ZeroPage_X)),
        0x8Cu8 => Option::Some(entry(Mnemonic::STY, AddressingMode::Absolute)),
        0x29u8 => Option::Some(entry(Mnemonic::AND, AddressingMode::Immediate)),
        0x25u8 => Option::Some(entry(Mnemonic::AND, AddressingMode::ZeroPage)),
        0x35u8 => Option::Some(entry(Mnemonic::AND, AddressingMode::ZeroPage_X)),
        0x2Du8 => Option::Some(entry(Mnemonic::AND, AddressingMode::Absolute)),
        0x3Du8 => Option::Some(entry(Mnemonic::AND, AddressingMode::Absolute_X)),
        0x39u8 => Option::Some(entry(Mnemonic::AND, AddressingMode::Absolute_Y)),
        0x21u8 => Option::Some(entry(Mnemonic::AND, AddressingMode::Indirect_X)),
        0x31u8 => Option::Some(entry(Mnemonic::AND, AddressingMode::Indirect_Y)),
        0x09u8 => Option::Some(entry(Mnemonic::ORA, AddressingMode::Immediate)),
        0x05u8 => Option::Some(entry(Mnemonic::ORA, AddressingMode::ZeroPage)),
        0x15u8 => Option::Some(entry(Mnemonic::ORA, AddressingMode::ZeroPage_X)),
        0x0Du8 => Option::Some(entry(Mnemonic::ORA, AddressingMode::Absolute)),
        0x1Du8 => Option::Some(entry(Mnemonic::ORA, AddressingMode::Absolute_X)),
        0x19u8 => Option::Some(entry(Mnemonic::ORA, AddressingMode::Absolute_Y)),
        0x01u8 => Option::Some(entry(Mnemonic::ORA, AddressingMode::Indirect_X)),
        0x11u8 => Option::Some(entry(Mnemonic::ORA, AddressingMode::Indirect_Y)),
        0x49u8 => Option::Some(entry(Mnemonic::EOR, AddressingMode::Immediate)),
        0x45u8 => Option::Some(entry(Mnemonic::EOR, AddressingMode::ZeroPage)),
        0x55u8 => Option::Some(entry(Mnemonic::EOR, AddressingMode::ZeroPage_X)),
        0x4Du8 => Option::Some(entry(Mnemonic::EOR, AddressingMode::Absolute)),
        0x5Du8 => Option::Some(entry(Mnemonic::EOR, AddressingMode::Absolute_X)),
        0x59u8 => Option::Some(entry(Mnemonic::EOR, AddressingMode::Absolute_Y)),
        0x41u8 => Option::Some(entry(Mnemonic::EOR, AddressingMode::Indirect_X)),
        0x51u8 => Option::Some(entry(Mnemonic::EOR, AddressingMode::Indirect_Y)),
        0x69u8 => Option::Some(entry(Mnemonic::ADC, AddressingMode::Immediate)),
        0x65u8 => Option::Some(entry(Mnemonic::ADC, AddressingMode::ZeroPage)),
        0x75u8 => Option::Some(entry(Mnemonic::ADC, AddressingMode::ZeroPage_X)),
        0x6Du8 => Option::Some(entry(Mnemonic::ADC, AddressingMode::Absolute)),
        0x7Du8 => Option::Some(entry(Mnemonic::ADC, AddressingMode::Absolute_X)),
        0x79u8 => Option::Some(entry(Mnemonic::ADC, AddressingMode::Absolute_Y)),
        0x61u8 => Option::Some(entry(Mnemonic::ADC, AddressingMode::Indirect_X)),
        0x71u8 => Option::Some(entry(Mnemonic::ADC, AddressingMode::Indirect_Y)),
        0xE9u8 => Option::Some(entry(Mnemonic::SBC, AddressingMode::Immediate)),
        0xE5u8 => Option::Some(entry(Mnemonic::SBC, AddressingMode::ZeroPage)),
        0xF5u8 => Option::Some(entry(Mnemonic::SBC, AddressingMode::ZeroPage_X)),
        0xEDu8 => Option::Some(entry(Mnemonic::SBC, AddressingMode::Absolute)),
        0xFDu8 => Option::Some(entry(Mnemonic::SBC, AddressingMode::Absolute_X)),
        0xF9u8 => Option::Some(entry(Mnemonic::SBC, AddressingMode::Absolute_Y)),
        0xE1u8 => Option::Some(entry(Mnemonic::SBC, AddressingMode::Indirect_X)),
        0xF1u8 => Option::Some(entry(Mnemonic::SBC, AddressingMode::Indirect_Y)),
        _ => Option::None,
    }
}

} // verus!
