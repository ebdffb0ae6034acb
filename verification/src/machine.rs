//! The mathematical model of the processor.
//!
//! [`Machine`] is the ghost state a [`crate::cpu::CPU`] abstracts to: the
//! four 8-bit registers, the 16-bit program counter and the memory as a
//! sequence of bytes.  The spec functions here define, over that state, the
//! flag policy, the wrapping arithmetic, the effective-address computation of
//! every addressing mode, and the single-step transition of the
//! fetch-decode-execute loop.  The executable code in [`crate::cpu`] is
//! proved to follow these definitions exactly.

use vstd::prelude::*;

use crate::error::CpuError;
use crate::mode::AddressingMode;
use crate::opcode::{spec_opcode_lookup, Mnemonic, OpCode};

verus! {

/// Carry flag: bit 0 of the status register.
pub const FLAG_CARRY: u8 = 0x01;
/// Zero flag: bit 1 of the status register.
pub const FLAG_ZERO: u8 = 0x02;
/// Overflow flag: bit 6 of the status register.
pub const FLAG_OVERFLOW: u8 = 0x40;
/// Negative flag: bit 7 of the status register.
pub const FLAG_NEGATIVE: u8 = 0x80;

/// Number of bytes in memory.  All addresses below it are valid; the one
/// 16-bit address `0xFFFF` lies outside.
pub const MEMORY_SIZE: usize = 0xFFFF;
/// Where a program image is loaded.
pub const PROGRAM_BASE: u16 = 0x8000;
/// Where the little-endian 16-bit reset address is stored.
pub const RESET_VECTOR: u16 = 0xFFFC;

/// The processor state, mathematically: registers, flags, program counter
/// and the memory contents.
pub ghost struct Machine {
    pub a: u8,
    pub x: u8,
    pub y: u8,
    pub status: u8,
    pub pc: u16,
    pub mem: Seq<u8>,
}

/// 8-bit addition, wrapping modulo 256.
pub open spec fn wrap_add8(x: u8, y: u8) -> u8 {
    if x + y > 255 {
        (x + y - 256) as u8
    } else {
        (x + y) as u8
    }
}

/// 16-bit addition, wrapping modulo 65536.
pub open spec fn wrap_add16(x: u16, y: u16) -> u16 {
    if x + y > 0xFFFF {
        (x + y - 0x10000) as u16
    } else {
        (x + y) as u16
    }
}

/// 8-bit increment, 255 wrapping to 0.
pub open spec fn wrap_inc(v: u8) -> u8 {
    if v == 255 {
        0
    } else {
        (v + 1) as u8
    }
}

/// 8-bit decrement, 0 wrapping to 255.
pub open spec fn wrap_dec(v: u8) -> u8 {
    if v == 0 {
        255
    } else {
        (v - 1) as u8
    }
}

/// A 16-bit word from its little-endian bytes.
pub open spec fn le_word(lo: u8, hi: u8) -> u16 {
    (lo + 256 * hi) as u16
}

/// The status register with one flag bit set or cleared.
pub open spec fn set_flag(status: u8, mask: u8, on: bool) -> u8 {
    if on {
        status | mask
    } else {
        status & !mask
    }
}

/// The status register after the shared zero/negative update: Zero is set
/// iff `result` is zero, Negative iff bit 7 of `result` is set; every other
/// bit, Carry and Overflow among them, is left as it was.
pub open spec fn zn_status(status: u8, result: u8) -> u8 {
    set_flag(set_flag(status, FLAG_ZERO, result == 0), FLAG_NEGATIVE, result & 0x80 != 0)
}

/// Whether add-with-carry produces a carry out: the raw sum exceeds 255.
pub open spec fn adc_carry(a: u8, v: u8) -> bool {
    a + v > 255
}

/// Whether add-with-carry overflows as a signed addition, by the test
/// `(value ^ result) & (result ^ a) & 0x80 != 0`.
pub open spec fn adc_overflow(a: u8, v: u8) -> bool {
    (v ^ wrap_add8(a, v)) & (wrap_add8(a, v) ^ a) & 0x80 != 0
}

/// The status register after add-with-carry: Carry and Overflow from the
/// sum, then the zero/negative update on the result byte.
pub open spec fn status_after_add(status: u8, a: u8, v: u8) -> u8 {
    zn_status(
        set_flag(set_flag(status, FLAG_CARRY, adc_carry(a, v)), FLAG_OVERFLOW, adc_overflow(a, v)),
        wrap_add8(a, v),
    )
}

/// The operand subtract-with-carry feeds to the adder: the two's-complement
/// negation of `v` minus one, which is `255 - v`.
pub open spec fn sbc_operand(v: u8) -> u8 {
    (255 - v) as u8
}

/// The byte of memory at a 16-bit address.
pub open spec fn byte_at(m: Machine, addr: u16) -> u8 {
    m.mem[addr as int]
}

/// The little-endian word whose bytes sit at the two given addresses.
pub open spec fn word_at(m: Machine, lo_addr: u16, hi_addr: u16) -> u16 {
    le_word(byte_at(m, lo_addr), byte_at(m, hi_addr))
}

/// Whether the operand bytes the resolver reads for `mode` lie inside
/// memory.  The program counter points at the first operand byte; absolute
/// modes read two bytes there, immediate reads none through the resolver,
/// the remaining modes read one (their zero-page dereferences stay below
/// `0x100` and are always in range).
pub open spec fn resolver_reads_ok(m: Machine, mode: AddressingMode) -> bool {
    match mode {
        AddressingMode::Immediate => true,
        AddressingMode::Absolute
        | AddressingMode::Absolute_X
        | AddressingMode::Absolute_Y => m.pc < 0xFFFE,
        AddressingMode::NoneAddressing => false,
        _ => m.pc < 0xFFFF,
    }
}

/// The effective address for `mode`, with the program counter pointing at
/// the first operand byte.  All 8-bit intermediate arithmetic wraps modulo
/// 256 and 16-bit base+offset arithmetic wraps modulo 65536; the pointer
/// increments of the indirect modes wrap at 8 bits.  Meaningful only when
/// `resolver_reads_ok` holds; `NoneAddressing` never reaches a resolver.
pub open spec fn spec_resolve(m: Machine, mode: AddressingMode) -> u16 {
    match mode {
        AddressingMode::Immediate => m.pc,
        AddressingMode::ZeroPage => byte_at(m, m.pc) as u16,
        AddressingMode::ZeroPage_X => wrap_add8(byte_at(m, m.pc), m.x) as u16,
        AddressingMode::ZeroPage_Y => wrap_add8(byte_at(m, m.pc), m.y) as u16,
        AddressingMode::Absolute => word_at(m, m.pc, (m.pc + 1) as u16),
        AddressingMode::Absolute_X => wrap_add16(word_at(m, m.pc, (m.pc + 1) as u16), m.x as u16),
        AddressingMode::Absolute_Y => wrap_add16(word_at(m, m.pc, (m.pc + 1) as u16), m.y as u16),
        AddressingMode::Indirect_X => {
            let ptr = wrap_add8(byte_at(m, m.pc), m.x);
            word_at(m, ptr as u16, wrap_add8(ptr, 1) as u16)
        },
        AddressingMode::Indirect_Y => {
            let base = byte_at(m, m.pc);
            let deref_base = word_at(m, base as u16, wrap_add8(base, 1) as u16);
            wrap_add16(deref_base, m.y as u16)
        },
        AddressingMode::NoneAddressing => 0,
    }
}

/// The checked effective address an executing instruction uses: the
/// sentinel mode is an internal dispatch error, and an address is handed
/// out only when the operand bytes and the address itself lie inside
/// memory.
pub open spec fn spec_try_addr(m: Machine, mode: AddressingMode) -> Result<u16, CpuError> {
    if mode is NoneAddressing {
        Result::Err(CpuError::UnsupportedAddressing)
    } else if !resolver_reads_ok(m, mode) {
        Result::Err(CpuError::AddressOutOfRange)
    } else if spec_resolve(m, mode) >= 0xFFFF {
        Result::Err(CpuError::AddressOutOfRange)
    } else {
        Result::Ok(spec_resolve(m, mode))
    }
}

/// What one fetch-decode-execute step yields: whether the break opcode
/// halted the loop, the fatal condition if one arose, and the machine state
/// afterwards.
pub ghost struct StepResult {
    pub halted: bool,
    pub fault: Option<CpuError>,
    pub post: Machine,
}

/// A step that continues.
pub open spec fn step_next(m: Machine) -> StepResult {
    StepResult { halted: false, fault: Option::None, post: m }
}

/// A step that stops with a fatal condition, leaving the state as it stood
/// when the condition was found.
pub open spec fn step_fault(m: Machine, e: CpuError) -> StepResult {
    StepResult { halted: false, fault: Option::Some(e), post: m }
}

/// The machine with the program counter advanced over the operand bytes of
/// an instruction of the given total length.
pub open spec fn advance_pc(m: Machine, bytes: u8) -> Machine {
    Machine { pc: wrap_add16(m.pc, (bytes - 1) as u16), ..m }
}

/// The machine with the zero/negative update applied for `result`.
pub open spec fn with_zn(m: Machine, result: u8) -> Machine {
    Machine { status: zn_status(m.status, result), ..m }
}

/// The machine after the accumulator adder ran on `v`: sum into the
/// accumulator, Carry, Overflow and the zero/negative flags from it.
pub open spec fn spec_add_a(m: Machine, v: u8) -> Machine {
    Machine { a: wrap_add8(m.a, v), status: status_after_add(m.status, m.a, v), ..m }
}

/// The decoded instruction's effect, from the state just after the opcode
/// fetch (`m.pc` points at the first operand byte).
pub open spec fn spec_execute(m: Machine, op: OpCode) -> StepResult {
    match op.mnemonic {
        Mnemonic::BRK => StepResult { halted: true, fault: Option::None, post: m },
        Mnemonic::NOP => step_next(advance_pc(m, op.bytes)),
        Mnemonic::TAX => step_next(advance_pc(with_zn(Machine { x: m.a, ..m }, m.a), op.bytes)),
        Mnemonic::TAY => step_next(advance_pc(with_zn(Machine { y: m.a, ..m }, m.a), op.bytes)),
        Mnemonic::TXA => step_next(advance_pc(with_zn(Machine { a: m.x, ..m }, m.x), op.bytes)),
        Mnemonic::TYA => step_next(advance_pc(with_zn(Machine { a: m.y, ..m }, m.y), op.bytes)),
        Mnemonic::INX => step_next(
            advance_pc(with_zn(Machine { x: wrap_inc(m.x), ..m }, wrap_inc(m.x)), op.bytes),
        ),
        Mnemonic::INY => step_next(
            advance_pc(with_zn(Machine { y: wrap_inc(m.y), ..m }, wrap_inc(m.y)), op.bytes),
        ),
        Mnemonic::DEX => step_next(
            advance_pc(with_zn(Machine { x: wrap_dec(m.x), ..m }, wrap_dec(m.x)), op.bytes),
        ),
        Mnemonic::DEY => step_next(
            advance_pc(with_zn(Machine { y: wrap_dec(m.y), ..m }, wrap_dec(m.y)), op.bytes),
        ),
        Mnemonic::LDA => match spec_try_addr(m, op.mode) {
            Result::Err(e) => step_fault(m, e),
            Result::Ok(addr) => {
                let v = byte_at(m, addr);
                step_next(advance_pc(with_zn(Machine { a: v, ..m }, v), op.bytes))
            },
        },
        Mnemonic::LDX => match spec_try_addr(m, op.mode) {
            Result::Err(e) => step_fault(m, e),
            Result::Ok(addr) => {
                let v = byte_at(m, addr);
                step_next(advance_pc(with_zn(Machine { x: v, ..m }, v), op.bytes))
            },
        },
        Mnemonic::LDY => match spec_try_addr(m, op.mode) {
            Result::Err(e) => step_fault(m, e),
            Result::Ok(addr) => {
                let v = byte_at(m, addr);
                step_next(advance_pc(with_zn(Machine { y: v, ..m }, v), op.bytes))
            },
        },
        Mnemonic::STA => match spec_try_addr(m, op.mode) {
            Result::Err(e) => step_fault(m, e),
            Result::Ok(addr) => step_next(
                advance_pc(Machine { mem: m.mem.update(addr as int, m.a), ..m }, op.bytes),
            ),
        },
        Mnemonic::STX => match spec_try_addr(m, op.mode) {
            Result::Err(e) => step_fault(m, e),
            Result::Ok(addr) => step_next(
                advance_pc(Machine { mem: m.mem.update(addr as int, m.x), ..m }, op.bytes),
            ),
        },
        Mnemonic::STY => match spec_try_addr(m, op.mode) {
            Result::Err(e) => step_fault(m, e),
            Result::Ok(addr) => step_next(
                advance_pc(Machine { mem: m.mem.update(addr as int, m.y), ..m }, op.bytes),
            ),
        },
        Mnemonic::AND => match spec_try_addr(m, op.mode) {
            Result::Err(e) => step_fault(m, e),
            Result::Ok(addr) => {
                let v = m.a & byte_at(m, addr);
                step_next(advance_pc(with_zn(Machine { a: v, ..m }, v), op.bytes))
            },
        },
        Mnemonic::ORA => match spec_try_addr(m, op.mode) {
            Result::Err(e) => step_fault(m, e),
            Result::Ok(addr) => {
                let v = m.a | byte_at(m, addr);
                step_next(advance_pc(with_zn(Machine { a: v, ..m }, v), op.bytes))
            },
        },
        Mnemonic::EOR => match spec_try_addr(m, op.mode) {
            Result::Err(e) => step_fault(m, e),
            Result::Ok(addr) => {
                let v = m.a ^ byte_at(m, addr);
                step_next(advance_pc(with_zn(Machine { a: v, ..m }, v), op.bytes))
            },
        },
        Mnemonic::ADC => match spec_try_addr(m, op.mode) {
            Result::Err(e) => step_fault(m, e),
            Result::Ok(addr) => step_next(advance_pc(spec_add_a(m, byte_at(m, addr)), op.bytes)),
        },
        Mnemonic::SBC => match spec_try_addr(m, op.mode) {
            Result::Err(e) => step_fault(m, e),
            Result::Ok(addr) => step_next(
                advance_pc(spec_add_a(m, sbc_operand(byte_at(m, addr))), op.bytes),
            ),
        },
    }
}

/// One fetch-decode-execute step: fetch the opcode byte at the program
/// counter, advance the counter over it, look the byte up in the opcode
/// table, run the instruction's effect, and advance the counter over the
/// operand bytes.  The break opcode halts instead; a byte without a table
/// entry, a resolver reached with the sentinel mode, and a memory access at
/// the one out-of-range address are the fatal conditions.
pub open spec fn spec_step(m: Machine) -> StepResult {
    if m.pc >= 0xFFFF {
        step_fault(m, CpuError::AddressOutOfRange)
    } else {
        let code = byte_at(m, m.pc);
        let m1 = Machine { pc: (m.pc + 1) as u16, ..m };
        match spec_opcode_lookup(code) {
            Option::None => step_fault(m1, CpuError::UnknownOpcode(code)),
            Option::Some(op) => spec_execute(m1, op),
        }
    }
}

/// The machine after `n` steps, each taken from the previous step's
/// post-state.
pub open spec fn runs(m: Machine, n: nat) -> Machine
    decreases n,
{
    if n == 0 {
        m
    } else {
        spec_step(runs(m, (n - 1) as nat)).post
    }
}

/// Whether the first `n` steps from `m` all continue: none halts and none
/// faults.
pub open spec fn running_through(m: Machine, n: nat) -> bool
    decreases n,
{
    if n == 0 {
        true
    } else {
        running_through(m, (n - 1) as nat) && {
            let sr = spec_step(runs(m, (n - 1) as nat));
            sr.fault is None && !sr.halted
        }
    }
}

/// The execution loop, started at `m0`, halts at `mf`: some number of steps
/// continue, and the next step decodes the break opcode.
pub open spec fn run_halts(m0: Machine, mf: Machine) -> bool {
    exists|n: nat|
        running_through(m0, n) && {
            let sr = spec_step(runs(m0, n));
            sr.fault is None && sr.halted && mf == sr.post
        }
}

/// The execution loop, started at `m0`, stops at `mf` with the fatal
/// condition `e`: some number of steps continue, and the next step faults.
pub open spec fn run_faults(m0: Machine, mf: Machine, e: CpuError) -> bool {
    exists|n: nat|
        running_through(m0, n) && {
            let sr = spec_step(runs(m0, n));
            sr.fault == Option::Some(e) && mf == sr.post
        }
}

/// The machine after a program image is loaded: the image sits at
/// `PROGRAM_BASE`, the reset vector holds `PROGRAM_BASE` little-endian, and
/// every other byte, and all registers, are as before.
pub open spec fn spec_load(m: Machine, prog: Seq<u8>) -> Machine {
    Machine {
        mem: Seq::new(
            m.mem.len(),
            |i: int|
                if i == RESET_VECTOR {
                    0x00
                } else if i == RESET_VECTOR + 1 {
                    0x80
                } else if PROGRAM_BASE <= i < PROGRAM_BASE + prog.len() {
                    prog[i - PROGRAM_BASE]
                } else {
                    m.mem[i]
                },
        ),
        ..m
    }
}

/// The machine after a reset: registers and flags zeroed, the program
/// counter loaded from the reset vector, memory untouched.
pub open spec fn spec_reset(m: Machine) -> Machine {
    Machine {
        a: 0,
        x: 0,
        y: 0,
        status: 0,
        pc: word_at(m, RESET_VECTOR, (RESET_VECTOR + 1) as u16),
        mem: m.mem,
    }
}

} // verus!
