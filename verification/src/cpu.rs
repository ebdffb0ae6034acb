//! The CPU core: the register file, the owned memory, the effective-address
//! resolver and the fetch-decode-execute loop.
//!
//! Every method's contract is stated over the ghost [`Machine`] state that
//! [`View`] extracts; the loop itself is proved to follow
//! [`crate::machine::spec_step`] exactly, step by step.

use vstd::pervasive::VecAdditionalExecFns;
use vstd::prelude::*;

use crate::error::CpuError;
use crate::machine::{
    byte_at, le_word, resolver_reads_ok, run_faults, run_halts, running_through, runs, spec_add_a,
    spec_load, spec_reset, spec_resolve, spec_step, spec_try_addr, with_zn, wrap_dec, wrap_inc,
    Machine, FLAG_CARRY, FLAG_NEGATIVE, FLAG_OVERFLOW, FLAG_ZERO, MEMORY_SIZE, PROGRAM_BASE,
    RESET_VECTOR,
};
use crate::mode::AddressingMode;
use crate::opcode::{lemma_opcode_table_bytes, opcode_lookup, Mnemonic};

verus! {

/// The processor: accumulator, two index registers, status flags, the
/// program counter, and the flat byte memory it exclusively owns.
pub struct CPU {
    pub register_a: u8,
    pub register_x: u8,
    pub register_y: u8,
    pub status: u8,
    pub program_counter: u16,
    memory: Vec<u8>,
}

impl View for CPU {
    type V = Machine;

    closed spec fn view(&self) -> Machine {
        Machine {
            a: self.register_a,
            x: self.register_x,
            y: self.register_y,
            status: self.status,
            pc: self.program_counter,
            mem: self.memory@,
        }
    }
}

impl CPU {
    /// The struct's invariant: memory spans exactly `MEMORY_SIZE` bytes, so
    /// every address below `MEMORY_SIZE` is readable and writable.
    pub closed spec fn wf(&self) -> bool {
        self.memory@.len() == MEMORY_SIZE
    }

    /// A processor with zeroed registers, a zeroed program counter and
    /// zeroed memory.
    pub fn new() -> (r: CPU)
        ensures
            r.wf(),
            r@.a == 0,
            r@.x == 0,
            r@.y == 0,
            r@.status == 0,
            r@.pc == 0,
            forall|i: int| 0 <= i < MEMORY_SIZE ==> r@.mem[i] == 0,
    {
        let mut memory: Vec<u8> = Vec::new();
        while memory.len() < MEMORY_SIZE
            invariant
                memory@.len() <= MEMORY_SIZE,
                forall|i: int| 0 <= i < memory@.len() ==> memory@[i] == 0,
            decreases MEMORY_SIZE - memory@.len(),
        {
            memory.push(0);
        }
        CPU {
            register_a: 0,
            register_x: 0,
            register_y: 0,
            status: 0,
            program_counter: 0,
            memory,
        }
    }

    /// Reads the byte at `addr`, with no side effect.
    pub fn mem_read(&self, addr: u16) -> (r: u8)
        requires
            self.wf(),
            addr < MEMORY_SIZE,
        ensures
            r == byte_at(self@, addr),
    {
        self.memory[addr as usize]
    }

    /// Stores a byte at `addr`, overwriting the prior contents; no other
    /// state changes.
    pub fn mem_write(&mut self, addr: u16, data: u8)
        requires
            old(self).wf(),
            addr < MEMORY_SIZE,
        ensures
            final(self).wf(),
            final(self)@ == (Machine { mem: old(self)@.mem.update(addr as int, data), ..old(self)@ }),
    {
        self.memory.set(addr as usize, data);
    }

    /// Reads the little-endian 16-bit word whose low byte sits at `pos`.
    fn mem_read_u16(&self, pos: u16) -> (r: u16)
        requires
            self.wf(),
            pos + 1 < MEMORY_SIZE,
        ensures
            r == le_word(byte_at(self@, pos), byte_at(self@, (pos + 1) as u16)),
    {
        let lo: u16 = self.mem_read(pos) as u16;
        let hi: u16 = self.mem_read(pos + 1) as u16;
        proof {
            assert((hi << 8) | lo == lo + 256 * hi) by (bit_vector)
                requires
                    lo < 256 && hi < 256,
            ;
        }
        (hi << 8) | lo
    }

    /// Stores a 16-bit word little-endian: low byte at `pos`, high byte at
    /// `pos + 1`.
    fn mem_write_u16(&mut self, pos: u16, data: u16)
        requires
            old(self).wf(),
            pos + 1 < MEMORY_SIZE,
        ensures
            final(self).wf(),
            final(self)@ == (Machine {
                mem: old(self)@.mem.update(pos as int, (data & 0xFF) as u8).update(
                    pos + 1,
                    (data >> 8) as u8,
                ),
                ..old(self)@
            }),
    {
        let hi: u8 = (data >> 8) as u8;
        let lo: u8 = (data & 0xff) as u8;
        self.mem_write(pos, lo);
        self.mem_write(pos + 1, hi);
    }

    /// The effective address for `mode`, read from the operand bytes at the
    /// program counter (which this resolver does not advance).  The sentinel
    /// `NoneAddressing` must never reach it.
    pub fn get_operand_address(&self, mode: &AddressingMode) -> (r: u16)
        requires
            self.wf(),
            !(*mode is NoneAddressing),
            resolver_reads_ok(self@, *mode),
        ensures
            r == spec_resolve(self@, *mode),
    {
        match mode {
            AddressingMode::Immediate => self.program_counter,
            AddressingMode::ZeroPage => self.mem_read(self.program_counter) as u16,
            AddressingMode::Absolute => self.mem_read_u16(self.program_counter),
            AddressingMode::ZeroPage_X => {
                let pos: u8 = self.mem_read(self.program_counter);
                pos.wrapping_add(self.register_x) as u16
            },
            AddressingMode::ZeroPage_Y => {
                let pos: u8 = self.mem_read(self.program_counter);
                pos.wrapping_add(self.register_y) as u16
            },
            AddressingMode::Absolute_X => {
                let base: u16 = self.mem_read_u16(self.program_counter);
                base.wrapping_add(self.register_x as u16)
            },
            AddressingMode::Absolute_Y => {
                let base: u16 = self.mem_read_u16(self.program_counter);
                base.wrapping_add(self.register_y as u16)
            },
            AddressingMode::Indirect_X => {
                let base: u8 = self.mem_read(self.program_counter);
                let ptr: u8 = base.wrapping_add(self.register_x);
                let lo: u8 = self.mem_read(ptr as u16);
                let hi: u8 = self.mem_read(ptr.wrapping_add(1) as u16);
                proof {
                    assert(((hi as u16) << 8) | (lo as u16) == lo + 256 * hi) by (bit_vector);
                }
                ((hi as u16) << 8) | (lo as u16)
            },
            AddressingMode::Indirect_Y => {
                let base: u8 = self.mem_read(self.program_counter);
                let lo: u8 = self.mem_read(base as u16);
                let hi: u8 = self.mem_read(base.wrapping_add(1) as u16);
                proof {
                    assert(((hi as u16) << 8) | (lo as u16) == lo + 256 * hi) by (bit_vector);
                }
                let deref_base: u16 = ((hi as u16) << 8) | (lo as u16);
                deref_base.wrapping_add(self.register_y as u16)
            },
            AddressingMode::NoneAddressing => vstd::pervasive::unreached(),
        }
    }

    /// The operand byte for `mode`: the byte of memory at the effective
    /// address.
    pub fn get_value(&self, mode: &AddressingMode) -> (r: u8)
        requires
            self.wf(),
            !(*mode is NoneAddressing),
            resolver_reads_ok(self@, *mode),
            spec_resolve(self@, *mode) < MEMORY_SIZE,
        ensures
            r == byte_at(self@, spec_resolve(self@, *mode)),
    {
        let addr: u16 = self.get_operand_address(mode);
        self.mem_read(addr)
    }

    /// Copies the program into memory at `PROGRAM_BASE` and stores that base
    /// address little-endian at the reset vector.
    pub fn load(&mut self, program: Vec<u8>)
        requires
            old(self).wf(),
            PROGRAM_BASE + program@.len() <= MEMORY_SIZE,
        ensures
            final(self).wf(),
            final(self)@ == spec_load(old(self)@, program@),
    {
        let mut i: usize = 0;
        while i < program.len()
            invariant
                self.wf(),
                PROGRAM_BASE + program@.len() <= MEMORY_SIZE,
                0 <= i <= program@.len(),
                self@.a == old(self)@.a,
                self@.x == old(self)@.x,
                self@.y == old(self)@.y,
                self@.status == old(self)@.status,
                self@.pc == old(self)@.pc,
                forall|j: int|
                    0 <= j < MEMORY_SIZE ==> self@.mem[j] == (if PROGRAM_BASE <= j < PROGRAM_BASE
                        + i {
                        program@[j - PROGRAM_BASE]
                    } else {
                        old(self)@.mem[j]
                    }),
            decreases program@.len() - i,
        {
            self.mem_write(PROGRAM_BASE + (i as u16), program[i]);
            i = i + 1;
        }
        self.mem_write_u16(RESET_VECTOR, PROGRAM_BASE);
        proof {
            assert((PROGRAM_BASE & 0xFF) as u8 == 0 && (PROGRAM_BASE >> 8) as u8 == 0x80)
                by (bit_vector);
            assert(self@.mem =~= spec_load(old(self)@, program@).mem);
        }
    }

    /// Zeroes the registers and the flags and loads the program counter from
    /// the little-endian word at the reset vector.  Memory is untouched.
    pub fn reset(&mut self)
        requires
            old(self).wf(),
        ensures
            final(self).wf(),
            final(self)@ == spec_reset(old(self)@),
    {
        self.register_a = 0;
        self.register_x = 0;
        self.register_y = 0;
        self.status = 0;
        self.program_counter = self.mem_read_u16(RESET_VECTOR);
    }

    /// Sets the Zero flag iff `result` is zero and the Negative flag iff its
    /// bit 7 is set; every other status bit is left alone.
    fn update_zero_and_negative_flags(&mut self, result: u8)
        ensures
            final(self)@ == with_zn(old(self)@, result),
    {
        if result == 0 {
            self.status = self.status | FLAG_ZERO;
        } else {
            self.status = self.status & !FLAG_ZERO;
        }
        if result & 0x80 != 0 {
            self.status = self.status | FLAG_NEGATIVE;
        } else {
            self.status = self.status & !FLAG_NEGATIVE;
        }
    }

    /// Stores a register's value at the effective address a store
    /// instruction resolved.
    fn write_reg(&mut self, addr: u16, reg: u8)
        requires
            old(self).wf(),
            addr < MEMORY_SIZE,
        ensures
            final(self).wf(),
            final(self)@ == (Machine { mem: old(self)@.mem.update(addr as int, reg), ..old(self)@ }),
    {
        self.mem_write(addr, reg);
    }

    /// The accumulator adder: adds `value` to the accumulator ignoring any
    /// incoming carry, producing carry-out, signed overflow and the
    /// zero/negative flags.
    fn add_to_reg_a(&mut self, value: u8)
        ensures
            final(self)@ == spec_add_a(old(self)@, value),
    {
        let mut sum: u16 = (self.register_a as u16) + (value as u16);
        if sum > 0xFF {
            sum = sum - 256;
            self.status = self.status | FLAG_CARRY;
        } else {
            self.status = self.status & !FLAG_CARRY;
        }
        let result: u8 = sum as u8;
        if (value ^ result) & (result ^ self.register_a) & 0x80 != 0 {
            self.status = self.status | FLAG_OVERFLOW;
        } else {
            self.status = self.status & !FLAG_OVERFLOW;
        }
        self.register_a = result;
        self.update_zero_and_negative_flags(result);
    }

    /// Add-with-carry on a fetched operand (carry-in is not consumed).
    fn adc(&mut self, value: u8)
        ensures
            final(self)@ == spec_add_a(old(self)@, value),
    {
        self.add_to_reg_a(value);
    }

    /// Subtract-with-carry: add-with-carry on the two's-complement negation
    /// of the operand minus one, which is `255 - value`.
    fn sbc(&mut self, value: u8)
        ensures
            final(self)@ == spec_add_a(old(self)@, (255 - value) as u8),
    {
        self.add_to_reg_a(255 - value);
    }

    /// Loads the accumulator and updates the zero/negative flags.
    fn lda(&mut self, value: u8)
        ensures
            final(self)@ == with_zn(Machine { a: value, ..old(self)@ }, value),
    {
        self.register_a = value;
        self.update_zero_and_negative_flags(self.register_a);
    }

    /// Loads index X and updates the zero/negative flags.
    fn ldx(&mut self, value: u8)
        ensures
            final(self)@ == with_zn(Machine { x: value, ..old(self)@ }, value),
    {
        self.register_x = value;
        self.update_zero_and_negative_flags(self.register_x);
    }

    /// Loads index Y and updates the zero/negative flags.
    fn ldy(&mut self, value: u8)
        ensures
            final(self)@ == with_zn(Machine { y: value, ..old(self)@ }, value),
    {
        self.register_y = value;
        self.update_zero_and_negative_flags(self.register_y);
    }

    /// Transfers the accumulator to index X; flags follow the transferred
    /// value.
    fn tax(&mut self)
        ensures
            final(self)@ == with_zn(Machine { x: old(self)@.a, ..old(self)@ }, old(self)@.a),
    {
        self.register_x = self.register_a;
        self.update_zero_and_negative_flags(self.register_x);
    }

    /// Transfers index X to the accumulator; flags follow the source
    /// register's value.
    fn txa(&mut self)
        ensures
            final(self)@ == with_zn(Machine { a: old(self)@.x, ..old(self)@ }, old(self)@.x),
    {
        self.register_a = self.register_x;
        self.update_zero_and_negative_flags(self.register_x);
    }

    /// Transfers the accumulator to index Y; flags follow the transferred
    /// value.
    fn tay(&mut self)
        ensures
            final(self)@ == with_zn(Machine { y: old(self)@.a, ..old(self)@ }, old(self)@.a),
    {
        self.register_y = self.register_a;
        self.update_zero_and_negative_flags(self.register_y);
    }

    /// Transfers index Y to the accumulator; flags follow the source
    /// register's value.
    fn tya(&mut self)
        ensures
            final(self)@ == with_zn(Machine { a: old(self)@.y, ..old(self)@ }, old(self)@.y),
    {
        self.register_a = self.register_y;
        self.update_zero_and_negative_flags(self.register_y);
    }

    /// Increments index X, 255 wrapping to 0, and updates the zero/negative
    /// flags.
    fn inx(&mut self)
        ensures
            final(self)@ == with_zn(
                Machine { x: wrap_inc(old(self)@.x), ..old(self)@ },
                wrap_inc(old(self)@.x),
            ),
    {
        if self.register_x == 255 {
            self.register_x = 0;
        } else {
            self.register_x = self.register_x + 1;
        }
        self.update_zero_and_negative_flags(self.register_x);
    }

    /// Decrements index X, 0 wrapping to 255, and updates the zero/negative
    /// flags.
    fn dex(&mut self)
        ensures
            final(self)@ == with_zn(
                Machine { x: wrap_dec(old(self)@.x), ..old(self)@ },
                wrap_dec(old(self)@.x),
            ),
    {
        if self.register_x == 0 {
            self.register_x = 255;
        } else {
            self.register_x = self.register_x - 1;
        }
        self.update_zero_and_negative_flags(self.register_x);
    }

    /// Increments index Y, 255 wrapping to 0, and updates the zero/negative
    /// flags.
    fn iny(&mut self)
        ensures
            final(self)@ == with_zn(
                Machine { y: wrap_inc(old(self)@.y), ..old(self)@ },
                wrap_inc(old(self)@.y),
            ),
    {
        if self.register_y == 255 {
            self.register_y = 0;
        } else {
            self.register_y = self.register_y + 1;
        }
        self.update_zero_and_negative_flags(self.register_y);
    }

    /// Decrements index Y, 0 wrapping to 255, and updates the zero/negative
    /// flags.
    fn dey(&mut self)
        ensures
            final(self)@ == with_zn(
                Machine { y: wrap_dec(old(self)@.y), ..old(self)@ },
                wrap_dec(old(self)@.y),
            ),
    {
        if self.register_y == 0 {
            self.register_y = 255;
        } else {
            self.register_y = self.register_y - 1;
        }
        self.update_zero_and_negative_flags(self.register_y);
    }

    /// Bitwise AND of the accumulator with a fetched operand; zero/negative
    /// flags follow the result.
    fn and(&mut self, value: u8)
        ensures
            final(self)@ == with_zn(
                Machine { a: old(self)@.a & value, ..old(self)@ },
                old(self)@.a & value,
            ),
    {
        self.register_a = self.register_a & value;
        self.update_zero_and_negative_flags(self.register_a);
    }

    /// Bitwise OR of the accumulator with a fetched operand; zero/negative
    /// flags follow the result.
    fn ora(&mut self, value: u8)
        ensures
            final(self)@ == with_zn(
                Machine { a: old(self)@.a | value, ..old(self)@ },
                old(self)@.a | value,
            ),
    {
        self.register_a = self.register_a | value;
        self.update_zero_and_negative_flags(self.register_a);
    }

    /// The checked effective address for an executing instruction: the
    /// sentinel mode is an internal dispatch error, and an address is handed
    /// out only when the operand bytes and the address itself lie inside
    /// memory.
    fn try_operand_addr(&self, mode: &AddressingMode) -> (r: Result<u16, CpuError>)
        requires
            self.wf(),
        ensures
            r == spec_try_addr(self@, *mode),
    {
        match mode {
            AddressingMode::NoneAddressing => Result::Err(CpuError::UnsupportedAddressing),
            _ => {
                let reads_ok: bool = match mode {
                    AddressingMode::Immediate => true,
                    AddressingMode::Absolute
                    | AddressingMode::Absolute_X
                    | AddressingMode::Absolute_Y => self.program_counter < 0xFFFE,
                    _ => self.program_counter < 0xFFFF,
                };
                if !reads_ok {
                    Result::Err(CpuError::AddressOutOfRange)
                } else {
                    let addr: u16 = self.get_operand_address(mode);
                    if addr >= 0xFFFF {
                        Result::Err(CpuError::AddressOutOfRange)
                    } else {
                        Result::Ok(addr)
                    }
                }
            },
        }
    }

    /// One fetch-decode-execute step.  Returns `Ok(true)` when the break
    /// opcode was decoded and the loop should halt, `Ok(false)` to continue,
    /// and an error for the fatal conditions.  The state change is exactly
    /// the one [`spec_step`] gives.
    pub fn step(&mut self) -> (r: Result<bool, CpuError>)
        requires
            old(self).wf(),
        ensures
            final(self).wf(),
            ({
                let sr = spec_step(old(self)@);
                match r {
                    Result::Ok(halted) => sr.fault is None && halted == sr.halted && final(self)@
                        == sr.post,
                    Result::Err(e) => sr.fault == Option::Some(e) && final(self)@ == sr.post,
                }
            }),
    {
        if self.program_counter >= 0xFFFF {
            return Result::Err(CpuError::AddressOutOfRange);
        }
        let code: u8 = self.mem_read(self.program_counter);
        self.program_counter = self.program_counter + 1;
        let op = match opcode_lookup(code) {
            Option::None => {
                return Result::Err(CpuError::UnknownOpcode(code));
            },
            Option::Some(op) => op,
        };
        proof {
            lemma_opcode_table_bytes();
        }
        let pc_before: u16 = self.program_counter;
        match op.mnemonic {
            Mnemonic::BRK => {
                return Result::Ok(true);
            },
            Mnemonic::NOP => {},
            Mnemonic::TAX => self.tax(),
            Mnemonic::TAY => self.tay(),
            Mnemonic::TXA => self.txa(),
            Mnemonic::TYA => self.tya(),
            Mnemonic::INX => self.inx(),
            Mnemonic::INY => self.iny(),
            Mnemonic::DEX => self.dex(),
            Mnemonic::DEY => self.dey(),
            Mnemonic::LDA => {
                let addr: u16 = match self.try_operand_addr(&op.mode) {
                    Result::Ok(a) => a,
                    Result::Err(e) => {
                        return Result::Err(e);
                    },
                };
                let v: u8 = self.mem_read(addr);
                self.lda(v);
            },
            Mnemonic::LDX => {
                let addr: u16 = match self.try_operand_addr(&op.mode) {
                    Result::Ok(a) => a,
                    Result::Err(e) => {
                        return Result::Err(e);
                    },
                };
                let v: u8 = self.mem_read(addr);
                self.ldx(v);
            },
            Mnemonic::LDY => {
                let addr: u16 = match self.try_operand_addr(&op.mode) {
                    Result::Ok(a) => a,
                    Result::Err(e) => {
                        return Result::Err(e);
                    },
                };
                let v: u8 = self.mem_read(addr);
                self.ldy(v);
            },
            Mnemonic::STA => {
                let addr: u16 = match self.try_operand_addr(&op.mode) {
                    Result::Ok(a) => a,
                    Result::Err(e) => {
                        return Result::Err(e);
                    },
                };
                self.write_reg(addr, self.register_a);
            },
            Mnemonic::STX => {
                let addr: u16 = match self.try_operand_addr(&op.mode) {
                    Result::Ok(a) => a,
                    Result::Err(e) => {
                        return Result::Err(e);
                    },
                };
                self.write_reg(addr, self.register_x);
            },
            Mnemonic::STY => {
                let addr: u16 = match self.try_operand_addr(&op.mode) {
                    Result::Ok(a) => a,
                    Result::Err(e) => {
                        return Result::Err(e);
                    },
                };
                self.write_reg(addr, self.register_y);
            },
            Mnemonic::AND => {
                let addr: u16 = match self.try_operand_addr(&op.mode) {
                    Result::Ok(a) => a,
                    Result::Err(e) => {
                        return Result::Err(e);
                    },
                };
                let v: u8 = self.mem_read(addr);
                self.and(v);
            },
            Mnemonic::ORA => {
                let addr: u16 = match self.try_operand_addr(&op.mode) {
                    Result::Ok(a) => a,
                    Result::Err(e) => {
                        return Result::Err(e);
                    },
                };
                let v: u8 = self.mem_read(addr);
                self.ora(v);
            },
            Mnemonic::EOR => {
                let addr: u16 = match self.try_operand_addr(&op.mode) {
                    Result::Ok(a) => a,
                    Result::Err(e) => {
                        return Result::Err(e);
                    },
                };
                let v: u8 = self.mem_read(addr);
                self.eor(v);
            },
            Mnemonic::ADC => {
                let addr: u16 = match self.try_operand_addr(&op.mode) {
                    Result::Ok(a) => a,
                    Result::Err(e) => {
                        return Result::Err(e);
                    },
                };
                let v: u8 = self.mem_read(addr);
                self.adc(v);
            },
            Mnemonic::SBC => {
                let addr: u16 = match self.try_operand_addr(&op.mode) {
                    Result::Ok(a) => a,
                    Result::Err(e) => {
                        return Result::Err(e);
                    },
                };
                let v: u8 = self.mem_read(addr);
                self.sbc(v);
            },
        }
        if pc_before == self.program_counter {
            self.program_counter = self.program_counter + ((op.bytes - 1) as u16);
        }
        Result::Ok(false)
    }

    /// The fetch-decode-execute loop: steps until the break opcode halts it
    /// or a fatal condition stops it.  On `Ok` the final state is the one
    /// some halting step sequence of [`spec_step`] yields from the starting
    /// state; on `Err` the sequence ends in the returned fatal condition.
    pub fn run(&mut self) -> (r: Result<(), CpuError>)
        requires
            old(self).wf(),
        ensures
            final(self).wf(),
            match r {
                Result::Ok(_) => run_halts(old(self)@, final(self)@),
                Result::Err(e) => run_faults(old(self)@, final(self)@, e),
            },
    {
        let ghost m0: Machine = self@;
        let ghost mut n: nat = 0;
        loop
            invariant
                self.wf(),
                m0 == old(self)@,
                running_through(m0, n),
                self@ == runs(m0, n),
            decreases 0x10000 - self.program_counter,
        {
            let ghost pre: Machine = self@;
            let res: Result<bool, CpuError> = self.step();
            match res {
                Result::Ok(true) => {
                    proof {
                        assert(running_through(m0, n) && spec_step(runs(m0, n)).halted
                            && spec_step(runs(m0, n)).fault is None && self@ == spec_step(
                            runs(m0, n),
                        ).post);
                    }
                    return Result::Ok(());
                },
                Result::Ok(false) => {
                    proof {
                        crate::laws::lemma_step_pc_advance(pre);
                        assert(runs(m0, n + 1) == spec_step(runs(m0, n)).post);
                        assert(running_through(m0, n + 1));
                        n = n + 1;
                    }
                },
                Result::Err(e) => {
                    proof {
                        assert(running_through(m0, n) && spec_step(runs(m0, n)).fault
                            == Option::Some(e) && self@ == spec_step(runs(m0, n)).post);
                    }
                    return Result::Err(e);
                },
            }
        }
    }

    /// Loads a program, resets, and runs it to the break opcode.
    pub fn load_and_run(&mut self, program: Vec<u8>) -> (r: Result<(), CpuError>)
        requires
            old(self).wf(),
            PROGRAM_BASE + program@.len() <= MEMORY_SIZE,
        ensures
            final(self).wf(),
            ({
                let started = spec_reset(spec_load(old(self)@, program@));
                match r {
                    Result::Ok(_) => run_halts(started, final(self)@),
                    Result::Err(e) => run_faults(started, final(self)@, e),
                }
            }),
    {
        self.load(program);
        self.reset();
        self.run()
    }

    /// Bitwise XOR of the accumulator with a fetched operand; zero/negative
    /// flags follow the result.
    fn eor(&mut self, value: u8)
        ensures
            final(self)@ == with_zn(
                Machine { a: old(self)@.a ^ value, ..old(self)@ },
                old(self)@.a ^ value,
            ),
    {
        self.register_a = self.register_a ^ value;
        self.update_zero_and_negative_flags(self.register_a);
    }
}

} // verus!
