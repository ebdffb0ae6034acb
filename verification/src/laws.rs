//! Laws of the model, proved once and for all inputs.

use vstd::prelude::*;

use crate::machine::{
    byte_at, spec_resolve, spec_step, word_at, wrap_add16, wrap_add8, zn_status, Machine,
    FLAG_CARRY, FLAG_NEGATIVE, FLAG_OVERFLOW, FLAG_ZERO,
};
use crate::mode::AddressingMode;
use crate::opcode::{lemma_opcode_table_bytes, spec_opcode_lookup};

verus! {

/// After the shared zero/negative update, the Zero flag is set iff the
/// result byte is zero and the Negative flag is set iff its bit 7 is set,
/// for every of the 256 possible result bytes; Carry and Overflow are left
/// exactly as they were.
pub proof fn lemma_flag_law(status: u8, result: u8)
    by (bit_vector)
    ensures
        zn_status(status, result) & FLAG_ZERO != 0 <==> result == 0,
        zn_status(status, result) & FLAG_NEGATIVE != 0 <==> result & 0x80 != 0,
        zn_status(status, result) & (FLAG_CARRY | FLAG_OVERFLOW) == status & (FLAG_CARRY
            | FLAG_OVERFLOW),
{
}

/// Every indexed or indirect addressing mode wraps its address arithmetic
/// at the width it works in: the zero-page-indexed modes and the indirect
/// pointer increments wrap modulo 256, the absolute-indexed modes and the
/// post-indexed Y addition wrap modulo 65536.
pub proof fn lemma_resolver_wraps(m: Machine)
    ensures
        spec_resolve(m, AddressingMode::ZeroPage_X) == (byte_at(m, m.pc) + m.x) % 256,
        spec_resolve(m, AddressingMode::ZeroPage_Y) == (byte_at(m, m.pc) + m.y) % 256,
        spec_resolve(m, AddressingMode::Absolute_X) == (word_at(m, m.pc, (m.pc + 1) as u16)
            + m.x) % 0x10000,
        spec_resolve(m, AddressingMode::Absolute_Y) == (word_at(m, m.pc, (m.pc + 1) as u16)
            + m.y) % 0x10000,
        spec_resolve(m, AddressingMode::Indirect_X) == word_at(
            m,
            ((byte_at(m, m.pc) + m.x) % 256) as u16,
            ((byte_at(m, m.pc) + m.x + 1) % 256) as u16,
        ),
        spec_resolve(m, AddressingMode::Indirect_Y) == (word_at(
            m,
            byte_at(m, m.pc) as u16,
            ((byte_at(m, m.pc) + 1) % 256) as u16,
        ) + m.y) % 0x10000,
{
    assert(forall|p: u8, q: u8| #[trigger] wrap_add8(p, q) == (p + q) % 256);
    assert(forall|p: u16, q: u16| #[trigger] wrap_add16(p, q) == (p + q) % 0x10000);
    assert(((byte_at(m, m.pc) + m.x) % 256 + 1) % 256 == (byte_at(m, m.pc) + m.x + 1) % 256);
}

/// The break opcode halts the loop with no effect beyond what earlier
/// instructions already did: registers, flags and memory stay exactly as
/// they were, and the program counter has only advanced over the opcode
/// byte itself.
pub proof fn lemma_brk_halts(m: Machine)
    requires
        m.pc < 0xFFFF,
        byte_at(m, m.pc) == 0x00,
    ensures
        spec_step(m).halted,
        spec_step(m).fault is None,
        spec_step(m).post.a == m.a,
        spec_step(m).post.x == m.x,
        spec_step(m).post.y == m.y,
        spec_step(m).post.status == m.status,
        spec_step(m).post.mem == m.mem,
        spec_step(m).post.pc == m.pc + 1,
{
}

/// Program-counter advancement: a step that neither halts nor faults moves
/// the program counter forward by exactly the decoded instruction's byte
/// length — by 1 for a single-byte instruction, 2 for an immediate-mode
/// instruction, 3 for an absolute-mode one.  In particular it strictly
/// increases, so every program halts or faults within memory's bounds.
pub proof fn lemma_step_pc_advance(m: Machine)
    requires
        spec_step(m).fault is None,
        !spec_step(m).halted,
    ensures
        spec_opcode_lookup(byte_at(m, m.pc)) matches Option::Some(op) ==> spec_step(m).post.pc
            == m.pc + op.bytes,
        spec_step(m).post.pc > m.pc,
{
    lemma_opcode_table_bytes();
}

} // verus!
