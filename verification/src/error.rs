//! The fatal conditions the execution loop can report.

use vstd::prelude::*;

verus! {

/// A condition on which execution stops because the program has left the
/// supported instruction subset.  None of these is recoverable: the loop
/// returns the error to the caller instead of guessing an intent.
#[derive(Clone, Copy, Debug, PartialEq, Eq, Structural)]
pub enum CpuError {
    /// The fetched byte has no entry in the opcode table.  Carries the
    /// offending byte.
    UnknownOpcode(u8),
    /// The effective-address resolver was reached with the `NoneAddressing`
    /// sentinel: an internal dispatch error, not a bad input program.
    UnsupportedAddressing,
    /// An instruction would touch the one 16-bit address that lies outside
    /// the 65535-byte memory.
    AddressOutOfRange,
}

} // verus!
