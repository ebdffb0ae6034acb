//! The addressing modes an instruction can use to designate its operand.

use vstd::prelude::*;

verus! {

/// How an instruction's operand address is computed.  `NoneAddressing` is the
/// sentinel for implicit-operand instructions (register transfers, increments
/// and the like); it must never reach the effective-address resolver.
#[derive(Clone, Copy, Debug, PartialEq, Eq, Structural)]
#[allow(non_camel_case_types)]
pub enum AddressingMode {
    Immediate,
    ZeroPage,
    ZeroPage_X,
    ZeroPage_Y,
    Absolute,
    Absolute_X,
    Absolute_Y,
    Indirect_X,
    Indirect_Y,
    NoneAddressing,
}

} // verus!
