//! A verified instruction-execution core for the MOS 6502 family.
//!
//! The crate models a flat 16-bit-addressed byte memory, a small register
//! file, an addressing-mode resolver and a fetch-decode-execute loop for the
//! load/store, transfer, increment/decrement, logical and
//! add/subtract-with-carry instruction families.  Every executable function
//! carries a contract stated over the mathematical machine state in
//! [`machine`], and the fetch-decode-execute loop is proved to follow the
//! single-step transition function exactly.

pub mod cpu;
pub mod error;
pub mod laws;
pub mod machine;
pub mod mode;
pub mod opcode;
