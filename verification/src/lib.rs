//! Core of a MOS 6502 fantasy-console emulator: a cycle-counting CPU
//! interpreter with documented-opcode coverage, an address bus that routes
//! 16-bit addresses to attached peripherals and mirrors every write into a
//! shadow image, a console layer with memory-mapped input/entropy/video
//! registers, and the token scanners of the companion assembler.
//!
//! Every executable function carries a contract; the instruction semantics
//! are stated against a pure interpreter over ghost views of the machine.

use vstd::prelude::*;

pub mod bus;
pub mod cpu;
pub mod emu;
pub mod flags;
pub mod host;
pub mod laws;
pub mod lex;
pub mod opcode;
pub mod rand;
pub mod ram;

verus! {

/// A failure surfaced by one CPU step.
#[derive(Debug, Clone, Copy, PartialEq, Eq, Structural)]
pub enum Error {
    /// The fetched byte decodes to no documented instruction.
    UnrecognizedOpcode(u8),
}

} // verus!
