//! A CHIP-8 virtual machine: a fetch-decode-execute engine over a small,
//! explicit machine state (registers, memory, call stack, counters, timers)
//! that drives a monochrome 64x32 framebuffer through an XOR sprite-drawing
//! protocol with collision detection.

use vstd::prelude::*;

pub mod bits;
pub mod cpu;
pub mod decode;
pub mod display;
pub mod laws;
pub mod semantics;

verus! {

/// The ways an operation of the machine can fail.
///
/// Every failure is returned to the driver, never logged and swallowed:
/// an invalid opcode is a fault of the loaded program, a stack fault marks a
/// malformed program, an out-of-range pixel marks an internal defect, and a
/// load error rejects an image that does not fit in memory.
#[derive(Debug, Clone, Copy, PartialEq, Eq, Structural)]
pub enum Error {
    /// The decoded opcode matches no defined pattern.
    InvalidOpcode(u16),
    /// A call was made with the call stack already full.
    StackOverflow,
    /// A return was executed with an empty stack.
    StackUnderflow,
    /// A framebuffer coordinate outside the 64x32 grid was addressed.
    OutOfRangePixel,
    /// A program image too large for the memory above the program origin.
    LoadError,
}

} // verus!
