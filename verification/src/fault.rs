//! The errors that stop the machine.
//!
//! None of them is recoverable: whoever drives the machine reports the fault
//! and halts.

use vstd::prelude::*;

verus! {

/// An instruction word that matches no entry of the instruction table.
#[derive(Debug, Clone, Copy, PartialEq, Eq, Structural)]
pub struct DecodeError {
    /// The offending word, as fetched.
    pub word: u16,
}

/// A fault raised while fetching, decoding or executing one instruction.
#[derive(Debug, Clone, Copy, PartialEq, Eq, Structural)]
pub enum Fault {
    /// The fetched word is not an instruction.
    Decode(DecodeError),
    /// A subroutine call found the call stack full.
    StackOverflow,
    /// A subroutine return found the call stack empty.
    StackUnderflow,
    /// An access outside memory or the key latch, or a program counter that
    /// cannot be advanced.
    Address,
}

/// A program image that cannot be placed in memory.
#[derive(Debug, Clone, Copy, PartialEq, Eq, Structural)]
pub enum LoadFault {
    /// The image does not fit between the load address and the end of memory.
    ImageTooLarge,
    /// Fewer or more bytes were read than the source said it holds.
    SizeMismatch,
}

} // verus!
