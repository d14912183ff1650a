//! The faults with which an operation of the machine can refuse to run.

use vstd::prelude::*;

verus! {

/// The ways in which an operation of the machine can refuse to run.
///
/// `InvalidInstruction` is the decode fault; the other variants are the
/// out-of-bounds faults. An operation that reports a fault leaves the machine
/// exactly as it found it.
#[derive(Debug, PartialEq, Eq, Clone, Copy, Structural)]
pub enum Fault {
    /// The fetched word, carried here, names no instruction.
    InvalidInstruction(u16),
    /// A call was made while all sixteen stack slots were in use.
    StackOverflow,
    /// A return was made while the stack was empty.
    StackUnderflow,
    /// A memory access would have left the 4096 addressable bytes.
    AddressOutOfBounds,
    /// A register named a key that the sixteen-key keypad does not have.
    KeyOutOfRange,
}

} // verus!
