//! The ways in which a program can bring the machine to a stop.

use vstd::prelude::*;

use crate::mem::Mem;

verus! {

/// A fatal fault. None of them can be recovered from: the machine halts
/// where it stands, and memory and framebuffer keep what they held.
#[derive(Debug, Clone, Copy, PartialEq)]
pub enum Fault {
    /// The header holds a byte that is no directive (`Some`), or ends
    /// before its terminator or in the middle of a title (`None`).
    MalformedHeader(Option<u8>),
    /// The header asks for the alternative palette, which does not exist.
    NotImplemented,
    /// An instruction needs another operand and the body has no byte left.
    UnexpectedEndOfProgram,
    /// The byte is no opcode.
    UnknownOpcode(u8),
    /// The cell holds a value of the wrong type for the instruction.
    TypeMismatch(Mem),
    /// The byte is no colour code.
    UnknownColorCode(u8),
    /// The byte is no key code.
    UnknownKeyCode(u8),
    /// The byte is no type tag of a literal.
    UnknownTypeTag(u8),
    /// An array was written at an index beyond its eight slots.
    IndexOutOfRange(u8),
    /// An integer was divided by zero.
    DivisionByZero,
    /// The least integer was divided by -1: the quotient is no integer of
    /// the machine.
    DivisionOverflow,
    /// The byte addresses no memory cell.
    AddressOutOfRange(u8),
    /// A pixel was written outside the framebuffer.
    PixelOutOfRange,
    /// The host reported an event that answers no request of the machine.
    UnexpectedEvent,
}

} // verus!
