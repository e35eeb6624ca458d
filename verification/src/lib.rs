//! A small fantasy console: a byte-coded virtual machine with 255 typed
//! memory cells and a 255x255 framebuffer.
//!
//! The machine is a deterministic state machine. It never touches a
//! window, a keyboard or a floating-point unit itself: whenever it needs
//! one of them it hands an [`machine::Action`] to its host and continues
//! from the [`machine::Event`] that the host reports back.

use vstd::prelude::*;

pub mod binary64;
pub mod bytecode;
pub mod color;
pub mod cpu;
pub mod fault;
pub mod header;
pub mod instr;
pub mod key;
pub mod laws;
pub mod machine;
pub mod mem;

verus! {

/// Width of the framebuffer, in pixels.
pub const WIDTH: usize = 255;

/// Height of the framebuffer, in pixels.
pub const HEIGHT: usize = 255;

/// Number of pixels in the framebuffer.
pub const RES: usize = 65025;

/// Number of cells in the memory bank.
pub const CELLS: usize = 255;

} // verus!
