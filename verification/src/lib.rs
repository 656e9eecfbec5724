//! A small virtual machine executing a fixed 16-bit instruction set over a
//! 4096-byte memory, a 64x32 monochrome framebuffer and two clock-driven countdown
//! timers. The host drives it one fetch-decode-execute step at a time and
//! supplies the keypad snapshot and the wall clock.

use vstd::prelude::*;

pub mod cpu;
pub mod gpu;
pub mod keypad;
pub mod laws;
pub mod timer;

verus! {

/// The fatal conditions a step or a load can report. Each one halts the
/// machine; defined wrapping arithmetic is never an error.
#[derive(Clone, Copy, Debug, PartialEq, Eq, Structural)]
pub enum EmuError {
    /// The fetched word matches no defined instruction pattern.
    Decode,
    /// A call would push a seventeenth return address.
    StackOverflow,
    /// A return was executed with no frame on the stack.
    StackUnderflow,
    /// The program counter or a block-transfer range runs past address 0xfff.
    MemoryBounds,
    /// A program image longer than the program region was handed to `load`.
    RomTooLarge,
}

} // verus!
