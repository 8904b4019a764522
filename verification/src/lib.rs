//! A verified CHIP-8 interpreter core: a 4 KB memory, a 16-register CPU with a
//! 16-deep call stack, a 64x32 monochrome framebuffer, two countdown timers,
//! and the 35-entry opcode decode/execute table.
//!
//! The surrounding terminal UI, keyboard handling and ROM file loading are not
//! part of this library: the interpreter consumes plain values (a key bitmask,
//! a random byte, ROM bytes) and exposes the resulting machine state.

pub mod addr;
pub mod cpu;
pub mod emu;
pub mod gpu;
pub mod iset;
pub mod laws;
pub mod mem;
pub mod state;
pub mod timer;
