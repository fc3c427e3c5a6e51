//! A CHIP-8 virtual machine core: memory, registers, stack, timers, keypad,
//! and a 64x32 monochrome framebuffer, driven by a fetch-decode-execute cycle
//! over the 35-instruction set.

use vstd::prelude::*;

pub mod cpu;
mod decode;
pub mod display;
pub mod font;
pub mod keys;
pub mod laws;
pub mod opcode;
mod rng;
pub mod semantics;

pub use cpu::{CpuError, CPU, FONTSET_START, MEMORY_SIZE, PROGRAM_ROM_START};
pub use display::PIXEL_COUNT;
pub use font::{build_fontset, fontset, FONTSET_LEN};
pub use keys::Key;
pub use opcode::{kk_of, n_of, nnn_of, x_of, y_of};

verus! {

/// Width of the emulated display in pixels.
pub const DISPLAY_WIDTH: usize = 64;

/// Height of the emulated display in pixels.
pub const DISPLAY_HEIGHT: usize = 32;

/// Byte size of the exported framebuffer: one RGB triplet per pixel, each
/// byte of a triplet carrying the same on/off value.
pub const DISPLAY_SIZE: usize = DISPLAY_HEIGHT * DISPLAY_WIDTH * 3;

} // verus!
