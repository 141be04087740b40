//! The core of a CHIP-8 virtual machine.
//!
//! - [`memory`]: the 4 KiB address space with range-checked access.
//! - [`instructions`]: the instruction set and the decoding of 16-bit words.
//! - [`display`]: the 64 by 32 framebuffer and the drawing of sprites.
//! - [`stack`]: the call stack.
//! - [`random`]: the pseudo-random source.
//! - [`machine`]: the machine as a mathematical value and the meaning of
//!   every operation on it.
//! - [`cpu`]: the processor, which fetches, decodes and executes.
//!
//! Loading programs, rendering, key events, sound and the pacing of cycles
//! and timers are left to the program that embeds the core.

pub mod cpu;
pub mod display;
pub mod instructions;
pub mod machine;
pub mod memory;
pub mod random;
pub mod stack;
