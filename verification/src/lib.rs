//! A verified interpreter for a small 8-bit virtual machine in the style of
//! the classic CHIP-8 architecture: a 4 KiB address space, sixteen 8-bit
//! registers, a 16-level call stack, two countdown timers, a 64x32 monochrome
//! framebuffer and a 16-key hex keypad.

pub mod display;
pub mod error;
pub mod instruction;
pub mod keyboard;
pub mod machine;
pub mod memory;
pub mod platform;
pub mod program;
pub mod render;
mod rng;
