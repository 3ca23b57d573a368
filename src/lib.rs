//! A virtual machine for a small 8-bit instruction set: an instruction
//! decoder, a monochrome framebuffer with XOR sprite drawing, and the
//! execution engine that owns memory, registers, timers and the screen.

pub mod instruction;
pub mod display;
pub mod cpu;
pub mod keyboard;
pub mod theorems;
