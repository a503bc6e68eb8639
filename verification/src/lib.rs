//! Instruction-execution core of an 8-bit handheld console: register file,
//! memory bus, opcode decoder, execution engine and the video-RAM tile cache.

pub mod alu;
pub mod cpu;
pub mod gpu;
pub mod instructions;
pub mod memory;
pub mod registers;
pub mod state;
pub mod theorems;
pub mod word;
