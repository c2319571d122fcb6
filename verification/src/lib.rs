//! A cycle-counting interpreter for the MOS 6502 processor.
//!
//! The interpreter fetches opcodes from a 64 KiB byte-addressable store,
//! decodes them through a fixed table of 151 defined opcodes, resolves
//! effective addresses with the 6502's page-wrap quirks, and executes each
//! instruction over the registers, flags and memory.  Every step of the
//! machine is specified by the functional model in [`state`], and the
//! executable CPU is proved to follow that model exactly.

pub mod bcd;
pub mod cpu;
pub mod error;
pub mod laws;
pub mod memory;
pub mod opc;
pub mod state;
pub mod util;

pub use cpu::Cpu;
pub use memory::SimpleMemory;
