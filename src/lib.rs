//! An interpreter for the MOS 6502 instruction set over a flat 64 KiB memory.
//!
//! `semantics::step` states what one instruction does to the registers and to
//! memory; `cpu::Cpu::execute` is proved to do exactly that. `laws` holds
//! properties of the instruction set proved from the same definitions.

pub mod cpu;
pub mod flags;
pub mod instruction;
pub mod laws;
pub mod memory;
pub mod semantics;
pub mod symbols;

pub use cpu::{Cpu, CpuError, CpuState};
pub use memory::{Memory, MEMORY_SIZE};
