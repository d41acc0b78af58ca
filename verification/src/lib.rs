//! An instruction-level interpreter for the Intel 8080 microprocessor.
//!
//! The machine is modelled mathematically by [`model::Cpu`]: seven 8-bit
//! registers, the 16-bit stack pointer and program counter, the five status
//! flags, the interrupt-enable flag and a flat 65536-byte memory. Every
//! executable operation of the interpreter carries a contract that pins its
//! result down to a transition function over that model, so that a full
//! `step` is provably equal to the documented semantics of the fetched
//! opcode, including its T-state cost.

pub mod laws;
pub mod model;
pub mod state;
mod emu;
mod instr;

pub use emu::DefaultHandler;
pub use emu::Emu8080;
pub use emu::InOutHandler;
