//! Core of a MOS 6502 instruction-execution engine.
//!
//! The crate models the processor's register file, its packed status byte,
//! a flat 64 KiB address space with the page-one hardware stack, the opcode
//! table, and the per-instruction semantics.  Every executable function
//! carries a contract that pins its effect down against a mathematical view
//! of the machine state.

pub mod cpu;
pub mod flags;
pub mod instruction;
pub mod memory;
pub mod registers;
pub mod utils;
