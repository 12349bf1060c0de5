//! An emulator core for a 6502-class 8-bit processor together with a small
//! assembler that shares its opcode table.
//!
//! Every function in this crate is verified against the contract written on
//! it. The contracts are stated over mathematical models: memory is a sequence
//! of bytes, a processor is a [`cpu::semantics::MachineState`], program text is
//! a sequence of characters.

pub mod assembler;
pub mod cpu;
pub mod error;
pub mod memory;
pub mod text;
