//! The emulated hardware: the opcode table, the faults, the mathematical model
//! of the processor, the processor itself and the laws that hold of it.
pub mod cpu;
pub mod fault;
pub mod flags;
pub mod laws;
pub mod opcodes;
pub mod state;
