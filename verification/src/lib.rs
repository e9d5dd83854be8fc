//! An emulator core for a 6502-class 8-bit microprocessor.
//!
//! The crate models the registers, status flags and 64 KiB memory of the
//! processor together with its fetch-decode-execute cycle.  Every operation is
//! stated over a mathematical model of the machine, [`hardware::state::CpuState`],
//! and proved to agree with it.
pub mod hardware;
