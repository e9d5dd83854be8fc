//! The ways in which the engine can stop short of completing an operation.
use vstd::prelude::*;

use super::opcodes::{AddressingMode, Mnemonic};

verus! {

/// A hard stop of the engine.  No operation recovers from a fault: it stops
/// there and hands the fault to its caller, together with the value that
/// caused it.  An instruction that meets a fault has no effect at all.
#[derive(Clone, Copy, Debug, PartialEq, Eq)]
pub enum Fault {
    /// The fetched byte has no entry in the opcode table.
    UnknownOpcode(u8),
    /// The mnemonic is part of the dispatch surface but has no behaviour yet.
    UnimplementedInstruction(Mnemonic),
    /// An effective address was asked for under a mode that has none.
    UnsupportedAddressingMode(AddressingMode),
    /// The name is not that of a status flag.
    ConfigurationError(&'static str),
    /// An access or an advance that starts at this address would leave the
    /// address space `0x0000..=0xFFFF`.
    OutOfBounds(u16),
}

} // verus!
