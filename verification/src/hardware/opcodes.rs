//! The instruction descriptors and the table that maps opcode bytes to them.
use std::collections::HashMap;

use vstd::prelude::*;

use super::fault::Fault;

verus! {

/// The rule by which an instruction's operand bytes become an effective
/// address.
#[derive(Debug, Clone, Copy, PartialEq, Eq)]
#[allow(non_camel_case_types)]
pub enum AddressingMode {
    Immediate,
    ZeroPage,
    ZeroPage_X,
    ZeroPage_Y,
    Absolute,
    Absolute_X,
    Absolute_Y,
    Indirect_X,
    Indirect_Y,
    NoneAddressing,
}

impl AddressingMode {
    /// The number of operand bytes that follow the opcode byte under this
    /// mode.
    pub open spec fn operand_width(self) -> int {
        match self {
            AddressingMode::NoneAddressing => 0,
            AddressingMode::Absolute | AddressingMode::Absolute_X | AddressingMode::Absolute_Y => 2,
            _ => 1,
        }
    }
}

/// The operations of the instruction set, one code for each.
#[derive(Debug, Clone, Copy, PartialEq, Eq)]
pub enum Mnemonic {
    Adc, And, Asl, Bcc, Bcs, Beq, Bit, Bmi, Bne, Brk, Bvc, Bvs, Clc, Cld, Cli, Clv,
    Cmp, Cpx, Cpy, Dec, Dex, Dey, Eor, Inc, Inx, Iny, Jmp, Jsr, Lda, Ldx, Ldy, Lsr,
    Nop, Ora, Pha, Php, Pla, Plp, Rol, Ror, Rti, Rts, Sbc, Sec, Sed, Sei, Sta, Stx,
    Sty, Tax, Tay, Tsx, Txa, Txs, Tya,
}

/// The length of an instruction in bytes, opcode byte included.
pub type ByteCount = u8;

/// The advertised cost of an instruction in machine cycles.
pub type CycleCount = u8;

/// An instruction descriptor: mnemonic, byte count, cycle count and
/// addressing mode.
#[derive(Debug, Clone, Copy, PartialEq, Eq)]
pub struct OpCode(pub Mnemonic, pub ByteCount, pub CycleCount, pub AddressingMode);

/// The opcode table as a mathematical function: the descriptor of each
/// supported opcode byte, and `None` for every other byte.
pub open spec fn descriptor(value: u8) -> Option<OpCode> {
    match value {
        0xAD => Some(OpCode(Mnemonic::Lda, 3, 4, AddressingMode::Absolute)),
        0xBD => Some(OpCode(Mnemonic::Lda, 3, 4, AddressingMode::Absolute_X)),
        0xB9 => Some(OpCode(Mnemonic::Lda, 3, 4, AddressingMode::Absolute_Y)),
        0xA9 => Some(OpCode(Mnemonic::Lda, 2, 2, AddressingMode::Immediate)),
        0xA1 => Some(OpCode(Mnemonic::Lda, 2, 6, AddressingMode::Indirect_X)),
        0xB1 => Some(OpCode(Mnemonic::Lda, 2, 5, AddressingMode::Indirect_Y)),
        0xA5 => Some(OpCode(Mnemonic::Lda, 2, 3, AddressingMode::ZeroPage)),
        0xB5 => Some(OpCode(Mnemonic::Lda, 2, 4, AddressingMode::ZeroPage_X)),
        0x8D => Some(OpCode(Mnemonic::Sta, 3, 4, AddressingMode::Absolute)),
        0x9D => Some(OpCode(Mnemonic::Sta, 3, 5, AddressingMode::Absolute_X)),
        0x99 => Some(OpCode(Mnemonic::Sta, 3, 5, AddressingMode::Absolute_Y)),
        0x81 => Some(OpCode(Mnemonic::Sta, 2, 6, AddressingMode::Indirect_X)),
        0x91 => Some(OpCode(Mnemonic::Sta, 2, 6, AddressingMode::Indirect_Y)),
        0x85 => Some(OpCode(Mnemonic::Sta, 2, 3, AddressingMode::ZeroPage)),
        0x95 => Some(OpCode(Mnemonic::Sta, 2, 4, AddressingMode::ZeroPage_X)),
        0x6D => Some(OpCode(Mnemonic::Adc, 3, 4, AddressingMode::Absolute)),
        0x7D => Some(OpCode(Mnemonic::Adc, 3, 4, AddressingMode::Absolute_X)),
        0x79 => Some(OpCode(Mnemonic::Adc, 3, 4, AddressingMode::Absolute_Y)),
        0x69 => Some(OpCode(Mnemonic::Adc, 2, 2, AddressingMode::Immediate)),
        0x61 => Some(OpCode(Mnemonic::Adc, 2, 6, AddressingMode::Indirect_X)),
        0x71 => Some(OpCode(Mnemonic::Adc, 2, 5, AddressingMode::Indirect_Y)),
        0x65 => Some(OpCode(Mnemonic::Adc, 2, 3, AddressingMode::ZeroPage)),
        0x75 => Some(OpCode(Mnemonic::Adc, 2, 4, AddressingMode::ZeroPage_X)),
        0x00 => Some(OpCode(Mnemonic::Brk, 1, 7, AddressingMode::NoneAddressing)),
        0xAA => Some(OpCode(Mnemonic::Tax, 1, 2, AddressingMode::NoneAddressing)),
        0xE8 => Some(OpCode(Mnemonic::Inx, 1, 2, AddressingMode::NoneAddressing)),
        _ => None,
    }
}

/// What a lookup of `value` in the opcode table answers: its descriptor, or
/// the fault that names the byte.
pub open spec fn lookup_result(value: u8) -> Result<OpCode, Fault> {
    match descriptor(value) {
        Some(op) => Ok(op),
        None => Err(Fault::UnknownOpcode(value)),
    }
}

impl OpCode {
    /// The descriptor of the opcode byte `value`, or `UnknownOpcode(value)` for
    /// a byte that the engine does not support.
    pub fn from(value: u8) -> (r: Result<OpCode, Fault>)
        ensures
            r == lookup_result(value),
    {
        match value {
            // Load accumulator
            0xAD => Ok(OpCode(Mnemonic::Lda, 3, 4, AddressingMode::Absolute)),
            0xBD => Ok(OpCode(Mnemonic::Lda, 3, 4, AddressingMode::Absolute_X)),
            0xB9 => Ok(OpCode(Mnemonic::Lda, 3, 4, AddressingMode::Absolute_Y)),
            0xA9 => Ok(OpCode(Mnemonic::Lda, 2, 2, AddressingMode::Immediate)),
            0xA1 => Ok(OpCode(Mnemonic::Lda, 2, 6, AddressingMode::Indirect_X)),
            0xB1 => Ok(OpCode(Mnemonic::Lda, 2, 5, AddressingMode::Indirect_Y)),
            0xA5 => Ok(OpCode(Mnemonic::Lda, 2, 3, AddressingMode::ZeroPage)),
            0xB5 => Ok(OpCode(Mnemonic::Lda, 2, 4, AddressingMode::ZeroPage_X)),
            // Store accumulator
            0x8D => Ok(OpCode(Mnemonic::Sta, 3, 4, AddressingMode::Absolute)),
            0x9D => Ok(OpCode(Mnemonic::Sta, 3, 5, AddressingMode::Absolute_X)),
            0x99 => Ok(OpCode(Mnemonic::Sta, 3, 5, AddressingMode::Absolute_Y)),
            0x81 => Ok(OpCode(Mnemonic::Sta, 2, 6, AddressingMode::Indirect_X)),
            0x91 => Ok(OpCode(Mnemonic::Sta, 2, 6, AddressingMode::Indirect_Y)),
            0x85 => Ok(OpCode(Mnemonic::Sta, 2, 3, AddressingMode::ZeroPage)),
            0x95 => Ok(OpCode(Mnemonic::Sta, 2, 4, AddressingMode::ZeroPage_X)),
            // Add with carry
            0x6D => Ok(OpCode(Mnemonic::Adc, 3, 4, AddressingMode::Absolute)),
            0x7D => Ok(OpCode(Mnemonic::Adc, 3, 4, AddressingMode::Absolute_X)),
            0x79 => Ok(OpCode(Mnemonic::Adc, 3, 4, AddressingMode::Absolute_Y)),
            0x69 => Ok(OpCode(Mnemonic::Adc, 2, 2, AddressingMode::Immediate)),
            0x61 => Ok(OpCode(Mnemonic::Adc, 2, 6, AddressingMode::Indirect_X)),
            0x71 => Ok(OpCode(Mnemonic::Adc, 2, 5, AddressingMode::Indirect_Y)),
            0x65 => Ok(OpCode(Mnemonic::Adc, 2, 3, AddressingMode::ZeroPage)),
            0x75 => Ok(OpCode(Mnemonic::Adc, 2, 4, AddressingMode::ZeroPage_X)),
            // Operand-less instructions
            0x00 => Ok(OpCode(Mnemonic::Brk, 1, 7, AddressingMode::NoneAddressing)),
            0xAA => Ok(OpCode(Mnemonic::Tax, 1, 2, AddressingMode::NoneAddressing)),
            0xE8 => Ok(OpCode(Mnemonic::Inx, 1, 2, AddressingMode::NoneAddressing)),
            _ => Err(Fault::UnknownOpcode(value)),
        }
    }
}

/// The opcode table as a finite map from the supported bytes to their
/// descriptors.
pub open spec fn opcode_map() -> Map<u8, OpCode> {
    Map::new(|value: u8| descriptor(value) is Some, |value: u8| descriptor(value)->0)
}

/// The opcode table, built once and read-only afterwards.
pub struct OpcodeTable {
    entries: HashMap<u8, OpCode>,
}

impl View for OpcodeTable {
    type V = Map<u8, OpCode>;

    closed spec fn view(&self) -> Map<u8, OpCode> {
        self.entries@
    }
}

impl OpcodeTable {
    #[verifier::type_invariant]
    spec fn holds_every_descriptor(self) -> bool {
        self.entries@ == opcode_map()
    }

    /// Builds the table: one entry for each supported opcode byte.
    #[verifier::loop_isolation(false)]
    pub fn new() -> (table: OpcodeTable)
        ensures
            table@ == opcode_map(),
    {
        let valid_codes: [u8; 26] = [
            0xAD, 0xBD, 0xB9, 0xA9, 0xA1, 0xB1, 0xA5, 0xB5,  // LDA
            0x8D, 0x9D, 0x99, 0x81, 0x91, 0x85, 0x95,  // STA
            0x6D, 0x7D, 0x79, 0x69, 0x61, 0x71, 0x65, 0x75,  // ADC
            0x00,  // BRK
            0xAA,  // TAX
            0xE8,  // INX
        ];
        let mut entries: HashMap<u8, OpCode> = HashMap::new();
        let mut i: usize = 0;
        while i < 26
            invariant
                i <= 26,
                forall|value: u8| #[trigger]
                    entries@.contains_key(value) <==> exists|j: int|
                        0 <= j < i && valid_codes@[j] == value,
                forall|value: u8| #[trigger]
                    entries@.contains_key(value) ==> descriptor(value) == Some(entries@[value]),
            decreases 26 - i,
        {
            let code: u8 = valid_codes[i];
            let ghost before = entries@;
            if let Ok(op) = OpCode::from(code) {
                entries.insert(code, op);
            }
            i += 1;
            proof {
                assert(entries@ == before.insert(code, descriptor(code)->0));
                assert forall|value: u8| #[trigger]
                    entries@.contains_key(value) implies exists|j: int|
                    0 <= j < i && valid_codes@[j] == value by {
                    if value == code {
                        assert(valid_codes@[i - 1] == value);
                    } else {
                        assert(before.contains_key(value));
                        let j: int = choose|j: int| 0 <= j < i - 1 && valid_codes@[j] == value;
                        assert(0 <= j < i && valid_codes@[j] == value);
                    }
                }
            }
        }
        proof {
            assert forall|value: u8| descriptor(value) is Some implies entries@.contains_key(
                value,
            ) by {
                let j: int = choose|j: int| 0 <= j < 26 && valid_codes@[j] == value;
                assert(0 <= j < 26 && valid_codes@[j] == value);
            }
            assert(entries@ =~= opcode_map());
        }
        OpcodeTable { entries }
    }

    /// Looks `value` up: its descriptor, or `UnknownOpcode(value)` where the
    /// table has no entry for it.
    pub fn lookup(&self, value: u8) -> (r: Result<OpCode, Fault>)
        ensures
            r == lookup_result(value),
    {
        proof {
            use_type_invariant(self);
        }
        match self.entries.get(&value) {
            Some(op) => Ok(*op),
            None => Err(Fault::UnknownOpcode(value)),
        }
    }
}

} // verus!
