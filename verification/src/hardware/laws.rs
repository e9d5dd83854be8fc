//! Laws of the engine, each proved from the model of the processor.
use vstd::prelude::*;

use super::fault::Fault;
use super::flags::{
    flag_is_set, flag_mask, flag_names, with_flag, with_flag_set, BREAK, INTERRUPT_DISABLE,
    NEGATIVE, ZERO,
};
use super::opcodes::{descriptor, lookup_result, AddressingMode, OpCode};
use super::state::{CpuState, PROGRAM_BASE, PROGRAM_SPAN};

verus! {

/// The status byte with only the bit numbered `bit` set.
pub open spec fn one_bit(bit: u8) -> u8 {
    1u8 << bit
}

/// The registry holds eight flags, and the flag at place `bit` of
/// `flag_names` occupies the bit numbered `bit` of the status byte: CARRY is
/// 0x01, ZERO 0x02, INTERRUPT_DISABLE 0x04, DECIMAL_MODE 0x08, BREAK 0x10,
/// BREAK2 0x20, OVERFLOW 0x40 and NEGATIVE 0x80.
pub proof fn lemma_flag_positions()
    ensures
        flag_names().len() == 8,
        forall|bit: u8|
            bit < 8 ==> flag_mask(#[trigger] flag_names()[bit as int]) == Some(one_bit(bit)),
        forall|name: Seq<char>| #[trigger]
            flag_mask(name) is Some <==> exists|bit: u8|
                bit < 8 && flag_names()[bit as int] == name,
        flag_mask("CARRY"@) == Some(0x01u8),
        flag_mask("ZERO"@) == Some(0x02u8),
        flag_mask("INTERRUPT_DISABLE"@) == Some(0x04u8),
        flag_mask("DECIMAL_MODE"@) == Some(0x08u8),
        flag_mask("BREAK"@) == Some(0x10u8),
        flag_mask("BREAK2"@) == Some(0x20u8),
        flag_mask("OVERFLOW"@) == Some(0x40u8),
        flag_mask("NEGATIVE"@) == Some(0x80u8),
{
    reveal_strlit("CARRY");
    reveal_strlit("ZERO");
    reveal_strlit("INTERRUPT_DISABLE");
    reveal_strlit("DECIMAL_MODE");
    reveal_strlit("BREAK");
    reveal_strlit("BREAK2");
    reveal_strlit("OVERFLOW");
    reveal_strlit("NEGATIVE");
    assert("CARRY"@.len() == 5 && "CARRY"@[0] == 'C');
    assert("ZERO"@.len() == 4);
    assert("INTERRUPT_DISABLE"@.len() == 17);
    assert("DECIMAL_MODE"@.len() == 12);
    assert("BREAK"@.len() == 5 && "BREAK"@[0] == 'B');
    assert("BREAK2"@.len() == 6);
    assert("OVERFLOW"@.len() == 8 && "OVERFLOW"@[0] == 'O');
    assert("NEGATIVE"@.len() == 8 && "NEGATIVE"@[0] == 'N');
    assert(one_bit(0) == 0x01 && one_bit(1) == 0x02 && one_bit(2) == 0x04 && one_bit(3) == 0x08
        && one_bit(4) == 0x10 && one_bit(5) == 0x20 && one_bit(6) == 0x40 && one_bit(7) == 0x80)
        by (bit_vector);
    assert forall|name: Seq<char>| #[trigger] flag_mask(name) is Some implies exists|bit: u8|
        bit < 8 && flag_names()[bit as int] == name by {
        let bit: u8 = if name == "CARRY"@ {
            0
        } else if name == "ZERO"@ {
            1
        } else if name == "INTERRUPT_DISABLE"@ {
            2
        } else if name == "DECIMAL_MODE"@ {
            3
        } else if name == "BREAK"@ {
            4
        } else if name == "BREAK2"@ {
            5
        } else if name == "OVERFLOW"@ {
            6
        } else {
            7
        };
        assert(bit < 8 && flag_names()[bit as int] == name);
    }
}

/// No two flags of the registry share a bit.
pub proof fn lemma_flags_share_no_bit(first: Seq<char>, second: Seq<char>)
    requires
        flag_mask(first) is Some,
        flag_mask(second) is Some,
        first != second,
    ensures
        flag_mask(first)->0 & flag_mask(second)->0 == 0,
{
    let a: u8 = flag_mask(first)->0;
    let b: u8 = flag_mask(second)->0;
    assert(a != b);
    assert(a & b == 0) by (bit_vector)
        requires
            a != b,
            a == 0x01 || a == 0x02 || a == 0x04 || a == 0x08 || a == 0x10 || a == 0x20 || a == 0x40
                || a == 0x80,
            b == 0x01 || b == 0x02 || b == 0x04 || b == 0x08 || b == 0x10 || b == 0x20 || b == 0x40
                || b == 0x80,
    ;
}

/// Setting or clearing a flag is a pure bit operation: afterwards the flag
/// tests as it was set, and every bit outside its mask is as before.
pub proof fn lemma_flag_operations(status: u8, mask: u8, on: bool)
    requires
        mask != 0,
    ensures
        flag_is_set(with_flag(status, mask, on), mask) == on,
        with_flag(status, mask, on) & !mask == status & !mask,
{
    assert((status | mask) & mask != 0) by (bit_vector)
        requires
            mask != 0,
    ;
    assert((status & !mask) & mask == 0) by (bit_vector);
    assert((status | mask) & !mask == status & !mask) by (bit_vector);
    assert((status & !mask) & !mask == status & !mask) by (bit_vector);
}

/// After the zero and negative flags are updated from `value`, ZERO is set
/// exactly where `value` is zero, NEGATIVE exactly where bit 7 of `value` is
/// set, and no other bit of the status byte has changed.
pub proof fn lemma_zero_and_negative(s: CpuState, value: u8)
    ensures
        flag_is_set(s.with_zero_and_negative(value).status, ZERO) <==> value == 0,
        flag_is_set(s.with_zero_and_negative(value).status, NEGATIVE) <==> value & 0x80 != 0,
        s.with_zero_and_negative(value).status & !(ZERO | NEGATIVE) == s.status & !(ZERO
            | NEGATIVE),
        s.with_zero_and_negative(value) == (CpuState {
            status: s.with_zero_and_negative(value).status,
            ..s
        }),
{
    let status = s.status;
    let zero = value == 0;
    let negative = value >= 0x80;
    assert((value & 0x80 != 0) == (value >= 0x80)) by (bit_vector);
    assert(with_flag(with_flag(status, ZERO, zero), NEGATIVE, negative) & ZERO != 0 <==> zero)
        by (bit_vector);
    assert(with_flag(with_flag(status, ZERO, zero), NEGATIVE, negative) & NEGATIVE != 0
        <==> negative) by (bit_vector);
    assert(with_flag(with_flag(status, ZERO, zero), NEGATIVE, negative) & !(ZERO | NEGATIVE)
        == status & !(ZERO | NEGATIVE)) by (bit_vector);
}

/// A program that fits the span is accepted by `load`, and after a reset the
/// program counter is at the load base.
pub proof fn lemma_load_then_reset_starts_at_base(s: CpuState, program: Seq<u8>)
    requires
        s.wf(),
        program.len() <= PROGRAM_SPAN,
    ensures
        s.load(program) is Ok,
        s.load(program)->Ok_0.reset().pc == PROGRAM_BASE,
        s.load(program)->Ok_0.wf(),
        forall|i: int|
            0 <= i < program.len() && i < 0x7FFC ==> #[trigger] s.load(program)->Ok_0.reset().mem[
                PROGRAM_BASE + i
            ] == program[i],
{
}

/// LDA loads the byte at the effective address into the accumulator; ZERO
/// is then set exactly where that byte is zero, and NEGATIVE exactly where
/// its bit 7 is set.
pub proof fn lemma_lda_flags(s: CpuState, mode: AddressingMode)
    requires
        s.operand_address(mode) is Ok,
    ensures
        s.lda(mode) matches Ok(loaded) && {
            &&& loaded.a == s.read(s.operand_address(mode)->Ok_0)
            &&& flag_is_set(loaded.status, ZERO) <==> loaded.a == 0
            &&& flag_is_set(loaded.status, NEGATIVE) <==> loaded.a & 0x80 != 0
        },
{
    let value = s.read(s.operand_address(mode)->Ok_0);
    lemma_zero_and_negative(CpuState { a: value, ..s }, value);
}

/// TAX copies the accumulator into X exactly, whatever X held before, and
/// ZERO and NEGATIVE reflect the copied value.
pub proof fn lemma_tax_copies(s: CpuState, prior_x: u8)
    ensures
        s.tax().x == s.a,
        s.tax().a == s.a,
        flag_is_set(s.tax().status, ZERO) <==> s.a == 0,
        flag_is_set(s.tax().status, NEGATIVE) <==> s.a & 0x80 != 0,
        (CpuState { x: prior_x, ..s }).tax() == s.tax(),
{
    lemma_zero_and_negative(CpuState { x: s.a, ..s }, s.a);
}

/// INX never fails: from 0xFF it wraps to 0x00 and sets ZERO, and from any
/// other value it adds one.
pub proof fn lemma_inx_wraps(s: CpuState)
    ensures
        s.x == 0xFF ==> s.inx().x == 0 && flag_is_set(s.inx().status, ZERO),
        s.x < 0xFF ==> s.inx().x == s.x + 1 && !flag_is_set(s.inx().status, ZERO),
        flag_is_set(s.inx().status, NEGATIVE) <==> s.inx().x & 0x80 != 0,
{
    let x = ((s.x + 1) % 256) as u8;
    lemma_zero_and_negative(CpuState { x, ..s }, x);
}

/// After STA, a read at the effective address returns the accumulator, and
/// neither a register nor a flag has changed.
pub proof fn lemma_sta_then_read(s: CpuState, mode: AddressingMode)
    requires
        s.wf(),
        s.operand_address(mode) is Ok,
    ensures
        s.sta(mode) matches Ok(stored) && {
            &&& stored.read(s.operand_address(mode)->Ok_0) == s.a
            &&& stored == CpuState { mem: stored.mem, ..s }
            &&& forall|addr: u16|
                addr != s.operand_address(mode)->Ok_0 ==> #[trigger] stored.read(addr) == s.read(
                    addr,
                )
        },
{
}

/// BRK sets BREAK and INTERRUPT_DISABLE and leaves every other bit of the
/// status byte as it was, so a step that executes it ends the run.
pub proof fn lemma_brk_halts(s: CpuState)
    ensures
        s.brk().halted(),
        flag_is_set(s.brk().status, INTERRUPT_DISABLE),
        s.brk().status & !(BREAK | INTERRUPT_DISABLE) == s.status & !(BREAK | INTERRUPT_DISABLE),
{
    let status = s.status;
    assert(with_flag_set(with_flag_set(status, BREAK), INTERRUPT_DISABLE) & BREAK != 0)
        by (bit_vector);
    assert(with_flag_set(with_flag_set(status, BREAK), INTERRUPT_DISABLE) & INTERRUPT_DISABLE != 0)
        by (bit_vector);
    assert(with_flag_set(with_flag_set(status, BREAK), INTERRUPT_DISABLE) & !(BREAK
        | INTERRUPT_DISABLE) == status & !(BREAK | INTERRUPT_DISABLE)) by (bit_vector);
}

/// The opcode table is consistent with the resolver and the handlers.  For
/// every entry, the byte count is one more than the number of operand bytes
/// of its addressing mode.  An entry without an addressing mode belongs to
/// an instruction that never asks for an address, and executes in every
/// state.  Every other entry makes the resolver produce an address, and the
/// instruction execute, in every state whose operand bytes lie within
/// memory.
pub proof fn lemma_table_entries_resolve(value: u8, s: CpuState)
    requires
        descriptor(value) is Some,
    ensures
        ({
            let op = descriptor(value)->0;
            &&& op.1 == 1 + op.3.operand_width()
            &&& op.3 is NoneAddressing ==> s.execute(op.0, op.3) is Ok
            &&& op.3 !is NoneAddressing && s.pc + op.3.operand_width() <= 0x10000 ==> {
                &&& s.operand_address(op.3) is Ok
                &&& s.execute(op.0, op.3) is Ok
            }
        }),
{
}

/// A step from a state whose program counter is not at the last address,
/// and whose next byte has no entry in the opcode table, fails with
/// `UnknownOpcode` and that byte.
pub proof fn lemma_unknown_opcode_faults(s: CpuState)
    requires
        s.pc < 0xFFFF,
        descriptor(s.read(s.pc)) is None,
    ensures
        lookup_result(s.read(s.pc)) == Err::<OpCode, Fault>(Fault::UnknownOpcode(s.read(s.pc))),
        s.step() == Err::<CpuState, Fault>(Fault::UnknownOpcode(s.read(s.pc))),
        s.run() == (s, Err::<(), Fault>(Fault::UnknownOpcode(s.read(s.pc)))),
{
}

/// When a step succeeds and how it fails.  At the last address the fetch
/// cannot advance; a byte without an entry in the opcode table is an unknown
/// opcode; an instruction after which the program counter would lie beyond
/// the last address is out of bounds; every other step succeeds.  So no step
/// fails for want of an implementation or of an addressing mode.
pub proof fn lemma_step_outcomes(s: CpuState)
    ensures
        s.pc == 0xFFFF ==> s.step() == Err::<CpuState, Fault>(Fault::OutOfBounds(0xFFFF)),
        s.pc < 0xFFFF && descriptor(s.read(s.pc)) is None ==> s.step() == Err::<CpuState, Fault>(
            Fault::UnknownOpcode(s.read(s.pc)),
        ),
        s.pc < 0xFFFF && descriptor(s.read(s.pc)) is Some && s.pc + descriptor(
            s.read(s.pc),
        ).unwrap().1 > 0xFFFF ==> s.step() == Err::<CpuState, Fault>(
            Fault::OutOfBounds((s.pc + 1) as u16),
        ),
        s.pc < 0xFFFF && descriptor(s.read(s.pc)) is Some && s.pc + descriptor(
            s.read(s.pc),
        ).unwrap().1 <= 0xFFFF ==> s.step() is Ok,
{
    if s.pc < 0xFFFF {
        if let Some(op) = descriptor(s.read(s.pc)) {
            let fetched = CpuState { pc: (s.pc + 1) as u16, ..s };
            lemma_table_entries_resolve(s.read(s.pc), fetched);
            fetched.lemma_execute_keeps(op.0, op.3);
        }
    }
}

/// A run ends in one of two ways: without a fault, and then the BREAK flag
/// is set; or with the fault of the step that failed, and then the state is
/// the one that this step began in.  Memory stays whole either way.
pub proof fn lemma_run_ends(s: CpuState)
    ensures
        s.run().1 is Ok ==> s.run().0.halted(),
        s.run().1 matches Err(fault) ==> s.run().0.step() == Err::<CpuState, Fault>(fault),
        s.pc <= s.run().0.pc,
        s.wf() ==> s.run().0.wf(),
    decreases 0x10000 - s.pc,
{
    s.lemma_step_advances();
    if let Ok(next) = s.step() {
        if !next.halted() {
            lemma_run_ends(next);
        }
    }
}

} // verus!
