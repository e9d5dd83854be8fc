//! The processor: registers, status byte and memory, with the operations
//! that construct, load, reset and run it.
use vstd::prelude::*;

use super::fault::Fault;
use super::flags::{
    flag_is_set, mask_result, status_flag_mask, with_flag_clear, with_flag_set, BREAK, CARRY,
    INTERRUPT_DISABLE, NEGATIVE, OVERFLOW, ZERO,
};
use super::opcodes::{AddressingMode, Mnemonic, OpCode, OpcodeTable};
use super::state::{
    high_byte, low_byte, word, CpuState, PROGRAM_BASE, PROGRAM_SPAN, RESET_VECTOR, STACK_RESET,
    STATUS_RESET,
};

verus! {

/// A 6502-class processor together with the memory that it owns.
pub struct CPU {
    /// The accumulator.
    pub register_a: u8,
    /// Index register X.
    pub register_x: u8,
    /// Index register Y.
    pub register_y: u8,
    /// The status byte, one bit for each flag.
    pub status: u8,
    /// The stack pointer, an offset into the stack page.
    pub stack_pointer: u8,
    /// The address of the next byte to be fetched.
    pub program_counter: u16,
    /// The 64 KiB of memory, one byte for each address.
    pub memory: [u8; 0x10000],
    /// The opcode table that instructions are decoded with.
    pub opcodes: OpcodeTable,
}

impl View for CPU {
    type V = CpuState;

    open spec fn view(&self) -> CpuState {
        CpuState {
            a: self.register_a,
            x: self.register_x,
            y: self.register_y,
            status: self.status,
            sp: self.stack_pointer,
            pc: self.program_counter,
            mem: self.memory@,
        }
    }
}

impl CPU {
    /// A processor with zeroed registers and memory, the default status and
    /// stack pointer, and the program counter at zero.
    pub fn new() -> (cpu: Self)
        ensures
            cpu@ == CpuState::initial(),
    {
        let cpu = CPU {
            register_a: 0,
            register_x: 0,
            register_y: 0,
            status: STATUS_RESET,
            stack_pointer: STACK_RESET,
            program_counter: 0,
            memory: [0x00; 0x10000],
            opcodes: OpcodeTable::new(),
        };
        proof {
            assert(cpu@.mem =~= CpuState::initial().mem);
        }
        cpu
    }

    /// The byte at `addr`.
    pub fn mem_read(&self, addr: u16) -> (data: u8)
        ensures
            data == self@.read(addr),
    {
        self.memory[addr as usize]
    }

    /// Stores `data` at `addr`.
    pub fn mem_write(&mut self, addr: u16, data: u8)
        ensures
            final(self)@ == old(self)@.write(addr, data),
    {
        self.memory[addr as usize] = data;
    }

    /// The little-endian word at `memory_pos` and the address after it.
    /// Fails, with the position, where the address after it does not exist.
    pub fn mem_read_u16(&self, memory_pos: u16) -> (r: Result<u16, Fault>)
        ensures
            r == self@.read_word(memory_pos),
    {
        if memory_pos == 0xFFFF {
            return Err(Fault::OutOfBounds(memory_pos));
        }
        Ok(self.word_at(memory_pos))
    }

    /// The little-endian word at `memory_pos` and the address after it.
    fn word_at(&self, memory_pos: u16) -> (data: u16)
        requires
            memory_pos < 0xFFFF,
        ensures
            self@.read_word(memory_pos) == Ok::<u16, Fault>(data),
    {
        let lo: u8 = self.mem_read(memory_pos);
        let hi: u8 = self.mem_read(memory_pos + 1);
        join_bytes(lo, hi)
    }

    /// Stores `data` as a little-endian word at `memory_pos` and the address
    /// after it.  Fails, with the position and without storing anything,
    /// where the address after it does not exist.
    pub fn mem_write_u16(&mut self, memory_pos: u16, data: u16) -> (r: Result<(), Fault>)
        ensures
            match old(self)@.write_word(memory_pos, data) {
                Ok(written) => r == Ok::<(), Fault>(()) && final(self)@ == written,
                Err(fault) => r == Err::<(), Fault>(fault) && final(self)@ == old(self)@,
            },
    {
        if memory_pos == 0xFFFF {
            return Err(Fault::OutOfBounds(memory_pos));
        }
        self.put_word(memory_pos, data);
        Ok(())
    }

    /// Stores `data` as a little-endian word at `memory_pos` and the address
    /// after it.
    fn put_word(&mut self, memory_pos: u16, data: u16)
        requires
            memory_pos < 0xFFFF,
        ensures
            old(self)@.write_word(memory_pos, data) == Ok::<CpuState, Fault>(final(self)@),
    {
        let hi: u8 = (data >> 8) as u8;
        let lo: u8 = (data & 0xff) as u8;
        proof {
            assert((data >> 8) as u8 == high_byte(data)) by (bit_vector);
            assert((data & 0xff) as u8 == low_byte(data)) by (bit_vector);
        }
        self.mem_write(memory_pos, lo);
        self.mem_write(memory_pos + 1, hi);
    }

    /// Whether the status flag called `flag` is set.  Fails where `flag` is
    /// not the name of a flag.
    pub fn check_status_flag_set(&self, flag: &'static str) -> (r: Result<bool, Fault>)
        ensures
            r == match mask_result(flag) {
                Ok(mask) => Ok(flag_is_set(self.status, mask)),
                Err(fault) => Err(fault),
            },
    {
        match status_flag_mask(flag) {
            Ok(mask) => Ok(self.status & mask != 0),
            Err(fault) => Err(fault),
        }
    }

    /// Sets the status flag called `flag` and changes nothing else.  Fails,
    /// without changing anything, where `flag` is not the name of a flag.
    pub fn set_status_flag(&mut self, flag: &'static str) -> (r: Result<(), Fault>)
        ensures
            match mask_result(flag) {
                Ok(mask) => r == Ok::<(), Fault>(()) && final(self)@ == (CpuState {
                    status: with_flag_set(old(self).status, mask),
                    ..old(self)@
                }),
                Err(fault) => r == Err::<(), Fault>(fault) && final(self)@ == old(self)@,
            },
    {
        match status_flag_mask(flag) {
            Ok(mask) => {
                self.status |= mask;
                Ok(())
            },
            Err(fault) => Err(fault),
        }
    }

    /// Clears the status flag called `flag` and changes nothing else.  Fails,
    /// without changing anything, where `flag` is not the name of a flag.
    pub fn unset_status_flag(&mut self, flag: &'static str) -> (r: Result<(), Fault>)
        ensures
            match mask_result(flag) {
                Ok(mask) => r == Ok::<(), Fault>(()) && final(self)@ == (CpuState {
                    status: with_flag_clear(old(self).status, mask),
                    ..old(self)@
                }),
                Err(fault) => r == Err::<(), Fault>(fault) && final(self)@ == old(self)@,
            },
    {
        match status_flag_mask(flag) {
            Ok(mask) => {
                self.status &= !mask;
                Ok(())
            },
            Err(fault) => Err(fault),
        }
    }

    /// Sets CARRY where the accumulator, `value` and the carry flag add up to
    /// more than a byte holds, clears it where they do not, and changes
    /// nothing else.
    pub fn add_to_register_a(&mut self, value: u8)
        ensures
            final(self)@ == old(self)@.with_carry_of_sum(value),
    {
        let carry: u16 = if self.status & CARRY != 0 {
            1
        } else {
            0
        };
        let sum: u16 = self.register_a as u16 + value as u16 + carry;
        if sum > 0xFF {
            self.status |= CARRY;
        } else {
            self.status &= !CARRY;
        }
    }

    /// Sets ZERO exactly where `result` is zero and NEGATIVE exactly where
    /// bit 7 of `result` is set, and changes nothing else.
    pub fn update_zero_and_negative_flags(&mut self, result: u8)
        ensures
            final(self)@ == old(self)@.with_zero_and_negative(result),
    {
        if result == 0 {
            self.status |= ZERO;
        } else {
            self.status &= !ZERO;
        }
        proof {
            assert((result & NEGATIVE != 0) == (result >= 0x80)) by (bit_vector);
        }
        if result & NEGATIVE != 0 {
            self.status |= NEGATIVE;
        } else {
            self.status &= !NEGATIVE;
        }
    }

    /// The effective address of the operand under `mode`, read from the
    /// operand bytes at the program counter, which stays where it is.
    /// Fails under `NoneAddressing`, which has no address, and where a
    /// two-byte operand would begin at the last address.
    pub fn get_operand_address(&self, mode: &AddressingMode) -> (r: Result<u16, Fault>)
        ensures
            r == self@.operand_address(*mode),
    {
        match mode {
            AddressingMode::Absolute => self.mem_read_u16(self.program_counter),
            AddressingMode::Absolute_X => match self.mem_read_u16(self.program_counter) {
                Ok(base) => Ok(offset_word(base, self.register_x)),
                Err(fault) => Err(fault),
            },
            AddressingMode::Absolute_Y => match self.mem_read_u16(self.program_counter) {
                Ok(base) => Ok(offset_word(base, self.register_y)),
                Err(fault) => Err(fault),
            },
            AddressingMode::Immediate => Ok(self.program_counter),
            AddressingMode::Indirect_X => {
                let base: u8 = self.mem_read(self.program_counter);
                let ptr: u8 = offset_byte(base, self.register_x);
                let lo: u8 = self.mem_read(ptr as u16);
                let hi: u8 = self.mem_read(offset_byte(ptr, 1) as u16);
                Ok(join_bytes(lo, hi))
            },
            AddressingMode::Indirect_Y => {
                let base: u8 = self.mem_read(self.program_counter);
                let lo: u8 = self.mem_read(base as u16);
                let hi: u8 = self.mem_read(offset_byte(base, 1) as u16);
                let deref_base: u16 = join_bytes(lo, hi);
                Ok(offset_word(deref_base, self.register_y))
            },
            AddressingMode::ZeroPage => Ok(self.mem_read(self.program_counter) as u16),
            AddressingMode::ZeroPage_X => {
                let pos: u8 = self.mem_read(self.program_counter);
                Ok(offset_byte(pos, self.register_x) as u16)
            },
            AddressingMode::ZeroPage_Y => {
                let pos: u8 = self.mem_read(self.program_counter);
                Ok(offset_byte(pos, self.register_y) as u16)
            },
            AddressingMode::NoneAddressing => Err(Fault::UnsupportedAddressingMode(*mode)),
        }
    }

    /// BRK, force interrupt: sets BREAK and INTERRUPT_DISABLE.  Nothing is
    /// pushed to the stack.
    pub fn brk(&mut self)
        ensures
            final(self)@ == old(self)@.brk(),
    {
        proof {
            let status = self.status;
            assert(status | (BREAK | INTERRUPT_DISABLE) == (status | BREAK) | INTERRUPT_DISABLE)
                by (bit_vector);
        }
        self.status |= BREAK | INTERRUPT_DISABLE;
    }

    /// INX: increments X, wrapping from 0xFF to 0x00, and updates ZERO and
    /// NEGATIVE from the new X.
    pub fn inx(&mut self)
        ensures
            final(self)@ == old(self)@.inx(),
    {
        self.register_x = offset_byte(self.register_x, 1);
        self.update_zero_and_negative_flags(self.register_x);
    }

    /// LDA: loads the accumulator from the effective address and updates
    /// ZERO and NEGATIVE from the loaded value.  Fails, without changing
    /// anything, where `mode` yields no address.
    pub fn lda(&mut self, mode: &AddressingMode) -> (r: Result<(), Fault>)
        ensures
            outcome_is(old(self)@.lda(*mode), r, old(self)@, final(self)@),
    {
        match self.get_operand_address(mode) {
            Ok(addr) => {
                let value: u8 = self.mem_read(addr);
                self.register_a = value;
                self.update_zero_and_negative_flags(self.register_a);
                Ok(())
            },
            Err(fault) => Err(fault),
        }
    }

    /// STA: stores the accumulator at the effective address and changes no
    /// flag.  Fails, without changing anything, where `mode` yields no
    /// address.
    pub fn sta(&mut self, mode: &AddressingMode) -> (r: Result<(), Fault>)
        ensures
            outcome_is(old(self)@.sta(*mode), r, old(self)@, final(self)@),
    {
        match self.get_operand_address(mode) {
            Ok(addr) => {
                self.mem_write(addr, self.register_a);
                Ok(())
            },
            Err(fault) => Err(fault),
        }
    }

    /// TAX: copies the accumulator into X and updates ZERO and NEGATIVE from
    /// X.
    pub fn tax(&mut self)
        ensures
            final(self)@ == old(self)@.tax(),
    {
        self.register_x = self.register_a;
        self.update_zero_and_negative_flags(self.register_x);
    }

    /// ADC: adds the operand and the carry flag to the accumulator with
    /// wraparound.  CARRY and OVERFLOW are set together where the sum is not
    /// above the accumulator that it replaces and cleared together where it
    /// is; ZERO and NEGATIVE follow the sum.  Fails, without changing
    /// anything, where `mode` yields no address.
    pub fn adc(&mut self, mode: &AddressingMode) -> (r: Result<(), Fault>)
        ensures
            outcome_is(old(self)@.adc(*mode), r, old(self)@, final(self)@),
    {
        match self.get_operand_address(mode) {
            Ok(addr) => {
                let value: u8 = self.mem_read(addr);
                let current_accumulator_value: u8 = self.register_a;
                let carry_bit: u8 = if self.status & CARRY != 0 {
                    1
                } else {
                    0
                };
                let result: u8 = self.register_a.wrapping_add(value).wrapping_add(carry_bit);
                self.register_a = result;
                proof {
                    let status = self.status;
                    assert(status | (OVERFLOW | CARRY) == (status | CARRY) | OVERFLOW)
                        by (bit_vector);
                    assert(status & !(OVERFLOW | CARRY) == (status & !CARRY) & !OVERFLOW)
                        by (bit_vector);
                }
                if result <= current_accumulator_value {
                    self.status |= OVERFLOW | CARRY;
                } else {
                    self.status &= !(OVERFLOW | CARRY);
                }
                self.update_zero_and_negative_flags(result);
                Ok(())
            },
            Err(fault) => Err(fault),
        }
    }

    /// SBC: subtracts the operand and the borrow (one where CARRY is clear)
    /// from the accumulator with wraparound, and changes no flag.  Fails,
    /// without changing anything, where `mode` yields no address.
    pub fn sbc(&mut self, mode: &AddressingMode) -> (r: Result<(), Fault>)
        ensures
            outcome_is(old(self)@.sbc(*mode), r, old(self)@, final(self)@),
    {
        match self.get_operand_address(mode) {
            Ok(addr) => {
                let value: u8 = self.mem_read(addr);
                let carry_bit: u8 = if self.status & CARRY != 0 {
                    1
                } else {
                    0
                };
                let result: u8 = self.register_a.wrapping_sub(value).wrapping_sub(1 - carry_bit);
                self.register_a = result;
                Ok(())
            },
            Err(fault) => Err(fault),
        }
    }

    /// Executes the instruction `name` under `mode`.  Fails, without
    /// changing anything, for a mnemonic that has no behaviour yet and where
    /// the instruction itself fails.
    pub fn execute(&mut self, name: Mnemonic, mode: &AddressingMode) -> (r: Result<(), Fault>)
        ensures
            outcome_is(old(self)@.execute(name, *mode), r, old(self)@, final(self)@),
    {
        match name {
            Mnemonic::Adc => self.adc(mode),
            Mnemonic::Brk => {
                self.brk();
                Ok(())
            },
            Mnemonic::Inx => {
                self.inx();
                Ok(())
            },
            Mnemonic::Lda => self.lda(mode),
            Mnemonic::Sbc => self.sbc(mode),
            Mnemonic::Sta => self.sta(mode),
            Mnemonic::Tax => {
                self.tax();
                Ok(())
            },
            _ => Err(Fault::UnimplementedInstruction(name)),
        }
    }

    /// One turn of the fetch-decode-execute cycle.  On success the result
    /// says whether the BREAK flag is now set.  A turn that meets a fault
    /// changes nothing.
    pub fn step(&mut self) -> (r: Result<bool, Fault>)
        ensures
            match old(self)@.step() {
                Ok(next) => r == Ok::<bool, Fault>(next.halted()) && final(self)@ == next,
                Err(fault) => r == Err::<bool, Fault>(fault) && final(self)@ == old(self)@,
            },
    {
        let fetched_from: u16 = self.program_counter;
        let opcode: u8 = self.mem_read(fetched_from);
        if fetched_from == 0xFFFF {
            return Err(Fault::OutOfBounds(fetched_from));
        }
        let OpCode(name, byte_count, _cycle_count, mode) = match self.opcodes.lookup(opcode) {
            Ok(op) => op,
            Err(fault) => return Err(fault),
        };
        let current_prog_state: u16 = fetched_from + 1;
        let operand_bytes: u16 = (byte_count - 1) as u16;
        proof {
            let fetched = CpuState { pc: current_prog_state, ..self@ };
            fetched.lemma_execute_keeps(name, mode);
        }
        if operand_bytes > 0xFFFF - current_prog_state {
            // The program counter would move beyond the last address.
            return Err(Fault::OutOfBounds(current_prog_state));
        }
        self.program_counter = current_prog_state;
        match self.execute(name, &mode) {
            Ok(()) => {},
            Err(fault) => {
                self.program_counter = fetched_from;
                return Err(fault);
            },
        }
        if current_prog_state == self.program_counter {
            self.program_counter += operand_bytes;
        }
        Ok(self.status & BREAK != 0)
    }

    /// Runs the fetch-decode-execute cycle until an instruction leaves the
    /// BREAK flag set, or until a step meets a fault; the processor is then
    /// as the last completed step left it.  Every run ends: each completed
    /// step moves the program counter forward, and no step completes at the
    /// last address.
    pub fn run(&mut self) -> (r: Result<(), Fault>)
        ensures
            (final(self)@, r) == old(self)@.run(),
    {
        loop
            invariant
                self@.run() == old(self)@.run(),
            decreases 0x10000 - self.program_counter,
        {
            proof {
                self@.lemma_step_advances();
            }
            match self.step() {
                Ok(halted) => {
                    if halted {
                        return Ok(());
                    }
                },
                Err(fault) => {
                    return Err(fault);
                },
            }
        }
    }

    /// Copies `program` into memory from `PROGRAM_BASE` on and points the
    /// reset vector there.  Fails, without changing anything, for a program
    /// longer than `PROGRAM_SPAN`.
    pub fn load(&mut self, program: Vec<u8>) -> (r: Result<(), Fault>)
        ensures
            outcome_is(old(self)@.load(program@), r, old(self)@, final(self)@),
    {
        let len: usize = program.len();
        if len > PROGRAM_SPAN {
            return Err(Fault::OutOfBounds(PROGRAM_BASE));
        }
        let mut i: usize = 0;
        while i < len
            invariant
                len == program@.len(),
                len <= PROGRAM_SPAN,
                i <= len,
                self.register_a == old(self).register_a,
                self.register_x == old(self).register_x,
                self.register_y == old(self).register_y,
                self.status == old(self).status,
                self.stack_pointer == old(self).stack_pointer,
                self.program_counter == old(self).program_counter,
                forall|k: int|
                    0 <= k < 0x10000 ==> self.memory@[k] == if PROGRAM_BASE <= k < PROGRAM_BASE
                        + i {
                        program@[k - PROGRAM_BASE]
                    } else {
                        old(self).memory@[k]
                    },
            decreases len - i,
        {
            self.memory[PROGRAM_BASE as usize + i] = program[i];
            i += 1;
        }
        proof {
            assert(self@.mem =~= old(self)@.with_program(program@).mem);
        }
        self.put_word(RESET_VECTOR, PROGRAM_BASE);
        Ok(())
    }

    /// Restores the registers, the status byte and the stack pointer to
    /// their defaults and takes the program counter from the reset vector.
    pub fn reset(&mut self)
        ensures
            final(self)@ == old(self)@.reset(),
    {
        self.register_a = 0;
        self.register_x = 0;
        self.register_y = 0;

        self.stack_pointer = STACK_RESET;
        self.status = STATUS_RESET;

        self.program_counter = self.word_at(RESET_VECTOR);
    }

    /// Loads `program`, resets the processor and runs it.  Fails, without
    /// changing anything, for a program that `load` refuses; otherwise ends
    /// as the run does.
    pub fn load_and_run(&mut self, program: Vec<u8>) -> (r: Result<(), Fault>)
        ensures
            (final(self)@, r) == old(self)@.load_and_run(program@),
    {
        match self.load(program) {
            Ok(()) => {},
            Err(fault) => {
                return Err(fault);
            },
        }
        self.reset();
        self.run()
    }
}

/// How an operation that may fail relates to its meaning: where the meaning
/// is a state, the operation succeeds and ends in that state; where it is a
/// fault, the operation fails with that fault and ends where it began.
pub open spec fn outcome_is(
    meaning: Result<CpuState, Fault>,
    r: Result<(), Fault>,
    before: CpuState,
    after: CpuState,
) -> bool {
    match meaning {
        Ok(state) => r == Ok::<(), Fault>(()) && after == state,
        Err(fault) => r == Err::<(), Fault>(fault) && after == before,
    }
}

/// `base + index` with 8-bit wraparound.
fn offset_byte(base: u8, index: u8) -> (sum: u8)
    ensures
        sum == (base + index) % 256,
{
    base.wrapping_add(index)
}

/// `base + index` with 16-bit wraparound.
fn offset_word(base: u16, index: u8) -> (sum: u16)
    ensures
        sum == (base + index) % 0x10000,
{
    base.wrapping_add(index as u16)
}

/// The little-endian word made of the two bytes.
fn join_bytes(lo: u8, hi: u8) -> (joined: u16)
    ensures
        joined == word(lo, hi),
{
    proof {
        assert(((hi as u16) << 8) | (lo as u16) == (hi as u16) * 256 + (lo as u16)) by (bit_vector);
    }
    ((hi as u16) << 8) | (lo as u16)
}

} // verus!
