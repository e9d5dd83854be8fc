//! The mathematical model of the processor: its state as plain values and the
//! meaning of every operation as a function on that state.
use vstd::prelude::*;

use super::fault::Fault;
use super::flags::{
    flag_is_set, with_flag, with_flag_set, BREAK, CARRY, INTERRUPT_DISABLE, NEGATIVE, OVERFLOW,
    ZERO,
};
use super::opcodes::{lookup_result, AddressingMode, Mnemonic};

verus! {

/// The number of addressable bytes.
pub const MEMORY_SIZE: usize = 0x10000;

/// The address at which program images are loaded.
pub const PROGRAM_BASE: u16 = 0x8000;

/// The longest program image that `load` accepts.
pub const PROGRAM_SPAN: usize = 0x7FFF;

/// The address of the little-endian word from which `reset` takes the
/// program counter.
pub const RESET_VECTOR: u16 = 0xFFFC;

/// The page that the stack pointer is an offset into.
pub const STACK: u16 = 0x0100;

/// The stack pointer after construction and after a reset.
pub const STACK_RESET: u8 = 0xFD;

/// The status byte after construction and after a reset: interrupt-disable
/// and the unused bit.
pub const STATUS_RESET: u8 = 0b0010_0100;

/// The little-endian word made of the two bytes.
pub open spec fn word(lo: u8, hi: u8) -> u16 {
    (hi * 256 + lo) as u16
}

/// The low byte of a word.
pub open spec fn low_byte(data: u16) -> u8 {
    (data % 256) as u8
}

/// The high byte of a word.
pub open spec fn high_byte(data: u16) -> u8 {
    (data / 256) as u8
}

/// The state of the processor: registers, status byte, and memory.
pub struct CpuState {
    /// The accumulator.
    pub a: u8,
    /// Index register X.
    pub x: u8,
    /// Index register Y.
    pub y: u8,
    /// The status byte, one bit for each flag.
    pub status: u8,
    /// The stack pointer.
    pub sp: u8,
    /// The address of the next byte to be fetched.
    pub pc: u16,
    /// The contents of memory, one byte for each address.
    pub mem: Seq<u8>,
}

impl CpuState {
    /// Memory holds one byte for each of the 65,536 addresses.
    pub open spec fn wf(self) -> bool {
        self.mem.len() == MEMORY_SIZE
    }

    /// The state of a newly made processor: zeroed registers and memory, the
    /// default status and stack pointer.
    pub open spec fn initial() -> CpuState {
        CpuState {
            a: 0,
            x: 0,
            y: 0,
            status: STATUS_RESET,
            sp: STACK_RESET,
            pc: 0,
            mem: Seq::new(MEMORY_SIZE as nat, |i: int| 0u8),
        }
    }

    /// The byte at `addr`.
    pub open spec fn read(self, addr: u16) -> u8 {
        self.mem[addr as int]
    }

    /// The little-endian word at `pos` and `pos + 1`; a fault where `pos + 1`
    /// is no address.
    pub open spec fn read_word(self, pos: u16) -> Result<u16, Fault> {
        if pos == 0xFFFF {
            Err(Fault::OutOfBounds(pos))
        } else {
            Ok(word(self.read(pos), self.read((pos + 1) as u16)))
        }
    }

    /// The state with `data` at `addr`.
    pub open spec fn write(self, addr: u16, data: u8) -> CpuState {
        CpuState { mem: self.mem.update(addr as int, data), ..self }
    }

    /// The state with `data` as the little-endian word at `pos` and
    /// `pos + 1`; a fault where `pos + 1` is no address.
    pub open spec fn write_word(self, pos: u16, data: u16) -> Result<CpuState, Fault> {
        if pos == 0xFFFF {
            Err(Fault::OutOfBounds(pos))
        } else {
            Ok(self.write(pos, low_byte(data)).write((pos + 1) as u16, high_byte(data)))
        }
    }

    /// The little-endian word in the zero page at `ptr`; the address of its
    /// high byte wraps within the zero page.
    pub open spec fn zero_page_word(self, ptr: u8) -> u16 {
        word(self.mem[ptr as int], self.mem[(ptr + 1) % 256])
    }

    /// The effective address of the operand under `mode`, read from the
    /// operand bytes at the program counter.
    pub open spec fn operand_address(self, mode: AddressingMode) -> Result<u16, Fault> {
        match mode {
            AddressingMode::Immediate => Ok(self.pc),
            AddressingMode::ZeroPage => Ok(self.read(self.pc) as u16),
            AddressingMode::ZeroPage_X => Ok(((self.read(self.pc) + self.x) % 256) as u16),
            AddressingMode::ZeroPage_Y => Ok(((self.read(self.pc) + self.y) % 256) as u16),
            AddressingMode::Absolute => self.read_word(self.pc),
            AddressingMode::Absolute_X => match self.read_word(self.pc) {
                Ok(base) => Ok(((base + self.x) % 0x10000) as u16),
                Err(fault) => Err(fault),
            },
            AddressingMode::Absolute_Y => match self.read_word(self.pc) {
                Ok(base) => Ok(((base + self.y) % 0x10000) as u16),
                Err(fault) => Err(fault),
            },
            AddressingMode::Indirect_X => Ok(
                self.zero_page_word(((self.read(self.pc) + self.x) % 256) as u8),
            ),
            AddressingMode::Indirect_Y => Ok(
                ((self.zero_page_word(self.read(self.pc)) + self.y) % 0x10000) as u16,
            ),
            AddressingMode::NoneAddressing => Err(Fault::UnsupportedAddressingMode(mode)),
        }
    }

    /// The carry flag as a number: 1 where it is set, 0 where it is clear.
    pub open spec fn carry_in(self) -> int {
        if flag_is_set(self.status, CARRY) {
            1
        } else {
            0
        }
    }

    /// The state with ZERO set exactly where `value` is zero, and NEGATIVE
    /// set exactly where bit 7 of `value` is set.
    pub open spec fn with_zero_and_negative(self, value: u8) -> CpuState {
        CpuState {
            status: with_flag(with_flag(self.status, ZERO, value == 0), NEGATIVE, value >= 0x80),
            ..self
        }
    }

    /// The state with CARRY set exactly where the accumulator, `value` and
    /// the carry flag add up to more than a byte holds.
    pub open spec fn with_carry_of_sum(self, value: u8) -> CpuState {
        CpuState {
            status: with_flag(self.status, CARRY, self.a + value + self.carry_in() > 0xFF),
            ..self
        }
    }

    /// BRK: sets BREAK and INTERRUPT_DISABLE.
    pub open spec fn brk(self) -> CpuState {
        CpuState {
            status: with_flag_set(with_flag_set(self.status, BREAK), INTERRUPT_DISABLE),
            ..self
        }
    }

    /// INX: X goes up by one and wraps from 0xFF to 0x00; ZERO and NEGATIVE
    /// follow the new X.
    pub open spec fn inx(self) -> CpuState {
        let x = ((self.x + 1) % 256) as u8;
        CpuState { x, ..self }.with_zero_and_negative(x)
    }

    /// TAX: X becomes the accumulator; ZERO and NEGATIVE follow it.
    pub open spec fn tax(self) -> CpuState {
        CpuState { x: self.a, ..self }.with_zero_and_negative(self.a)
    }

    /// LDA: the accumulator becomes the byte at the effective address; ZERO
    /// and NEGATIVE follow it.
    pub open spec fn lda(self, mode: AddressingMode) -> Result<CpuState, Fault> {
        match self.operand_address(mode) {
            Ok(addr) => Ok(
                CpuState { a: self.read(addr), ..self }.with_zero_and_negative(self.read(addr)),
            ),
            Err(fault) => Err(fault),
        }
    }

    /// STA: the byte at the effective address becomes the accumulator; no
    /// flag changes.
    pub open spec fn sta(self, mode: AddressingMode) -> Result<CpuState, Fault> {
        match self.operand_address(mode) {
            Ok(addr) => Ok(self.write(addr, self.a)),
            Err(fault) => Err(fault),
        }
    }

    /// The sum that ADC leaves in the accumulator: accumulator, operand and
    /// carry, wrapped to a byte.
    pub open spec fn adc_sum(self, operand: u8) -> u8 {
        ((self.a + operand + self.carry_in()) % 256) as u8
    }

    /// ADC: the accumulator becomes the wrapped sum; CARRY and OVERFLOW are
    /// set together where the sum is not above the accumulator it replaces,
    /// and cleared together where it is; ZERO and NEGATIVE follow the sum.
    pub open spec fn adc(self, mode: AddressingMode) -> Result<CpuState, Fault> {
        match self.operand_address(mode) {
            Ok(addr) => {
                let sum = self.adc_sum(self.read(addr));
                Ok(
                    CpuState {
                        a: sum,
                        status: with_flag(
                            with_flag(self.status, CARRY, sum <= self.a),
                            OVERFLOW,
                            sum <= self.a,
                        ),
                        ..self
                    }.with_zero_and_negative(sum),
                )
            },
            Err(fault) => Err(fault),
        }
    }

    /// The difference that SBC leaves in the accumulator: accumulator minus
    /// operand minus the borrow (one where CARRY is clear), wrapped to a byte.
    pub open spec fn sbc_difference(self, operand: u8) -> u8 {
        ((self.a - operand - (1 - self.carry_in())) % 256) as u8
    }

    /// SBC: the accumulator becomes the wrapped difference; no flag changes.
    pub open spec fn sbc(self, mode: AddressingMode) -> Result<CpuState, Fault> {
        match self.operand_address(mode) {
            Ok(addr) => Ok(CpuState { a: self.sbc_difference(self.read(addr)), ..self }),
            Err(fault) => Err(fault),
        }
    }

    /// The effect of the instruction `name` under `mode`; a fault for a
    /// mnemonic that has no behaviour yet.
    pub open spec fn execute(self, name: Mnemonic, mode: AddressingMode) -> Result<
        CpuState,
        Fault,
    > {
        match name {
            Mnemonic::Adc => self.adc(mode),
            Mnemonic::Brk => Ok(self.brk()),
            Mnemonic::Inx => Ok(self.inx()),
            Mnemonic::Lda => self.lda(mode),
            Mnemonic::Sbc => self.sbc(mode),
            Mnemonic::Sta => self.sta(mode),
            Mnemonic::Tax => Ok(self.tax()),
            _ => Err(Fault::UnimplementedInstruction(name)),
        }
    }

    /// Whether the BREAK flag is set, which ends a run.
    pub open spec fn halted(self) -> bool {
        flag_is_set(self.status, BREAK)
    }

    /// One turn of the fetch-decode-execute cycle: the byte at the program
    /// counter is fetched and the counter advanced by one, the byte is looked
    /// up in the opcode table, the instruction is executed, and, unless the
    /// instruction moved the counter itself, the counter skips the operand
    /// bytes.
    pub open spec fn step(self) -> Result<CpuState, Fault> {
        let opcode = self.read(self.pc);
        if self.pc == 0xFFFF {
            Err(Fault::OutOfBounds(self.pc))
        } else {
            match lookup_result(opcode) {
                Err(fault) => Err(fault),
                Ok(op) => {
                    let fetched = CpuState { pc: (self.pc + 1) as u16, ..self };
                    match fetched.execute(op.0, op.3) {
                        Err(fault) => Err(fault),
                        Ok(done) => if done.pc != fetched.pc {
                            Ok(done)
                        } else if done.pc + op.1 - 1 > 0xFFFF {
                            Err(Fault::OutOfBounds(done.pc))
                        } else {
                            Ok(CpuState { pc: (done.pc + op.1 - 1) as u16, ..done })
                        },
                    }
                },
            }
        }
    }

    /// A run: steps are taken until one leaves the BREAK flag set or meets a
    /// fault.  The result is the state that the run ends in and how it ended;
    /// a step that meets a fault leaves the state as the step before it did.
    pub open spec fn run(self) -> (CpuState, Result<(), Fault>)
        decreases 0x10000 - self.pc,
        via Self::run_terminates
    {
        match self.step() {
            Err(fault) => (self, Err(fault)),
            Ok(next) => if next.halted() {
                (next, Ok(()))
            } else {
                next.run()
            },
        }
    }

    #[via_fn]
    proof fn run_terminates(self) {
        self.lemma_step_advances();
    }

    /// The state with `program` copied to memory from `PROGRAM_BASE` on.
    pub open spec fn with_program(self, program: Seq<u8>) -> CpuState {
        CpuState {
            mem: Seq::new(
                self.mem.len(),
                |i: int|
                    if PROGRAM_BASE <= i < PROGRAM_BASE + program.len() {
                        program[i - PROGRAM_BASE]
                    } else {
                        self.mem[i]
                    },
            ),
            ..self
        }
    }

    /// The state with `program` copied to memory from `PROGRAM_BASE` on and
    /// then the reset vector pointing there; a fault for a program longer
    /// than `PROGRAM_SPAN`.
    pub open spec fn load(self, program: Seq<u8>) -> Result<CpuState, Fault> {
        if program.len() > PROGRAM_SPAN {
            Err(Fault::OutOfBounds(PROGRAM_BASE))
        } else {
            self.with_program(program).write_word(RESET_VECTOR, PROGRAM_BASE)
        }
    }

    /// The state after a reset: registers zeroed, status and stack pointer
    /// at their defaults, the program counter taken from the reset vector.
    pub open spec fn reset(self) -> CpuState {
        CpuState {
            a: 0,
            x: 0,
            y: 0,
            status: STATUS_RESET,
            sp: STACK_RESET,
            pc: word(self.read(RESET_VECTOR), self.read((RESET_VECTOR + 1) as u16)),
            mem: self.mem,
        }
    }

    /// Loading `program`, then a reset, then a run: where the load fails
    /// nothing changes; otherwise the result is that of the run.
    pub open spec fn load_and_run(self, program: Seq<u8>) -> (CpuState, Result<(), Fault>) {
        match self.load(program) {
            Ok(loaded) => loaded.reset().run(),
            Err(fault) => (self, Err(fault)),
        }
    }

    /// A step that completes moves the program counter forward by the length
    /// of the instruction that it executed, changes neither the stack
    /// pointer nor index register Y, and keeps memory whole.
    pub proof fn lemma_step_advances(self)
        ensures
            self.step() matches Ok(next) ==> {
                &&& lookup_result(self.read(self.pc)) matches Ok(op)
                &&& next.pc == self.pc + op.1
                &&& self.pc < next.pc
                &&& next.sp == self.sp
                &&& next.y == self.y
                &&& self.wf() ==> next.wf()
            },
    {
        if let Ok(op) = lookup_result(self.read(self.pc)) {
            let fetched = CpuState { pc: (self.pc + 1) as u16, ..self };
            fetched.lemma_execute_keeps(op.0, op.3);
        }
    }

    /// No implemented instruction moves the program counter, the stack
    /// pointer or index register Y, and each keeps memory whole.
    pub proof fn lemma_execute_keeps(self, name: Mnemonic, mode: AddressingMode)
        ensures
            self.execute(name, mode) matches Ok(done) ==> {
                &&& done.pc == self.pc
                &&& done.sp == self.sp
                &&& done.y == self.y
                &&& self.wf() ==> done.wf()
            },
    {
    }
}

} // verus!
