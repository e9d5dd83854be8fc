use emu6502::hardware::cpu::CPU;
use emu6502::hardware::fault::Fault;
use emu6502::hardware::opcodes::{AddressingMode, Mnemonic};

#[test]
fn test_0xa9_lda_immediate_load_data() {
    let mut cpu = CPU::new();
    assert_eq!(cpu.load_and_run(vec![0xa9, 0x05, 0x00]), Ok(()));
    assert_eq!(cpu.register_a, 5);
    assert!(cpu.status & 0b0000_0010 == 0b00);
    assert!(cpu.status & 0b1000_0000 == 0);
}

#[test]
fn test_0xaa_tax_move_a_to_x() {
    let mut cpu = CPU::new();
    assert_eq!(cpu.load(vec![0xaa, 0x00]), Ok(()));
    cpu.reset();
    cpu.register_a = 10;
    assert_eq!(cpu.run(), Ok(()));

    assert_eq!(cpu.register_x, 10);
}

#[test]
fn test_5_ops_working_together() {
    let mut cpu = CPU::new();
    assert_eq!(cpu.load_and_run(vec![0xa9, 0xc0, 0xaa, 0xe8, 0x00]), Ok(()));
    assert_eq!(cpu.register_x, 0xc1);
}

#[test]
fn test_inx_overflow() {
    let mut cpu = CPU::new();
    assert_eq!(cpu.load(vec![0xe8, 0xe8, 0x00]), Ok(()));
    cpu.reset();
    cpu.register_x = 0xff;
    assert_eq!(cpu.run(), Ok(()));

    assert_eq!(cpu.register_x, 1);
}

#[test]
fn test_lda_from_mem() {
    let mut cpu = CPU::new();
    cpu.mem_write(0x10, 0x55);
    assert_eq!(cpu.load_and_run(vec![0xa5, 0x10, 0x00]), Ok(()));

    assert_eq!(cpu.register_a, 0x55);
}

#[test]
fn new_processor_has_default_state() {
    let cpu = CPU::new();
    assert_eq!(cpu.register_a, 0);
    assert_eq!(cpu.register_x, 0);
    assert_eq!(cpu.register_y, 0);
    assert_eq!(cpu.status, 0b0010_0100);
    assert_eq!(cpu.stack_pointer, 0xFD);
    assert_eq!(cpu.program_counter, 0);
    assert!(cpu.memory.iter().all(|byte| *byte == 0));
    assert_eq!(cpu.mem_read(0xFFFF), 0);
}

#[test]
fn memory_bytes_are_read_back() {
    let mut cpu = CPU::new();
    cpu.mem_write(0x0000, 0x11);
    cpu.mem_write(0xFFFF, 0x22);
    assert_eq!(cpu.mem_read(0x0000), 0x11);
    assert_eq!(cpu.mem_read(0xFFFF), 0x22);
    assert_eq!(cpu.mem_read(0x0001), 0x00);
}

#[test]
fn memory_words_are_little_endian() {
    let mut cpu = CPU::new();
    assert_eq!(cpu.mem_write_u16(0x1234, 0xBEEF), Ok(()));
    assert_eq!(cpu.mem_read(0x1234), 0xEF);
    assert_eq!(cpu.mem_read(0x1235), 0xBE);
    assert_eq!(cpu.mem_read_u16(0x1234), Ok(0xBEEF));
    cpu.mem_write(0xFFFE, 0x34);
    cpu.mem_write(0xFFFF, 0x12);
    assert_eq!(cpu.mem_read_u16(0xFFFE), Ok(0x1234));
}

#[test]
fn memory_word_at_last_address_is_out_of_bounds() {
    let mut cpu = CPU::new();
    cpu.mem_write(0xFFFF, 0x77);
    assert_eq!(cpu.mem_read_u16(0xFFFF), Err(Fault::OutOfBounds(0xFFFF)));
    assert_eq!(cpu.mem_write_u16(0xFFFF, 0xABCD), Err(Fault::OutOfBounds(0xFFFF)));
    assert_eq!(cpu.mem_read(0xFFFF), 0x77);
    assert_eq!(cpu.mem_read(0x0000), 0x00);
}

#[test]
fn status_flags_are_tested_by_name() {
    let mut cpu = CPU::new();
    assert_eq!(cpu.check_status_flag_set("INTERRUPT_DISABLE"), Ok(true));
    assert_eq!(cpu.check_status_flag_set("BREAK2"), Ok(true));
    assert_eq!(cpu.check_status_flag_set("CARRY"), Ok(false));
    assert_eq!(cpu.check_status_flag_set("ZERO"), Ok(false));
    assert_eq!(cpu.check_status_flag_set("DECIMAL_MODE"), Ok(false));
    assert_eq!(cpu.check_status_flag_set("BREAK"), Ok(false));
    assert_eq!(cpu.check_status_flag_set("OVERFLOW"), Ok(false));
    assert_eq!(cpu.check_status_flag_set("NEGATIVE"), Ok(false));
    cpu.status = 0b1100_0011;
    assert_eq!(cpu.check_status_flag_set("CARRY"), Ok(true));
    assert_eq!(cpu.check_status_flag_set("ZERO"), Ok(true));
    assert_eq!(cpu.check_status_flag_set("INTERRUPT_DISABLE"), Ok(false));
    assert_eq!(cpu.check_status_flag_set("OVERFLOW"), Ok(true));
    assert_eq!(cpu.check_status_flag_set("NEGATIVE"), Ok(true));
}

#[test]
fn status_flags_are_set_and_cleared_by_name() {
    let mut cpu = CPU::new();
    assert_eq!(cpu.set_status_flag("CARRY"), Ok(()));
    assert_eq!(cpu.status, 0b0010_0101);
    assert_eq!(cpu.set_status_flag("NEGATIVE"), Ok(()));
    assert_eq!(cpu.status, 0b1010_0101);
    assert_eq!(cpu.set_status_flag("NEGATIVE"), Ok(()));
    assert_eq!(cpu.status, 0b1010_0101);
    assert_eq!(cpu.unset_status_flag("INTERRUPT_DISABLE"), Ok(()));
    assert_eq!(cpu.status, 0b1010_0001);
    assert_eq!(cpu.unset_status_flag("OVERFLOW"), Ok(()));
    assert_eq!(cpu.status, 0b1010_0001);
    assert_eq!(cpu.unset_status_flag("BREAK2"), Ok(()));
    assert_eq!(cpu.status, 0b1000_0001);
    assert_eq!(cpu.register_a, 0);
    assert_eq!(cpu.program_counter, 0);
}

#[test]
fn unknown_flag_name_is_a_configuration_error() {
    let mut cpu = CPU::new();
    assert_eq!(cpu.check_status_flag_set("HALF_CARRY"), Err(Fault::ConfigurationError("HALF_CARRY")));
    assert_eq!(cpu.set_status_flag("carry"), Err(Fault::ConfigurationError("carry")));
    assert_eq!(cpu.unset_status_flag(""), Err(Fault::ConfigurationError("")));
    assert_eq!(cpu.status, 0b0010_0100);
}

#[test]
fn add_to_register_a_updates_only_carry() {
    let mut cpu = CPU::new();
    cpu.register_a = 0xF0;
    cpu.add_to_register_a(0x10);
    assert_eq!(cpu.status, 0b0010_0101);
    assert_eq!(cpu.register_a, 0xF0);
    cpu.register_a = 0xF0;
    cpu.add_to_register_a(0x0E);
    // 0xF0 + 0x0E + carry = 0xFF: no carry
    assert_eq!(cpu.status, 0b0010_0100);
    cpu.status = 0b0010_0101;
    cpu.register_a = 0xF0;
    cpu.add_to_register_a(0x0F);
    // 0xF0 + 0x0F + carry = 0x100: carry
    assert_eq!(cpu.status, 0b0010_0101);
    cpu.register_a = 0x01;
    cpu.add_to_register_a(0x01);
    assert_eq!(cpu.status, 0b0010_0100);
}

#[test]
fn zero_and_negative_flags_follow_the_value() {
    let mut cpu = CPU::new();
    cpu.update_zero_and_negative_flags(0x00);
    assert_eq!(cpu.status, 0b0010_0110);
    cpu.update_zero_and_negative_flags(0x80);
    assert_eq!(cpu.status, 0b1010_0100);
    cpu.update_zero_and_negative_flags(0x7F);
    assert_eq!(cpu.status, 0b0010_0100);
    cpu.update_zero_and_negative_flags(0xFF);
    assert_eq!(cpu.status, 0b1010_0100);
    cpu.status = 0b0101_1001;
    cpu.update_zero_and_negative_flags(0x01);
    assert_eq!(cpu.status, 0b0101_1001);
}

fn cpu_with_operands() -> CPU {
    let mut cpu = CPU::new();
    cpu.program_counter = 0x0200;
    cpu.mem_write(0x0200, 0xF0);
    cpu.mem_write(0x0201, 0x12);
    cpu.register_x = 0x20;
    cpu.register_y = 0x0F;
    cpu
}

#[test]
fn resolver_immediate_is_the_program_counter() {
    let cpu = cpu_with_operands();
    assert_eq!(cpu.get_operand_address(&AddressingMode::Immediate), Ok(0x0200));
    assert_eq!(cpu.program_counter, 0x0200);
}

#[test]
fn resolver_zero_page_modes() {
    let cpu = cpu_with_operands();
    assert_eq!(cpu.get_operand_address(&AddressingMode::ZeroPage), Ok(0x00F0));
    // 0xF0 + 0x20 wraps within the zero page
    assert_eq!(cpu.get_operand_address(&AddressingMode::ZeroPage_X), Ok(0x0010));
    assert_eq!(cpu.get_operand_address(&AddressingMode::ZeroPage_Y), Ok(0x00FF));
}

#[test]
fn resolver_absolute_modes() {
    let mut cpu = cpu_with_operands();
    assert_eq!(cpu.get_operand_address(&AddressingMode::Absolute), Ok(0x12F0));
    assert_eq!(cpu.get_operand_address(&AddressingMode::Absolute_X), Ok(0x1310));
    assert_eq!(cpu.get_operand_address(&AddressingMode::Absolute_Y), Ok(0x12FF));
    cpu.mem_write(0x0200, 0xF8);
    cpu.mem_write(0x0201, 0xFF);
    // 0xFFF8 + 0x20 wraps within 16 bits
    assert_eq!(cpu.get_operand_address(&AddressingMode::Absolute_X), Ok(0x0018));
    assert_eq!(cpu.get_operand_address(&AddressingMode::Absolute_Y), Ok(0x0007));
}

#[test]
fn resolver_indirect_x() {
    let mut cpu = cpu_with_operands();
    // pointer = 0xF0 + 0x20 = 0x10 after wrapping
    cpu.mem_write(0x0010, 0x34);
    cpu.mem_write(0x0011, 0x12);
    assert_eq!(cpu.get_operand_address(&AddressingMode::Indirect_X), Ok(0x1234));
    // pointer 0xFF: the high byte comes from 0x00
    cpu.register_x = 0x0F;
    cpu.mem_write(0x00FF, 0xCD);
    cpu.mem_write(0x0000, 0xAB);
    cpu.mem_write(0x0100, 0x99);
    assert_eq!(cpu.get_operand_address(&AddressingMode::Indirect_X), Ok(0xABCD));
}

#[test]
fn resolver_indirect_y() {
    let mut cpu = cpu_with_operands();
    cpu.mem_write(0x00F0, 0xF8);
    cpu.mem_write(0x00F1, 0x40);
    assert_eq!(cpu.get_operand_address(&AddressingMode::Indirect_Y), Ok(0x4107));
    cpu.mem_write(0x00F1, 0xFF);
    // 0xFFF8 + 0x0F wraps within 16 bits
    assert_eq!(cpu.get_operand_address(&AddressingMode::Indirect_Y), Ok(0x0007));
    // base pointer 0xFF: the high byte comes from 0x00
    cpu.mem_write(0x0200, 0xFF);
    cpu.mem_write(0x00FF, 0x01);
    cpu.mem_write(0x0000, 0x02);
    cpu.mem_write(0x0100, 0x99);
    assert_eq!(cpu.get_operand_address(&AddressingMode::Indirect_Y), Ok(0x0210));
}

#[test]
fn resolver_refuses_none_addressing() {
    let cpu = cpu_with_operands();
    assert_eq!(
        cpu.get_operand_address(&AddressingMode::NoneAddressing),
        Err(Fault::UnsupportedAddressingMode(AddressingMode::NoneAddressing))
    );
}

#[test]
fn resolver_absolute_at_last_address_is_out_of_bounds() {
    let mut cpu = CPU::new();
    cpu.program_counter = 0xFFFF;
    assert_eq!(cpu.get_operand_address(&AddressingMode::Absolute), Err(Fault::OutOfBounds(0xFFFF)));
    assert_eq!(cpu.get_operand_address(&AddressingMode::Absolute_X), Err(Fault::OutOfBounds(0xFFFF)));
    assert_eq!(cpu.get_operand_address(&AddressingMode::Absolute_Y), Err(Fault::OutOfBounds(0xFFFF)));
    assert_eq!(cpu.get_operand_address(&AddressingMode::Immediate), Ok(0xFFFF));
    assert_eq!(cpu.get_operand_address(&AddressingMode::ZeroPage), Ok(0x0000));
    cpu.program_counter = 0xFFFE;
    cpu.mem_write(0xFFFE, 0x01);
    cpu.mem_write(0xFFFF, 0x02);
    assert_eq!(cpu.get_operand_address(&AddressingMode::Absolute), Ok(0x0201));
}

#[test]
fn lda_immediate_loads_five() {
    let mut cpu = CPU::new();
    cpu.program_counter = 0x0300;
    cpu.mem_write(0x0300, 0x05);
    assert_eq!(cpu.lda(&AddressingMode::Immediate), Ok(()));
    assert_eq!(cpu.register_a, 5);
    assert_eq!(cpu.status & 0b0000_0010, 0);
    assert_eq!(cpu.status & 0b1000_0000, 0);
    assert_eq!(cpu.program_counter, 0x0300);
}

#[test]
fn lda_zero_sets_zero_flag() {
    let mut cpu = CPU::new();
    cpu.register_a = 0x33;
    cpu.program_counter = 0x0300;
    assert_eq!(cpu.lda(&AddressingMode::Immediate), Ok(()));
    assert_eq!(cpu.register_a, 0);
    assert_eq!(cpu.status, 0b0010_0110);
}

#[test]
fn lda_with_bit_seven_sets_negative_flag() {
    let mut cpu = CPU::new();
    cpu.program_counter = 0x0300;
    for value in [0x80u8, 0x81, 0xC0, 0xFF] {
        cpu.mem_write(0x0300, value);
        assert_eq!(cpu.lda(&AddressingMode::Immediate), Ok(()));
        assert_eq!(cpu.register_a, value);
        assert_eq!(cpu.status, 0b1010_0100);
    }
}

#[test]
fn lda_without_address_changes_nothing() {
    let mut cpu = CPU::new();
    cpu.register_a = 0x42;
    assert_eq!(
        cpu.lda(&AddressingMode::NoneAddressing),
        Err(Fault::UnsupportedAddressingMode(AddressingMode::NoneAddressing))
    );
    assert_eq!(cpu.register_a, 0x42);
    assert_eq!(cpu.status, 0b0010_0100);
}

#[test]
fn tax_copies_accumulator_whatever_x_was() {
    for prior_x in [0x00u8, 0x01, 0x7F, 0xFF] {
        let mut cpu = CPU::new();
        cpu.register_a = 0x9C;
        cpu.register_x = prior_x;
        cpu.tax();
        assert_eq!(cpu.register_x, 0x9C);
        assert_eq!(cpu.register_a, 0x9C);
        assert_eq!(cpu.status, 0b1010_0100);
    }
    let mut cpu = CPU::new();
    cpu.register_x = 0x55;
    cpu.tax();
    assert_eq!(cpu.register_x, 0);
    assert_eq!(cpu.status, 0b0010_0110);
}

#[test]
fn inx_wraps_to_zero_and_sets_zero_flag() {
    let mut cpu = CPU::new();
    cpu.register_x = 0xFF;
    cpu.inx();
    assert_eq!(cpu.register_x, 0x00);
    assert_eq!(cpu.status, 0b0010_0110);
    cpu.inx();
    assert_eq!(cpu.register_x, 0x01);
    assert_eq!(cpu.status, 0b0010_0100);
    cpu.register_x = 0x7F;
    cpu.inx();
    assert_eq!(cpu.register_x, 0x80);
    assert_eq!(cpu.status, 0b1010_0100);
}

#[test]
fn sta_then_read_returns_accumulator() {
    let mut cpu = cpu_with_operands();
    cpu.register_a = 0x5A;
    let status = cpu.status;
    for mode in [
        AddressingMode::ZeroPage,
        AddressingMode::ZeroPage_X,
        AddressingMode::ZeroPage_Y,
        AddressingMode::Absolute,
        AddressingMode::Absolute_X,
        AddressingMode::Absolute_Y,
    ] {
        let addr = cpu.get_operand_address(&mode).unwrap();
        assert_eq!(cpu.mem_read(addr), 0x00);
        assert_eq!(cpu.sta(&mode), Ok(()));
        assert_eq!(cpu.mem_read(addr), 0x5A);
    }
    assert_eq!(cpu.status, status);
    assert_eq!(cpu.register_a, 0x5A);
    assert_eq!(
        cpu.sta(&AddressingMode::NoneAddressing),
        Err(Fault::UnsupportedAddressingMode(AddressingMode::NoneAddressing))
    );
}

#[test]
fn adc_adds_operand_and_carry() {
    let mut cpu = CPU::new();
    cpu.program_counter = 0x0300;
    cpu.mem_write(0x0300, 0x10);
    cpu.register_a = 0x20;
    assert_eq!(cpu.adc(&AddressingMode::Immediate), Ok(()));
    // 0x20 + 0x10 + 0 = 0x30, above the old accumulator: carry and overflow clear
    assert_eq!(cpu.register_a, 0x30);
    assert_eq!(cpu.status, 0b0010_0100);
    cpu.status = 0b0110_0101;
    assert_eq!(cpu.adc(&AddressingMode::Immediate), Ok(()));
    // 0x30 + 0x10 + 1 = 0x41
    assert_eq!(cpu.register_a, 0x41);
    assert_eq!(cpu.status, 0b0010_0100);
}

#[test]
fn adc_sets_carry_and_overflow_when_sum_is_not_above_accumulator() {
    let mut cpu = CPU::new();
    cpu.program_counter = 0x0300;
    cpu.mem_write(0x0300, 0x90);
    cpu.register_a = 0x80;
    assert_eq!(cpu.adc(&AddressingMode::Immediate), Ok(()));
    // 0x80 + 0x90 = 0x110 wraps to 0x10
    assert_eq!(cpu.register_a, 0x10);
    assert_eq!(cpu.status, 0b0110_0101);
    // adding zero leaves the sum equal to the accumulator, which counts too
    cpu.status = 0b0010_0100;
    cpu.mem_write(0x0300, 0x00);
    cpu.register_a = 0x07;
    assert_eq!(cpu.adc(&AddressingMode::Immediate), Ok(()));
    assert_eq!(cpu.register_a, 0x07);
    assert_eq!(cpu.status, 0b0110_0101);
    // 0xFF + 0x00 + carry wraps to zero
    cpu.register_a = 0xFF;
    assert_eq!(cpu.adc(&AddressingMode::Immediate), Ok(()));
    assert_eq!(cpu.register_a, 0x00);
    assert_eq!(cpu.status, 0b0110_0111);
    // 0x7F + 0x01: negative result, above the accumulator
    cpu.status = 0b0010_0100;
    cpu.mem_write(0x0300, 0x01);
    cpu.register_a = 0x7F;
    assert_eq!(cpu.adc(&AddressingMode::Immediate), Ok(()));
    assert_eq!(cpu.register_a, 0x80);
    assert_eq!(cpu.status, 0b1010_0100);
}

#[test]
fn sbc_subtracts_operand_and_borrow_without_flags() {
    let mut cpu = CPU::new();
    cpu.program_counter = 0x0300;
    cpu.mem_write(0x0300, 0x10);
    cpu.register_a = 0x30;
    // carry clear: borrow of one
    assert_eq!(cpu.sbc(&AddressingMode::Immediate), Ok(()));
    assert_eq!(cpu.register_a, 0x1F);
    assert_eq!(cpu.status, 0b0010_0100);
    cpu.status = 0b0010_0101;
    assert_eq!(cpu.sbc(&AddressingMode::Immediate), Ok(()));
    assert_eq!(cpu.register_a, 0x0F);
    assert_eq!(cpu.status, 0b0010_0101);
    // 0x0F - 0x10 wraps to 0xFF
    assert_eq!(cpu.sbc(&AddressingMode::Immediate), Ok(()));
    assert_eq!(cpu.register_a, 0xFF);
    assert_eq!(cpu.status, 0b0010_0101);
    // 0x00 - 0x00 - 1 wraps to 0xFF
    cpu.status = 0b0010_0100;
    cpu.mem_write(0x0300, 0x00);
    cpu.register_a = 0x00;
    assert_eq!(cpu.sbc(&AddressingMode::Immediate), Ok(()));
    assert_eq!(cpu.register_a, 0xFF);
    assert_eq!(cpu.status, 0b0010_0100);
}

#[test]
fn brk_sets_break_and_interrupt_disable() {
    let mut cpu = CPU::new();
    cpu.status = 0b1000_0001;
    cpu.stack_pointer = 0x80;
    cpu.brk();
    assert_eq!(cpu.status, 0b1001_0101);
    assert_eq!(cpu.stack_pointer, 0x80);
    assert_eq!(cpu.mem_read(0x0180), 0);
    assert_eq!(cpu.mem_read(0x0181), 0);
}

#[test]
fn execute_dispatches_implemented_mnemonics() {
    let mut cpu = CPU::new();
    cpu.program_counter = 0x0300;
    cpu.mem_write(0x0300, 0x44);
    assert_eq!(cpu.execute(Mnemonic::Lda, &AddressingMode::Immediate), Ok(()));
    assert_eq!(cpu.register_a, 0x44);
    assert_eq!(cpu.execute(Mnemonic::Tax, &AddressingMode::NoneAddressing), Ok(()));
    assert_eq!(cpu.register_x, 0x44);
    assert_eq!(cpu.execute(Mnemonic::Inx, &AddressingMode::NoneAddressing), Ok(()));
    assert_eq!(cpu.register_x, 0x45);
    assert_eq!(cpu.execute(Mnemonic::Adc, &AddressingMode::Immediate), Ok(()));
    assert_eq!(cpu.register_a, 0x88);
    assert_eq!(cpu.execute(Mnemonic::Sbc, &AddressingMode::Immediate), Ok(()));
    assert_eq!(cpu.register_a, 0x43);
    assert_eq!(cpu.execute(Mnemonic::Sta, &AddressingMode::ZeroPage), Ok(()));
    assert_eq!(cpu.mem_read(0x0044), 0x43);
    assert_eq!(cpu.execute(Mnemonic::Brk, &AddressingMode::NoneAddressing), Ok(()));
    assert_eq!(cpu.status & 0b0001_0100, 0b0001_0100);
    assert_eq!(cpu.program_counter, 0x0300);
}

#[test]
fn execute_refuses_unimplemented_mnemonics() {
    let unimplemented = [
        Mnemonic::And, Mnemonic::Asl, Mnemonic::Bcc, Mnemonic::Bcs, Mnemonic::Beq, Mnemonic::Bit,
        Mnemonic::Bmi, Mnemonic::Bne, Mnemonic::Bvc, Mnemonic::Bvs, Mnemonic::Clc, Mnemonic::Cld,
        Mnemonic::Cli, Mnemonic::Clv, Mnemonic::Cmp, Mnemonic::Cpx, Mnemonic::Cpy, Mnemonic::Dec,
        Mnemonic::Dex, Mnemonic::Dey, Mnemonic::Eor, Mnemonic::Inc, Mnemonic::Iny, Mnemonic::Jmp,
        Mnemonic::Jsr, Mnemonic::Ldx, Mnemonic::Ldy, Mnemonic::Lsr, Mnemonic::Nop, Mnemonic::Ora,
        Mnemonic::Pha, Mnemonic::Php, Mnemonic::Pla, Mnemonic::Plp, Mnemonic::Rol, Mnemonic::Ror,
        Mnemonic::Rti, Mnemonic::Rts, Mnemonic::Sec, Mnemonic::Sed, Mnemonic::Sei, Mnemonic::Stx,
        Mnemonic::Sty, Mnemonic::Tay, Mnemonic::Tsx, Mnemonic::Txa, Mnemonic::Txs, Mnemonic::Tya,
    ];
    assert_eq!(unimplemented.len(), 48);
    for name in unimplemented {
        let mut cpu = CPU::new();
        cpu.register_a = 0x12;
        assert_eq!(
            cpu.execute(name, &AddressingMode::Immediate),
            Err(Fault::UnimplementedInstruction(name))
        );
        assert_eq!(cpu.register_a, 0x12);
        assert_eq!(cpu.register_x, 0);
        assert_eq!(cpu.status, 0b0010_0100);
        assert_eq!(cpu.program_counter, 0);
    }
}

#[test]
fn load_copies_program_and_sets_reset_vector() {
    let mut cpu = CPU::new();
    cpu.register_a = 0x77;
    cpu.program_counter = 0x1234;
    assert_eq!(cpu.load(vec![0x01, 0x02, 0x03]), Ok(()));
    assert_eq!(cpu.mem_read(0x7FFF), 0x00);
    assert_eq!(cpu.mem_read(0x8000), 0x01);
    assert_eq!(cpu.mem_read(0x8001), 0x02);
    assert_eq!(cpu.mem_read(0x8002), 0x03);
    assert_eq!(cpu.mem_read(0x8003), 0x00);
    assert_eq!(cpu.mem_read(0xFFFC), 0x00);
    assert_eq!(cpu.mem_read(0xFFFD), 0x80);
    assert_eq!(cpu.mem_read_u16(0xFFFC), Ok(0x8000));
    assert_eq!(cpu.register_a, 0x77);
    assert_eq!(cpu.program_counter, 0x1234);
}

#[test]
fn load_then_reset_starts_at_load_base() {
    for program in [vec![], vec![0x00], vec![0xA9, 0x05, 0x00], vec![0xFF; 0x7FFF]] {
        let mut cpu = CPU::new();
        cpu.program_counter = 0x4321;
        cpu.register_a = 1;
        cpu.register_x = 2;
        cpu.register_y = 3;
        cpu.status = 0xFF;
        cpu.stack_pointer = 0x10;
        assert_eq!(cpu.load(program), Ok(()));
        cpu.reset();
        assert_eq!(cpu.program_counter, 0x8000);
        assert_eq!(cpu.register_a, 0);
        assert_eq!(cpu.register_x, 0);
        assert_eq!(cpu.register_y, 0);
        assert_eq!(cpu.status, 0b0010_0100);
        assert_eq!(cpu.stack_pointer, 0xFD);
    }
}

#[test]
fn load_of_longest_program_keeps_reset_vector() {
    let mut cpu = CPU::new();
    assert_eq!(cpu.load(vec![0xEE; 0x7FFF]), Ok(()));
    assert_eq!(cpu.mem_read(0x8000), 0xEE);
    assert_eq!(cpu.mem_read(0xFFFB), 0xEE);
    assert_eq!(cpu.mem_read(0xFFFC), 0x00);
    assert_eq!(cpu.mem_read(0xFFFD), 0x80);
    assert_eq!(cpu.mem_read(0xFFFE), 0xEE);
    assert_eq!(cpu.mem_read(0xFFFF), 0x00);
}

#[test]
fn load_refuses_program_beyond_span() {
    let mut cpu = CPU::new();
    cpu.mem_write(0x8000, 0x11);
    assert_eq!(cpu.load(vec![0xEE; 0x8000]), Err(Fault::OutOfBounds(0x8000)));
    assert_eq!(cpu.mem_read(0x8000), 0x11);
    assert_eq!(cpu.mem_read(0x8001), 0x00);
    assert_eq!(cpu.mem_read(0xFFFC), 0x00);
    assert_eq!(cpu.mem_read(0xFFFD), 0x00);
    assert_eq!(cpu.load_and_run(vec![0x00; 0x8001]), Err(Fault::OutOfBounds(0x8000)));
    assert_eq!(cpu.program_counter, 0);
    assert_eq!(cpu.mem_read(0x8000), 0x11);
}

#[test]
fn reset_reads_program_counter_from_reset_vector() {
    let mut cpu = CPU::new();
    cpu.mem_write(0xFFFC, 0xCD);
    cpu.mem_write(0xFFFD, 0xAB);
    cpu.mem_write(0x0042, 0x99);
    cpu.register_a = 9;
    cpu.status = 0;
    cpu.reset();
    assert_eq!(cpu.program_counter, 0xABCD);
    assert_eq!(cpu.register_a, 0);
    assert_eq!(cpu.status, 0b0010_0100);
    assert_eq!(cpu.mem_read(0x0042), 0x99);
}

#[test]
fn step_executes_one_instruction() {
    let mut cpu = CPU::new();
    assert_eq!(cpu.load(vec![0xa9, 0x05, 0x00]), Ok(()));
    cpu.reset();
    assert_eq!(cpu.step(), Ok(false));
    assert_eq!(cpu.register_a, 5);
    assert_eq!(cpu.program_counter, 0x8002);
    assert_eq!(cpu.step(), Ok(true));
    assert_eq!(cpu.program_counter, 0x8003);
    assert_eq!(cpu.status, 0b0011_0100);
}

#[test]
fn run_halts_after_lda_and_brk() {
    let mut cpu = CPU::new();
    assert_eq!(cpu.load_and_run(vec![0xa9, 0x05, 0x00]), Ok(()));
    assert_eq!(cpu.register_a, 5);
    assert_eq!(cpu.status & 0b0000_0010, 0);
    assert_eq!(cpu.status & 0b1000_0000, 0);
    // two instructions were executed: three bytes past the load base
    assert_eq!(cpu.program_counter, 0x8003);
    assert_eq!(cpu.status & 0b0001_0000, 0b0001_0000);
}

#[test]
fn run_advances_past_three_byte_instructions() {
    let mut cpu = CPU::new();
    cpu.mem_write(0x1234, 0x66);
    // LDA $1234; STA $0300; BRK
    assert_eq!(cpu.load_and_run(vec![0xAD, 0x34, 0x12, 0x8D, 0x00, 0x03, 0x00]), Ok(()));
    assert_eq!(cpu.register_a, 0x66);
    assert_eq!(cpu.mem_read(0x0300), 0x66);
    assert_eq!(cpu.program_counter, 0x8007);
}

#[test]
fn run_executes_one_instruction_even_when_break_is_set() {
    let mut cpu = CPU::new();
    assert_eq!(cpu.load(vec![0xe8, 0xe8, 0x00]), Ok(()));
    cpu.reset();
    cpu.status = 0b0011_0100;
    assert_eq!(cpu.run(), Ok(()));
    assert_eq!(cpu.register_x, 1);
    assert_eq!(cpu.program_counter, 0x8001);
}

#[test]
fn run_stops_at_unknown_opcode() {
    let mut cpu = CPU::new();
    assert_eq!(cpu.load_and_run(vec![0xe8, 0x02, 0x00]), Err(Fault::UnknownOpcode(0x02)));
    // the failed step changed nothing: the counter is at the unknown byte
    assert_eq!(cpu.register_x, 1);
    assert_eq!(cpu.program_counter, 0x8001);
    assert_eq!(cpu.status & 0b0001_0000, 0);
}

#[test]
fn every_absent_opcode_is_unknown() {
    let known = [
        0xADu8, 0xBD, 0xB9, 0xA9, 0xA1, 0xB1, 0xA5, 0xB5, 0x8D, 0x9D, 0x99, 0x81, 0x91, 0x85, 0x95,
        0x6D, 0x7D, 0x79, 0x69, 0x61, 0x71, 0x65, 0x75, 0x00, 0xAA, 0xE8,
    ];
    let mut cpu = CPU::new();
    cpu.program_counter = 0x0400;
    let mut absent = 0;
    for byte in 0..=255u8 {
        if known.contains(&byte) {
            continue;
        }
        absent += 1;
        cpu.mem_write(0x0400, byte);
        assert_eq!(cpu.step(), Err(Fault::UnknownOpcode(byte)));
        assert_eq!(cpu.program_counter, 0x0400);
        assert_eq!(cpu.run(), Err(Fault::UnknownOpcode(byte)));
        assert_eq!(cpu.program_counter, 0x0400);
        assert_eq!(cpu.status, 0b0010_0100);
        assert_eq!(cpu.register_a, 0);
        assert_eq!(cpu.register_x, 0);
    }
    assert_eq!(absent, 230);
}

#[test]
fn run_off_the_end_of_memory_is_out_of_bounds() {
    let mut cpu = CPU::new();
    cpu.mem_write(0xFFFE, 0xE8);
    cpu.mem_write(0xFFFF, 0xE8);
    cpu.program_counter = 0xFFFE;
    assert_eq!(cpu.run(), Err(Fault::OutOfBounds(0xFFFF)));
    assert_eq!(cpu.register_x, 1);
    assert_eq!(cpu.program_counter, 0xFFFF);
}

#[test]
fn step_with_operand_at_last_address_changes_nothing() {
    let mut cpu = CPU::new();
    // LDA #$77 whose operand is the last byte of memory
    cpu.mem_write(0xFFFE, 0xA9);
    cpu.mem_write(0xFFFF, 0x77);
    cpu.program_counter = 0xFFFE;
    assert_eq!(cpu.step(), Err(Fault::OutOfBounds(0xFFFF)));
    assert_eq!(cpu.register_a, 0);
    assert_eq!(cpu.program_counter, 0xFFFE);
    assert_eq!(cpu.status, 0b0010_0100);
    // LDA $xxxx whose operand would begin at the last byte
    cpu.mem_write(0xFFFE, 0xAD);
    assert_eq!(cpu.step(), Err(Fault::OutOfBounds(0xFFFF)));
    assert_eq!(cpu.program_counter, 0xFFFE);
    // BRK at the last but one byte still completes
    cpu.mem_write(0xFFFE, 0x00);
    assert_eq!(cpu.step(), Ok(true));
    assert_eq!(cpu.program_counter, 0xFFFF);
}
