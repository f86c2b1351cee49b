use emulator::Cpu;
use emulator::CpuFlags;
use emulator::EmuError;
use emulator::RunResult;

#[test]
fn test_0xa9_lda_immediate_load_data() {
    let mut cpu = Cpu::default();
    cpu.load_and_run(vec![0xA9, 0x05, 0x00]).unwrap();

    assert_eq!(cpu.register_a, 0x05);
    assert!(!cpu.status.contains(CpuFlags::Zero));
    assert!(!cpu.status.contains(CpuFlags::Negative));
}

#[test]
fn test_0xa9_lda_zero_flag() {
    let mut cpu = Cpu::default();
    cpu.load_and_run(vec![0xa9, 0x00, 0x00]).unwrap();

    assert_eq!(cpu.register_a, 0);
    assert!(cpu.status.contains(CpuFlags::Zero));
}

#[test]
fn test_lda_from_memory() {
    let mut cpu = Cpu::default();
    cpu.mem_write(0x10, 0x55);

    cpu.load_and_run(vec![0xa5, 0x10, 0x00]).unwrap();

    assert_eq!(cpu.register_a, 0x55);
}

#[test]
fn test_0xaa_tax_move_a_to_x() {
    let mut cpu = Cpu::default();
    cpu.load(vec![0xAA, 0x00]);
    cpu.reset();
    cpu.register_a = 10;
    cpu.run().unwrap();

    assert_eq!(cpu.register_x, 10)
}

#[test]
fn test_5_ops_working_together() {
    let mut cpu = Cpu::default();
    cpu.load_and_run(vec![0xA9, 0xC0, 0xAA, 0xE8, 0x00]).unwrap();

    assert_eq!(cpu.register_x, 0xc1)
}

#[test]
fn test_inx_overflow() {
    let mut cpu = Cpu::default();
    cpu.load(vec![0xE8, 0xE8, 0x00]);
    cpu.reset();
    cpu.register_x = u8::MAX;
    cpu.run().unwrap();

    assert_eq!(cpu.register_x, 1)
}

#[test]
fn test_lda_terminates_at_brk() {
    let mut cpu = Cpu::default();
    let outcome = cpu.load_and_run(vec![0xA9, 0x05, 0x00]);

    assert!(matches!(outcome, Ok(RunResult::Done)));
}

#[test]
fn test_iny_and_dey_wrap() {
    let mut cpu = Cpu::default();
    cpu.load(vec![0xC8, 0x00]);
    cpu.reset();
    cpu.register_y = 0xFF;
    cpu.run().unwrap();
    assert_eq!(cpu.register_y, 0x00);
    assert!(cpu.status.contains(CpuFlags::Zero));

    let mut cpu = Cpu::default();
    cpu.load(vec![0x88, 0x00]);
    cpu.reset();
    cpu.register_y = 0x00;
    cpu.run().unwrap();
    assert_eq!(cpu.register_y, 0xFF);
    assert!(cpu.status.contains(CpuFlags::Negative));
}

#[test]
fn test_dex_wraps() {
    let mut cpu = Cpu::default();
    cpu.load(vec![0xCA, 0x00]);
    cpu.reset();
    cpu.register_x = 0x00;
    cpu.run().unwrap();

    assert_eq!(cpu.register_x, 0xFF);
}

#[test]
fn test_adc_boundary_flags() {
    // 0xFF + 0x01 with no carry-in: result 0x00, Carry set, Zero set,
    // Overflow clear, Negative clear.
    let mut cpu = Cpu::default();
    cpu.load_and_run(vec![0xA9, 0xFF, 0x69, 0x01, 0x00]).unwrap();

    assert_eq!(cpu.register_a, 0x00);
    assert!(cpu.status.contains(CpuFlags::CarryBit));
    assert!(cpu.status.contains(CpuFlags::Zero));
    assert!(!cpu.status.contains(CpuFlags::Overflow));
    assert!(!cpu.status.contains(CpuFlags::Negative));
}

#[test]
fn test_adc_overflow_flag_sign_change() {
    // 0x50 + 0x50 = 0xA0: two positive operands with a negative result set
    // Overflow and Negative, not Carry.
    let mut cpu = Cpu::default();
    cpu.load_and_run(vec![0xA9, 0x50, 0x69, 0x50, 0x00]).unwrap();

    assert_eq!(cpu.register_a, 0xA0);
    assert!(!cpu.status.contains(CpuFlags::CarryBit));
    assert!(cpu.status.contains(CpuFlags::Overflow));
    assert!(cpu.status.contains(CpuFlags::Negative));
}

#[test]
fn test_sbc_subtract_with_carry() {
    // With the carry set (no borrow), 5 - 3 = 2 and the carry stays set.
    let mut cpu = Cpu::default();
    cpu.load_and_run(vec![0xA9, 0x05, 0x38, 0xE9, 0x03, 0x00]).unwrap();

    assert_eq!(cpu.register_a, 0x02);
    assert!(cpu.status.contains(CpuFlags::CarryBit));
}

#[test]
fn test_cpx_equal_sets_zero_and_carry() {
    let mut cpu = Cpu::default();
    cpu.load(vec![0xE0, 0x05, 0x00]);
    cpu.reset();
    cpu.register_x = 0x05;
    cpu.run().unwrap();

    assert!(cpu.status.contains(CpuFlags::Zero));
    assert!(cpu.status.contains(CpuFlags::CarryBit));
}

#[test]
fn test_cmp_less_clears_carry() {
    let mut cpu = Cpu::default();
    cpu.load_and_run(vec![0xA9, 0x05, 0xC9, 0x0A, 0x00]).unwrap();

    assert!(!cpu.status.contains(CpuFlags::CarryBit));
    assert!(!cpu.status.contains(CpuFlags::Zero));
    assert!(cpu.status.contains(CpuFlags::Negative));
}

#[test]
fn test_branch_negative_displacement_moves_backward() {
    // LDA #0 sets Zero; BEQ with displacement 0xFC (-4) at 0x0602 moves the
    // counter from the byte after the displacement (0x0604) back to 0x0600,
    // before the branch's own instruction.
    let mut cpu = Cpu::default();
    cpu.load(vec![0xA9, 0x00, 0xF0, 0xFC, 0x00]);
    cpu.reset();
    cpu.run_single_cycle().unwrap();
    assert_eq!(cpu.program_counter, 0x0602);
    cpu.run_single_cycle().unwrap();

    assert_eq!(cpu.program_counter, 0x0600);
}

#[test]
fn test_branch_not_taken_falls_through() {
    // LDA #1 clears Zero, so BEQ falls through to the next instruction.
    let mut cpu = Cpu::default();
    cpu.load(vec![0xA9, 0x01, 0xF0, 0xFC, 0x00]);
    cpu.reset();
    cpu.run_single_cycle().unwrap();
    cpu.run_single_cycle().unwrap();

    assert_eq!(cpu.program_counter, 0x0604);
}

#[test]
fn test_jmp_indirect_page_boundary_bug() {
    // With the pointer at 0x30FF, the target's low byte is read there, but
    // its high byte comes from the start of the same page (0x3000), not
    // from 0x3100: control moves to 0x4080, not 0x5080.
    let mut cpu = Cpu::default();
    cpu.mem_write(0x3000, 0x40);
    cpu.mem_write(0x30FF, 0x80);
    cpu.mem_write(0x3100, 0x50);
    cpu.load(vec![0x6C, 0xFF, 0x30]);
    cpu.reset();
    cpu.run_single_cycle().unwrap();

    assert_eq!(cpu.program_counter, 0x4080);
}

#[test]
fn test_jmp_absolute() {
    let mut cpu = Cpu::default();
    cpu.load(vec![0x4C, 0x34, 0x12]);
    cpu.reset();
    cpu.run_single_cycle().unwrap();

    assert_eq!(cpu.program_counter, 0x1234);
}

#[test]
fn test_jsr_rts_round_trip() {
    // JSR 0x0605; the RTS there resumes at 0x0603, the instruction
    // following the JSR: INX runs, then BRK ends the run.
    let mut cpu = Cpu::default();
    cpu.load_and_run(vec![0x20, 0x05, 0x06, 0xE8, 0x00, 0x60]).unwrap();

    assert_eq!(cpu.register_x, 0x01);
}

#[test]
fn test_jsr_pushes_return_address() {
    let mut cpu = Cpu::default();
    cpu.load(vec![0x20, 0x05, 0x06]);
    cpu.reset();
    let sp_before = cpu.stack_pointer;
    cpu.run_single_cycle().unwrap();

    assert_eq!(cpu.program_counter, 0x0605);
    assert_eq!(cpu.stack_pointer, sp_before.wrapping_sub(2));
    // The pushed address points at the last byte of the JSR instruction.
    let hi = cpu.mem_read(0x0100u16.wrapping_add(sp_before as u16));
    let lo = cpu.mem_read(0x0100u16.wrapping_add(sp_before.wrapping_sub(1) as u16));
    assert_eq!((hi as u16) * 256 + lo as u16, 0x0602);
}

#[test]
fn test_illegal_opcode_reports_byte_and_address() {
    let mut cpu = Cpu::default();
    cpu.load(vec![0xFF]);
    cpu.reset();
    let outcome = cpu.run();

    assert_eq!(
        outcome,
        Err(EmuError::IllegalOpcode { opcode: 0xFF, address: 0x0600 })
    );
    // The failing state still points at the offending fetch.
    assert_eq!(cpu.program_counter, 0x0600);
}

#[test]
fn test_php_plp_round_trip() {
    // SEC; PHP; CLC; PLP: the restored status carries the old Carry, with
    // Break cleared and the unused bit forced on.
    let mut cpu = Cpu::default();
    cpu.load_and_run(vec![0x38, 0x08, 0x18, 0x28, 0x00]).unwrap();

    assert!(cpu.status.contains(CpuFlags::CarryBit));
    assert!(!cpu.status.contains(CpuFlags::Break));
    assert!(cpu.status.contains(CpuFlags::_Unused));
}

#[test]
fn test_php_pushes_break_and_unused() {
    let mut cpu = Cpu::default();
    cpu.load(vec![0x08, 0x00]);
    cpu.reset();
    let sp_before = cpu.stack_pointer;
    cpu.run_single_cycle().unwrap();

    let pushed = cpu.mem_read(0x0100u16.wrapping_add(sp_before as u16));
    assert_eq!(pushed & 0x10, 0x10);
    assert_eq!(pushed & 0x20, 0x20);
}

#[test]
fn test_asl_accumulator_sets_carry() {
    let mut cpu = Cpu::default();
    cpu.load_and_run(vec![0xA9, 0x81, 0x0A, 0x00]).unwrap();

    assert_eq!(cpu.register_a, 0x02);
    assert!(cpu.status.contains(CpuFlags::CarryBit));
}

#[test]
fn test_asl_memory_form() {
    let mut cpu = Cpu::default();
    cpu.mem_write(0x10, 0x81);
    cpu.load_and_run(vec![0x06, 0x10, 0x00]).unwrap();

    assert_eq!(cpu.mem_read(0x10), 0x02);
    assert!(cpu.status.contains(CpuFlags::CarryBit));
}

#[test]
fn test_rol_shifts_carry_in() {
    // SEC; LDA #0x40; ROL A: the old carry enters bit 0 and bit 7 leaves.
    let mut cpu = Cpu::default();
    cpu.load_and_run(vec![0x38, 0xA9, 0x40, 0x2A, 0x00]).unwrap();

    assert_eq!(cpu.register_a, 0x81);
    assert!(!cpu.status.contains(CpuFlags::CarryBit));
}

#[test]
fn test_ror_shifts_carry_into_bit_seven() {
    let mut cpu = Cpu::default();
    cpu.load_and_run(vec![0x38, 0xA9, 0x02, 0x6A, 0x00]).unwrap();

    assert_eq!(cpu.register_a, 0x81);
    assert!(!cpu.status.contains(CpuFlags::CarryBit));
}

#[test]
fn test_lsr_accumulator() {
    let mut cpu = Cpu::default();
    cpu.load_and_run(vec![0xA9, 0x03, 0x4A, 0x00]).unwrap();

    assert_eq!(cpu.register_a, 0x01);
    assert!(cpu.status.contains(CpuFlags::CarryBit));
}

#[test]
fn test_bit_sets_flags_from_operand() {
    let mut cpu = Cpu::default();
    cpu.mem_write(0x10, 0xC0);
    cpu.load_and_run(vec![0xA9, 0x0F, 0x24, 0x10, 0x00]).unwrap();

    assert!(cpu.status.contains(CpuFlags::Zero));
    assert!(cpu.status.contains(CpuFlags::Negative));
    assert!(cpu.status.contains(CpuFlags::Overflow));
}

#[test]
fn test_ldx_ldy_immediate() {
    let mut cpu = Cpu::default();
    cpu.load_and_run(vec![0xA2, 0x07, 0xA0, 0x09, 0x00]).unwrap();

    assert_eq!(cpu.register_x, 0x07);
    assert_eq!(cpu.register_y, 0x09);
}

#[test]
fn test_sta_writes_memory() {
    let mut cpu = Cpu::default();
    cpu.load_and_run(vec![0xA9, 0x42, 0x85, 0x10, 0x00]).unwrap();

    assert_eq!(cpu.mem_read(0x10), 0x42);
}

#[test]
fn test_inc_dec_write_through_memory() {
    // INC and DEC are read-modify-write on the addressed byte; the
    // accumulator is left alone.
    let mut cpu = Cpu::default();
    cpu.mem_write(0x10, 0x7F);
    cpu.load_and_run(vec![0xA9, 0x42, 0xE6, 0x10, 0x00]).unwrap();
    assert_eq!(cpu.mem_read(0x10), 0x80);
    assert_eq!(cpu.register_a, 0x42);
    assert!(cpu.status.contains(CpuFlags::Negative));

    let mut cpu = Cpu::default();
    cpu.mem_write(0x10, 0x01);
    cpu.load_and_run(vec![0xC6, 0x10, 0x00]).unwrap();
    assert_eq!(cpu.mem_read(0x10), 0x00);
    assert!(cpu.status.contains(CpuFlags::Zero));
}

#[test]
fn test_inc_dec_wrap_in_memory() {
    let mut cpu = Cpu::default();
    cpu.mem_write(0x10, 0xFF);
    cpu.load_and_run(vec![0xE6, 0x10, 0x00]).unwrap();
    assert_eq!(cpu.mem_read(0x10), 0x00);
    assert!(cpu.status.contains(CpuFlags::Zero));

    let mut cpu = Cpu::default();
    cpu.load_and_run(vec![0xC6, 0x10, 0x00]).unwrap();
    assert_eq!(cpu.mem_read(0x10), 0xFF);
    assert!(cpu.status.contains(CpuFlags::Negative));
}

#[test]
fn test_inc_absolute_x_form() {
    let mut cpu = Cpu::default();
    cpu.mem_write(0x1234, 0x09);
    cpu.load(vec![0xFE, 0x30, 0x12, 0x00]);
    cpu.reset();
    cpu.register_x = 0x04;
    cpu.run().unwrap();

    assert_eq!(cpu.mem_read(0x1234), 0x0A);
}

#[test]
fn test_indexed_zero_page_wraps_in_page() {
    // LDA zero-page,X with base 0xFF and X = 2 reads 0x0001, not 0x0101.
    let mut cpu = Cpu::default();
    cpu.mem_write(0x0001, 0x77);
    cpu.mem_write(0x0101, 0x33);
    cpu.load(vec![0xB5, 0xFF, 0x00]);
    cpu.reset();
    cpu.register_x = 0x02;
    cpu.run().unwrap();

    assert_eq!(cpu.register_a, 0x77);
}

#[test]
fn test_reset_clears_a_and_status_keeps_x() {
    let mut cpu = Cpu::default();
    cpu.load(vec![0x00]);
    cpu.register_a = 0x55;
    cpu.register_x = 0x66;
    cpu.status.insert(CpuFlags::CarryBit);
    cpu.reset();

    assert_eq!(cpu.register_a, 0);
    assert_eq!(cpu.status.bits(), 0);
    assert_eq!(cpu.register_x, 0x66);
    assert_eq!(cpu.program_counter, 0x0600);
}

#[test]
fn test_load_writes_image_and_reset_vector() {
    let mut cpu = Cpu::default();
    cpu.load(vec![0xA9, 0x05, 0x00]);

    assert_eq!(cpu.mem_read(0x0600), 0xA9);
    assert_eq!(cpu.mem_read(0x0601), 0x05);
    assert_eq!(cpu.mem_read(0x0602), 0x00);
    assert_eq!(cpu.mem_read_u16(0xFFFC), 0x0600);
}
