use emulator::Cpu;
use emulator::CpuFlags;

#[test]
fn test_and_eor_ora_immediate() {
    let mut cpu = Cpu::default();
    cpu.load_and_run(vec![0xA9, 0b1100_1100, 0x29, 0b1010_1010, 0x00]).unwrap();
    assert_eq!(cpu.register_a, 0b1000_1000);

    let mut cpu = Cpu::default();
    cpu.load_and_run(vec![0xA9, 0b1100_1100, 0x49, 0b1010_1010, 0x00]).unwrap();
    assert_eq!(cpu.register_a, 0b0110_0110);

    let mut cpu = Cpu::default();
    cpu.load_and_run(vec![0xA9, 0b1100_1100, 0x09, 0b1010_1010, 0x00]).unwrap();
    assert_eq!(cpu.register_a, 0b1110_1110);
}

#[test]
fn test_pha_pla_round_trip() {
    // PHA; LDA #0; PLA: the accumulator comes back from the stack, and the
    // pointer returns to where it started.
    let mut cpu = Cpu::default();
    cpu.load(vec![0x48, 0xA9, 0x00, 0x68, 0x00]);
    cpu.reset();
    cpu.register_a = 0x3C;
    let sp_before = cpu.stack_pointer;
    cpu.run().unwrap();

    assert_eq!(cpu.register_a, 0x3C);
    assert_eq!(cpu.stack_pointer, sp_before);
}

#[test]
fn test_rti_restores_status_and_counter() {
    // Push a return address and a status byte by hand, then RTI.
    let mut cpu = Cpu::default();
    cpu.load(vec![0x40]);
    cpu.reset();
    cpu.stack_push_u16(0x1234);
    cpu.stack_push(0b1100_0011);
    cpu.run_single_cycle().unwrap();

    assert_eq!(cpu.program_counter, 0x1234);
    assert!(cpu.status.contains(CpuFlags::CarryBit));
    assert!(cpu.status.contains(CpuFlags::Zero));
    assert!(cpu.status.contains(CpuFlags::Overflow));
    assert!(cpu.status.contains(CpuFlags::Negative));
    // Break comes back cleared and the unused bit forced on.
    assert!(!cpu.status.contains(CpuFlags::Break));
    assert!(cpu.status.contains(CpuFlags::_Unused));
}

#[test]
fn test_txs_and_tsx() {
    // TXS moves X into the stack pointer without touching the flags; TSX
    // moves it back and updates them.
    let mut cpu = Cpu::default();
    cpu.load(vec![0x9A, 0x00]);
    cpu.reset();
    cpu.register_x = 0x00;
    cpu.run().unwrap();
    assert_eq!(cpu.stack_pointer, 0x00);
    assert!(!cpu.status.contains(CpuFlags::Zero));

    let mut cpu = Cpu::default();
    cpu.load(vec![0xBA, 0x00]);
    cpu.reset();
    cpu.stack_pointer = 0x80;
    cpu.run().unwrap();
    assert_eq!(cpu.register_x, 0x80);
    assert!(cpu.status.contains(CpuFlags::Negative));
}

#[test]
fn test_stx_sty_write_registers() {
    let mut cpu = Cpu::default();
    cpu.load(vec![0x86, 0x21, 0x84, 0x22, 0x00]);
    cpu.reset();
    cpu.register_x = 0x11;
    cpu.register_y = 0x22;
    cpu.run().unwrap();

    assert_eq!(cpu.mem_read(0x21), 0x11);
    assert_eq!(cpu.mem_read(0x22), 0x22);
}

#[test]
fn test_lda_absolute_and_absolute_x() {
    let mut cpu = Cpu::default();
    cpu.mem_write(0x1234, 0x5A);
    cpu.load_and_run(vec![0xAD, 0x34, 0x12, 0x00]).unwrap();
    assert_eq!(cpu.register_a, 0x5A);

    let mut cpu = Cpu::default();
    cpu.mem_write(0x1236, 0x66);
    cpu.load(vec![0xBD, 0x34, 0x12, 0x00]);
    cpu.reset();
    cpu.register_x = 0x02;
    cpu.run().unwrap();
    assert_eq!(cpu.register_a, 0x66);
}

#[test]
fn test_lda_indirect_x_and_indirect_y() {
    // Indirect,X: the zero-page pointer is indexed before dereferencing.
    let mut cpu = Cpu::default();
    cpu.mem_write(0x24, 0x74);
    cpu.mem_write(0x25, 0x20);
    cpu.mem_write(0x2074, 0x99);
    cpu.load(vec![0xA1, 0x20, 0x00]);
    cpu.reset();
    cpu.register_x = 0x04;
    cpu.run().unwrap();
    assert_eq!(cpu.register_a, 0x99);

    // Indirect,Y: the pointer is dereferenced first, Y added afterward.
    let mut cpu = Cpu::default();
    cpu.mem_write(0x20, 0x74);
    cpu.mem_write(0x21, 0x20);
    cpu.mem_write(0x2078, 0x55);
    cpu.load(vec![0xB1, 0x20, 0x00]);
    cpu.reset();
    cpu.register_y = 0x04;
    cpu.run().unwrap();
    assert_eq!(cpu.register_a, 0x55);
}

#[test]
fn test_flag_set_and_clear_instructions() {
    let mut cpu = Cpu::default();
    cpu.load_and_run(vec![0x38, 0xF8, 0x78, 0x00]).unwrap();
    assert!(cpu.status.contains(CpuFlags::CarryBit));
    assert!(cpu.status.contains(CpuFlags::DecimalMode));
    assert!(cpu.status.contains(CpuFlags::DisableInterrupts));

    let mut cpu = Cpu::default();
    cpu.load_and_run(vec![0x38, 0xF8, 0x78, 0x18, 0xD8, 0x58, 0x00]).unwrap();
    assert_eq!(cpu.status.bits(), 0);
}

#[test]
fn test_nop_only_advances() {
    let mut cpu = Cpu::default();
    cpu.load(vec![0xEA, 0x00]);
    cpu.reset();
    cpu.run_single_cycle().unwrap();

    assert_eq!(cpu.program_counter, 0x0601);
    assert_eq!(cpu.register_a, 0);
    assert_eq!(cpu.status.bits(), 0);
}

#[test]
fn test_lsr_memory_and_ror_memory() {
    let mut cpu = Cpu::default();
    cpu.mem_write(0x10, 0x05);
    cpu.load_and_run(vec![0x46, 0x10, 0x00]).unwrap();
    assert_eq!(cpu.mem_read(0x10), 0x02);
    assert!(cpu.status.contains(CpuFlags::CarryBit));

    let mut cpu = Cpu::default();
    cpu.mem_write(0x10, 0x02);
    cpu.load_and_run(vec![0x38, 0x66, 0x10, 0x00]).unwrap();
    assert_eq!(cpu.mem_read(0x10), 0x81);
    assert!(!cpu.status.contains(CpuFlags::CarryBit));
}

#[test]
fn test_sbc_with_borrow_wraps() {
    // With the carry clear (a pending borrow), 3 - 5 - 1 wraps to 0xFD and
    // the carry stays clear to signal the borrow.
    let mut cpu = Cpu::default();
    cpu.load_and_run(vec![0xA9, 0x03, 0xE9, 0x05, 0x00]).unwrap();

    assert_eq!(cpu.register_a, 0xFD);
    assert!(!cpu.status.contains(CpuFlags::CarryBit));
    assert!(cpu.status.contains(CpuFlags::Negative));
}

#[test]
fn test_cpy_family_matches_cpx() {
    let mut cpu = Cpu::default();
    cpu.load(vec![0xC0, 0x05, 0x00]);
    cpu.reset();
    cpu.register_y = 0x09;
    cpu.run().unwrap();

    assert!(cpu.status.contains(CpuFlags::CarryBit));
    assert!(!cpu.status.contains(CpuFlags::Zero));
}
