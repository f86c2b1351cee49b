use emulator::screen::color;
use emulator::screen::read_screen_state;
use emulator::Bus;
use emulator::Cpu;
use emulator::CpuFlags;
use emulator::Memory;
use emulator::Status;

#[test]
fn test_stack_pointer_wraps_after_256_pushes() {
    let mut cpu = Cpu::default();
    let start = cpu.stack_pointer;
    for _ in 0..256 {
        cpu.stack_push(0xAB);
    }

    assert_eq!(cpu.stack_pointer, start);
}

#[test]
fn test_stack_u16_round_trip_and_byte_order() {
    let mut cpu = Cpu::default();
    let sp_before = cpu.stack_pointer;
    cpu.stack_push_u16(0xBEEF);

    // High byte first, then low byte.
    assert_eq!(cpu.mem_read(0x0100u16.wrapping_add(sp_before as u16)), 0xBE);
    assert_eq!(
        cpu.mem_read(0x0100u16.wrapping_add(sp_before.wrapping_sub(1) as u16)),
        0xEF
    );
    assert_eq!(cpu.stack_pop_u16(), 0xBEEF);
    assert_eq!(cpu.stack_pointer, sp_before);
}

#[test]
fn test_stack_pop_reinterprets_any_flag_byte() {
    let mut cpu = Cpu::default();
    cpu.stack_push(0xFF);
    let status = Status::from_bits(cpu.stack_pop());

    assert!(status.contains(CpuFlags::CarryBit));
    assert!(status.contains(CpuFlags::Negative));
    assert_eq!(status.bits(), 0xFF);
}

#[test]
fn test_bus_read_write() {
    let mut bus = Bus::default();
    assert_eq!(bus.read(0x1234), 0);
    bus.write(0x1234, 0x99);

    assert_eq!(bus.read(0x1234), 0x99);
    assert_eq!(bus.read(0xFFFF), 0);
}

#[test]
fn test_bus_memory_trait_little_endian() {
    let mut bus = Bus::default();
    bus.mem_write_u16(0x0010, 0xABCD);

    assert_eq!(bus.mem_read(0x0010), 0xCD);
    assert_eq!(bus.mem_read(0x0011), 0xAB);
    assert_eq!(bus.mem_read_u16(0x0010), 0xABCD);
}

#[test]
fn test_cpu_mem_u16_wraps_at_top_of_memory() {
    let mut cpu = Cpu::default();
    cpu.mem_write(0xFFFF, 0x34);
    cpu.mem_write(0x0000, 0x12);

    assert_eq!(cpu.mem_read_u16(0xFFFF), 0x1234);
}

#[test]
fn test_status_set_and_serialize() {
    let mut status = Status::default();
    status.insert(CpuFlags::CarryBit);
    status.set(CpuFlags::Negative, true);
    assert_eq!(status.bits(), 0x81);
    assert!(status.contains(CpuFlags::CarryBit));
    assert!(!status.contains(CpuFlags::Zero));

    status.remove(CpuFlags::CarryBit);
    status.set(CpuFlags::Negative, false);
    assert_eq!(status.bits(), 0x00);
}

#[test]
fn test_color_palette_exact() {
    assert_eq!(color(0), (0, 0, 0));
    assert_eq!(color(1), (255, 255, 255));
    assert_eq!(color(2), (92, 92, 92));
    assert_eq!(color(9), (92, 92, 92));
    assert_eq!(color(3), (255, 0, 0));
    assert_eq!(color(10), (255, 0, 0));
    assert_eq!(color(4), (0, 255, 0));
    assert_eq!(color(11), (0, 255, 0));
    assert_eq!(color(5), (0, 0, 255));
    assert_eq!(color(12), (0, 0, 255));
    assert_eq!(color(6), (255, 0, 255));
    assert_eq!(color(13), (255, 0, 255));
    assert_eq!(color(7), (255, 255, 0));
    assert_eq!(color(14), (255, 255, 0));
    assert_eq!(color(8), (0, 255, 255));
    assert_eq!(color(15), (0, 255, 255));
    assert_eq!(color(200), (0, 255, 255));
}

#[test]
fn test_read_screen_state_renders_display_range() {
    let mut cpu = Cpu::default();
    cpu.mem_write(0x0200, 1); // first pixel: white
    cpu.mem_write(0x05FF, 3); // last pixel: red
    let frame = read_screen_state(&cpu);

    assert_eq!(frame.len(), 32 * 32 * 4);
    assert_eq!(&frame[0..4], &[255, 255, 255, 255]);
    let last = frame.len() - 4;
    assert_eq!(&frame[last..], &[255, 0, 0, 255]);
    // An unset byte renders black, fully opaque.
    assert_eq!(&frame[4..8], &[0, 0, 0, 255]);
}

#[test]
fn test_opcode_descriptor_accessors() {
    let opcode = emulator::Opcode::new(
        0xA9,
        emulator::Mnemonic::Lda,
        2,
        2,
        emulator::AddressingMode::Immediate,
    );

    assert_eq!(opcode.code, 0xA9);
    assert_eq!(opcode.len, 2);
    assert_eq!(opcode.cycles, 2);
    assert!(matches!(opcode.mode(), emulator::AddressingMode::Immediate));
}

#[test]
fn test_lookup_opcode_decodes_and_rejects() {
    let lda = emulator::opcodes::lookup_opcode(0xA9).unwrap();
    assert!(matches!(lda.repr, emulator::Mnemonic::Lda));
    assert_eq!(lda.len, 2);

    assert!(emulator::opcodes::lookup_opcode(0xFF).is_none());
    assert!(emulator::opcodes::lookup_opcode(0x02).is_none());
}
