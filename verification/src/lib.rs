//! An instruction-level interpreter for the 6502 microprocessor.
//!
//! The crate models the register file, the status flags, the flat 64KB
//! address space, addressing-mode resolution, the stack page, and the
//! fetch-decode-execute cycle, faithfully enough to run unmodified 6502
//! machine code. Instruction semantics are stated once, as specification
//! functions over a mathematical model of the processor, and the executable
//! interpreter is proved to implement them exactly.

pub mod addressing_mode;
pub mod bus;
pub mod cpu;
pub mod flags;
pub mod laws;
pub mod memory;
pub mod opcodes;
pub mod screen;
pub mod semantics;

pub use addressing_mode::AddressingMode;
pub use bus::Bus;
pub use cpu::Cpu;
pub use cpu::EmuError;
pub use cpu::RunResult;
pub use flags::CpuFlags;
pub use flags::Status;
pub use memory::Memory;
pub use opcodes::Mnemonic;
pub use opcodes::Opcode;

use vstd::prelude::*;

verus! {

/// Running programs read a fresh pseudo-random byte here; the host writes
/// one before each step.
pub const RNG_ADDRESS: u8 = 0xFE;

/// The host writes the key code of the last pressed button here.
pub const LAST_PRESSED_BUTTON_ADDRESS: u8 = 0xFF;

} // verus!
