//! The processor: register file, status register, program counter, stack
//! pointer and the bus, together with the fetch-decode-execute cycle.
//!
//! Every public operation is specified against the model in
//! [`crate::semantics`] and proved to implement it exactly.

use vstd::prelude::*;

use crate::addressing_mode::AddressingMode;
use crate::bus::zeroed_mem;
use crate::bus::Bus;
use crate::flags::CpuFlags;
use crate::flags::Status;
use crate::opcodes::lemma_opcode_table;
use crate::opcodes::lookup_opcode;
use crate::opcodes::table_entry_ok;
use crate::opcodes::Mnemonic;
use crate::opcodes::Opcode;
use crate::semantics::adc_sem;
use crate::semantics::add_to_a_sem;
use crate::semantics::and_sem;
use crate::semantics::asl_acc_sem;
use crate::semantics::asl_sem;
use crate::semantics::bit_sem;
use crate::semantics::branch_sem;
use crate::semantics::compare_sem;
use crate::semantics::cpu_wf;
use crate::semantics::dec_sem;
use crate::semantics::dex_sem;
use crate::semantics::dey_sem;
use crate::semantics::eor_sem;
use crate::semantics::execute_sem;
use crate::semantics::fails_at;
use crate::semantics::inc_sem;
use crate::semantics::inx_sem;
use crate::semantics::iny_sem;
use crate::semantics::jmp_abs_sem;
use crate::semantics::jmp_ind_sem;
use crate::semantics::jsr_sem;
use crate::semantics::lda_sem;
use crate::semantics::ldx_sem;
use crate::semantics::ldy_sem;
use crate::semantics::lemma_runs_to_snoc;
use crate::semantics::load_sem;
use crate::semantics::lsr_acc_sem;
use crate::semantics::lsr_sem;
use crate::semantics::mem16;
use crate::semantics::mem_write16;
use crate::semantics::operand_address;
use crate::semantics::ora_sem;
use crate::semantics::pha_sem;
use crate::semantics::php_sem;
use crate::semantics::pla_sem;
use crate::semantics::plp_sem;
use crate::semantics::pop16_val;
use crate::semantics::pop_val;
use crate::semantics::popped;
use crate::semantics::popped2;
use crate::semantics::push16_sem;
use crate::semantics::push_sem;
use crate::semantics::reaches;
use crate::semantics::reset_sem;
use crate::semantics::rol_acc_sem;
use crate::semantics::rol_sem;
use crate::semantics::ror_acc_sem;
use crate::semantics::ror_sem;
use crate::semantics::rti_sem;
use crate::semantics::rts_sem;
use crate::semantics::runs_to;
use crate::semantics::sbc_sem;
use crate::semantics::set_a_sem;
use crate::semantics::sta_sem;
use crate::semantics::step;
use crate::semantics::stx_sem;
use crate::semantics::sty_sem;
use crate::semantics::tax_sem;
use crate::semantics::tay_sem;
use crate::semantics::terminates_to;
use crate::semantics::tsx_sem;
use crate::semantics::txa_sem;
use crate::semantics::txs_sem;
use crate::semantics::tya_sem;
use crate::semantics::update_zn;
use crate::semantics::CpuModel;
use crate::semantics::StepResult;
use crate::semantics::GAME_START_ADDRESS;
use crate::semantics::MEM_SIZE;
use crate::semantics::RESET_ADDRESS;
use crate::semantics::STACK;

verus! {

/// Whether one cycle left the interpreter running or at a terminal break.
#[derive(Copy, Clone, Debug, PartialEq, Eq, Structural)]
pub enum RunResult {
    Running,
    Done,
}

/// The interpreter's error taxonomy.
#[derive(Copy, Clone, Debug, PartialEq, Eq, Structural)]
pub enum EmuError {
    /// The fetched byte has no entry in the opcode table; the interpreter
    /// cannot continue past it, since the addressing mode and operand
    /// length are unknown. Carries the offending byte and its address.
    IllegalOpcode { opcode: u8, address: u16 },
}

/// The processor. The fields are public, as hosts prime registers directly
/// before running; the view below is open, so a caller that writes a field
/// can still relate the new state to the model. Memory is reached through
/// the accessors, which keep the bus well-formed.
#[derive(Debug)]
pub struct Cpu {
    pub register_a: u8,
    pub register_x: u8,
    pub register_y: u8,
    pub status: Status,
    pub program_counter: u16,
    pub stack_pointer: u8,
    pub bus: Bus,
}

impl View for Cpu {
    type V = CpuModel;

    open spec fn view(&self) -> CpuModel {
        CpuModel {
            a: self.register_a,
            x: self.register_x,
            y: self.register_y,
            status: self.status@,
            pc: self.program_counter,
            sp: self.stack_pointer,
            mem: self.bus@,
        }
    }
}

/// The state a processor is constructed with: everything zeroed.
pub open spec fn initial_cpu() -> CpuModel {
    CpuModel { a: 0, x: 0, y: 0, status: 0, pc: 0, sp: 0, mem: zeroed_mem() }
}

impl Default for Cpu {
    /// A processor with all registers, flags and memory zeroed.
    fn default() -> (cpu: Cpu)
        ensures
            cpu.wf(),
            cpu@ == initial_cpu(),
    {
        Cpu {
            register_a: 0,
            register_x: 0,
            register_y: 0,
            status: Status::default(),
            program_counter: 0,
            stack_pointer: 0,
            bus: Bus::default(),
        }
    }
}

impl Cpu {
    /// The memory behind the bus covers the whole address space.
    pub open spec fn wf(&self) -> bool {
        cpu_wf(self@)
    }

    /// Read the byte at `addr`.
    pub fn mem_read(&self, addr: u16) -> (data: u8)
        requires
            self.wf(),
        ensures
            data == self@.mem[addr as int],
    {
        self.bus.read(addr)
    }

    /// Write `data` at `addr`; only memory changes.
    pub fn mem_write(&mut self, addr: u16, data: u8)
        requires
            old(self).wf(),
        ensures
            final(self).wf(),
            final(self)@ == (CpuModel { mem: old(self)@.mem.update(addr as int, data), ..old(self)@ }),
    {
        self.bus.write(addr, data);
    }

    /// Read the 16-bit little-endian value at `addr`.
    pub fn mem_read_u16(&self, addr: u16) -> (data: u16)
        requires
            self.wf(),
        ensures
            data == mem16(self@.mem, addr),
    {
        let lo = self.bus.read(addr);
        let hi = self.bus.read(addr.wrapping_add(1));
        (hi as u16) * 256 + (lo as u16)
    }

    /// Write the 16-bit value `data` at `addr` in little-endian order.
    pub fn mem_write_u16(&mut self, addr: u16, data: u16)
        requires
            old(self).wf(),
        ensures
            final(self).wf(),
            final(self)@ == (CpuModel { mem: mem_write16(old(self)@.mem, addr, data), ..old(self)@ }),
    {
        let lo = (data % 256) as u8;
        let hi = (data / 256) as u8;
        self.bus.write(addr, lo);
        self.bus.write(addr.wrapping_add(1), hi);
    }

    /// Push a byte: store at `STACK + sp`, then decrement the pointer,
    /// wrapping within the stack page.
    pub fn stack_push(&mut self, data: u8)
        requires
            old(self).wf(),
        ensures
            final(self).wf(),
            final(self)@ == push_sem(old(self)@, data),
    {
        self.bus.write(STACK + self.stack_pointer as u16, data);
        self.stack_pointer = self.stack_pointer.wrapping_sub(1);
    }

    /// Pop a byte: increment the pointer, wrapping within the stack page,
    /// then read at `STACK + sp`.
    pub fn stack_pop(&mut self) -> (data: u8)
        requires
            old(self).wf(),
        ensures
            final(self).wf(),
            final(self)@ == popped(old(self)@),
            data == pop_val(old(self)@),
    {
        self.stack_pointer = self.stack_pointer.wrapping_add(1);
        self.bus.read(STACK + self.stack_pointer as u16)
    }

    /// Push a 16-bit value: high byte first, then low byte.
    pub fn stack_push_u16(&mut self, data: u16)
        requires
            old(self).wf(),
        ensures
            final(self).wf(),
            final(self)@ == push16_sem(old(self)@, data),
    {
        let hi = (data / 256) as u8;
        let lo = (data % 256) as u8;
        self.stack_push(hi);
        self.stack_push(lo);
    }

    /// Pop a 16-bit value: low byte first, then high byte.
    pub fn stack_pop_u16(&mut self) -> (data: u16)
        requires
            old(self).wf(),
        ensures
            final(self).wf(),
            final(self)@ == popped2(old(self)@),
            data == pop16_val(old(self)@),
    {
        let lo = self.stack_pop();
        let hi = self.stack_pop();
        (hi as u16) * 256 + (lo as u16)
    }

    /// Resolve the effective address for an addressing mode, reading
    /// operand bytes at the current program counter without advancing it.
    pub fn get_operand_address(&self, mode: AddressingMode) -> (addr: u16)
        requires
            self.wf(),
            mode != AddressingMode::NoneAddressing,
        ensures
            addr == operand_address(self@, mode),
    {
        match mode {
            AddressingMode::Immediate => self.program_counter,
            AddressingMode::ZeroPage => self.mem_read(self.program_counter) as u16,
            AddressingMode::Absolute => self.mem_read_u16(self.program_counter),
            AddressingMode::ZeroPageX => {
                let pos = self.mem_read(self.program_counter);
                pos.wrapping_add(self.register_x) as u16
            },
            AddressingMode::ZeroPageY => {
                let pos = self.mem_read(self.program_counter);
                pos.wrapping_add(self.register_y) as u16
            },
            AddressingMode::AbsoluteX => {
                let base = self.mem_read_u16(self.program_counter);
                base.wrapping_add(self.register_x as u16)
            },
            AddressingMode::AbsoluteY => {
                let base = self.mem_read_u16(self.program_counter);
                base.wrapping_add(self.register_y as u16)
            },
            AddressingMode::IndirectX => {
                let base = self.mem_read(self.program_counter);
                let ptr = base.wrapping_add(self.register_x);
                let lo = self.mem_read(ptr as u16);
                let hi = self.mem_read(ptr.wrapping_add(1) as u16);
                (hi as u16) * 256 + (lo as u16)
            },
            AddressingMode::IndirectY => {
                let base = self.mem_read(self.program_counter);
                let lo = self.mem_read(base as u16);
                let hi = self.mem_read(base.wrapping_add(1) as u16);
                let deref_base = (hi as u16) * 256 + (lo as u16);
                deref_base.wrapping_add(self.register_y as u16)
            },
            AddressingMode::NoneAddressing => 0,
        }
    }

    /// The shared post-computation step: Zero follows `result == 0`,
    /// Negative follows bit 7 of `result`.
    fn update_zero_and_negative_flags(&mut self, result: u8)
        ensures
            final(self)@ == (CpuModel {
                status: update_zn(old(self)@.status, result),
                ..old(self)@
            }),
    {
        self.status.set(CpuFlags::Zero, result == 0);
        self.status.set(CpuFlags::Negative, result & CpuFlags::Negative.mask() != 0);
    }

    /// Set the accumulator and update Zero and Negative from it.
    fn set_register_a(&mut self, value: u8)
        ensures
            final(self)@ == set_a_sem(old(self)@, value),
    {
        self.register_a = value;
        self.update_zero_and_negative_flags(value);
    }

    /// Add `value` and the carry-in to the accumulator, setting Carry,
    /// Overflow, Zero and Negative.
    fn add_to_register_a(&mut self, value: u8)
        ensures
            final(self)@ == add_to_a_sem(old(self)@, value),
    {
        let carry: u16 = if self.status.contains(CpuFlags::CarryBit) {
            1
        } else {
            0
        };
        let sum: u16 = self.register_a as u16 + value as u16 + carry;
        self.status.set(CpuFlags::CarryBit, sum > 255);
        let result = (sum % 256) as u8;
        self.status.set(
            CpuFlags::Overflow,
            (value ^ result) & (result ^ self.register_a) & 0x80 != 0,
        );
        self.set_register_a(result);
    }

    fn adc(&mut self, mode: AddressingMode)
        requires
            old(self).wf(),
            mode != AddressingMode::NoneAddressing,
        ensures
            final(self).wf(),
            final(self)@ == adc_sem(old(self)@, mode),
    {
        let addr = self.get_operand_address(mode);
        let data = self.mem_read(addr);
        self.add_to_register_a(data);
    }

    fn sbc(&mut self, mode: AddressingMode)
        requires
            old(self).wf(),
            mode != AddressingMode::NoneAddressing,
        ensures
            final(self).wf(),
            final(self)@ == sbc_sem(old(self)@, mode),
    {
        let addr = self.get_operand_address(mode);
        let data = self.mem_read(addr);
        self.add_to_register_a(255 - data);
    }

    fn and(&mut self, mode: AddressingMode)
        requires
            old(self).wf(),
            mode != AddressingMode::NoneAddressing,
        ensures
            final(self).wf(),
            final(self)@ == and_sem(old(self)@, mode),
    {
        let addr = self.get_operand_address(mode);
        let data = self.mem_read(addr);
        self.set_register_a(data & self.register_a);
    }

    fn eor(&mut self, mode: AddressingMode)
        requires
            old(self).wf(),
            mode != AddressingMode::NoneAddressing,
        ensures
            final(self).wf(),
            final(self)@ == eor_sem(old(self)@, mode),
    {
        let addr = self.get_operand_address(mode);
        let data = self.mem_read(addr);
        self.set_register_a(data ^ self.register_a);
    }

    fn ora(&mut self, mode: AddressingMode)
        requires
            old(self).wf(),
            mode != AddressingMode::NoneAddressing,
        ensures
            final(self).wf(),
            final(self)@ == ora_sem(old(self)@, mode),
    {
        let addr = self.get_operand_address(mode);
        let data = self.mem_read(addr);
        self.set_register_a(data | self.register_a);
    }

    fn bit(&mut self, mode: AddressingMode)
        requires
            old(self).wf(),
            mode != AddressingMode::NoneAddressing,
        ensures
            final(self).wf(),
            final(self)@ == bit_sem(old(self)@, mode),
    {
        let addr = self.get_operand_address(mode);
        let data = self.mem_read(addr);
        let conjunction = self.register_a & data;
        self.status.set(CpuFlags::Zero, conjunction == 0);
        self.status.set(CpuFlags::Negative, data & CpuFlags::Negative.mask() > 0);
        self.status.set(CpuFlags::Overflow, data & CpuFlags::Overflow.mask() > 0);
    }

    fn compare(&mut self, mode: AddressingMode, compare_with: u8)
        requires
            old(self).wf(),
            mode != AddressingMode::NoneAddressing,
        ensures
            final(self).wf(),
            final(self)@ == compare_sem(old(self)@, mode, compare_with),
    {
        let addr = self.get_operand_address(mode);
        let data = self.mem_read(addr);
        self.status.set(CpuFlags::CarryBit, data <= compare_with);
        self.update_zero_and_negative_flags(compare_with.wrapping_sub(data));
    }

    fn asl(&mut self, mode: AddressingMode)
        requires
            old(self).wf(),
            mode != AddressingMode::NoneAddressing,
        ensures
            final(self).wf(),
            final(self)@ == asl_sem(old(self)@, mode),
    {
        let addr = self.get_operand_address(mode);
        let data = self.mem_read(addr);
        self.status.set(CpuFlags::CarryBit, data >> 7 == 1);
        let shifted = data << 1;
        self.mem_write(addr, shifted);
        self.update_zero_and_negative_flags(shifted);
    }

    fn asl_accumulator(&mut self)
        ensures
            final(self)@ == asl_acc_sem(old(self)@),
    {
        let data = self.register_a;
        self.status.set(CpuFlags::CarryBit, data >> 7 == 1);
        self.set_register_a(data << 1);
    }

    fn lsr(&mut self, mode: AddressingMode)
        requires
            old(self).wf(),
            mode != AddressingMode::NoneAddressing,
        ensures
            final(self).wf(),
            final(self)@ == lsr_sem(old(self)@, mode),
    {
        let addr = self.get_operand_address(mode);
        let data = self.mem_read(addr);
        self.status.set(CpuFlags::CarryBit, data & 1 == 1);
        let shifted = data >> 1;
        self.mem_write(addr, shifted);
        self.update_zero_and_negative_flags(shifted);
    }

    fn lsr_accumulator(&mut self)
        ensures
            final(self)@ == lsr_acc_sem(old(self)@),
    {
        let data = self.register_a;
        self.status.set(CpuFlags::CarryBit, data & 1 == 1);
        self.set_register_a(data >> 1);
    }

    fn rol(&mut self, mode: AddressingMode)
        requires
            old(self).wf(),
            mode != AddressingMode::NoneAddressing,
        ensures
            final(self).wf(),
            final(self)@ == rol_sem(old(self)@, mode),
    {
        let addr = self.get_operand_address(mode);
        let data = self.mem_read(addr);
        let old_carry = self.status.contains(CpuFlags::CarryBit);
        self.status.set(CpuFlags::CarryBit, data >> 7 == 1);
        let rotated = if old_carry {
            (data << 1) | 1
        } else {
            data << 1
        };
        self.mem_write(addr, rotated);
        self.update_zero_and_negative_flags(rotated);
    }

    fn rol_accumulator(&mut self)
        ensures
            final(self)@ == rol_acc_sem(old(self)@),
    {
        let data = self.register_a;
        let old_carry = self.status.contains(CpuFlags::CarryBit);
        self.status.set(CpuFlags::CarryBit, data >> 7 == 1);
        let rotated = if old_carry {
            (data << 1) | 1
        } else {
            data << 1
        };
        self.set_register_a(rotated);
    }

    fn ror(&mut self, mode: AddressingMode)
        requires
            old(self).wf(),
            mode != AddressingMode::NoneAddressing,
        ensures
            final(self).wf(),
            final(self)@ == ror_sem(old(self)@, mode),
    {
        let addr = self.get_operand_address(mode);
        let data = self.mem_read(addr);
        let old_carry = self.status.contains(CpuFlags::CarryBit);
        self.status.set(CpuFlags::CarryBit, data & 1 == 1);
        let rotated = if old_carry {
            (data >> 1) | CpuFlags::Negative.mask()
        } else {
            data >> 1
        };
        self.mem_write(addr, rotated);
        self.update_zero_and_negative_flags(rotated);
    }

    fn ror_accumulator(&mut self)
        ensures
            final(self)@ == ror_acc_sem(old(self)@),
    {
        let data = self.register_a;
        let old_carry = self.status.contains(CpuFlags::CarryBit);
        self.status.set(CpuFlags::CarryBit, data & 1 == 1);
        let rotated = if old_carry {
            (data >> 1) | CpuFlags::Negative.mask()
        } else {
            data >> 1
        };
        self.set_register_a(rotated);
    }

    fn lda(&mut self, mode: AddressingMode)
        requires
            old(self).wf(),
            mode != AddressingMode::NoneAddressing,
        ensures
            final(self).wf(),
            final(self)@ == lda_sem(old(self)@, mode),
    {
        let addr = self.get_operand_address(mode);
        let value = self.mem_read(addr);
        self.set_register_a(value);
    }

    fn ldx(&mut self, mode: AddressingMode)
        requires
            old(self).wf(),
            mode != AddressingMode::NoneAddressing,
        ensures
            final(self).wf(),
            final(self)@ == ldx_sem(old(self)@, mode),
    {
        let addr = self.get_operand_address(mode);
        let value = self.mem_read(addr);
        self.register_x = value;
        self.update_zero_and_negative_flags(value);
    }

    fn ldy(&mut self, mode: AddressingMode)
        requires
            old(self).wf(),
            mode != AddressingMode::NoneAddressing,
        ensures
            final(self).wf(),
            final(self)@ == ldy_sem(old(self)@, mode),
    {
        let addr = self.get_operand_address(mode);
        let value = self.mem_read(addr);
        self.register_y = value;
        self.update_zero_and_negative_flags(value);
    }

    fn sta(&mut self, mode: AddressingMode)
        requires
            old(self).wf(),
            mode != AddressingMode::NoneAddressing,
        ensures
            final(self).wf(),
            final(self)@ == sta_sem(old(self)@, mode),
    {
        let addr = self.get_operand_address(mode);
        self.mem_write(addr, self.register_a);
    }

    fn stx(&mut self, mode: AddressingMode)
        requires
            old(self).wf(),
            mode != AddressingMode::NoneAddressing,
        ensures
            final(self).wf(),
            final(self)@ == stx_sem(old(self)@, mode),
    {
        let addr = self.get_operand_address(mode);
        self.mem_write(addr, self.register_x);
    }

    fn sty(&mut self, mode: AddressingMode)
        requires
            old(self).wf(),
            mode != AddressingMode::NoneAddressing,
        ensures
            final(self).wf(),
            final(self)@ == sty_sem(old(self)@, mode),
    {
        let addr = self.get_operand_address(mode);
        self.mem_write(addr, self.register_y);
    }

    fn inc(&mut self, mode: AddressingMode)
        requires
            old(self).wf(),
            mode != AddressingMode::NoneAddressing,
        ensures
            final(self).wf(),
            final(self)@ == inc_sem(old(self)@, mode),
    {
        let addr = self.get_operand_address(mode);
        let data = self.mem_read(addr);
        let incremented = data.wrapping_add(1);
        self.mem_write(addr, incremented);
        self.update_zero_and_negative_flags(incremented);
    }

    fn dec(&mut self, mode: AddressingMode)
        requires
            old(self).wf(),
            mode != AddressingMode::NoneAddressing,
        ensures
            final(self).wf(),
            final(self)@ == dec_sem(old(self)@, mode),
    {
        let addr = self.get_operand_address(mode);
        let data = self.mem_read(addr);
        let decremented = data.wrapping_sub(1);
        self.mem_write(addr, decremented);
        self.update_zero_and_negative_flags(decremented);
    }

    fn inx(&mut self)
        ensures
            final(self)@ == inx_sem(old(self)@),
    {
        self.register_x = self.register_x.wrapping_add(1);
        self.update_zero_and_negative_flags(self.register_x);
    }

    fn iny(&mut self)
        ensures
            final(self)@ == iny_sem(old(self)@),
    {
        self.register_y = self.register_y.wrapping_add(1);
        self.update_zero_and_negative_flags(self.register_y);
    }

    fn dex(&mut self)
        ensures
            final(self)@ == dex_sem(old(self)@),
    {
        self.register_x = self.register_x.wrapping_sub(1);
        self.update_zero_and_negative_flags(self.register_x);
    }

    fn dey(&mut self)
        ensures
            final(self)@ == dey_sem(old(self)@),
    {
        self.register_y = self.register_y.wrapping_sub(1);
        self.update_zero_and_negative_flags(self.register_y);
    }

    fn tax(&mut self)
        ensures
            final(self)@ == tax_sem(old(self)@),
    {
        self.register_x = self.register_a;
        self.update_zero_and_negative_flags(self.register_x);
    }

    fn tay(&mut self)
        ensures
            final(self)@ == tay_sem(old(self)@),
    {
        self.register_y = self.register_a;
        self.update_zero_and_negative_flags(self.register_y);
    }

    fn tsx(&mut self)
        ensures
            final(self)@ == tsx_sem(old(self)@),
    {
        self.register_x = self.stack_pointer;
        self.update_zero_and_negative_flags(self.register_x);
    }

    fn txa(&mut self)
        ensures
            final(self)@ == txa_sem(old(self)@),
    {
        self.register_a = self.register_x;
        self.update_zero_and_negative_flags(self.register_a);
    }

    fn txs(&mut self)
        ensures
            final(self)@ == txs_sem(old(self)@),
    {
        self.stack_pointer = self.register_x;
    }

    fn tya(&mut self)
        ensures
            final(self)@ == tya_sem(old(self)@),
    {
        self.register_a = self.register_y;
        self.update_zero_and_negative_flags(self.register_a);
    }

    /// Push the status byte with Break and the unused bit forced on.
    fn php(&mut self)
        requires
            old(self).wf(),
        ensures
            final(self).wf(),
            final(self)@ == php_sem(old(self)@),
    {
        let pushed = self.status.bits() | CpuFlags::Break.mask() | CpuFlags::_Unused.mask();
        self.stack_push(pushed);
    }

    fn pla(&mut self)
        requires
            old(self).wf(),
        ensures
            final(self).wf(),
            final(self)@ == pla_sem(old(self)@),
    {
        let value = self.stack_pop();
        self.set_register_a(value);
    }

    /// Restore the status byte from the stack, clearing Break and forcing
    /// the unused bit on.
    fn plp(&mut self)
        requires
            old(self).wf(),
        ensures
            final(self).wf(),
            final(self)@ == plp_sem(old(self)@),
    {
        let value = self.stack_pop();
        self.status = Status::from_bits(value);
        self.status.remove(CpuFlags::Break);
        self.status.insert(CpuFlags::_Unused);
    }

    fn rti(&mut self)
        requires
            old(self).wf(),
        ensures
            final(self).wf(),
            final(self)@ == rti_sem(old(self)@),
    {
        self.plp();
        self.program_counter = self.stack_pop_u16();
    }

    /// Move the counter: to one past the displacement byte plus the
    /// sign-extended displacement when the condition holds, else just past
    /// the displacement byte.
    fn branch(&mut self, condition: bool)
        requires
            old(self).wf(),
        ensures
            final(self).wf(),
            final(self)@ == branch_sem(old(self)@, condition),
    {
        if condition {
            let displacement = self.mem_read(self.program_counter);
            let offset: u16 = if displacement < 0x80 {
                displacement as u16
            } else {
                0xFF00 + displacement as u16
            };
            self.program_counter = self.program_counter.wrapping_add(1).wrapping_add(offset);
        } else {
            self.program_counter = self.program_counter.wrapping_add(1);
        }
    }

    fn jmp_absolute(&mut self)
        requires
            old(self).wf(),
        ensures
            final(self).wf(),
            final(self)@ == jmp_abs_sem(old(self)@),
    {
        let addr = self.mem_read_u16(self.program_counter);
        self.program_counter = addr;
    }

    /// Indirect jump, reproducing the page-boundary hardware bug: a pointer
    /// whose low byte is 0xFF takes the target's high byte from the start
    /// of the same page.
    fn jmp_indirect(&mut self)
        requires
            old(self).wf(),
        ensures
            final(self).wf(),
            final(self)@ == jmp_ind_sem(old(self)@),
    {
        let ptr = self.mem_read_u16(self.program_counter);
        let target = if ptr % 256 == 0xFF {
            let lo = self.mem_read(ptr);
            let hi = self.mem_read(ptr - 0xFF);
            (hi as u16) * 256 + (lo as u16)
        } else {
            self.mem_read_u16(ptr)
        };
        self.program_counter = target;
    }

    /// Push the address of the last byte of this instruction, then jump to
    /// the 16-bit operand.
    fn jsr(&mut self)
        requires
            old(self).wf(),
        ensures
            final(self).wf(),
            final(self)@ == jsr_sem(old(self)@),
    {
        self.stack_push_u16(self.program_counter.wrapping_add(1));
        let target = self.mem_read_u16(self.program_counter);
        self.program_counter = target;
    }

    /// Resume one past the popped return address.
    fn rts(&mut self)
        requires
            old(self).wf(),
        ensures
            final(self).wf(),
            final(self)@ == rts_sem(old(self)@),
    {
        let addr = self.stack_pop_u16();
        self.program_counter = addr.wrapping_add(1);
    }

    /// Execute exactly one instruction: fetch the opcode byte, advance the
    /// counter past it, decode, execute, then advance the counter past any
    /// operand bytes the executor did not consume itself.
    ///
    /// Implements [`step`] exactly: it reports whether execution is still
    /// running or hit a terminal break, and on an unrecognized opcode it
    /// leaves the state unchanged and reports the offending byte and its
    /// address.
    #[verifier::rlimit(100)]
    #[verifier::spinoff_prover]
    pub fn run_single_cycle(&mut self) -> (r: Result<RunResult, EmuError>)
        requires
            old(self).wf(),
        ensures
            final(self).wf(),
            match step(old(self)@) {
                StepResult::Running(m) => r == Ok::<RunResult, EmuError>(RunResult::Running)
                    && final(self)@ == m,
                StepResult::Done(m) => r == Ok::<RunResult, EmuError>(RunResult::Done)
                    && final(self)@ == m,
                StepResult::Illegal(code, addr) => r == Err::<RunResult, EmuError>(
                    EmuError::IllegalOpcode { opcode: code, address: addr },
                ) && final(self)@ == old(self)@,
            },
    {
        let code = self.mem_read(self.program_counter);
        proof {
            lemma_opcode_table(code);
        }
        let oc = match lookup_opcode(code) {
            Some(oc) => oc,
            None => {
                return Err(EmuError::IllegalOpcode { opcode: code, address: self.program_counter });
            },
        };
        self.program_counter = self.program_counter.wrapping_add(1);
        match oc.repr {
            Mnemonic::Brk => {
                return Ok(RunResult::Done);
            },
            Mnemonic::Jmp => {
                if oc.code == 0x6C {
                    self.jmp_indirect();
                } else {
                    self.jmp_absolute();
                }
                return Ok(RunResult::Running);
            },
            Mnemonic::Jsr => {
                self.jsr();
                return Ok(RunResult::Running);
            },
            Mnemonic::Rts => {
                self.rts();
                return Ok(RunResult::Running);
            },
            Mnemonic::Rti => {
                self.rti();
                return Ok(RunResult::Running);
            },
            Mnemonic::Bcc => {
                let condition = !self.status.contains(CpuFlags::CarryBit);
                self.branch(condition);
                return Ok(RunResult::Running);
            },
            Mnemonic::Bcs => {
                let condition = self.status.contains(CpuFlags::CarryBit);
                self.branch(condition);
                return Ok(RunResult::Running);
            },
            Mnemonic::Beq => {
                let condition = self.status.contains(CpuFlags::Zero);
                self.branch(condition);
                return Ok(RunResult::Running);
            },
            Mnemonic::Bne => {
                let condition = !self.status.contains(CpuFlags::Zero);
                self.branch(condition);
                return Ok(RunResult::Running);
            },
            Mnemonic::Bmi => {
                let condition = self.status.contains(CpuFlags::Negative);
                self.branch(condition);
                return Ok(RunResult::Running);
            },
            Mnemonic::Bpl => {
                let condition = !self.status.contains(CpuFlags::Negative);
                self.branch(condition);
                return Ok(RunResult::Running);
            },
            Mnemonic::Bvc => {
                let condition = !self.status.contains(CpuFlags::Overflow);
                self.branch(condition);
                return Ok(RunResult::Running);
            },
            Mnemonic::Bvs => {
                let condition = self.status.contains(CpuFlags::Overflow);
                self.branch(condition);
                return Ok(RunResult::Running);
            },
            _ => self.execute_common(oc),
        }
        self.program_counter = self.program_counter.wrapping_add((oc.len as u16).wrapping_sub(1));
        Ok(RunResult::Running)
    }

    /// Route an instruction that neither moves the counter itself nor ends
    /// the run to its executor; implements [`execute_sem`] exactly.
    fn execute_common(&mut self, oc: Opcode)
        requires
            old(self).wf(),
            table_entry_ok(oc.code, oc),
        ensures
            final(self).wf(),
            final(self)@ == execute_sem(old(self)@, oc),
    {
        match oc.repr {
            Mnemonic::Adc
            | Mnemonic::Sbc
            | Mnemonic::And
            | Mnemonic::Eor
            | Mnemonic::Ora
            | Mnemonic::Bit
            | Mnemonic::Asl
            | Mnemonic::Lsr
            | Mnemonic::Rol
            | Mnemonic::Ror
            | Mnemonic::Cmp
            | Mnemonic::Cpx
            | Mnemonic::Cpy
            | Mnemonic::Inc
            | Mnemonic::Dec
            | Mnemonic::Lda
            | Mnemonic::Ldx
            | Mnemonic::Ldy => self.execute_addressed(oc),
            _ => self.execute_implied(oc),
        }
    }

    /// The executors that resolve an operand through an addressing mode
    /// (with the accumulator forms of the shifts and rotates beside them).
    #[verifier::rlimit(100)]
    #[verifier::spinoff_prover]
    fn execute_addressed(&mut self, oc: Opcode)
        requires
            old(self).wf(),
            table_entry_ok(oc.code, oc),
            oc.repr matches (Mnemonic::Adc | Mnemonic::Sbc | Mnemonic::And | Mnemonic::Eor
                | Mnemonic::Ora | Mnemonic::Bit | Mnemonic::Asl | Mnemonic::Lsr | Mnemonic::Rol
                | Mnemonic::Ror | Mnemonic::Cmp | Mnemonic::Cpx | Mnemonic::Cpy | Mnemonic::Inc
                | Mnemonic::Dec | Mnemonic::Lda | Mnemonic::Ldx | Mnemonic::Ldy),
        ensures
            final(self).wf(),
            final(self)@ == execute_sem(old(self)@, oc),
    {
        match oc.repr {
            Mnemonic::Adc => self.adc(oc.mode),
            Mnemonic::Sbc => self.sbc(oc.mode),
            Mnemonic::And => self.and(oc.mode),
            Mnemonic::Eor => self.eor(oc.mode),
            Mnemonic::Ora => self.ora(oc.mode),
            Mnemonic::Bit => self.bit(oc.mode),
            Mnemonic::Asl => {
                if oc.code == 0x0A {
                    self.asl_accumulator();
                } else {
                    self.asl(oc.mode);
                }
            },
            Mnemonic::Lsr => {
                if oc.code == 0x4A {
                    self.lsr_accumulator();
                } else {
                    self.lsr(oc.mode);
                }
            },
            Mnemonic::Rol => {
                if oc.code == 0x2A {
                    self.rol_accumulator();
                } else {
                    self.rol(oc.mode);
                }
            },
            Mnemonic::Ror => {
                if oc.code == 0x6A {
                    self.ror_accumulator();
                } else {
                    self.ror(oc.mode);
                }
            },
            Mnemonic::Cmp => {
                let lhs = self.register_a;
                self.compare(oc.mode, lhs);
            },
            Mnemonic::Cpx => {
                let lhs = self.register_x;
                self.compare(oc.mode, lhs);
            },
            Mnemonic::Cpy => {
                let lhs = self.register_y;
                self.compare(oc.mode, lhs);
            },
            Mnemonic::Inc => self.inc(oc.mode),
            Mnemonic::Dec => self.dec(oc.mode),
            Mnemonic::Lda => self.lda(oc.mode),
            Mnemonic::Ldx => self.ldx(oc.mode),
            Mnemonic::Ldy => self.ldy(oc.mode),
            _ => {},
        }
    }

    /// The executors whose operand is implied: register arithmetic,
    /// transfers, the stores, the stack group and the flag group.
    #[verifier::rlimit(100)]
    #[verifier::spinoff_prover]
    fn execute_implied(&mut self, oc: Opcode)
        requires
            old(self).wf(),
            table_entry_ok(oc.code, oc),
            !(oc.repr matches (Mnemonic::Adc | Mnemonic::Sbc | Mnemonic::And | Mnemonic::Eor
                | Mnemonic::Ora | Mnemonic::Bit | Mnemonic::Asl | Mnemonic::Lsr | Mnemonic::Rol
                | Mnemonic::Ror | Mnemonic::Cmp | Mnemonic::Cpx | Mnemonic::Cpy | Mnemonic::Inc
                | Mnemonic::Dec | Mnemonic::Lda | Mnemonic::Ldx | Mnemonic::Ldy)),
        ensures
            final(self).wf(),
            final(self)@ == execute_sem(old(self)@, oc),
    {
        match oc.repr {
            Mnemonic::Inx => self.inx(),
            Mnemonic::Iny => self.iny(),
            Mnemonic::Dex => self.dex(),
            Mnemonic::Dey => self.dey(),
            Mnemonic::Sta => self.sta(oc.mode),
            Mnemonic::Stx => self.stx(oc.mode),
            Mnemonic::Sty => self.sty(oc.mode),
            Mnemonic::Tax => self.tax(),
            Mnemonic::Tay => self.tay(),
            Mnemonic::Tsx => self.tsx(),
            Mnemonic::Txa => self.txa(),
            Mnemonic::Txs => self.txs(),
            Mnemonic::Tya => self.tya(),
            Mnemonic::Pha => {
                let value = self.register_a;
                self.stack_push(value);
            },
            Mnemonic::Php => self.php(),
            Mnemonic::Pla => self.pla(),
            Mnemonic::Plp => self.plp(),
            Mnemonic::Clc => self.status.remove(CpuFlags::CarryBit),
            Mnemonic::Cld => self.status.remove(CpuFlags::DecimalMode),
            Mnemonic::Cli => self.status.remove(CpuFlags::DisableInterrupts),
            Mnemonic::Clv => self.status.remove(CpuFlags::Overflow),
            Mnemonic::Sec => self.status.insert(CpuFlags::CarryBit),
            Mnemonic::Sed => self.status.insert(CpuFlags::DecimalMode),
            Mnemonic::Sei => self.status.insert(CpuFlags::DisableInterrupts),
            Mnemonic::Nop => {},
            _ => {},
        }
    }

    /// Clear the accumulator and the status register and restart execution
    /// at the address stored in the reset vector.
    ///
    /// The index registers and the stack pointer are deliberately left as
    /// they are, and the stack pointer is not moved to a conventional
    /// startup value: hosts that need a particular stack position set it up
    /// before running.
    pub fn reset(&mut self)
        requires
            old(self).wf(),
        ensures
            final(self).wf(),
            final(self)@ == reset_sem(old(self)@),
    {
        self.register_a = 0;
        self.status = Status::default();
        self.program_counter = self.mem_read_u16(RESET_ADDRESS);
    }

    /// Copy a program image verbatim into memory at the fixed origin and
    /// write that origin into the reset vector, so that a reset starts it.
    ///
    /// The image must fit between the origin and the top of memory.
    pub fn load(&mut self, program: Vec<u8>)
        requires
            old(self).wf(),
            GAME_START_ADDRESS + program@.len() <= MEM_SIZE,
        ensures
            final(self).wf(),
            final(self)@ == load_sem(old(self)@, program@),
    {
        let ghost s0 = self@;
        let mut i: usize = 0;
        while i < program.len()
            invariant
                self.wf(),
                i <= program@.len(),
                GAME_START_ADDRESS + program@.len() <= MEM_SIZE,
                self@ == (CpuModel { mem: self@.mem, ..s0 }),
                forall|j: int|
                    0 <= j < i ==> self@.mem[GAME_START_ADDRESS + j] == program@[j],
                forall|j: int|
                    0 <= j < MEM_SIZE && !(GAME_START_ADDRESS <= j < GAME_START_ADDRESS + i)
                        ==> self@.mem[j] == s0.mem[j],
            decreases program@.len() - i,
        {
            self.mem_write(GAME_START_ADDRESS + i as u16, program[i]);
            i = i + 1;
        }
        self.mem_write_u16(RESET_ADDRESS, GAME_START_ADDRESS);
        proof {
            assert(self@.mem =~= load_sem(s0, program@).mem);
        }
    }

    /// Run until a terminal break or an illegal opcode.
    ///
    /// `Ok(RunResult::Done)` reports a terminal break, with the state the
    /// break was reached in; an illegal opcode leaves the state at the
    /// offending fetch and reports the byte and its address. The loop
    /// executes at most `u64::MAX` instructions — every program that halts
    /// at all halts unimaginably sooner — and reports that it is still
    /// `Running` in the one case that budget is spent with the program
    /// still going.
    pub fn run(&mut self) -> (r: Result<RunResult, EmuError>)
        requires
            old(self).wf(),
        ensures
            final(self).wf(),
            r == Ok::<RunResult, EmuError>(RunResult::Done) ==> terminates_to(
                old(self)@,
                final(self)@,
            ),
            r == Ok::<RunResult, EmuError>(RunResult::Running) ==> runs_to(
                old(self)@,
                final(self)@,
                u64::MAX as nat,
            ),
            r matches Err(EmuError::IllegalOpcode { opcode, address }) ==> fails_at(
                old(self)@,
                final(self)@,
                opcode,
                address,
            ),
    {
        let ghost s0 = self@;
        let ghost mut steps: nat = 0;
        let mut fuel: u64 = u64::MAX;
        proof {
            assert(runs_to(s0, s0, 0));
        }
        while fuel > 0
            invariant
                self.wf(),
                s0 == old(self)@,
                runs_to(s0, self@, steps),
                steps + fuel == u64::MAX,
            decreases fuel,
        {
            let ghost pre = self@;
            let res = self.run_single_cycle();
            match res {
                Ok(RunResult::Running) => {
                    proof {
                        lemma_runs_to_snoc(s0, pre, self@, steps);
                        steps = steps + 1;
                    }
                },
                Ok(RunResult::Done) => {
                    proof {
                        assert(reaches(s0, pre));
                    }
                    return Ok(RunResult::Done);
                },
                Err(e) => {
                    proof {
                        assert(reaches(s0, pre));
                    }
                    return Err(e);
                },
            }
            fuel = fuel - 1;
        }
        Ok(RunResult::Running)
    }

    /// Load a program image, reset, and run it to completion.
    pub fn load_and_run(&mut self, program: Vec<u8>) -> (r: Result<RunResult, EmuError>)
        requires
            old(self).wf(),
            GAME_START_ADDRESS + program@.len() <= MEM_SIZE,
        ensures
            final(self).wf(),
            r == Ok::<RunResult, EmuError>(RunResult::Done) ==> terminates_to(
                reset_sem(load_sem(old(self)@, program@)),
                final(self)@,
            ),
            r == Ok::<RunResult, EmuError>(RunResult::Running) ==> runs_to(
                reset_sem(load_sem(old(self)@, program@)),
                final(self)@,
                u64::MAX as nat,
            ),
            r matches Err(EmuError::IllegalOpcode { opcode, address }) ==> fails_at(
                reset_sem(load_sem(old(self)@, program@)),
                final(self)@,
                opcode,
                address,
            ),
    {
        self.load(program);
        self.reset();
        self.run()
    }
}

} // verus!
