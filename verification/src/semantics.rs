//! The mathematical model of the processor and the meaning of every
//! instruction.
//!
//! `CpuModel` abstracts the register file, the status byte, the program
//! counter, the stack pointer and the 64KB memory. `step` gives the meaning
//! of one fetch-decode-execute cycle over that model; the executable
//! interpreter is proved to implement `step` exactly.

use vstd::prelude::*;

use crate::addressing_mode::AddressingMode;
use crate::flags::flag_mask;
use crate::flags::st_get;
use crate::flags::st_set;
use crate::flags::CpuFlags;
use crate::opcodes::opcode_info;
use crate::opcodes::Mnemonic;
use crate::opcodes::Opcode;

verus! {

/// The number of addressable bytes: the address type spans exactly the
/// backing store, so no access can be out of range.
pub const MEM_SIZE: usize = 0x10000;

/// The base address of the stack page; the stack occupies
/// `STACK + stack_pointer` and wraps within that single page.
pub const STACK: u16 = 0x0100;

/// The little-endian location execution begins at after a reset.
pub const RESET_ADDRESS: u16 = 0xFFFC;

/// The fixed origin a program image is loaded at.
pub const GAME_START_ADDRESS: u16 = 0x0600;

/// The processor state: registers, status byte, program counter, stack
/// pointer, and the full 64KB memory.
pub ghost struct CpuModel {
    pub a: u8,
    pub x: u8,
    pub y: u8,
    pub status: u8,
    pub pc: u16,
    pub sp: u8,
    pub mem: Seq<u8>,
}

/// A well-formed state: the memory covers the whole address space.
pub open spec fn cpu_wf(s: CpuModel) -> bool {
    s.mem.len() == MEM_SIZE
}

/// The 16-bit value with high byte `hi` and low byte `lo`.
pub open spec fn word(hi: u8, lo: u8) -> u16 {
    (hi * 256 + lo) as u16
}

/// The 16-bit little-endian value stored at `addr`; the high byte is read
/// at the successor address, wrapping at the top of the address space.
pub open spec fn mem16(m: Seq<u8>, addr: u16) -> u16 {
    word(m[addr.wrapping_add(1) as int], m[addr as int])
}

/// The memory after a 16-bit little-endian store of `data` at `addr`.
pub open spec fn mem_write16(m: Seq<u8>, addr: u16, data: u16) -> Seq<u8> {
    m.update(addr as int, (data % 256) as u8).update(
        addr.wrapping_add(1) as int,
        (data / 256) as u8,
    )
}

/// The status byte with Zero and Negative set from `result`: Zero when the
/// result is zero, Negative when its bit 7 is set.
pub open spec fn update_zn(st: u8, result: u8) -> u8 {
    st_set(
        st_set(st, flag_mask(CpuFlags::Zero), result == 0),
        flag_mask(CpuFlags::Negative),
        result & 0x80 != 0,
    )
}

/// The effective address an addressing mode resolves to, reading operand
/// bytes at the current program counter without advancing it.
pub open spec fn operand_address(s: CpuModel, mode: AddressingMode) -> u16 {
    match mode {
        AddressingMode::Immediate => s.pc,
        AddressingMode::ZeroPage => s.mem[s.pc as int] as u16,
        AddressingMode::Absolute => mem16(s.mem, s.pc),
        AddressingMode::ZeroPageX => s.mem[s.pc as int].wrapping_add(s.x) as u16,
        AddressingMode::ZeroPageY => s.mem[s.pc as int].wrapping_add(s.y) as u16,
        AddressingMode::AbsoluteX => mem16(s.mem, s.pc).wrapping_add(s.x as u16),
        AddressingMode::AbsoluteY => mem16(s.mem, s.pc).wrapping_add(s.y as u16),
        AddressingMode::IndirectX => {
            let ptr = s.mem[s.pc as int].wrapping_add(s.x);
            word(s.mem[ptr.wrapping_add(1) as int], s.mem[ptr as int])
        },
        AddressingMode::IndirectY => {
            let base = s.mem[s.pc as int];
            let deref_base = word(s.mem[base.wrapping_add(1) as int], s.mem[base as int]);
            deref_base.wrapping_add(s.y as u16)
        },
        AddressingMode::NoneAddressing => 0,
    }
}

/// The operand byte an addressing mode resolves to.
pub open spec fn operand(s: CpuModel, mode: AddressingMode) -> u8 {
    s.mem[operand_address(s, mode) as int]
}

/// A byte pushed onto the stack: stored at `STACK + sp`, then the pointer
/// decrements, wrapping within the stack page.
pub open spec fn push_sem(s: CpuModel, v: u8) -> CpuModel {
    CpuModel { mem: s.mem.update(STACK + s.sp as int, v), sp: s.sp.wrapping_sub(1), ..s }
}

/// A 16-bit value pushed onto the stack: high byte first, then low byte.
pub open spec fn push16_sem(s: CpuModel, v: u16) -> CpuModel {
    push_sem(push_sem(s, (v / 256) as u8), (v % 256) as u8)
}

/// The stack pointer after one pop.
pub open spec fn pop_sp(s: CpuModel) -> u8 {
    s.sp.wrapping_add(1)
}

/// The byte a pop returns: the pointer increments first, then the byte at
/// `STACK + sp` is read.
pub open spec fn pop_val(s: CpuModel) -> u8 {
    s.mem[STACK + pop_sp(s) as int]
}

/// The state after one pop.
pub open spec fn popped(s: CpuModel) -> CpuModel {
    CpuModel { sp: pop_sp(s), ..s }
}

/// The state after two pops.
pub open spec fn popped2(s: CpuModel) -> CpuModel {
    popped(popped(s))
}

/// The 16-bit value two pops return: low byte first, then high byte.
pub open spec fn pop16_val(s: CpuModel) -> u16 {
    word(pop_val(popped(s)), pop_val(s))
}

/// A displacement byte sign-extended to 16 bits.
pub open spec fn sign_extend(d: u8) -> u16 {
    if d < 0x80 {
        d as u16
    } else {
        (0xFF00 + d) as u16
    }
}

/// The accumulator set to `v`, with Zero and Negative updated from it.
pub open spec fn set_a_sem(s: CpuModel, v: u8) -> CpuModel {
    CpuModel { a: v, status: update_zn(s.status, v), ..s }
}

/// Add `v` and the carry-in to the accumulator: Carry reports the 9th bit,
/// Overflow reports a two's-complement sign inconsistency, and Zero and
/// Negative follow the truncated result.
pub open spec fn add_to_a_sem(s: CpuModel, v: u8) -> CpuModel {
    let carry_in: int = if st_get(s.status, flag_mask(CpuFlags::CarryBit)) {
        1
    } else {
        0
    };
    let sum: int = s.a + v + carry_in;
    let result: u8 = (sum % 256) as u8;
    let st1 = st_set(s.status, flag_mask(CpuFlags::CarryBit), sum > 255);
    let st2 = st_set(
        st1,
        flag_mask(CpuFlags::Overflow),
        (v ^ result) & (result ^ s.a) & 0x80 != 0,
    );
    CpuModel { a: result, status: update_zn(st2, result), ..s }
}

pub open spec fn adc_sem(s: CpuModel, mode: AddressingMode) -> CpuModel {
    add_to_a_sem(s, operand(s, mode))
}

/// Subtract with borrow, implemented as an add of the one's complement of
/// the operand, reusing the add flag logic.
pub open spec fn sbc_sem(s: CpuModel, mode: AddressingMode) -> CpuModel {
    add_to_a_sem(s, (255 - operand(s, mode)) as u8)
}

pub open spec fn and_sem(s: CpuModel, mode: AddressingMode) -> CpuModel {
    set_a_sem(s, operand(s, mode) & s.a)
}

pub open spec fn eor_sem(s: CpuModel, mode: AddressingMode) -> CpuModel {
    set_a_sem(s, operand(s, mode) ^ s.a)
}

pub open spec fn ora_sem(s: CpuModel, mode: AddressingMode) -> CpuModel {
    set_a_sem(s, operand(s, mode) | s.a)
}

/// Zero follows the conjunction with the accumulator; Negative and Overflow
/// copy bits 7 and 6 of the operand.
pub open spec fn bit_sem(s: CpuModel, mode: AddressingMode) -> CpuModel {
    let data = operand(s, mode);
    let st1 = st_set(s.status, flag_mask(CpuFlags::Zero), s.a & data == 0);
    let st2 = st_set(st1, flag_mask(CpuFlags::Negative), data & flag_mask(CpuFlags::Negative) > 0);
    let st3 = st_set(st2, flag_mask(CpuFlags::Overflow), data & flag_mask(CpuFlags::Overflow) > 0);
    CpuModel { status: st3, ..s }
}

/// Carry reports `operand <= register`; Zero and Negative follow the
/// wrapping difference.
pub open spec fn compare_sem(s: CpuModel, mode: AddressingMode, compare_with: u8) -> CpuModel {
    let data = operand(s, mode);
    let st1 = st_set(s.status, flag_mask(CpuFlags::CarryBit), data <= compare_with);
    CpuModel { status: update_zn(st1, compare_with.wrapping_sub(data)), ..s }
}

/// Arithmetic shift left in memory: Carry captures the bit shifted out.
pub open spec fn asl_sem(s: CpuModel, mode: AddressingMode) -> CpuModel {
    let addr = operand_address(s, mode);
    let data = s.mem[addr as int];
    let st1 = st_set(s.status, flag_mask(CpuFlags::CarryBit), data >> 7 == 1);
    let shifted = data << 1;
    CpuModel { mem: s.mem.update(addr as int, shifted), status: update_zn(st1, shifted), ..s }
}

/// Arithmetic shift left of the accumulator.
pub open spec fn asl_acc_sem(s: CpuModel) -> CpuModel {
    let st1 = st_set(s.status, flag_mask(CpuFlags::CarryBit), s.a >> 7 == 1);
    set_a_sem(CpuModel { status: st1, ..s }, s.a << 1)
}

/// Logical shift right in memory: Carry captures the bit shifted out.
pub open spec fn lsr_sem(s: CpuModel, mode: AddressingMode) -> CpuModel {
    let addr = operand_address(s, mode);
    let data = s.mem[addr as int];
    let st1 = st_set(s.status, flag_mask(CpuFlags::CarryBit), data & 1 == 1);
    let shifted = data >> 1;
    CpuModel { mem: s.mem.update(addr as int, shifted), status: update_zn(st1, shifted), ..s }
}

/// Logical shift right of the accumulator.
pub open spec fn lsr_acc_sem(s: CpuModel) -> CpuModel {
    let st1 = st_set(s.status, flag_mask(CpuFlags::CarryBit), s.a & 1 == 1);
    set_a_sem(CpuModel { status: st1, ..s }, s.a >> 1)
}

/// Rotate left in memory: the old Carry enters bit 0, the old bit 7 leaves
/// into Carry.
pub open spec fn rol_sem(s: CpuModel, mode: AddressingMode) -> CpuModel {
    let addr = operand_address(s, mode);
    let data = s.mem[addr as int];
    let old_carry = st_get(s.status, flag_mask(CpuFlags::CarryBit));
    let st1 = st_set(s.status, flag_mask(CpuFlags::CarryBit), data >> 7 == 1);
    let rotated = if old_carry {
        (data << 1) | 1
    } else {
        data << 1
    };
    CpuModel { mem: s.mem.update(addr as int, rotated), status: update_zn(st1, rotated), ..s }
}

/// Rotate left of the accumulator.
pub open spec fn rol_acc_sem(s: CpuModel) -> CpuModel {
    let old_carry = st_get(s.status, flag_mask(CpuFlags::CarryBit));
    let st1 = st_set(s.status, flag_mask(CpuFlags::CarryBit), s.a >> 7 == 1);
    let rotated = if old_carry {
        (s.a << 1) | 1
    } else {
        s.a << 1
    };
    set_a_sem(CpuModel { status: st1, ..s }, rotated)
}

/// Rotate right in memory: the old Carry enters bit 7, the old bit 0 leaves
/// into Carry.
pub open spec fn ror_sem(s: CpuModel, mode: AddressingMode) -> CpuModel {
    let addr = operand_address(s, mode);
    let data = s.mem[addr as int];
    let old_carry = st_get(s.status, flag_mask(CpuFlags::CarryBit));
    let st1 = st_set(s.status, flag_mask(CpuFlags::CarryBit), data & 1 == 1);
    let rotated = if old_carry {
        (data >> 1) | flag_mask(CpuFlags::Negative)
    } else {
        data >> 1
    };
    CpuModel { mem: s.mem.update(addr as int, rotated), status: update_zn(st1, rotated), ..s }
}

/// Rotate right of the accumulator.
pub open spec fn ror_acc_sem(s: CpuModel) -> CpuModel {
    let old_carry = st_get(s.status, flag_mask(CpuFlags::CarryBit));
    let st1 = st_set(s.status, flag_mask(CpuFlags::CarryBit), s.a & 1 == 1);
    let rotated = if old_carry {
        (s.a >> 1) | flag_mask(CpuFlags::Negative)
    } else {
        s.a >> 1
    };
    set_a_sem(CpuModel { status: st1, ..s }, rotated)
}

pub open spec fn lda_sem(s: CpuModel, mode: AddressingMode) -> CpuModel {
    set_a_sem(s, operand(s, mode))
}

pub open spec fn ldx_sem(s: CpuModel, mode: AddressingMode) -> CpuModel {
    let v = operand(s, mode);
    CpuModel { x: v, status: update_zn(s.status, v), ..s }
}

pub open spec fn ldy_sem(s: CpuModel, mode: AddressingMode) -> CpuModel {
    let v = operand(s, mode);
    CpuModel { y: v, status: update_zn(s.status, v), ..s }
}

pub open spec fn sta_sem(s: CpuModel, mode: AddressingMode) -> CpuModel {
    CpuModel { mem: s.mem.update(operand_address(s, mode) as int, s.a), ..s }
}

pub open spec fn stx_sem(s: CpuModel, mode: AddressingMode) -> CpuModel {
    CpuModel { mem: s.mem.update(operand_address(s, mode) as int, s.x), ..s }
}

pub open spec fn sty_sem(s: CpuModel, mode: AddressingMode) -> CpuModel {
    CpuModel { mem: s.mem.update(operand_address(s, mode) as int, s.y), ..s }
}

/// Increment the addressed byte in memory, wrapping modulo 256, with Zero
/// and Negative following the new value.
pub open spec fn inc_sem(s: CpuModel, mode: AddressingMode) -> CpuModel {
    let addr = operand_address(s, mode);
    let v = s.mem[addr as int].wrapping_add(1);
    CpuModel { mem: s.mem.update(addr as int, v), status: update_zn(s.status, v), ..s }
}

/// Decrement the addressed byte in memory, wrapping modulo 256, with Zero
/// and Negative following the new value.
pub open spec fn dec_sem(s: CpuModel, mode: AddressingMode) -> CpuModel {
    let addr = operand_address(s, mode);
    let v = s.mem[addr as int].wrapping_sub(1);
    CpuModel { mem: s.mem.update(addr as int, v), status: update_zn(s.status, v), ..s }
}

pub open spec fn inx_sem(s: CpuModel) -> CpuModel {
    let v = s.x.wrapping_add(1);
    CpuModel { x: v, status: update_zn(s.status, v), ..s }
}

pub open spec fn iny_sem(s: CpuModel) -> CpuModel {
    let v = s.y.wrapping_add(1);
    CpuModel { y: v, status: update_zn(s.status, v), ..s }
}

pub open spec fn dex_sem(s: CpuModel) -> CpuModel {
    let v = s.x.wrapping_sub(1);
    CpuModel { x: v, status: update_zn(s.status, v), ..s }
}

pub open spec fn dey_sem(s: CpuModel) -> CpuModel {
    let v = s.y.wrapping_sub(1);
    CpuModel { y: v, status: update_zn(s.status, v), ..s }
}

pub open spec fn tax_sem(s: CpuModel) -> CpuModel {
    CpuModel { x: s.a, status: update_zn(s.status, s.a), ..s }
}

pub open spec fn tay_sem(s: CpuModel) -> CpuModel {
    CpuModel { y: s.a, status: update_zn(s.status, s.a), ..s }
}

pub open spec fn tsx_sem(s: CpuModel) -> CpuModel {
    CpuModel { x: s.sp, status: update_zn(s.status, s.sp), ..s }
}

pub open spec fn txa_sem(s: CpuModel) -> CpuModel {
    CpuModel { a: s.x, status: update_zn(s.status, s.x), ..s }
}

/// Transfer X to the stack pointer; the one transfer that leaves the flags
/// alone.
pub open spec fn txs_sem(s: CpuModel) -> CpuModel {
    CpuModel { sp: s.x, ..s }
}

pub open spec fn tya_sem(s: CpuModel) -> CpuModel {
    CpuModel { a: s.y, status: update_zn(s.status, s.y), ..s }
}

pub open spec fn pha_sem(s: CpuModel) -> CpuModel {
    push_sem(s, s.a)
}

/// Push the status byte with Break and the unused bit forced on: the pushed
/// copy always reports them set, whatever the live state.
pub open spec fn php_sem(s: CpuModel) -> CpuModel {
    push_sem(s, s.status | flag_mask(CpuFlags::Break) | flag_mask(CpuFlags::_Unused))
}

pub open spec fn pla_sem(s: CpuModel) -> CpuModel {
    set_a_sem(popped(s), pop_val(s))
}

/// The status byte as restored from the stack: Break cleared, the unused
/// bit forced on.
pub open spec fn restored_status(b: u8) -> u8 {
    (b & !flag_mask(CpuFlags::Break)) | flag_mask(CpuFlags::_Unused)
}

pub open spec fn plp_sem(s: CpuModel) -> CpuModel {
    CpuModel { status: restored_status(pop_val(s)), ..popped(s) }
}

/// Return from interrupt: restore the status byte, then pop the counter.
pub open spec fn rti_sem(s: CpuModel) -> CpuModel {
    let s1 = plp_sem(s);
    CpuModel { pc: pop16_val(s1), ..popped2(s1) }
}

/// The counter a taken branch lands on: one past the displacement byte,
/// plus the sign-extended displacement.
pub open spec fn branch_target(pc: u16, d: u8) -> u16 {
    pc.wrapping_add(1).wrapping_add(sign_extend(d))
}

/// A conditional branch: when the condition holds the counter moves to the
/// target; either way the displacement byte is consumed.
pub open spec fn branch_sem(s: CpuModel, condition: bool) -> CpuModel {
    if condition {
        CpuModel { pc: branch_target(s.pc, s.mem[s.pc as int]), ..s }
    } else {
        CpuModel { pc: s.pc.wrapping_add(1), ..s }
    }
}

/// Absolute jump: the counter is set directly from the 16-bit operand.
pub open spec fn jmp_abs_sem(s: CpuModel) -> CpuModel {
    CpuModel { pc: mem16(s.mem, s.pc), ..s }
}

/// Indirect jump, reproducing the page-boundary hardware bug: when the
/// pointer sits at the end of a page, the target's high byte is fetched
/// from the start of the same page rather than the next one.
pub open spec fn jmp_ind_sem(s: CpuModel) -> CpuModel {
    let ptr = mem16(s.mem, s.pc);
    let target = if ptr % 256 == 0xFF {
        word(s.mem[ptr - 0xFF], s.mem[ptr as int])
    } else {
        mem16(s.mem, ptr)
    };
    CpuModel { pc: target, ..s }
}

/// Jump to subroutine: push the address of the last byte of this
/// instruction, then jump to the 16-bit operand (read after the pushes).
pub open spec fn jsr_sem(s: CpuModel) -> CpuModel {
    let s1 = push16_sem(s, s.pc.wrapping_add(1));
    CpuModel { pc: mem16(s1.mem, s1.pc), ..s1 }
}

/// Return from subroutine: the counter resumes one past the popped address.
pub open spec fn rts_sem(s: CpuModel) -> CpuModel {
    CpuModel { pc: pop16_val(s).wrapping_add(1), ..popped2(s) }
}

/// The result of one fetch-decode-execute cycle: the next state, the state
/// at a terminal break, or an illegal opcode with the offending byte and
/// its address.
pub ghost enum StepResult {
    Running(CpuModel),
    Done(CpuModel),
    Illegal(u8, u16),
}

/// The counter advanced past the operand bytes the executor did not consume.
pub open spec fn advance(s: CpuModel, len: u8) -> CpuModel {
    CpuModel { pc: s.pc.wrapping_add((len as u16).wrapping_sub(1)), ..s }
}

/// The meaning of the instructions that neither move the counter themselves
/// nor end the run; `s` is the state after the opcode fetch.
pub open spec fn execute_sem(s: CpuModel, oc: Opcode) -> CpuModel {
    match oc.repr {
        Mnemonic::Adc => adc_sem(s, oc.mode),
        Mnemonic::Sbc => sbc_sem(s, oc.mode),
        Mnemonic::And => and_sem(s, oc.mode),
        Mnemonic::Eor => eor_sem(s, oc.mode),
        Mnemonic::Ora => ora_sem(s, oc.mode),
        Mnemonic::Bit => bit_sem(s, oc.mode),
        Mnemonic::Asl => if oc.code == 0x0A {
            asl_acc_sem(s)
        } else {
            asl_sem(s, oc.mode)
        },
        Mnemonic::Lsr => if oc.code == 0x4A {
            lsr_acc_sem(s)
        } else {
            lsr_sem(s, oc.mode)
        },
        Mnemonic::Rol => if oc.code == 0x2A {
            rol_acc_sem(s)
        } else {
            rol_sem(s, oc.mode)
        },
        Mnemonic::Ror => if oc.code == 0x6A {
            ror_acc_sem(s)
        } else {
            ror_sem(s, oc.mode)
        },
        Mnemonic::Cmp => compare_sem(s, oc.mode, s.a),
        Mnemonic::Cpx => compare_sem(s, oc.mode, s.x),
        Mnemonic::Cpy => compare_sem(s, oc.mode, s.y),
        Mnemonic::Inc => inc_sem(s, oc.mode),
        Mnemonic::Dec => dec_sem(s, oc.mode),
        Mnemonic::Inx => inx_sem(s),
        Mnemonic::Iny => iny_sem(s),
        Mnemonic::Dex => dex_sem(s),
        Mnemonic::Dey => dey_sem(s),
        Mnemonic::Lda => lda_sem(s, oc.mode),
        Mnemonic::Ldx => ldx_sem(s, oc.mode),
        Mnemonic::Ldy => ldy_sem(s, oc.mode),
        Mnemonic::Sta => sta_sem(s, oc.mode),
        Mnemonic::Stx => stx_sem(s, oc.mode),
        Mnemonic::Sty => sty_sem(s, oc.mode),
        Mnemonic::Tax => tax_sem(s),
        Mnemonic::Tay => tay_sem(s),
        Mnemonic::Tsx => tsx_sem(s),
        Mnemonic::Txa => txa_sem(s),
        Mnemonic::Txs => txs_sem(s),
        Mnemonic::Tya => tya_sem(s),
        Mnemonic::Pha => pha_sem(s),
        Mnemonic::Php => php_sem(s),
        Mnemonic::Pla => pla_sem(s),
        Mnemonic::Plp => plp_sem(s),
        Mnemonic::Clc => CpuModel { status: st_set(s.status, flag_mask(CpuFlags::CarryBit), false), ..s },
        Mnemonic::Cld => CpuModel {
            status: st_set(s.status, flag_mask(CpuFlags::DecimalMode), false),
            ..s
        },
        Mnemonic::Cli => CpuModel {
            status: st_set(s.status, flag_mask(CpuFlags::DisableInterrupts), false),
            ..s
        },
        Mnemonic::Clv => CpuModel { status: st_set(s.status, flag_mask(CpuFlags::Overflow), false), ..s },
        Mnemonic::Sec => CpuModel { status: st_set(s.status, flag_mask(CpuFlags::CarryBit), true), ..s },
        Mnemonic::Sed => CpuModel { status: st_set(s.status, flag_mask(CpuFlags::DecimalMode), true), ..s },
        Mnemonic::Sei => CpuModel {
            status: st_set(s.status, flag_mask(CpuFlags::DisableInterrupts), true),
            ..s
        },
        _ => s,
    }
}

/// One fetch-decode-execute cycle: fetch the opcode byte, advance the
/// counter past it, decode against the table, execute, then advance the
/// counter past any operand bytes the executor did not consume itself.
pub open spec fn step(s: CpuModel) -> StepResult {
    let code = s.mem[s.pc as int];
    match opcode_info(code) {
        None => StepResult::Illegal(code, s.pc),
        Some(oc) => {
            let s1 = CpuModel { pc: s.pc.wrapping_add(1), ..s };
            match oc.repr {
                Mnemonic::Brk => StepResult::Done(s1),
                Mnemonic::Jmp => StepResult::Running(
                    if oc.code == 0x6C {
                        jmp_ind_sem(s1)
                    } else {
                        jmp_abs_sem(s1)
                    },
                ),
                Mnemonic::Jsr => StepResult::Running(jsr_sem(s1)),
                Mnemonic::Rts => StepResult::Running(rts_sem(s1)),
                Mnemonic::Rti => StepResult::Running(rti_sem(s1)),
                Mnemonic::Bcc => StepResult::Running(
                    branch_sem(s1, !st_get(s1.status, flag_mask(CpuFlags::CarryBit))),
                ),
                Mnemonic::Bcs => StepResult::Running(
                    branch_sem(s1, st_get(s1.status, flag_mask(CpuFlags::CarryBit))),
                ),
                Mnemonic::Beq => StepResult::Running(
                    branch_sem(s1, st_get(s1.status, flag_mask(CpuFlags::Zero))),
                ),
                Mnemonic::Bne => StepResult::Running(
                    branch_sem(s1, !st_get(s1.status, flag_mask(CpuFlags::Zero))),
                ),
                Mnemonic::Bmi => StepResult::Running(
                    branch_sem(s1, st_get(s1.status, flag_mask(CpuFlags::Negative))),
                ),
                Mnemonic::Bpl => StepResult::Running(
                    branch_sem(s1, !st_get(s1.status, flag_mask(CpuFlags::Negative))),
                ),
                Mnemonic::Bvc => StepResult::Running(
                    branch_sem(s1, !st_get(s1.status, flag_mask(CpuFlags::Overflow))),
                ),
                Mnemonic::Bvs => StepResult::Running(
                    branch_sem(s1, st_get(s1.status, flag_mask(CpuFlags::Overflow))),
                ),
                _ => StepResult::Running(advance(execute_sem(s1, oc), oc.len)),
            }
        },
    }
}

/// A reset: the accumulator and status clear, and execution restarts at the
/// address stored in the reset vector. The index registers and the stack
/// pointer are deliberately left as they are.
pub open spec fn reset_sem(s: CpuModel) -> CpuModel {
    CpuModel { a: 0, status: 0, pc: mem16(s.mem, RESET_ADDRESS), ..s }
}

/// A program image copied verbatim to the fixed origin, with the origin
/// then written into the reset vector.
pub open spec fn load_sem(s: CpuModel, program: Seq<u8>) -> CpuModel {
    let loaded = Seq::new(
        s.mem.len(),
        |i: int|
            if GAME_START_ADDRESS <= i < GAME_START_ADDRESS + program.len() {
                program[i - GAME_START_ADDRESS]
            } else {
                s.mem[i]
            },
    );
    CpuModel { mem: mem_write16(loaded, RESET_ADDRESS, GAME_START_ADDRESS), ..s }
}

/// `s1` is reached from `s0` by exactly `n` running steps.
pub open spec fn runs_to(s0: CpuModel, s1: CpuModel, n: nat) -> bool
    decreases n,
{
    if n == 0 {
        s1 == s0
    } else {
        match step(s0) {
            StepResult::Running(m) => runs_to(m, s1, (n - 1) as nat),
            _ => false,
        }
    }
}

/// `s1` is reached from `s0` by some number of running steps.
pub open spec fn reaches(s0: CpuModel, s1: CpuModel) -> bool {
    exists|n: nat| runs_to(s0, s1, n)
}

/// Running from `s0` reaches a terminal break whose final state is `fin`.
pub open spec fn terminates_to(s0: CpuModel, fin: CpuModel) -> bool {
    exists|t: CpuModel| #[trigger] reaches(s0, t) && step(t) == StepResult::Done(fin)
}

/// Running from `s0` stops at `t` on an illegal opcode `code` at `addr`.
pub open spec fn fails_at(s0: CpuModel, t: CpuModel, code: u8, addr: u16) -> bool {
    reaches(s0, t) && step(t) == StepResult::Illegal(code, addr)
}

/// A run of `n` steps followed by one more running step is a run of
/// `n + 1` steps.
pub proof fn lemma_runs_to_snoc(s0: CpuModel, s1: CpuModel, s2: CpuModel, n: nat)
    requires
        runs_to(s0, s1, n),
        step(s1) == StepResult::Running(s2),
    ensures
        runs_to(s0, s2, n + 1),
    decreases n,
{
    if n == 0 {
        assert(runs_to(s2, s2, 0));
    } else {
        match step(s0) {
            StepResult::Running(m) => {
                lemma_runs_to_snoc(m, s1, s2, (n - 1) as nat);
            },
            _ => {
                assert(false);
            },
        }
    }
}

} // verus!
