//! Laws the interpreter obeys, stated against the model in
//! [`crate::semantics`] and proved once and for all.

use vstd::prelude::*;

use crate::addressing_mode::AddressingMode;
use crate::flags::flag_mask;
use crate::flags::st_get;
use crate::flags::st_set;
use crate::flags::CpuFlags;
use crate::opcodes::opcode_info;
use crate::semantics::adc_sem;
use crate::semantics::compare_sem;
use crate::semantics::cpu_wf;
use crate::semantics::operand;
use crate::semantics::push_sem;
use crate::semantics::sbc_sem;
use crate::semantics::step;
use crate::semantics::update_zn;
use crate::semantics::CpuModel;
use crate::semantics::StepResult;
use crate::semantics::STACK;

verus! {

/// Setting one flag bit reads back as set, and leaves every other flag
/// untouched.
proof fn lemma_st_bits(st: u8, m: u8, b: bool, m2: u8)
    ensures
        m != 0 ==> st_get(st_set(st, m, b), m) == b,
        m & m2 == 0 ==> st_get(st_set(st, m, b), m2) == st_get(st, m2),
{
    if b {
        assert((st | m) & m == m && ((m & m2 == 0) ==> ((st | m) & m2 == st & m2)))
            by (bit_vector);
    } else {
        assert((st & !m) & m == 0 && ((m & m2 == 0) ==> ((st & !m) & m2 == st & m2)))
            by (bit_vector);
    }
}

/// Zero follows emptiness and Negative follows bit 7 of the value the
/// shared flag update was applied with.
proof fn lemma_zn_bits(st: u8, r: u8)
    ensures
        st_get(update_zn(st, r), flag_mask(CpuFlags::Zero)) == (r == 0),
        st_get(update_zn(st, r), flag_mask(CpuFlags::Negative)) == (r >= 0x80),
{
    lemma_mask_disjoint();
    let st1: u8 = st_set(st, 0x02, r == 0);
    lemma_st_bits(st1, 0x80, r & 0x80 != 0, 0x02);
    lemma_st_bits(st, 0x02, r == 0, 0x02);
    lemma_st_bits(st1, 0x80, r & 0x80 != 0, 0x80);
    lemma_high_bit(r);
}

/// The register increment and decrement instructions wrap modulo 256: for
/// every 8-bit register value, stepping an INX, INY, DEX or DEY opcode
/// keeps running, leaves the register at its old value plus or minus one
/// reduced modulo 256, sets Zero exactly when the new value is zero and
/// Negative exactly when its sign bit is set, advances the counter by one,
/// and changes nothing else — not the other registers, not the stack
/// pointer, not a single byte of memory.
pub proof fn lemma_increment_decrement_wrap(s: CpuModel)
    requires
        cpu_wf(s),
    ensures
        s.mem[s.pc as int] == 0xE8 ==> (step(s) matches StepResult::Running(m) && m.x == (s.x + 1)
            % 256 && st_get(m.status, flag_mask(CpuFlags::Zero)) == (m.x == 0) && st_get(
            m.status,
            flag_mask(CpuFlags::Negative),
        ) == (m.x >= 0x80) && m.pc == (s.pc + 1) % 0x10000 && m == (CpuModel {
            x: m.x,
            status: m.status,
            pc: m.pc,
            ..s
        })),
        s.mem[s.pc as int] == 0xC8 ==> (step(s) matches StepResult::Running(m) && m.y == (s.y + 1)
            % 256 && st_get(m.status, flag_mask(CpuFlags::Zero)) == (m.y == 0) && st_get(
            m.status,
            flag_mask(CpuFlags::Negative),
        ) == (m.y >= 0x80) && m.pc == (s.pc + 1) % 0x10000 && m == (CpuModel {
            y: m.y,
            status: m.status,
            pc: m.pc,
            ..s
        })),
        s.mem[s.pc as int] == 0xCA ==> (step(s) matches StepResult::Running(m) && m.x == (s.x - 1)
            % 256 && st_get(m.status, flag_mask(CpuFlags::Zero)) == (m.x == 0) && st_get(
            m.status,
            flag_mask(CpuFlags::Negative),
        ) == (m.x >= 0x80) && m.pc == (s.pc + 1) % 0x10000 && m == (CpuModel {
            x: m.x,
            status: m.status,
            pc: m.pc,
            ..s
        })),
        s.mem[s.pc as int] == 0x88 ==> (step(s) matches StepResult::Running(m) && m.y == (s.y - 1)
            % 256 && st_get(m.status, flag_mask(CpuFlags::Zero)) == (m.y == 0) && st_get(
            m.status,
            flag_mask(CpuFlags::Negative),
        ) == (m.y >= 0x80) && m.pc == (s.pc + 1) % 0x10000 && m == (CpuModel {
            y: m.y,
            status: m.status,
            pc: m.pc,
            ..s
        })),
{
    reveal(opcode_info);
    lemma_zn_bits(s.status, s.x.wrapping_add(1));
    lemma_zn_bits(s.status, s.y.wrapping_add(1));
    lemma_zn_bits(s.status, s.x.wrapping_sub(1));
    lemma_zn_bits(s.status, s.y.wrapping_sub(1));
}

/// The eight conditional branch opcodes.
pub open spec fn is_branch(code: u8) -> bool {
    code == 0x90 || code == 0xB0 || code == 0xF0 || code == 0xD0 || code == 0x30 || code == 0x10
        || code == 0x50 || code == 0x70
}

/// The flag condition under which a branch opcode is taken.
pub open spec fn branch_condition(code: u8, status: u8) -> bool {
    if code == 0x90 {
        !st_get(status, flag_mask(CpuFlags::CarryBit))
    } else if code == 0xB0 {
        st_get(status, flag_mask(CpuFlags::CarryBit))
    } else if code == 0xF0 {
        st_get(status, flag_mask(CpuFlags::Zero))
    } else if code == 0xD0 {
        !st_get(status, flag_mask(CpuFlags::Zero))
    } else if code == 0x30 {
        st_get(status, flag_mask(CpuFlags::Negative))
    } else if code == 0x10 {
        !st_get(status, flag_mask(CpuFlags::Negative))
    } else if code == 0x50 {
        !st_get(status, flag_mask(CpuFlags::Overflow))
    } else {
        st_get(status, flag_mask(CpuFlags::Overflow))
    }
}

/// A byte read as a signed two's-complement value.
pub open spec fn signed8(d: u8) -> int {
    if d < 0x80 {
        d as int
    } else {
        d - 256
    }
}

/// Branch displacements are signed and measured from the byte after the
/// displacement: a taken branch moves the counter to the opcode's address
/// plus two plus the signed displacement, modulo the address space — so a
/// negative displacement moves the counter backward past the branch's own
/// instruction — and an untaken branch just falls through to the next
/// instruction.
pub proof fn lemma_branch_displacement(s: CpuModel)
    requires
        cpu_wf(s),
        is_branch(s.mem[s.pc as int]),
    ensures
        branch_condition(s.mem[s.pc as int], s.status) ==> (step(s)
            matches StepResult::Running(m) && m.pc == (s.pc + 2 + signed8(
            s.mem[s.pc.wrapping_add(1) as int],
        )) % 0x10000),
        !branch_condition(s.mem[s.pc as int], s.status) ==> (step(s)
            matches StepResult::Running(m) && m.pc == (s.pc + 2) % 0x10000),
{
    reveal(opcode_info);
}

/// A subroutine call and its return round-trip: a JSR pushes the address of
/// its own last byte and jumps; an RTS executed later — with the stack
/// pointer back where the JSR left it and the two pushed bytes still in
/// place — resumes the counter at the instruction following the JSR,
/// whatever ran in between.
pub proof fn lemma_jsr_rts_round_trip(s: CpuModel, t: CpuModel)
    requires
        cpu_wf(s),
        cpu_wf(t),
        s.mem[s.pc as int] == 0x20,
        t.mem[t.pc as int] == 0x60,
        step(s) matches StepResult::Running(m) && {
            &&& t.sp == m.sp
            &&& t.mem[STACK + m.sp.wrapping_add(1) as int] == m.mem[STACK + m.sp.wrapping_add(
                1,
            ) as int]
            &&& t.mem[STACK + m.sp.wrapping_add(2) as int] == m.mem[STACK + m.sp.wrapping_add(
                2,
            ) as int]
        },
    ensures
        step(t) matches StepResult::Running(m2) && m2.pc == (s.pc + 3) % 0x10000,
{
    reveal(opcode_info);
}

/// The state after a sequence of bytes is pushed, first element first.
pub open spec fn push_all_sem(s: CpuModel, vs: Seq<u8>) -> CpuModel
    decreases vs.len(),
{
    if vs.len() == 0 {
        s
    } else {
        push_all_sem(push_sem(s, vs[0]), vs.skip(1))
    }
}

/// After any sequence of pushes the stack pointer sits at its old value
/// minus the number of pushes, modulo the size of the stack page; the
/// pointer never leaves the page.
pub proof fn lemma_push_all_sp(s: CpuModel, vs: Seq<u8>)
    ensures
        push_all_sem(s, vs).sp == (s.sp - vs.len()) % 256,
    decreases vs.len(),
{
    if vs.len() == 0 {
    } else {
        lemma_push_all_sp(push_sem(s, vs[0]), vs.skip(1));
    }
}

/// The stack is a ring within its page: pushing 256 bytes in sequence
/// returns the pointer to its starting value.
pub proof fn lemma_stack_pointer_wraps(s: CpuModel, vs: Seq<u8>)
    requires
        vs.len() == 256,
    ensures
        push_all_sem(s, vs).sp == s.sp,
{
    lemma_push_all_sp(s, vs);
}

/// The flag bit positions are pairwise distinct.
proof fn lemma_mask_disjoint()
    ensures
        0x01u8 & 0x40u8 == 0,
        0x01u8 & 0x02u8 == 0,
        0x01u8 & 0x80u8 == 0,
        0x40u8 & 0x02u8 == 0,
        0x40u8 & 0x80u8 == 0,
        0x02u8 & 0x80u8 == 0,
        0x40u8 & 0x01u8 == 0,
        0x02u8 & 0x01u8 == 0,
        0x80u8 & 0x01u8 == 0,
        0x02u8 & 0x40u8 == 0,
        0x80u8 & 0x40u8 == 0,
        0x80u8 & 0x02u8 == 0,
{
    assert(0x01u8 & 0x40u8 == 0 && 0x01u8 & 0x02u8 == 0 && 0x01u8 & 0x80u8 == 0 && 0x40u8
        & 0x02u8 == 0 && 0x40u8 & 0x80u8 == 0 && 0x02u8 & 0x80u8 == 0 && 0x40u8 & 0x01u8 == 0
        && 0x02u8 & 0x01u8 == 0 && 0x80u8 & 0x01u8 == 0 && 0x02u8 & 0x40u8 == 0 && 0x80u8 & 0x40u8
        == 0 && 0x80u8 & 0x02u8 == 0) by (bit_vector);
}

/// Bit 7 decides the sign of a byte read as two's complement.
proof fn lemma_high_bit(r: u8)
    ensures
        (r & 0x80 != 0) == (r >= 0x80),
{
    assert((r & 0x80 != 0) == (r >= 0x80)) by (bit_vector);
}

/// Add-with-carry, in two's-complement terms: the accumulator takes the sum
/// truncated modulo 256, Carry reports the ninth bit of the unsigned sum,
/// Zero and Negative follow the truncated result, and Overflow holds
/// exactly when the signed sum of the operands and the carry-in leaves the
/// representable range.
pub proof fn lemma_adc_flags(s: CpuModel, mode: AddressingMode)
    ensures
        ({
            let d = operand(s, mode);
            let carry_in: int = if st_get(s.status, flag_mask(CpuFlags::CarryBit)) {
                1int
            } else {
                0int
            };
            let total: int = s.a + d + carry_in;
            let m = adc_sem(s, mode);
            &&& m.a == total % 256
            &&& st_get(m.status, flag_mask(CpuFlags::CarryBit)) == (total > 255)
            &&& st_get(m.status, flag_mask(CpuFlags::Zero)) == (m.a == 0)
            &&& st_get(m.status, flag_mask(CpuFlags::Negative)) == (signed8(m.a) < 0)
            &&& st_get(m.status, flag_mask(CpuFlags::Overflow)) == !(-128 <= signed8(s.a)
                + signed8(d) + carry_in <= 127)
        }),
{
    lemma_mask_disjoint();
    let a = s.a;
    let d = operand(s, mode);
    let cb: u8 = if st_get(s.status, flag_mask(CpuFlags::CarryBit)) {
        1u8
    } else {
        0u8
    };
    let total: int = a + d + cb;
    let r: u8 = (total % 256) as u8;
    let ovf: bool = (d ^ r) & (r ^ a) & 0x80 != 0;
    let st1: u8 = st_set(s.status, 0x01, total > 255);
    let st2: u8 = st_set(st1, 0x40, ovf);
    let st3: u8 = st_set(st2, 0x02, r == 0);
    let st4: u8 = st_set(st3, 0x80, r & 0x80 != 0);
    assert(adc_sem(s, mode).a == r && adc_sem(s, mode).status == st4);
    lemma_st_bits(st3, 0x80, r & 0x80 != 0, 0x01);
    lemma_st_bits(st2, 0x02, r == 0, 0x01);
    lemma_st_bits(st1, 0x40, ovf, 0x01);
    lemma_st_bits(s.status, 0x01, total > 255, 0x01);
    lemma_st_bits(st3, 0x80, r & 0x80 != 0, 0x02);
    lemma_st_bits(st2, 0x02, r == 0, 0x02);
    lemma_st_bits(st3, 0x80, r & 0x80 != 0, 0x80);
    lemma_high_bit(r);
    lemma_st_bits(st3, 0x80, r & 0x80 != 0, 0x40);
    lemma_st_bits(st2, 0x02, r == 0, 0x40);
    lemma_st_bits(st1, 0x40, ovf, 0x40);
    assert(((d ^ r) & (r ^ a) & 0x80 != 0) == ((a < 0x80 && d < 0x80 && r >= 0x80) || (a >= 0x80
        && d >= 0x80 && r < 0x80))) by (bit_vector)
        requires
            cb <= 1,
            r == (a + d + cb) % 256,
    ;
    if a < 0x80 && d < 0x80 {
        assert(total < 256);
        assert(r == total);
    } else if a >= 0x80 && d >= 0x80 {
        assert(256 <= total < 512);
        assert(r == total - 256);
    } else {
        assert(-128 <= signed8(a) + signed8(d) + cb <= 127);
    }
}

/// Subtract-with-borrow, stated directly: though implemented as an add of
/// the operand's one's complement, SBC leaves the accumulator at the
/// difference modulo 256, Carry clear exactly when a borrow occurred, Zero
/// and Negative following the result, and Overflow given by the standard
/// direct-subtraction sign test.
pub proof fn lemma_sbc_is_subtract_with_borrow(s: CpuModel, mode: AddressingMode)
    ensures
        ({
            let d = operand(s, mode);
            let borrow: int = if st_get(s.status, flag_mask(CpuFlags::CarryBit)) {
                0int
            } else {
                1int
            };
            let diff: int = s.a - d - borrow;
            let m = sbc_sem(s, mode);
            &&& m.a == diff % 256
            &&& st_get(m.status, flag_mask(CpuFlags::CarryBit)) == (diff >= 0)
            &&& st_get(m.status, flag_mask(CpuFlags::Zero)) == (m.a == 0)
            &&& st_get(m.status, flag_mask(CpuFlags::Negative)) == (signed8(m.a) < 0)
            &&& st_get(m.status, flag_mask(CpuFlags::Overflow)) == ((s.a ^ d) & (s.a ^ m.a) & 0x80
                != 0)
        }),
{
    lemma_mask_disjoint();
    let a = s.a;
    let d = operand(s, mode);
    let v: u8 = (255 - d) as u8;
    let cb: u8 = if st_get(s.status, flag_mask(CpuFlags::CarryBit)) {
        1u8
    } else {
        0u8
    };
    let total: int = a + v + cb;
    let diff: int = a - d - (1 - cb);
    let r: u8 = (total % 256) as u8;
    let ovf: bool = (v ^ r) & (r ^ a) & 0x80 != 0;
    let st1: u8 = st_set(s.status, 0x01, total > 255);
    let st2: u8 = st_set(st1, 0x40, ovf);
    let st3: u8 = st_set(st2, 0x02, r == 0);
    let st4: u8 = st_set(st3, 0x80, r & 0x80 != 0);
    assert(sbc_sem(s, mode).a == r && sbc_sem(s, mode).status == st4);
    assert(total == diff + 256);
    assert(total % 256 == diff % 256) by {
        vstd::arithmetic::div_mod::lemma_mod_add_multiples_vanish(diff, 256);
    };
    lemma_st_bits(st3, 0x80, r & 0x80 != 0, 0x01);
    lemma_st_bits(st2, 0x02, r == 0, 0x01);
    lemma_st_bits(st1, 0x40, ovf, 0x01);
    lemma_st_bits(s.status, 0x01, total > 255, 0x01);
    lemma_st_bits(st3, 0x80, r & 0x80 != 0, 0x02);
    lemma_st_bits(st2, 0x02, r == 0, 0x02);
    lemma_st_bits(st3, 0x80, r & 0x80 != 0, 0x80);
    lemma_high_bit(r);
    lemma_st_bits(st3, 0x80, r & 0x80 != 0, 0x40);
    lemma_st_bits(st2, 0x02, r == 0, 0x40);
    lemma_st_bits(st1, 0x40, ovf, 0x40);
    assert(((v ^ r) & (r ^ a) & 0x80 != 0) == ((a ^ d) & (a ^ r) & 0x80 != 0)) by (bit_vector)
        requires
            v == 255 - d,
    ;
}

/// The compare family sets Carry exactly when the operand does not exceed
/// the register, Zero exactly on equality, and Negative from bit 7 of the
/// wrapping difference.
pub proof fn lemma_compare_flags(s: CpuModel, mode: AddressingMode, reg: u8)
    ensures
        ({
            let d = operand(s, mode);
            let m = compare_sem(s, mode, reg);
            &&& st_get(m.status, flag_mask(CpuFlags::CarryBit)) == (d <= reg)
            &&& st_get(m.status, flag_mask(CpuFlags::Zero)) == (reg == d)
            &&& st_get(m.status, flag_mask(CpuFlags::Negative)) == ((reg - d) % 256 >= 0x80)
        }),
{
    lemma_mask_disjoint();
    let d = operand(s, mode);
    let w: u8 = reg.wrapping_sub(d);
    let st1: u8 = st_set(s.status, 0x01, d <= reg);
    let st2: u8 = st_set(st1, 0x02, w == 0);
    let st3: u8 = st_set(st2, 0x80, w & 0x80 != 0);
    assert(compare_sem(s, mode, reg).status == st3);
    lemma_st_bits(st2, 0x80, w & 0x80 != 0, 0x01);
    lemma_st_bits(st1, 0x02, w == 0, 0x01);
    lemma_st_bits(s.status, 0x01, d <= reg, 0x01);
    lemma_st_bits(st2, 0x80, w & 0x80 != 0, 0x02);
    lemma_st_bits(st1, 0x02, w == 0, 0x02);
    lemma_st_bits(st2, 0x80, w & 0x80 != 0, 0x80);
    lemma_high_bit(w);
    assert(w == (reg - d) % 256);
}

} // verus!
