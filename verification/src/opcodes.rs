//! The static opcode table: for each recognized opcode byte, its mnemonic,
//! encoded length, cycle count and addressing mode.
//!
//! The table is stated once as a specification function and mirrored by an
//! executable lookup that is proved equal to it. A byte with no entry is an
//! illegal opcode.

use vstd::prelude::*;

use crate::addressing_mode::AddressingMode;
use crate::addressing_mode::AddressingMode::Absolute;
use crate::addressing_mode::AddressingMode::AbsoluteX;
use crate::addressing_mode::AddressingMode::AbsoluteY;
use crate::addressing_mode::AddressingMode::Immediate;
use crate::addressing_mode::AddressingMode::IndirectX;
use crate::addressing_mode::AddressingMode::IndirectY;
use crate::addressing_mode::AddressingMode::NoneAddressing;
use crate::addressing_mode::AddressingMode::ZeroPage;
use crate::addressing_mode::AddressingMode::ZeroPageX;
use crate::addressing_mode::AddressingMode::ZeroPageY;

verus! {

/// The closed set of instruction mnemonics, one variant per instruction.
#[derive(Copy, Clone, Debug, PartialEq, Eq, Structural)]
pub enum Mnemonic {
    Adc,
    And,
    Asl,
    Bcc,
    Bcs,
    Beq,
    Bit,
    Bmi,
    Bne,
    Bpl,
    Brk,
    Bvc,
    Bvs,
    Clc,
    Cld,
    Cli,
    Clv,
    Cmp,
    Cpx,
    Cpy,
    Dec,
    Dex,
    Dey,
    Eor,
    Inc,
    Inx,
    Iny,
    Jmp,
    Jsr,
    Lda,
    Ldx,
    Ldy,
    Lsr,
    Nop,
    Ora,
    Pha,
    Php,
    Pla,
    Plp,
    Rol,
    Ror,
    Rti,
    Rts,
    Sbc,
    Sec,
    Sed,
    Sei,
    Sta,
    Stx,
    Sty,
    Tax,
    Tay,
    Tsx,
    Txa,
    Txs,
    Tya,
}

/// A static instruction descriptor, looked up by opcode byte and never
/// constructed at interpretation time.
#[derive(Copy, Clone, Debug)]
pub struct Opcode {
    pub code: u8,
    pub repr: Mnemonic,
    pub len: u8,
    pub cycles: u8,
    pub mode: AddressingMode,
}

impl Opcode {
    /// Build a descriptor from its parts.
    pub fn new(code: u8, repr: Mnemonic, len: u8, cycles: u8, mode: AddressingMode) -> (oc: Opcode)
        ensures
            oc.code == code,
            oc.repr == repr,
            oc.len == len,
            oc.cycles == cycles,
            oc.mode == mode,
    {
        Opcode { code, repr, len, cycles, mode }
    }

    /// The addressing mode this instruction was encoded with.
    pub fn mode(&self) -> (m: &AddressingMode)
        ensures
            m == self.mode,
    {
        &self.mode
    }
}

/// One table entry.
pub open spec fn entry(
    code: u8,
    repr: Mnemonic,
    len: u8,
    cycles: u8,
    mode: AddressingMode,
) -> Option<Opcode> {
    Some(Opcode { code, repr, len, cycles, mode })
}

/// The opcode table: the descriptor a byte decodes to, or `None` for an
/// illegal opcode.
///
/// Opaque, so that reasoning about the dispatch loop does not expand the
/// whole table; [`lemma_opcode_table`] provides the facts that hold of
/// every entry, and proofs about a single opcode reveal the table.
#[verifier::opaque]
pub open spec fn opcode_info(code: u8) -> Option<Opcode> {
    match code {
        0x00 => entry(0x00, Mnemonic::Brk, 1, 7, NoneAddressing),
        0xEA => entry(0xEA, Mnemonic::Nop, 1, 2, NoneAddressing),
        // Arithmetic.
        0x69 => entry(0x69, Mnemonic::Adc, 2, 2, Immediate),
        0x65 => entry(0x65, Mnemonic::Adc, 2, 3, ZeroPage),
        0x75 => entry(0x75, Mnemonic::Adc, 2, 4, ZeroPageX),
        0x6D => entry(0x6D, Mnemonic::Adc, 3, 4, Absolute),
        0x7D => entry(0x7D, Mnemonic::Adc, 3, 4, AbsoluteX),
        0x79 => entry(0x79, Mnemonic::Adc, 3, 4, AbsoluteY),
        0x61 => entry(0x61, Mnemonic::Adc, 2, 6, IndirectX),
        0x71 => entry(0x71, Mnemonic::Adc, 2, 5, IndirectY),
        0xE9 => entry(0xE9, Mnemonic::Sbc, 2, 2, Immediate),
        0xE5 => entry(0xE5, Mnemonic::Sbc, 2, 3, ZeroPage),
        0xF5 => entry(0xF5, Mnemonic::Sbc, 2, 4, ZeroPageX),
        0xED => entry(0xED, Mnemonic::Sbc, 3, 4, Absolute),
        0xFD => entry(0xFD, Mnemonic::Sbc, 3, 4, AbsoluteX),
        0xF9 => entry(0xF9, Mnemonic::Sbc, 3, 4, AbsoluteY),
        0xE1 => entry(0xE1, Mnemonic::Sbc, 2, 6, IndirectX),
        0xF1 => entry(0xF1, Mnemonic::Sbc, 2, 5, IndirectY),
        // Logic.
        0x29 => entry(0x29, Mnemonic::And, 2, 2, Immediate),
        0x25 => entry(0x25, Mnemonic::And, 2, 3, ZeroPage),
        0x35 => entry(0x35, Mnemonic::And, 2, 4, ZeroPageX),
        0x2D => entry(0x2D, Mnemonic::And, 3, 4, Absolute),
        0x3D => entry(0x3D, Mnemonic::And, 3, 4, AbsoluteX),
        0x39 => entry(0x39, Mnemonic::And, 3, 4, AbsoluteY),
        0x21 => entry(0x21, Mnemonic::And, 2, 6, IndirectX),
        0x31 => entry(0x31, Mnemonic::And, 2, 5, IndirectY),
        0x49 => entry(0x49, Mnemonic::Eor, 2, 2, Immediate),
        0x45 => entry(0x45, Mnemonic::Eor, 2, 3, ZeroPage),
        0x55 => entry(0x55, Mnemonic::Eor, 2, 4, ZeroPageX),
        0x4D => entry(0x4D, Mnemonic::Eor, 3, 4, Absolute),
        0x5D => entry(0x5D, Mnemonic::Eor, 3, 4, AbsoluteX),
        0x59 => entry(0x59, Mnemonic::Eor, 3, 4, AbsoluteY),
        0x41 => entry(0x41, Mnemonic::Eor, 2, 6, IndirectX),
        0x51 => entry(0x51, Mnemonic::Eor, 2, 5, IndirectY),
        0x09 => entry(0x09, Mnemonic::Ora, 2, 2, Immediate),
        0x05 => entry(0x05, Mnemonic::Ora, 2, 3, ZeroPage),
        0x15 => entry(0x15, Mnemonic::Ora, 2, 4, ZeroPageX),
        0x0D => entry(0x0D, Mnemonic::Ora, 3, 4, Absolute),
        0x1D => entry(0x1D, Mnemonic::Ora, 3, 4, AbsoluteX),
        0x19 => entry(0x19, Mnemonic::Ora, 3, 4, AbsoluteY),
        0x01 => entry(0x01, Mnemonic::Ora, 2, 6, IndirectX),
        0x11 => entry(0x11, Mnemonic::Ora, 2, 5, IndirectY),
        0x24 => entry(0x24, Mnemonic::Bit, 2, 3, ZeroPage),
        0x2C => entry(0x2C, Mnemonic::Bit, 3, 4, Absolute),
        // Shifts and rotates; the one-byte forms act on the accumulator.
        0x0A => entry(0x0A, Mnemonic::Asl, 1, 2, NoneAddressing),
        0x06 => entry(0x06, Mnemonic::Asl, 2, 5, ZeroPage),
        0x16 => entry(0x16, Mnemonic::Asl, 2, 6, ZeroPageX),
        0x0E => entry(0x0E, Mnemonic::Asl, 3, 6, Absolute),
        0x1E => entry(0x1E, Mnemonic::Asl, 3, 7, AbsoluteX),
        0x4A => entry(0x4A, Mnemonic::Lsr, 1, 2, NoneAddressing),
        0x46 => entry(0x46, Mnemonic::Lsr, 2, 5, ZeroPage),
        0x56 => entry(0x56, Mnemonic::Lsr, 2, 6, ZeroPageX),
        0x4E => entry(0x4E, Mnemonic::Lsr, 3, 6, Absolute),
        0x5E => entry(0x5E, Mnemonic::Lsr, 3, 7, AbsoluteX),
        0x2A => entry(0x2A, Mnemonic::Rol, 1, 2, NoneAddressing),
        0x26 => entry(0x26, Mnemonic::Rol, 2, 5, ZeroPage),
        0x36 => entry(0x36, Mnemonic::Rol, 2, 6, ZeroPageX),
        0x2E => entry(0x2E, Mnemonic::Rol, 3, 6, Absolute),
        0x3E => entry(0x3E, Mnemonic::Rol, 3, 7, AbsoluteX),
        0x6A => entry(0x6A, Mnemonic::Ror, 1, 2, NoneAddressing),
        0x66 => entry(0x66, Mnemonic::Ror, 2, 5, ZeroPage),
        0x76 => entry(0x76, Mnemonic::Ror, 2, 6, ZeroPageX),
        0x6E => entry(0x6E, Mnemonic::Ror, 3, 6, Absolute),
        0x7E => entry(0x7E, Mnemonic::Ror, 3, 7, AbsoluteX),
        // Comparisons.
        0xC9 => entry(0xC9, Mnemonic::Cmp, 2, 2, Immediate),
        0xC5 => entry(0xC5, Mnemonic::Cmp, 2, 3, ZeroPage),
        0xD5 => entry(0xD5, Mnemonic::Cmp, 2, 4, ZeroPageX),
        0xCD => entry(0xCD, Mnemonic::Cmp, 3, 4, Absolute),
        0xDD => entry(0xDD, Mnemonic::Cmp, 3, 4, AbsoluteX),
        0xD9 => entry(0xD9, Mnemonic::Cmp, 3, 4, AbsoluteY),
        0xC1 => entry(0xC1, Mnemonic::Cmp, 2, 6, IndirectX),
        0xD1 => entry(0xD1, Mnemonic::Cmp, 2, 5, IndirectY),
        0xE0 => entry(0xE0, Mnemonic::Cpx, 2, 2, Immediate),
        0xE4 => entry(0xE4, Mnemonic::Cpx, 2, 3, ZeroPage),
        0xEC => entry(0xEC, Mnemonic::Cpx, 3, 4, Absolute),
        0xC0 => entry(0xC0, Mnemonic::Cpy, 2, 2, Immediate),
        0xC4 => entry(0xC4, Mnemonic::Cpy, 2, 3, ZeroPage),
        0xCC => entry(0xCC, Mnemonic::Cpy, 3, 4, Absolute),
        // Increments and decrements.
        0xE6 => entry(0xE6, Mnemonic::Inc, 2, 5, ZeroPage),
        0xF6 => entry(0xF6, Mnemonic::Inc, 2, 6, ZeroPageX),
        0xEE => entry(0xEE, Mnemonic::Inc, 3, 6, Absolute),
        0xFE => entry(0xFE, Mnemonic::Inc, 3, 7, AbsoluteX),
        0xC6 => entry(0xC6, Mnemonic::Dec, 2, 5, ZeroPage),
        0xD6 => entry(0xD6, Mnemonic::Dec, 2, 6, ZeroPageX),
        0xCE => entry(0xCE, Mnemonic::Dec, 3, 6, Absolute),
        0xDE => entry(0xDE, Mnemonic::Dec, 3, 7, AbsoluteX),
        0xE8 => entry(0xE8, Mnemonic::Inx, 1, 2, NoneAddressing),
        0xC8 => entry(0xC8, Mnemonic::Iny, 1, 2, NoneAddressing),
        0xCA => entry(0xCA, Mnemonic::Dex, 1, 2, NoneAddressing),
        0x88 => entry(0x88, Mnemonic::Dey, 1, 2, NoneAddressing),
        // Control flow.
        0x4C => entry(0x4C, Mnemonic::Jmp, 3, 3, NoneAddressing),
        0x6C => entry(0x6C, Mnemonic::Jmp, 3, 5, NoneAddressing),
        0x20 => entry(0x20, Mnemonic::Jsr, 3, 6, NoneAddressing),
        0x60 => entry(0x60, Mnemonic::Rts, 1, 6, NoneAddressing),
        0x40 => entry(0x40, Mnemonic::Rti, 1, 6, NoneAddressing),
        0x90 => entry(0x90, Mnemonic::Bcc, 2, 2, NoneAddressing),
        0xB0 => entry(0xB0, Mnemonic::Bcs, 2, 2, NoneAddressing),
        0xF0 => entry(0xF0, Mnemonic::Beq, 2, 2, NoneAddressing),
        0x30 => entry(0x30, Mnemonic::Bmi, 2, 2, NoneAddressing),
        0xD0 => entry(0xD0, Mnemonic::Bne, 2, 2, NoneAddressing),
        0x10 => entry(0x10, Mnemonic::Bpl, 2, 2, NoneAddressing),
        0x50 => entry(0x50, Mnemonic::Bvc, 2, 2, NoneAddressing),
        0x70 => entry(0x70, Mnemonic::Bvs, 2, 2, NoneAddressing),
        // Loads and stores.
        0xA9 => entry(0xA9, Mnemonic::Lda, 2, 2, Immediate),
        0xA5 => entry(0xA5, Mnemonic::Lda, 2, 3, ZeroPage),
        0xB5 => entry(0xB5, Mnemonic::Lda, 2, 4, ZeroPageX),
        0xAD => entry(0xAD, Mnemonic::Lda, 3, 4, Absolute),
        0xBD => entry(0xBD, Mnemonic::Lda, 3, 4, AbsoluteX),
        0xB9 => entry(0xB9, Mnemonic::Lda, 3, 4, AbsoluteY),
        0xA1 => entry(0xA1, Mnemonic::Lda, 2, 6, IndirectX),
        0xB1 => entry(0xB1, Mnemonic::Lda, 2, 5, IndirectY),
        0xA2 => entry(0xA2, Mnemonic::Ldx, 2, 2, Immediate),
        0xA6 => entry(0xA6, Mnemonic::Ldx, 2, 3, ZeroPage),
        0xB6 => entry(0xB6, Mnemonic::Ldx, 2, 4, ZeroPageY),
        0xAE => entry(0xAE, Mnemonic::Ldx, 3, 4, Absolute),
        0xBE => entry(0xBE, Mnemonic::Ldx, 3, 4, AbsoluteY),
        0xA0 => entry(0xA0, Mnemonic::Ldy, 2, 2, Immediate),
        0xA4 => entry(0xA4, Mnemonic::Ldy, 2, 3, ZeroPage),
        0xB4 => entry(0xB4, Mnemonic::Ldy, 2, 4, ZeroPageX),
        0xAC => entry(0xAC, Mnemonic::Ldy, 3, 4, Absolute),
        0xBC => entry(0xBC, Mnemonic::Ldy, 3, 4, AbsoluteX),
        0x85 => entry(0x85, Mnemonic::Sta, 2, 3, ZeroPage),
        0x95 => entry(0x95, Mnemonic::Sta, 2, 4, ZeroPageX),
        0x8D => entry(0x8D, Mnemonic::Sta, 3, 4, Absolute),
        0x9D => entry(0x9D, Mnemonic::Sta, 3, 5, AbsoluteX),
        0x99 => entry(0x99, Mnemonic::Sta, 3, 5, AbsoluteY),
        0x81 => entry(0x81, Mnemonic::Sta, 2, 6, IndirectX),
        0x91 => entry(0x91, Mnemonic::Sta, 2, 6, IndirectY),
        0x86 => entry(0x86, Mnemonic::Stx, 2, 3, ZeroPage),
        0x96 => entry(0x96, Mnemonic::Stx, 2, 4, ZeroPageY),
        0x8E => entry(0x8E, Mnemonic::Stx, 3, 4, Absolute),
        0x84 => entry(0x84, Mnemonic::Sty, 2, 3, ZeroPage),
        0x94 => entry(0x94, Mnemonic::Sty, 2, 4, ZeroPageX),
        0x8C => entry(0x8C, Mnemonic::Sty, 3, 4, Absolute),
        // Flag operations.
        0x18 => entry(0x18, Mnemonic::Clc, 1, 2, NoneAddressing),
        0xD8 => entry(0xD8, Mnemonic::Cld, 1, 2, NoneAddressing),
        0x58 => entry(0x58, Mnemonic::Cli, 1, 2, NoneAddressing),
        0xB8 => entry(0xB8, Mnemonic::Clv, 1, 2, NoneAddressing),
        0x38 => entry(0x38, Mnemonic::Sec, 1, 2, NoneAddressing),
        0xF8 => entry(0xF8, Mnemonic::Sed, 1, 2, NoneAddressing),
        0x78 => entry(0x78, Mnemonic::Sei, 1, 2, NoneAddressing),
        // Stack operations.
        0x48 => entry(0x48, Mnemonic::Pha, 1, 3, NoneAddressing),
        0x08 => entry(0x08, Mnemonic::Php, 1, 3, NoneAddressing),
        0x68 => entry(0x68, Mnemonic::Pla, 1, 4, NoneAddressing),
        0x28 => entry(0x28, Mnemonic::Plp, 1, 4, NoneAddressing),
        // Register transfers.
        0xAA => entry(0xAA, Mnemonic::Tax, 1, 2, NoneAddressing),
        0xA8 => entry(0xA8, Mnemonic::Tay, 1, 2, NoneAddressing),
        0xBA => entry(0xBA, Mnemonic::Tsx, 1, 2, NoneAddressing),
        0x8A => entry(0x8A, Mnemonic::Txa, 1, 2, NoneAddressing),
        0x9A => entry(0x9A, Mnemonic::Txs, 1, 2, NoneAddressing),
        0x98 => entry(0x98, Mnemonic::Tya, 1, 2, NoneAddressing),
        _ => None,
    }
}

/// What holds of every table entry: the descriptor records its own opcode
/// byte, the encoded length is one to three bytes, and every instruction
/// that resolves an operand through the addressing modes carries one (the
/// one-byte accumulator forms of the shifts and rotates excepted).
pub open spec fn table_entry_ok(code: u8, oc: Opcode) -> bool {
    &&& oc.code == code
    &&& 1 <= oc.len <= 3
    &&& match oc.repr {
        Mnemonic::Adc
        | Mnemonic::Sbc
        | Mnemonic::And
        | Mnemonic::Eor
        | Mnemonic::Ora
        | Mnemonic::Bit
        | Mnemonic::Cmp
        | Mnemonic::Cpx
        | Mnemonic::Cpy
        | Mnemonic::Inc
        | Mnemonic::Dec
        | Mnemonic::Lda
        | Mnemonic::Ldx
        | Mnemonic::Ldy
        | Mnemonic::Sta
        | Mnemonic::Stx
        | Mnemonic::Sty => oc.mode != NoneAddressing,
        Mnemonic::Asl => oc.code == 0x0A || oc.mode != NoneAddressing,
        Mnemonic::Lsr => oc.code == 0x4A || oc.mode != NoneAddressing,
        Mnemonic::Rol => oc.code == 0x2A || oc.mode != NoneAddressing,
        Mnemonic::Ror => oc.code == 0x6A || oc.mode != NoneAddressing,
        _ => true,
    }
}

/// The table is internally consistent: every entry satisfies
/// [`table_entry_ok`].
pub proof fn lemma_opcode_table(code: u8)
    ensures
        opcode_info(code) matches Some(oc) ==> table_entry_ok(code, oc),
{
    reveal(opcode_info);
}

/// Decode one opcode byte against the table.
pub fn lookup_opcode(code: u8) -> (r: Option<Opcode>)
    ensures
        r == opcode_info(code),
{
    proof {
        reveal(opcode_info);
    }
    match code {
        0x00 => Some(Opcode::new(0x00, Mnemonic::Brk, 1, 7, NoneAddressing)),
        0xEA => Some(Opcode::new(0xEA, Mnemonic::Nop, 1, 2, NoneAddressing)),
        0x69 => Some(Opcode::new(0x69, Mnemonic::Adc, 2, 2, Immediate)),
        0x65 => Some(Opcode::new(0x65, Mnemonic::Adc, 2, 3, ZeroPage)),
        0x75 => Some(Opcode::new(0x75, Mnemonic::Adc, 2, 4, ZeroPageX)),
        0x6D => Some(Opcode::new(0x6D, Mnemonic::Adc, 3, 4, Absolute)),
        0x7D => Some(Opcode::new(0x7D, Mnemonic::Adc, 3, 4, AbsoluteX)),
        0x79 => Some(Opcode::new(0x79, Mnemonic::Adc, 3, 4, AbsoluteY)),
        0x61 => Some(Opcode::new(0x61, Mnemonic::Adc, 2, 6, IndirectX)),
        0x71 => Some(Opcode::new(0x71, Mnemonic::Adc, 2, 5, IndirectY)),
        0xE9 => Some(Opcode::new(0xE9, Mnemonic::Sbc, 2, 2, Immediate)),
        0xE5 => Some(Opcode::new(0xE5, Mnemonic::Sbc, 2, 3, ZeroPage)),
        0xF5 => Some(Opcode::new(0xF5, Mnemonic::Sbc, 2, 4, ZeroPageX)),
        0xED => Some(Opcode::new(0xED, Mnemonic::Sbc, 3, 4, Absolute)),
        0xFD => Some(Opcode::new(0xFD, Mnemonic::Sbc, 3, 4, AbsoluteX)),
        0xF9 => Some(Opcode::new(0xF9, Mnemonic::Sbc, 3, 4, AbsoluteY)),
        0xE1 => Some(Opcode::new(0xE1, Mnemonic::Sbc, 2, 6, IndirectX)),
        0xF1 => Some(Opcode::new(0xF1, Mnemonic::Sbc, 2, 5, IndirectY)),
        0x29 => Some(Opcode::new(0x29, Mnemonic::And, 2, 2, Immediate)),
        0x25 => Some(Opcode::new(0x25, Mnemonic::And, 2, 3, ZeroPage)),
        0x35 => Some(Opcode::new(0x35, Mnemonic::And, 2, 4, ZeroPageX)),
        0x2D => Some(Opcode::new(0x2D, Mnemonic::And, 3, 4, Absolute)),
        0x3D => Some(Opcode::new(0x3D, Mnemonic::And, 3, 4, AbsoluteX)),
        0x39 => Some(Opcode::new(0x39, Mnemonic::And, 3, 4, AbsoluteY)),
        0x21 => Some(Opcode::new(0x21, Mnemonic::And, 2, 6, IndirectX)),
        0x31 => Some(Opcode::new(0x31, Mnemonic::And, 2, 5, IndirectY)),
        0x49 => Some(Opcode::new(0x49, Mnemonic::Eor, 2, 2, Immediate)),
        0x45 => Some(Opcode::new(0x45, Mnemonic::Eor, 2, 3, ZeroPage)),
        0x55 => Some(Opcode::new(0x55, Mnemonic::Eor, 2, 4, ZeroPageX)),
        0x4D => Some(Opcode::new(0x4D, Mnemonic::Eor, 3, 4, Absolute)),
        0x5D => Some(Opcode::new(0x5D, Mnemonic::Eor, 3, 4, AbsoluteX)),
        0x59 => Some(Opcode::new(0x59, Mnemonic::Eor, 3, 4, AbsoluteY)),
        0x41 => Some(Opcode::new(0x41, Mnemonic::Eor, 2, 6, IndirectX)),
        0x51 => Some(Opcode::new(0x51, Mnemonic::Eor, 2, 5, IndirectY)),
        0x09 => Some(Opcode::new(0x09, Mnemonic::Ora, 2, 2, Immediate)),
        0x05 => Some(Opcode::new(0x05, Mnemonic::Ora, 2, 3, ZeroPage)),
        0x15 => Some(Opcode::new(0x15, Mnemonic::Ora, 2, 4, ZeroPageX)),
        0x0D => Some(Opcode::new(0x0D, Mnemonic::Ora, 3, 4, Absolute)),
        0x1D => Some(Opcode::new(0x1D, Mnemonic::Ora, 3, 4, AbsoluteX)),
        0x19 => Some(Opcode::new(0x19, Mnemonic::Ora, 3, 4, AbsoluteY)),
        0x01 => Some(Opcode::new(0x01, Mnemonic::Ora, 2, 6, IndirectX)),
        0x11 => Some(Opcode::new(0x11, Mnemonic::Ora, 2, 5, IndirectY)),
        0x24 => Some(Opcode::new(0x24, Mnemonic::Bit, 2, 3, ZeroPage)),
        0x2C => Some(Opcode::new(0x2C, Mnemonic::Bit, 3, 4, Absolute)),
        0x0A => Some(Opcode::new(0x0A, Mnemonic::Asl, 1, 2, NoneAddressing)),
        0x06 => Some(Opcode::new(0x06, Mnemonic::Asl, 2, 5, ZeroPage)),
        0x16 => Some(Opcode::new(0x16, Mnemonic::Asl, 2, 6, ZeroPageX)),
        0x0E => Some(Opcode::new(0x0E, Mnemonic::Asl, 3, 6, Absolute)),
        0x1E => Some(Opcode::new(0x1E, Mnemonic::Asl, 3, 7, AbsoluteX)),
        0x4A => Some(Opcode::new(0x4A, Mnemonic::Lsr, 1, 2, NoneAddressing)),
        0x46 => Some(Opcode::new(0x46, Mnemonic::Lsr, 2, 5, ZeroPage)),
        0x56 => Some(Opcode::new(0x56, Mnemonic::Lsr, 2, 6, ZeroPageX)),
        0x4E => Some(Opcode::new(0x4E, Mnemonic::Lsr, 3, 6, Absolute)),
        0x5E => Some(Opcode::new(0x5E, Mnemonic::Lsr, 3, 7, AbsoluteX)),
        0x2A => Some(Opcode::new(0x2A, Mnemonic::Rol, 1, 2, NoneAddressing)),
        0x26 => Some(Opcode::new(0x26, Mnemonic::Rol, 2, 5, ZeroPage)),
        0x36 => Some(Opcode::new(0x36, Mnemonic::Rol, 2, 6, ZeroPageX)),
        0x2E => Some(Opcode::new(0x2E, Mnemonic::Rol, 3, 6, Absolute)),
        0x3E => Some(Opcode::new(0x3E, Mnemonic::Rol, 3, 7, AbsoluteX)),
        0x6A => Some(Opcode::new(0x6A, Mnemonic::Ror, 1, 2, NoneAddressing)),
        0x66 => Some(Opcode::new(0x66, Mnemonic::Ror, 2, 5, ZeroPage)),
        0x76 => Some(Opcode::new(0x76, Mnemonic::Ror, 2, 6, ZeroPageX)),
        0x6E => Some(Opcode::new(0x6E, Mnemonic::Ror, 3, 6, Absolute)),
        0x7E => Some(Opcode::new(0x7E, Mnemonic::Ror, 3, 7, AbsoluteX)),
        0xC9 => Some(Opcode::new(0xC9, Mnemonic::Cmp, 2, 2, Immediate)),
        0xC5 => Some(Opcode::new(0xC5, Mnemonic::Cmp, 2, 3, ZeroPage)),
        0xD5 => Some(Opcode::new(0xD5, Mnemonic::Cmp, 2, 4, ZeroPageX)),
        0xCD => Some(Opcode::new(0xCD, Mnemonic::Cmp, 3, 4, Absolute)),
        0xDD => Some(Opcode::new(0xDD, Mnemonic::Cmp, 3, 4, AbsoluteX)),
        0xD9 => Some(Opcode::new(0xD9, Mnemonic::Cmp, 3, 4, AbsoluteY)),
        0xC1 => Some(Opcode::new(0xC1, Mnemonic::Cmp, 2, 6, IndirectX)),
        0xD1 => Some(Opcode::new(0xD1, Mnemonic::Cmp, 2, 5, IndirectY)),
        0xE0 => Some(Opcode::new(0xE0, Mnemonic::Cpx, 2, 2, Immediate)),
        0xE4 => Some(Opcode::new(0xE4, Mnemonic::Cpx, 2, 3, ZeroPage)),
        0xEC => Some(Opcode::new(0xEC, Mnemonic::Cpx, 3, 4, Absolute)),
        0xC0 => Some(Opcode::new(0xC0, Mnemonic::Cpy, 2, 2, Immediate)),
        0xC4 => Some(Opcode::new(0xC4, Mnemonic::Cpy, 2, 3, ZeroPage)),
        0xCC => Some(Opcode::new(0xCC, Mnemonic::Cpy, 3, 4, Absolute)),
        0xE6 => Some(Opcode::new(0xE6, Mnemonic::Inc, 2, 5, ZeroPage)),
        0xF6 => Some(Opcode::new(0xF6, Mnemonic::Inc, 2, 6, ZeroPageX)),
        0xEE => Some(Opcode::new(0xEE, Mnemonic::Inc, 3, 6, Absolute)),
        0xFE => Some(Opcode::new(0xFE, Mnemonic::Inc, 3, 7, AbsoluteX)),
        0xC6 => Some(Opcode::new(0xC6, Mnemonic::Dec, 2, 5, ZeroPage)),
        0xD6 => Some(Opcode::new(0xD6, Mnemonic::Dec, 2, 6, ZeroPageX)),
        0xCE => Some(Opcode::new(0xCE, Mnemonic::Dec, 3, 6, Absolute)),
        0xDE => Some(Opcode::new(0xDE, Mnemonic::Dec, 3, 7, AbsoluteX)),
        0xE8 => Some(Opcode::new(0xE8, Mnemonic::Inx, 1, 2, NoneAddressing)),
        0xC8 => Some(Opcode::new(0xC8, Mnemonic::Iny, 1, 2, NoneAddressing)),
        0xCA => Some(Opcode::new(0xCA, Mnemonic::Dex, 1, 2, NoneAddressing)),
        0x88 => Some(Opcode::new(0x88, Mnemonic::Dey, 1, 2, NoneAddressing)),
        0x4C => Some(Opcode::new(0x4C, Mnemonic::Jmp, 3, 3, NoneAddressing)),
        0x6C => Some(Opcode::new(0x6C, Mnemonic::Jmp, 3, 5, NoneAddressing)),
        0x20 => Some(Opcode::new(0x20, Mnemonic::Jsr, 3, 6, NoneAddressing)),
        0x60 => Some(Opcode::new(0x60, Mnemonic::Rts, 1, 6, NoneAddressing)),
        0x40 => Some(Opcode::new(0x40, Mnemonic::Rti, 1, 6, NoneAddressing)),
        0x90 => Some(Opcode::new(0x90, Mnemonic::Bcc, 2, 2, NoneAddressing)),
        0xB0 => Some(Opcode::new(0xB0, Mnemonic::Bcs, 2, 2, NoneAddressing)),
        0xF0 => Some(Opcode::new(0xF0, Mnemonic::Beq, 2, 2, NoneAddressing)),
        0x30 => Some(Opcode::new(0x30, Mnemonic::Bmi, 2, 2, NoneAddressing)),
        0xD0 => Some(Opcode::new(0xD0, Mnemonic::Bne, 2, 2, NoneAddressing)),
        0x10 => Some(Opcode::new(0x10, Mnemonic::Bpl, 2, 2, NoneAddressing)),
        0x50 => Some(Opcode::new(0x50, Mnemonic::Bvc, 2, 2, NoneAddressing)),
        0x70 => Some(Opcode::new(0x70, Mnemonic::Bvs, 2, 2, NoneAddressing)),
        0xA9 => Some(Opcode::new(0xA9, Mnemonic::Lda, 2, 2, Immediate)),
        0xA5 => Some(Opcode::new(0xA5, Mnemonic::Lda, 2, 3, ZeroPage)),
        0xB5 => Some(Opcode::new(0xB5, Mnemonic::Lda, 2, 4, ZeroPageX)),
        0xAD => Some(Opcode::new(0xAD, Mnemonic::Lda, 3, 4, Absolute)),
        0xBD => Some(Opcode::new(0xBD, Mnemonic::Lda, 3, 4, AbsoluteX)),
        0xB9 => Some(Opcode::new(0xB9, Mnemonic::Lda, 3, 4, AbsoluteY)),
        0xA1 => Some(Opcode::new(0xA1, Mnemonic::Lda, 2, 6, IndirectX)),
        0xB1 => Some(Opcode::new(0xB1, Mnemonic::Lda, 2, 5, IndirectY)),
        0xA2 => Some(Opcode::new(0xA2, Mnemonic::Ldx, 2, 2, Immediate)),
        0xA6 => Some(Opcode::new(0xA6, Mnemonic::Ldx, 2, 3, ZeroPage)),
        0xB6 => Some(Opcode::new(0xB6, Mnemonic::Ldx, 2, 4, ZeroPageY)),
        0xAE => Some(Opcode::new(0xAE, Mnemonic::Ldx, 3, 4, Absolute)),
        0xBE => Some(Opcode::new(0xBE, Mnemonic::Ldx, 3, 4, AbsoluteY)),
        0xA0 => Some(Opcode::new(0xA0, Mnemonic::Ldy, 2, 2, Immediate)),
        0xA4 => Some(Opcode::new(0xA4, Mnemonic::Ldy, 2, 3, ZeroPage)),
        0xB4 => Some(Opcode::new(0xB4, Mnemonic::Ldy, 2, 4, ZeroPageX)),
        0xAC => Some(Opcode::new(0xAC, Mnemonic::Ldy, 3, 4, Absolute)),
        0xBC => Some(Opcode::new(0xBC, Mnemonic::Ldy, 3, 4, AbsoluteX)),
        0x85 => Some(Opcode::new(0x85, Mnemonic::Sta, 2, 3, ZeroPage)),
        0x95 => Some(Opcode::new(0x95, Mnemonic::Sta, 2, 4, ZeroPageX)),
        0x8D => Some(Opcode::new(0x8D, Mnemonic::Sta, 3, 4, Absolute)),
        0x9D => Some(Opcode::new(0x9D, Mnemonic::Sta, 3, 5, AbsoluteX)),
        0x99 => Some(Opcode::new(0x99, Mnemonic::Sta, 3, 5, AbsoluteY)),
        0x81 => Some(Opcode::new(0x81, Mnemonic::Sta, 2, 6, IndirectX)),
        0x91 => Some(Opcode::new(0x91, Mnemonic::Sta, 2, 6, IndirectY)),
        0x86 => Some(Opcode::new(0x86, Mnemonic::Stx, 2, 3, ZeroPage)),
        0x96 => Some(Opcode::new(0x96, Mnemonic::Stx, 2, 4, ZeroPageY)),
        0x8E => Some(Opcode::new(0x8E, Mnemonic::Stx, 3, 4, Absolute)),
        0x84 => Some(Opcode::new(0x84, Mnemonic::Sty, 2, 3, ZeroPage)),
        0x94 => Some(Opcode::new(0x94, Mnemonic::Sty, 2, 4, ZeroPageX)),
        0x8C => Some(Opcode::new(0x8C, Mnemonic::Sty, 3, 4, Absolute)),
        0x18 => Some(Opcode::new(0x18, Mnemonic::Clc, 1, 2, NoneAddressing)),
        0xD8 => Some(Opcode::new(0xD8, Mnemonic::Cld, 1, 2, NoneAddressing)),
        0x58 => Some(Opcode::new(0x58, Mnemonic::Cli, 1, 2, NoneAddressing)),
        0xB8 => Some(Opcode::new(0xB8, Mnemonic::Clv, 1, 2, NoneAddressing)),
        0x38 => Some(Opcode::new(0x38, Mnemonic::Sec, 1, 2, NoneAddressing)),
        0xF8 => Some(Opcode::new(0xF8, Mnemonic::Sed, 1, 2, NoneAddressing)),
        0x78 => Some(Opcode::new(0x78, Mnemonic::Sei, 1, 2, NoneAddressing)),
        0x48 => Some(Opcode::new(0x48, Mnemonic::Pha, 1, 3, NoneAddressing)),
        0x08 => Some(Opcode::new(0x08, Mnemonic::Php, 1, 3, NoneAddressing)),
        0x68 => Some(Opcode::new(0x68, Mnemonic::Pla, 1, 4, NoneAddressing)),
        0x28 => Some(Opcode::new(0x28, Mnemonic::Plp, 1, 4, NoneAddressing)),
        0xAA => Some(Opcode::new(0xAA, Mnemonic::Tax, 1, 2, NoneAddressing)),
        0xA8 => Some(Opcode::new(0xA8, Mnemonic::Tay, 1, 2, NoneAddressing)),
        0xBA => Some(Opcode::new(0xBA, Mnemonic::Tsx, 1, 2, NoneAddressing)),
        0x8A => Some(Opcode::new(0x8A, Mnemonic::Txa, 1, 2, NoneAddressing)),
        0x9A => Some(Opcode::new(0x9A, Mnemonic::Txs, 1, 2, NoneAddressing)),
        0x98 => Some(Opcode::new(0x98, Mnemonic::Tya, 1, 2, NoneAddressing)),
        _ => None,
    }
}

} // verus!
