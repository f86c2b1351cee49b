//! The closed set of addressing modes an instruction can carry.

use vstd::prelude::*;

verus! {

/// The rule by which an instruction's operand address is computed from its
/// encoded bytes and the current registers.
///
/// `NoneAddressing` marks implied, accumulator and relative instructions,
/// whose executors compute their own operand; the resolver is never asked
/// for it.
#[derive(Copy, Clone, Debug, PartialEq, Eq, Structural)]
pub enum AddressingMode {
    Immediate,
    ZeroPage,
    ZeroPageX,
    ZeroPageY,
    Absolute,
    AbsoluteX,
    AbsoluteY,
    IndirectX,
    IndirectY,
    NoneAddressing,
}

} // verus!
