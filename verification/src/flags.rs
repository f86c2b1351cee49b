//! The processor status register: eight named flag bits packed into one byte.
//!
//! The bit positions match the hardware layout, so the whole byte can be
//! pushed to and popped from the stack atomically.

use vstd::prelude::*;

verus! {

/// The named bits of the status register.
#[derive(Copy, Clone, Debug, PartialEq, Eq, Structural)]
pub enum CpuFlags {
    CarryBit,
    Zero,
    DisableInterrupts,
    DecimalMode,
    Break,
    _Unused,
    Overflow,
    Negative,
}

/// The hardware bit position of each flag, as a single-bit mask.
pub open spec fn flag_mask(flag: CpuFlags) -> u8 {
    match flag {
        CpuFlags::CarryBit => 0x01,
        CpuFlags::Zero => 0x02,
        CpuFlags::DisableInterrupts => 0x04,
        CpuFlags::DecimalMode => 0x08,
        CpuFlags::Break => 0x10,
        CpuFlags::_Unused => 0x20,
        CpuFlags::Overflow => 0x40,
        CpuFlags::Negative => 0x80,
    }
}

impl CpuFlags {
    /// The single-bit mask at this flag's hardware position.
    pub fn mask(self) -> (m: u8)
        ensures
            m == flag_mask(self),
    {
        match self {
            CpuFlags::CarryBit => 0x01,
            CpuFlags::Zero => 0x02,
            CpuFlags::DisableInterrupts => 0x04,
            CpuFlags::DecimalMode => 0x08,
            CpuFlags::Break => 0x10,
            CpuFlags::_Unused => 0x20,
            CpuFlags::Overflow => 0x40,
            CpuFlags::Negative => 0x80,
        }
    }
}

/// Whether the flag with mask `m` is set in the status byte `st`.
pub open spec fn st_get(st: u8, m: u8) -> bool {
    st & m != 0
}

/// The status byte `st` with the flag of mask `m` set or cleared.
pub open spec fn st_set(st: u8, m: u8, on: bool) -> u8 {
    if on {
        st | m
    } else {
        st & !m
    }
}

/// The status register: a bit-level set over the eight named flags.
///
/// Any byte is a valid flag combination, so conversion from a byte never
/// fails.
#[derive(Copy, Clone, Debug, PartialEq, Eq, Structural)]
pub struct Status {
    bits: u8,
}

impl View for Status {
    type V = u8;

    closed spec fn view(&self) -> u8 {
        self.bits
    }
}

impl Status {
    /// Reinterpret a byte as a flag set.
    pub fn from_bits(bits: u8) -> (s: Status)
        ensures
            s@ == bits,
    {
        Status { bits }
    }

    /// Serialize the flag set to a single byte.
    pub fn bits(&self) -> (b: u8)
        ensures
            b == self@,
    {
        self.bits
    }

    /// Whether the given flag is set.
    pub fn contains(&self, flag: CpuFlags) -> (r: bool)
        ensures
            r == st_get(self@, flag_mask(flag)),
    {
        self.bits & flag.mask() != 0
    }

    /// Set or clear the given flag.
    pub fn set(&mut self, flag: CpuFlags, on: bool)
        ensures
            final(self)@ == st_set(old(self)@, flag_mask(flag), on),
    {
        if on {
            self.bits = self.bits | flag.mask();
        } else {
            self.bits = self.bits & !flag.mask();
        }
    }

    /// Set the given flag.
    pub fn insert(&mut self, flag: CpuFlags)
        ensures
            final(self)@ == (old(self)@ | flag_mask(flag)),
    {
        self.bits = self.bits | flag.mask();
    }

    /// Clear the given flag.
    pub fn remove(&mut self, flag: CpuFlags)
        ensures
            final(self)@ == (old(self)@ & !flag_mask(flag)),
    {
        self.bits = self.bits & !flag.mask();
    }
}

impl Default for Status {
    /// The empty flag set: every flag cleared.
    fn default() -> (s: Status)
        ensures
            s@ == 0u8,
    {
        Status { bits: 0 }
    }
}

} // verus!
