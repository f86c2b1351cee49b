//! The flat 64KB address space: the sole backing store for code, data and
//! memory-mapped conventions.

use vstd::prelude::*;

use crate::memory::Memory;
use crate::semantics::MEM_SIZE;

verus! {

/// A fresh memory image: every byte zero.
pub open spec fn zeroed_mem() -> Seq<u8> {
    Seq::new(MEM_SIZE as nat, |i: int| 0u8)
}

/// The 64KB byte array behind the processor. The address type spans exactly
/// the backing store, so no read or write can be out of range.
#[derive(Debug)]
pub struct Bus {
    memory: Vec<u8>,
}

impl View for Bus {
    type V = Seq<u8>;

    closed spec fn view(&self) -> Seq<u8> {
        self.memory@
    }
}

impl Bus {
    /// The memory covers the whole address space.
    pub open spec fn wf(&self) -> bool {
        self@.len() == MEM_SIZE
    }

    /// Read the byte at `addr`; never fails, since the address type spans
    /// exactly the backing store.
    pub fn read(&self, addr: u16) -> (data: u8)
        requires
            self.wf(),
        ensures
            data == self@[addr as int],
    {
        self.memory[addr as usize]
    }

    /// Write `data` at `addr`.
    pub fn write(&mut self, addr: u16, data: u8)
        requires
            old(self).wf(),
        ensures
            final(self).wf(),
            final(self)@ == old(self)@.update(addr as int, data),
    {
        self.memory[addr as usize] = data;
    }
}

impl Default for Bus {
    /// A bus with every byte zeroed.
    fn default() -> (b: Bus)
        ensures
            b.wf(),
            b@ == zeroed_mem(),
    {
        let memory = vec![0u8; MEM_SIZE];
        proof {
            assert(memory@ =~= zeroed_mem());
        }
        Bus { memory }
    }
}

impl Memory for Bus {
    open spec fn mem(&self) -> Seq<u8> {
        self@
    }

    fn mem_read(&self, addr: u16) -> u8 {
        self.read(addr)
    }

    fn mem_write(&mut self, addr: u16, data: u8) {
        self.write(addr, data);
    }

    fn mem_read_u16(&self, addr: u16) -> u16 {
        let lo = self.read(addr);
        let hi = self.read(addr.wrapping_add(1));
        (hi as u16) * 256 + (lo as u16)
    }

    fn mem_write_u16(&mut self, addr: u16, data: u16) {
        let lo = (data % 256) as u8;
        let hi = (data / 256) as u8;
        self.write(addr, lo);
        self.write(addr.wrapping_add(1), hi);
    }
}

} // verus!
