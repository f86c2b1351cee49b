//! The shared read/write contract over the address space.

use vstd::prelude::*;

use crate::semantics::mem16;
use crate::semantics::mem_write16;
use crate::semantics::MEM_SIZE;

verus! {

/// Byte and little-endian 16-bit access to a 64KB address space.
///
/// Single-byte reads and writes are primitive; the 16-bit forms compose two
/// of them in little-endian order, the second at the successor address,
/// wrapping at the top of the address space.
pub trait Memory {
    /// The bytes this store holds, one per address.
    spec fn mem(&self) -> Seq<u8>;

    /// Read the byte at `addr`.
    fn mem_read(&self, addr: u16) -> (data: u8)
        requires
            self.mem().len() == MEM_SIZE,
        ensures
            data == self.mem()[addr as int],
    ;

    /// Write `data` at `addr`.
    fn mem_write(&mut self, addr: u16, data: u8)
        requires
            old(self).mem().len() == MEM_SIZE,
        ensures
            final(self).mem() == old(self).mem().update(addr as int, data),
    ;

    /// Read the 16-bit little-endian value at `addr`.
    fn mem_read_u16(&self, addr: u16) -> (data: u16)
        requires
            self.mem().len() == MEM_SIZE,
        ensures
            data == mem16(self.mem(), addr),
    ;

    /// Write the 16-bit value `data` at `addr` in little-endian order.
    fn mem_write_u16(&mut self, addr: u16, data: u16)
        requires
            old(self).mem().len() == MEM_SIZE,
        ensures
            final(self).mem() == mem_write16(old(self).mem(), addr, data),
    ;
}

} // verus!
