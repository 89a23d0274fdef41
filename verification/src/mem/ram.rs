//! The console's 2 KiB of work RAM, mirrored across the 8 KiB window
//! `0x0000..=0x1FFF`.

use vstd::prelude::*;
use crate::error::NesError;
use crate::mem::error::{inv_addr, MemoryError};

verus! {

/// Number of physical bytes of work RAM.
pub const RAM_SIZE: usize = 2048;

pub struct Ram {
    pub mem: Vec<u8>,
}

impl Ram {
    /// The RAM holds exactly [`RAM_SIZE`] bytes.
    pub open spec fn wf(&self) -> bool {
        self.mem@.len() == RAM_SIZE
    }

    /// Power-on RAM: all bytes zero.
    pub fn new() -> (r: Ram)
        ensures
            r.wf(),
            r.mem@ == Seq::<u8>::new(RAM_SIZE as nat, |i: int| 0u8),
    {
        let mut mem: Vec<u8> = Vec::new();
        let mut i: usize = 0;
        while i < RAM_SIZE
            invariant
                i <= RAM_SIZE,
                mem@.len() == i,
                mem@ == Seq::<u8>::new(i as nat, |j: int| 0u8),
            decreases RAM_SIZE - i,
        {
            mem.push(0);
            proof {
                assert(mem@ =~= Seq::<u8>::new((i + 1) as nat, |j: int| 0u8));
            }
            i += 1;
        }
        Ram { mem }
    }

    /// Read the byte at `addr`, folding the four mirrors onto the physical
    /// 2 KiB. Addresses past the mirrored window are a decode error.
    pub fn read(&self, addr: u16) -> (r: Result<u8, NesError>)
        requires
            self.wf(),
        ensures
            addr <= 0x1FFF ==> r == Ok::<u8, NesError>(self.mem@[(addr & 0x7FF) as int]),
            addr > 0x1FFF ==> r == Err::<u8, NesError>(
                NesError::Mem(MemoryError::InvalidAddress(addr)),
            ),
    {
        if addr > 0x1FFF {
            Err(inv_addr(addr))
        } else {
            proof {
                assert((addr & 0x7FF) < 2048) by (bit_vector);
            }
            Ok(self.mem[(addr & 0x7FF) as usize])
        }
    }

    /// Write the byte at `addr` through the same mirroring as [`Ram::read`].
    pub fn write(&mut self, addr: u16, byte: u8) -> (r: Result<(), NesError>)
        requires
            old(self).wf(),
        ensures
            final(self).wf(),
            addr <= 0x1FFF ==> r == Ok::<(), NesError>(())
                && final(self).mem@ == old(self).mem@.update((addr & 0x7FF) as int, byte),
            addr > 0x1FFF ==> r == Err::<(), NesError>(
                NesError::Mem(MemoryError::InvalidAddress(addr)),
            ) && final(self).mem@ == old(self).mem@,
    {
        if addr > 0x1FFF {
            Err(inv_addr(addr))
        } else {
            proof {
                assert((addr & 0x7FF) < 2048) by (bit_vector);
            }
            self.mem.set((addr & 0x7FF) as usize, byte);
            Ok(())
        }
    }

    /// RAM whose first `bytes.len()` cells hold `bytes` and whose rest is
    /// zero. The image must fit in the physical 2 KiB.
    pub fn from(bytes: &[u8]) -> (r: Ram)
        requires
            bytes@.len() <= RAM_SIZE,
        ensures
            r.wf(),
            forall|i: int| 0 <= i < bytes@.len() ==> r.mem@[i] == bytes@[i],
            forall|i: int| bytes@.len() <= i < RAM_SIZE ==> r.mem@[i] == 0u8,
    {
        let mut r = Ram::new();
        let mut addr: usize = 0;
        while addr < bytes.len()
            invariant
                bytes@.len() <= RAM_SIZE,
                addr <= bytes@.len(),
                r.mem@.len() == RAM_SIZE,
                forall|i: int| 0 <= i < addr ==> r.mem@[i] == bytes@[i],
                forall|i: int| addr <= i < RAM_SIZE ==> r.mem@[i] == 0u8,
            decreases bytes@.len() - addr,
        {
            r.mem.set(addr, bytes[addr]);
            addr += 1;
        }
        r
    }
}

} // verus!
