//! A cartridge slot with nothing in it: every access is a decode error.
//! It backs CPU instances built for unit exercise, whose programs live
//! entirely in RAM.

use vstd::prelude::*;
use crate::error::NesError;
use crate::mem::error::MemoryError;
use crate::cart::cart::Cartridge;

verus! {

pub struct MockCartridge {}

impl MockCartridge {
    /// Every CPU read is an invalid address.
    pub open spec fn spec_read(&self, addr: u16) -> Result<u8, NesError> {
        Err(NesError::Mem(MemoryError::InvalidAddress(addr)))
    }

    pub fn read(&self, addr: u16) -> (r: Result<u8, NesError>)
        ensures
            r == self.spec_read(addr),
    {
        Err(NesError::Mem(MemoryError::InvalidAddress(addr)))
    }

    /// Every CPU write is an invalid address.
    pub fn write(&mut self, addr: u16, byte: u8) -> (r: Result<(), NesError>)
        ensures
            *final(self) == *old(self),
            r == Err::<(), NesError>(NesError::Mem(MemoryError::InvalidAddress(addr))),
    {
        Err(NesError::Mem(MemoryError::InvalidAddress(addr)))
    }

    /// Every PPU read is an invalid address.
    pub open spec fn spec_ppu_read(&self, addr: u16, vram: Seq<u8>) -> Result<u8, NesError> {
        Err(NesError::Mem(MemoryError::InvalidAddress(addr)))
    }

    pub fn ppu_read(&self, addr: u16, vram: &Vec<u8>) -> (r: Result<u8, NesError>)
        ensures
            r == self.spec_ppu_read(addr, vram@),
    {
        Err(NesError::Mem(MemoryError::InvalidAddress(addr)))
    }

    /// Every PPU write is an invalid address.
    pub fn ppu_write(&mut self, addr: u16, byte: u8, vram: &mut Vec<u8>) -> (r: Result<
        (),
        NesError,
    >)
        ensures
            *final(self) == *old(self),
            final(vram)@ == old(vram)@,
            r == Err::<(), NesError>(NesError::Mem(MemoryError::InvalidAddress(addr))),
    {
        Err(NesError::Mem(MemoryError::InvalidAddress(addr)))
    }
}

/// An empty cartridge slot.
pub fn mock_cart() -> (r: Cartridge)
    ensures
        r is Mock,
        r.wf(),
{
    Cartridge::Mock(MockCartridge {  })
}

} // verus!
