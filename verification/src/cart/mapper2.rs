//! Mapper 2 (UxROM): a switchable 16 KiB PRG bank at `0x8000`, the last
//! bank fixed at `0xC000`, and unbanked CHR.

use vstd::prelude::*;
use crate::error::NesError;
use crate::ines::parse::MirrorType;
use crate::mem::error::MemoryError;
use crate::mem::utils::{vec_of, zero_vec};
use crate::cart::cart::{spec_nametable_addr, nametable_addr, Cartridge, PpuMemoryError};

verus! {

pub struct Uxrom {
    pub prg_rom: Vec<u8>,
    pub chr_rom: Vec<u8>,
    pub chr_ram: Vec<u8>,
    pub bank_select: u8,
    pub mirror_type: MirrorType,
}

/// How a CPU write moves the mapper: the whole contract of
/// [`Uxrom::write`], as one relation between the state before (`pre`) and
/// after (`post`) with the result `r`.
pub open spec fn spec_uxrom_write_rel(pre: Uxrom, post: Uxrom, addr: u16, byte: u8, r: Result<
    (),
    NesError,
>) -> bool {
    &&& addr >= 0x8000 ==> r == Ok::<(), NesError>(()) && post.bank_select == (byte & 0xF) as u8
    &&& addr < 0x8000 ==> r == Err::<(), NesError>(
        NesError::Mem(MemoryError::InvalidAddress(addr)),
    ) && post == pre
    &&& post.prg_rom@ == pre.prg_rom@
    &&& post.chr_rom@ == pre.chr_rom@
    &&& post.chr_ram@ == pre.chr_ram@
    &&& post.mirror_type == pre.mirror_type
}

impl Uxrom {
    /// The CHR-RAM holds its 8 KiB and the bank select stays a nibble.
    pub open spec fn wf(&self) -> bool {
        &&& self.chr_ram@.len() == 8192
        &&& self.bank_select <= 0xF
    }

    /// What a CPU read returns: the selected bank at `0x8000..=0xBFFF`,
    /// the last bank at `0xC000..`, and errors elsewhere or when the
    /// selected bank lies outside the PRG image.
    pub open spec fn spec_read(&self, addr: u16) -> Result<u8, NesError> {
        if addr < 0x8000 {
            Err(NesError::Mem(MemoryError::InvalidAddress(addr)))
        } else if addr <= 0xBFFF {
            let idx = self.bank_select * 16384 + (addr & 0x3FFF);
            if idx < self.prg_rom@.len() {
                Ok(self.prg_rom@[idx as int])
            } else {
                Err(NesError::Mem(MemoryError::InvalidAddress(addr)))
            }
        } else {
            if self.prg_rom@.len() >= 16384 {
                Ok(self.prg_rom@[self.prg_rom@.len() - 16384 + (addr & 0x3FFF)])
            } else {
                Err(NesError::Mem(MemoryError::InvalidAddress(addr)))
            }
        }
    }

    pub fn read(&self, addr: u16) -> (r: Result<u8, NesError>)
        requires
            self.wf(),
        ensures
            r == self.spec_read(addr),
    {
        proof {
            assert((addr & 0x3FFF) < 16384) by (bit_vector);
        }
        if addr < 0x8000 {
            Err(NesError::Mem(MemoryError::InvalidAddress(addr)))
        } else if addr <= 0xBFFF {
            let idx: usize = (self.bank_select as usize) * 16384 + ((addr & 0x3FFF) as usize);
            if idx < self.prg_rom.len() {
                Ok(self.prg_rom[idx])
            } else {
                Err(NesError::Mem(MemoryError::InvalidAddress(addr)))
            }
        } else {
            if self.prg_rom.len() >= 16384 {
                let base = self.prg_rom.len() - 16384;
                Ok(self.prg_rom[base + ((addr & 0x3FFF) as usize)])
            } else {
                Err(NesError::Mem(MemoryError::InvalidAddress(addr)))
            }
        }
    }

    /// A CPU write above `0x8000` latches the low nibble as the bank
    /// select; everything else is a decode error.
    pub fn write(&mut self, addr: u16, byte: u8) -> (r: Result<(), NesError>)
        requires
            old(self).wf(),
        ensures
        final(self).wf(),
        spec_uxrom_write_rel(*old(self), *final(self), addr, byte, r),
    {
        if addr >= 0x8000 {
            proof {
                assert((byte & 0xF) <= 0xF) by (bit_vector);
            }
            self.bank_select = byte & 0xF;
            Ok(())
        } else {
            Err(NesError::Mem(MemoryError::InvalidAddress(addr)))
        }
    }

    /// What a PPU read returns: unbanked CHR below `0x2000` (RAM when no
    /// CHR-ROM was given), mirrored VRAM in the nametable window.
    pub open spec fn spec_ppu_read(&self, addr: u16, vram: Seq<u8>) -> Result<u8, NesError> {
        if addr <= 0x1FFF {
            if self.chr_rom@.len() == 0 {
                Ok(self.chr_ram@[addr as int])
            } else if (addr as int) < self.chr_rom@.len() {
                Ok(self.chr_rom@[addr as int])
            } else {
                Err(NesError::PpuMem(PpuMemoryError::PpuInvalidAddress(addr)))
            }
        } else if addr <= 0x3EFF {
            Ok(vram[spec_nametable_addr(addr, self.mirror_type) as int])
        } else {
            Err(NesError::PpuMem(PpuMemoryError::PpuInvalidAddress(addr)))
        }
    }

    pub fn ppu_read(&self, addr: u16, vram: &Vec<u8>) -> (r: Result<u8, NesError>)
        requires
            self.wf(),
            vram@.len() == 0x800,
        ensures
            r == self.spec_ppu_read(addr, vram@),
    {
        if addr <= 0x1FFF {
            if self.chr_rom.len() == 0 {
                Ok(self.chr_ram[addr as usize])
            } else if (addr as usize) < self.chr_rom.len() {
                Ok(self.chr_rom[addr as usize])
            } else {
                Err(NesError::PpuMem(PpuMemoryError::PpuInvalidAddress(addr)))
            }
        } else if addr <= 0x3EFF {
            Ok(vram[nametable_addr(addr, self.mirror_type) as usize])
        } else {
            Err(NesError::PpuMem(PpuMemoryError::PpuInvalidAddress(addr)))
        }
    }

    /// A PPU write reaches CHR-RAM only when no CHR-ROM was given, always
    /// reaches the mirrored VRAM, and errors above the nametable window.
    pub fn ppu_write(&mut self, addr: u16, byte: u8, vram: &mut Vec<u8>) -> (r: Result<
        (),
        NesError,
    >)
        requires
            old(self).wf(),
            old(vram)@.len() == 0x800,
        ensures
            final(self).wf(),
            final(vram)@.len() == 0x800,
            addr <= 0x1FFF && old(self).chr_rom@.len() == 0 ==> r == Ok::<(), NesError>(())
                && final(self).chr_ram@ == old(self).chr_ram@.update(addr as int, byte)
                && final(vram)@ == old(vram)@,
            addr <= 0x1FFF && old(self).chr_rom@.len() != 0 ==> r == Err::<(), NesError>(
                NesError::PpuMem(PpuMemoryError::PpuReadOnly(addr)),
            ) && final(vram)@ == old(vram)@,
            0x2000 <= addr <= 0x3EFF ==> r == Ok::<(), NesError>(()) && final(vram)@ == old(vram)@.update(spec_nametable_addr(addr, old(self).mirror_type) as int, byte),
            addr > 0x3EFF ==> r == Err::<(), NesError>(
                NesError::PpuMem(PpuMemoryError::PpuInvalidAddress(addr)),
            ) && final(vram)@ == old(vram)@,
            addr > 0x1FFF ==> *final(self) == *old(self),
            final(self).prg_rom@ == old(self).prg_rom@,
            final(self).chr_rom@ == old(self).chr_rom@,
            final(self).bank_select == old(self).bank_select,
            final(self).mirror_type == old(self).mirror_type,
    {
        if addr <= 0x1FFF {
            if self.chr_rom.len() == 0 {
                self.chr_ram.set(addr as usize, byte);
                Ok(())
            } else {
                Err(NesError::PpuMem(PpuMemoryError::PpuReadOnly(addr)))
            }
        } else if addr <= 0x3EFF {
            let na = nametable_addr(addr, self.mirror_type);
            vram.set(na as usize, byte);
            Ok(())
        } else {
            Err(NesError::PpuMem(PpuMemoryError::PpuInvalidAddress(addr)))
        }
    }
}

/// Build a UxROM cartridge, with its bank select at zero and its CHR-RAM
/// zeroed.
pub fn build_uxrom(prg_rom: &[u8], chr_rom: &[u8], mirror_type: MirrorType) -> (r: Result<
    Cartridge,
    NesError,
>)
    ensures
        ({
            &&& r matches Ok(c)
            &&& c matches Cartridge::Uxrom(u)
            &&& u.wf()
            &&& u.prg_rom@ == prg_rom@
            &&& u.chr_rom@ == chr_rom@
            &&& u.mirror_type == mirror_type
            &&& u.bank_select == 0
        }),
{
    Ok(
        Cartridge::Uxrom(
            Uxrom {
                prg_rom: vec_of(prg_rom),
                chr_rom: vec_of(chr_rom),
                chr_ram: zero_vec(8192),
                bank_select: 0,
                mirror_type,
            },
        ),
    )
}

} // verus!
