//! Mapper 0 (NROM): 16 or 32 KiB of fixed PRG-ROM, 8 KiB of CHR (ROM or
//! RAM), 8 KiB of PRG-RAM, and fixed mirroring.

use vstd::prelude::*;
use crate::error::NesError;
use crate::ines::parse::MirrorType;
use crate::mem::error::MemoryError;
use crate::mem::utils::{vec_of, zero_vec};
use crate::cart::cart::{spec_nametable_addr, nametable_addr, Cartridge, PpuMemoryError};

verus! {

pub struct Nrom {
    pub prg_rom: Vec<u8>,
    pub prg_ram: Vec<u8>,
    pub chr_rom: Vec<u8>,
    pub chr_ram: Vec<u8>,
    pub mirroring: MirrorType,
    pub num_prg_banks: u8,
}

/// How a CPU write moves the mapper: the whole contract of
/// [`Nrom::write`], as one relation between the state before (`pre`) and
/// after (`post`) with the result `r`.
pub open spec fn spec_nrom_write_rel(pre: Nrom, post: Nrom, addr: u16, byte: u8, r: Result<
    (),
    NesError,
>) -> bool {
    &&& 0x6000 <= addr <= 0x7FFF ==> r == Ok::<(), NesError>(()) && post.prg_ram@
        == pre.prg_ram@.update(addr - 0x6000, byte)
    &&& !(0x6000 <= addr <= 0x7FFF) ==> post == pre
    &&& addr >= 0x8000 ==> r == Err::<(), NesError>(NesError::Mem(MemoryError::ReadOnly(addr)))
    &&& addr < 0x6000 ==> r == Err::<(), NesError>(
        NesError::Mem(MemoryError::InvalidAddress(addr)),
    )
    &&& post.prg_rom@ == pre.prg_rom@
    &&& post.chr_rom@ == pre.chr_rom@
    &&& post.chr_ram@ == pre.chr_ram@
    &&& post.mirroring == pre.mirroring
    &&& post.num_prg_banks == pre.num_prg_banks
}

impl Nrom {
    /// PRG is one or two 16 KiB banks, CHR is absent (RAM then serves) or
    /// exactly 8 KiB, and both RAM arrays hold their full 8 KiB.
    pub open spec fn wf(&self) -> bool {
        &&& (self.prg_rom@.len() == 16384 && self.num_prg_banks == 1) || (self.prg_rom@.len()
            == 32768 && self.num_prg_banks == 2)
        &&& self.prg_ram@.len() == 8192
        &&& self.chr_rom@.len() == 0 || self.chr_rom@.len() == 8192
        &&& self.chr_ram@.len() == 8192
    }

    /// The PRG window mask: one bank mirrors `0x8000..` onto 16 KiB.
    pub open spec fn spec_prg_mask(&self) -> u16 {
        if self.num_prg_banks == 1 {
            0x3FFF
        } else {
            0x7FFF
        }
    }

    /// What a CPU read returns: PRG-RAM at `0x6000..=0x7FFF`, the masked
    /// PRG-ROM above `0x8000`, a decode error below the cartridge window.
    pub open spec fn spec_read(&self, addr: u16) -> Result<u8, NesError> {
        if 0x6000 <= addr && addr <= 0x7FFF {
            Ok(self.prg_ram@[addr - 0x6000])
        } else if addr >= 0x8000 {
            Ok(self.prg_rom@[(addr & self.spec_prg_mask()) as int])
        } else {
            Err(NesError::Mem(MemoryError::InvalidAddress(addr)))
        }
    }

    pub fn read(&self, addr: u16) -> (r: Result<u8, NesError>)
        requires
            self.wf(),
        ensures
            r == self.spec_read(addr),
    {
        if 0x6000 <= addr && addr <= 0x7FFF {
            Ok(self.prg_ram[(addr - 0x6000) as usize])
        } else if addr >= 0x8000 {
            let mask: u16 = if self.num_prg_banks == 1 {
                0x3FFF
            } else {
                0x7FFF
            };
            proof {
                assert((addr & 0x3FFF) < 16384 && (addr & 0x7FFF) < 32768) by (bit_vector);
            }
            Ok(self.prg_rom[(addr & mask) as usize])
        } else {
            Err(NesError::Mem(MemoryError::InvalidAddress(addr)))
        }
    }

    /// A CPU write lands in PRG-RAM, is refused as read-only over the ROM
    /// window, and is a decode error below the cartridge window.
    pub fn write(&mut self, addr: u16, byte: u8) -> (r: Result<(), NesError>)
        requires
            old(self).wf(),
        ensures
        final(self).wf(),
        spec_nrom_write_rel(*old(self), *final(self), addr, byte, r),
    {
        if 0x6000 <= addr && addr <= 0x7FFF {
            self.prg_ram.set((addr - 0x6000) as usize, byte);
            Ok(())
        } else if addr >= 0x8000 {
            Err(NesError::Mem(MemoryError::ReadOnly(addr)))
        } else {
            Err(NesError::Mem(MemoryError::InvalidAddress(addr)))
        }
    }

    /// What a PPU read returns: CHR below `0x2000` (RAM when no CHR-ROM
    /// was given), mirrored VRAM in the nametable window, an error above.
    pub open spec fn spec_ppu_read(&self, addr: u16, vram: Seq<u8>) -> Result<u8, NesError> {
        if addr <= 0x1FFF {
            if self.chr_rom@.len() == 0 {
                Ok(self.chr_ram@[addr as int])
            } else {
                Ok(self.chr_rom@[addr as int])
            }
        } else if addr <= 0x3EFF {
            Ok(vram[spec_nametable_addr(addr, self.mirroring) as int])
        } else {
            Err(NesError::PpuMem(PpuMemoryError::PpuInvalidAddress(addr)))
        }
    }

    pub fn ppu_read(&self, addr: u16, vram: &Vec<u8>) -> (r: Result<u8, NesError>)
        requires
            self.wf(),
            vram@.len() == 0x800,
        ensures
            r == self.spec_ppu_read(addr, vram@),
    {
        if addr <= 0x1FFF {
            if self.chr_rom.len() == 0 {
                Ok(self.chr_ram[addr as usize])
            } else {
                Ok(self.chr_rom[addr as usize])
            }
        } else if addr <= 0x3EFF {
            Ok(vram[nametable_addr(addr, self.mirroring) as usize])
        } else {
            Err(NesError::PpuMem(PpuMemoryError::PpuInvalidAddress(addr)))
        }
    }

    /// A PPU write reaches CHR-RAM only when no CHR-ROM was given, always
    /// reaches the mirrored VRAM, and errors above the nametable window.
    pub fn ppu_write(&mut self, addr: u16, byte: u8, vram: &mut Vec<u8>) -> (r: Result<
        (),
        NesError,
    >)
        requires
            old(self).wf(),
            old(vram)@.len() == 0x800,
        ensures
            final(self).wf(),
            final(vram)@.len() == 0x800,
            addr <= 0x1FFF && old(self).chr_rom@.len() == 0 ==> r == Ok::<(), NesError>(())
                && final(self).chr_ram@ == old(self).chr_ram@.update(addr as int, byte)
                && final(vram)@ == old(vram)@,
            addr <= 0x1FFF && old(self).chr_rom@.len() != 0 ==> r == Err::<(), NesError>(
                NesError::PpuMem(PpuMemoryError::PpuReadOnly(addr)),
            ) && final(vram)@ == old(vram)@,
            0x2000 <= addr <= 0x3EFF ==> r == Ok::<(), NesError>(()) && final(vram)@ == old(vram)@.update(spec_nametable_addr(addr, old(self).mirroring) as int, byte),
            addr > 0x3EFF ==> r == Err::<(), NesError>(
                NesError::PpuMem(PpuMemoryError::PpuInvalidAddress(addr)),
            ) && final(vram)@ == old(vram)@,
            addr > 0x1FFF ==> *final(self) == *old(self),
            final(self).prg_rom@ == old(self).prg_rom@,
            final(self).prg_ram@ == old(self).prg_ram@,
            final(self).chr_rom@ == old(self).chr_rom@,
            final(self).mirroring == old(self).mirroring,
            final(self).num_prg_banks == old(self).num_prg_banks,
    {
        if addr <= 0x1FFF {
            if self.chr_rom.len() == 0 {
                self.chr_ram.set(addr as usize, byte);
                Ok(())
            } else {
                Err(NesError::PpuMem(PpuMemoryError::PpuReadOnly(addr)))
            }
        } else if addr <= 0x3EFF {
            let na = nametable_addr(addr, self.mirroring);
            vram.set(na as usize, byte);
            Ok(())
        } else {
            Err(NesError::PpuMem(PpuMemoryError::PpuInvalidAddress(addr)))
        }
    }
}

/// Build an NROM cartridge. Succeeds exactly when the PRG image is one or
/// two 16 KiB banks and the CHR image is empty or the full 8 KiB; the
/// PRG-RAM and CHR-RAM come up zeroed.
pub fn build_nrom_cart(prg_rom: &[u8], chr_rom: &[u8], mirroring: MirrorType) -> (r: Result<
    Cartridge,
    NesError,
>)
    ensures
        r is Ok <==> (prg_rom@.len() == 16384 || prg_rom@.len() == 32768) && (chr_rom@.len() == 0
            || chr_rom@.len() == 8192),
        r matches Ok(c) ==> ({
            &&& c matches Cartridge::Nrom(n)
            &&& n.wf()
            &&& n.prg_rom@ == prg_rom@
            &&& n.chr_rom@ == chr_rom@
            &&& n.mirroring == mirroring
        }),
        r is Err ==> r == Err::<Cartridge, NesError>(NesError::UnsupportedRom),
{
    if !(prg_rom.len() == 16384 || prg_rom.len() == 32768) {
        return Err(NesError::UnsupportedRom);
    }
    if !(chr_rom.len() == 0 || chr_rom.len() == 8192) {
        return Err(NesError::UnsupportedRom);
    }
    let num_prg_banks: u8 = if prg_rom.len() == 16384 {
        1
    } else {
        2
    };
    Ok(
        Cartridge::Nrom(
            Nrom {
                prg_rom: vec_of(prg_rom),
                prg_ram: zero_vec(8192),
                chr_rom: vec_of(chr_rom),
                chr_ram: zero_vec(8192),
                mirroring,
                num_prg_banks,
            },
        ),
    )
}

} // verus!
