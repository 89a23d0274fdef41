//! Fixed-size NROM boards: the 16 KiB NROM-128 and the 32 KiB NROM-256,
//! each with exactly 8 KiB of CHR on board.

use vstd::prelude::*;
use crate::error::NesError;
use crate::ines::parse::MirrorType;
use crate::mem::error::MemoryError;
use crate::mem::utils::{vec_of, zero_vec};
use crate::cart::cart::{spec_nametable_addr, Cartridge, PpuMemoryError};
use crate::cart::cart;

verus! {

/// Fold a nametable address onto physical VRAM; these boards share the
/// wiring every mapper uses.
pub fn nametable_addr(addr: u16, mirror_type: MirrorType) -> (r: u16)
    ensures
        r == spec_nametable_addr(addr, mirror_type),
        r < 0x800,
{
    cart::nametable_addr(addr, mirror_type)
}

/// How a CPU write moves the board: the whole contract of
/// [`Nrom128::write`], as one relation between the state before (`pre`)
/// and after (`post`) with the result `r`.
pub open spec fn spec_nrom128_write_rel(pre: Nrom128, post: Nrom128, addr: u16, byte: u8, r:
    Result<(), NesError>) -> bool {
    &&& 0x6000 <= addr <= 0x7FFF ==> r == Ok::<(), NesError>(()) && post.prg_ram@
        == pre.prg_ram@.update(addr - 0x6000, byte)
    &&& !(0x6000 <= addr <= 0x7FFF) ==> post == pre
    &&& addr >= 0x8000 ==> r == Err::<(), NesError>(NesError::Mem(MemoryError::ReadOnly(addr)))
    &&& addr < 0x6000 ==> r == Err::<(), NesError>(
        NesError::Mem(MemoryError::InvalidAddress(addr)),
    )
    &&& post.prg_rom@ == pre.prg_rom@
    &&& post.chr_rom@ == pre.chr_rom@
    &&& post.mirroring == pre.mirroring
}

/// How a CPU write moves the board: the whole contract of
/// [`Nrom256::write`]; this board leaves its PRG image writable through
/// the ROM window.
pub open spec fn spec_nrom256_write_rel(pre: Nrom256, post: Nrom256, addr: u16, byte: u8, r:
    Result<(), NesError>) -> bool {
    &&& 0x6000 <= addr <= 0x7FFF ==> r == Ok::<(), NesError>(()) && post.prg_ram@
        == pre.prg_ram@.update(addr - 0x6000, byte) && post.prg_rom@ == pre.prg_rom@
    &&& addr >= 0x8000 ==> r == Ok::<(), NesError>(()) && post.prg_rom@
        == pre.prg_rom@.update((addr & 0x7FFF) as int, byte) && post.prg_ram@ == pre.prg_ram@
    &&& addr < 0x6000 ==> r == Err::<(), NesError>(
        NesError::Mem(MemoryError::InvalidAddress(addr)),
    ) && post == pre
    &&& post.chr_rom@ == pre.chr_rom@
    &&& post.mirroring == pre.mirroring
}

pub struct Nrom128 {
    pub prg_rom: Vec<u8>,
    pub prg_ram: Vec<u8>,
    pub chr_rom: Vec<u8>,
    pub mirroring: MirrorType,
}

impl Nrom128 {
    /// One 16 KiB PRG bank, 8 KiB of PRG-RAM, 8 KiB of CHR.
    pub open spec fn wf(&self) -> bool {
        &&& self.prg_rom@.len() == 16384
        &&& self.prg_ram@.len() == 8192
        &&& self.chr_rom@.len() == 8192
    }

    /// What a CPU read returns: PRG-RAM at `0x6000..=0x7FFF`, the single
    /// bank mirrored across `0x8000..`, a decode error below.
    pub open spec fn spec_read(&self, addr: u16) -> Result<u8, NesError> {
        if 0x6000 <= addr && addr <= 0x7FFF {
            Ok(self.prg_ram@[addr - 0x6000])
        } else if addr >= 0x8000 {
            Ok(self.prg_rom@[(addr & 0x3FFF) as int])
        } else {
            Err(NesError::Mem(MemoryError::InvalidAddress(addr)))
        }
    }

    pub fn read(&self, addr: u16) -> (r: Result<u8, NesError>)
        requires
            self.wf(),
        ensures
            r == self.spec_read(addr),
    {
        if 0x6000 <= addr && addr <= 0x7FFF {
            Ok(self.prg_ram[(addr - 0x6000) as usize])
        } else if addr >= 0x8000 {
            proof {
                assert((addr & 0x3FFF) < 16384) by (bit_vector);
            }
            Ok(self.prg_rom[(addr & 0x3FFF) as usize])
        } else {
            Err(NesError::Mem(MemoryError::InvalidAddress(addr)))
        }
    }

    /// A CPU write lands in PRG-RAM; the ROM window is read-only.
    pub fn write(&mut self, addr: u16, byte: u8) -> (r: Result<(), NesError>)
        requires
            old(self).wf(),
        ensures
        final(self).wf(),
        spec_nrom128_write_rel(*old(self), *final(self), addr, byte, r),
    {
        if 0x6000 <= addr && addr <= 0x7FFF {
            self.prg_ram.set((addr - 0x6000) as usize, byte);
            Ok(())
        } else if addr >= 0x8000 {
            Err(NesError::Mem(MemoryError::ReadOnly(addr)))
        } else {
            Err(NesError::Mem(MemoryError::InvalidAddress(addr)))
        }
    }

    /// What a PPU read returns: on-board CHR below `0x2000`, mirrored
    /// VRAM in the nametable window.
    pub open spec fn spec_ppu_read(&self, addr: u16, vram: Seq<u8>) -> Result<u8, NesError> {
        if addr <= 0x1FFF {
            Ok(self.chr_rom@[addr as int])
        } else if addr <= 0x3EFF {
            Ok(vram[spec_nametable_addr(addr, self.mirroring) as int])
        } else {
            Err(NesError::PpuMem(PpuMemoryError::PpuInvalidAddress(addr)))
        }
    }

    pub fn ppu_read(&self, addr: u16, vram: &Vec<u8>) -> (r: Result<u8, NesError>)
        requires
            self.wf(),
            vram@.len() == 0x800,
        ensures
            r == self.spec_ppu_read(addr, vram@),
    {
        if addr <= 0x1FFF {
            Ok(self.chr_rom[addr as usize])
        } else if addr <= 0x3EFF {
            Ok(vram[nametable_addr(addr, self.mirroring) as usize])
        } else {
            Err(NesError::PpuMem(PpuMemoryError::PpuInvalidAddress(addr)))
        }
    }

    /// A PPU write reaches the on-board CHR (these boards leave it
    /// writable) and the mirrored VRAM.
    pub fn ppu_write(&mut self, addr: u16, byte: u8, vram: &mut Vec<u8>) -> (r: Result<
        (),
        NesError,
    >)
        requires
            old(self).wf(),
            old(vram)@.len() == 0x800,
        ensures
            final(self).wf(),
            final(vram)@.len() == 0x800,
            addr <= 0x1FFF ==> r == Ok::<(), NesError>(()) && final(self).chr_rom@ == old(self).chr_rom@.update(addr as int, byte) && final(vram)@ == old(vram)@,
            0x2000 <= addr <= 0x3EFF ==> r == Ok::<(), NesError>(()) && final(vram)@ == old(vram)@.update(spec_nametable_addr(addr, old(self).mirroring) as int, byte) && *final(self) == *old(self),
            addr > 0x3EFF ==> r == Err::<(), NesError>(
                NesError::PpuMem(PpuMemoryError::PpuInvalidAddress(addr)),
            ) && final(vram)@ == old(vram)@ && *final(self) == *old(self),
    {
        if addr <= 0x1FFF {
            self.chr_rom.set(addr as usize, byte);
            Ok(())
        } else if addr <= 0x3EFF {
            let na = nametable_addr(addr, self.mirroring);
            vram.set(na as usize, byte);
            Ok(())
        } else {
            Err(NesError::PpuMem(PpuMemoryError::PpuInvalidAddress(addr)))
        }
    }
}

pub struct Nrom256 {
    pub prg_rom: Vec<u8>,
    pub prg_ram: Vec<u8>,
    pub chr_rom: Vec<u8>,
    pub mirroring: MirrorType,
}

impl Nrom256 {
    /// One 32 KiB PRG image, 8 KiB of PRG-RAM, 8 KiB of CHR.
    pub open spec fn wf(&self) -> bool {
        &&& self.prg_rom@.len() == 32768
        &&& self.prg_ram@.len() == 8192
        &&& self.chr_rom@.len() == 8192
    }

    /// What a CPU read returns: PRG-RAM at `0x6000..=0x7FFF`, the full
    /// 32 KiB image above `0x8000`.
    pub open spec fn spec_read(&self, addr: u16) -> Result<u8, NesError> {
        if 0x6000 <= addr && addr <= 0x7FFF {
            Ok(self.prg_ram@[addr - 0x6000])
        } else if addr >= 0x8000 {
            Ok(self.prg_rom@[(addr & 0x7FFF) as int])
        } else {
            Err(NesError::Mem(MemoryError::InvalidAddress(addr)))
        }
    }

    pub fn read(&self, addr: u16) -> (r: Result<u8, NesError>)
        requires
            self.wf(),
        ensures
            r == self.spec_read(addr),
    {
        if 0x6000 <= addr && addr <= 0x7FFF {
            Ok(self.prg_ram[(addr - 0x6000) as usize])
        } else if addr >= 0x8000 {
            proof {
                assert((addr & 0x7FFF) < 32768) by (bit_vector);
            }
            Ok(self.prg_rom[(addr & 0x7FFF) as usize])
        } else {
            Err(NesError::Mem(MemoryError::InvalidAddress(addr)))
        }
    }

    /// A CPU write lands in PRG-RAM; this board also leaves its PRG image
    /// writable through the ROM window.
    pub fn write(&mut self, addr: u16, byte: u8) -> (r: Result<(), NesError>)
        requires
            old(self).wf(),
        ensures
        final(self).wf(),
        spec_nrom256_write_rel(*old(self), *final(self), addr, byte, r),
    {
        if 0x6000 <= addr && addr <= 0x7FFF {
            self.prg_ram.set((addr - 0x6000) as usize, byte);
            Ok(())
        } else if addr >= 0x8000 {
            proof {
                assert((addr & 0x7FFF) < 32768) by (bit_vector);
            }
            self.prg_rom.set((addr & 0x7FFF) as usize, byte);
            Ok(())
        } else {
            Err(NesError::Mem(MemoryError::InvalidAddress(addr)))
        }
    }

    /// What a PPU read returns: on-board CHR below `0x2000`, mirrored
    /// VRAM in the nametable window.
    pub open spec fn spec_ppu_read(&self, addr: u16, vram: Seq<u8>) -> Result<u8, NesError> {
        if addr <= 0x1FFF {
            Ok(self.chr_rom@[addr as int])
        } else if addr <= 0x3EFF {
            Ok(vram[spec_nametable_addr(addr, self.mirroring) as int])
        } else {
            Err(NesError::PpuMem(PpuMemoryError::PpuInvalidAddress(addr)))
        }
    }

    pub fn ppu_read(&self, addr: u16, vram: &Vec<u8>) -> (r: Result<u8, NesError>)
        requires
            self.wf(),
            vram@.len() == 0x800,
        ensures
            r == self.spec_ppu_read(addr, vram@),
    {
        if addr <= 0x1FFF {
            Ok(self.chr_rom[addr as usize])
        } else if addr <= 0x3EFF {
            Ok(vram[nametable_addr(addr, self.mirroring) as usize])
        } else {
            Err(NesError::PpuMem(PpuMemoryError::PpuInvalidAddress(addr)))
        }
    }

    /// A PPU write reaches the on-board CHR and the mirrored VRAM.
    pub fn ppu_write(&mut self, addr: u16, byte: u8, vram: &mut Vec<u8>) -> (r: Result<
        (),
        NesError,
    >)
        requires
            old(self).wf(),
            old(vram)@.len() == 0x800,
        ensures
            final(self).wf(),
            final(vram)@.len() == 0x800,
            addr <= 0x1FFF ==> r == Ok::<(), NesError>(()) && final(self).chr_rom@ == old(self).chr_rom@.update(addr as int, byte) && final(vram)@ == old(vram)@,
            0x2000 <= addr <= 0x3EFF ==> r == Ok::<(), NesError>(()) && final(vram)@ == old(vram)@.update(spec_nametable_addr(addr, old(self).mirroring) as int, byte) && *final(self) == *old(self),
            addr > 0x3EFF ==> r == Err::<(), NesError>(
                NesError::PpuMem(PpuMemoryError::PpuInvalidAddress(addr)),
            ) && final(vram)@ == old(vram)@ && *final(self) == *old(self),
    {
        if addr <= 0x1FFF {
            self.chr_rom.set(addr as usize, byte);
            Ok(())
        } else if addr <= 0x3EFF {
            let na = nametable_addr(addr, self.mirroring);
            vram.set(na as usize, byte);
            Ok(())
        } else {
            Err(NesError::PpuMem(PpuMemoryError::PpuInvalidAddress(addr)))
        }
    }
}

/// Build a fixed NROM board. Succeeds exactly when the PRG image is one
/// bank (NROM-128) or two (NROM-256) and the CHR image is the full 8 KiB.
pub fn build_nrom_cart(prg_rom: &[u8], chr_rom: &[u8], mirroring: MirrorType) -> (r: Result<
    Cartridge,
    NesError,
>)
    ensures
        r is Ok <==> (prg_rom@.len() == 16384 || prg_rom@.len() == 32768) && chr_rom@.len()
            == 8192,
        prg_rom@.len() == 16384 && chr_rom@.len() == 8192 ==> ({
            &&& r matches Ok(c)
            &&& c matches Cartridge::Nrom128(n)
            &&& n.wf()
            &&& n.prg_rom@ == prg_rom@
            &&& n.chr_rom@ == chr_rom@
            &&& n.mirroring == mirroring
        }),
        prg_rom@.len() == 32768 && chr_rom@.len() == 8192 ==> ({
            &&& r matches Ok(c)
            &&& c matches Cartridge::Nrom256(n)
            &&& n.wf()
            &&& n.prg_rom@ == prg_rom@
            &&& n.chr_rom@ == chr_rom@
            &&& n.mirroring == mirroring
        }),
        r is Err ==> r == Err::<Cartridge, NesError>(NesError::UnsupportedRom),
{
    if chr_rom.len() != 8192 {
        return Err(NesError::UnsupportedRom);
    }
    if prg_rom.len() == 16384 {
        Ok(
            Cartridge::Nrom128(
                Nrom128 {
                    prg_rom: vec_of(prg_rom),
                    prg_ram: zero_vec(8192),
                    chr_rom: vec_of(chr_rom),
                    mirroring,
                },
            ),
        )
    } else if prg_rom.len() == 32768 {
        Ok(
            Cartridge::Nrom256(
                Nrom256 {
                    prg_rom: vec_of(prg_rom),
                    prg_ram: zero_vec(8192),
                    chr_rom: vec_of(chr_rom),
                    mirroring,
                },
            ),
        )
    } else {
        Err(NesError::UnsupportedRom)
    }
}

} // verus!
