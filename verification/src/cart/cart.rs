//! The cartridge seen from both sides of the machine: the CPU window at
//! `0x4020..=0xFFFF` and the PPU window at `0x0000..=0x3EFF`, plus the
//! nametable mirroring every mapper applies.

use vstd::prelude::*;
use crate::error::NesError;
use crate::ines::parse::MirrorType;
use crate::cart::mapper0::Nrom;
use crate::cart::mapper1::Mmc1;
use crate::cart::mapper2::Uxrom;
use crate::cart::mock::MockCartridge;
use crate::cart::nrom::{Nrom128, Nrom256};

verus! {

/// A PPU-side access that could not be served.
#[derive(Clone, Copy, Debug, PartialEq, Eq, Structural)]
pub enum PpuMemoryError {
    PpuReadOnly(u16),
    PpuInvalidAddress(u16),
}

/// The error for a PPU-side write into read-only CHR.
pub fn ppu_rd_only(addr: u16) -> (r: NesError)
    ensures
        r == NesError::PpuMem(PpuMemoryError::PpuReadOnly(addr)),
{
    NesError::PpuMem(PpuMemoryError::PpuReadOnly(addr))
}

/// The error for a PPU-side access outside the decoded window.
pub fn ppu_inv_addr(addr: u16) -> (r: NesError)
    ensures
        r == NesError::PpuMem(PpuMemoryError::PpuInvalidAddress(addr)),
{
    NesError::PpuMem(PpuMemoryError::PpuInvalidAddress(addr))
}

/// Where a logical nametable address lands in the physical 2 KiB of VRAM.
///
/// The 4 KiB logical window (`addr & 0xFFF`) is folded onto 2 KiB:
/// vertical mirroring shares nametables 0/2 and 1/3, horizontal shares
/// 0/1 and 2/3, and the one-screen modes send everything to one bank.
pub open spec fn spec_nametable_addr(addr: u16, mirror_type: MirrorType) -> u16 {
    let a = (addr & 0xFFF) as u16;
    match mirror_type {
        MirrorType::Vertical => if a < 0x400 || (0x800 <= a && a < 0xC00) {
            (a & 0x3FF) as u16
        } else {
            ((a & 0x3FF) | 0x400) as u16
        },
        MirrorType::Horizontal => if a < 0x800 {
            (a & 0x3FF) as u16
        } else {
            ((a & 0x3FF) | 0x400) as u16
        },
        MirrorType::OneScreenLow => (a & 0x3FF) as u16,
        MirrorType::OneScreenHigh => ((a & 0x3FF) | 0x400) as u16,
    }
}

/// Fold a nametable address onto physical VRAM, as
/// [`spec_nametable_addr`] says; the result indexes the 2 KiB of VRAM.
pub fn nametable_addr(addr: u16, mirror_type: MirrorType) -> (r: u16)
    ensures
        r == spec_nametable_addr(addr, mirror_type),
        r < 0x800,
{
    let a = addr & 0xFFF;
    proof {
        assert(a <= 0xFFF && (a & 0x3FF) < 0x400 && ((a & 0x3FF) | 0x400) < 0x800)
            by (bit_vector)
            requires
                a == addr & 0xFFF,
        ;
    }
    match mirror_type {
        MirrorType::Vertical => {
            if a < 0x400 || (0x800 <= a && a < 0xC00) {
                a & 0x3FF
            } else {
                (a & 0x3FF) | 0x400
            }
        },
        MirrorType::Horizontal => {
            if a < 0x800 {
                a & 0x3FF
            } else {
                (a & 0x3FF) | 0x400
            }
        },
        MirrorType::OneScreenLow => a & 0x3FF,
        MirrorType::OneScreenHigh => (a & 0x3FF) | 0x400,
    }
}

/// Vertical mirroring shares a physical byte between nametables 0 and 2,
/// and a different one between 1 and 3: for every offset below `0x400`,
/// `0x2000 + off` and `0x2800 + off` fold to the same VRAM cell, while
/// `0x2400 + off` and `0x2C00 + off` fold to a distinct shared cell.
pub proof fn lemma_vertical_mirroring(off: u16)
    requires
        off < 0x400,
    ensures
        spec_nametable_addr((0x2000 + off) as u16, MirrorType::Vertical)
            == spec_nametable_addr((0x2800 + off) as u16, MirrorType::Vertical),
        spec_nametable_addr((0x2400 + off) as u16, MirrorType::Vertical)
            == spec_nametable_addr((0x2C00 + off) as u16, MirrorType::Vertical),
        spec_nametable_addr((0x2000 + off) as u16, MirrorType::Vertical)
            != spec_nametable_addr((0x2400 + off) as u16, MirrorType::Vertical),
{
    assert(((0x2000 + off) as u16 & 0xFFF) == off && ((0x2800 + off) as u16 & 0xFFF) == (
    0x800 + off) as u16 && ((0x2400 + off) as u16 & 0xFFF) == (0x400 + off) as u16 && ((0x2C00
        + off) as u16 & 0xFFF) == (0xC00 + off) as u16 && (off & 0x3FF) == off && (((0x800
        + off) as u16) & 0x3FF) == off && (((0x400 + off) as u16) & 0x3FF) == off && (((0xC00
        + off) as u16) & 0x3FF) == off && (off | 0x400) != off) by (bit_vector)
        requires
            off < 0x400,
    ;
}

/// Horizontal mirroring shares 0 with 1 and 2 with 3, and keeps the two
/// pairs apart.
pub proof fn lemma_horizontal_mirroring(off: u16)
    requires
        off < 0x400,
    ensures
        spec_nametable_addr((0x2000 + off) as u16, MirrorType::Horizontal)
            == spec_nametable_addr((0x2400 + off) as u16, MirrorType::Horizontal),
        spec_nametable_addr((0x2800 + off) as u16, MirrorType::Horizontal)
            == spec_nametable_addr((0x2C00 + off) as u16, MirrorType::Horizontal),
        spec_nametable_addr((0x2000 + off) as u16, MirrorType::Horizontal)
            != spec_nametable_addr((0x2800 + off) as u16, MirrorType::Horizontal),
{
    assert(((0x2000 + off) as u16 & 0xFFF) == off && ((0x2800 + off) as u16 & 0xFFF) == (
    0x800 + off) as u16 && ((0x2400 + off) as u16 & 0xFFF) == (0x400 + off) as u16 && ((0x2C00
        + off) as u16 & 0xFFF) == (0xC00 + off) as u16 && (off & 0x3FF) == off && (((0x800
        + off) as u16) & 0x3FF) == off && (((0x400 + off) as u16) & 0x3FF) == off && (((0xC00
        + off) as u16) & 0x3FF) == off && (off | 0x400) != off) by (bit_vector)
        requires
            off < 0x400,
    ;
}

/// A cartridge, dispatched by mapper. Every variant answers the same four
/// bus operations.
pub enum Cartridge {
    Nrom(Nrom),
    Mmc1(Mmc1),
    Uxrom(Uxrom),
    Nrom128(Nrom128),
    Nrom256(Nrom256),
    Mock(MockCartridge),
}

impl Cartridge {
    /// Every variant's internal sizes are in order.
    pub open spec fn wf(&self) -> bool {
        match self {
            Cartridge::Nrom(c) => c.wf(),
            Cartridge::Mmc1(c) => c.wf(),
            Cartridge::Uxrom(c) => c.wf(),
            Cartridge::Nrom128(c) => c.wf(),
            Cartridge::Nrom256(c) => c.wf(),
            Cartridge::Mock(_) => true,
        }
    }

    /// The mapper's name.
    pub fn name(&self) -> (r: &'static str)
        ensures
            (*self) is Nrom ==> r@ == "NROM"@,
            (*self) is Mmc1 ==> r@ == "MMC1"@,
            (*self) is Uxrom ==> r@ == "UxROM"@,
            (*self) is Nrom128 ==> r@ == "NROM-128"@,
            (*self) is Nrom256 ==> r@ == "NROM-256"@,
            (*self) is Mock ==> r@ == "Mock Cartridge"@,
    {
        match self {
            Cartridge::Nrom(_) => "NROM",
            Cartridge::Mmc1(_) => "MMC1",
            Cartridge::Uxrom(_) => "UxROM",
            Cartridge::Nrom128(_) => "NROM-128",
            Cartridge::Nrom256(_) => "NROM-256",
            Cartridge::Mock(_) => "Mock Cartridge",
        }
    }

    /// A CPU-side read, routed to the mapper.
    pub fn read(&self, addr: u16) -> (r: Result<u8, NesError>)
        requires
            self.wf(),
        ensures
            r == self.spec_cpu_read(addr),
    {
        match self {
            Cartridge::Nrom(c) => c.read(addr),
            Cartridge::Mmc1(c) => c.read(addr),
            Cartridge::Uxrom(c) => c.read(addr),
            Cartridge::Nrom128(c) => c.read(addr),
            Cartridge::Nrom256(c) => c.read(addr),
            Cartridge::Mock(c) => c.read(addr),
        }
    }

    /// What a CPU-side read returns, per mapper.
    pub open spec fn spec_cpu_read(&self, addr: u16) -> Result<u8, NesError> {
        match self {
            Cartridge::Nrom(c) => c.spec_read(addr),
            Cartridge::Mmc1(c) => c.spec_read(addr),
            Cartridge::Uxrom(c) => c.spec_read(addr),
            Cartridge::Nrom128(c) => c.spec_read(addr),
            Cartridge::Nrom256(c) => c.spec_read(addr),
            Cartridge::Mock(c) => c.spec_read(addr),
        }
    }

    /// The nametable mirroring the mapper currently applies; the empty
    /// slot decodes no nametable traffic and names none.
    pub open spec fn spec_mirroring(&self) -> MirrorType {
        match self {
            Cartridge::Nrom(c) => c.mirroring,
            Cartridge::Mmc1(c) => c.mirror_type,
            Cartridge::Uxrom(c) => c.mirror_type,
            Cartridge::Nrom128(c) => c.mirroring,
            Cartridge::Nrom256(c) => c.mirroring,
            Cartridge::Mock(_) => MirrorType::OneScreenLow,
        }
    }

    /// How a CPU-side write moves the cartridge: the variant is kept and
    /// its mapper's own write relation holds; the empty slot refuses the
    /// address untouched.
    pub open spec fn spec_write_rel(
        pre: Cartridge,
        post: Cartridge,
        addr: u16,
        byte: u8,
        r: Result<(), NesError>,
    ) -> bool {
        match pre {
            Cartridge::Nrom(p) => post matches Cartridge::Nrom(q)
                && crate::cart::mapper0::spec_nrom_write_rel(p, q, addr, byte, r),
            Cartridge::Mmc1(p) => post matches Cartridge::Mmc1(q)
                && crate::cart::mapper1::spec_mmc1_write_rel(p, q, addr, byte, r),
            Cartridge::Uxrom(p) => post matches Cartridge::Uxrom(q)
                && crate::cart::mapper2::spec_uxrom_write_rel(p, q, addr, byte, r),
            Cartridge::Nrom128(p) => post matches Cartridge::Nrom128(q)
                && crate::cart::nrom::spec_nrom128_write_rel(p, q, addr, byte, r),
            Cartridge::Nrom256(p) => post matches Cartridge::Nrom256(q)
                && crate::cart::nrom::spec_nrom256_write_rel(p, q, addr, byte, r),
            Cartridge::Mock(_) => post == pre && r == Err::<(), NesError>(
                NesError::Mem(crate::mem::error::MemoryError::InvalidAddress(addr)),
            ),
        }
    }

    /// A CPU-side write, routed to the mapper, as
    /// [`Cartridge::spec_write_rel`] says.
    pub fn write(&mut self, addr: u16, byte: u8) -> (r: Result<(), NesError>)
        requires
            old(self).wf(),
        ensures
            final(self).wf(),
            Cartridge::spec_write_rel(*old(self), *final(self), addr, byte, r),
    {
        match self {
            Cartridge::Nrom(c) => c.write(addr, byte),
            Cartridge::Mmc1(c) => c.write(addr, byte),
            Cartridge::Uxrom(c) => c.write(addr, byte),
            Cartridge::Nrom128(c) => c.write(addr, byte),
            Cartridge::Nrom256(c) => c.write(addr, byte),
            Cartridge::Mock(c) => c.write(addr, byte),
        }
    }

    /// A PPU-side read: CHR below `0x2000`, nametables through the
    /// mapper's mirroring above it.
    pub fn ppu_read(&self, addr: u16, vram: &Vec<u8>) -> (r: Result<u8, NesError>)
        requires
            self.wf(),
            vram@.len() == 0x800,
        ensures
            r == self.spec_ppu_read(addr, vram@),
    {
        match self {
            Cartridge::Nrom(c) => c.ppu_read(addr, vram),
            Cartridge::Mmc1(c) => c.ppu_read(addr, vram),
            Cartridge::Uxrom(c) => c.ppu_read(addr, vram),
            Cartridge::Nrom128(c) => c.ppu_read(addr, vram),
            Cartridge::Nrom256(c) => c.ppu_read(addr, vram),
            Cartridge::Mock(c) => c.ppu_read(addr, vram),
        }
    }

    /// What a PPU-side read returns, per mapper.
    pub open spec fn spec_ppu_read(&self, addr: u16, vram: Seq<u8>) -> Result<u8, NesError> {
        match self {
            Cartridge::Nrom(c) => c.spec_ppu_read(addr, vram),
            Cartridge::Mmc1(c) => c.spec_ppu_read(addr, vram),
            Cartridge::Uxrom(c) => c.spec_ppu_read(addr, vram),
            Cartridge::Nrom128(c) => c.spec_ppu_read(addr, vram),
            Cartridge::Nrom256(c) => c.spec_ppu_read(addr, vram),
            Cartridge::Mock(c) => c.spec_ppu_read(addr, vram),
        }
    }

    /// A PPU-side write: CHR-RAM below `0x2000` where the mapper has any,
    /// nametables through the mapper's mirroring above it.
    pub fn ppu_write(&mut self, addr: u16, byte: u8, vram: &mut Vec<u8>) -> (r: Result<
        (),
        NesError,
    >)
        requires
            old(self).wf(),
            old(vram)@.len() == 0x800,
        ensures
            final(self).wf(),
            final(vram)@.len() == 0x800,
            0x2000 <= addr <= 0x3EFF && !((*old(self)) is Mock) ==> r == Ok::<(), NesError>(())
                && final(vram)@ == old(vram)@.update(
                spec_nametable_addr(addr, old(self).spec_mirroring()) as int,
                byte,
            ) && *final(self) == *old(self),
    {
        match self {
            Cartridge::Nrom(c) => c.ppu_write(addr, byte, vram),
            Cartridge::Mmc1(c) => c.ppu_write(addr, byte, vram),
            Cartridge::Uxrom(c) => c.ppu_write(addr, byte, vram),
            Cartridge::Nrom128(c) => c.ppu_write(addr, byte, vram),
            Cartridge::Nrom256(c) => c.ppu_write(addr, byte, vram),
            Cartridge::Mock(c) => c.ppu_write(addr, byte, vram),
        }
    }
}

} // verus!
