//! Mapper 1 (MMC1): a serial shift register the program feeds one bit at
//! a time, four internal registers latched from it, and the PRG/CHR bank
//! bases and mirroring derived from those registers.

use vstd::prelude::*;
use crate::bits::lemma_bit_bounds;
use crate::error::NesError;
use crate::ines::parse::MirrorType;
use crate::mem::error::MemoryError;
use crate::mem::utils::{vec_of, zero_vec};
use crate::cart::cart::{spec_nametable_addr, nametable_addr, Cartridge, PpuMemoryError};

verus! {

/// The MMC1 control register: mirroring in bits 0..2, the PRG bank mode
/// in bits 2..4, the CHR bank mode in bit 4.
#[derive(Clone, Copy, Debug, PartialEq, Eq, Structural)]
pub struct ControlReg(pub u8);

impl ControlReg {
    pub fn get_mirror(&self) -> (r: u8)
        ensures
            r == (self.0 & 3) as u8,
    {
        self.0 & 3
    }

    pub fn get_prg_rom_bank_mode(&self) -> (r: u8)
        ensures
            r == ((self.0 >> 2) & 3) as u8,
    {
        (self.0 >> 2) & 3
    }

    pub fn get_chr_rom_bank_mode(&self) -> (r: bool)
        ensures
            r == ((self.0 >> 4) & 1 == 1),
    {
        (self.0 >> 4) & 1 == 1
    }
}

/// The mirroring named by the low two control bits.
pub open spec fn spec_mmc1_mirror(control: u8) -> MirrorType {
    if control & 3 == 0 {
        MirrorType::OneScreenLow
    } else if control & 3 == 1 {
        MirrorType::OneScreenHigh
    } else if control & 3 == 2 {
        MirrorType::Vertical
    } else {
        MirrorType::Horizontal
    }
}

/// Base of the first 4 KiB CHR window: in 8 KiB mode the even bank pair
/// named by `chr0 >> 1`, in 4 KiB mode the bank named by `chr0`.
pub open spec fn spec_chr_base_0(control: u8, chr0: u8) -> int {
    if (control >> 4) & 1 == 0 {
        (chr0 >> 1) * 8192
    } else {
        chr0 * 4096
    }
}

/// Base of the second 4 KiB CHR window: 4 KiB past the first in 8 KiB
/// mode, the bank named by `chr1` in 4 KiB mode.
pub open spec fn spec_chr_base_1(control: u8, chr0: u8, chr1: u8) -> int {
    if (control >> 4) & 1 == 0 {
        spec_chr_base_0(control, chr0) + 4096
    } else {
        chr1 * 4096
    }
}

/// Base of the 16 KiB PRG window at `0x8000`: modes 0/1 take a 32 KiB
/// bank, mode 2 fixes the first bank, mode 3 switches it.
pub open spec fn spec_prg_base_0(control: u8, prg_bank: u8) -> int {
    let mode = (control >> 2) & 3;
    if mode == 0 || mode == 1 {
        ((prg_bank & 0xF) >> 1) * 32768
    } else if mode == 2 {
        0
    } else {
        (prg_bank & 0xF) * 16384
    }
}

/// Base of the 16 KiB PRG window at `0xC000`: the second half of the
/// 32 KiB bank in modes 0/1, switched in mode 2, the last bank in mode 3.
pub open spec fn spec_prg_base_1(control: u8, prg_bank: u8, prg_len: int) -> int {
    let mode = (control >> 2) & 3;
    if mode == 0 || mode == 1 {
        spec_prg_base_0(control, prg_bank) + 16384
    } else if mode == 2 {
        (prg_bank & 0xF) * 16384
    } else {
        prg_len - 16384
    }
}

pub struct Mmc1 {
    pub prg_ram: Vec<u8>,
    pub prg_rom: Vec<u8>,
    pub chr_rom: Vec<u8>,
    pub chr_ram: Vec<u8>,
    pub shift_reg: u8,
    pub control: ControlReg,
    pub chr_bank0: u8,
    pub chr_bank1: u8,
    pub prg_bank: u8,
    pub write_count: u8,
    pub prg_rom_bank_0_base: usize,
    pub prg_rom_bank_1_base: usize,
    pub chr_rom_bank_0_base: usize,
    pub chr_rom_bank_1_base: usize,
    pub mirror_type: MirrorType,
}

/// How a CPU write moves the mapper: the whole contract of
/// [`Mmc1::write`], as one relation between the state before (`pre`) and
/// after (`post`) with the result `r`.
pub open spec fn spec_mmc1_write_rel(pre: Mmc1, post: Mmc1, addr: u16, byte: u8, r: Result<
    (),
    NesError,
>) -> bool {
    &&& post.prg_rom@ == pre.prg_rom@
    &&& post.chr_rom@ == pre.chr_rom@
    &&& post.chr_ram@ == pre.chr_ram@
    &&& 0x6000 <= addr <= 0x7FFF ==> r == Ok::<(), NesError>(()) && post.prg_ram@
        == pre.prg_ram@.update(addr - 0x6000, byte) && post.shift_reg == pre.shift_reg
        && post.write_count == pre.write_count && post.control == pre.control
    &&& addr < 0x6000 ==> r == Err::<(), NesError>(
        NesError::Mem(MemoryError::InvalidAddress(addr)),
    ) && post == pre
    &&& addr >= 0x8000 ==> r == Ok::<(), NesError>(()) && post.prg_ram@ == pre.prg_ram@
    &&& addr >= 0x8000 && byte & 0x80 != 0 ==> post.write_count == 0 && post.shift_reg == 0
        && post.control.0 == (pre.control.0 | 0x0C) as u8 && post.chr_bank0 == pre.chr_bank0
        && post.chr_bank1 == pre.chr_bank1 && post.prg_bank == pre.prg_bank
    &&& addr >= 0x8000 && byte & 0x80 == 0 && pre.write_count < 4 ==> post.shift_reg == (((byte
        & 1) << 4) | (pre.shift_reg >> 1)) as u8 && post.write_count == pre.write_count + 1
        && post.control == pre.control && post.chr_bank0 == pre.chr_bank0 && post.chr_bank1
        == pre.chr_bank1 && post.prg_bank == pre.prg_bank
    &&& addr >= 0x8000 && byte & 0x80 == 0 && pre.write_count == 4 ==> ({
        let v = (((byte & 1) << 4) | (pre.shift_reg >> 1)) as u8;
        let target = (addr >> 13) & 3;
        &&& post.write_count == 0
        &&& post.shift_reg == 0
        &&& post.control.0 == (if target == 0 {
            v
        } else {
            pre.control.0
        })
        &&& post.chr_bank0 == (if target == 1 {
            v
        } else {
            pre.chr_bank0
        })
        &&& post.chr_bank1 == (if target == 2 {
            v
        } else {
            pre.chr_bank1
        })
        &&& post.prg_bank == (if target == 3 {
            v
        } else {
            pre.prg_bank
        })
    })
}

impl Mmc1 {
    /// The serial state stays five bits wide, the write counter below
    /// five, the images within the sizes the board supports, and the
    /// derived fields equal to what the registers name.
    pub open spec fn wf(&self) -> bool {
        &&& self.prg_ram@.len() == 8192
        &&& self.chr_ram@.len() == 8192
        &&& 16384 <= self.prg_rom@.len() <= 0x80000
        &&& self.chr_rom@.len() <= 0x20000
        &&& self.shift_reg <= 0x1F
        &&& self.chr_bank0 <= 0x1F
        &&& self.chr_bank1 <= 0x1F
        &&& self.prg_bank <= 0x1F
        &&& self.write_count <= 4
        &&& self.derived_ok()
    }

    /// The cached bank bases and mirroring match the registers.
    pub open spec fn derived_ok(&self) -> bool {
        &&& self.mirror_type == spec_mmc1_mirror(self.control.0)
        &&& self.chr_rom_bank_0_base == spec_chr_base_0(self.control.0, self.chr_bank0)
        &&& self.chr_rom_bank_1_base == spec_chr_base_1(
            self.control.0,
            self.chr_bank0,
            self.chr_bank1,
        )
        &&& self.prg_rom_bank_0_base == spec_prg_base_0(self.control.0, self.prg_bank)
        &&& self.prg_rom_bank_1_base == spec_prg_base_1(
            self.control.0,
            self.prg_bank,
            self.prg_rom@.len() as int,
        )
    }

    /// Recompute the mirroring and the four bank bases from the control,
    /// CHR and PRG registers, exactly as the `spec_*` base functions say.
    pub fn update_base_addr(&mut self)
        requires
            16384 <= old(self).prg_rom@.len() <= 0x80000,
            old(self).chr_bank0 <= 0x1F,
            old(self).chr_bank1 <= 0x1F,
            old(self).prg_bank <= 0x1F,
        ensures
            final(self).derived_ok(),
            final(self).prg_ram@ == old(self).prg_ram@,
            final(self).prg_rom@ == old(self).prg_rom@,
            final(self).chr_rom@ == old(self).chr_rom@,
            final(self).chr_ram@ == old(self).chr_ram@,
            final(self).shift_reg == old(self).shift_reg,
            final(self).control == old(self).control,
            final(self).chr_bank0 == old(self).chr_bank0,
            final(self).chr_bank1 == old(self).chr_bank1,
            final(self).prg_bank == old(self).prg_bank,
            final(self).write_count == old(self).write_count,
    {
        proof {
            lemma_bit_bounds();
        }
        let m = self.control.get_mirror();
        self.mirror_type = if m == 0 {
            MirrorType::OneScreenLow
        } else if m == 1 {
            MirrorType::OneScreenHigh
        } else if m == 2 {
            MirrorType::Vertical
        } else {
            MirrorType::Horizontal
        };

        if self.control.get_chr_rom_bank_mode() == false {
            self.chr_rom_bank_0_base = ((self.chr_bank0 >> 1) as usize) * 8192;
            self.chr_rom_bank_1_base = self.chr_rom_bank_0_base + 4096;
        } else {
            self.chr_rom_bank_0_base = (self.chr_bank0 as usize) * 4096;
            self.chr_rom_bank_1_base = (self.chr_bank1 as usize) * 4096;
        }

        let prg_mode = self.control.get_prg_rom_bank_mode();
        if prg_mode == 0 || prg_mode == 1 {
            self.prg_rom_bank_0_base = (((self.prg_bank & 0xF) >> 1) as usize) * 32768;
            self.prg_rom_bank_1_base = self.prg_rom_bank_0_base + 16384;
        } else if prg_mode == 2 {
            self.prg_rom_bank_0_base = 0;
            self.prg_rom_bank_1_base = ((self.prg_bank & 0xF) as usize) * 16384;
        } else {
            self.prg_rom_bank_0_base = ((self.prg_bank & 0xF) as usize) * 16384;
            self.prg_rom_bank_1_base = self.prg_rom.len() - 16384;
        }
    }

    /// Where a CPU address in the ROM window lands in PRG-ROM: the low
    /// 14 bits joined onto the base of whichever bank bit 14 selects.
    pub open spec fn spec_map_cpu_addr(&self, addr: u16) -> int {
        if addr & 0x4000 == 0 {
            (self.prg_rom_bank_0_base | ((addr & 0x3FFF) as usize)) as int
        } else {
            (self.prg_rom_bank_1_base | ((addr & 0x3FFF) as usize)) as int
        }
    }

    pub fn map_cpu_addr(&self, addr: u16) -> (r: usize)
        ensures
            r == self.spec_map_cpu_addr(addr),
    {
        let bank = addr & 0x4000;
        if bank == 0 {
            self.prg_rom_bank_0_base | ((addr & 0x3FFF) as usize)
        } else {
            self.prg_rom_bank_1_base | ((addr & 0x3FFF) as usize)
        }
    }

    /// Where a PPU address below `0x2000` lands in CHR: the low 12 bits
    /// joined onto the base of whichever 4 KiB window bit 12 selects.
    pub open spec fn spec_map_chr_addr(&self, addr: u16) -> int {
        if addr & 0x1000 == 0 {
            self.chr_rom_bank_0_base + (addr & 0xFFF)
        } else {
            self.chr_rom_bank_1_base + (addr & 0xFFF)
        }
    }

    pub fn map_chr_addr(&self, addr: u16) -> (r: usize)
        requires
            self.chr_rom_bank_0_base <= 0x40000,
            self.chr_rom_bank_1_base <= 0x40000,
        ensures
            r == self.spec_map_chr_addr(addr),
    {
        proof {
            lemma_bit_bounds();
        }
        let bank = addr & 0x1000;
        if bank == 0 {
            self.chr_rom_bank_0_base + ((addr & 0xFFF) as usize)
        } else {
            self.chr_rom_bank_1_base + ((addr & 0xFFF) as usize)
        }
    }

    /// What a CPU read returns: PRG-RAM at `0x6000..=0x7FFF`, the banked
    /// PRG-ROM above `0x8000` (an error when the selected bank runs past
    /// the image), a decode error below the cartridge window.
    pub open spec fn spec_read(&self, addr: u16) -> Result<u8, NesError> {
        if 0x6000 <= addr && addr <= 0x7FFF {
            Ok(self.prg_ram@[addr - 0x6000])
        } else if addr >= 0x8000 {
            if self.spec_map_cpu_addr(addr) < self.prg_rom@.len() {
                Ok(self.prg_rom@[self.spec_map_cpu_addr(addr)])
            } else {
                Err(NesError::Mem(MemoryError::InvalidAddress(addr)))
            }
        } else {
            Err(NesError::Mem(MemoryError::InvalidAddress(addr)))
        }
    }

    pub fn read(&self, addr: u16) -> (r: Result<u8, NesError>)
        requires
            self.wf(),
        ensures
            r == self.spec_read(addr),
    {
        if 0x6000 <= addr && addr <= 0x7FFF {
            Ok(self.prg_ram[(addr - 0x6000) as usize])
        } else if addr >= 0x8000 {
            let idx = self.map_cpu_addr(addr);
            if idx < self.prg_rom.len() {
                Ok(self.prg_rom[idx])
            } else {
                Err(NesError::Mem(MemoryError::InvalidAddress(addr)))
            }
        } else {
            Err(NesError::Mem(MemoryError::InvalidAddress(addr)))
        }
    }

    /// Drive the serial port. A write with bit 7 set resets the shift
    /// register and locks PRG mode 3; otherwise bit 0 shifts in from the
    /// top, and the fifth write latches the accumulated five bits into
    /// the register addressed by bits 13..15, then recomputes the banks.
    pub fn write(&mut self, addr: u16, byte: u8) -> (r: Result<(), NesError>)
        requires
            old(self).wf(),
        ensures
        final(self).wf(),
        spec_mmc1_write_rel(*old(self), *final(self), addr, byte, r),
    {
        proof {
            lemma_bit_bounds();
        }
        if 0x6000 <= addr && addr <= 0x7FFF {
            self.prg_ram.set((addr - 0x6000) as usize, byte);
            Ok(())
        } else if addr >= 0x8000 {
            if byte & 0x80 != 0 {
                self.write_count = 0;
                self.shift_reg = 0;
                self.control = ControlReg(self.control.0 | 0x0C);
                self.update_base_addr();
            } else {
                let ghost s0: u8 = self.shift_reg;
                let shifted: u8 = ((byte & 1) << 4) | (self.shift_reg >> 1);
                proof {
                    assert(shifted <= 0x1F) by (bit_vector)
                        requires
                            shifted == ((byte & 1) << 4) | (s0 >> 1),
                            s0 <= 0x1F,
                    ;
                }
                self.shift_reg = shifted;
                self.write_count = self.write_count + 1;
                if self.write_count == 5 {
                    let target = (addr >> 13) & 3;
                    if target == 0 {
                        self.control = ControlReg(self.shift_reg);
                    } else if target == 1 {
                        self.chr_bank0 = self.shift_reg;
                    } else if target == 2 {
                        self.chr_bank1 = self.shift_reg;
                    } else {
                        self.prg_bank = self.shift_reg;
                    }
                    self.write_count = 0;
                    self.shift_reg = 0;
                    self.update_base_addr();
                }
            }
            Ok(())
        } else {
            Err(NesError::Mem(MemoryError::InvalidAddress(addr)))
        }
    }

    /// What a PPU read returns: banked CHR below `0x2000` (CHR-RAM when
    /// no CHR-ROM was given), mirrored VRAM in the nametable window. A
    /// bank running past the image is an error.
    pub open spec fn spec_ppu_read(&self, addr: u16, vram: Seq<u8>) -> Result<u8, NesError> {
        if addr <= 0x1FFF {
            let idx = self.spec_map_chr_addr(addr);
            if self.chr_rom@.len() == 0 {
                if idx < self.chr_ram@.len() {
                    Ok(self.chr_ram@[idx])
                } else {
                    Err(NesError::PpuMem(PpuMemoryError::PpuInvalidAddress(addr)))
                }
            } else {
                if idx < self.chr_rom@.len() {
                    Ok(self.chr_rom@[idx])
                } else {
                    Err(NesError::PpuMem(PpuMemoryError::PpuInvalidAddress(addr)))
                }
            }
        } else if addr <= 0x3EFF {
            Ok(vram[spec_nametable_addr(addr, self.mirror_type) as int])
        } else {
            Err(NesError::PpuMem(PpuMemoryError::PpuInvalidAddress(addr)))
        }
    }

    pub fn ppu_read(&self, addr: u16, vram: &Vec<u8>) -> (r: Result<u8, NesError>)
        requires
            self.wf(),
            vram@.len() == 0x800,
        ensures
            r == self.spec_ppu_read(addr, vram@),
    {
        proof {
            lemma_bit_bounds();
        }
        if addr <= 0x1FFF {
            let idx = self.map_chr_addr(addr);
            if self.chr_rom.len() == 0 {
                if idx < self.chr_ram.len() {
                    Ok(self.chr_ram[idx])
                } else {
                    Err(NesError::PpuMem(PpuMemoryError::PpuInvalidAddress(addr)))
                }
            } else {
                if idx < self.chr_rom.len() {
                    Ok(self.chr_rom[idx])
                } else {
                    Err(NesError::PpuMem(PpuMemoryError::PpuInvalidAddress(addr)))
                }
            }
        } else if addr <= 0x3EFF {
            Ok(vram[nametable_addr(addr, self.mirror_type) as usize])
        } else {
            Err(NesError::PpuMem(PpuMemoryError::PpuInvalidAddress(addr)))
        }
    }

    /// A PPU write reaches the banked CHR-RAM only when no CHR-ROM was
    /// given, always reaches the mirrored VRAM, and errors above the
    /// nametable window.
    pub fn ppu_write(&mut self, addr: u16, byte: u8, vram: &mut Vec<u8>) -> (r: Result<
        (),
        NesError,
    >)
        requires
            old(self).wf(),
            old(vram)@.len() == 0x800,
        ensures
            final(self).wf(),
            final(vram)@.len() == 0x800,
            addr <= 0x1FFF && old(self).chr_rom@.len() == 0 && old(self).spec_map_chr_addr(addr)
                < 8192 ==> r == Ok::<(), NesError>(()) && final(self).chr_ram@ == old(self).chr_ram@.update(old(self).spec_map_chr_addr(addr), byte) && final(vram)@ == old(vram)@,
            addr <= 0x1FFF && old(self).chr_rom@.len() != 0 ==> r == Err::<(), NesError>(
                NesError::PpuMem(PpuMemoryError::PpuReadOnly(addr)),
            ) && final(vram)@ == old(vram)@ && *final(self) == *old(self),
            0x2000 <= addr <= 0x3EFF ==> r == Ok::<(), NesError>(()) && final(vram)@ == old(vram)@.update(spec_nametable_addr(addr, old(self).mirror_type) as int, byte) && *final(self) == *old(self),
            addr > 0x3EFF ==> r == Err::<(), NesError>(
                NesError::PpuMem(PpuMemoryError::PpuInvalidAddress(addr)),
            ) && final(vram)@ == old(vram)@ && *final(self) == *old(self),
            final(self).prg_ram@ == old(self).prg_ram@,
            final(self).prg_rom@ == old(self).prg_rom@,
            final(self).chr_rom@ == old(self).chr_rom@,
            final(self).shift_reg == old(self).shift_reg,
            final(self).control == old(self).control,
            final(self).write_count == old(self).write_count,
            final(self).mirror_type == old(self).mirror_type,
    {
        proof {
            lemma_bit_bounds();
        }
        if addr <= 0x1FFF {
            if self.chr_rom.len() == 0 {
                let idx = self.map_chr_addr(addr);
                if idx < self.chr_ram.len() {
                    self.chr_ram.set(idx, byte);
                    Ok(())
                } else {
                    Err(NesError::PpuMem(PpuMemoryError::PpuInvalidAddress(addr)))
                }
            } else {
                Err(NesError::PpuMem(PpuMemoryError::PpuReadOnly(addr)))
            }
        } else if addr <= 0x3EFF {
            let na = nametable_addr(addr, self.mirror_type);
            vram.set(na as usize, byte);
            Ok(())
        } else {
            Err(NesError::PpuMem(PpuMemoryError::PpuInvalidAddress(addr)))
        }
    }
}

/// Build an MMC1 cartridge in its power-on state: serial port clear,
/// control `0x0C` (PRG mode 3, one-screen-low mirroring), banks zero, and
/// the derived bases recomputed. The PRG image must be between 16 KiB and
/// 512 KiB, the CHR image at most 128 KiB.
pub fn build_mmc1_cart(prg_rom: &[u8], chr_rom: &[u8]) -> (r: Result<Cartridge, NesError>)
    ensures
        r is Ok <==> 16384 <= prg_rom@.len() <= 0x80000 && chr_rom@.len() <= 0x20000,
        r matches Ok(c) ==> ({
            &&& c matches Cartridge::Mmc1(m)
            &&& m.wf()
            &&& m.prg_rom@ == prg_rom@
            &&& m.chr_rom@ == chr_rom@
            &&& m.control.0 == 0x0C
            &&& m.shift_reg == 0
            &&& m.write_count == 0
            &&& m.chr_bank0 == 0
            &&& m.chr_bank1 == 0
            &&& m.prg_bank == 0
            &&& forall|i: int| 0 <= i < 8192 ==> m.prg_ram@[i] == 0u8
            &&& forall|i: int| 0 <= i < 8192 ==> m.chr_ram@[i] == 0u8
        }),
        r is Err ==> r == Err::<Cartridge, NesError>(NesError::UnsupportedRom),
{
    if !(16384 <= prg_rom.len() && prg_rom.len() <= 0x80000) {
        return Err(NesError::UnsupportedRom);
    }
    if chr_rom.len() > 0x20000 {
        return Err(NesError::UnsupportedRom);
    }
    let mut cart = Mmc1 {
        prg_ram: zero_vec(8192),
        prg_rom: vec_of(prg_rom),
        chr_rom: vec_of(chr_rom),
        chr_ram: zero_vec(8192),
        shift_reg: 0,
        control: ControlReg(0x0C),
        chr_bank0: 0,
        chr_bank1: 0,
        prg_bank: 0,
        write_count: 0,
        prg_rom_bank_0_base: 0,
        prg_rom_bank_1_base: 0,
        chr_rom_bank_0_base: 0,
        chr_rom_bank_1_base: 0,
        mirror_type: MirrorType::OneScreenLow,
    };
    cart.update_base_addr();
    Ok(Cartridge::Mmc1(cart))
}

} // verus!
