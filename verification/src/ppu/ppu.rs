//! The picture processing unit: the memory-mapped register file, OAM,
//! palette RAM, the scanline/dot counters with their vblank and NMI
//! events, and the background and sprite pixel pipelines.

use vstd::prelude::*;
use crate::bits::lemma_bit_bounds;
use crate::cart::cart::Cartridge;
use crate::cpu::cpu::Interrupt;
use crate::error::NesError;
use crate::mem::error::MemoryError;
use crate::mem::utils::zero_vec;
use crate::ppu::colors::{load_default_color_map, Color, ColorMap, NUM_COLORS};
use crate::ppu::regs::{PpuAddress, PpuControl, PpuMask, PpuStatus, SpriteAttributes};

verus! {

/// Base of the nametable window in PPU space.
pub const NAMETABLE_OFFSET: u16 = 0x2000;

/// Base of the attribute tables within each nametable.
pub const ATTRIBUTE_TABLE_OFFSET: u16 = 0x23C0;

/// Base of palette RAM in PPU space.
pub const PALETTES_OFFSET: u16 = 0x3F00;

/// The finished 256 x 240 picture, row-major.
pub struct Frame {
    pub pixels: Vec<Color>,
}

impl Frame {
    /// A frame holds exactly 240 rows of 256 pixels.
    pub open spec fn wf(&self) -> bool {
        self.pixels@.len() == 240 * 256
    }

    /// An all-black frame.
    pub fn new_black() -> (r: Frame)
        ensures
            r.wf(),
    {
        let mut pixels: Vec<Color> = Vec::new();
        let mut i: usize = 0;
        while i < 240 * 256
            invariant
                i <= 240 * 256,
                pixels@.len() == i,
            decreases 240 * 256 - i,
        {
            pixels.push(Color { r: 0, g: 0, b: 0 });
            i += 1;
        }
        Frame { pixels }
    }

    /// An independent copy of the picture.
    pub fn duplicate(&self) -> (r: Frame)
        ensures
            r.pixels@ == self.pixels@,
    {
        let mut pixels: Vec<Color> = Vec::new();
        let mut i: usize = 0;
        while i < self.pixels.len()
            invariant
                i <= self.pixels@.len(),
                pixels@ == self.pixels@.subrange(0, i as int),
            decreases self.pixels@.len() - i,
        {
            pixels.push(self.pixels[i]);
            proof {
                assert(pixels@ =~= self.pixels@.subrange(0, i + 1));
            }
            i += 1;
        }
        proof {
            assert(pixels@ =~= self.pixels@);
        }
        Frame { pixels }
    }
}

/// The memory-mapped register file, `$2000..$2007`.
#[derive(Clone, Copy, Debug, PartialEq, Eq, Structural)]
pub struct PpuReg {
    pub control: PpuControl,
    pub mask: PpuMask,
    pub status: PpuStatus,
    pub oam_addr: u8,
    /// The shared write latch `w` for `$2005`/`$2006`: true when the next
    /// write is the second of the pair.
    pub ppu_addr_latch: bool,
    pub ppu_data: u8,
    pub ppu_data_buffer: u8,
    pub t_addr: PpuAddress,
    pub v_addr: PpuAddress,
    pub fine_x: u8,
}

/// The background fetch pipeline's latches and shift registers.
#[derive(Clone, Copy, Debug, PartialEq, Eq, Structural)]
pub struct BackgroundState {
    pub tile_id: u8,
    pub tile_attribute: u8,
    pub tile_lsb: u8,
    pub tile_msb: u8,
    pub shift_pattern_lsb: u16,
    pub shift_pattern_msb: u16,
    pub shift_attribute_lsb: u16,
    pub shift_attribute_msb: u16,
}

impl BackgroundState {
    /// All latches and shift registers clear.
    pub fn power_on() -> (r: BackgroundState)
        ensures
            r == (BackgroundState {
                tile_id: 0,
                tile_attribute: 0,
                tile_lsb: 0,
                tile_msb: 0,
                shift_pattern_lsb: 0,
                shift_pattern_msb: 0,
                shift_attribute_lsb: 0,
                shift_attribute_msb: 0,
            }),
    {
        BackgroundState {
            tile_id: 0,
            tile_attribute: 0,
            tile_lsb: 0,
            tile_msb: 0,
            shift_pattern_lsb: 0,
            shift_pattern_msb: 0,
            shift_attribute_lsb: 0,
            shift_attribute_msb: 0,
        }
    }
}

/// One sprite of OAM, unpacked.
#[derive(Clone, Copy, Debug, PartialEq, Eq, Structural)]
pub struct OamSprite {
    pub y: u8,
    pub id: u8,
    pub attributes: SpriteAttributes,
    pub x: u8,
}

/// A sprite selected for the scanline being prepared, with its countdown
/// and progress through its eight columns.
#[derive(Clone, Copy, Debug, PartialEq, Eq, Structural)]
pub struct PendingSprite {
    pub sprite: OamSprite,
    pub row_offset: u8,
    pub col_offset: u8,
    pub is_sprite_zero: bool,
}

/// The register file with every register clear.
pub open spec fn spec_reg_power_on() -> PpuReg {
    PpuReg {
        control: PpuControl(0),
        mask: PpuMask(0),
        status: PpuStatus(0),
        oam_addr: 0,
        ppu_addr_latch: false,
        ppu_data: 0,
        ppu_data_buffer: 0,
        t_addr: PpuAddress(0),
        v_addr: PpuAddress(0),
        fine_x: 0,
    }
}

impl PpuReg {
    /// Every register clear.
    pub fn power_on() -> (r: PpuReg)
        ensures
            r == spec_reg_power_on(),
    {
        PpuReg {
            control: PpuControl(0),
            mask: PpuMask(0),
            status: PpuStatus(0),
            oam_addr: 0,
            ppu_addr_latch: false,
            ppu_data: 0,
            ppu_data_buffer: 0,
            t_addr: PpuAddress(0),
            v_addr: PpuAddress(0),
            fine_x: 0,
        }
    }
}

/// The foreground state for the current scanline.
pub struct ForegroundState {
    pub scanline_sprites: Vec<PendingSprite>,
    pub sprite_zero_hit: bool,
}

pub struct Ppu {
    pub buffer: Frame,
    pub color_map: ColorMap,
    pub vram: Vec<u8>,
    pub oam: Vec<u8>,
    pub palettes: Vec<u8>,
    pub reg: PpuReg,
    pub odd_frame: bool,
    pub cycle: u64,
    pub scanline: i32,
    pub bg: BackgroundState,
    pub fg: ForegroundState,
}

/// Builds a PPU in its power-on state.
pub struct PpuBuilder {
    pub palette: Option<Vec<u8>>,
}

impl PpuBuilder {
    pub fn new() -> (r: PpuBuilder)
        ensures
            r.palette is None,
    {
        PpuBuilder { palette: None }
    }

    /// Use the given palette image instead of the built-in palette.
    pub fn with_palette(self, palette: Vec<u8>) -> (r: PpuBuilder) {
        PpuBuilder { palette: Some(palette) }
    }

    /// Build the PPU. Fails, with the bad-palette error, exactly when a
    /// palette image of the wrong length was supplied.
    pub fn build(self) -> (r: Result<Ppu, NesError>)
        ensures
            self.palette is None ==> r is Ok,
            self.palette matches Some(b) ==> (r is Ok <==> b@.len() == 192),
            r is Err ==> r == Err::<Ppu, NesError>(NesError::BadPalette),
            r matches Ok(p) ==> p.wf() && p.cycle == 0 && p.scanline == 0 && p.reg
                == spec_reg_power_on(),
    {
        let color_map = match self.palette {
            None => load_default_color_map(),
            Some(bytes) => crate::ppu::colors::load_color_map(bytes.as_slice())?,
        };
        Ok(
            Ppu {
                buffer: Frame::new_black(),
                color_map,
                vram: zero_vec(2048),
                oam: zero_vec(256),
                palettes: zero_vec(256),
                reg: PpuReg::power_on(),
                odd_frame: false,
                cycle: 0,
                scanline: 0,
                bg: BackgroundState::power_on(),
                fg: ForegroundState { scanline_sprites: Vec::new(), sprite_zero_hit: false },
            },
        )
    }
}

/// Where a palette-space address lands in palette RAM: aliased mod 32,
/// with the four sprite backdrop entries collapsed onto the background
/// ones, and the index masked to `0x30` in greyscale mode.
pub open spec fn spec_map_palette_addr(mask: u8, addr: u16) -> int {
    let a0 = if addr == 0x3F10 {
        0x3F00u16
    } else if addr == 0x3F14 {
        0x3F04u16
    } else if addr == 0x3F18 {
        0x3F08u16
    } else if addr == 0x3F1C {
        0x3F0Cu16
    } else {
        addr
    };
    let a = a0 & 0x1F;
    if mask & 1 == 1 {
        (a & 0x30) as int
    } else {
        (a & 0x3F) as int
    }
}

/// What a register-file read does, as one relation between the PPU
/// before (`pre`) and after (`post`): the whole contract of
/// [`Ppu::read`].
pub open spec fn spec_reg_read_rel(
    pre: Ppu,
    post: Ppu,
    cart: &Cartridge,
    addr: u16,
    r: Result<u8, NesError>,
) -> bool {
    &&& (post.vram@ == pre.vram@)
    &&& (post.oam@ == pre.oam@)
    &&& (post.palettes@ == pre.palettes@)
    &&& (post.buffer.pixels@ == pre.buffer.pixels@)
    &&& (post.cycle == pre.cycle)
    &&& (post.scanline == pre.scanline)
    &&& (post.odd_frame == pre.odd_frame)
    &&& ((addr < 0x2000 || addr > 0x3FFF) ==> r == Err::<u8, NesError>(
                NesError::Mem(MemoryError::InvalidAddress(addr)),
            ) && post == pre)
    &&& (0x2000 <= addr <= 0x3FFF ==> match addr & 7 {
                2 => {
                    &&& r == Ok::<u8, NesError>(
                        ((pre.reg.status.0 & 0xE0) | (pre.reg.ppu_data_buffer
                            & 0x1F)) as u8,
                    )
                    &&& post.reg.status.0 == (pre.reg.status.0 & !0x80) as u8
                    &&& post.reg.ppu_addr_latch == false
                    &&& post.reg.control == pre.reg.control
                    &&& post.reg.v_addr == pre.reg.v_addr
                    &&& post.reg.t_addr == pre.reg.t_addr
                    &&& post.reg.ppu_data_buffer == pre.reg.ppu_data_buffer
                },
                4 => {
                    &&& r == Ok::<u8, NesError>(pre.oam@[pre.reg.oam_addr as int])
                    &&& post == pre
                },
                7 => match pre.spec_mem_read(cart, pre.reg.v_addr.0) {
                    Ok(fresh) => {
                        &&& r == Ok::<u8, NesError>(
                            if pre.reg.v_addr.0 >= 0x3F00 {
                                fresh
                            } else {
                                pre.reg.ppu_data_buffer
                            },
                        )
                        &&& post.reg.ppu_data_buffer == fresh
                        &&& post.reg.v_addr.0 == ((pre.reg.v_addr.0 + pre.spec_vram_inc()) as u16) & 0x7FFF
                        &&& post.reg.control == pre.reg.control
                        &&& post.reg.status == pre.reg.status
                        &&& post.reg.t_addr == pre.reg.t_addr
                        &&& post.reg.ppu_addr_latch == pre.reg.ppu_addr_latch
                    },
                    Err(e) => r == Err::<u8, NesError>(e) && post == pre,
                },
                _ => r == Err::<u8, NesError>(NesError::Mem(MemoryError::WriteOnly(addr)))
                    && post == pre,
            })
}

/// What a register-file write does, as one relation between the PPU
/// and cartridge before and after: the whole contract of
/// [`Ppu::write`].
pub open spec fn spec_reg_write_rel(
    pre: Ppu,
    post: Ppu,
    cart_pre: Cartridge,
    cart_post: Cartridge,
    addr: u16,
    byte: u8,
    r: Result<(), NesError>,
) -> bool {
    &&& (post.buffer.pixels@ == pre.buffer.pixels@)
    &&& (post.cycle == pre.cycle)
    &&& (post.scanline == pre.scanline)
    &&& (post.odd_frame == pre.odd_frame)
    &&& ((addr < 0x2000 || addr > 0x3FFF) ==> r == Err::<(), NesError>(
                NesError::Mem(MemoryError::InvalidAddress(addr)),
            ) && post == pre && cart_post == cart_pre)
    &&& (0x2000 <= addr <= 0x3FFF && addr & 7 != 7 ==> cart_post == cart_pre && post.vram@ == pre.vram@ && post.palettes@ == pre.palettes@)
    &&& (0x2000 <= addr <= 0x3FFF ==> match addr & 7 {
                0 => {
                    &&& r == Ok::<(), NesError>(())
                    &&& post.reg.control.0 == byte
                    &&& post.reg.t_addr.0 == ((pre.reg.t_addr.0 & !0xC00) | (((
                    byte & 3) as u16) << 10)) as u16
                    &&& post.reg.v_addr == pre.reg.v_addr
                    &&& post.reg.mask == pre.reg.mask
                    &&& post.reg.status == pre.reg.status
                    &&& post.reg.ppu_addr_latch == pre.reg.ppu_addr_latch
                    &&& post.oam@ == pre.oam@
                },
                1 => r == Ok::<(), NesError>(()) && post.reg == (PpuReg {
                    mask: PpuMask(byte),
                    ..pre.reg
                }) && post.oam@ == pre.oam@,
                2 => r == Err::<(), NesError>(NesError::Mem(MemoryError::ReadOnly(addr)))
                    && post == pre,
                3 => r == Ok::<(), NesError>(()) && post.reg == (PpuReg {
                    oam_addr: byte,
                    ..pre.reg
                }) && post.oam@ == pre.oam@,
                4 => {
                    &&& r == Ok::<(), NesError>(())
                    &&& post.oam@ == (if pre.reg.oam_addr % 4 == 2 {
                        pre.oam@.update(pre.reg.oam_addr as int, (byte & 0xE3) as u8)
                    } else {
                        pre.oam@.update(pre.reg.oam_addr as int, byte)
                    })
                    &&& post.reg.oam_addr == (if pre.reg.oam_addr == 255 {
                        0u8
                    } else {
                        (pre.reg.oam_addr + 1) as u8
                    })
                    &&& post.reg.control == pre.reg.control
                    &&& post.reg.mask == pre.reg.mask
                    &&& post.reg.status == pre.reg.status
                    &&& post.reg.ppu_addr_latch == pre.reg.ppu_addr_latch
                    &&& post.reg.t_addr == pre.reg.t_addr
                    &&& post.reg.v_addr == pre.reg.v_addr
                    &&& post.reg.fine_x == pre.reg.fine_x
                },
                5 => {
                    &&& r == Ok::<(), NesError>(())
                    &&& post.reg.ppu_addr_latch == !pre.reg.ppu_addr_latch
                    &&& pre.reg.ppu_addr_latch ==> post.reg.t_addr.0 == ((((pre.reg.t_addr.0 & !0x3E0) | ((((byte >> 3) as u16) & 0x1F) << 5)) & !0x7000) | ((((
                    byte & 7) as u16) & 7) << 12)) as u16 && post.reg.fine_x == pre.reg.fine_x
                    &&& !pre.reg.ppu_addr_latch ==> post.reg.t_addr.0 == ((pre.reg.t_addr.0 & !0x1F) | (((byte >> 3) as u16) & 0x1F)) as u16 && post.reg.fine_x == (byte & 7) as u8
                    &&& post.reg.v_addr == pre.reg.v_addr
                    &&& post.reg.control == pre.reg.control
                    &&& post.reg.status == pre.reg.status
                    &&& post.oam@ == pre.oam@
                },
                6 => {
                    &&& r == Ok::<(), NesError>(())
                    &&& post.reg.ppu_addr_latch == !pre.reg.ppu_addr_latch
                    &&& !pre.reg.ppu_addr_latch ==> post.reg.t_addr.0 == ((pre.reg.t_addr.0 & 0x00FF) | (((byte & 0x3F) as u16) << 8)) as u16 && post.reg.v_addr == pre.reg.v_addr
                    &&& pre.reg.ppu_addr_latch ==> post.reg.t_addr.0 == ((pre.reg.t_addr.0 & 0xFF00) | (byte as u16)) as u16 && post.reg.v_addr.0
                        == post.reg.t_addr.0
                    &&& post.reg.control == pre.reg.control
                    &&& post.reg.status == pre.reg.status
                    &&& post.oam@ == pre.oam@
                },
                7 => {
                    &&& post.reg.v_addr.0 == crate::ppu::ppu::wrap_add16(
                        pre.reg.v_addr.0,
                        pre.spec_vram_inc(),
                    ) & 0x7FFF
                    &&& post.reg.control == pre.reg.control
                    &&& post.reg.status == pre.reg.status
                    &&& post.reg.t_addr == pre.reg.t_addr
                    &&& post.reg.ppu_addr_latch == pre.reg.ppu_addr_latch
                    &&& post.oam@ == pre.oam@
                    &&& 0x3F00 <= pre.reg.v_addr.0 <= 0x3FFF ==> r == Ok::<(), NesError>(
                        (),
                    ) && post.palettes@ == pre.palettes@.update(
                        spec_map_palette_addr(pre.reg.mask.0, pre.reg.v_addr.0),
                        byte,
                    ) && cart_post == cart_pre && post.vram@ == pre.vram@
                    &&& 0x2000 <= pre.reg.v_addr.0 <= 0x3EFF && !((cart_pre) is Mock)
                        ==> r == Ok::<(), NesError>(()) && post.vram@ == pre.vram@.update(
                        crate::cart::cart::spec_nametable_addr(
                            pre.reg.v_addr.0,
                            (cart_pre).spec_mirroring(),
                        ) as int,
                        byte,
                    ) && cart_post == cart_pre && post.palettes@ == pre.palettes@
                },
                _ => false,
            })
}

impl Ppu {
    /// The memories hold their hardware sizes, the counters stay inside
    /// one frame, and at most eight sprites are pending.
    pub open spec fn wf(&self) -> bool {
        &&& self.buffer.wf()
        &&& self.color_map@.len() == NUM_COLORS
        &&& self.vram@.len() == 2048
        &&& self.oam@.len() == 256
        &&& self.palettes@.len() == 256
        &&& self.cycle <= 340
        &&& -1 <= self.scanline <= 260
        &&& self.fg.scanline_sprites@.len() <= 8
    }

    /// Either rendering layer is enabled.
    pub open spec fn spec_rendering_enabled(&self) -> bool {
        (self.reg.mask.0 >> 3) & 1 == 1 || (self.reg.mask.0 >> 4) & 1 == 1
    }

    pub fn rendering_enabled(&self) -> (r: bool)
        ensures
            r == self.spec_rendering_enabled(),
    {
        self.reg.mask.get_show_bg() || self.reg.mask.get_show_sprites()
    }

    /// What a read of PPU space returns: the cartridge below `0x3F00`
    /// (CHR and mirrored nametables), palette RAM up to `0x3FFF`, an
    /// error above.
    pub open spec fn spec_mem_read(&self, cart: &Cartridge, addr: u16) -> Result<u8, NesError> {
        if addr <= 0x3EFF {
            cart.spec_ppu_read(addr, self.vram@)
        } else if addr <= 0x3FFF {
            Ok(self.palettes@[spec_map_palette_addr(self.reg.mask.0, addr)])
        } else {
            Err(NesError::Mem(MemoryError::InvalidAddress(addr)))
        }
    }

    /// Fold a palette-space address onto palette RAM, as
    /// [`spec_map_palette_addr`] says.
    pub fn map_palette_addr(&self, addr: u16) -> (r: usize)
        ensures
            r == spec_map_palette_addr(self.reg.mask.0, addr),
            r < 32,
    {
        proof {
            lemma_bit_bounds();
        }
        let a0: u16 = if addr == 0x3F10 {
            0x3F00
        } else if addr == 0x3F14 {
            0x3F04
        } else if addr == 0x3F18 {
            0x3F08
        } else if addr == 0x3F1C {
            0x3F0C
        } else {
            addr
        };
        let a = a0 & 0x1F;
        (if self.reg.mask.get_greyscale() {
            a & 0x30
        } else {
            a & 0x3F
        }) as usize
    }

    /// Read PPU space, as [`Ppu::spec_mem_read`] says.
    pub fn ppu_read(&self, addr: u16, cart: &Cartridge) -> (r: Result<u8, NesError>)
        requires
            self.wf(),
            cart.wf(),
        ensures
            r == self.spec_mem_read(cart, addr),
    {
        if addr <= 0x3EFF {
            cart.ppu_read(addr, &self.vram)
        } else if addr <= 0x3FFF {
            Ok(self.palettes[self.map_palette_addr(addr)])
        } else {
            Err(NesError::Mem(MemoryError::InvalidAddress(addr)))
        }
    }

    /// Write PPU space: the cartridge below `0x3F00`, palette RAM up to
    /// `0x3FFF` (through the palette aliasing), an error above. Only the
    /// targeted memory changes.
    pub fn ppu_write(&mut self, addr: u16, byte: u8, cart: &mut Cartridge) -> (r: Result<
        (),
        NesError,
    >)
        requires
            old(self).wf(),
            old(cart).wf(),
        ensures
            final(self).wf(),
            final(cart).wf(),
            final(self).reg == old(self).reg,
            final(self).buffer.pixels@ == old(self).buffer.pixels@,
            final(self).oam@ == old(self).oam@,
            final(self).color_map@ == old(self).color_map@,
            final(self).cycle == old(self).cycle,
            final(self).scanline == old(self).scanline,
            final(self).odd_frame == old(self).odd_frame,
            addr > 0x3EFF ==> final(self).vram@ == old(self).vram@ && *final(cart) == *old(cart),
            0x2000 <= addr <= 0x3EFF && !((*old(cart)) is Mock) ==> r == Ok::<(), NesError>(())
                && final(self).vram@ == old(self).vram@.update(
                crate::cart::cart::spec_nametable_addr(
                    addr,
                    (*old(cart)).spec_mirroring(),
                ) as int,
                byte,
            ) && *final(cart) == *old(cart),
            0x3F00 <= addr <= 0x3FFF ==> r == Ok::<(), NesError>(()) && final(self).palettes@
                == old(self).palettes@.update(
                spec_map_palette_addr(old(self).reg.mask.0, addr),
                byte,
            ),
            addr < 0x3F00 ==> final(self).palettes@ == old(self).palettes@,
            addr > 0x3FFF ==> r == Err::<(), NesError>(
                NesError::Mem(MemoryError::InvalidAddress(addr)),
            ),
    {
        if addr <= 0x3EFF {
            cart.ppu_write(addr, byte, &mut self.vram)
        } else if addr <= 0x3FFF {
            let idx = self.map_palette_addr(addr);
            self.palettes.set(idx, byte);
            Ok(())
        } else {
            Err(NesError::Mem(MemoryError::InvalidAddress(addr)))
        }
    }

    /// Write one byte into OAM. Byte 2 of each sprite keeps only the bits
    /// the hardware stores: its middle three bits always read back zero.
    pub fn oam_write(&mut self, offset: u8, data: u8)
        requires
            old(self).wf(),
        ensures
            final(self).wf(),
            offset % 4 == 2 ==> final(self).oam@ == old(self).oam@.update(
                offset as int,
                (data & 0xE3) as u8,
            ),
            offset % 4 != 2 ==> final(self).oam@ == old(self).oam@.update(offset as int, data),
            final(self).reg == old(self).reg,
            final(self).vram@ == old(self).vram@,
            final(self).palettes@ == old(self).palettes@,
            final(self).buffer.pixels@ == old(self).buffer.pixels@,
            final(self).cycle == old(self).cycle,
            final(self).scanline == old(self).scanline,
            final(self).odd_frame == old(self).odd_frame,
    {
        if offset % 4 == 2 {
            self.oam.set(offset as usize, data & 0xE3);
        } else {
            self.oam.set(offset as usize, data);
        }
    }

    /// The sprite at `index` in OAM, unpacked.
    pub open spec fn spec_oam_sprite(oam: Seq<u8>, index: int) -> OamSprite {
        OamSprite {
            y: oam[4 * index],
            id: oam[4 * index + 1],
            attributes: SpriteAttributes(oam[4 * index + 2]),
            x: oam[4 * index + 3],
        }
    }

    /// Read one sprite (four bytes) from OAM.
    pub fn oam_read(&self, index: u8) -> (r: OamSprite)
        requires
            self.wf(),
            index < 64,
        ensures
            r == Self::spec_oam_sprite(self.oam@, index as int),
    {
        let off = (index as usize) * 4;
        OamSprite {
            y: self.oam[off],
            id: self.oam[off + 1],
            attributes: SpriteAttributes(self.oam[off + 2]),
            x: self.oam[off + 3],
        }
    }

    /// How far `$2007` accesses step the address: 32 in row mode, else 1.
    pub open spec fn spec_vram_inc(&self) -> u16 {
        if (self.reg.control.0 >> 2) & 1 == 1 {
            32u16
        } else {
            1u16
        }
    }

    /// Read a memory-mapped register, `$2000..=$3FFF` mirrored every 8.
    ///
    /// `$2002` returns the three event flags over the stale buffer bits,
    /// clears vblank and resets the write latch. `$2004` returns the OAM
    /// byte under `OAMADDR`. `$2007` returns the read buffer (or, for
    /// palette addresses, the fresh byte), refills the buffer, and steps
    /// `v`. Everything else is write-only.
    pub fn read(&mut self, addr: u16, cart: &Cartridge) -> (r: Result<u8, NesError>)
        requires
            old(self).wf(),
            cart.wf(),
        ensures
            final(self).wf(),
            spec_reg_read_rel(*old(self), *final(self), cart, addr, r),
    {
        proof {
            lemma_bit_bounds();
        }
        if addr < 0x2000 || addr > 0x3FFF {
            return Err(NesError::Mem(MemoryError::InvalidAddress(addr)));
        }
        let sel = addr & 7;
        if sel == 2 {
            let ret = (self.reg.status.0 & 0xE0) | (self.reg.ppu_data_buffer & 0x1F);
            self.reg.status.set_vblank_start(false);
            self.reg.ppu_addr_latch = false;
            Ok(ret)
        } else if sel == 4 {
            Ok(self.oam[self.reg.oam_addr as usize])
        } else if sel == 7 {
            let fresh = match self.ppu_read(self.reg.v_addr.0, cart) {
                Ok(b) => b,
                Err(e) => {
                    return Err(e);
                },
            };
            let data = if self.reg.v_addr.0 >= 0x3F00 {
                fresh
            } else {
                self.reg.ppu_data_buffer
            };
            self.reg.ppu_data_buffer = fresh;
            if self.reg.control.get_vram_inc() {
                self.reg.v_addr.0 = self.reg.v_addr.0.wrapping_add(32) & 0x7FFF;
            } else {
                self.reg.v_addr.0 = self.reg.v_addr.0.wrapping_add(1) & 0x7FFF;
            }
            proof {
                assert(old(self).reg.v_addr.0 <= 0x3FFF);
            }
            Ok(data)
        } else {
            Err(NesError::Mem(MemoryError::WriteOnly(addr)))
        }
    }

    /// Write a memory-mapped register, `$2000..=$3FFF` mirrored every 8.
    ///
    /// `$2000` latches the control byte and copies its nametable select
    /// into `t`. `$2005` and `$2006` share the write latch `w`: the first
    /// and second writes of each pair fill different halves of `t`, and
    /// the second `$2006` write copies `t` into `v`. `$2004` stores at
    /// `OAMADDR` and steps it. `$2007` stores at `v` and steps `v`.
    pub fn write(&mut self, addr: u16, byte: u8, cart: &mut Cartridge) -> (r: Result<
        (),
        NesError,
    >)
        requires
            old(self).wf(),
            old(cart).wf(),
        ensures
            final(self).wf(),
            final(cart).wf(),
            spec_reg_write_rel(
                *old(self),
                *final(self),
                *old(cart),
                *final(cart),
                addr,
                byte,
                r,
            ),
    {
        proof {
            lemma_bit_bounds();
        }
        if addr < 0x2000 || addr > 0x3FFF {
            return Err(NesError::Mem(MemoryError::InvalidAddress(addr)));
        }
        let sel = addr & 7;
        if sel == 0 {
            self.reg.control = PpuControl(byte);
            let nt = self.reg.control.get_nametable_addr();
            self.reg.t_addr.set_nametable(nt as u16);
            proof {
                assert((((byte & 3) as u16) & 3) == ((byte & 3) as u16)) by (bit_vector);
            }
            Ok(())
        } else if sel == 1 {
            self.reg.mask = PpuMask(byte);
            Ok(())
        } else if sel == 2 {
            Err(NesError::Mem(MemoryError::ReadOnly(addr)))
        } else if sel == 3 {
            self.reg.oam_addr = byte;
            Ok(())
        } else if sel == 4 {
            let off = self.reg.oam_addr;
            self.oam_write(off, byte);
            self.reg.oam_addr = self.reg.oam_addr.wrapping_add(1);
            Ok(())
        } else if sel == 5 {
            if self.reg.ppu_addr_latch {
                self.reg.t_addr.set_coarse_y((byte >> 3) as u16);
                self.reg.t_addr.set_fine_y((byte & 0x7) as u16);
            } else {
                self.reg.t_addr.set_coarse_x((byte >> 3) as u16);
                self.reg.fine_x = byte & 0x7;
            }
            self.reg.ppu_addr_latch = !self.reg.ppu_addr_latch;
            Ok(())
        } else if sel == 6 {
            if self.reg.ppu_addr_latch {
                self.reg.t_addr.0 = (self.reg.t_addr.0 & 0xFF00) | (byte as u16);
                self.reg.v_addr.0 = self.reg.t_addr.0;
            } else {
                self.reg.t_addr.0 = (self.reg.t_addr.0 & 0x00FF) | (((byte & 0x3F) as u16) << 8);
            }
            self.reg.ppu_addr_latch = !self.reg.ppu_addr_latch;
            Ok(())
        } else {
            let v = self.reg.v_addr.0;
            let ret = self.ppu_write(v, byte, cart);
            if self.reg.control.get_vram_inc() {
                self.reg.v_addr.0 = self.reg.v_addr.0.wrapping_add(32) & 0x7FFF;
            } else {
                self.reg.v_addr.0 = self.reg.v_addr.0.wrapping_add(1) & 0x7FFF;
            }
            ret
        }
    }

    /// Return the register file and the pipeline latches to their
    /// power-on values; memories are kept.
    pub fn reset(&mut self) -> (r: Result<(), NesError>)
        requires
            old(self).wf(),
        ensures
            final(self).wf(),
            r == Ok::<(), NesError>(()),
            final(self).reg.control.0 == 0 && final(self).reg.mask.0 == 0 && final(self).reg.fine_x == 0 && final(self).reg.t_addr.0 == 0 && final(self).reg.v_addr.0 == 0
                && final(self).reg.ppu_addr_latch == false && final(self).reg.ppu_data_buffer
                == 0,
            final(self).cycle == 0 && final(self).scanline == 0 && final(self).odd_frame
                == false,
            final(self).vram@ == old(self).vram@,
            final(self).oam@ == old(self).oam@,
            final(self).palettes@ == old(self).palettes@,
    {
        self.reg.control = PpuControl(0);
        self.reg.mask = PpuMask(0);
        self.reg.fine_x = 0;
        self.reg.t_addr.0 = 0;
        self.reg.v_addr.0 = 0;
        self.reg.ppu_data = 0;
        self.odd_frame = false;
        self.cycle = 0;
        self.scanline = 0;
        self.reg.ppu_addr_latch = false;
        self.reg.ppu_data_buffer = 0;
        self.bg.tile_id = 0;
        self.bg.tile_lsb = 0;
        self.bg.tile_msb = 0;
        self.bg.shift_attribute_lsb = 0;
        self.bg.shift_attribute_msb = 0;
        self.bg.shift_pattern_lsb = 0;
        self.bg.shift_pattern_msb = 0;
        Ok(())
    }
}

/// 16-bit wrapping sum.
pub open spec fn wrap_add16(a: u16, b: u16) -> u16 {
    if a + b > 0xFFFF {
        (a + b - 0x10000) as u16
    } else {
        (a + b) as u16
    }
}

/// The shift registers after a reload: each low byte takes the latched
/// tile byte, and the attribute fills spread one attribute bit across a
/// byte.
pub open spec fn spec_bg_reload(bg: BackgroundState) -> BackgroundState {
    BackgroundState {
        shift_pattern_lsb: ((bg.shift_pattern_lsb & 0xFF00) | (bg.tile_lsb as u16)) as u16,
        shift_pattern_msb: ((bg.shift_pattern_msb & 0xFF00) | (bg.tile_msb as u16)) as u16,
        shift_attribute_lsb: ((bg.shift_attribute_lsb & 0xFF00) | (if bg.tile_attribute & 1
            != 0 {
            0xFFu16
        } else {
            0u16
        })) as u16,
        shift_attribute_msb: ((bg.shift_attribute_msb & 0xFF00) | (if bg.tile_attribute & 2
            != 0 {
            0xFFu16
        } else {
            0u16
        })) as u16,
        ..bg
    }
}

/// `v` after one coarse-X step: the low five bits count up mod 32, and a
/// wrap toggles the horizontal nametable bit.
pub open spec fn spec_inc_coarse_x(v: u16) -> u16 {
    let nx = ((((v & 0x1F) + 1) as u16) % 32) as u16;
    let v1 = ((v & !0x1F) | (nx & 0x1F)) as u16;
    if v1 & 0x1F == 0 {
        if (v1 >> 10) & 1 == 1 {
            (v1 & !0x400) as u16
        } else {
            (v1 | 0x400) as u16
        }
    } else {
        v1
    }
}

/// The folded palette index always lands in the 32 palette cells.
pub proof fn lemma_palette_addr_bound(mask: u8, addr: u16)
    ensures
        0 <= spec_map_palette_addr(mask, addr) < 32,
{
    lemma_bit_bounds();
}

/// Boards whose whole CHR window is populated by construction, so every
/// pattern-table fetch succeeds; the banked boards can select banks past
/// their images, and the empty slot decodes nothing.
pub open spec fn spec_chr_fetch_total(cart: &Cartridge) -> bool {
    (*cart) is Nrom || (*cart) is Nrom128 || (*cart) is Nrom256
}

impl Ppu {
    /// Every palette cell the renderer can select names a color of the
    /// 64-entry map.
    pub open spec fn spec_palettes_ok(&self) -> bool {
        forall|i: int| 0 <= i < 32 ==> self.palettes@[i] < 64
    }
}

impl Ppu {
    /// Step coarse X in `v`, wrapping into the next horizontal nametable;
    /// a dead step when rendering is off. Only `v` changes.
    fn inc_x(&mut self)
        ensures
            final(self).reg == (PpuReg { v_addr: final(self).reg.v_addr, ..old(self).reg }),
            !old(self).spec_rendering_enabled() ==> final(self).reg == old(self).reg,
            old(self).spec_rendering_enabled() ==> final(self).reg.v_addr.0
                == spec_inc_coarse_x(old(self).reg.v_addr.0),
            final(self).buffer.pixels@ == old(self).buffer.pixels@,
            final(self).vram@ == old(self).vram@,
            final(self).oam@ == old(self).oam@,
            final(self).palettes@ == old(self).palettes@,
            final(self).bg == old(self).bg,
            final(self).fg.scanline_sprites@ == old(self).fg.scanline_sprites@,
            final(self).fg.sprite_zero_hit == old(self).fg.sprite_zero_hit,
            final(self).cycle == old(self).cycle,
            final(self).scanline == old(self).scanline,
            final(self).odd_frame == old(self).odd_frame,
            final(self).color_map@ == old(self).color_map@,
    {
        if self.rendering_enabled() {
            let cx = self.reg.v_addr.get_coarse_x();
            proof {
                lemma_bit_bounds();
            }
            self.reg.v_addr.set_coarse_x((cx + 1) % 32);
            if self.reg.v_addr.get_coarse_x() == 0 {
                let nx = self.reg.v_addr.get_nametable_x();
                self.reg.v_addr.set_nametable_x(!nx);
            }
        }
    }

    /// Step fine Y in `v`, carrying into coarse Y and the vertical
    /// nametable; a dead step when rendering is off. Only `v` changes.
    fn inc_y(&mut self)
        ensures
            final(self).reg == (PpuReg { v_addr: final(self).reg.v_addr, ..old(self).reg }),
            !old(self).spec_rendering_enabled() ==> final(self).reg == old(self).reg,
            final(self).buffer.pixels@ == old(self).buffer.pixels@,
            final(self).vram@ == old(self).vram@,
            final(self).oam@ == old(self).oam@,
            final(self).palettes@ == old(self).palettes@,
            final(self).bg == old(self).bg,
            final(self).fg.scanline_sprites@ == old(self).fg.scanline_sprites@,
            final(self).fg.sprite_zero_hit == old(self).fg.sprite_zero_hit,
            final(self).cycle == old(self).cycle,
            final(self).scanline == old(self).scanline,
            final(self).odd_frame == old(self).odd_frame,
            final(self).color_map@ == old(self).color_map@,
    {
        if self.rendering_enabled() {
            let fy = self.reg.v_addr.get_fine_y();
            let cy = self.reg.v_addr.get_coarse_y();
            proof {
                lemma_bit_bounds();
            }
            self.reg.v_addr.set_fine_y((fy + 1) % 8);
            if self.reg.v_addr.get_fine_y() == 0 {
                self.reg.v_addr.set_coarse_y((cy + 1) % 30);
                if self.reg.v_addr.get_coarse_y() == 0 {
                    let ny = self.reg.v_addr.get_nametable_y();
                    self.reg.v_addr.set_nametable_y(!ny);
                }
            }
            let cy2 = self.reg.v_addr.get_coarse_y();
            if cy2 > 29 {
                self.reg.v_addr.set_coarse_y(29);
            }
        }
    }

    /// Copy the horizontal bits of `t` (coarse X, nametable X) into `v`;
    /// a dead step when rendering is off. Only `v` changes.
    fn copy_x(&mut self)
        ensures
            final(self).reg == (PpuReg { v_addr: final(self).reg.v_addr, ..old(self).reg }),
            !old(self).spec_rendering_enabled() ==> final(self).reg == old(self).reg,
            old(self).spec_rendering_enabled() ==> final(self).reg.v_addr.0 == ((((old(self).reg.v_addr.0 & !0x400) | (old(self).reg.t_addr.0 & 0x400)) & !0x1F) | (old(self).reg.t_addr.0 & 0x1F)) as u16,
            final(self).buffer.pixels@ == old(self).buffer.pixels@,
            final(self).vram@ == old(self).vram@,
            final(self).oam@ == old(self).oam@,
            final(self).palettes@ == old(self).palettes@,
            final(self).bg == old(self).bg,
            final(self).fg.scanline_sprites@ == old(self).fg.scanline_sprites@,
            final(self).fg.sprite_zero_hit == old(self).fg.sprite_zero_hit,
            final(self).cycle == old(self).cycle,
            final(self).scanline == old(self).scanline,
            final(self).odd_frame == old(self).odd_frame,
            final(self).color_map@ == old(self).color_map@,
    {
        if self.rendering_enabled() {
            let tv = self.reg.t_addr.0;
            self.reg.v_addr.0 = (self.reg.v_addr.0 & !0x400) | (tv & 0x400);
            self.reg.v_addr.0 = (self.reg.v_addr.0 & !0x1F) | (tv & 0x1F);
        }
    }

    /// Copy the vertical bits of `t` (fine Y, coarse Y, nametable Y) into
    /// `v`; a dead step when rendering is off. Only `v` changes.
    fn copy_y(&mut self)
        ensures
            final(self).reg == (PpuReg { v_addr: final(self).reg.v_addr, ..old(self).reg }),
            !old(self).spec_rendering_enabled() ==> final(self).reg == old(self).reg,
            old(self).spec_rendering_enabled() ==> final(self).reg.v_addr.0 == ((((((old(self).reg.v_addr.0 & !0x7000) | (old(self).reg.t_addr.0 & 0x7000)) & !0x800) | (old(self).reg.t_addr.0 & 0x800)) & !0x3E0) | (old(self).reg.t_addr.0 & 0x3E0)) as u16,
            final(self).buffer.pixels@ == old(self).buffer.pixels@,
            final(self).vram@ == old(self).vram@,
            final(self).oam@ == old(self).oam@,
            final(self).palettes@ == old(self).palettes@,
            final(self).bg == old(self).bg,
            final(self).fg.scanline_sprites@ == old(self).fg.scanline_sprites@,
            final(self).fg.sprite_zero_hit == old(self).fg.sprite_zero_hit,
            final(self).cycle == old(self).cycle,
            final(self).scanline == old(self).scanline,
            final(self).odd_frame == old(self).odd_frame,
            final(self).color_map@ == old(self).color_map@,
    {
        if self.rendering_enabled() {
            let tv = self.reg.t_addr.0;
            self.reg.v_addr.0 = (self.reg.v_addr.0 & !0x7000) | (tv & 0x7000);
            self.reg.v_addr.0 = (self.reg.v_addr.0 & !0x800) | (tv & 0x800);
            self.reg.v_addr.0 = (self.reg.v_addr.0 & !0x3E0) | (tv & 0x3E0);
        }
    }

    /// Reload the low bytes of the four shift registers from the latched
    /// tile bytes; the attribute fills spread one bit across a byte.
    fn load_bg_shift(&mut self)
        ensures
            *final(self) == (Ppu { bg: final(self).bg, ..*old(self) }),
            final(self).bg == spec_bg_reload(old(self).bg),
    {
        crate::mem::utils::set_low_byte(&mut self.bg.shift_pattern_lsb, self.bg.tile_lsb);
        crate::mem::utils::set_low_byte(&mut self.bg.shift_pattern_msb, self.bg.tile_msb);
        let attr_lo: u8 = if self.bg.tile_attribute & 1 != 0 {
            0xFF
        } else {
            0
        };
        let attr_hi: u8 = if self.bg.tile_attribute & 2 != 0 {
            0xFF
        } else {
            0
        };
        crate::mem::utils::set_low_byte(&mut self.bg.shift_attribute_lsb, attr_lo);
        crate::mem::utils::set_low_byte(&mut self.bg.shift_attribute_msb, attr_hi);
    }

    /// Advance all four shift registers one bit when the background layer
    /// is enabled.
    fn update_bg_shift(&mut self)
        ensures
            *final(self) == (Ppu { bg: final(self).bg, ..*old(self) }),
            (old(self).reg.mask.0 >> 3) & 1 == 1 ==> final(self).bg == (BackgroundState {
                shift_pattern_lsb: (old(self).bg.shift_pattern_lsb << 1) as u16,
                shift_pattern_msb: (old(self).bg.shift_pattern_msb << 1) as u16,
                shift_attribute_lsb: (old(self).bg.shift_attribute_lsb << 1) as u16,
                shift_attribute_msb: (old(self).bg.shift_attribute_msb << 1) as u16,
                ..old(self).bg
            }),
            (old(self).reg.mask.0 >> 3) & 1 != 1 ==> final(self).bg == old(self).bg,
    {
        if self.reg.mask.get_show_bg() {
            self.bg.shift_pattern_lsb = self.bg.shift_pattern_lsb << 1;
            self.bg.shift_pattern_msb = self.bg.shift_pattern_msb << 1;
            self.bg.shift_attribute_lsb = self.bg.shift_attribute_lsb << 1;
            self.bg.shift_attribute_msb = self.bg.shift_attribute_msb << 1;
        }
    }

    /// One step of the eight-dot background fetch cadence: reload the
    /// shift registers and read the nametable byte, the attribute byte,
    /// then the two pattern planes, and finally step coarse X. Which
    /// phase runs is `(cycle - 1) % 8`; the tile and attribute latches
    /// take exactly the bytes [`Ppu::spec_mem_read`] names.
    fn load_bg(&mut self, cart: &Cartridge) -> (r: Result<(), NesError>)
        requires
            old(self).wf(),
            cart.wf(),
            old(self).cycle >= 1,
        ensures
            final(self).wf(),
            final(self).buffer.pixels@ == old(self).buffer.pixels@,
            final(self).vram@ == old(self).vram@,
            final(self).oam@ == old(self).oam@,
            final(self).palettes@ == old(self).palettes@,
            final(self).cycle == old(self).cycle,
            final(self).scanline == old(self).scanline,
            final(self).odd_frame == old(self).odd_frame,
            final(self).fg.scanline_sprites@ == old(self).fg.scanline_sprites@,
            final(self).fg.sprite_zero_hit == old(self).fg.sprite_zero_hit,
            final(self).reg.control == old(self).reg.control,
            final(self).reg.mask == old(self).reg.mask,
            final(self).reg.status == old(self).reg.status,
            final(self).reg.t_addr == old(self).reg.t_addr,
            final(self).reg.oam_addr == old(self).reg.oam_addr,
            final(self).reg.ppu_addr_latch == old(self).reg.ppu_addr_latch,
            final(self).reg.ppu_data_buffer == old(self).reg.ppu_data_buffer,
            final(self).reg.fine_x == old(self).reg.fine_x,
            (old(self).cycle - 1) % 8 == 2 && r is Ok ==> final(self).bg.tile_attribute <= 3,
            ({
                let phase = (old(self).cycle - 1) % 8;
                &&& phase == 1 || phase == 3 || phase == 5 ==> r == Ok::<(), NesError>(())
                    && *final(self) == *old(self)
                &&& phase == 0 ==> ({
                    let addr = ((old(self).reg.v_addr.0 & 0xFFF) | 0x2000) as u16;
                    match old(self).spec_mem_read(cart, addr) {
                        Ok(b) => r == Ok::<(), NesError>(()) && final(self).bg
                            == (BackgroundState {
                            tile_id: b,
                            ..spec_bg_reload(old(self).bg)
                        }) && final(self).reg == old(self).reg,
                        Err(e) => r == Err::<(), NesError>(e),
                    }
                })
                &&& phase == 2 ==> ({
                    let v = old(self).reg.v_addr.0;
                    let cx = (v & 0x1F) as u16;
                    let cy = ((v >> 5) & 0x1F) as u16;
                    let addr = ((0x23C0 | (v & 0xC00)) | (cx >> 2) | ((cy >> 2) << 3)) as u16;
                    match old(self).spec_mem_read(cart, addr) {
                        Ok(b) => ({
                            let b1 = if cy & 2 != 0 {
                                (b >> 4) as u8
                            } else {
                                b
                            };
                            let b2 = if cx & 2 != 0 {
                                (b1 >> 2) as u8
                            } else {
                                b1
                            };
                            r == Ok::<(), NesError>(()) && final(self).bg == (BackgroundState {
                                tile_attribute: (b2 & 3) as u8,
                                ..old(self).bg
                            }) && final(self).reg == old(self).reg
                        }),
                        Err(e) => r == Err::<(), NesError>(e),
                    }
                })
                &&& phase == 4 ==> ({
                    let base: u16 = if (old(self).reg.control.0 >> 4) & 1 == 1 {
                        0x1000
                    } else {
                        0
                    };
                    let addr = (base + ((old(self).bg.tile_id as u16) << 4) + ((old(self).reg.v_addr.0 >> 12) & 7)) as u16;
                    match old(self).spec_mem_read(cart, addr) {
                        Ok(b) => r == Ok::<(), NesError>(()) && final(self).bg
                            == (BackgroundState { tile_lsb: b, ..old(self).bg }) && final(self).reg == old(self).reg,
                        Err(e) => r == Err::<(), NesError>(e),
                    }
                })
                &&& phase == 6 ==> ({
                    let base: u16 = if (old(self).reg.control.0 >> 4) & 1 == 1 {
                        0x1000
                    } else {
                        0
                    };
                    let addr = (base + ((old(self).bg.tile_id as u16) << 4) + ((old(self).reg.v_addr.0 >> 12) & 7) + 8) as u16;
                    match old(self).spec_mem_read(cart, addr) {
                        Ok(b) => r == Ok::<(), NesError>(()) && final(self).bg
                            == (BackgroundState { tile_msb: b, ..old(self).bg }) && final(self).reg == old(self).reg,
                        Err(e) => r == Err::<(), NesError>(e),
                    }
                })
                &&& phase == 7 ==> r == Ok::<(), NesError>(()) && final(self).bg == old(self).bg && final(self).reg.v_addr.0 == (if old(self).spec_rendering_enabled() {
                    spec_inc_coarse_x(old(self).reg.v_addr.0)
                } else {
                    old(self).reg.v_addr.0
                })
            }),
            spec_chr_fetch_total(cart) ==> r is Ok,
    {
        let pattern_table_addr: u16 = if self.reg.control.get_bg_table_addr() {
            0x1000
        } else {
            0x0
        };
        proof {
            lemma_bit_bounds();
        }
        let phase = ((self.cycle - 1) % 8) as u64;
        if phase == 0 {
            self.load_bg_shift();
            let lookup = self.reg.v_addr.get_nametable_lookup_addr();
            proof {
                assert((lookup | 0x2000) <= 0x2FFF && (lookup | 0x2000) == (lookup
                    | 0x2000)) by (bit_vector)
                    requires
                        lookup <= 0xFFF,
                ;
            }
            let b = match self.ppu_read(lookup | NAMETABLE_OFFSET, cart) {
                Ok(b) => b,
                Err(e) => {
                    return Err(e);
                },
            };
            self.bg.tile_id = b;
        } else if phase == 2 {
            let v = self.reg.v_addr.0;
            let cx = self.reg.v_addr.get_coarse_x();
            let cy = self.reg.v_addr.get_coarse_y();
            let attr_addr = ATTRIBUTE_TABLE_OFFSET | (v & 0xC00) | (cx >> 2) | ((cy >> 2) << 3);
            proof {
                assert(((cy >> 2) << 3) <= 0xF8 && (cx >> 2) <= 7 && attr_addr <= 0x2FFF)
                    by (bit_vector)
                    requires
                        cx == v & 0x1F && cy == (v >> 5) & 0x1F && attr_addr == (0x23C0 | (v
                            & 0xC00)) | (cx >> 2) | ((cy >> 2) << 3),
                ;
            }
            let b = match self.ppu_read(attr_addr, cart) {
                Ok(b) => b,
                Err(e) => {
                    return Err(e);
                },
            };
            let mut attr = b;
            if cy & 2 != 0 {
                attr = attr >> 4;
            }
            if cx & 2 != 0 {
                attr = attr >> 2;
            }
            self.bg.tile_attribute = attr & 3;
        } else if phase == 4 {
            let tid = self.bg.tile_id;
            proof {
                assert(((tid as u16) << 4) <= 0xFF0) by (bit_vector);
            }
            let addr = pattern_table_addr + ((tid as u16) << 4) + self.reg.v_addr.get_fine_y();
            let b = match self.ppu_read(addr, cart) {
                Ok(b) => b,
                Err(e) => {
                    return Err(e);
                },
            };
            self.bg.tile_lsb = b;
        } else if phase == 6 {
            let tid = self.bg.tile_id;
            proof {
                assert(((tid as u16) << 4) <= 0xFF0) by (bit_vector);
            }
            let addr = pattern_table_addr + ((tid as u16) << 4) + self.reg.v_addr.get_fine_y()
                + 8;
            let b = match self.ppu_read(addr, cart) {
                Ok(b) => b,
                Err(e) => {
                    return Err(e);
                },
            };
            self.bg.tile_msb = b;
        } else if phase == 7 {
            self.inc_x();
        }
        Ok(())
    }

    /// What [`Ppu::get_color`] returns: the palette byte selected by the
    /// layer, palette and pixel bits, mapped through the color map; a
    /// palette byte outside the 64-color map is refused.
    pub open spec fn spec_get_color(&self, palette_idx: u8, pixel: u8, bg: bool) -> Result<
        Color,
        NesError,
    > {
        let px = pixel & 3;
        let p = if px == 0 {
            0u8
        } else {
            (palette_idx & 3) as u8
        };
        let sel: u8 = if bg {
            0u8
        } else {
            1u8
        };
        let idx = (((sel << 4) | (p << 2)) | px) as u8;
        let addr = (0x3F00u16 | (idx as u16)) as u16;
        let c = self.palettes@[spec_map_palette_addr(self.reg.mask.0, addr)];
        if c < 64 {
            Ok(self.color_map@[c as int])
        } else {
            Err(NesError::BadPalette)
        }
    }

    /// The display color of a palette entry, as [`Ppu::spec_get_color`]
    /// says. A transparent pixel always reads the backdrop entry.
    pub fn get_color(&self, palette_idx: u8, pixel: u8, bg: bool) -> (r: Result<Color, NesError>)
        requires
            self.wf(),
        ensures
            r == self.spec_get_color(palette_idx, pixel, bg),
    {
        proof {
            lemma_bit_bounds();
        }
        let px = pixel & 3;
        let p: u8 = if px == 0 {
            0
        } else {
            palette_idx & 3
        };
        let sel: u8 = if bg {
            0
        } else {
            1
        };
        proof {
            assert(p <= 3 && ((sel << 4) | (p << 2)) | px < 32) by (bit_vector)
                requires
                    sel <= 1 && p <= 3 && px == pixel & 3,
            ;
        }
        let idx: u8 = ((sel << 4) | (p << 2)) | px;
        let addr: u16 = 0x3F00 | (idx as u16);
        let c = self.palettes[self.map_palette_addr(addr)];
        if c < 64 {
            Ok(self.color_map[c as usize])
        } else {
            Err(NesError::BadPalette)
        }
    }
}


/// Whether OAM sprite `i` covers `scanline` for sprite height `h`.
pub open spec fn spec_sprite_hits(oam: Seq<u8>, i: int, scanline: int, h: int) -> bool {
    0 <= scanline - oam[4 * i] < h
}

/// The pending-sprite record made for OAM sprite `i` on `scanline`.
pub open spec fn spec_pending(oam: Seq<u8>, i: int, scanline: int) -> PendingSprite {
    PendingSprite {
        sprite: Ppu::spec_oam_sprite(oam, i),
        row_offset: (scanline - oam[4 * i]) as u8,
        col_offset: 0,
        is_sprite_zero: i == 0,
    }
}

/// The sprites kept after scanning the first `n` OAM entries: each entry
/// covering the scanline is appended while fewer than eight are held.
pub open spec fn spec_sprites_upto(oam: Seq<u8>, scanline: int, h: int, n: int) -> Seq<
    PendingSprite,
>
    decreases n,
{
    if n <= 0 {
        Seq::empty()
    } else {
        let p = spec_sprites_upto(oam, scanline, h, n - 1);
        if spec_sprite_hits(oam, n - 1, scanline, h) && p.len() < 8 {
            p.push(spec_pending(oam, n - 1, scanline))
        } else {
            p
        }
    }
}

/// Whether scanning the first `n` OAM entries finds a ninth sprite on
/// the scanline.
pub open spec fn spec_sprite_overflow(oam: Seq<u8>, scanline: int, h: int, n: int) -> bool
    decreases n,
{
    if n <= 0 {
        false
    } else {
        spec_sprite_overflow(oam, scanline, h, n - 1) || (spec_sprite_hits(
            oam,
            n - 1,
            scanline,
            h,
        ) && spec_sprites_upto(oam, scanline, h, n - 1).len() >= 8)
    }
}

/// At most eight sprites are ever kept.
pub proof fn lemma_sprites_upto_len(oam: Seq<u8>, scanline: int, h: int, n: int)
    ensures
        spec_sprites_upto(oam, scanline, h, n).len() <= 8,
    decreases n,
{
    if n > 0 {
        lemma_sprites_upto_len(oam, scanline, h, n - 1);
    }
}

/// One dot of sprite progress: the lead-in counts down to zero, then the
/// column offset walks to eight.
pub open spec fn spec_sprite_step(p: PendingSprite) -> PendingSprite {
    if p.sprite.x > 0 {
        PendingSprite { sprite: OamSprite { x: (p.sprite.x - 1) as u8, ..p.sprite }, ..p }
    } else if p.col_offset < 8 {
        PendingSprite { col_offset: (p.col_offset + 1) as u8, ..p }
    } else {
        p
    }
}

impl Ppu {
    /// Scan all 64 OAM entries for sprites covering the current scanline
    /// and keep the first eight, exactly as [`spec_sprites_upto`] says;
    /// the overflow flag is raised when a ninth is found.
    fn find_sprites_for_scanline(&mut self)
        requires
            old(self).wf(),
            0 <= old(self).scanline <= 239,
        ensures
            final(self).wf(),
            ({
                let h: int = if (old(self).reg.control.0 >> 5) & 1 == 1 {
                    16
                } else {
                    8
                };
                &&& final(self).fg.scanline_sprites@ == spec_sprites_upto(
                    old(self).oam@,
                    old(self).scanline as int,
                    h,
                    64,
                )
                &&& final(self).reg.status.0 == (if spec_sprite_overflow(
                    old(self).oam@,
                    old(self).scanline as int,
                    h,
                    64,
                ) {
                    (old(self).reg.status.0 | 0x20) as u8
                } else {
                    old(self).reg.status.0
                })
            }),
            final(self).fg.sprite_zero_hit == old(self).fg.sprite_zero_hit,
            final(self).reg.control == old(self).reg.control,
            final(self).reg.mask == old(self).reg.mask,
            final(self).reg.v_addr == old(self).reg.v_addr,
            final(self).reg.t_addr == old(self).reg.t_addr,
            final(self).reg.oam_addr == old(self).reg.oam_addr,
            final(self).reg.ppu_addr_latch == old(self).reg.ppu_addr_latch,
            final(self).reg.ppu_data_buffer == old(self).reg.ppu_data_buffer,
            final(self).reg.fine_x == old(self).reg.fine_x,
            final(self).vram@ == old(self).vram@,
            final(self).oam@ == old(self).oam@,
            final(self).palettes@ == old(self).palettes@,
            final(self).buffer.pixels@ == old(self).buffer.pixels@,
            final(self).bg == old(self).bg,
            final(self).cycle == old(self).cycle,
            final(self).scanline == old(self).scanline,
            final(self).odd_frame == old(self).odd_frame,
            final(self).color_map@ == old(self).color_map@,
    {
        let sprite_height: i32 = if self.reg.control.get_sprite_size() {
            16
        } else {
            8
        };
        let ghost h: int = sprite_height as int;
        let ghost oam0 = self.oam@;
        let ghost line = self.scanline as int;
        let ghost status0 = self.reg.status.0;

        self.fg.scanline_sprites = Vec::new();

        let mut idx: u8 = 0;
        while idx < 64
            invariant
                self.wf(),
                0 <= self.scanline <= 239,
                idx <= 64,
                oam0 == self.oam@,
                line == self.scanline as int,
                sprite_height as int == h,
                h == (if (self.reg.control.0 >> 5) & 1 == 1 {
                    16int
                } else {
                    8int
                }),
                self.fg.scanline_sprites@ == spec_sprites_upto(oam0, line, h, idx as int),
                self.reg.status.0 == (if spec_sprite_overflow(oam0, line, h, idx as int) {
                    (status0 | 0x20) as u8
                } else {
                    status0
                }),
                self.fg.sprite_zero_hit == old(self).fg.sprite_zero_hit,
                self.reg.control == old(self).reg.control,
                self.reg.mask == old(self).reg.mask,
                self.reg.v_addr == old(self).reg.v_addr,
                self.reg.t_addr == old(self).reg.t_addr,
                self.reg.oam_addr == old(self).reg.oam_addr,
                self.reg.ppu_addr_latch == old(self).reg.ppu_addr_latch,
                self.reg.ppu_data_buffer == old(self).reg.ppu_data_buffer,
                self.reg.fine_x == old(self).reg.fine_x,
                self.vram@ == old(self).vram@,
                self.oam@ == old(self).oam@,
                self.palettes@ == old(self).palettes@,
                self.buffer.pixels@ == old(self).buffer.pixels@,
                self.bg == old(self).bg,
                self.cycle == old(self).cycle,
                self.scanline == old(self).scanline,
                self.odd_frame == old(self).odd_frame,
                self.color_map@ == old(self).color_map@,
                status0 == old(self).reg.status.0,
            decreases 64 - idx,
        {
            let sprite = self.oam_read(idx);
            let diff: i32 = self.scanline - (sprite.y as i32);
            if diff >= 0 && diff < sprite_height {
                if self.fg.scanline_sprites.len() < 8 {
                    let ps = PendingSprite {
                        sprite,
                        row_offset: diff as u8,
                        col_offset: 0,
                        is_sprite_zero: idx == 0,
                    };
                    self.fg.scanline_sprites.push(ps);
                } else {
                    self.reg.status.set_sprite_overflow(true);
                }
            }
            proof {
                lemma_bit_bounds();
                lemma_sprites_upto_len(oam0, line, h, idx as int);
                assert(spec_sprites_upto(oam0, line, h, idx + 1) == (if spec_sprite_hits(
                    oam0,
                    idx as int,
                    line,
                    h,
                ) && spec_sprites_upto(oam0, line, h, idx as int).len() < 8 {
                    spec_sprites_upto(oam0, line, h, idx as int).push(
                        spec_pending(oam0, idx as int, line),
                    )
                } else {
                    spec_sprites_upto(oam0, line, h, idx as int)
                }));
                assert(spec_sprite_overflow(oam0, line, h, idx + 1) == (spec_sprite_overflow(
                    oam0,
                    line,
                    h,
                    idx as int,
                ) || (spec_sprite_hits(oam0, idx as int, line, h) && spec_sprites_upto(
                    oam0,
                    line,
                    h,
                    idx as int,
                ).len() >= 8)));
            }
            idx += 1;
        }
        proof {
            lemma_sprites_upto_len(oam0, line, h, 64);
        }
    }

    /// Advance every pending sprite one dot when sprites are enabled:
    /// count its lead-in down, then walk its eight columns.
    fn update_sprites(&mut self)
        ensures
            final(self).fg.scanline_sprites@.len() == old(self).fg.scanline_sprites@.len(),
            final(self).fg.sprite_zero_hit == old(self).fg.sprite_zero_hit,
            final(self).reg == old(self).reg,
            final(self).vram@ == old(self).vram@,
            final(self).oam@ == old(self).oam@,
            final(self).palettes@ == old(self).palettes@,
            final(self).buffer.pixels@ == old(self).buffer.pixels@,
            final(self).bg == old(self).bg,
            final(self).cycle == old(self).cycle,
            final(self).scanline == old(self).scanline,
            final(self).odd_frame == old(self).odd_frame,
            final(self).color_map@ == old(self).color_map@,
            (old(self).reg.mask.0 >> 4) & 1 != 1 ==> final(self).fg.scanline_sprites@ == old(self).fg.scanline_sprites@,
            (old(self).reg.mask.0 >> 4) & 1 == 1 ==> forall|i: int|
                0 <= i < old(self).fg.scanline_sprites@.len() ==> final(self).fg.scanline_sprites@[i] == spec_sprite_step(old(self).fg.scanline_sprites@[i]),
    {
        if self.reg.mask.get_show_sprites() {
            let n = self.fg.scanline_sprites.len();
            let mut i: usize = 0;
            while i < n
                invariant
                    n == self.fg.scanline_sprites@.len(),
                    i <= n,
                    self.fg.sprite_zero_hit == old(self).fg.sprite_zero_hit,
                    self.reg == old(self).reg,
                    self.vram@ == old(self).vram@,
                    self.oam@ == old(self).oam@,
                    self.palettes@ == old(self).palettes@,
                    self.buffer.pixels@ == old(self).buffer.pixels@,
                    self.bg == old(self).bg,
                    self.cycle == old(self).cycle,
                    self.scanline == old(self).scanline,
                    self.odd_frame == old(self).odd_frame,
                    self.color_map@ == old(self).color_map@,
                    forall|j: int|
                        0 <= j < i ==> self.fg.scanline_sprites@[j] == spec_sprite_step(
                            old(self).fg.scanline_sprites@[j],
                        ),
                    forall|j: int|
                        i <= j < n ==> self.fg.scanline_sprites@[j] == old(self).fg.scanline_sprites@[j],
                decreases n - i,
            {
                let mut ps = self.fg.scanline_sprites[i];
                if ps.sprite.x > 0 {
                    ps.sprite.x = ps.sprite.x - 1;
                } else if ps.col_offset < 8 {
                    ps.col_offset = ps.col_offset + 1;
                }
                self.fg.scanline_sprites.set(i, ps);
                i += 1;
            }
        }
    }
}

/// What a fetch of one sprite pixel returns: the two pattern-plane bytes
/// of the sprite's tile row, combined at the sprite's column. Flips run
/// the row and column backwards; in 8 x 16 mode the pattern table comes
/// from bit 0 of the tile id and the row walks both tile halves.
pub open spec fn spec_sprite_pixel(
    ppu: &Ppu,
    cart: &Cartridge,
    sprite: OamSprite,
    row: u8,
    col: u8,
) -> Result<u8, NesError> {
    let tall = (ppu.reg.control.0 >> 5) & 1 == 1;
    let c0 = (col & 7) as u8;
    let c = if (sprite.attributes.0 >> 6) & 1 == 1 {
        c0
    } else {
        (7 - c0) as u8
    };
    let r0 = if tall {
        (row & 15) as u8
    } else {
        (row & 7) as u8
    };
    let r = if (sprite.attributes.0 >> 7) & 1 == 1 {
        if tall {
            (15 - r0) as u8
        } else {
            (7 - r0) as u8
        }
    } else {
        r0
    };
    let lo_addr = if tall {
        ((((sprite.id & 1) as u16) << 12) | ((((sprite.id & 0xFE) as u16) * 16) as u16) | (
        r as u16)) as u16
    } else {
        (((if (ppu.reg.control.0 >> 3) & 1 == 1 {
            0x1000u16
        } else {
            0u16
        }) | (((sprite.id as u16) * 16) as u16)) | (r as u16)) as u16
    };
    match ppu.spec_mem_read(cart, lo_addr) {
        Err(e) => Err(e),
        Ok(lo) => match ppu.spec_mem_read(cart, (lo_addr + 8) as u16) {
            Err(e) => Err(e),
            Ok(hi) => Ok(((((hi >> c) & 1) << 1) | ((lo >> c) & 1)) as u8),
        },
    }
}

impl Ppu {
    /// Fetch one sprite pixel, as [`spec_sprite_pixel`] says.
    fn get_sprite_pixel(&self, sprite: &OamSprite, row: u8, col: u8, cart: &Cartridge) -> (r:
        Result<u8, NesError>)
        requires
            self.wf(),
            cart.wf(),
        ensures
            r == spec_sprite_pixel(self, cart, *sprite, row, col),
            spec_chr_fetch_total(cart) ==> r is Ok,
    {
        proof {
            lemma_bit_bounds();
        }
        let tall = self.reg.control.get_sprite_size();
        let sid = sprite.id;
        let c0 = col & 7;
        let c: u8 = if sprite.attributes.get_flip_horizontal() {
            c0
        } else {
            7 - c0
        };
        let r0: u8 = if tall {
            row & 15
        } else {
            row & 7
        };
        let r: u8 = if sprite.attributes.get_flip_vertical() {
            if tall {
                15 - r0
            } else {
                7 - r0
            }
        } else {
            r0
        };
        let lo_addr: u16 = if tall {
            proof {
                assert((((sid & 1) as u16) << 12) <= 0x1000) by (bit_vector);
            }
            (((sid & 1) as u16) << 12) | (((sid & 0xFE) as u16) * 16) | (r as u16)
        } else {
            let pattern_base: u16 = if self.reg.control.get_sprite_table_addr() {
                0x1000
            } else {
                0
            };
            (pattern_base | ((sid as u16) * 16)) | (r as u16)
        };
        proof {
            assert(lo_addr <= 0x1FF7);
        }
        let lo = self.ppu_read(lo_addr, cart)?;
        let hi = self.ppu_read(lo_addr + 8, cart)?;
        Ok((((hi >> c) & 1) << 1) | ((lo >> c) & 1))
    }

    /// Compose and store the pixel for the current dot: take the
    /// background bits selected by fine X from the shift registers and
    /// the first opaque pending sprite, settle priority, latch a
    /// sprite-zero hit, and paint the visible buffer cell. Only the
    /// status byte (sprite-zero bit), the frame-long sprite-zero latch,
    /// and the one buffer cell under the dot can change.
    fn render_dot(&mut self, cart: &Cartridge) -> (r: Result<(), NesError>)
        requires
            old(self).wf(),
            cart.wf(),
        ensures
            final(self).wf(),
            final(self).reg.control == old(self).reg.control,
            final(self).reg.mask == old(self).reg.mask,
            final(self).reg.oam_addr == old(self).reg.oam_addr,
            final(self).reg.ppu_addr_latch == old(self).reg.ppu_addr_latch,
            final(self).reg.ppu_data_buffer == old(self).reg.ppu_data_buffer,
            final(self).reg.ppu_data == old(self).reg.ppu_data,
            final(self).reg.t_addr == old(self).reg.t_addr,
            final(self).reg.v_addr == old(self).reg.v_addr,
            final(self).reg.fine_x == old(self).reg.fine_x,
            final(self).reg.status.0 == old(self).reg.status.0 || final(self).reg.status.0 == (
            old(self).reg.status.0 | 0x40) as u8,
            final(self).vram@ == old(self).vram@,
            final(self).oam@ == old(self).oam@,
            final(self).palettes@ == old(self).palettes@,
            final(self).bg == old(self).bg,
            final(self).fg.scanline_sprites@ == old(self).fg.scanline_sprites@,
            final(self).cycle == old(self).cycle,
            final(self).scanline == old(self).scanline,
            final(self).odd_frame == old(self).odd_frame,
            final(self).color_map@ == old(self).color_map@,
            final(self).buffer.pixels@.len() == old(self).buffer.pixels@.len(),
            forall|i: int|
                0 <= i < old(self).buffer.pixels@.len() && i != old(self).scanline * 256 + (old(self).cycle - 1) ==> final(self).buffer.pixels@[i] == old(self).buffer.pixels@[i],
            spec_chr_fetch_total(cart) && old(self).spec_palettes_ok() ==> r is Ok,
            (old(self).reg.mask.0 >> 4) & 1 != 1 ==> final(self).reg.status == old(
                self,
            ).reg.status && final(self).fg.sprite_zero_hit == old(self).fg.sprite_zero_hit,
            !old(self).spec_rendering_enabled() ==> final(self).buffer.pixels@ == old(
                self,
            ).buffer.pixels@,
            ({
                // With sprites off and the background on, the dot takes
                // exactly the shift-register bits under fine X.
                let fx = (old(self).reg.fine_x & 7) as u16;
                let bit_pos = (15 - fx) as u16;
                let px0 = ((old(self).bg.shift_pattern_lsb >> bit_pos) & 1) as u8;
                let px1 = ((old(self).bg.shift_pattern_msb >> bit_pos) & 1) as u8;
                let px = ((px1 << 1) | px0) as u8;
                let pa0 = ((old(self).bg.shift_attribute_lsb >> bit_pos) & 1) as u8;
                let pa1 = ((old(self).bg.shift_attribute_msb >> bit_pos) & 1) as u8;
                let pa = ((pa1 << 1) | pa0) as u8;
                ((old(self).reg.mask.0 >> 4) & 1 != 1 && (old(self).reg.mask.0 >> 3) & 1 == 1
                    && old(self).cycle > 0 && old(self).cycle <= 256 && 0 <= old(self).scanline
                    < 240) ==> match old(self).spec_get_color(pa, px, true) {
                    Ok(c) => r is Ok && final(self).buffer.pixels@[old(self).scanline * 256 + (
                    old(self).cycle - 1)] == c,
                    Err(e) => r == Err::<(), NesError>(e),
                }
            }),
    {
        proof {
            lemma_bit_bounds();
        }
        let mut pixel: u8 = 0;
        let mut palette: u8 = 0;
        let mut bg_layer = true;

        if self.reg.mask.get_show_bg() {
            let fx: u16 = (self.reg.fine_x & 7) as u16;
            let bit_pos: u16 = 15 - fx;
            let pixel0 = ((self.bg.shift_pattern_lsb >> bit_pos) & 1) as u8;
            let pixel1 = ((self.bg.shift_pattern_msb >> bit_pos) & 1) as u8;
            pixel = (pixel1 << 1) | pixel0;
            let pal0 = ((self.bg.shift_attribute_lsb >> bit_pos) & 1) as u8;
            let pal1 = ((self.bg.shift_attribute_msb >> bit_pos) & 1) as u8;
            palette = (pal1 << 1) | pal0;
        }
        if self.reg.mask.get_show_sprites() {
            let mut sprite_pixel: u8 = 0;
            let mut sprite_palette: u8 = 0;
            let mut bg_priority = false;
            let mut sprite_zero = false;
            let n = self.fg.scanline_sprites.len();
            let mut i: usize = 0;
            let mut done = false;
            while i < n && !done
                invariant
                    self.wf(),
                    cart.wf(),
                    *self == *old(self),
                    (old(self).reg.mask.0 >> 4) & 1 == 1,
                    n == self.fg.scanline_sprites@.len(),
                    i <= n,
                decreases n - i, (if done { 0int } else { 1int }),
            {
                let ps = self.fg.scanline_sprites[i];
                if ps.sprite.x == 0 && ps.col_offset < 8 {
                    sprite_pixel = match self.get_sprite_pixel(
                        &ps.sprite,
                        ps.row_offset,
                        ps.col_offset,
                        cart,
                    ) {
                        Ok(p) => p,
                        Err(e) => {
                            return Err(e);
                        },
                    };
                    sprite_palette = ps.sprite.attributes.get_palette();
                    bg_priority = ps.sprite.attributes.get_priority();
                    sprite_zero = ps.is_sprite_zero;
                    if sprite_pixel != 0 {
                        done = true;
                    }
                }
                if !done {
                    i += 1;
                }
            }

            let bg_transparent = pixel == 0;
            let sprite_transparent = sprite_pixel == 0;
            if bg_transparent {
                pixel = sprite_pixel;
                palette = sprite_palette;
                bg_layer = false;
            } else if !sprite_transparent {
                if !bg_priority {
                    pixel = sprite_pixel;
                    palette = sprite_palette;
                    bg_layer = false;
                }
                if sprite_zero && self.reg.mask.get_show_bg() && self.reg.mask.get_show_sprites()
                {
                    if !self.reg.mask.get_show_bg_left()
                        || !self.reg.mask.get_show_sprites_left() {
                        if 9 <= self.cycle && self.cycle < 258 {
                            self.reg.status.set_sprite_zero_hit(true);
                            self.fg.sprite_zero_hit = true;
                        }
                    } else {
                        if 1 <= self.cycle && self.cycle < 258 {
                            self.reg.status.set_sprite_zero_hit(true);
                            self.fg.sprite_zero_hit = true;
                        }
                    }
                }
            }
        }
        if self.cycle > 0 && self.rendering_enabled() && self.scanline >= 0 && self.scanline
            < 240 && self.cycle <= 256 {
            let row = self.scanline as usize;
            let col = (self.cycle - 1) as usize;
            proof {
                lemma_palette_addr_bound(self.reg.mask.0, ((0x3F00u16 | ((((if bg_layer {
                    0u8
                } else {
                    1u8
                }) << 4) | ((if pixel & 3 == 0 {
                    0u8
                } else {
                    (palette & 3) as u8
                }) << 2) | (pixel & 3)) as u16)) as u16));
            }
            let color = match self.get_color(palette, pixel, bg_layer) {
                Ok(c) => c,
                Err(e) => {
                    return Err(e);
                },
            };
            self.buffer.pixels.set(row * 256 + col, color);
        }
        Ok(())
    }
}

impl Ppu {
    /// Advance one dot.
    ///
    /// The dot counter walks 0..=340 and then wraps to the next scanline;
    /// scanline 260 wraps to the pre-render line -1 and yields the
    /// finished frame. At dot 1 of scanline 241 vblank is raised and, if
    /// the control register enables it, a non-maskable interrupt is
    /// returned; at dot 1 of the pre-render line vblank and the sprite
    /// flags are cleared (the same dot's sprite composition may raise the
    /// sprite-zero bit again, so only vblank and overflow are promised
    /// clear). On odd frames with the background enabled, dot
    /// 0 of scanline 0 is skipped. In between, the background fetch
    /// cadence, the sprite countdown and the pixel composition run as
    /// their own contracts say.
    pub fn tick(&mut self, cart: &Cartridge) -> (r: Result<
        (Option<Frame>, Option<Interrupt>),
        NesError,
    >)
        requires
            old(self).wf(),
            cart.wf(),
        ensures
            final(self).wf(),
            ({
                let skip = old(self).scanline == 0 && old(self).cycle == 0 && old(self).odd_frame
                    && (old(self).reg.mask.0 >> 3) & 1 == 1;
                r matches Ok(out) ==> {
                    &&& skip ==> final(self).cycle == 1 && final(self).scanline == 0 && out.0
                        is None && out.1 is None
                    &&& !skip && old(self).cycle < 340 ==> final(self).cycle == old(self).cycle
                        + 1 && final(self).scanline == old(self).scanline
                    &&& !skip && old(self).cycle == 340 ==> final(self).cycle == 0 && (old(self).scanline < 260 ==> final(self).scanline == old(self).scanline + 1) && (old(self).scanline == 260 ==> final(self).scanline == -1)
                    &&& out.0 is Some <==> (!skip && old(self).cycle == 340 && old(self).scanline
                        == 260)
                    &&& out.0 matches Some(f) ==> f.wf() && f.pixels@ == final(self).buffer.pixels@
                    &&& out.1 is Some <==> (!skip && old(self).scanline == 241 && old(self).cycle
                        == 1 && (old(self).reg.control.0 >> 7) & 1 == 1)
                    &&& out.1 is Some ==> out.1 == Some(Interrupt::NonMaskable)
                    &&& !skip && old(self).scanline == 241 && old(self).cycle == 1 ==> (final(self).reg.status.0 >> 7) & 1 == 1
                    &&& !skip && old(self).scanline == -1 && old(self).cycle == 1 ==> (final(self).reg.status.0 >> 7) & 1 == 0 && (final(self).reg.status.0 >> 5) & 1 == 0
                    &&& !skip && old(self).cycle == 340 && old(self).scanline == 260 ==> final(self).odd_frame == !old(self).odd_frame
                    &&& (skip || !(old(self).cycle == 340 && old(self).scanline == 260))
                        ==> final(self).odd_frame == old(self).odd_frame
                }
            }),
            old(self).spec_palettes_ok() && spec_chr_fetch_total(cart) ==> r is Ok,
    {
        let mut ret_frame: Option<Frame> = None;
        let mut ret_int: Option<Interrupt> = None;

        if self.scanline == 0 && self.cycle == 0 && self.odd_frame && self.reg.mask.get_show_bg()
        {
            self.cycle = 1;
            return Ok((None, None));
        }
        let ghost entry = *self;

        if self.scanline >= -1 && self.scanline < 240 {
            if self.scanline == -1 && self.cycle == 1 {
                self.reg.status.set_vblank_start(false);
                self.reg.status.set_sprite_overflow(false);
                self.reg.status.set_sprite_zero_hit(false);
                self.fg.sprite_zero_hit = false;

            }
            if (2 <= self.cycle && self.cycle < 258) || (321 <= self.cycle && self.cycle < 338) {
                self.update_bg_shift();
                self.load_bg(cart)?;
            }
            if 2 <= self.cycle && self.cycle < 258 {
                self.update_sprites();
            }
            if self.cycle == 256 {
                self.inc_y();
            } else if self.cycle == 257 {
                self.load_bg_shift();
                self.copy_x();
                if self.scanline >= 0 {
                    self.find_sprites_for_scanline();
                }
            } else if 280 <= self.cycle && self.cycle <= 304 && self.scanline == -1 {
                self.copy_y();
            } else if self.cycle == 338 || self.cycle == 340 {
                let lookup = self.reg.v_addr.get_nametable_lookup_addr();
                proof {
                    lemma_bit_bounds();
                    assert((0x2000 | lookup) <= 0x2FFF) by (bit_vector)
                        requires
                            lookup <= 0xFFF,
                    ;
                }
                let b = match self.ppu_read(NAMETABLE_OFFSET | lookup, cart) {
                    Ok(b) => b,
                    Err(e) => {
                        return Err(e);
                    },
                };
                self.bg.tile_id = b;
            }
            if self.scanline >= 0 && self.cycle == 340 {
                self.find_sprites_for_scanline();
            }
        }
        if self.scanline == 241 && self.cycle == 1 {
            self.reg.status.set_vblank_start(true);
            if self.reg.control.get_nmi_toggle() {
                ret_int = Some(Interrupt::NonMaskable);
            }
        }

        self.render_dot(cart)?;

        proof {
            let e = entry.reg.status.0;
            if entry.scanline == 241 && entry.cycle == 1 {
                let s2 = self.reg.status.0;
                assert((s2 >> 7) & 1 == 1) by (bit_vector)
                    requires
                        s2 == (e | 0x80) as u8 || s2 == (((e | 0x80) as u8) | 0x40) as u8,
                ;
            }
            if entry.scanline == -1 && entry.cycle == 1 {
                let s4 = self.reg.status.0;
                assert((s4 >> 7) & 1 == 0 && (s4 >> 5) & 1 == 0) by (bit_vector)
                    requires
                        s4 == (((e & !0x80) & !0x20) & !0x40) as u8 || s4 == ((((e & !0x80)
                            & !0x20) & !0x40) as u8 | 0x40) as u8,
                ;
            }
        }

        self.cycle = self.cycle + 1;
        if self.cycle >= 341 {
            self.cycle = 0;
            self.scanline = self.scanline + 1;
            if self.scanline >= 261 {
                self.scanline = -1;
                ret_frame = Some(self.buffer.duplicate());
                self.odd_frame = !self.odd_frame;
            }
        }

        Ok((ret_frame, ret_int))
    }

    /// The four background and four sprite palettes, each rendered to its
    /// four display colors; entries that name no valid color fall back to
    /// black.
    pub fn debug_palettes(&self) -> (r: Vec<Vec<Color>>)
        requires
            self.wf(),
        ensures
            r@.len() == 8,
    {
        let mut all: Vec<Vec<Color>> = Vec::new();
        let mut p: u8 = 0;
        while p < 8
            invariant
                self.wf(),
                p <= 8,
                all@.len() == p,
            decreases 8 - p,
        {
            let mut row: Vec<Color> = Vec::new();
            let mut px: u8 = 0;
            while px < 4
                invariant
                    self.wf(),
                    px <= 4,
                    row@.len() == px,
                decreases 4 - px,
            {
                let c = match self.get_color(p % 4, px, p < 4) {
                    Ok(c) => c,
                    Err(_) => Color { r: 0, g: 0, b: 0 },
                };
                row.push(c);
                px += 1;
            }
            all.push(row);
            p += 1;
        }
        all
    }
}

/// The write-latch law for the address port. With the latch clear, the
/// first `$2006` write loads the high six bits of `t` (clearing bit 14)
/// and the second loads the low byte and copies `t` into `v`, exactly as
/// the register-write contract says; the loaded address stays inside PPU
/// space, so the single step a following `$2007` access performs adds
/// its increment (1 or 32) exactly once, with no wrap.
pub proof fn lemma_addr_latch_round(t0: u16, hi: u8, lo: u8)
    ensures
        ({
            let t1 = ((t0 & 0x00FF) | (((hi & 0x3F) as u16) << 8)) as u16;
            let v = ((t1 & 0xFF00) | (lo as u16)) as u16;
            &&& v <= 0x3FFF
            &&& (wrap_add16(v, 1) & 0x7FFF) == v + 1
            &&& (wrap_add16(v, 32) & 0x7FFF) == v + 32
        }),
{
    let t1 = ((t0 & 0x00FF) | (((hi & 0x3F) as u16) << 8)) as u16;
    let v = ((t1 & 0xFF00) | (lo as u16)) as u16;
    assert(v <= 0x3FFF) by (bit_vector)
        requires
            t1 == (t0 & 0x00FF) | (((hi & 0x3F) as u16) << 8) && v == (t1 & 0xFF00) | (
            lo as u16),
    ;
    assert(((v + 1) as u16) & 0x7FFF == (v + 1) as u16 && ((v + 32) as u16) & 0x7FFF == (v
        + 32) as u16) by (bit_vector)
        requires
            v <= 0x3FFF,
    ;
}

impl Ppu {
    /// Render both 4 KiB pattern tables as 128 x 128 tiles of display
    /// colors under the given palette, for diagnostics. Tiles are laid
    /// out sixteen to a row; a failed CHR read or an invalid palette
    /// byte is reported rather than drawn.
    pub fn debug_pattern_tables(&self, palette: u8, bg: bool, cart: &Cartridge) -> (r: Result<
        (Vec<Color>, Vec<Color>),
        NesError,
    >)
        requires
            self.wf(),
            cart.wf(),
        ensures
            r matches Ok(t) ==> t.0@.len() == 128 * 128 && t.1@.len() == 128 * 128,
    {
        let mut pat0: Vec<Color> = crate::ppu::colors::black_plane(128 * 128);
        let mut pat1: Vec<Color> = crate::ppu::colors::black_plane(128 * 128);

        let mut tile: u16 = 0;
        while tile < 256
            invariant
                self.wf(),
                cart.wf(),
                tile <= 256,
                pat0@.len() == 128 * 128,
                pat1@.len() == 128 * 128,
            decreases 256 - tile,
        {
            let lo_plane0_addr: u16 = tile * 16;
            let hi_plane0_addr: u16 = lo_plane0_addr + 8;
            let lo_plane1_addr: u16 = tile * 16 + 0x1000;
            let hi_plane1_addr: u16 = lo_plane1_addr + 8;

            let tile_x: usize = ((tile % 16) * 8) as usize;
            let tile_y: usize = ((tile / 16) * 8) as usize;

            let mut row: u16 = 0;
            while row < 8
                invariant
                    self.wf(),
                    cart.wf(),
                    tile < 256,
                    row <= 8,
                    tile_x <= 120,
                    tile_y <= 120,
                    lo_plane0_addr == tile * 16,
                    hi_plane0_addr == tile * 16 + 8,
                    lo_plane1_addr == tile * 16 + 0x1000,
                    hi_plane1_addr == tile * 16 + 0x1008,
                    pat0@.len() == 128 * 128,
                    pat1@.len() == 128 * 128,
                decreases 8 - row,
            {
                let lo0 = self.ppu_read(lo_plane0_addr + row, cart)?;
                let hi0 = self.ppu_read(hi_plane0_addr + row, cart)?;
                let lo1 = self.ppu_read(lo_plane1_addr + row, cart)?;
                let hi1 = self.ppu_read(hi_plane1_addr + row, cart)?;
                let mut col: u16 = 0;
                while col < 8
                    invariant
                        self.wf(),
                        col <= 8,
                        row < 8,
                        tile_x <= 120,
                        tile_y <= 120,
                        pat0@.len() == 128 * 128,
                        pat1@.len() == 128 * 128,
                    decreases 8 - col,
                {
                    let shift = (7 - col) as u8;
                    let pixel0 = (((hi0 >> shift) & 1) << 1) | ((lo0 >> shift) & 1);
                    let pixel1 = (((hi1 >> shift) & 1) << 1) | ((lo1 >> shift) & 1);
                    let idx = (tile_y + row as usize) * 128 + tile_x + col as usize;
                    let c0 = self.get_color(palette, pixel0, bg)?;
                    pat0.set(idx, c0);
                    let c1 = self.get_color(palette, pixel1, bg)?;
                    pat1.set(idx, c1);
                    col += 1;
                }
                row += 1;
            }
            tile += 1;
        }
        Ok((pat0, pat1))
    }
}

} // verus!
