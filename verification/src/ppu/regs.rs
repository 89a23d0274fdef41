//! The PPU's packed registers: control, mask, status, the loopy
//! scroll/address word, and the per-sprite attribute byte.

use vstd::prelude::*;

verus! {

/// `PPUCTRL`: nametable select, increment mode, pattern bases, sprite
/// size, and the NMI enable.
#[derive(Clone, Copy, Debug, PartialEq, Eq, Structural, Default)]
pub struct PpuControl(pub u8);

impl PpuControl {
    pub fn get_nametable_addr(&self) -> (r: u8)
        ensures
            r == (self.0 & 3) as u8,
    {
        self.0 & 3
    }

    pub fn set_nametable_addr(&mut self, v: u8)
        ensures
            final(self).0 == ((old(self).0 & !3) | (v & 3)) as u8,
    {
        self.0 = (self.0 & !3) | (v & 3);
    }

    pub fn get_vram_inc(&self) -> (r: bool)
        ensures
            r == ((self.0 >> 2) & 1 == 1),
    {
        (self.0 >> 2) & 1 == 1
    }

    pub fn set_vram_inc(&mut self, v: bool)
        ensures
            v ==> final(self).0 == (old(self).0 | 4) as u8,
            !v ==> final(self).0 == (old(self).0 & !4) as u8,
    {
        if v {
            self.0 = self.0 | 4;
        } else {
            self.0 = self.0 & !4;
        }
    }

    pub fn get_sprite_table_addr(&self) -> (r: bool)
        ensures
            r == ((self.0 >> 3) & 1 == 1),
    {
        (self.0 >> 3) & 1 == 1
    }

    pub fn get_bg_table_addr(&self) -> (r: bool)
        ensures
            r == ((self.0 >> 4) & 1 == 1),
    {
        (self.0 >> 4) & 1 == 1
    }

    pub fn get_sprite_size(&self) -> (r: bool)
        ensures
            r == ((self.0 >> 5) & 1 == 1),
    {
        (self.0 >> 5) & 1 == 1
    }

    pub fn set_sprite_size(&mut self, v: bool)
        ensures
            v ==> final(self).0 == (old(self).0 | 0x20) as u8,
            !v ==> final(self).0 == (old(self).0 & !0x20) as u8,
    {
        if v {
            self.0 = self.0 | 0x20;
        } else {
            self.0 = self.0 & !0x20;
        }
    }

    pub fn get_nmi_toggle(&self) -> (r: bool)
        ensures
            r == ((self.0 >> 7) & 1 == 1),
    {
        (self.0 >> 7) & 1 == 1
    }
}

/// `PPUMASK`: greyscale, layer enables, left-column enables, emphasis.
#[derive(Clone, Copy, Debug, PartialEq, Eq, Structural, Default)]
pub struct PpuMask(pub u8);

impl PpuMask {
    pub fn get_greyscale(&self) -> (r: bool)
        ensures
            r == (self.0 & 1 == 1),
    {
        self.0 & 1 == 1
    }

    pub fn get_show_bg_left(&self) -> (r: bool)
        ensures
            r == ((self.0 >> 1) & 1 == 1),
    {
        (self.0 >> 1) & 1 == 1
    }

    pub fn get_show_sprites_left(&self) -> (r: bool)
        ensures
            r == ((self.0 >> 2) & 1 == 1),
    {
        (self.0 >> 2) & 1 == 1
    }

    pub fn get_show_bg(&self) -> (r: bool)
        ensures
            r == ((self.0 >> 3) & 1 == 1),
    {
        (self.0 >> 3) & 1 == 1
    }

    pub fn get_show_sprites(&self) -> (r: bool)
        ensures
            r == ((self.0 >> 4) & 1 == 1),
    {
        (self.0 >> 4) & 1 == 1
    }
}

/// `PPUSTATUS`: the open-bus low bits and the three event flags.
#[derive(Clone, Copy, Debug, PartialEq, Eq, Structural, Default)]
pub struct PpuStatus(pub u8);

impl PpuStatus {
    pub fn get_sprite_overflow(&self) -> (r: bool)
        ensures
            r == ((self.0 >> 5) & 1 == 1),
    {
        (self.0 >> 5) & 1 == 1
    }

    pub fn set_sprite_overflow(&mut self, v: bool)
        ensures
            v ==> final(self).0 == (old(self).0 | 0x20) as u8,
            !v ==> final(self).0 == (old(self).0 & !0x20) as u8,
    {
        if v {
            self.0 = self.0 | 0x20;
        } else {
            self.0 = self.0 & !0x20;
        }
    }

    pub fn get_sprite_zero_hit(&self) -> (r: bool)
        ensures
            r == ((self.0 >> 6) & 1 == 1),
    {
        (self.0 >> 6) & 1 == 1
    }

    pub fn set_sprite_zero_hit(&mut self, v: bool)
        ensures
            v ==> final(self).0 == (old(self).0 | 0x40) as u8,
            !v ==> final(self).0 == (old(self).0 & !0x40) as u8,
    {
        if v {
            self.0 = self.0 | 0x40;
        } else {
            self.0 = self.0 & !0x40;
        }
    }

    pub fn get_vblank_start(&self) -> (r: bool)
        ensures
            r == ((self.0 >> 7) & 1 == 1),
    {
        (self.0 >> 7) & 1 == 1
    }

    pub fn set_vblank_start(&mut self, v: bool)
        ensures
            v ==> final(self).0 == (old(self).0 | 0x80) as u8,
            !v ==> final(self).0 == (old(self).0 & !0x80) as u8,
    {
        if v {
            self.0 = self.0 | 0x80;
        } else {
            self.0 = self.0 & !0x80;
        }
    }
}

/// A loopy address word: coarse X in bits 0..5, coarse Y in 5..10, the
/// nametable pair in 10..12, fine Y in 12..15.
#[derive(Clone, Copy, Debug, PartialEq, Eq, Structural, Default)]
pub struct PpuAddress(pub u16);

impl PpuAddress {
    pub fn get_coarse_x(&self) -> (r: u16)
        ensures
            r == (self.0 & 0x1F) as u16,
    {
        self.0 & 0x1F
    }

    pub fn set_coarse_x(&mut self, v: u16)
        ensures
            final(self).0 == ((old(self).0 & !0x1F) | (v & 0x1F)) as u16,
    {
        self.0 = (self.0 & !0x1F) | (v & 0x1F);
    }

    pub fn get_coarse_y(&self) -> (r: u16)
        ensures
            r == ((self.0 >> 5) & 0x1F) as u16,
    {
        (self.0 >> 5) & 0x1F
    }

    pub fn set_coarse_y(&mut self, v: u16)
        ensures
            final(self).0 == ((old(self).0 & !0x3E0) | ((v & 0x1F) << 5)) as u16,
    {
        self.0 = (self.0 & !0x3E0) | ((v & 0x1F) << 5);
    }

    pub fn get_nametable_x(&self) -> (r: bool)
        ensures
            r == ((self.0 >> 10) & 1 == 1),
    {
        (self.0 >> 10) & 1 == 1
    }

    pub fn set_nametable_x(&mut self, v: bool)
        ensures
            v ==> final(self).0 == (old(self).0 | 0x400) as u16,
            !v ==> final(self).0 == (old(self).0 & !0x400) as u16,
    {
        if v {
            self.0 = self.0 | 0x400;
        } else {
            self.0 = self.0 & !0x400;
        }
    }

    pub fn get_nametable_y(&self) -> (r: bool)
        ensures
            r == ((self.0 >> 11) & 1 == 1),
    {
        (self.0 >> 11) & 1 == 1
    }

    pub fn set_nametable_y(&mut self, v: bool)
        ensures
            v ==> final(self).0 == (old(self).0 | 0x800) as u16,
            !v ==> final(self).0 == (old(self).0 & !0x800) as u16,
    {
        if v {
            self.0 = self.0 | 0x800;
        } else {
            self.0 = self.0 & !0x800;
        }
    }

    pub fn get_nametable(&self) -> (r: u16)
        ensures
            r == ((self.0 >> 10) & 3) as u16,
    {
        (self.0 >> 10) & 3
    }

    pub fn set_nametable(&mut self, v: u16)
        ensures
            final(self).0 == ((old(self).0 & !0xC00) | ((v & 3) << 10)) as u16,
    {
        self.0 = (self.0 & !0xC00) | ((v & 3) << 10);
    }

    pub fn get_fine_y(&self) -> (r: u16)
        ensures
            r == ((self.0 >> 12) & 7) as u16,
    {
        (self.0 >> 12) & 7
    }

    pub fn set_fine_y(&mut self, v: u16)
        ensures
            final(self).0 == ((old(self).0 & !0x7000) | ((v & 7) << 12)) as u16,
    {
        self.0 = (self.0 & !0x7000) | ((v & 7) << 12);
    }

    /// The low twelve bits: where in the 4 KiB nametable window the word
    /// points during background fetches.
    pub fn get_nametable_lookup_addr(&self) -> (r: u16)
        ensures
            r == (self.0 & 0xFFF) as u16,
    {
        self.0 & 0xFFF
    }
}

/// A sprite's attribute byte: palette in bits 0..2, priority in bit 5,
/// flips in bits 6 and 7.
#[derive(Clone, Copy, Debug, PartialEq, Eq, Structural, Default)]
pub struct SpriteAttributes(pub u8);

impl SpriteAttributes {
    pub fn get_palette(&self) -> (r: u8)
        ensures
            r == (self.0 & 3) as u8,
    {
        self.0 & 3
    }

    pub fn get_priority(&self) -> (r: bool)
        ensures
            r == ((self.0 >> 5) & 1 == 1),
    {
        (self.0 >> 5) & 1 == 1
    }

    pub fn get_flip_horizontal(&self) -> (r: bool)
        ensures
            r == ((self.0 >> 6) & 1 == 1),
    {
        (self.0 >> 6) & 1 == 1
    }

    pub fn get_flip_vertical(&self) -> (r: bool)
        ensures
            r == ((self.0 >> 7) & 1 == 1),
    {
        (self.0 >> 7) & 1 == 1
    }
}

} // verus!
