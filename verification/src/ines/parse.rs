//! Decoder for the iNES / NES 2.0 cartridge file format: a 16-byte header,
//! an optional 512-byte trainer, then PRG-ROM and CHR-ROM images.

use vstd::prelude::*;
use crate::error::NesError;

verus! {

/// How the cartridge wires the two physical nametables into the four
/// logical ones.
#[derive(Clone, Copy, Debug, PartialEq, Eq, Structural)]
pub enum MirrorType {
    Horizontal,
    Vertical,
    OneScreenLow,
    OneScreenHigh,
}

/// The region timing named by the header; only NTSC machines are emulated.
#[derive(Clone, Copy, Debug, PartialEq, Eq, Structural)]
pub enum TimingMode {
    Ntsc,
    Pal,
    MultiRegion,
    Dendy,
}

/// Every header field the core consumes, already decoded to plain values.
#[derive(Clone, Copy, Debug, PartialEq, Eq, Structural)]
pub struct INesHeader {
    pub prg_rom_size: u32,
    pub chr_rom_size: u32,
    pub prg_ram_size: u32,
    pub prg_nvram_size: u32,
    pub chr_ram_size: u32,
    pub chr_nvram_size: u32,
    pub mirror_type: MirrorType,
    pub battery_present: bool,
    pub trainer: bool,
    pub four_screen: bool,
    pub is_ines2: bool,
    pub console_type: u8,
    pub mapper: u16,
    pub submapper: u8,
    pub tv_system: u8,
    pub timing: TimingMode,
}

/// A parsed cartridge file: the header plus the raw memory images.
pub struct INesFile {
    pub header: INesHeader,
    pub trainer: Option<Vec<u8>>,
    pub prg_rom: Vec<u8>,
    pub chr_rom: Vec<u8>,
}

/// PRG-ROM sizes count in 16 KiB units.
pub const PRG_ROM_FACTOR: u32 = 16384;

/// CHR-ROM sizes count in 8 KiB units.
pub const CHR_ROM_FACTOR: u32 = 8192;

/// RAM size nibbles shift this base.
pub const RAM_SIZE_SHIFT: u32 = 64;

/// The ROM size named by a size LSB and an iNES 2 MSB nibble, in bytes.
/// Values up to `0xEFF` count in units of `factor`; larger values use the
/// iNES 2 exponent form `2^e * (m * 2 + 1)`. `None` when the named size
/// does not fit in 32 bits.
pub open spec fn spec_rom_size(lsb: u8, msb: u8, factor: u32) -> Option<u32> {
    let size = ((lsb as u32) | ((msb as u32) << 8)) as u32;
    if size <= 0xEFF {
        Some((size * factor) as u32)
    } else {
        let e = (size >> 2) & 0x3F;
        let m = size & 0x3;
        if e >= 32 {
            None
        } else {
            let v = (1u64 << e) * ((m * 2 + 1) as u64);
            if v > 0xFFFF_FFFF {
                None
            } else {
                Some(v as u32)
            }
        }
    }
}

/// The RAM size named by a header nibble: zero stays zero, otherwise
/// [`RAM_SIZE_SHIFT`] shifted by the nibble.
pub open spec fn spec_ram_size(shift: u8) -> u32 {
    if shift == 0 {
        0u32
    } else {
        (RAM_SIZE_SHIFT << (shift as u32)) as u32
    }
}

impl INesFile {
    /// Decode a ROM size field, as [`spec_rom_size`] says.
    pub fn actual_rom_size(lsb: u8, msb: u8, factor: u32) -> (r: Option<u32>)
        requires
            factor == PRG_ROM_FACTOR || factor == CHR_ROM_FACTOR,
        ensures
            r == spec_rom_size(lsb, msb, factor),
    {
        let size: u32 = (lsb as u32) | ((msb as u32) << 8);
        proof {
            assert(size <= 0xFFFF) by (bit_vector)
                requires
                    size == (lsb as u32) | ((msb as u32) << 8),
            ;
        }
        if size <= 0xEFF {
            Some(size * factor)
        } else {
            let e: u32 = (size >> 2) & 0x3F;
            let m: u32 = size & 0x3;
            proof {
                assert(e < 64 && m <= 3) by (bit_vector)
                    requires
                        e == (size >> 2) & 0x3F && m == size & 0x3,
                ;
            }
            if e >= 32 {
                None
            } else {
                proof {
                    assert((1u64 << e) <= 0x8000_0000u64) by (bit_vector)
                        requires
                            e < 32u32,
                    ;
                }
                let base: u64 = 1u64 << e;
                let mult: u64 = (m * 2 + 1) as u64;
                proof {
                    assert(base * mult <= 0x8000_0000u64 * 7) by (nonlinear_arith)
                        requires
                            base <= 0x8000_0000u64,
                            mult <= 7u64,
                    ;
                }
                let v: u64 = base * mult;
                if v > 0xFFFF_FFFF {
                    None
                } else {
                    Some(v as u32)
                }
            }
        }
    }

    /// Decode a RAM size nibble, as [`spec_ram_size`] says.
    pub fn actual_ram_size(shift: u8) -> (r: u32)
        requires
            shift <= 15,
        ensures
            r == spec_ram_size(shift),
    {
        if shift == 0 {
            0
        } else {
            RAM_SIZE_SHIFT << (shift as u32)
        }
    }
}

/// Bit `i` of a header byte.
pub open spec fn spec_bit(b: u8, i: u8) -> bool {
    b >> i & 1 == 1
}

/// The mapper number assembled from flags 6, 7 and 8.
pub open spec fn spec_mapper(f6: u8, f7: u8, f8: u8) -> u16 {
    (((f6 >> 4) as u16) | ((f7 & 0xF0) as u16) | (((f8 & 0xF) as u16) << 8)) as u16
}

/// The header is an iNES 2 header when bits 2..4 of flags 7 read `0b10`.
pub open spec fn spec_is_ines2(f7: u8) -> bool {
    (f7 >> 2) & 3 == 2
}

/// The timing named by the two low bits of flags 12.
pub open spec fn spec_timing(f12: u8) -> TimingMode {
    if f12 & 3 == 0 {
        TimingMode::Ntsc
    } else if f12 & 3 == 1 {
        TimingMode::Pal
    } else if f12 & 3 == 2 {
        TimingMode::MultiRegion
    } else {
        TimingMode::Dendy
    }
}

impl INesFile {
    /// Whether the first four bytes read `N`, `E`, `S`, `0x1A`.
    pub open spec fn spec_magic_ok(bytes: Seq<u8>) -> bool {
        bytes.len() >= 4 && bytes[0] == 0x4E && bytes[1] == 0x45 && bytes[2] == 0x53
            && bytes[3] == 0x1A
    }

    /// Decode the 16-byte header. Errors on a short input, a bad magic, or
    /// a ROM size field that overflows 32 bits; otherwise every field holds
    /// exactly what the format assigns to it.
    pub fn parse_header(bytes: &[u8]) -> (r: Result<INesHeader, NesError>)
        ensures
            ({
                let f7 = bytes@[7];
                let f9 = bytes@[9];
                let prg_msb = if spec_is_ines2(f7) { (f9 & 0xF) as u8 } else { 0u8 };
                let chr_msb = if spec_is_ines2(f7) { (f9 >> 4) as u8 } else { 0u8 };
                r is Ok <==> (bytes@.len() >= 16 && Self::spec_magic_ok(bytes@)
                    && spec_rom_size(bytes@[4], prg_msb, PRG_ROM_FACTOR) is Some
                    && spec_rom_size(bytes@[5], chr_msb, CHR_ROM_FACTOR) is Some)
            }),
            r is Err ==> r == Err::<INesHeader, NesError>(NesError::UnsupportedRom),
            r matches Ok(h) ==> {
                let f6 = bytes@[6];
                let f7 = bytes@[7];
                let f8 = bytes@[8];
                let f9 = bytes@[9];
                let f10 = bytes@[10];
                let f11 = bytes@[11];
                let f12 = bytes@[12];
                let prg_msb = if spec_is_ines2(f7) { (f9 & 0xF) as u8 } else { 0u8 };
                let chr_msb = if spec_is_ines2(f7) { (f9 >> 4) as u8 } else { 0u8 };
                &&& Some(h.prg_rom_size) == spec_rom_size(bytes@[4], prg_msb, PRG_ROM_FACTOR)
                &&& Some(h.chr_rom_size) == spec_rom_size(bytes@[5], chr_msb, CHR_ROM_FACTOR)
                &&& h.prg_ram_size == spec_ram_size((f10 & 0xF) as u8)
                &&& h.prg_nvram_size == spec_ram_size((f10 >> 4) as u8)
                &&& h.chr_ram_size == spec_ram_size((f11 & 0xF) as u8)
                &&& h.chr_nvram_size == spec_ram_size((f11 >> 4) as u8)
                &&& h.mirror_type == (if spec_bit(f6, 0) {
                    MirrorType::Vertical
                } else {
                    MirrorType::Horizontal
                })
                &&& h.battery_present == spec_bit(f6, 1)
                &&& h.trainer == spec_bit(f6, 2)
                &&& h.four_screen == spec_bit(f6, 3)
                &&& h.is_ines2 == spec_is_ines2(f7)
                &&& h.console_type == (f7 & 3) as u8
                &&& h.mapper == spec_mapper(f6, f7, f8)
                &&& h.submapper == (f8 >> 4) as u8
                &&& h.tv_system == (f12 & 3) as u8
                &&& h.timing == spec_timing(f12)
            },
    {
        if bytes.len() < 16 {
            return Err(NesError::UnsupportedRom);
        }
        if !(bytes[0] == 0x4E && bytes[1] == 0x45 && bytes[2] == 0x53 && bytes[3] == 0x1A) {
            return Err(NesError::UnsupportedRom);
        }
        let prg_rom_size_lsb = bytes[4];
        let chr_rom_size_lsb = bytes[5];
        let flags6 = bytes[6];
        let flags7 = bytes[7];
        let flags8 = bytes[8];
        let flags9 = bytes[9];
        let flags10 = bytes[10];
        let flags11 = bytes[11];
        let flags12 = bytes[12];

        let is_ines2 = (flags7 >> 2) & 3 == 2;
        let (prg_rom_size_msb, chr_rom_size_msb) = if is_ines2 {
            (flags9 & 0xF, flags9 >> 4)
        } else {
            (0u8, 0u8)
        };

        let prg_rom_size = match Self::actual_rom_size(
            prg_rom_size_lsb,
            prg_rom_size_msb,
            PRG_ROM_FACTOR,
        ) {
            Some(s) => s,
            None => {
                return Err(NesError::UnsupportedRom);
            },
        };
        let chr_rom_size = match Self::actual_rom_size(
            chr_rom_size_lsb,
            chr_rom_size_msb,
            CHR_ROM_FACTOR,
        ) {
            Some(s) => s,
            None => {
                return Err(NesError::UnsupportedRom);
            },
        };

        let mapper = ((flags6 >> 4) as u16) | ((flags7 & 0xF0) as u16) | (((flags8 & 0xF) as u16)
            << 8);

        proof {
            crate::bits::lemma_bit_bounds();
        }

        Ok(
            INesHeader {
                prg_rom_size,
                chr_rom_size,
                prg_ram_size: Self::actual_ram_size(flags10 & 0xF),
                prg_nvram_size: Self::actual_ram_size(flags10 >> 4),
                chr_ram_size: Self::actual_ram_size(flags11 & 0xF),
                chr_nvram_size: Self::actual_ram_size(flags11 >> 4),
                mirror_type: if flags6 & 1 == 1 {
                    MirrorType::Vertical
                } else {
                    MirrorType::Horizontal
                },
                battery_present: (flags6 >> 1) & 1 == 1,
                trainer: (flags6 >> 2) & 1 == 1,
                four_screen: (flags6 >> 3) & 1 == 1,
                is_ines2,
                console_type: flags7 & 3,
                mapper,
                submapper: flags8 >> 4,
                tv_system: flags12 & 3,
                timing: if flags12 & 3 == 0 {
                    TimingMode::Ntsc
                } else if flags12 & 3 == 1 {
                    TimingMode::Pal
                } else if flags12 & 3 == 2 {
                    TimingMode::MultiRegion
                } else {
                    TimingMode::Dendy
                },
            },
        )
    }

    /// Copy `bytes[start..start + n]` into a fresh vector.
    fn take_range(bytes: &[u8], start: usize, n: usize) -> (r: Vec<u8>)
        requires
            start + n <= bytes@.len(),
        ensures
            r@ == bytes@.subrange(start as int, start + n),
    {
        let total = bytes.len();
        let mut out: Vec<u8> = Vec::new();
        let mut i: usize = 0;
        while i < n
            invariant
                total == bytes@.len(),
                start + n <= bytes@.len(),
                i <= n,
                out@ == bytes@.subrange(start as int, start + i),
            decreases n - i,
        {
            out.push(bytes[start + i]);
            proof {
                assert(out@ =~= bytes@.subrange(start as int, start + i + 1));
            }
            i += 1;
        }
        out
    }

    /// Decode a whole cartridge file: header, then the optional 512-byte
    /// trainer, then the PRG and CHR images whose lengths the header gives.
    /// Errors when the header is refused or the file is shorter than the
    /// images it promises.
    pub fn parse_from(bytes: &[u8]) -> (r: Result<INesFile, NesError>)
        ensures
            r matches Ok(f) ==> {
                &&& Self::spec_magic_ok(bytes@)
                &&& f.header.trainer ==> ({
                    &&& f.trainer matches Some(t)
                    &&& t@ == bytes@.subrange(16, 528)
                })
                &&& !f.header.trainer ==> f.trainer is None
                &&& {
                    let off = if f.header.trainer { 16 + 512int } else { 16int };
                    f.prg_rom@ == bytes@.subrange(off, off + f.header.prg_rom_size)
                        && f.chr_rom@ == bytes@.subrange(
                        off + f.header.prg_rom_size,
                        off + f.header.prg_rom_size + f.header.chr_rom_size,
                    )
                }
            },
    {
        let header = Self::parse_header(bytes)?;
        let mut offset: usize = 16;

        let trainer: Option<Vec<u8>> = if header.trainer {
            if bytes.len() < offset + 512 {
                return Err(NesError::UnsupportedRom);
            }
            let t = Self::take_range(bytes, offset, 512);
            offset += 512;
            Some(t)
        } else {
            None
        };

        let prg_len = header.prg_rom_size as usize;
        let chr_len = header.chr_rom_size as usize;
        if (bytes.len() as u64) < offset as u64 + prg_len as u64 + chr_len as u64 {
            return Err(NesError::UnsupportedRom);
        }
        let prg_rom = Self::take_range(bytes, offset, prg_len);
        let chr_rom = Self::take_range(bytes, offset + prg_len, chr_len);

        Ok(INesFile { header, trainer, prg_rom, chr_rom })
    }

    /// [`INesFile::parse_from`] on a whole file held in a vector.
    pub fn try_from(file: &Vec<u8>) -> (r: Result<INesFile, NesError>)
        ensures
            r matches Ok(f) ==> Self::spec_magic_ok(file@),
    {
        Self::parse_from(file.as_slice())
    }
}

} // verus!
