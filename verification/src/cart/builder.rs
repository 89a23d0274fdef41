//! From a parsed cartridge file to a live cartridge.

use vstd::prelude::*;
use crate::error::NesError;
use crate::ines::parse::{INesFile, TimingMode};
use crate::cart::cart::Cartridge;
use crate::cart::mapper0::build_nrom_cart;
use crate::cart::mapper1::build_mmc1_cart;

verus! {

/// Build the cartridge a parsed file describes. Non-NTSC timing and any
/// mapper other than NROM (0) and MMC1 (1) are refused as unsupported, as
/// are images whose sizes the chosen mapper cannot take.
pub fn build_cartridge(rom: &INesFile) -> (r: Result<Cartridge, NesError>)
    ensures
        r is Ok <==> rom.header.timing == TimingMode::Ntsc && ((rom.header.mapper == 0 && (
        rom.prg_rom@.len() == 16384 || rom.prg_rom@.len() == 32768) && (rom.chr_rom@.len() == 0
            || rom.chr_rom@.len() == 8192)) || (rom.header.mapper == 1 && 16384
            <= rom.prg_rom@.len() <= 0x80000 && rom.chr_rom@.len() <= 0x20000)),
        rom.header.timing == TimingMode::Ntsc && rom.header.mapper == 0 && (rom.prg_rom@.len()
            == 16384 || rom.prg_rom@.len() == 32768) && (rom.chr_rom@.len() == 0
            || rom.chr_rom@.len() == 8192) ==> ({
            &&& r matches Ok(c)
            &&& c matches Cartridge::Nrom(n)
            &&& n.prg_rom@ == rom.prg_rom@
            &&& n.chr_rom@ == rom.chr_rom@
            &&& n.mirroring == rom.header.mirror_type
        }),
        rom.header.timing == TimingMode::Ntsc && rom.header.mapper == 1 && 16384
            <= rom.prg_rom@.len() <= 0x80000 && rom.chr_rom@.len() <= 0x20000 ==> ({
            &&& r matches Ok(c)
            &&& c matches Cartridge::Mmc1(m)
            &&& m.prg_rom@ == rom.prg_rom@
            &&& m.chr_rom@ == rom.chr_rom@
        }),
        r matches Ok(c) ==> (c.wf()),
        r is Err ==> r == Err::<Cartridge, NesError>(NesError::UnsupportedRom),
{
    if !(rom.header.timing == TimingMode::Ntsc) {
        Err(NesError::UnsupportedRom)
    } else if rom.header.mapper == 0 {
        build_nrom_cart(rom.prg_rom.as_slice(), rom.chr_rom.as_slice(), rom.header.mirror_type)
    } else if rom.header.mapper == 1 {
        build_mmc1_cart(rom.prg_rom.as_slice(), rom.chr_rom.as_slice())
    } else {
        Err(NesError::UnsupportedRom)
    }
}

} // verus!
