//! The one error type that every fallible operation of the emulator core
//! reports, together with the kinds it wraps.

use vstd::prelude::*;
use crate::cart::cart::PpuMemoryError;
use crate::cpu::isa::Instr;
use crate::mem::error::MemoryError;

verus! {

/// Everything that can go wrong while building or running the machine.
///
/// Bus decode gaps and register-direction violations arrive as [`MemoryError`]
/// (CPU side) or [`PpuMemoryError`] (PPU side). `InvalidOpcode` carries the
/// offending byte and the address it was fetched from; `InvalidInstruction`
/// a decoded instruction whose operation and mode do not belong together.
/// `UnsupportedRom` and `BadPalette` are construction-time refusals.
#[derive(Clone, Copy, Debug, PartialEq, Eq, Structural)]
pub enum NesError {
    Mem(MemoryError),
    PpuMem(PpuMemoryError),
    InvalidOpcode(u8, u16),
    InvalidInstruction(Instr),
    UnsupportedRom,
    BadPalette,
}

} // verus!
