//! The 6502 register file and its status flags.

use vstd::prelude::*;

verus! {

/// Carry.
pub const CARRY: u8 = 0x01;

/// Zero.
pub const ZERO: u8 = 0x02;

/// Interrupt disable: masks IRQ, never NMI or reset.
pub const INTERRUPT_DISABLE: u8 = 0x04;

/// Decimal mode; latched but without arithmetic effect on this machine.
pub const DECIMAL: u8 = 0x08;

/// Break: set in the copy of the status pushed by `BRK`, clear in the
/// copy pushed when an interrupt is taken.
pub const BREAK: u8 = 0x10;

/// The unused bit; observably always set inside the CPU.
pub const UNUSED: u8 = 0x20;

/// Signed overflow.
pub const OVERFLOW: u8 = 0x40;

/// Negative: bit 7 of the last result.
pub const NEGATIVE: u8 = 0x80;

/// The processor status byte.
#[derive(Clone, Copy, Debug, PartialEq, Eq, Structural)]
pub struct StatusFlags {
    pub bits: u8,
}

impl StatusFlags {
    /// All the bits of `mask` are set.
    pub open spec fn spec_contains(&self, mask: u8) -> bool {
        self.bits & mask == mask
    }

    pub fn from_bits(bits: u8) -> (r: StatusFlags)
        ensures
            r.bits == bits,
    {
        StatusFlags { bits }
    }

    pub fn bits(&self) -> (r: u8)
        ensures
            r == self.bits,
    {
        self.bits
    }

    pub fn contains(&self, mask: u8) -> (r: bool)
        ensures
            r == self.spec_contains(mask),
    {
        self.bits & mask == mask
    }

    pub fn insert(&mut self, mask: u8)
        ensures
            final(self).bits == (old(self).bits | mask) as u8,
    {
        self.bits = self.bits | mask;
    }

    pub fn remove(&mut self, mask: u8)
        ensures
            final(self).bits == (old(self).bits & !mask) as u8,
    {
        self.bits = self.bits & !mask;
    }

    /// Set or clear all the bits of `mask` at once.
    pub fn set(&mut self, mask: u8, value: bool)
        ensures
            value ==> final(self).bits == (old(self).bits | mask) as u8,
            !value ==> final(self).bits == (old(self).bits & !mask) as u8,
    {
        if value {
            self.insert(mask);
        } else {
            self.remove(mask);
        }
    }
}

impl Default for StatusFlags {
    /// Power-on status: only the unused bit.
    fn default() -> (r: StatusFlags)
        ensures
            r.bits == UNUSED,
    {
        StatusFlags { bits: UNUSED }
    }
}

/// The CPU registers.
#[derive(Clone, Copy, Debug, PartialEq, Eq, Structural)]
pub struct Registers {
    pub a: u8,
    pub x: u8,
    pub y: u8,
    pub pc: u16,
    pub sp: u8,
    pub status: StatusFlags,
}

impl Default for Registers {
    /// Power-on registers: everything zero but the unused status bit.
    fn default() -> (r: Registers)
        ensures
            r.a == 0 && r.x == 0 && r.y == 0 && r.pc == 0 && r.sp == 0,
            r.status.bits == UNUSED,
    {
        Registers { a: 0, x: 0, y: 0, pc: 0, sp: 0, status: StatusFlags { bits: UNUSED } }
    }
}

} // verus!
