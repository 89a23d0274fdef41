//! Errors raised by the CPU-side memory bus and its devices.

use vstd::prelude::*;
use crate::error::NesError;

verus! {

/// A CPU bus access that could not be served: a decode gap, or a register
/// accessed against its direction.
#[derive(Clone, Copy, Debug, PartialEq, Eq, Structural)]
pub enum MemoryError {
    ReadOnly(u16),
    WriteOnly(u16),
    InvalidAddress(u16),
}

/// The error for a read or write of an address no device decodes.
pub fn inv_addr(addr: u16) -> (r: NesError)
    ensures
        r == NesError::Mem(MemoryError::InvalidAddress(addr)),
{
    NesError::Mem(MemoryError::InvalidAddress(addr))
}

/// The error for a write to a read-only location.
pub fn rd_only(addr: u16) -> (r: NesError)
    ensures
        r == NesError::Mem(MemoryError::ReadOnly(addr)),
{
    NesError::Mem(MemoryError::ReadOnly(addr))
}

/// The error for a read of a write-only register.
pub fn wr_only(addr: u16) -> (r: NesError)
    ensures
        r == NesError::Mem(MemoryError::WriteOnly(addr)),
{
    NesError::Mem(MemoryError::WriteOnly(addr))
}

} // verus!
