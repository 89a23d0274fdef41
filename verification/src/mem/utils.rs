//! Helpers for assembling and splitting 16-bit bus addresses.

use vstd::prelude::*;

verus! {

/// The high byte of a 16-bit address.
pub fn hi_byte(addr: u16) -> (r: u8)
    ensures
        r == ((addr >> 8) & 0xFF) as u8,
{
    ((addr >> 8) & 0xFF) as u8
}

/// The low byte of a 16-bit address.
pub fn lo_byte(addr: u16) -> (r: u8)
    ensures
        r == (addr & 0xFF) as u8,
{
    (addr & 0xFF) as u8
}

/// The address whose low byte is `lo` and whose high byte is `hi`.
pub open spec fn spec_make_address(lo: u8, hi: u8) -> u16 {
    (((hi as u16) << 8) | (lo as u16)) as u16
}

/// Assemble a little-endian byte pair into one 16-bit address.
pub fn make_address(lo: u8, hi: u8) -> (r: u16)
    ensures
        r == spec_make_address(lo, hi),
        r == hi as u16 * 256 + lo as u16,
{
    let r: u16 = ((hi as u16) << 8) & 0xFF00 | ((lo as u16) & 0xFF);
    proof {
        assert(r == spec_make_address(lo, hi) && r == hi * 256 + lo) by (bit_vector)
            requires
                r == ((hi as u16) << 8) & 0xFF00 | ((lo as u16) & 0xFF),
        ;
    }
    r
}

/// The page (high byte, kept in place) of an address.
pub fn page_num(addr: u16) -> (r: u16)
    ensures
        r == (addr & 0xFF00) as u16,
{
    addr & 0xFF00
}

/// Overwrite the low byte of `x`, keeping the high byte.
pub fn set_low_byte(x: &mut u16, lsb: u8)
    ensures
        *final(x) == ((*old(x) & 0xFF00) | (lsb as u16)) as u16,
{
    *x = (*x & 0xFF00) | (lsb as u16)
}

/// A vector of `n` zero bytes.
pub fn zero_vec(n: usize) -> (r: Vec<u8>)
    ensures
        r@.len() == n,
        forall|i: int| 0 <= i < n ==> r@[i] == 0u8,
{
    let mut v: Vec<u8> = Vec::new();
    let mut i: usize = 0;
    while i < n
        invariant
            i <= n,
            v@.len() == i,
            forall|j: int| 0 <= j < i ==> v@[j] == 0u8,
        decreases n - i,
    {
        v.push(0);
        i += 1;
    }
    v
}

/// A vector holding a copy of `bytes`.
pub fn vec_of(bytes: &[u8]) -> (r: Vec<u8>)
    ensures
        r@ == bytes@,
{
    let mut v: Vec<u8> = Vec::new();
    let mut i: usize = 0;
    while i < bytes.len()
        invariant
            i <= bytes@.len(),
            v@ == bytes@.subrange(0, i as int),
        decreases bytes@.len() - i,
    {
        v.push(bytes[i]);
        proof {
            assert(v@ =~= bytes@.subrange(0, i + 1));
        }
        i += 1;
    }
    proof {
        assert(v@ =~= bytes@);
    }
    v
}

} // verus!
