//! Small facts about bitwise operations that the address decoders lean on.

use vstd::prelude::*;

verus! {

/// Masking can only shrink a value, and shifting right never grows it.
pub proof fn lemma_bit_bounds()
    by (bit_vector)
    ensures
        forall|a: u16, m: u16| #[trigger] (a & m) <= m,
        forall|a: u16, m: u16| (a & m) <= a,
        forall|a: u8, m: u8| #[trigger] (a & m) <= m,
        forall|a: u8, m: u8| (a & m) <= a,
        forall|a: u16, k: u16| #[trigger] (a >> k) <= a,
        forall|a: u8, k: u8| #[trigger] (a >> k) <= a,
        forall|a: u8| #[trigger] (a >> 4) < 16,
        forall|a: u8| #[trigger] (a >> 0) == a,
        forall|a: u8, m: u8| #[trigger] ((a | m) | m) == (a | m),
        forall|a: u16, b: u16| #[trigger] (a | b) <= a + b,
        forall|a: u8| #[trigger] ((a | 0x40) >> 7) == (a >> 7),
{
}

} // verus!
