//! Word alignment of heap addresses.
//!
//! All heap allocations are word-aligned (8 bytes).
use vstd::prelude::*;

verus! {

/// The alignment of heap allocations, in bytes.
pub const ALIGNMENT: usize = 8;

/// Whether `addr` is a multiple of `ALIGNMENT`.
pub fn is_aligned(addr: usize) -> (r: bool)
    ensures r == (addr % 8 == 0),
{
    addr % ALIGNMENT == 0
}

/// Rounds `addr` up to a multiple of `ALIGNMENT`, with wrapping addition.
///
/// The result is always aligned; unless the addition wraps around, it is
/// the smallest aligned address not below `addr`.
pub fn round_up(addr: usize) -> (r: usize)
    ensures
        r == addr.wrapping_add(7) & !7usize,
        r % 8 == 0,
        addr <= usize::MAX - 7 ==> addr <= r < addr + 8,
{
    proof { crate::branded::lemma_round_up_word(addr); }
    addr.wrapping_add(ALIGNMENT.wrapping_sub(1)) & !ALIGNMENT.wrapping_sub(1)
}

} // verus!
