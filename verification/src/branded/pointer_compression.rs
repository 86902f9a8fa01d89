//! Compressed pointers: a tagged word stored as a 32-bit offset from the base
//! of the pointer cage.
use vstd::prelude::*;
use crate::branded::TaggedAddress;

verus! {

/// Compresses a tagged word into its low 32 bits.
pub fn compress(_base: usize, addr: TaggedAddress) -> (r: u32)
    ensures r == (addr.0 & 0xFFFF_FFFFusize) as u32,
{
    (addr.0 & 0xFFFF_FFFFusize) as u32
}

/// Decompresses a 32-bit offset into a full tagged word within the cage at `base`.
pub fn decompress(base: usize, compressed: u32) -> (r: TaggedAddress)
    ensures r.0 == base | (compressed as usize),
{
    TaggedAddress(base | (compressed as usize))
}

/// A word that lies in the cage at `base` (a base whose low 32 bits are
/// clear) decompresses back to itself after compression.
pub proof fn lemma_compression_round_trip(base: usize, addr: TaggedAddress)
    requires
        base & 0xFFFF_FFFFusize == 0,
        addr.0 & !0xFFFF_FFFFusize == base,
    ensures
        base | (((addr.0 & 0xFFFF_FFFFusize) as u32) as usize) == addr.0,
{
    let a = addr.0;
    assert(base & 0xFFFF_FFFFusize == 0 && a & !0xFFFF_FFFFusize == base ==>
        base | (((a & 0xFFFF_FFFFusize) as u32) as usize) == a) by (bit_vector);
}

/// For a cage base whose low 32 bits are clear: decompressing any offset
/// gives the base plus that offset, and compressing the result gives the
/// offset back; and every word in `[base, base + 2^32)` comes back to itself
/// after compression and decompression.
pub proof fn lemma_compression_laws(base: usize, c: u32, addr: TaggedAddress)
    requires
        base & 0xFFFF_FFFFusize == 0,
    ensures
        base | (c as usize) == base + c,
        (((base | (c as usize)) & 0xFFFF_FFFFusize) as u32) == c,
        base <= addr.0 < base + 0x1_0000_0000 ==> base | (((addr.0 & 0xFFFF_FFFFusize) as u32) as usize) == addr.0,
{
    let a = addr.0;
    assert(base & 0xFFFF_FFFFusize == 0 ==> base | (c as usize) == base + c
        && (((base | (c as usize)) & 0xFFFF_FFFFusize) as u32) == c) by (bit_vector);
    assert(base & 0xFFFF_FFFFusize == 0 && base <= a && a - base < 0x1_0000_0000
        ==> base | (((a & 0xFFFF_FFFFusize) as u32) as usize) == a) by (bit_vector);
}

} // verus!
