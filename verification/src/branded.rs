//! Branded Types for V8 Memory Emulation.
//!
//! Newtype wrappers around raw memory addresses and Small Integers (Smis).
//! In V8, pointers are "tagged" to distinguish between heap objects and small
//! integers: the least significant bit is 0 for an Smi and 1 for a pointer to
//! a `HeapObject`.
//!
//! # Type Hierarchy
//! - `RawAddress`: A pure, untagged memory address (typically word-aligned).
//! - `Smi`: A 31-bit or 63-bit integer packed into a pointer-sized word.
//! - `TaggedAddress`: A word that may contain either an Smi or a tagged pointer
//!   to a `HeapObject`.
use vstd::prelude::*;
use vstd::string::*;
use crate::KernelResult;
use crate::dffdf::{FailureKind, FailureView, outcome};
use crate::text::{hex_width, dec_signed, push_hex, push_dec_signed};

pub mod fields;
pub mod pointer_compression;
pub mod alignment;

verus! {

/// Represents a raw, un-tagged memory address.
///
/// Raw addresses are expected to be word-aligned: on a 64-bit machine the
/// bottom 3 bits of an 8-byte aligned address are free for tagging.
#[derive(Copy, Clone, Debug, PartialEq, Eq, PartialOrd, Ord, Structural)]
pub struct RawAddress(pub usize);

/// Represents a Small Integer (Smi), stored shifted left by one bit so that
/// its least significant bit is 0.
#[derive(Copy, Clone, Debug, PartialEq, Eq, Structural)]
pub struct Smi(pub i32);

/// Represents a tagged memory address or an encoded Smi.
///
/// This is the primary type used for "values" in the simulation.
#[derive(Copy, Clone, Debug, PartialEq, Eq, Structural)]
pub struct TaggedAddress(pub usize);

impl RawAddress {
    /// Tags a raw address as a `HeapObject` (sets the least significant bit by adding 1).
    pub fn tag_object(self) -> (r: TaggedAddress)
        ensures r.0 == self.0.wrapping_add(1),
    {
        TaggedAddress(self.0.wrapping_add(1))
    }

    /// Creates a null raw address.
    pub fn null() -> (r: Self)
        ensures r.0 == 0,
    {
        RawAddress(0)
    }

    /// Checks if the address is null.
    pub fn is_null(self) -> (r: bool)
        ensures r == (self.0 == 0),
    {
        self.0 == 0
    }

    /// Aligns an address up to the next word boundary (8 bytes).
    ///
    /// The result is always 8-byte aligned; unless the addition wraps around,
    /// it is the smallest aligned address not below `self`.
    pub fn align_to_word(self) -> (r: Self)
        ensures
            r.0 == self.0.wrapping_add(7) & !7usize,
            r.0 % 8 == 0,
            self.0 <= usize::MAX - 7 ==> self.0 <= r.0 < self.0 + 8,
    {
        let r = self.0.wrapping_add(7) & !7usize;
        proof { lemma_round_up_word(self.0); }
        RawAddress(r)
    }

    /// The text form of the address: `Raw(0x` followed by 16 upper-case hex digits and `)`.
    pub fn to_string(&self) -> (r: String)
        ensures r@ == "Raw(0x"@ + hex_width(self.0 as nat, 16) + ")"@,
    {
        let mut s = String::new();
        s.append("Raw(0x");
        push_hex(&mut s, self.0 as u64, 16);
        s.append(")");
        s
    }
}

/// Rounding up to a multiple of 8 with wrapping addition gives an aligned
/// word, which lies in `[a, a + 8)` when the addition does not wrap.
pub proof fn lemma_round_up_word(a: usize)
    ensures
        (a.wrapping_add(7) & !7usize) % 8 == 0,
        a <= usize::MAX - 7 ==> a <= (a.wrapping_add(7) & !7usize) < a + 8,
{
    let w = a.wrapping_add(7);
    assert((w & !7usize) % 8 == 0) by (bit_vector);
    if a <= usize::MAX - 7 {
        assert(w == a + 7);
        assert(a <= (w & !7usize) && (w & !7usize) < a + 8) by (bit_vector)
            requires w == a + 7;
    }
}

impl Smi {
    /// The word that encodes `value`: the value, sign-extended to a word, shifted left by one bit
    /// (the top bit is shifted out).
    pub open spec fn spec_encode(value: i32) -> usize {
        (value as usize) << 1usize
    }

    /// The result of decoding a tagged word as an Smi.
    pub open spec fn spec_decode(tagged: TaggedAddress) -> Result<Smi, FailureView> {
        if tagged.0 & 1 == 0 {
            Ok(Smi((tagged.0 >> 1) as i32))
        } else {
            Err(FailureView::InvalidTag { address: tagged.0, expected_tag: 0, actual_tag: (tagged.0 & 1) as u8 })
        }
    }

    /// Encodes an i32 into a tagged Smi word (LSB 0).
    pub fn encode(value: i32) -> (r: TaggedAddress)
        ensures r.0 == Self::spec_encode(value),
    {
        TaggedAddress((value as usize) << 1usize)
    }

    /// Decodes a `TaggedAddress` back into an Smi.
    ///
    /// Returns `FailureKind::InvalidTag` if the word does not carry the Smi tag.
    pub fn decode(tagged: TaggedAddress) -> (r: KernelResult<Self>)
        ensures outcome(r) == Self::spec_decode(tagged),
    {
        if tagged.0 & 0x1 == 0 {
            Ok(Smi((tagged.0 >> 1) as i32))
        } else {
            Err(FailureKind::InvalidTag { address: tagged.0, expected_tag: 0, actual_tag: (tagged.0 & 0x1) as u8 })
        }
    }

    /// Returns the zero Smi.
    pub fn zero() -> (r: Self)
        ensures r.0 == 0,
    {
        Smi(0)
    }
}

/// Decoding an encoded integer gives it back, and the encoded word carries the
/// Smi tag. On a 64-bit machine this holds of every `i32`; on a 32-bit machine
/// of the non-negative values below 2^30.
pub proof fn lemma_smi_round_trip(value: i32)
    requires
        usize::BITS == 64 || (0 <= value < 0x4000_0000),
    ensures
        TaggedAddress(Smi::spec_encode(value)).spec_is_smi(),
        Smi::spec_decode(TaggedAddress(Smi::spec_encode(value))) == Ok::<Smi, FailureView>(Smi(value)),
{
    assert(((value as usize) << 1usize) & 1 == 0) by (bit_vector);
    if usize::BITS == 64 {
        assert(usize::BITS == 64 ==> ((((value as usize) << 1usize) >> 1usize) as i32) == value) by (bit_vector);
    } else {
        assert(0 <= value < 0x4000_0000 ==> ((((value as usize) << 1usize) >> 1usize) as i32) == value)
            by (bit_vector);
    }
}

impl TaggedAddress {
    /// Whether the word carries the Smi tag (LSB 0).
    pub open spec fn spec_is_smi(self) -> bool {
        self.0 & 1 == 0
    }

    /// The result of untagging a `HeapObject` word.
    pub open spec fn spec_untag_object(self) -> Result<RawAddress, FailureView> {
        if self.0 & 1 == 1 {
            Ok(RawAddress(self.0 & !1usize))
        } else {
            Err(FailureView::InvalidTag { address: self.0, expected_tag: 1, actual_tag: (self.0 & 1) as u8 })
        }
    }

    /// Checks if the tagged address is an Smi (LSB is 0).
    pub fn is_smi(self) -> (r: bool)
        ensures r == self.spec_is_smi(),
    {
        (self.0 & 0x1) == 0
    }

    /// Checks if the tagged address is a `HeapObject` (LSB is 1).
    pub fn is_heap_object(self) -> (r: bool)
        ensures r == (self.0 & 1 == 1),
    {
        (self.0 & 0x1) == 1
    }

    /// Untags a `HeapObject` address to get the raw memory location.
    ///
    /// Returns `FailureKind::InvalidTag` if the address is actually an Smi.
    pub fn untag_object(self) -> (r: KernelResult<RawAddress>)
        ensures outcome(r) == self.spec_untag_object(),
    {
        if self.is_heap_object() {
            Ok(RawAddress(self.0 & !0x1usize))
        } else {
            Err(FailureKind::InvalidTag { address: self.0, expected_tag: 1, actual_tag: (self.0 & 0x1) as u8 })
        }
    }

    /// Returns a null `TaggedAddress` (interpreted as an Smi 0).
    pub fn null() -> (r: Self)
        ensures r.0 == 0,
    {
        TaggedAddress(0)
    }

    /// The text form of the word: `Smi(n)` for an Smi, `Obj(0x...)` with the
    /// untagged address in 16 upper-case hex digits for a heap object.
    pub fn to_string(&self) -> (r: String)
        ensures
            self.spec_is_smi() ==> r@ == "Smi("@ + dec_signed(((self.0 >> 1) as i32) as int) + ")"@,
            !self.spec_is_smi() ==> r@ == "Obj(0x"@ + hex_width((self.0 & !1usize) as nat, 16) + ")"@,
    {
        let mut s = String::new();
        if self.is_smi() {
            s.append("Smi(");
            push_dec_signed(&mut s, ((self.0 >> 1) as i32) as i64);
            s.append(")");
        } else {
            s.append("Obj(0x");
            push_hex(&mut s, (self.0 & !0x1usize) as u64, 16);
            s.append(")");
        }
        s
    }
}

/// Every word is exactly one of an Smi and a heap object.
pub proof fn lemma_tag_exclusive(t: TaggedAddress)
    ensures t.spec_is_smi() != (t.0 & 1 == 1),
{
    let w = t.0;
    assert((w & 1 == 0) != (w & 1 == 1)) by (bit_vector);
}

/// Tagging an even raw address gives a heap-object word, and untagging it
/// gives the address back.
pub proof fn lemma_object_round_trip(a: RawAddress)
    requires a.0 % 2 == 0,
    ensures
        !TaggedAddress(a.0.wrapping_add(1)).spec_is_smi(),
        TaggedAddress(a.0.wrapping_add(1)).spec_untag_object() == Ok::<RawAddress, FailureView>(a),
{
    let x = a.0;
    assert(x < usize::MAX);
    let y = x.wrapping_add(1);
    assert(y == x + 1);
    assert(y & 1 == 1 && y & !1usize == x) by (bit_vector)
        requires y == x + 1, x % 2 == 0;
}

/// Bit-field manipulation for packing small values into a word.
///
/// The field occupies `SIZE` bits starting at bit `SHIFT`.
pub struct BitField<const SHIFT: u8, const SIZE: u8>;

/// Whether a field of `size` bits at `shift` can be described in a machine
/// word: both its width and its position are below the word's width. A field
/// that runs past the top of the word is allowed; its mask loses those bits.
pub open spec fn field_fits(shift: u8, size: u8) -> bool {
    &&& (size as u32) < usize::BITS
    &&& (shift as u32) < usize::BITS
}

/// Whether a field of `size` bits at `shift` lies wholly inside a machine word.
pub open spec fn field_in_word(shift: u8, size: u8) -> bool {
    &&& field_fits(shift, size)
    &&& (shift as u32) + (size as u32) <= usize::BITS
}

/// The mask of a field of `size` bits at `shift`: `size` one bits shifted up
/// by `shift`, the bits shifted past the top of the word dropped.
pub open spec fn field_mask(shift: u8, size: u8) -> usize {
    (((1usize << size) - 1) as usize) << shift
}

impl<const SHIFT: u8, const SIZE: u8> BitField<SHIFT, SIZE> {
    /// The bitmask for this field.
    pub fn mask() -> (m: usize)
        requires field_fits(SHIFT, SIZE),
        ensures m == field_mask(SHIFT, SIZE),
    {
        proof { lemma_low_mask_no_underflow(SIZE); }
        ((1usize << SIZE) - 1) << SHIFT
    }

    /// Decodes the field from a word.
    pub fn decode(value: usize) -> (r: usize)
        requires field_fits(SHIFT, SIZE),
        ensures r == (value & field_mask(SHIFT, SIZE)) >> SHIFT,
    {
        (value & Self::mask()) >> SHIFT
    }

    /// Encodes a value into the field's position.
    pub fn encode(value: usize) -> (r: usize)
        requires field_fits(SHIFT, SIZE),
        ensures r == (value << SHIFT) & field_mask(SHIFT, SIZE),
    {
        (value << SHIFT) & Self::mask()
    }

    /// Updates the field in an existing word.
    pub fn update(original: usize, value: usize) -> (r: usize)
        requires field_fits(SHIFT, SIZE),
        ensures r == (original & !field_mask(SHIFT, SIZE)) | ((value << SHIFT) & field_mask(SHIFT, SIZE)),
    {
        (original & !Self::mask()) | Self::encode(value)
    }
}

proof fn lemma_low_mask_no_underflow(size: u8)
    requires (size as u32) < usize::BITS,
    ensures (1usize << size) >= 1,
{
    assert((size as u32) < usize::BITS ==> (1usize << size) >= 1) by (bit_vector);
}

/// For a field inside the word: a field reads back what was written to it,
/// truncated to its width; writing a field leaves every other bit of the word
/// unchanged; and writing back the value read leaves the word unchanged.
pub proof fn lemma_bitfield_laws(shift: u8, size: u8, word: usize, value: usize)
    requires field_in_word(shift, size),
    ensures ({
        let m = field_mask(shift, size);
        let updated = (word & !m) | ((value << shift) & m);
        &&& (updated & m) >> shift == value & (((1usize << size) - 1) as usize)
        &&& updated & !m == word & !m
        &&& (word & !m) | ((((word & m) >> shift) << shift) & m) == word
    }),
{
    let s = shift as usize;
    let z = size as usize;
    assert(z < usize::BITS && s < usize::BITS && s + z <= usize::BITS ==> {
        let m = (((1usize << z) - 1) as usize) << s;
        let updated = (word & !m) | ((value << s) & m);
        &&& (updated & m) >> s == value & (((1usize << z) - 1) as usize)
        &&& updated & !m == word & !m
        &&& (word & !m) | ((((word & m) >> s) << s) & m) == word
    }) by (bit_vector);
}

/// Types that can be converted into a `TaggedAddress`.
pub trait ToTagged {
    /// Performs the conversion.
    fn to_tagged(&self) -> TaggedAddress;
}

impl ToTagged for Smi {
    fn to_tagged(&self) -> (r: TaggedAddress)
        ensures r.0 == Smi::spec_encode(self.0),
    {
        Smi::encode(self.0)
    }
}

impl ToTagged for RawAddress {
    fn to_tagged(&self) -> (r: TaggedAddress)
        ensures r.0 == self.0.wrapping_add(1),
    {
        self.tag_object()
    }
}

/// Provides deep inspection of a tagged address.
pub struct TagInspector;

/// The description of a word's tag.
pub open spec fn inspect_text(addr: TaggedAddress) -> Seq<char> {
    if addr.0 & 1 == 0 {
        "Type: Smi (Small Integer)"@
    } else if addr.0 & 3 == 1 {
        "Type: HeapObject"@
    } else if addr.0 & 3 == 3 {
        "Type: WeakReference"@
    } else {
        "Type: Unknown/Corrupt"@
    }
}

impl TagInspector {
    /// Returns a descriptive string explaining the tags of a given address.
    pub fn inspect(addr: TaggedAddress) -> (r: &'static str)
        ensures r@ == inspect_text(addr),
    {
        if addr.is_smi() {
            "Type: Smi (Small Integer)"
        } else {
            let tag = fields::TypeTag::decode(addr.0);
            let w = addr.0;
            assert((w & ((((1usize << 2usize) - 1) as usize) << 0usize)) >> 0usize == w & 3) by (bit_vector);
            assert(field_mask(0, 2) == ((((1usize << 2usize) - 1) as usize) << 0usize));
            match tag {
                1 => "Type: HeapObject",
                3 => "Type: WeakReference",
                _ => "Type: Unknown/Corrupt",
            }
        }
    }
}

/// Represents a Weak Reference: a raw address tagged with both low bits set.
pub struct WeakRef(pub RawAddress);

impl WeakRef {
    /// The result of untagging a weak-reference word.
    pub open spec fn spec_untag(tagged: TaggedAddress) -> Result<RawAddress, FailureView> {
        if tagged.0 & 3 == 3 {
            Ok(RawAddress(tagged.0 & !3usize))
        } else {
            Err(FailureView::InvalidTag { address: tagged.0, expected_tag: 3, actual_tag: (tagged.0 & 3) as u8 })
        }
    }

    /// Tags a raw address as a weak reference.
    pub fn tag(addr: RawAddress) -> (r: TaggedAddress)
        ensures r.0 == addr.0 | 3usize,
    {
        TaggedAddress(addr.0 | 0x3)
    }

    /// Clears the weak tag and returns the raw address.
    ///
    /// Returns `FailureKind::InvalidTag` unless both low bits are set.
    pub fn untag(tagged: TaggedAddress) -> (r: KernelResult<RawAddress>)
        ensures outcome(r) == Self::spec_untag(tagged),
    {
        if (tagged.0 & 0x3) == 0x3 {
            Ok(RawAddress(tagged.0 & !0x3usize))
        } else {
            Err(FailureKind::InvalidTag { address: tagged.0, expected_tag: 3, actual_tag: (tagged.0 & 0x3) as u8 })
        }
    }
}

/// Untagging a weak reference gives back the address with its two low bits
/// cleared; for a 4-byte aligned address, the address itself.
pub proof fn lemma_weak_round_trip(a: RawAddress)
    ensures
        WeakRef::spec_untag(TaggedAddress(a.0 | 3usize)) == Ok::<RawAddress, FailureView>(RawAddress(a.0 & !3usize)),
        a.0 % 4 == 0 ==> WeakRef::spec_untag(TaggedAddress(a.0 | 3usize)) == Ok::<RawAddress, FailureView>(a),
{
    let x = a.0;
    assert((x | 3usize) & 3 == 3 && (x | 3usize) & !3usize == x & !3usize) by (bit_vector);
    assert(x % 4 == 0 ==> x & !3usize == x) by (bit_vector);
}

} // verus!
