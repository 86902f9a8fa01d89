//! Standardized V8-style field definitions.
use vstd::prelude::*;
use crate::branded::BitField;

verus! {

/// Type tag in the least significant bits (2 bits).
pub type TypeTag = BitField<0, 2>;

/// GC Color for Mark-and-Sweep algorithms (2 bits).
/// - 00: White (Unvisited)
/// - 01: Grey (To be visited)
/// - 10: Black (Visited)
pub type GCColor = BitField<2, 2>;

/// Hash code for object identity (24 bits).
pub type HashCode = BitField<4, 24>;

/// Generation age for Generational GC (4 bits).
pub type Age = BitField<28, 4>;

/// Protection flags for memory segments.
pub type ProtectionFlags = BitField<32, 4>;

} // verus!
