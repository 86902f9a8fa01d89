//! Memory barriers for the concurrent garbage collector.
//!
//! When a pointer in the heap is modified, the GC must learn of pointers
//! from the old generation into the new one.
use vstd::prelude::*;
use crate::heap::{Heap, ObjectIndex};
use crate::branded::TaggedAddress;

verus! {

/// The generational write barrier; the simulation records nothing and leaves
/// the heap unchanged.
pub fn write_barrier(_heap: &mut Heap, _host: ObjectIndex, _value: TaggedAddress)
    ensures final(_heap)@ == old(_heap)@,
{
}

} // verus!
