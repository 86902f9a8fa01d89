//! TypedArrays: array views on a buffer.
use vstd::prelude::*;
use crate::KernelResult;
use crate::heap::{Heap, ObjectIndex, InstanceType, MapIndex, build_object};
use crate::objects::built;
use crate::branded::TaggedAddress;

verus! {

/// The element types of typed arrays.
pub enum ExternalArrayType {
    Int8,
    Uint8,
    Uint8Clamped,
    Int16,
    Uint16,
    Int32,
    Uint32,
    Float32,
    Float64,
    BigInt64,
    BigUint64,
}

/// A typed array object.
pub struct JSTypedArray {
    pub index: ObjectIndex,
}

impl JSTypedArray {
    pub const BUFFER_SLOT: u32 = 0;
    pub const BYTE_OFFSET_SLOT: u32 = 1;
    pub const BYTE_LENGTH_SLOT: u32 = 2;
    pub const LENGTH_SLOT: u32 = 3;

    /// Creates a typed array on `buffer` (slot 0); its instance type is `JSArray`.
    pub fn new(heap: &mut Heap, map: MapIndex, buffer: TaggedAddress) -> (r: KernelResult<Self>)
        ensures (final(heap)@, built(r, |t: JSTypedArray| t.index)) == old(heap)@.build(InstanceType::JSArray, map,
            seq![(0u32, buffer)]),
    {
        let writes = [(Self::BUFFER_SLOT, buffer)];
        assert(writes@ =~= seq![(0u32, buffer)]);
        match build_object(heap, InstanceType::JSArray, map, &writes) {
            Ok(index) => Ok(JSTypedArray { index }),
            Err(e) => Err(e),
        }
    }
}

} // verus!
