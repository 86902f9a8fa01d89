//! V8-style Heap Memory Management.
//!
//! A managed heap laid out as a Structure of Arrays (SoA): every "object" is
//! an index into parallel arrays of metadata, and its properties and elements
//! are ranges of two flat buffers (`properties_data`, `elements_data`), found
//! through per-object offsets and lengths.
//!
//! A property can be overwritten in place, or appended as the slot right
//! after the object's last one when the object's range ends at the tail of the
//! buffer; every other write past an object's end is refused, so no write
//! reaches into another object's data.
use vstd::prelude::*;
use vstd::string::*;
use crate::KernelResult;
use crate::dffdf::{FailureKind, FailureView, outcome};
use crate::branded::TaggedAddress;
use crate::text::{dec, push_dec};

verus! {

/// Newtype for an index into the Heap's object arrays.
#[derive(Copy, Clone, Debug, PartialEq, Eq, PartialOrd, Ord, Structural)]
pub struct ObjectIndex(pub u32);

/// Newtype for a Map (Shape) index.
#[derive(Copy, Clone, Debug, PartialEq, Eq, Structural)]
pub struct MapIndex(pub u32);

/// Represents the type of a HeapObject in the V8 simulation.
#[derive(Debug, Copy, Clone, PartialEq, Eq, Structural)]
pub enum InstanceType {
    JSObject,
    JSArray,
    JSPromise,
    String,
    /// A Map (hidden class) object.
    MapObject,
    InternalizedString,
    SharedFunctionInfo,
    FeedbackVector,
    Oddball,
    FixedArray,
    ByteArray,
}

/// Represents a segment of memory (Page) in the V8 heap.
pub struct MemorySegment {
    pub start_address: usize,
    pub size: usize,
    pub used_bytes: usize,
    pub protection: ProtectionFlags,
}

/// Simulated protection flags for a memory segment.
pub struct ProtectionFlags {
    pub readable: bool,
    pub writable: bool,
    pub executable: bool,
}

/// The Heap structure using Structure of Arrays (SoA).
pub struct Heap {
    // --- Metadata SoA ---
    pub instance_types: Vec<InstanceType>,
    pub map_indices: Vec<MapIndex>,
    pub tagged_addresses: Vec<TaggedAddress>,
    pub ages: Vec<u8>,
    pub marking_state: Vec<u8>,

    // --- Property Storage SoA ---
    pub properties_offsets: Vec<u32>,
    pub properties_lengths: Vec<u32>,
    pub properties_data: Vec<TaggedAddress>,

    // --- Element Storage SoA ---
    pub elements_offsets: Vec<u32>,
    pub elements_lengths: Vec<u32>,
    pub elements_data: Vec<TaggedAddress>,

    // --- Memory Segments ---
    pub segments: Vec<MemorySegment>,

    // --- Statistics & Limits ---
    pub max_objects: usize,
    pub allocated_bytes: usize,
    pub gc_count: u32,
    pub peak_memory: usize,
}

/// The contents of a heap: each array as a sequence.
pub struct HeapView {
    pub instance_types: Seq<InstanceType>,
    pub map_indices: Seq<MapIndex>,
    pub tagged_addresses: Seq<TaggedAddress>,
    pub ages: Seq<u8>,
    pub marking_state: Seq<u8>,
    pub properties_offsets: Seq<u32>,
    pub properties_lengths: Seq<u32>,
    pub properties_data: Seq<TaggedAddress>,
    pub elements_offsets: Seq<u32>,
    pub elements_lengths: Seq<u32>,
    pub elements_data: Seq<TaggedAddress>,
    pub segments: Seq<MemorySegment>,
    pub max_objects: usize,
    pub allocated_bytes: usize,
    pub gc_count: u32,
    pub peak_memory: usize,
}

impl View for Heap {
    type V = HeapView;

    open spec fn view(&self) -> HeapView {
        HeapView {
            instance_types: self.instance_types@,
            map_indices: self.map_indices@,
            tagged_addresses: self.tagged_addresses@,
            ages: self.ages@,
            marking_state: self.marking_state@,
            properties_offsets: self.properties_offsets@,
            properties_lengths: self.properties_lengths@,
            properties_data: self.properties_data@,
            elements_offsets: self.elements_offsets@,
            elements_lengths: self.elements_lengths@,
            elements_data: self.elements_data@,
            segments: self.segments@,
            max_objects: self.max_objects,
            allocated_bytes: self.allocated_bytes,
            gc_count: self.gc_count,
            peak_memory: self.peak_memory,
        }
    }
}

/// An out-of-bounds failure with its context text.
pub open spec fn oob(index: int, limit: int, context: Seq<char>) -> FailureView {
    FailureView::OutOfBounds { index: index as usize, limit: limit as usize, context }
}

/// The data index of a slot: the object's offset plus the slot, wrapping at 32 bits.
pub open spec fn slot_index(offset: u32, slot: u32) -> int {
    offset.wrapping_add(slot) as int
}

/// The message of a refused property growth.
pub open spec fn growth_message(idx: int) -> Seq<char> {
    "In-place property growth violation for Object "@ + dec(idx as nat)
}

impl HeapView {
    /// Number of objects allocated so far.
    pub open spec fn object_count(self) -> int {
        self.instance_types.len() as int
    }

    /// The heap after allocating one object, and the allocation's outcome.
    pub open spec fn allocate(self, instance_type: InstanceType, map_index: MapIndex) -> (HeapView, Result<ObjectIndex, FailureView>) {
        if self.instance_types.len() >= self.max_objects {
            (self, Err(FailureView::HeapExhausted { requested: 1, available: 0 }))
        } else {
            let id = self.instance_types.len() as u32;
            let raw_offset = (id as usize).wrapping_mul(32);
            let allocated = self.allocated_bytes.wrapping_add(32);
            (HeapView {
                instance_types: self.instance_types.push(instance_type),
                map_indices: self.map_indices.push(map_index),
                tagged_addresses: self.tagged_addresses.push(TaggedAddress(raw_offset | 1usize)),
                ages: self.ages.push(0),
                marking_state: self.marking_state.push(0),
                properties_offsets: self.properties_offsets.push(self.properties_data.len() as u32),
                properties_lengths: self.properties_lengths.push(0),
                elements_offsets: self.elements_offsets.push(self.elements_data.len() as u32),
                elements_lengths: self.elements_lengths.push(0),
                allocated_bytes: allocated,
                peak_memory: if allocated > self.peak_memory { allocated } else { self.peak_memory },
                ..self
            }, Ok(ObjectIndex(id)))
        }
    }

    /// The outcome of reading property `slot` of object `id`.
    pub open spec fn get_property(self, id: ObjectIndex, slot: u32) -> Result<TaggedAddress, FailureView> {
        let idx = id.0 as int;
        if idx >= self.properties_offsets.len() {
            Err(oob(idx, self.properties_offsets.len() as int, "Heap::get_property (offset retrieval)"@))
        } else if idx >= self.properties_lengths.len() {
            Err(oob(idx, self.properties_lengths.len() as int, "Heap::get_property (length retrieval)"@))
        } else {
            let offset = self.properties_offsets[idx];
            let length = self.properties_lengths[idx];
            if slot >= length {
                Err(oob(slot as int, length as int, "Heap::get_property (slot bounds check)"@))
            } else {
                let d = slot_index(offset, slot);
                if d < self.properties_data.len() {
                    Ok(self.properties_data[d])
                } else {
                    Err(oob(d, self.properties_data.len() as int, "Heap::get_property (global data bounds check)"@))
                }
            }
        }
    }

    /// The heap after writing property `slot` of object `id`, and the write's outcome.
    ///
    /// A slot below the object's length is overwritten in place. The slot
    /// equal to the length is appended when the object's range ends the
    /// buffer, which grows the object by one. Any other slot at or past the
    /// length is refused (code 501) and nothing changes.
    pub open spec fn set_property(self, id: ObjectIndex, slot: u32, value: TaggedAddress) -> (HeapView, Result<(), FailureView>) {
        let idx = id.0 as int;
        if idx >= self.properties_offsets.len() {
            (self, Err(oob(idx, self.properties_offsets.len() as int, "Heap::set_property (offset retrieval)"@)))
        } else if idx >= self.properties_lengths.len() {
            (self, Err(oob(idx, self.properties_lengths.len() as int, "Heap::set_property (length retrieval)"@)))
        } else {
            let offset = self.properties_offsets[idx];
            let length = self.properties_lengths[idx];
            let d = slot_index(offset, slot);
            if slot >= length {
                if slot == length && offset + length == self.properties_data.len() {
                    (HeapView {
                        properties_data: self.properties_data.push(value),
                        properties_lengths: self.properties_lengths.update(idx, length.wrapping_add(1)),
                        ..self
                    }, Ok(()))
                } else {
                    (self, Err(FailureView::SystemError { code: 501, message: growth_message(idx) }))
                }
            } else if d < self.properties_data.len() {
                (HeapView { properties_data: self.properties_data.update(d, value), ..self }, Ok(()))
            } else {
                (self, Err(oob(d, self.properties_data.len() as int, "Heap::set_property (data overwrite)"@)))
            }
        }
    }

    /// The outcome of reading the instance type of object `id`.
    pub open spec fn get_instance_type(self, id: ObjectIndex) -> Result<InstanceType, FailureView> {
        if (id.0 as int) < self.instance_types.len() {
            Ok(self.instance_types[id.0 as int])
        } else {
            Err(oob(id.0 as int, self.instance_types.len() as int, "Heap::get_instance_type"@))
        }
    }

    /// Writes `writes` in order to object `id`, stopping at the first failure.
    pub open spec fn set_properties(self, id: ObjectIndex, writes: Seq<(u32, TaggedAddress)>) -> (HeapView, Result<(), FailureView>)
        decreases writes.len(),
    {
        if writes.len() == 0 {
            (self, Ok(()))
        } else {
            let (h, r) = self.set_properties(id, writes.drop_last());
            match r {
                Ok(_) => h.set_property(id, writes.last().0, writes.last().1),
                Err(e) => (h, Err(e)),
            }
        }
    }

    /// Allocates an object of type `t` with map `m`, then writes `writes` to it
    /// in order, stopping at the first failure (the object stays allocated).
    pub open spec fn build(self, t: InstanceType, m: MapIndex, writes: Seq<(u32, TaggedAddress)>) -> (HeapView, Result<ObjectIndex, FailureView>) {
        let (h, r) = self.allocate(t, m);
        match r {
            Ok(id) => {
                let (h2, r2) = h.set_properties(id, writes);
                match r2 {
                    Ok(_) => (h2, Ok(id)),
                    Err(e) => (h2, Err(e)),
                }
            },
            Err(e) => (h, Err(e)),
        }
    }

    /// The per-object arrays all have one entry per object.
    pub open spec fn arrays_consistent(self) -> bool {
        let n = self.instance_types.len();
        &&& self.map_indices.len() == n
        &&& self.tagged_addresses.len() == n
        &&& self.ages.len() == n
        &&& self.marking_state.len() == n
        &&& self.properties_offsets.len() == n
        &&& self.properties_lengths.len() == n
        &&& self.elements_offsets.len() == n
        &&& self.elements_lengths.len() == n
    }

    /// Object `i`'s property range lies within the property buffer.
    pub open spec fn props_in_bounds(self, i: int) -> bool {
        self.properties_offsets[i] + self.properties_lengths[i] <= self.properties_data.len()
    }

    /// The property ranges of objects `i` and `j` do not overlap.
    pub open spec fn props_disjoint(self, i: int, j: int) -> bool {
        ||| self.properties_offsets[i] + self.properties_lengths[i] <= self.properties_offsets[j]
        ||| self.properties_offsets[j] + self.properties_lengths[j] <= self.properties_offsets[i]
        ||| self.properties_lengths[i] == 0
        ||| self.properties_lengths[j] == 0
    }

    /// A well-formed heap: consistent arrays, buffers addressable with 32-bit
    /// offsets, and property ranges in bounds and pairwise disjoint.
    pub open spec fn wf(self) -> bool {
        &&& self.arrays_consistent()
        &&& self.properties_data.len() <= u32::MAX
        &&& self.elements_data.len() <= u32::MAX
        &&& self.instance_types.len() <= u32::MAX
        &&& forall|i: int| 0 <= i < self.object_count() ==> #[trigger] self.props_in_bounds(i)
        &&& forall|i: int, j: int| 0 <= i < self.object_count() && 0 <= j < self.object_count() && i != j
            ==> #[trigger] self.props_disjoint(i, j)
    }
}

/// A read gives back what a write wrote: after a successful write, reading
/// that slot returns the written value, as long as the property buffer is
/// addressable with 32-bit offsets and an appended slot leaves the object
/// shorter than `u32::MAX` slots.
pub proof fn lemma_read_after_write(h: HeapView, id: ObjectIndex, slot: u32, value: TaggedAddress)
    requires
        h.set_property(id, slot, value).1 is Ok,
        h.properties_data.len() <= u32::MAX,
        (id.0 as int) < h.properties_lengths.len() && slot == h.properties_lengths[id.0 as int]
            ==> h.properties_lengths[id.0 as int] < u32::MAX,
    ensures
        h.set_property(id, slot, value).0.get_property(id, slot) == Ok::<TaggedAddress, FailureView>(value),
{
}

/// On a well-formed heap, a write to one object leaves every read of every
/// other object unchanged.
pub proof fn lemma_write_isolation(h: HeapView, id: ObjectIndex, slot: u32, value: TaggedAddress, other: ObjectIndex, other_slot: u32)
    requires
        h.wf(),
        other != id,
        (other.0 as int) < h.object_count(),
    ensures
        h.set_property(id, slot, value).0.get_property(other, other_slot) == h.get_property(other, other_slot),
{
    let (h2, r) = h.set_property(id, slot, value);
    let o = other.0 as int;
    let i = id.0 as int;
    if r is Ok && other_slot < h.properties_lengths[o] {
        assert(h.props_in_bounds(o));
        let d2 = slot_index(h.properties_offsets[o], other_slot);
        assert(d2 == h.properties_offsets[o] + other_slot);
        if slot < h.properties_lengths[i] {
            assert(h.props_in_bounds(i));
            assert(h.props_disjoint(i, o));
            let d = slot_index(h.properties_offsets[i], slot);
            assert(d == h.properties_offsets[i] + slot);
            assert(d != d2);
        }
    }
}

/// Allocation leaves every read of an existing object unchanged, and the new
/// object has no readable property.
pub proof fn lemma_allocate_preserves_reads(h: HeapView, t: InstanceType, m: MapIndex, id: ObjectIndex, slot: u32)
    requires
        h.arrays_consistent(),
        h.object_count() <= u32::MAX,
    ensures
        (id.0 as int) < h.object_count() ==> h.allocate(t, m).0.get_property(id, slot) == h.get_property(id, slot),
        h.allocate(t, m).1 matches Ok(new_id) ==> h.allocate(t, m).0.get_property(new_id, slot) is Err,
{
    let (h2, r) = h.allocate(t, m);
    if (id.0 as int) < h.object_count() && r is Ok {
        assert(h2.properties_offsets[id.0 as int] == h.properties_offsets[id.0 as int]);
        assert(h2.properties_lengths[id.0 as int] == h.properties_lengths[id.0 as int]);
    }
    if let Ok(new_id) = r {
        assert(new_id.0 as int == h.object_count());
        assert(h2.properties_lengths[new_id.0 as int] == 0);
    }
}

/// What allocation does: it succeeds exactly while fewer than `max_objects`
/// objects exist, and then the new object is the next index, recorded with
/// the given instance type and the given map, with no properties and no
/// elements, while every existing object keeps its type and its map; a
/// refused allocation reports `HeapExhausted` and changes nothing.
pub proof fn lemma_allocate_records_object(h: HeapView, t: InstanceType, m: MapIndex)
    requires
        h.arrays_consistent(),
        h.object_count() <= u32::MAX,
    ensures ({
        let (h2, r) = h.allocate(t, m);
        &&& r is Ok <==> h.object_count() < h.max_objects
        &&& r is Err ==> h2 == h && r == Err::<ObjectIndex, FailureView>(FailureView::HeapExhausted { requested: 1, available: 0 })
        &&& r matches Ok(id) ==> {
            let i = id.0 as int;
            &&& i == h.object_count()
            &&& h2.object_count() == h.object_count() + 1
            &&& h2.arrays_consistent()
            &&& h2.instance_types[i] == t
            &&& h2.map_indices[i] == m
            &&& h2.get_instance_type(id) == Ok::<InstanceType, FailureView>(t)
            &&& h2.properties_lengths[i] == 0
            &&& h2.elements_lengths[i] == 0
            &&& forall|j: int| 0 <= j < h.object_count() ==>
                #[trigger] h2.instance_types[j] == h.instance_types[j] && h2.map_indices[j] == h.map_indices[j]
        }
    }),
{
}

/// Allocation keeps a heap well formed while fewer than `u32::MAX` objects exist.
pub proof fn lemma_allocate_preserves_wf(h: HeapView, t: InstanceType, m: MapIndex)
    requires
        h.wf(),
        h.object_count() < u32::MAX,
    ensures
        h.allocate(t, m).0.wf(),
{
    let (h2, r) = h.allocate(t, m);
    if r is Ok {
        let n = h.object_count();
        assert forall|i: int| 0 <= i < h2.object_count() implies #[trigger] h2.props_in_bounds(i) by {
            if i < n { assert(h.props_in_bounds(i)); }
        }
        assert forall|i: int, j: int| 0 <= i < h2.object_count() && 0 <= j < h2.object_count() && i != j
            implies #[trigger] h2.props_disjoint(i, j) by {
            if i < n && j < n { assert(h.props_disjoint(i, j)); }
        }
    }
}

/// Every write keeps a well-formed heap well formed, as long as the buffer
/// stays addressable with 32-bit offsets.
pub proof fn lemma_set_preserves_wf(h: HeapView, id: ObjectIndex, slot: u32, value: TaggedAddress)
    requires
        h.wf(),
        h.properties_data.len() < u32::MAX,
    ensures
        h.set_property(id, slot, value).0.wf(),
{
    let (h2, r) = h.set_property(id, slot, value);
    let i = id.0 as int;
    if r is Ok && slot >= h.properties_lengths[i] {
        assert(h.props_in_bounds(i));
        assert(h.properties_offsets[i] + h.properties_lengths[i] == h.properties_data.len());
        assert forall|k: int| 0 <= k < h2.object_count() implies #[trigger] h2.props_in_bounds(k) by {
            assert(h.props_in_bounds(k));
        }
        assert forall|a: int, b: int| 0 <= a < h2.object_count() && 0 <= b < h2.object_count() && a != b
            implies #[trigger] h2.props_disjoint(a, b) by {
            assert(h.props_disjoint(a, b));
            assert(h.props_in_bounds(a));
            assert(h.props_in_bounds(b));
        }
    } else if r is Ok {
        assert forall|k: int| 0 <= k < h2.object_count() implies #[trigger] h2.props_in_bounds(k) by {
            assert(h.props_in_bounds(k));
        }
        assert forall|a: int, b: int| 0 <= a < h2.object_count() && 0 <= b < h2.object_count() && a != b
            implies #[trigger] h2.props_disjoint(a, b) by {
            assert(h.props_disjoint(a, b));
        }
    }
}

proof fn lemma_set_properties_sequential(h: HeapView, id: ObjectIndex, writes: Seq<(u32, TaggedAddress)>, start: nat)
    requires
        h.wf(),
        (id.0 as int) < h.object_count(),
        h.properties_lengths[id.0 as int] == start,
        h.properties_offsets[id.0 as int] + start == h.properties_data.len(),
        h.properties_data.len() + writes.len() <= u32::MAX,
        forall|k: int| 0 <= k < writes.len() ==> (#[trigger] writes[k]).0 == start + k,
    ensures ({
        let (h2, r) = h.set_properties(id, writes);
        &&& r is Ok
        &&& h2.wf()
        &&& h2.properties_lengths[id.0 as int] == start + writes.len()
        &&& h2.properties_offsets == h.properties_offsets
        &&& h2.properties_data.len() == h.properties_data.len() + writes.len()
        &&& h2.instance_types == h.instance_types
        &&& forall|k: int| 0 <= k < writes.len() ==> h2.get_property(id, (start + k) as u32) == Ok::<TaggedAddress, FailureView>(#[trigger] writes[k].1)
        &&& forall|o: ObjectIndex, s: u32| o != id && (o.0 as int) < h.object_count()
            ==> #[trigger] h2.get_property(o, s) == h.get_property(o, s)
    }),
    decreases writes.len(),
{
    if writes.len() > 0 {
        let init = writes.drop_last();
        let w = writes.last();
        assert forall|k: int| 0 <= k < init.len() implies (#[trigger] init[k]).0 == start + k by {
            assert(init[k] == writes[k]);
        }
        lemma_set_properties_sequential(h, id, init, start);
        let (h1, r1) = h.set_properties(id, init);
        let n = init.len();
        assert(w == writes[n as int]);
        assert(w.0 == start + n);
        assert(slot_index(h1.properties_offsets[id.0 as int], w.0) == h1.properties_data.len());
        lemma_set_preserves_wf(h1, id, w.0, w.1);
        lemma_read_after_write(h1, id, w.0, w.1);
        let (h2, r2) = h1.set_property(id, w.0, w.1);
        assert(r2 is Ok);
        assert forall|k: int| 0 <= k < writes.len() implies h2.get_property(id, (start + k) as u32) == Ok::<TaggedAddress, FailureView>(#[trigger] writes[k].1) by {
            if k < n {
                assert(writes[k] == init[k]);
                assert(h1.get_property(id, (start + k) as u32) == Ok::<TaggedAddress, FailureView>(init[k].1));
                assert(h1.props_in_bounds(id.0 as int));
                let d = slot_index(h1.properties_offsets[id.0 as int], (start + k) as u32);
                assert(d == h1.properties_offsets[id.0 as int] + start + k);
            }
        }
        assert forall|o: ObjectIndex, s: u32| o != id && (o.0 as int) < h.object_count()
            implies #[trigger] h2.get_property(o, s) == h.get_property(o, s) by {
            lemma_write_isolation(h1, id, w.0, w.1, o, s);
        }
    }
}

/// Building an object whose writes fill slots 0, 1, 2, ... in order succeeds on
/// a well-formed heap with room for one more object and for the properties:
/// the new object is the next index, reads back each written value, the heap
/// stays well formed, and no other object's reads change.
pub proof fn lemma_build_sequential(h: HeapView, t: InstanceType, m: MapIndex, writes: Seq<(u32, TaggedAddress)>)
    requires
        h.wf(),
        h.object_count() < h.max_objects,
        h.object_count() < u32::MAX,
        h.properties_data.len() + writes.len() <= u32::MAX,
        forall|k: int| 0 <= k < writes.len() ==> (#[trigger] writes[k]).0 == k,
    ensures ({
        let (h2, r) = h.build(t, m, writes);
        &&& r == Ok::<ObjectIndex, FailureView>(ObjectIndex(h.object_count() as u32))
        &&& h2.wf()
        &&& h2.get_instance_type(ObjectIndex(h.object_count() as u32)) == Ok::<InstanceType, FailureView>(t)
        &&& forall|k: int| 0 <= k < writes.len() ==>
            h2.get_property(ObjectIndex(h.object_count() as u32), k as u32) == Ok::<TaggedAddress, FailureView>(#[trigger] writes[k].1)
        &&& forall|o: ObjectIndex, s: u32| (o.0 as int) < h.object_count() ==> #[trigger] h2.get_property(o, s) == h.get_property(o, s)
        &&& h2.object_count() == h.object_count() + 1
        &&& h2.properties_data.len() == h.properties_data.len() + writes.len()
    }),
{
    let (h1, r1) = h.allocate(t, m);
    let id = ObjectIndex(h.object_count() as u32);
    assert(r1 == Ok::<ObjectIndex, FailureView>(id));
    lemma_allocate_preserves_wf(h, t, m);
    lemma_set_properties_sequential(h1, id, writes, 0);
    let (h2, r2) = h1.set_properties(id, writes);
    assert forall|k: int| 0 <= k < writes.len() implies
        h2.get_property(id, k as u32) == Ok::<TaggedAddress, FailureView>(#[trigger] writes[k].1) by {
        assert(h2.get_property(id, (0 + k) as u32) == Ok::<TaggedAddress, FailureView>(writes[k].1));
    }
    assert forall|o: ObjectIndex, s: u32| (o.0 as int) < h.object_count() implies #[trigger] h2.get_property(o, s) == h.get_property(o, s) by {
        lemma_allocate_preserves_reads(h, t, m, o, s);
        assert(o != id);
    }
}

impl Heap {
    /// Creates a new empty Heap that holds at most `max_objects` objects.
    ///
    /// The arrays are reserved up front (eight elements per object for the
    /// largest), which needs the reservation to stay within `isize::MAX` bytes.
    pub fn new(max_objects: usize) -> (r: Self)
        requires
            max_objects * 8 * (usize::BITS / 8) <= isize::MAX,
        ensures
            r@ == (HeapView {
                instance_types: Seq::empty(),
                map_indices: Seq::empty(),
                tagged_addresses: Seq::empty(),
                ages: Seq::empty(),
                marking_state: Seq::empty(),
                properties_offsets: Seq::empty(),
                properties_lengths: Seq::empty(),
                properties_data: Seq::empty(),
                elements_offsets: Seq::empty(),
                elements_lengths: Seq::empty(),
                elements_data: Seq::empty(),
                segments: Seq::empty(),
                max_objects,
                allocated_bytes: 0,
                gc_count: 0,
                peak_memory: 0,
            }),
            r@.wf(),
    {
        Heap {
            instance_types: Vec::with_capacity(max_objects),
            map_indices: Vec::with_capacity(max_objects),
            tagged_addresses: Vec::with_capacity(max_objects),
            ages: Vec::with_capacity(max_objects),
            marking_state: Vec::with_capacity(max_objects),
            properties_offsets: Vec::with_capacity(max_objects),
            properties_lengths: Vec::with_capacity(max_objects),
            properties_data: Vec::with_capacity(max_objects.wrapping_mul(4)),
            elements_offsets: Vec::with_capacity(max_objects),
            elements_lengths: Vec::with_capacity(max_objects),
            elements_data: Vec::with_capacity(max_objects.wrapping_mul(8)),
            segments: Vec::new(),
            max_objects,
            allocated_bytes: 0,
            gc_count: 0,
            peak_memory: 0,
        }
    }

    /// Allocates a new object slot in the heap.
    ///
    /// Returns `FailureKind::HeapExhausted` when `max_objects` objects exist.
    pub fn allocate_object(&mut self, instance_type: InstanceType, map_index: MapIndex) -> (r: KernelResult<ObjectIndex>)
        ensures (final(self)@, outcome(r)) == old(self)@.allocate(instance_type, map_index),
    {
        if self.instance_types.len() >= self.max_objects {
            return Err(FailureKind::HeapExhausted { requested: 1, available: 0 });
        }
        let id = self.instance_types.len() as u32;
        self.instance_types.push(instance_type);
        self.map_indices.push(map_index);
        self.ages.push(0);
        self.marking_state.push(0);

        let raw_offset = (id as usize).wrapping_mul(32);
        self.tagged_addresses.push(TaggedAddress(raw_offset | 0x1));

        let poff = self.properties_data.len() as u32;
        self.properties_offsets.push(poff);
        self.properties_lengths.push(0);

        let eoff = self.elements_data.len() as u32;
        self.elements_offsets.push(eoff);
        self.elements_lengths.push(0);

        self.allocated_bytes = self.allocated_bytes.wrapping_add(32);
        if self.allocated_bytes > self.peak_memory {
            self.peak_memory = self.allocated_bytes;
        }
        Ok(ObjectIndex(id))
    }

    /// Reads property `slot` of object `id`.
    ///
    /// Returns `FailureKind::OutOfBounds` when the object, the slot or the
    /// data index is out of range.
    pub fn get_property(&self, id: ObjectIndex, slot: u32) -> (r: KernelResult<TaggedAddress>)
        ensures outcome(r) == self@.get_property(id, slot),
    {
        let idx = id.0 as usize;
        if idx >= self.properties_offsets.len() {
            return Err(FailureKind::OutOfBounds {
                index: idx,
                limit: self.properties_offsets.len(),
                context: "Heap::get_property (offset retrieval)",
            });
        }
        let offset = self.properties_offsets[idx];
        if idx >= self.properties_lengths.len() {
            return Err(FailureKind::OutOfBounds {
                index: idx,
                limit: self.properties_lengths.len(),
                context: "Heap::get_property (length retrieval)",
            });
        }
        let length = self.properties_lengths[idx];
        if slot >= length {
            return Err(FailureKind::OutOfBounds {
                index: slot as usize,
                limit: length as usize,
                context: "Heap::get_property (slot bounds check)",
            });
        }
        let data_idx = offset.wrapping_add(slot) as usize;
        if data_idx < self.properties_data.len() {
            Ok(self.properties_data[data_idx])
        } else {
            Err(FailureKind::OutOfBounds {
                index: data_idx,
                limit: self.properties_data.len(),
                context: "Heap::get_property (global data bounds check)",
            })
        }
    }

    /// Writes property `slot` of object `id` (see `HeapView::set_property`).
    ///
    /// Returns `FailureKind::OutOfBounds` for an unknown object or data index,
    /// and `FailureKind::SystemError` (code 501) for a slot past the object's
    /// end other than the next one, or when the object does not end the buffer.
    pub fn set_property(&mut self, id: ObjectIndex, slot: u32, value: TaggedAddress) -> (r: KernelResult<()>)
        ensures (final(self)@, outcome(r)) == old(self)@.set_property(id, slot, value),
    {
        let idx = id.0 as usize;
        if idx >= self.properties_offsets.len() {
            return Err(FailureKind::OutOfBounds {
                index: idx,
                limit: self.properties_offsets.len(),
                context: "Heap::set_property (offset retrieval)",
            });
        }
        let offset = self.properties_offsets[idx];
        if idx >= self.properties_lengths.len() {
            return Err(FailureKind::OutOfBounds {
                index: idx,
                limit: self.properties_lengths.len(),
                context: "Heap::set_property (length retrieval)",
            });
        }
        let current_length = self.properties_lengths[idx];
        let data_idx = offset.wrapping_add(slot) as usize;
        if slot >= current_length {
            if slot == current_length && (offset as u64) + (current_length as u64) == self.properties_data.len() as u64 {
                self.properties_data.push(value);
                self.properties_lengths.set(idx, current_length.wrapping_add(1));
                Ok(())
            } else {
                let mut message = String::new();
                message.append("In-place property growth violation for Object ");
                push_dec(&mut message, idx as u64);
                Err(FailureKind::SystemError { code: 501, message })
            }
        } else if data_idx < self.properties_data.len() {
            self.properties_data.set(data_idx, value);
            Ok(())
        } else {
            Err(FailureKind::OutOfBounds {
                index: data_idx,
                limit: self.properties_data.len(),
                context: "Heap::set_property (data overwrite)",
            })
        }
    }

    /// Reads the instance type of object `id`.
    pub fn get_instance_type(&self, id: ObjectIndex) -> (r: KernelResult<InstanceType>)
        ensures outcome(r) == self@.get_instance_type(id),
    {
        let idx = id.0 as usize;
        if idx < self.instance_types.len() {
            Ok(self.instance_types[idx])
        } else {
            Err(FailureKind::OutOfBounds {
                index: idx,
                limit: self.instance_types.len(),
                context: "Heap::get_instance_type",
            })
        }
    }

    /// Counts of objects, properties and elements, and memory statistics.
    pub fn get_stats(&self) -> (r: HeapStats)
        ensures
            r.object_count == self.instance_types@.len(),
            r.property_count == self.properties_data@.len(),
            r.element_count == self.elements_data@.len(),
            r.memory_usage_bytes == self.allocated_bytes,
            r.peak_memory_bytes == self.peak_memory,
            r.gc_cycles == self.gc_count,
    {
        HeapStats {
            object_count: self.instance_types.len(),
            property_count: self.properties_data.len(),
            element_count: self.elements_data.len(),
            memory_usage_bytes: self.allocated_bytes,
            peak_memory_bytes: self.peak_memory,
            gc_cycles: self.gc_count,
        }
    }
}

/// Allocates an object of type `t` with map `map`, then writes `writes` to it
/// in order; the first failure is returned (the object stays allocated).
pub(crate) fn build_object(heap: &mut Heap, t: InstanceType, map: MapIndex, writes: &[(u32, TaggedAddress)]) -> (r: KernelResult<ObjectIndex>)
    ensures (final(heap)@, outcome(r)) == old(heap)@.build(t, map, writes@),
{
    let index = match heap.allocate_object(t, map) {
        Ok(i) => i,
        Err(e) => return Err(e),
    };
    let ghost h1 = heap@;
    let mut i: usize = 0;
    assert(writes@.take(0) =~= Seq::<(u32, TaggedAddress)>::empty());
    while i < writes.len()
        invariant
            0 <= i <= writes.len(),
            old(heap)@.allocate(t, map) == (h1, Ok::<ObjectIndex, FailureView>(index)),
            h1.set_properties(index, writes@.take(i as int)) == (heap@, Ok::<(), FailureView>(())),
        decreases writes.len() - i,
    {
        let (slot, value) = writes[i];
        let r = heap.set_property(index, slot, value);
        assert(writes@.take(i + 1).drop_last() =~= writes@.take(i as int));
        assert(writes@.take(i + 1).last() == writes@[i as int]);
        match r {
            Ok(_) => {},
            Err(e) => {
                proof {
                    let k = (i + 1) as int;
                    assert(h1.set_properties(index, writes@.take(k)) == (heap@, Err::<(), FailureView>(e@)));
                    lemma_set_properties_stops(h1, index, writes@, k);
                }
                return Err(e);
            },
        }
        i = i + 1;
    }
    assert(writes@.take(writes@.len() as int) =~= writes@);
    Ok(index)
}

/// Once a write fails, the later writes are not made.
proof fn lemma_set_properties_stops(h: HeapView, id: ObjectIndex, writes: Seq<(u32, TaggedAddress)>, k: int)
    requires
        0 < k <= writes.len(),
        h.set_properties(id, writes.take(k)).1 is Err,
    ensures
        h.set_properties(id, writes) == h.set_properties(id, writes.take(k)),
    decreases writes.len() - k,
{
    if k < writes.len() {
        let next = writes.take(k + 1);
        assert(next.drop_last() =~= writes.take(k));
        lemma_set_properties_stops(h, id, writes, k + 1);
    } else {
        assert(writes.take(k) =~= writes);
    }
}

/// Represents a 4-level Page Table (simulated).
pub struct PageTable {
    pub l4_table: Vec<u64>,
    pub l3_tables: Vec<Vec<u64>>,
    pub l2_tables: Vec<Vec<u64>>,
    pub l1_tables: Vec<Vec<u64>>,
    pub total_mappings: u64,
}

/// The highest address of the mapped lower half (exclusive).
pub open spec fn mapped_limit() -> u64 {
    0x0000_7FFF_FFFF_FFFF
}

impl PageTable {
    /// Creates a new page table hierarchy with an empty top-level table of 512 entries.
    pub fn new() -> (r: Self)
        ensures
            r.l4_table@ == Seq::new(512, |i: int| 0u64),
            r.l3_tables@.len() == 0,
            r.l2_tables@.len() == 0,
            r.l1_tables@.len() == 0,
            r.total_mappings == 0,
    {
        let l4 = vec![0u64; 512];
        assert(l4@ =~= Seq::new(512, |i: int| 0u64));
        PageTable { l4_table: l4, l3_tables: Vec::new(), l2_tables: Vec::new(), l1_tables: Vec::new(), total_mappings: 0 }
    }

    /// Simulates a virtual-to-physical address translation.
    ///
    /// Addresses below `0x7FFF_FFFF_FFFF` are mapped to the address with bits
    /// 32..47 flipped by `0x5555_0000_0000`; higher addresses are a page fault,
    /// `FailureKind::SystemError` with code 502.
    pub fn translate_address(&self, virtual_addr: usize) -> (r: KernelResult<usize>)
        ensures
            (virtual_addr as u64) < mapped_limit() ==> r == Ok::<usize, FailureKind>(((virtual_addr as u64) ^ 0x5555_0000_0000u64) as usize),
            (virtual_addr as u64) >= mapped_limit() ==> outcome(r) == Err::<usize, FailureView>(FailureView::SystemError {
                code: 502,
                message: "Kernel Page Fault: Attempted to access unmapped virtual memory"@,
            }),
    {
        let va = virtual_addr as u64;
        if va < 0x0000_7FFF_FFFF_FFFFu64 {
            Ok((va ^ 0x5555_0000_0000u64) as usize)
        } else {
            Err(FailureKind::SystemError {
                code: 502,
                message: String::from_str("Kernel Page Fault: Attempted to access unmapped virtual memory"),
            })
        }
    }
}

impl Default for PageTable {
    fn default() -> (r: Self)
        ensures r.l4_table@.len() == 512, r.total_mappings == 0,
    {
        Self::new()
    }
}

/// Counts and memory statistics of a heap.
pub struct HeapStats {
    pub object_count: usize,
    pub property_count: usize,
    pub element_count: usize,
    pub memory_usage_bytes: usize,
    pub peak_memory_bytes: usize,
    pub gc_cycles: u32,
}

/// A bitmap of marked objects.
pub struct MarkingBitmap {
    pub data: Vec<u64>,
    pub size_bits: usize,
}

/// Guide to Physical Memory Management.
///
/// ## Buddy Allocator
/// Most kernels use a Buddy Allocator to manage physical frames. It works by
/// splitting blocks of memory into halves to satisfy allocation requests.
///
/// ## Slab Allocator
/// For small, frequent kernel objects (like task descriptors), a Slab Allocator
/// is used to reduce fragmentation and allocation overhead.
pub struct PhysicalMemoryDocs;

/// Guide to Virtual Memory and Paging.
///
/// ## Why Paging?
/// Paging allows the OS to provide each process with its own private
/// address space, preventing one process from reading or writing the
/// memory of another (Memory Protection).
pub struct VirtualMemoryDocs;

} // verus!
