//! V8 JavaScript Object Implementations.
//!
//! High-level JS types that operate on heap indices. These structs are
//! lightweight "handles": all data lives in the `Heap`'s arrays and every
//! mutation and lookup is delegated to it.
//!
//! # State Machines
//! Many JS objects like `JSPromise` have strict state machines; illegal
//! transitions are reported immediately as failures.
//!
//! # Hidden Classes (Maps)
//! Objects do not store their own layout. Instead, they point to a `Map`
//! (also known as a Hidden Class) describing their properties and offsets.
use vstd::prelude::*;
use vstd::string::*;
use crate::KernelResult;
use crate::heap::{Heap, HeapView, ObjectIndex, InstanceType, MapIndex, build_object, lemma_read_after_write,
    lemma_write_isolation, lemma_set_preserves_wf, lemma_build_sequential};
use crate::dffdf::{FailureKind, FailureView, outcome};
use crate::branded::TaggedAddress;
use crate::text::{hex_width, push_hex};

pub mod promise_reactions;
pub mod property_attributes;
pub mod typed_arrays;
pub mod hidden_classes;
pub mod write_barriers;
pub mod object_modes;

verus! {

/// The outcome of building a handle, taken as the handle's object index.
pub open spec fn built<T>(r: Result<T, FailureKind>, index_of: spec_fn(T) -> ObjectIndex) -> Result<ObjectIndex, FailureView> {
    match r {
        Ok(v) => Ok(index_of(v)),
        Err(e) => Err(e@),
    }
}

/// A word holding `n` as an Smi: shifted left by one bit.
pub open spec fn smi_word(n: usize) -> TaggedAddress {
    TaggedAddress(n << 1usize)
}

// =============================================================================
// BASE OBJECT IMPLEMENTATION
// =============================================================================

/// A generic JavaScript Object, with its properties in the heap's property buffer.
pub struct JSObject {
    pub index: ObjectIndex,
}

impl JSObject {
    /// Creates a new JSObject in the given heap.
    pub fn new(heap: &mut Heap, map: MapIndex) -> (r: KernelResult<Self>)
        ensures (final(heap)@, built(r, |o: JSObject| o.index)) == old(heap)@.build(InstanceType::JSObject, map, seq![]),
    {
        match build_object(heap, InstanceType::JSObject, map, &[]) {
            Ok(index) => Ok(JSObject { index }),
            Err(e) => Err(e),
        }
    }

    /// Sets a property value in a specific slot.
    pub fn set_property(&self, heap: &mut Heap, slot: u32, value: TaggedAddress) -> (r: KernelResult<()>)
        ensures (final(heap)@, outcome(r)) == old(heap)@.set_property(self.index, slot, value),
    {
        heap.set_property(self.index, slot, value)
    }

    /// Gets a property value from a specific slot.
    pub fn get_property(&self, heap: &Heap, slot: u32) -> (r: KernelResult<TaggedAddress>)
        ensures outcome(r) == heap@.get_property(self.index, slot),
    {
        heap.get_property(self.index, slot)
    }
}

// =============================================================================
// PROMISE IMPLEMENTATION
// =============================================================================

/// The state of a JSPromise, as defined by the ECMAScript specification.
#[derive(Copy, Clone, Debug, PartialEq, Eq, Structural)]
pub enum PromiseState {
    /// The initial state; neither fulfilled nor rejected.
    Pending,
    /// The operation completed successfully.
    Fulfilled,
    /// The operation failed.
    Rejected,
}

impl PromiseState {
    /// The state stored as the byte `val`: 0, 1 and 2 in declaration order.
    pub open spec fn spec_from_u8(val: u8) -> Option<PromiseState> {
        if val == 0 { Some(PromiseState::Pending) }
        else if val == 1 { Some(PromiseState::Fulfilled) }
        else if val == 2 { Some(PromiseState::Rejected) }
        else { None }
    }

    /// The number that stores this state.
    pub open spec fn spec_word(self) -> usize {
        match self {
            PromiseState::Pending => 0,
            PromiseState::Fulfilled => 1,
            PromiseState::Rejected => 2,
        }
    }

    /// The name of this state.
    pub open spec fn spec_name(self) -> Seq<char> {
        match self {
            PromiseState::Pending => "Pending"@,
            PromiseState::Fulfilled => "Fulfilled"@,
            PromiseState::Rejected => "Rejected"@,
        }
    }

    /// Converts a raw u8 (from a TaggedAddress) into a PromiseState.
    pub fn from_u8(val: u8) -> (r: Option<Self>)
        ensures r == Self::spec_from_u8(val),
    {
        match val {
            0 => Some(PromiseState::Pending),
            1 => Some(PromiseState::Fulfilled),
            2 => Some(PromiseState::Rejected),
            _ => None,
        }
    }

    /// The number that stores this state.
    fn word(self) -> (r: usize)
        ensures r == self.spec_word(),
    {
        match self {
            PromiseState::Pending => 0,
            PromiseState::Fulfilled => 1,
            PromiseState::Rejected => 2,
        }
    }
}

/// A JavaScript Promise.
///
/// # Internal Slots
/// - Slot 0: `PromiseState` (Pending, Fulfilled, Rejected)
/// - Slot 1: Result (Value if fulfilled, Reason if rejected)
/// - Slot 2: Reactions (A pointer to a list of then/catch handlers)
/// - Slot 3: Flags (e.g., has_handler, is_handled)
pub struct JSPromise {
    pub index: ObjectIndex,
}

/// The message of a promise whose state slot holds no state.
pub open spec fn corrupt_state_message(word: usize) -> Seq<char> {
    "Corrupt Promise state detected: 0x"@ + hex_width(word as nat, 0)
}

impl JSPromise {
    /// Slot index where the promise's current state is stored.
    pub const STATE_SLOT: u32 = 0;
    /// Slot index where the promise's result (fulfillment value or rejection reason) is stored.
    pub const RESULT_SLOT: u32 = 1;
    /// Slot index for the list of reactions (then/catch callbacks).
    pub const REACTIONS_SLOT: u32 = 2;
    /// Slot index for internal flags.
    pub const FLAGS_SLOT: u32 = 3;

    /// The initial slots of a promise: Pending, with null result, reactions and flags.
    pub open spec fn initial_slots() -> Seq<(u32, TaggedAddress)> {
        seq![(0u32, TaggedAddress(0)), (1u32, TaggedAddress(0)), (2u32, TaggedAddress(0)), (3u32, TaggedAddress(0))]
    }

    /// The heap after settling the promise at `index`, and the outcome.
    ///
    /// The state slot is read; a value that is no state is a `SystemError`
    /// (code 601); a promise that is not pending refuses the transition;
    /// otherwise the state and then the result are written.
    pub open spec fn spec_settle(h: HeapView, index: ObjectIndex, to: PromiseState, result: TaggedAddress) -> (HeapView, Result<(), FailureView>) {
        match h.get_property(index, 0) {
            Err(e) => (h, Err(e)),
            Ok(t) => match PromiseState::spec_from_u8(t.0 as u8) {
                None => (h, Err(FailureView::SystemError { code: 601, message: corrupt_state_message(t.0) })),
                Some(current) => if current != PromiseState::Pending {
                    (h, Err(FailureView::InvalidStateTransition { object_id: index.0, from: current.spec_name(), to: to.spec_name() }))
                } else {
                    let (h1, r1) = h.set_property(index, 0, TaggedAddress(to.spec_word()));
                    match r1 {
                        Err(e) => (h1, Err(e)),
                        Ok(_) => h1.set_property(index, 1, result),
                    }
                },
            },
        }
    }

    /// The outcome of reading the state of the promise at `index`.
    pub open spec fn spec_get_state(h: HeapView, index: ObjectIndex) -> Result<PromiseState, FailureView> {
        match h.get_property(index, 0) {
            Err(e) => Err(e),
            Ok(t) => match PromiseState::spec_from_u8(t.0 as u8) {
                Some(s) => Ok(s),
                None => Err(FailureView::SystemError { code: 602, message: "Invalid Promise state in memory"@ }),
            },
        }
    }

    /// Creates a new JSPromise in the Pending state.
    pub fn new(heap: &mut Heap, map: MapIndex) -> (r: KernelResult<Self>)
        ensures (final(heap)@, built(r, |p: JSPromise| p.index)) == old(heap)@.build(InstanceType::JSPromise, map, Self::initial_slots()),
    {
        let writes = [
            (Self::STATE_SLOT, TaggedAddress(PromiseState::Pending.word())),
            (Self::RESULT_SLOT, TaggedAddress::null()),
            (Self::REACTIONS_SLOT, TaggedAddress::null()),
            (Self::FLAGS_SLOT, TaggedAddress::null()),
        ];
        assert(writes@ =~= Self::initial_slots());
        match build_object(heap, InstanceType::JSPromise, map, &writes) {
            Ok(index) => Ok(JSPromise { index }),
            Err(e) => Err(e),
        }
    }

    /// Transitions the promise from Pending to a settled state (Fulfilled or Rejected).
    ///
    /// Any attempt to transition a non-Pending promise is refused with
    /// `FailureKind::InvalidStateTransition` and changes nothing.
    pub fn settle(&self, heap: &mut Heap, to: PromiseState, result: TaggedAddress) -> (r: KernelResult<()>)
        ensures (final(heap)@, outcome(r)) == Self::spec_settle(old(heap)@, self.index, to, result),
    {
        let current_state_tagged = match heap.get_property(self.index, Self::STATE_SLOT) {
            Ok(t) => t,
            Err(e) => return Err(e),
        };
        let current_state = match PromiseState::from_u8(current_state_tagged.0 as u8) {
            Some(s) => s,
            None => {
                let mut message = String::new();
                message.append("Corrupt Promise state detected: 0x");
                push_hex(&mut message, current_state_tagged.0 as u64, 0);
                return Err(FailureKind::SystemError { code: 601, message });
            },
        };
        if current_state != PromiseState::Pending {
            return Err(FailureKind::InvalidStateTransition {
                object_id: self.index.0,
                from: self.state_name(current_state),
                to: self.state_name(to),
            });
        }
        match heap.set_property(self.index, Self::STATE_SLOT, TaggedAddress(to.word())) {
            Ok(_) => {},
            Err(e) => return Err(e),
        }
        heap.set_property(self.index, Self::RESULT_SLOT, result)
    }

    /// Returns the current state of the promise.
    pub fn get_state(&self, heap: &Heap) -> (r: KernelResult<PromiseState>)
        ensures outcome(r) == Self::spec_get_state(heap@, self.index),
    {
        let tagged = match heap.get_property(self.index, Self::STATE_SLOT) {
            Ok(t) => t,
            Err(e) => return Err(e),
        };
        match PromiseState::from_u8(tagged.0 as u8) {
            Some(s) => Ok(s),
            None => Err(FailureKind::SystemError {
                code: 602,
                message: String::from_str("Invalid Promise state in memory"),
            }),
        }
    }

    /// The name of a state.
    fn state_name(&self, state: PromiseState) -> (r: &'static str)
        ensures r@ == state.spec_name(),
    {
        match state {
            PromiseState::Pending => "Pending",
            PromiseState::Fulfilled => "Fulfilled",
            PromiseState::Rejected => "Rejected",
        }
    }
}

/// Once settled, always settled: after a promise is settled to Fulfilled or
/// Rejected, it reports that state, and any further settlement is refused
/// with an `InvalidStateTransition` that leaves the heap unchanged (on a
/// property buffer addressable with 32-bit offsets).
pub proof fn lemma_promise_settles_once(
    h: HeapView,
    index: ObjectIndex,
    to: PromiseState,
    result: TaggedAddress,
    again: PromiseState,
    again_result: TaggedAddress,
)
    requires
        JSPromise::spec_settle(h, index, to, result).1 is Ok,
        to != PromiseState::Pending,
        h.properties_data.len() < u32::MAX,
    ensures ({
        let h1 = JSPromise::spec_settle(h, index, to, result).0;
        &&& JSPromise::spec_get_state(h1, index) == Ok::<PromiseState, FailureView>(to)
        &&& JSPromise::spec_settle(h1, index, again, again_result) == (h1, Err::<(), FailureView>(FailureView::InvalidStateTransition {
            object_id: index.0,
            from: to.spec_name(),
            to: again.spec_name(),
        }))
    }),
{
    let i = index.0 as int;
    let (hm, rm) = h.set_property(index, 0, TaggedAddress(to.spec_word()));
    lemma_read_after_write(h, index, 0, TaggedAddress(to.spec_word()));
    assert(hm.get_property(index, 0) == Ok::<TaggedAddress, FailureView>(TaggedAddress(to.spec_word())));
    let (h1, r1) = hm.set_property(index, 1, result);
    let d0 = crate::heap::slot_index(hm.properties_offsets[i], 0);
    let d1 = crate::heap::slot_index(hm.properties_offsets[i], 1);
    assert(d0 != d1);
    assert(h1.get_property(index, 0) == Ok::<TaggedAddress, FailureView>(TaggedAddress(to.spec_word())));
    assert((to.spec_word() as u8) as usize == to.spec_word());
}

/// A call of a `JSPromise` method that can change the heap: creating a promise
/// or settling one. (`get_state` only reads the heap.)
pub enum PromiseCall {
    New { map: MapIndex },
    Settle { promise: ObjectIndex, to: PromiseState, result: TaggedAddress },
}

/// The heap after one promise call.
pub open spec fn apply_promise_call(h: HeapView, c: PromiseCall) -> HeapView {
    match c {
        PromiseCall::New { map } => h.build(InstanceType::JSPromise, map, JSPromise::initial_slots()).0,
        PromiseCall::Settle { promise, to, result } => JSPromise::spec_settle(h, promise, to, result).0,
    }
}

/// The heap after a sequence of promise calls, in order.
pub open spec fn apply_promise_calls(h: HeapView, cs: Seq<PromiseCall>) -> HeapView
    decreases cs.len(),
{
    if cs.len() == 0 {
        h
    } else {
        apply_promise_call(apply_promise_calls(h, cs.drop_last()), cs.last())
    }
}

/// Whether the promise at `p` is settled in `h`.
pub open spec fn is_settled(h: HeapView, p: ObjectIndex) -> bool {
    JSPromise::spec_get_state(h, p) matches Ok(s) && s != PromiseState::Pending
}

/// One promise call keeps a settled promise's state, keeps the heap well
/// formed, and grows it by at most one object and four property words.
proof fn lemma_promise_call_keeps_settled(h: HeapView, p: ObjectIndex, c: PromiseCall)
    requires
        h.wf(),
        is_settled(h, p),
        h.properties_data.len() + 4 < u32::MAX,
        h.object_count() + 1 < u32::MAX,
    ensures ({
        let h2 = apply_promise_call(h, c);
        &&& h2.wf()
        &&& JSPromise::spec_get_state(h2, p) == JSPromise::spec_get_state(h, p)
        &&& h2.properties_data.len() <= h.properties_data.len() + 4
        &&& h2.object_count() <= h.object_count() + 1
    }),
{
    match c {
        PromiseCall::New { map } => {
            let (h1, r1) = h.allocate(InstanceType::JSPromise, map);
            if r1 is Ok {
                let w = JSPromise::initial_slots();
                assert forall|k: int| 0 <= k < w.len() implies (#[trigger] w[k]).0 == k by {}
                lemma_build_sequential(h, InstanceType::JSPromise, map, w);
                let h2 = h.build(InstanceType::JSPromise, map, w).0;
                assert(h2.get_property(p, 0) == h.get_property(p, 0));
            }
        },
        PromiseCall::Settle { promise, to, result } => {
            if promise != p {
                match h.get_property(promise, 0) {
                    Err(_) => {},
                    Ok(t) => match PromiseState::spec_from_u8(t.0 as u8) {
                        None => {},
                        Some(current) => if current == PromiseState::Pending {
                            let (h1, r1) = h.set_property(promise, 0, TaggedAddress(to.spec_word()));
                            lemma_set_preserves_wf(h, promise, 0, TaggedAddress(to.spec_word()));
                            lemma_write_isolation(h, promise, 0, TaggedAddress(to.spec_word()), p, 0);
                            if r1 is Ok {
                                lemma_set_preserves_wf(h1, promise, 1, result);
                                lemma_write_isolation(h1, promise, 1, result, p, 0);
                            }
                        },
                    },
                }
            }
        },
    }
}

/// Once settled, always settled: whatever sequence of promise calls follows
/// (creating promises, settling this one or others), a settled promise keeps
/// its state, as long as the heap stays addressable with 32-bit offsets.
pub proof fn lemma_promise_stays_settled(h: HeapView, p: ObjectIndex, cs: Seq<PromiseCall>)
    requires
        h.wf(),
        is_settled(h, p),
        h.properties_data.len() + 4 * cs.len() < u32::MAX,
        h.object_count() + cs.len() < u32::MAX,
    ensures
        JSPromise::spec_get_state(apply_promise_calls(h, cs), p) == JSPromise::spec_get_state(h, p),
        apply_promise_calls(h, cs).wf(),
{
    lemma_promise_calls_bounded(h, p, cs);
}

proof fn lemma_promise_calls_bounded(h: HeapView, p: ObjectIndex, cs: Seq<PromiseCall>)
    requires
        h.wf(),
        is_settled(h, p),
        h.properties_data.len() + 4 * cs.len() < u32::MAX,
        h.object_count() + cs.len() < u32::MAX,
    ensures ({
        let h2 = apply_promise_calls(h, cs);
        &&& JSPromise::spec_get_state(h2, p) == JSPromise::spec_get_state(h, p)
        &&& h2.wf()
        &&& h2.properties_data.len() <= h.properties_data.len() + 4 * cs.len()
        &&& h2.object_count() <= h.object_count() + cs.len()
    }),
    decreases cs.len(),
{
    if cs.len() > 0 {
        let init = cs.drop_last();
        lemma_promise_calls_bounded(h, p, init);
        let h1 = apply_promise_calls(h, init);
        lemma_promise_call_keeps_settled(h1, p, cs.last());
    }
}

// =============================================================================
// ARRAY IMPLEMENTATION
// =============================================================================

/// A JavaScript Array, with its indexed elements in the heap's element buffer.
pub struct JSArray {
    pub index: ObjectIndex,
}

impl JSArray {
    /// Whether `push` on the array at `index` is free of 32-bit overflow.
    pub open spec fn push_fits(h: HeapView, index: ObjectIndex) -> bool {
        let idx = index.0 as int;
        idx < h.elements_offsets.len() && idx < h.elements_lengths.len() ==> {
            let sum = h.elements_offsets[idx] + h.elements_lengths[idx];
            &&& sum <= u32::MAX
            &&& sum == h.elements_data.len() ==> h.elements_lengths[idx] < u32::MAX
        }
    }

    /// The heap after pushing `value` onto the array at `index`, and the outcome.
    ///
    /// The element is appended when the array's elements end the element
    /// buffer; the array's length then grows by one and the `length` property
    /// (slot 0) is set to the new length as an Smi.
    pub open spec fn spec_push(h: HeapView, index: ObjectIndex, value: TaggedAddress) -> (HeapView, Result<(), FailureView>) {
        let idx = index.0 as int;
        if idx >= h.elements_offsets.len() {
            (h, Err(crate::heap::oob(idx, h.elements_offsets.len() as int, "JSArray::push (element offset retrieval)"@)))
        } else if idx >= h.elements_lengths.len() {
            (h, Err(crate::heap::oob(idx, h.elements_lengths.len() as int, "JSArray::push (element length retrieval)"@)))
        } else {
            let offset = h.elements_offsets[idx];
            let length = h.elements_lengths[idx];
            if offset + length == h.elements_data.len() {
                let new_length = (length + 1) as u32;
                let h1 = HeapView {
                    elements_data: h.elements_data.push(value),
                    elements_lengths: h.elements_lengths.update(idx, new_length),
                    ..h
                };
                h1.set_property(index, 0, smi_word(new_length as usize))
            } else {
                (h, Err(FailureView::SystemError { code: 502, message: "Array elements relocation required but not implemented"@ }))
            }
        }
    }

    /// Creates a new JSArray with its `length` property (slot 0) null.
    pub fn new(heap: &mut Heap, map: MapIndex) -> (r: KernelResult<Self>)
        ensures (final(heap)@, built(r, |a: JSArray| a.index)) == old(heap)@.build(InstanceType::JSArray, map, seq![(0u32, TaggedAddress(0))]),
    {
        let writes = [(0u32, TaggedAddress::null())];
        assert(writes@ =~= seq![(0u32, TaggedAddress(0))]);
        match build_object(heap, InstanceType::JSArray, map, &writes) {
            Ok(index) => Ok(JSArray { index }),
            Err(e) => Err(e),
        }
    }

    /// Appends an element to the array's indexed storage.
    ///
    /// Returns `FailureKind::SystemError` (code 502) when the array's elements
    /// are not at the end of the element buffer (relocation is not supported).
    pub fn push(&self, heap: &mut Heap, value: TaggedAddress) -> (r: KernelResult<()>)
        requires Self::push_fits(old(heap)@, self.index),
        ensures (final(heap)@, outcome(r)) == Self::spec_push(old(heap)@, self.index, value),
    {
        let idx = self.index.0 as usize;
        if idx >= heap.elements_offsets.len() {
            return Err(FailureKind::OutOfBounds {
                index: idx,
                limit: heap.elements_offsets.len(),
                context: "JSArray::push (element offset retrieval)",
            });
        }
        let offset = heap.elements_offsets[idx];
        if idx >= heap.elements_lengths.len() {
            return Err(FailureKind::OutOfBounds {
                index: idx,
                limit: heap.elements_lengths.len(),
                context: "JSArray::push (element length retrieval)",
            });
        }
        let current_length = heap.elements_lengths[idx];
        if (offset + current_length) as usize == heap.elements_data.len() {
            heap.elements_data.push(value);
            let new_length = current_length + 1;
            heap.elements_lengths.set(idx, new_length);
            heap.set_property(self.index, 0, TaggedAddress((new_length as usize) << 1usize))
        } else {
            Err(FailureKind::SystemError {
                code: 502,
                message: String::from_str("Array elements relocation required but not implemented"),
            })
        }
    }
}

/// A successful push appends the element to the element buffer, grows the
/// array by one, and the `length` property then reads back the new length (on
/// a property buffer addressable with 32-bit offsets).
pub proof fn lemma_push_updates_length(h: HeapView, index: ObjectIndex, value: TaggedAddress)
    requires
        JSArray::push_fits(h, index),
        JSArray::spec_push(h, index, value).1 is Ok,
        h.properties_data.len() <= u32::MAX,
        (index.0 as int) < h.properties_lengths.len() ==> h.properties_lengths[index.0 as int] < u32::MAX,
    ensures ({
        let h2 = JSArray::spec_push(h, index, value).0;
        let new_length = h.elements_lengths[index.0 as int] + 1;
        &&& h2.elements_data == h.elements_data.push(value)
        &&& h2.elements_lengths[index.0 as int] == new_length
        &&& h2.get_property(index, 0) == Ok::<TaggedAddress, FailureView>(smi_word(new_length as usize))
    }),
{
    let idx = index.0 as int;
    let length = h.elements_lengths[idx];
    let new_length = (length + 1) as u32;
    let h1 = HeapView {
        elements_data: h.elements_data.push(value),
        elements_lengths: h.elements_lengths.update(idx, new_length),
        ..h
    };
    lemma_read_after_write(h1, index, 0, smi_word(new_length as usize));
}

/// A push, whatever its outcome, changes no other object: on a well-formed
/// heap every property of every other object reads the same, its element
/// range is unchanged, and every element already stored keeps its value.
pub proof fn lemma_push_isolation(h: HeapView, index: ObjectIndex, value: TaggedAddress, other: ObjectIndex, other_slot: u32)
    requires
        h.wf(),
        other != index,
        (other.0 as int) < h.object_count(),
    ensures ({
        let h2 = JSArray::spec_push(h, index, value).0;
        let o = other.0 as int;
        &&& h2.get_property(other, other_slot) == h.get_property(other, other_slot)
        &&& h2.elements_offsets[o] == h.elements_offsets[o]
        &&& h2.elements_lengths[o] == h.elements_lengths[o]
        &&& forall|k: int| 0 <= k < h.elements_data.len() ==> #[trigger] h2.elements_data[k] == h.elements_data[k]
    }),
{
    let idx = index.0 as int;
    if idx < h.elements_offsets.len() && idx < h.elements_lengths.len()
        && h.elements_offsets[idx] + h.elements_lengths[idx] == h.elements_data.len() {
        let new_length = (h.elements_lengths[idx] + 1) as u32;
        let h1 = HeapView {
            elements_data: h.elements_data.push(value),
            elements_lengths: h.elements_lengths.update(idx, new_length),
            ..h
        };
        lemma_write_isolation(h, index, 0, smi_word(new_length as usize), other, other_slot);
        let hs = h.set_property(index, 0, smi_word(new_length as usize)).0;
        let h2 = h1.set_property(index, 0, smi_word(new_length as usize)).0;
        assert(h2.properties_offsets == hs.properties_offsets);
        assert(h2.properties_lengths == hs.properties_lengths);
        assert(h2.properties_data == hs.properties_data);
    }
}

// =============================================================================
// STRING IMPLEMENTATION
// =============================================================================

/// Represents a V8 Internalized String: its length and hash as Smis.
pub struct JSString {
    pub index: ObjectIndex,
}

impl JSString {
    /// Slot for the string's length.
    pub const LENGTH_SLOT: u32 = 0;
    /// Slot for the string's pre-computed hash.
    pub const HASH_SLOT: u32 = 1;

    /// Creates a new simulated JSString.
    pub fn new(heap: &mut Heap, map: MapIndex, length: u32, hash: u32) -> (r: KernelResult<Self>)
        ensures (final(heap)@, built(r, |s: JSString| s.index)) == old(heap)@.build(InstanceType::String, map,
            seq![(0u32, smi_word(length as usize)), (1u32, smi_word(hash as usize))]),
    {
        let writes = [
            (Self::LENGTH_SLOT, TaggedAddress((length as usize) << 1usize)),
            (Self::HASH_SLOT, TaggedAddress((hash as usize) << 1usize)),
        ];
        assert(writes@ =~= seq![(0u32, smi_word(length as usize)), (1u32, smi_word(hash as usize))]);
        match build_object(heap, InstanceType::String, map, &writes) {
            Ok(index) => Ok(JSString { index }),
            Err(e) => Err(e),
        }
    }

    /// Returns the length of the string as a native u32.
    pub fn length(&self, heap: &Heap) -> (r: KernelResult<u32>)
        ensures
            outcome(r) == (match heap@.get_property(self.index, 0) {
                Ok(t) => Ok((t.0 >> 1usize) as u32),
                Err(e) => Err(e),
            }),
    {
        match heap.get_property(self.index, Self::LENGTH_SLOT) {
            Ok(tagged) => Ok((tagged.0 >> 1usize) as u32),
            Err(e) => Err(e),
        }
    }
}

/// The length stored as an Smi reads back as itself (on a 64-bit machine for
/// every length, on a 32-bit machine for lengths below 2^31).
pub proof fn lemma_string_length_round_trip(length: u32)
    requires usize::BITS == 64 || length < 0x8000_0000,
    ensures ((smi_word(length as usize).0 >> 1usize) as u32) == length,
{
    if usize::BITS == 64 {
        assert(usize::BITS == 64 ==> (((length as usize) << 1usize) >> 1usize) as u32 == length) by (bit_vector);
    } else {
        assert(length < 0x8000_0000 ==> (((length as usize) << 1usize) >> 1usize) as u32 == length) by (bit_vector);
    }
}

// =============================================================================
// COMPILER & EXECUTION METADATA
// =============================================================================

/// Represents a SharedFunctionInfo (SFI): metadata shared by the closures of a function.
pub struct SharedFunctionInfo {
    pub index: ObjectIndex,
}

impl SharedFunctionInfo {
    pub const CODE_OR_SCOPE_INFO_SLOT: u32 = 0;
    pub const NAME_OR_SCOPE_INFO_SLOT: u32 = 1;
    pub const FORMAL_PARAMETER_COUNT_SLOT: u32 = 2;

    /// Creates an SFI and writes its parameter count (as an Smi) to slot 2.
    ///
    /// A fresh object has no property yet, so the write to slot 2 is refused
    /// as an in-place growth (`SystemError` 501) unless the heap already
    /// holds data at the two slots before it.
    pub fn new(heap: &mut Heap, map: MapIndex, param_count: u32) -> (r: KernelResult<Self>)
        ensures (final(heap)@, built(r, |s: SharedFunctionInfo| s.index)) == old(heap)@.build(InstanceType::SharedFunctionInfo, map,
            seq![(2u32, smi_word(param_count as usize))]),
    {
        let writes = [(Self::FORMAL_PARAMETER_COUNT_SLOT, TaggedAddress((param_count as usize) << 1usize))];
        assert(writes@ =~= seq![(2u32, smi_word(param_count as usize))]);
        match build_object(heap, InstanceType::SharedFunctionInfo, map, &writes) {
            Ok(index) => Ok(SharedFunctionInfo { index }),
            Err(e) => Err(e),
        }
    }
}

/// Represents a FeedbackVector: type feedback of call sites, and the invocation count.
pub struct FeedbackVector {
    pub index: ObjectIndex,
}

impl FeedbackVector {
    pub const INVOCATION_COUNT_SLOT: u32 = 0;
    pub const OPTIMIZED_CODE_SLOT: u32 = 1;

    /// Creates a feedback vector with an invocation count of zero.
    pub fn new(heap: &mut Heap, map: MapIndex) -> (r: KernelResult<Self>)
        ensures (final(heap)@, built(r, |f: FeedbackVector| f.index)) == old(heap)@.build(InstanceType::FeedbackVector, map,
            seq![(0u32, TaggedAddress(0))]),
    {
        let writes = [(Self::INVOCATION_COUNT_SLOT, TaggedAddress(0))];
        assert(writes@ =~= seq![(0u32, TaggedAddress(0))]);
        match build_object(heap, InstanceType::FeedbackVector, map, &writes) {
            Ok(index) => Ok(FeedbackVector { index }),
            Err(e) => Err(e),
        }
    }

    /// Reads the invocation count (an Smi in slot 0) and writes it back plus one.
    pub fn increment_invocation_count(&self, heap: &mut Heap) -> (r: KernelResult<()>)
        ensures
            (final(heap)@, outcome(r)) == (match old(heap)@.get_property(self.index, 0) {
                Ok(t) => old(heap)@.set_property(self.index, 0, TaggedAddress((((t.0 >> 1usize) + 1) as usize) << 1usize)),
                Err(e) => (old(heap)@, Err(e)),
            }),
    {
        let current = match heap.get_property(self.index, Self::INVOCATION_COUNT_SLOT) {
            Ok(t) => t,
            Err(e) => return Err(e),
        };
        let c = current.0;
        assert(c >> 1usize == c / 2) by (bit_vector);
        let next = (current.0 >> 1usize) + 1;
        heap.set_property(self.index, Self::INVOCATION_COUNT_SLOT, TaggedAddress(next << 1usize))
    }
}

/// Represents a JSFunction (Closure): its SFI, context and feedback vector.
pub struct JSFunction {
    pub index: ObjectIndex,
}

impl JSFunction {
    pub const SFI_SLOT: u32 = 0;
    pub const CONTEXT_SLOT: u32 = 1;
    pub const FEEDBACK_VECTOR_SLOT: u32 = 2;

    /// Creates a closure object holding `sfi`, `context` and `feedback` in slots 0, 1, 2.
    pub fn new(
        heap: &mut Heap,
        map: MapIndex,
        sfi: TaggedAddress,
        context: TaggedAddress,
        feedback: TaggedAddress,
    ) -> (r: KernelResult<Self>)
        ensures (final(heap)@, built(r, |f: JSFunction| f.index)) == old(heap)@.build(InstanceType::JSObject, map,
            seq![(0u32, sfi), (1u32, context), (2u32, feedback)]),
    {
        let writes = [(Self::SFI_SLOT, sfi), (Self::CONTEXT_SLOT, context), (Self::FEEDBACK_VECTOR_SLOT, feedback)];
        assert(writes@ =~= seq![(0u32, sfi), (1u32, context), (2u32, feedback)]);
        match build_object(heap, InstanceType::JSObject, map, &writes) {
            Ok(index) => Ok(JSFunction { index }),
            Err(e) => Err(e),
        }
    }
}

// =============================================================================
// ADVANCED OBJECT FEATURES
// =============================================================================

/// Simulates V8 AccessorInfo for getters and setters.
pub struct AccessorInfo {
    pub index: ObjectIndex,
}

impl AccessorInfo {
    pub const GETTER_SLOT: u32 = 0;
    pub const SETTER_SLOT: u32 = 1;
    pub const NAME_SLOT: u32 = 2;

    /// Creates an accessor info and writes its name to slot 2 (refused as an
    /// in-place growth on a fresh object, as for `SharedFunctionInfo::new`).
    pub fn new(heap: &mut Heap, map: MapIndex, name: TaggedAddress) -> (r: KernelResult<Self>)
        ensures (final(heap)@, built(r, |a: AccessorInfo| a.index)) == old(heap)@.build(InstanceType::JSObject, map,
            seq![(2u32, name)]),
    {
        let writes = [(Self::NAME_SLOT, name)];
        assert(writes@ =~= seq![(2u32, name)]);
        match build_object(heap, InstanceType::JSObject, map, &writes) {
            Ok(index) => Ok(AccessorInfo { index }),
            Err(e) => Err(e),
        }
    }
}

/// Simulated Proxy object: a target and a handler whose traps intercept operations.
pub struct JSProxy {
    pub index: ObjectIndex,
}

impl JSProxy {
    pub const TARGET_SLOT: u32 = 0;
    pub const HANDLER_SLOT: u32 = 1;

    /// Creates a proxy holding `target` and `handler` in slots 0 and 1.
    pub fn new(heap: &mut Heap, map: MapIndex, target: TaggedAddress, handler: TaggedAddress) -> (r: KernelResult<Self>)
        ensures (final(heap)@, built(r, |p: JSProxy| p.index)) == old(heap)@.build(InstanceType::JSObject, map,
            seq![(0u32, target), (1u32, handler)]),
    {
        let writes = [(Self::TARGET_SLOT, target), (Self::HANDLER_SLOT, handler)];
        assert(writes@ =~= seq![(0u32, target), (1u32, handler)]);
        match build_object(heap, InstanceType::JSObject, map, &writes) {
            Ok(index) => Ok(JSProxy { index }),
            Err(e) => Err(e),
        }
    }
}

// =============================================================================
// COLLECTION TYPES
// =============================================================================

/// Simulated JSMap (Key-Value storage).
pub struct JSMap {
    pub index: ObjectIndex,
}

impl JSMap {
    pub const SIZE_SLOT: u32 = 0;
    pub const TABLE_SLOT: u32 = 1;

    /// Creates an empty map object (size 0 in slot 0).
    pub fn new(heap: &mut Heap, map: MapIndex) -> (r: KernelResult<Self>)
        ensures (final(heap)@, built(r, |m: JSMap| m.index)) == old(heap)@.build(InstanceType::JSObject, map,
            seq![(0u32, TaggedAddress(0))]),
    {
        let writes = [(Self::SIZE_SLOT, TaggedAddress(0))];
        assert(writes@ =~= seq![(0u32, TaggedAddress(0))]);
        match build_object(heap, InstanceType::JSObject, map, &writes) {
            Ok(index) => Ok(JSMap { index }),
            Err(e) => Err(e),
        }
    }
}

/// Simulated JSSet (Unique value storage).
pub struct JSSet {
    pub index: ObjectIndex,
}

impl JSSet {
    pub const SIZE_SLOT: u32 = 0;
    pub const TABLE_SLOT: u32 = 1;

    /// Creates an empty set object (size 0 in slot 0).
    pub fn new(heap: &mut Heap, map: MapIndex) -> (r: KernelResult<Self>)
        ensures (final(heap)@, built(r, |s: JSSet| s.index)) == old(heap)@.build(InstanceType::JSObject, map,
            seq![(0u32, TaggedAddress(0))]),
    {
        let writes = [(Self::SIZE_SLOT, TaggedAddress(0))];
        assert(writes@ =~= seq![(0u32, TaggedAddress(0))]);
        match build_object(heap, InstanceType::JSObject, map, &writes) {
            Ok(index) => Ok(JSSet { index }),
            Err(e) => Err(e),
        }
    }
}

// =============================================================================
// CONTEXTS AND GLOBAL OBJECTS
// =============================================================================

/// Represents a V8 Context: the global object and the state needed for execution.
pub struct JSContext {
    pub index: ObjectIndex,
}

impl JSContext {
    pub const GLOBAL_OBJECT_SLOT: u32 = 0;
    pub const SECURITY_TOKEN_SLOT: u32 = 1;

    /// Creates a context holding `global` in slot 0.
    pub fn new(heap: &mut Heap, map: MapIndex, global: TaggedAddress) -> (r: KernelResult<Self>)
        ensures (final(heap)@, built(r, |c: JSContext| c.index)) == old(heap)@.build(InstanceType::JSObject, map,
            seq![(0u32, global)]),
    {
        let writes = [(Self::GLOBAL_OBJECT_SLOT, global)];
        assert(writes@ =~= seq![(0u32, global)]);
        match build_object(heap, InstanceType::JSObject, map, &writes) {
            Ok(index) => Ok(JSContext { index }),
            Err(e) => Err(e),
        }
    }
}

/// Represents a JSGlobalProxy.
pub struct JSGlobalProxy {
    pub index: ObjectIndex,
}

impl JSGlobalProxy {
    pub const NATIVE_CONTEXT_SLOT: u32 = 0;

    /// Creates a global proxy with no property.
    pub fn new(heap: &mut Heap, map: MapIndex) -> (r: KernelResult<Self>)
        ensures (final(heap)@, built(r, |g: JSGlobalProxy| g.index)) == old(heap)@.build(InstanceType::JSObject, map, seq![]),
    {
        match build_object(heap, InstanceType::JSObject, map, &[]) {
            Ok(index) => Ok(JSGlobalProxy { index }),
            Err(e) => Err(e),
        }
    }
}

/// Logic for DataViews.
pub struct JSDataView {
    pub index: ObjectIndex,
}

impl JSDataView {
    pub const BUFFER_SLOT: u32 = 0;
    pub const BYTE_OFFSET_SLOT: u32 = 1;
    pub const BYTE_LENGTH_SLOT: u32 = 2;

    /// Creates a data view on `buffer` (slot 0).
    pub fn new(heap: &mut Heap, map: MapIndex, buffer: TaggedAddress) -> (r: KernelResult<Self>)
        ensures (final(heap)@, built(r, |d: JSDataView| d.index)) == old(heap)@.build(InstanceType::JSObject, map,
            seq![(0u32, buffer)]),
    {
        let writes = [(Self::BUFFER_SLOT, buffer)];
        assert(writes@ =~= seq![(0u32, buffer)]);
        match build_object(heap, InstanceType::JSObject, map, &writes) {
            Ok(index) => Ok(JSDataView { index }),
            Err(e) => Err(e),
        }
    }
}

/// Logic for JSDate objects: the time value is stored in slot 0.
pub struct JSDate {
    pub index: ObjectIndex,
}

impl JSDate {
    pub const VALUE_SLOT: u32 = 0;

    /// Creates a date whose time value, already converted to a word, is `time_value`.
    pub fn new_with_time_value(heap: &mut Heap, map: MapIndex, time_value: usize) -> (r: KernelResult<Self>)
        ensures (final(heap)@, built(r, |d: JSDate| d.index)) == old(heap)@.build(InstanceType::JSObject, map,
            seq![(0u32, TaggedAddress(time_value))]),
    {
        let writes = [(Self::VALUE_SLOT, TaggedAddress(time_value))];
        assert(writes@ =~= seq![(0u32, TaggedAddress(time_value))]);
        match build_object(heap, InstanceType::JSObject, map, &writes) {
            Ok(index) => Ok(JSDate { index }),
            Err(e) => Err(e),
        }
    }
}

/// Logic for JSRegExp objects.
pub struct JSRegExp {
    pub index: ObjectIndex,
}

impl JSRegExp {
    pub const SOURCE_SLOT: u32 = 0;
    pub const FLAGS_SLOT: u32 = 1;
    pub const LAST_INDEX_SLOT: u32 = 2;

    /// Creates a regular expression with `source` in slot 0.
    pub fn new(heap: &mut Heap, map: MapIndex, source: TaggedAddress) -> (r: KernelResult<Self>)
        ensures (final(heap)@, built(r, |x: JSRegExp| x.index)) == old(heap)@.build(InstanceType::JSObject, map,
            seq![(0u32, source)]),
    {
        let writes = [(Self::SOURCE_SLOT, source)];
        assert(writes@ =~= seq![(0u32, source)]);
        match build_object(heap, InstanceType::JSObject, map, &writes) {
            Ok(index) => Ok(JSRegExp { index }),
            Err(e) => Err(e),
        }
    }
}

/// Logic for JSAsyncFunction objects.
pub struct JSAsyncFunction {
    pub index: ObjectIndex,
}

impl JSAsyncFunction {
    /// Creates an async function object with no property.
    pub fn new(heap: &mut Heap, map: MapIndex) -> (r: KernelResult<Self>)
        ensures (final(heap)@, built(r, |f: JSAsyncFunction| f.index)) == old(heap)@.build(InstanceType::JSObject, map, seq![]),
    {
        match build_object(heap, InstanceType::JSObject, map, &[]) {
            Ok(index) => Ok(JSAsyncFunction { index }),
            Err(e) => Err(e),
        }
    }
}

/// Logic for JSGeneratorObject.
pub struct JSGeneratorObject {
    pub index: ObjectIndex,
}

impl JSGeneratorObject {
    pub const FUNCTION_SLOT: u32 = 0;
    pub const CONTEXT_SLOT: u32 = 1;
    pub const RECEIVER_SLOT: u32 = 2;
    pub const INPUT_OR_DEBUG_POS_SLOT: u32 = 3;
    pub const RESUME_MODE_SLOT: u32 = 4;
    pub const CONTINUATION_SLOT: u32 = 5;

    /// Creates a generator object running `function` (slot 0).
    pub fn new(heap: &mut Heap, map: MapIndex, function: TaggedAddress) -> (r: KernelResult<Self>)
        ensures (final(heap)@, built(r, |g: JSGeneratorObject| g.index)) == old(heap)@.build(InstanceType::JSObject, map,
            seq![(0u32, function)]),
    {
        let writes = [(Self::FUNCTION_SLOT, function)];
        assert(writes@ =~= seq![(0u32, function)]);
        match build_object(heap, InstanceType::JSObject, map, &writes) {
            Ok(index) => Ok(JSGeneratorObject { index }),
            Err(e) => Err(e),
        }
    }
}

/// Logic for JSIteratorResult: a value and a done flag (1 or 0).
pub struct JSIteratorResult {
    pub index: ObjectIndex,
}

impl JSIteratorResult {
    pub const VALUE_SLOT: u32 = 0;
    pub const DONE_SLOT: u32 = 1;

    /// Creates an iterator result holding `value` in slot 0 and `done` (1 or 0) in slot 1.
    pub fn new(heap: &mut Heap, map: MapIndex, value: TaggedAddress, done: bool) -> (r: KernelResult<Self>)
        ensures (final(heap)@, built(r, |i: JSIteratorResult| i.index)) == old(heap)@.build(InstanceType::JSObject, map,
            seq![(0u32, value), (1u32, TaggedAddress(if done { 1usize } else { 0usize }))]),
    {
        let writes = [(Self::VALUE_SLOT, value), (Self::DONE_SLOT, TaggedAddress(if done { 1 } else { 0 }))];
        assert(writes@ =~= seq![(0u32, value), (1u32, TaggedAddress(if done { 1usize } else { 0usize }))]);
        match build_object(heap, InstanceType::JSObject, map, &writes) {
            Ok(index) => Ok(JSIteratorResult { index }),
            Err(e) => Err(e),
        }
    }
}

/// The prototype chain: a property not found in an object is looked up in
/// its prototype, and so on, until found or the chain ends.
pub struct PrototypeChain;

impl PrototypeChain {
    pub const PROTO_SLOT: u32 = 0;

    /// Looks up property `slot` starting at `start_obj`.
    ///
    /// A readable property is returned; an out-of-bounds read ends the chain
    /// and gives `None` (the chain stops at the first object).
    pub fn lookup(heap: &Heap, start_obj: ObjectIndex, slot: u32) -> (r: KernelResult<Option<TaggedAddress>>)
        ensures
            outcome(r) == (match heap@.get_property(start_obj, slot) {
                Ok(v) => Ok::<Option<TaggedAddress>, FailureView>(Some(v)),
                Err(_) => Ok::<Option<TaggedAddress>, FailureView>(None),
            }),
    {
        let current = start_obj;
        match heap.get_property(current, slot) {
            Ok(val) => Ok(Some(val)),
            Err(FailureKind::OutOfBounds { .. }) => Ok(None),
            Err(e) => Err(e),
        }
    }
}

/// In V8's hierarchy, `JSReceiver` is the base class of `JSObject` and `JSProxy`.
pub struct JSReceiver {
    pub index: ObjectIndex,
}

impl JSReceiver {
    /// Returns the prototype of the receiver; the simulation has none (null).
    pub fn get_prototype(&self, _heap: &Heap) -> (r: KernelResult<TaggedAddress>)
        ensures r == Ok::<TaggedAddress, FailureKind>(TaggedAddress(0)),
    {
        Ok(TaggedAddress::null())
    }
}

/// A function created via `Function.prototype.bind()`.
pub struct JSBoundFunction {
    pub index: ObjectIndex,
}

impl JSBoundFunction {
    pub const BOUND_TARGET_FUNCTION_SLOT: u32 = 0;
    pub const BOUND_THIS_SLOT: u32 = 1;
    pub const BOUND_ARGUMENTS_SLOT: u32 = 2;

    /// Creates a bound function wrapping `target` (slot 0).
    pub fn new(heap: &mut Heap, map: MapIndex, target: TaggedAddress) -> (r: KernelResult<Self>)
        ensures (final(heap)@, built(r, |b: JSBoundFunction| b.index)) == old(heap)@.build(InstanceType::JSObject, map,
            seq![(0u32, target)]),
    {
        let writes = [(Self::BOUND_TARGET_FUNCTION_SLOT, target)];
        assert(writes@ =~= seq![(0u32, target)]);
        match build_object(heap, InstanceType::JSObject, map, &writes) {
            Ok(index) => Ok(JSBoundFunction { index }),
            Err(e) => Err(e),
        }
    }
}

/// An error message object: source position and stack trace.
pub struct JSMessageObject {
    pub index: ObjectIndex,
}

impl JSMessageObject {
    pub const TYPE_SLOT: u32 = 0;
    pub const ARGUMENTS_SLOT: u32 = 1;
    pub const SCRIPT_SLOT: u32 = 2;
    pub const STACK_FRAMES_SLOT: u32 = 3;
}

/// Stub for BytecodeArray simulation.
pub struct BytecodeArray {
    pub index: ObjectIndex,
}

/// Stub for ScopeInfo simulation.
pub struct ScopeInfo {
    pub index: ObjectIndex,
}

/// Stub for ConstantPool simulation.
pub struct ConstantPool {
    pub index: ObjectIndex,
}

} // verus!
