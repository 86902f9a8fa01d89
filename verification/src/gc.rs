//! Generational Garbage Collection (Orinoco Simulation).
//!
//! # GC Strategy
//! 1. **Scavenger (Young Generation)**: Chen's semi-space copying collector.
//! 2. **Major GC (Old Generation)**: Mark-Sweep-Compact with incremental marking.
//! 3. **Incremental/Concurrent Marking**: marking over multiple steps to reduce pauses.
//!
//! Durations are whole microseconds.
use vstd::prelude::*;
use vstd::string::*;
use crate::topos::PathP;
use crate::text::{dec, push_dec};

verus! {

/// Why a collection was started.
#[derive(Debug, Copy, Clone, PartialEq, Eq, Structural)]
pub enum GCReason {
    AllocationFailure,
    ManualTrigger,
    MemoryPressure,
    ExternalRequest,
}

/// The outcome of a collection.
#[derive(Debug, Clone)]
pub struct GCResult {
    pub bytes_freed: usize,
    /// Duration of the collection, in microseconds.
    pub duration_us: u64,
    pub survived_objects: usize,
    pub kind: GCKind,
}

/// The kinds of collection.
#[derive(Debug, Copy, Clone, PartialEq, Eq, Structural)]
pub enum GCKind {
    Scavenge,
    MarkSweepCompact,
    IncrementalMarkingStep,
}

/// The marking state of an object in the tri-color marking scheme.
#[derive(Debug, Copy, Clone, PartialEq, Eq, Structural)]
pub enum MarkingColor {
    /// Not yet reached.
    White,
    /// Reached, but children not yet scanned.
    Grey,
    /// Reached and children scanned.
    Black,
}

/// The young generation: two semi-spaces, objects are copied from one to the other.
pub struct NewSpace {
    pub from_space_base: usize,
    pub to_space_base: usize,
    pub capacity: usize,
    pub top: usize,
}

impl NewSpace {
    /// Semi-spaces at `0x1000_0000` and `0x2000_0000`, empty.
    pub fn new(capacity: usize) -> (r: Self)
        ensures
            r.from_space_base == 0x1000_0000,
            r.to_space_base == 0x2000_0000,
            r.capacity == capacity,
            r.top == 0,
    {
        NewSpace { from_space_base: 0x1000_0000, to_space_base: 0x2000_0000, capacity, top: 0 }
    }

    /// Swaps the two semi-spaces and empties the allocation area.
    pub fn flip(&mut self)
        ensures *final(self) == flipped(*old(self)),
    {
        std::mem::swap(&mut self.from_space_base, &mut self.to_space_base);
        self.top = 0;
    }
}

/// The young generation after a flip.
pub open spec fn flipped(s: NewSpace) -> NewSpace {
    NewSpace { from_space_base: s.to_space_base, to_space_base: s.from_space_base, capacity: s.capacity, top: 0 }
}

/// Two flips give back the original semi-spaces, with an empty allocation area.
pub proof fn lemma_flip_twice(s: NewSpace)
    ensures flipped(flipped(s)) == (NewSpace { top: 0, ..s }),
{
}

/// The old generation: a region managed by a free list.
pub struct OldSpace {
    pub base: usize,
    pub capacity: usize,
    pub free_list: Vec<(usize, usize)>,
}

impl OldSpace {
    /// A region at `0x4000_0000` that is entirely free.
    pub fn new(capacity: usize) -> (r: Self)
        ensures
            r.base == 0x4000_0000,
            r.capacity == capacity,
            r.free_list@ == seq![(0x4000_0000usize, capacity)],
    {
        OldSpace { base: 0x4000_0000, capacity, free_list: vec![(0x4000_0000, capacity)] }
    }
}

/// The generational collector.
pub struct OrinocoGC {
    pub young_gen: NewSpace,
    pub old_gen: OldSpace,
    pub marking_state: IncrementalMarkingState,
    pub worklist: Vec<usize>,
}

/// The phases of incremental marking.
#[derive(Debug, Copy, Clone, PartialEq, Eq, Structural)]
pub enum IncrementalMarkingState {
    Stopped,
    Marking,
    Completing,
}

impl OrinocoGC {
    /// A collector with a 16 MB young generation and a 512 MB old generation.
    pub fn new() -> (r: Self)
        ensures
            r.young_gen.capacity == 1024 * 1024 * 16,
            r.young_gen.top == 0,
            r.old_gen.capacity == 1024 * 1024 * 512,
            r.marking_state == IncrementalMarkingState::Stopped,
            r.worklist@.len() == 0,
    {
        OrinocoGC {
            young_gen: NewSpace::new(1024 * 1024 * 16),
            old_gen: OldSpace::new(1024 * 1024 * 512),
            marking_state: IncrementalMarkingState::Stopped,
            worklist: Vec::new(),
        }
    }

    /// Performs a Scavenge cycle (Young Generation): 42 objects of 64 bytes
    /// survive, the semi-spaces flip, and the rest of the young generation is freed.
    pub fn scavenge(&mut self) -> (r: GCResult)
        requires old(self).young_gen.capacity >= 42 * 64,
        ensures
            final(self).young_gen == flipped(old(self).young_gen),
            final(self).old_gen == old(self).old_gen,
            final(self).marking_state == old(self).marking_state,
            final(self).worklist@ == old(self).worklist@,
            r.bytes_freed == old(self).young_gen.capacity - 42 * 64,
            r.duration_us == 1200,
            r.survived_objects == 42,
            r.kind == GCKind::Scavenge,
    {
        let objects_to_move: usize = 42;
        let bytes_moved = objects_to_move * 64;
        self.young_gen.flip();
        GCResult {
            bytes_freed: self.young_gen.capacity - bytes_moved,
            duration_us: 1200,
            survived_objects: objects_to_move,
            kind: GCKind::Scavenge,
        }
    }

    /// Performs a Full Mark-Sweep-Compact cycle (Old Generation): incremental
    /// marking stops and its worklist is dropped.
    pub fn full_gc(&mut self) -> (r: GCResult)
        ensures
            final(self).young_gen == old(self).young_gen,
            final(self).old_gen == old(self).old_gen,
            final(self).marking_state == IncrementalMarkingState::Stopped,
            final(self).worklist@.len() == 0,
            r.bytes_freed == 1024 * 1024 * 100,
            r.duration_us == 15500,
            r.survived_objects == 5000,
            r.kind == GCKind::MarkSweepCompact,
    {
        self.marking_state = IncrementalMarkingState::Stopped;
        self.worklist.clear();
        GCResult {
            bytes_freed: 1024 * 1024 * 100,
            duration_us: 15500,
            survived_objects: 5000,
            kind: GCKind::MarkSweepCompact,
        }
    }

    /// An incremental marking step of `usec` microseconds: marking is under way.
    pub fn incremental_marking_step(&mut self, usec: u64) -> (r: GCResult)
        ensures
            final(self).young_gen == old(self).young_gen,
            final(self).old_gen == old(self).old_gen,
            final(self).marking_state == IncrementalMarkingState::Marking,
            final(self).worklist@ == old(self).worklist@,
            r.bytes_freed == 0,
            r.duration_us == usec,
            r.survived_objects == 0,
            r.kind == GCKind::IncrementalMarkingStep,
    {
        self.marking_state = IncrementalMarkingState::Marking;
        GCResult { bytes_freed: 0, duration_us: usec, survived_objects: 0, kind: GCKind::IncrementalMarkingStep }
    }

    /// A collection is a path from the heap state before it to the state after
    /// it: both ends are the collection's kind, described by the bytes freed.
    pub fn prove_gc_integrity(&self, result: &GCResult) -> (r: PathP<GCKind>)
        ensures
            r.start == result.kind,
            r.end == result.kind,
            r.mapping@ == "Identity-preserving GC transformation: Freed "@ + dec(result.bytes_freed as nat)
                + " bytes, preserved survivors."@,
    {
        let mut mapping = String::new();
        mapping.append("Identity-preserving GC transformation: Freed ");
        push_dec(&mut mapping, result.bytes_freed as u64);
        mapping.append(" bytes, preserved survivors.");
        PathP { start: result.kind, end: result.kind, mapping }
    }
}

impl Default for OrinocoGC {
    fn default() -> (r: Self)
        ensures r.young_gen.capacity == 1024 * 1024 * 16, r.marking_state == IncrementalMarkingState::Stopped,
    {
        Self::new()
    }
}

/// The generational write barrier.
pub struct WriteBarrier;

impl WriteBarrier {
    /// Records old-to-new pointers; the simulation keeps no remembered set.
    pub fn on_write(_host: usize, _value: usize, _is_value_new_space: bool) {
    }
}

} // verus!
