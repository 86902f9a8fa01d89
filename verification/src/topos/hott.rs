//! Paths between states, univalence and fibrations.
use vstd::prelude::*;
use vstd::std_specs::cmp::PartialEqSpec;

verus! {

/// A path from `start` to `end`, with a description of its mapping.
pub struct PathP<T> {
    pub start: T,
    pub end: T,
    pub mapping: String,
}

/// The univalence principle for paths.
pub struct UnivalenceAxiom;

impl UnivalenceAxiom {
    /// Whether the path's endpoints are equal (by `T`'s equality).
    pub fn id_to_equiv<T: PartialEq>(p: &PathP<T>) -> (r: bool)
        ensures T::obeys_eq_spec() ==> r == p.start.eq_spec(&p.end),
    {
        p.start == p.end
    }
}

/// A fibration: a projection from a total space onto a base space.
pub struct Fibration<F> {
    pub projection: F,
}

impl<F> Fibration<F> {
    /// Whether `optimized_start` projects onto the start of `bytecode_path`.
    pub fn lift_path<E, B: PartialEq>(&self, optimized_start: &E, bytecode_path: &PathP<B>) -> (r: bool)
        where F: Fn(&E) -> B,
        requires call_requires(self.projection, (optimized_start,)),
        ensures
            exists|b: B| #[trigger] call_ensures(self.projection, (optimized_start,), b)
                && (B::obeys_eq_spec() ==> r == b.eq_spec(&bytecode_path.start)),
    {
        let b = (self.projection)(optimized_start);
        let r = b == bytecode_path.start;
        assert(call_ensures(self.projection, (optimized_start,), b) && (B::obeys_eq_spec() ==> r == b.eq_spec(&bytecode_path.start)));
        r
    }
}

} // verus!
