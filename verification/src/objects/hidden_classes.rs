//! The Hidden Class (Map) transition system.
//!
//! When a property is added to an object, V8 moves it to a new Map that
//! includes the property. Objects built with the same property sequence
//! share their Maps.
use vstd::prelude::*;
use crate::heap::MapIndex;
use crate::branded::TaggedAddress;

verus! {

/// Represents a transition from one Map to another.
pub struct MapTransition {
    pub from: MapIndex,
    pub to: MapIndex,
    pub property_name: TaggedAddress,
}

/// Simulates a Map transition tree.
pub struct TransitionTree {
    pub transitions: Vec<MapTransition>,
}

/// Whether transition `t` leaves `from` on adding `name`.
pub open spec fn leaves(t: MapTransition, from: MapIndex, name: TaggedAddress) -> bool {
    t.from == from && t.property_name == name
}

impl TransitionTree {
    /// An empty tree.
    pub fn new() -> (r: Self)
        ensures r.transitions@.len() == 0,
    {
        TransitionTree { transitions: Vec::new() }
    }

    /// Records the transition from `from` to `to` on adding `name`.
    pub fn add_transition(&mut self, from: MapIndex, to: MapIndex, name: TaggedAddress)
        ensures final(self).transitions@ == old(self).transitions@.push(MapTransition { from, to, property_name: name }),
    {
        self.transitions.push(MapTransition { from, to, property_name: name });
    }

    /// The target of the first recorded transition from `from` on `name`, if any.
    pub fn find_transition(&self, from: MapIndex, name: TaggedAddress) -> (r: Option<MapIndex>)
        ensures
            r is None <==> (forall|i: int| 0 <= i < self.transitions@.len() ==> !leaves(#[trigger] self.transitions@[i], from, name)),
            r matches Some(to) ==> exists|i: int| 0 <= i < self.transitions@.len()
                && leaves(#[trigger] self.transitions@[i], from, name)
                && self.transitions@[i].to == to
                && forall|j: int| 0 <= j < i ==> !leaves(#[trigger] self.transitions@[j], from, name),
    {
        let mut i: usize = 0;
        while i < self.transitions.len()
            invariant
                i <= self.transitions@.len(),
                forall|j: int| 0 <= j < i ==> !leaves(#[trigger] self.transitions@[j], from, name),
            decreases self.transitions.len() - i,
        {
            let t = &self.transitions[i];
            if t.from == from && t.property_name == name {
                return Some(t.to);
            }
            i = i + 1;
        }
        None
    }
}

} // verus!
