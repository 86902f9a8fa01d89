//! Promise reactions (then/catch chains).
use vstd::prelude::*;
use crate::KernelResult;
use crate::heap::Heap;
use crate::objects::JSPromise;
use crate::branded::TaggedAddress;

verus! {

/// Simulated reaction types.
pub enum ReactionType {
    Fulfill,
    Reject,
}

/// Appends a reaction handler to a promise.
///
/// The simulation keeps no reaction list: the call succeeds and leaves the
/// heap unchanged.
pub fn add_reaction(
    _heap: &mut Heap,
    _promise: &JSPromise,
    _reaction_type: ReactionType,
    _handler: TaggedAddress,
) -> (r: KernelResult<()>)
    ensures
        r is Ok,
        final(_heap)@ == old(_heap)@,
{
    Ok(())
}

} // verus!
