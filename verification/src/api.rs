//! V8 Embedding API.
use vstd::prelude::*;
use crate::branded::TaggedAddress;

verus! {

/// The embedding API.
pub struct V8API;

/// The arguments of a function callback and its return value.
pub struct FunctionCallbackInfo {
    pub args: Vec<TaggedAddress>,
    pub return_value: TaggedAddress,
}

impl V8API {
    /// Enters the isolate; the simulation has no isolate state.
    pub fn enter_isolate() {
    }
}

} // verus!
