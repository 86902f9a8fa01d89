//! A model of the core types of a JavaScript engine's runtime kernel: tagged
//! words, a Structure-of-Arrays heap, JavaScript objects and their state
//! machines, streaming jobs, a round-robin scheduler, and the gluing of
//! page-table mappings, with failures reported as structured diagnostics.
use vstd::prelude::*;

pub mod text;
pub mod advanced;
pub mod amb;
pub mod api;
pub mod branded;
pub mod compiler;
pub mod dffdf;
pub mod gc;
pub mod graph;
pub mod heap;
pub mod objects;
pub mod sandbox;
pub mod streaming;
pub mod topos;
pub mod wasm;

pub use branded::{RawAddress, Smi, TaggedAddress};
pub use dffdf::{CircuitBreaker, FailureKind as KernelError};
pub use heap::{Heap, ObjectIndex, MapIndex, InstanceType};
pub use objects::{JSObject, JSPromise, JSArray, JSFunction, PromiseState};
pub use amb::{MacroBatcher, AtomicBatch};
pub use streaming::{ScriptStreamingJob, WasmStreamingJob};
pub use compiler::{ExecutionTier, ICState};

verus! {

/// Centralized result type of the kernel: every failure is a `FailureKind`.
pub type KernelResult<T> = Result<T, dffdf::FailureKind>;

} // verus!
