//! WebAssembly Support Simulation: modules and their validation.
use vstd::prelude::*;
use crate::KernelResult;
use crate::dffdf::{FailureKind, FailureView, outcome};

verus! {

/// Represents a WebAssembly module being processed by the kernel.
pub struct WasmModule {
    pub id: u32,
    pub bytecode: Vec<u8>,
    pub is_valid: bool,
}

impl WasmModule {
    /// Creates a new, not yet validated, Wasm module.
    pub fn new(id: u32, bytecode: Vec<u8>) -> (r: Self)
        ensures r.id == id, r.bytecode@ == bytecode@, !r.is_valid,
    {
        WasmModule { id, bytecode, is_valid: false }
    }

    /// Validates the Wasm bytecode: empty bytecode is refused with
    /// `FailureKind::WasmValidationError` at offset 0, anything else is valid.
    pub fn validate(&mut self) -> (r: KernelResult<()>)
        ensures
            final(self).id == old(self).id,
            final(self).bytecode@ == old(self).bytecode@,
            old(self).bytecode@.len() == 0 ==> final(self).is_valid == old(self).is_valid
                && outcome(r) == Err::<(), FailureView>(FailureView::WasmValidationError { offset: 0, reason: "Empty bytecode"@ }),
            old(self).bytecode@.len() > 0 ==> final(self).is_valid && r is Ok,
    {
        if self.bytecode.len() == 0 {
            return Err(FailureKind::WasmValidationError { offset: 0, reason: "Empty bytecode" });
        }
        self.is_valid = true;
        Ok(())
    }
}

} // verus!
