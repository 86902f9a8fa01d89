//! V8 Sandbox Simulation.
//!
//! The sandbox confines the memory access of sandboxed objects to one range,
//! so that control over such an object gives no arbitrary read or write.
use vstd::prelude::*;
use crate::KernelResult;
use crate::dffdf::{FailureKind, FailureView, outcome};

verus! {

/// Represents a pointer within the V8 sandbox: an offset from its base.
#[derive(Debug, Copy, Clone, PartialEq, Eq, Structural)]
pub struct SandboxPtr(pub usize);

/// The sandbox environment configuration.
pub struct V8Sandbox {
    pub base: usize,
    pub size: usize,
}

impl V8Sandbox {
    /// Creates a new sandbox with the given base and size.
    pub fn new(base: usize, size: usize) -> (r: Self)
        ensures r.base == base, r.size == size,
    {
        V8Sandbox { base, size }
    }

    /// Resolves a sandboxed pointer to a raw memory address.
    ///
    /// The address is the base plus the offset (wrapping); it is returned
    /// only when it lies in `[base, base + size)` (that end wrapping too), and
    /// `FailureKind::SecurityViolation` is returned otherwise. A resolved
    /// address therefore always lies within the sandbox.
    pub fn resolve(&self, ptr: SandboxPtr) -> (r: KernelResult<usize>)
        ensures
            ({
                let addr = self.base.wrapping_add(ptr.0);
                if addr >= self.base && addr < self.base.wrapping_add(self.size) {
                    r == Ok::<usize, FailureKind>(addr)
                } else {
                    outcome(r) == Err::<usize, FailureView>(FailureView::SecurityViolation {
                        ptr: addr,
                        sandbox_base: self.base,
                        sandbox_size: self.size,
                    })
                }
            }),
            r matches Ok(addr) ==> self.base <= addr < self.base + self.size,
    {
        let addr = self.base.wrapping_add(ptr.0);
        if addr >= self.base && addr < self.base.wrapping_add(self.size) {
            Ok(addr)
        } else {
            Err(FailureKind::SecurityViolation { ptr: addr, sandbox_base: self.base, sandbox_size: self.size })
        }
    }

    /// Reserves a region of `requested_size` bytes within the sandbox.
    ///
    /// A region larger than the sandbox is refused with
    /// `FailureKind::HeapExhausted` (the request and the sandbox's size);
    /// otherwise the region starts at offset 0, and so lies inside the sandbox.
    pub fn reserve_region(&self, requested_size: usize) -> (r: KernelResult<SandboxPtr>)
        ensures
            requested_size > self.size ==> r == Err::<SandboxPtr, FailureKind>(
                FailureKind::HeapExhausted { requested: requested_size, available: self.size }),
            requested_size <= self.size ==> r == Ok::<SandboxPtr, FailureKind>(SandboxPtr(0)),
            r matches Ok(p) ==> p.0 + requested_size <= self.size,
    {
        if requested_size > self.size {
            Err(FailureKind::HeapExhausted { requested: requested_size, available: self.size })
        } else {
            Ok(SandboxPtr(0))
        }
    }
}

impl Default for V8Sandbox {
    /// A 1 GB sandbox at `0x8000_0000`.
    fn default() -> (r: Self)
        ensures r.base == 0x8000_0000, r.size == 1024 * 1024 * 1024,
    {
        Self::new(0x8000_0000, 1024 * 1024 * 1024)
    }
}

} // verus!
