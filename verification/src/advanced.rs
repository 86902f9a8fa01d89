//! Research notes on speculative engine heuristics.
use vstd::prelude::*;

verus! {

/// Theory: Manifold-based Code Optimization.
///
/// The execution flow of a kernel can be mapped onto an n-dimensional
/// manifold; its "geodesics" point at regions of the kernel most likely to
/// benefit from aggressive JIT optimization without costly deoptimizations.
pub struct ManifoldTheoryDocs;

/// Theory: Quantum Heuristics in Security.
///
/// Superposition models might detect "impossible" paths in code execution,
/// and with them potential exploits before they occur.
pub struct QuantumSecurityDocs;

} // verus!
