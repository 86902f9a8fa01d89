//! V8 Compiler Tiers and Inline Caches.
//!
//! The multi-tier compilation strategy of V8, moving from interpreted
//! bytecode to highly optimized machine code, and the state machine of an
//! inline cache site.
use vstd::prelude::*;
use crate::topos::{PathP, Fibration};

verus! {

/// The execution tiers, from interpreter to optimizing compiler.
#[derive(Debug, Copy, Clone, Eq)]
pub enum ExecutionTier {
    Ignition,
    Sparkplug,
    Maglev,
    Turbofan,
    /// Experimental Speculative Tier using advanced research heuristics.
    ExperimentalSpeculative,
}

/// The position of a tier, from the interpreter up.
pub open spec fn tier_number(t: ExecutionTier) -> nat {
    match t {
        ExecutionTier::Ignition => 0,
        ExecutionTier::Sparkplug => 1,
        ExecutionTier::Maglev => 2,
        ExecutionTier::Turbofan => 3,
        ExecutionTier::ExperimentalSpeculative => 4,
    }
}

/// The position of a tier, from the interpreter up.
fn tier_position(t: &ExecutionTier) -> (r: u8)
    ensures r == tier_number(*t),
{
    match t {
        ExecutionTier::Ignition => 0,
        ExecutionTier::Sparkplug => 1,
        ExecutionTier::Maglev => 2,
        ExecutionTier::Turbofan => 3,
        ExecutionTier::ExperimentalSpeculative => 4,
    }
}

impl PartialEq for ExecutionTier {
    fn eq(&self, other: &Self) -> (r: bool) {
        tier_position(self) == tier_position(other)
    }
}

impl vstd::std_specs::cmp::PartialEqSpecImpl for ExecutionTier {
    open spec fn obeys_eq_spec() -> bool {
        true
    }

    open spec fn eq_spec(&self, other: &Self) -> bool {
        tier_number(*self) == tier_number(*other)
    }
}

/// Represents an Inline Cache (IC) site in the code.
pub struct InlineCache {
    pub state: ICState,
    pub hits: u32,
    pub misses: u32,
    pub call_count: u32,
}

/// The states of an inline cache.
#[derive(Debug, Copy, Clone, PartialEq, Eq, Structural)]
pub enum ICState {
    Uninitialized,
    PreMonomorphic,
    Monomorphic,
    Polymorphic,
    Megamorphic,
    Generic,
}

/// The order in which an inline cache moves through its states.
pub open spec fn ic_rank(s: ICState) -> nat {
    match s {
        ICState::Uninitialized => 0,
        ICState::PreMonomorphic => 1,
        ICState::Monomorphic => 2,
        ICState::Polymorphic => 3,
        ICState::Megamorphic => 4,
        ICState::Generic => 5,
    }
}

/// The state after a hit, given the hit count after it.
pub open spec fn state_after_hit(s: ICState, hits: u32) -> ICState {
    if hits > 10 && s == ICState::Uninitialized {
        ICState::PreMonomorphic
    } else if hits > 50 && s == ICState::PreMonomorphic {
        ICState::Monomorphic
    } else {
        s
    }
}

/// The state after a miss, given the miss count after it.
pub open spec fn state_after_miss(s: ICState, misses: u32) -> ICState {
    if misses > 2 && s == ICState::Monomorphic {
        ICState::Polymorphic
    } else if misses > 10 {
        ICState::Megamorphic
    } else {
        s
    }
}

impl InlineCache {
    /// An uninitialized cache with no calls.
    pub fn new() -> (r: Self)
        ensures r.state == ICState::Uninitialized, r.hits == 0, r.misses == 0, r.call_count == 0,
    {
        InlineCache { state: ICState::Uninitialized, hits: 0, misses: 0, call_count: 0 }
    }

    /// Records a cache hit: more than 10 hits warm an uninitialized cache to
    /// pre-monomorphic, more than 50 make a pre-monomorphic cache monomorphic.
    pub fn record_hit(&mut self)
        ensures
            final(self).hits == old(self).hits.wrapping_add(1),
            final(self).call_count == old(self).call_count.wrapping_add(1),
            final(self).misses == old(self).misses,
            final(self).state == state_after_hit(old(self).state, final(self).hits),
    {
        self.hits = self.hits.wrapping_add(1);
        self.call_count = self.call_count.wrapping_add(1);
        if self.hits > 10 && self.state == ICState::Uninitialized {
            self.state = ICState::PreMonomorphic;
        } else if self.hits > 50 && self.state == ICState::PreMonomorphic {
            self.state = ICState::Monomorphic;
        }
    }

    /// Records a cache miss: more than 2 misses make a monomorphic cache
    /// polymorphic, more than 10 make any cache megamorphic.
    pub fn record_miss(&mut self)
        ensures
            final(self).misses == old(self).misses.wrapping_add(1),
            final(self).call_count == old(self).call_count.wrapping_add(1),
            final(self).hits == old(self).hits,
            final(self).state == state_after_miss(old(self).state, final(self).misses),
    {
        self.misses = self.misses.wrapping_add(1);
        self.call_count = self.call_count.wrapping_add(1);
        if self.misses > 2 && self.state == ICState::Monomorphic {
            self.state = ICState::Polymorphic;
        } else if self.misses > 10 {
            self.state = ICState::Megamorphic;
        }
    }
}

/// An inline cache only moves forward through its states (from any state the
/// API can reach, that is, any but `Generic`), and a megamorphic cache stays
/// megamorphic.
pub proof fn lemma_ic_monotone(s: ICState, n: u32)
    requires s != ICState::Generic,
    ensures
        ic_rank(state_after_hit(s, n)) >= ic_rank(s),
        ic_rank(state_after_miss(s, n)) >= ic_rank(s),
        s == ICState::Megamorphic ==> state_after_hit(s, n) == s && state_after_miss(s, n) == s,
{
}

/// What one miss does, with `misses` the miss count after it: a monomorphic
/// cache past two misses becomes polymorphic; otherwise, past ten misses any
/// cache becomes megamorphic; otherwise the state is kept.
pub proof fn lemma_ic_miss_law(s: ICState, misses: u32)
    ensures
        s == ICState::Monomorphic && misses > 2 ==> state_after_miss(s, misses) == ICState::Polymorphic,
        !(s == ICState::Monomorphic && misses > 2) && misses > 10 ==> state_after_miss(s, misses) == ICState::Megamorphic,
        misses <= 2 ==> state_after_miss(s, misses) == s,
        s != ICState::Monomorphic && misses <= 10 ==> state_after_miss(s, misses) == s,
{
}

/// What one hit does, with `hits` the hit count after it: past ten hits an
/// uninitialized cache becomes pre-monomorphic, past fifty a pre-monomorphic
/// cache becomes monomorphic, and every other state is kept.
pub proof fn lemma_ic_hit_law(s: ICState, hits: u32)
    ensures
        s == ICState::Uninitialized && hits > 10 ==> state_after_hit(s, hits) == ICState::PreMonomorphic,
        s == ICState::PreMonomorphic && hits > 50 ==> state_after_hit(s, hits) == ICState::Monomorphic,
        s != ICState::Uninitialized && s != ICState::PreMonomorphic ==> state_after_hit(s, hits) == s,
        hits <= 10 ==> state_after_hit(s, hits) == s,
{
}

/// The state of a cache that starts in `s` with no misses, after `k` misses.
pub open spec fn after_misses(s: ICState, k: nat) -> ICState
    decreases k,
{
    if k == 0 { s } else { state_after_miss(after_misses(s, (k - 1) as nat), k as u32) }
}

/// The state of a cache that starts in `s` with no hits, after `k` hits.
pub open spec fn after_hits(s: ICState, k: nat) -> ICState
    decreases k,
{
    if k == 0 { s } else { state_after_hit(after_hits(s, (k - 1) as nat), k as u32) }
}

/// The first two misses change no state.
proof fn lemma_first_misses(s: ICState, k: nat)
    requires k <= 2,
    ensures after_misses(s, k) == s,
    decreases k,
{
    if k > 0 {
        lemma_first_misses(s, (k - 1) as nat);
    }
}

/// More than two misses leave no cache monomorphic (short of `u32::MAX` misses).
proof fn lemma_misses_leave_monomorphic(s: ICState, k: nat)
    requires 3 <= k <= u32::MAX,
    ensures after_misses(s, k) != ICState::Monomorphic,
    decreases k,
{
    if k > 3 {
        lemma_misses_leave_monomorphic(s, (k - 1) as nat);
    } else {
        lemma_first_misses(s, 2);
    }
}

/// Misses drive any cache to megamorphic: from any state, after more than ten
/// misses (and up to `u32::MAX`) the cache is megamorphic; a monomorphic cache
/// is polymorphic after three to ten misses; and an uninitialized cache stays
/// uninitialized for its first ten misses.
pub proof fn lemma_misses_make_megamorphic(s: ICState, k: nat)
    requires k <= u32::MAX,
    ensures
        k > 10 ==> after_misses(s, k) == ICState::Megamorphic,
        s == ICState::Monomorphic && 3 <= k <= 10 ==> after_misses(s, k) == ICState::Polymorphic,
        s == ICState::Uninitialized && k <= 10 ==> after_misses(s, k) == ICState::Uninitialized,
    decreases k,
{
    if k > 0 {
        lemma_misses_make_megamorphic(s, (k - 1) as nat);
        if k <= 3 {
            lemma_first_misses(s, (k - 1) as nat);
        }
        if k > 10 {
            lemma_misses_leave_monomorphic(s, (k - 1) as nat);
        }
    }
}

/// Hits warm a new cache: starting uninitialized, it is pre-monomorphic after
/// 11 to 50 hits and monomorphic after more than 50 (up to `u32::MAX`).
pub proof fn lemma_hits_warm_cache(k: nat)
    requires k <= u32::MAX,
    ensures
        k <= 10 ==> after_hits(ICState::Uninitialized, k) == ICState::Uninitialized,
        11 <= k <= 50 ==> after_hits(ICState::Uninitialized, k) == ICState::PreMonomorphic,
        k > 50 ==> after_hits(ICState::Uninitialized, k) == ICState::Monomorphic,
    decreases k,
{
    if k > 0 {
        lemma_hits_warm_cache((k - 1) as nat);
    }
}

impl Default for InlineCache {
    fn default() -> (r: Self)
        ensures r.state == ICState::Uninitialized, r.hits == 0, r.misses == 0, r.call_count == 0,
    {
        Self::new()
    }
}

/// Represents a compiler optimization pass.
pub struct OptimizationPass {
    pub name: &'static str,
    pub is_enabled: bool,
}

/// V8's Sea-of-Nodes IR.
pub struct SeaOfNodesIR;

impl SeaOfNodesIR {
    /// Global Value Numbering; the simulation has no graph to transform.
    pub fn perform_gvn() {
    }

    /// Dead Code Elimination; the simulation has no graph to transform.
    pub fn perform_dce() {
    }
}

/// A deoptimization: the reason and the bailout point.
pub struct Deoptimizer {
    pub reason: DeoptReason,
    pub bailout_id: u32,
}

/// The reasons of a deoptimization.
#[derive(Debug, Copy, Clone, PartialEq, Eq, Structural)]
pub enum DeoptReason {
    WrongInstanceType,
    OutOfMemory,
    MissingProperty,
    ArrayBoundsCheckFailed,
}

/// Register Allocation in the compiler.
pub struct RegisterAllocator {
    pub available_registers: u32,
}

impl RegisterAllocator {
    /// The register assigned to a node: always register 0 in the simulation.
    pub fn allocate_for_node(_node_id: u32) -> (r: u32)
        ensures r == 0,
    {
        0
    }
}

/// V8's Code Cache.
pub struct CodeCache {
    pub version: u32,
    pub payload: Vec<u8>,
}

/// Verifies that an optimized code path is equivalent to the bytecode path.
pub struct HoTTCompilerVerifier;

/// The bytecode tier an optimized tier projects back to: optimized code of
/// Turbofan or Maglev stands for Ignition bytecode, other tiers for themselves.
pub open spec fn tier_projection(t: ExecutionTier) -> ExecutionTier {
    match t {
        ExecutionTier::Turbofan | ExecutionTier::Maglev => ExecutionTier::Ignition,
        _ => t,
    }
}

/// Projects an execution tier back to its bytecode tier.
fn project_tier(tier: &ExecutionTier) -> (p: ExecutionTier)
    ensures p == tier_projection(*tier),
{
    match tier {
        ExecutionTier::Turbofan | ExecutionTier::Maglev => ExecutionTier::Ignition,
        _ => *tier,
    }
}

impl HoTTCompilerVerifier {
    /// Whether the optimized state projects back onto the start of the bytecode path.
    pub fn verify_optimization_equivalence(
        optimized_state: &ExecutionTier,
        bytecode_path: &PathP<ExecutionTier>,
    ) -> (r: bool)
        ensures r == (tier_projection(*optimized_state) == bytecode_path.start),
    {
        assert(forall|a: ExecutionTier, b: ExecutionTier| tier_number(a) == tier_number(b) <==> a == b);
        let fib = Fibration { projection: project_tier };
        fib.lift_path(optimized_state, bytecode_path)
    }
}

} // verus!
