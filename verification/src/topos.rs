//! Topos-style checks of the kernel simulation: gluing the mappings of the
//! page-table levels into one consistent translation, modal logic over the
//! scheduler's stages, and paths between states.
use vstd::prelude::*;
use vstd::string::*;
use std::collections::HashMap;
use crate::dffdf::FailureKind;
use crate::text::str_equals;

pub mod hott;
pub mod sheaf;

pub use hott::{PathP, UnivalenceAxiom, Fibration};
pub use sheaf::{SheafSection, PageRange, BrandedVAddr, PageTableLevel, CechCohomology, PageOverlap, BrandedPAddr, MmuSheaf};

verus! {

/// The stages of the scheduler, as worlds of a Kripke model.
#[derive(Clone, Copy, PartialEq, Eq, Debug, Structural)]
pub enum KripkeStage {
    Idle,
    Running { task_id: BrandedTaskId },
    Terminated { task_id: BrandedTaskId, exit_code: i32 },
}

/// A task identifier.
#[derive(Clone, Copy, PartialEq, Eq, Hash, Debug, Structural)]
pub struct BrandedTaskId(pub u64);

/// The history of scheduler stages, starting with `Idle`.
#[derive(Clone)]
pub struct SchedulerTopos {
    pub stages: Vec<KripkeStage>,
    pub current_stage: usize,
}

/// The modal operators of the scheduler logic.
#[derive(Clone, Copy, PartialEq, Eq, Debug, Structural)]
pub enum ModalOperator {
    Necessity,
    Possibility,
    Eventually,
    Henceforth,
}

/// Whether a stage has a task running.
pub open spec fn is_running(s: KripkeStage) -> bool {
    s is Running
}

/// Whether some recorded stage has a task running.
pub open spec fn some_running(stages: Seq<KripkeStage>) -> bool {
    exists|i: int| 0 <= i < stages.len() && #[trigger] is_running(stages[i])
}

impl SchedulerTopos {
    /// A history with the single stage `Idle`.
    pub fn new() -> (r: Self)
        ensures r.stages@ == seq![KripkeStage::Idle], r.current_stage == 0,
    {
        SchedulerTopos { stages: vec![KripkeStage::Idle], current_stage: 0 }
    }

    /// Records a new stage and moves to it.
    pub fn advance_stage(&mut self, new_stage: KripkeStage)
        ensures
            final(self).stages@ == old(self).stages@.push(new_stage),
            final(self).current_stage == old(self).current_stage.wrapping_add(1),
    {
        self.stages.push(new_stage);
        self.current_stage = self.current_stage.wrapping_add(1);
    }

    /// Evaluates a proposition: `"running"` holds when some recorded stage has
    /// a task running; every other proposition is false. The operator does not
    /// change the evaluation.
    pub fn evaluate_modal(&self, proposition: &str, _op: ModalOperator) -> (r: bool)
        ensures r == (proposition@ == "running"@ && some_running(self.stages@)),
    {
        if str_equals(proposition, "running") {
            let mut i: usize = 0;
            while i < self.stages.len()
                invariant
                    i <= self.stages@.len(),
                    proposition@ == "running"@,
                    forall|j: int| 0 <= j < i ==> !#[trigger] is_running(self.stages@[j]),
                decreases self.stages.len() - i,
            {
                if let KripkeStage::Running { .. } = self.stages[i] {
                    assert(is_running(self.stages@[i as int]));
                    return true;
                }
                i = i + 1;
            }
            false
        } else {
            false
        }
    }
}

/// Once a task has been seen running, the history keeps saying so: recording
/// further stages never makes `"running"` false again.
pub proof fn lemma_running_persists(stages: Seq<KripkeStage>, new_stage: KripkeStage)
    requires some_running(stages),
    ensures some_running(stages.push(new_stage)),
{
    let i = choose|i: int| 0 <= i < stages.len() && #[trigger] is_running(stages[i]);
    assert(stages.push(new_stage)[i] == stages[i]);
    assert(is_running(stages.push(new_stage)[i]));
}

impl Default for SchedulerTopos {
    fn default() -> (r: Self)
        ensures r.stages@ == seq![KripkeStage::Idle], r.current_stage == 0,
    {
        Self::new()
    }
}

/// A node of memory.
pub struct MemoryNode {
    pub id: BrandedVAddr,
}

/// A collection of memory nodes.
pub struct MemoryCohesion {
    pub nodes: Vec<MemoryNode>,
}

impl MemoryCohesion {
    /// An empty collection.
    pub fn new() -> (r: Self)
        ensures r.nodes@.len() == 0,
    {
        MemoryCohesion { nodes: Vec::new() }
    }

    /// The shape of the memory: one component per node, the node count as
    /// Euler characteristic (truncated to `i32`), and a "high" cache efficiency.
    pub fn shape_modality(&self) -> (r: MemoryShape)
        ensures
            r.connected_components == self.nodes@.len(),
            r.euler_characteristic == self.nodes@.len() as i32,
            r.cache_efficiency@ == "high"@,
    {
        MemoryShape {
            connected_components: self.nodes.len(),
            euler_characteristic: self.nodes.len() as i32,
            cache_efficiency: "high",
        }
    }
}

impl Default for MemoryCohesion {
    fn default() -> (r: Self)
        ensures r.nodes@.len() == 0,
    {
        Self::new()
    }
}

/// The shape of a memory collection.
pub struct MemoryShape {
    pub connected_components: usize,
    pub euler_characteristic: i32,
    pub cache_efficiency: &'static str,
}

/// A point of an execution trace.
#[derive(Clone, PartialEq, Eq, Hash, Debug)]
pub struct TracePoint {
    pub action: String,
    pub operand: BrandedVAddr,
    pub state_hash: u64,
}

/// Execution traces, for the detection of equivalent paths and loops.
pub struct ExecutionHomotopy {
    pub paths: Vec<Vec<TracePoint>>,
}

impl ExecutionHomotopy {
    /// No recorded path.
    pub fn new() -> (r: Self)
        ensures r.paths@.len() == 0,
    {
        ExecutionHomotopy { paths: Vec::new() }
    }

    /// The repeating pattern of a stuck loop in `path`; the simulation
    /// detects none (paths shorter than 4 points are not examined).
    pub fn detect_subloop(&self, path: &[TracePoint]) -> (r: Option<String>)
        ensures r is None,
    {
        if path.len() < 4 {
            return None;
        }
        None
    }
}

impl Default for ExecutionHomotopy {
    fn default() -> (r: Self)
        ensures r.paths@.len() == 0,
    {
        Self::new()
    }
}

/// Error healing for malformed memory accesses.
pub struct KernelQuasitopos;

impl KernelQuasitopos {
    /// Aligns a misaligned access address up to the next multiple of 8
    /// (with wrapping addition); an aligned address is left as it is.
    pub fn heal_malformed_access(access: &mut MemoryAccess)
        ensures
            final(access).size == old(access).size,
            old(access).address.0 % 8 == 0 ==> final(access).address == old(access).address,
            old(access).address.0 % 8 != 0 ==> final(access).address.0 == old(access).address.0.wrapping_add(7) & !7u64,
            final(access).address.0 % 8 == 0,
    {
        if access.address.0 % 8 != 0 {
            let a = access.address.0;
            let w = a.wrapping_add(7);
            assert((w & !7u64) % 8 == 0) by (bit_vector);
            access.address = BrandedVAddr(w & !7u64);
        }
    }

    /// Factors a failure into its rendered text and the valid part of the state.
    pub fn exact_complete(error: &FailureKind, context: &SystemContext) -> (r: ErrorFactorization)
        ensures
            r.epi@ == crate::dffdf::render(error@),
            r.mono@ == context.valid_state@,
    {
        ErrorFactorization { epi: error.to_string(), mono: context.valid_state.clone() }
    }
}

/// A memory access: an address and a size.
pub struct MemoryAccess {
    pub address: BrandedVAddr,
    pub size: usize,
}

/// A failure factored into its description and the state that stays valid.
pub struct ErrorFactorization {
    pub epi: String,
    pub mono: HashMap<String, u64>,
}

/// The valid part of the system state.
pub struct SystemContext {
    pub valid_state: HashMap<String, u64>,
}

/// The prototype chains of named objects: each entry names an object and
/// lists its prototypes; no object is named twice.
pub struct ObjectTwoTopos {
    pub hierarchy: Vec<(String, Vec<String>)>,
}

/// The prototype chains as a map from object name to the names of its prototypes.
pub open spec fn chains_of(entries: Seq<(String, Vec<String>)>) -> Map<Seq<char>, Seq<Seq<char>>>
    decreases entries.len(),
{
    if entries.len() == 0 {
        Map::empty()
    } else {
        let last = entries.last();
        chains_of(entries.drop_last()).insert(last.0@, last.1@.map_values(|s: String| s@))
    }
}

/// No two entries name the same object.
pub open spec fn names_distinct(entries: Seq<(String, Vec<String>)>) -> bool {
    forall|i: int, j: int| 0 <= i < entries.len() && 0 <= j < entries.len() && i != j
        ==> (#[trigger] entries[i]).0@ != (#[trigger] entries[j]).0@
}

proof fn lemma_chains_update(entries: Seq<(String, Vec<String>)>, i: int, e: (String, Vec<String>))
    requires
        names_distinct(entries),
        0 <= i < entries.len(),
        entries[i].0@ == e.0@,
    ensures
        chains_of(entries.update(i, e)) == chains_of(entries).insert(e.0@, e.1@.map_values(|s: String| s@)),
        names_distinct(entries.update(i, e)),
    decreases entries.len(),
{
    let n = entries.len();
    if i == n - 1 {
        assert(entries.update(i, e).drop_last() =~= entries.drop_last());
        assert(chains_of(entries.update(i, e)) =~= chains_of(entries).insert(e.0@, e.1@.map_values(|s: String| s@)));
    } else {
        assert(entries.update(i, e).drop_last() =~= entries.drop_last().update(i, e));
        assert(names_distinct(entries.drop_last()));
        lemma_chains_update(entries.drop_last(), i, e);
        assert(entries.last().0@ != e.0@);
        assert(chains_of(entries.update(i, e)) =~= chains_of(entries).insert(e.0@, e.1@.map_values(|s: String| s@)));
    }
}

proof fn lemma_chains_absent(entries: Seq<(String, Vec<String>)>, name: Seq<char>)
    requires forall|j: int| 0 <= j < entries.len() ==> (#[trigger] entries[j]).0@ != name,
    ensures !chains_of(entries).contains_key(name),
    decreases entries.len(),
{
    if entries.len() > 0 {
        lemma_chains_absent(entries.drop_last(), name);
    }
}

impl ObjectTwoTopos {
    /// No recorded object.
    pub fn new() -> (r: Self)
        ensures r.hierarchy@.len() == 0,
    {
        ObjectTwoTopos { hierarchy: Vec::new() }
    }

    /// Records (or replaces) the prototype chain of `object`.
    pub fn register_prototype_chain(&mut self, object: &str, prototypes: Vec<String>)
        requires names_distinct(old(self).hierarchy@),
        ensures
            names_distinct(final(self).hierarchy@),
            chains_of(final(self).hierarchy@) == chains_of(old(self).hierarchy@).insert(object@, prototypes@.map_values(|s: String| s@)),
    {
        let key = String::from_str(object);
        let mut i: usize = 0;
        while i < self.hierarchy.len()
            invariant
                i <= self.hierarchy@.len(),
                self.hierarchy@ == old(self).hierarchy@,
                names_distinct(old(self).hierarchy@),
                key@ == object@,
                forall|j: int| 0 <= j < i ==> (#[trigger] self.hierarchy@[j]).0@ != object@,
            decreases self.hierarchy.len() - i,
        {
            if self.hierarchy[i].0 == key {
                proof { lemma_chains_update(self.hierarchy@, i as int, (key, prototypes)); }
                self.hierarchy.set(i, (key, prototypes));
                return;
            }
            i = i + 1;
        }
        proof {
            lemma_chains_absent(self.hierarchy@, object@);
            assert(self.hierarchy@.push((key, prototypes)).drop_last() =~= self.hierarchy@);
        }
        self.hierarchy.push((key, prototypes));
    }
}

impl Default for ObjectTwoTopos {
    fn default() -> (r: Self)
        ensures r.hierarchy@.len() == 0,
    {
        Self::new()
    }
}

} // verus!
