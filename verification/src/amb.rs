//! Atomic Macro Batcher — Kernel Scheduler Simulation.
//!
//! Batches of kernel work guarded by a circuit breaker, a preemptive
//! round-robin scheduler with time slices, and a counting semaphore.
//!
//! # Scheduler Design: Round-Robin with Time Quanta
//! Each task is assigned a fixed time interval, the time quantum. If the task
//! does not complete within its quantum, the CPU is preempted and given to
//! the next task in the ready queue.
use vstd::prelude::*;
use vstd::string::*;
use crate::KernelResult;
use crate::dffdf::{FailureKind, FailureView, CircuitBreaker, Ratio, outcome, record_all};

verus! {

/// An atomic sequence of kernel operations (a "system call"): each operation
/// is a closure that returns a `KernelResult`.
pub struct AtomicBatch<F> {
    pub id: u64,
    pub operations: Vec<F>,
}

/// Orchestrates batches of kernel work with safety guardrails: a circuit
/// breaker stops the kernel from thrashing on continuous failures.
pub struct MacroBatcher<F> {
    pub circuit_breaker: CircuitBreaker,
    pub pending_batches: Vec<AtomicBatch<F>>,
    pub processed_batches: u64,
}

/// The error-rate threshold of a batcher: 10%.
pub open spec fn batch_threshold() -> Ratio {
    Ratio { num: 1, den: 10 }
}

impl<F> MacroBatcher<F> {
    /// Creates a batcher whose breaker trips above a 10% error rate after 5 operations.
    pub fn new() -> (r: Self)
        ensures
            r.circuit_breaker@.threshold == batch_threshold(),
            r.circuit_breaker@.min_ops == 5,
            r.circuit_breaker@.errors == 0,
            r.circuit_breaker@.total_ops == 0,
            !r.circuit_breaker@.tripped,
            r.pending_batches@.len() == 0,
            r.processed_batches == 0,
    {
        MacroBatcher {
            circuit_breaker: CircuitBreaker::new(Ratio { num: 1, den: 10 }, 5),
            pending_batches: Vec::new(),
            processed_batches: 0,
        }
    }

    /// Submits a batch of work.
    ///
    /// A tripped breaker refuses the batch with `CircuitBreakerTripped`.
    /// Otherwise the operations run in order and each result is recorded in
    /// the breaker; the first failing operation ends the batch with
    /// `BatchFailure`. A batch whose operations all succeed is counted.
    pub fn submit(&mut self, batch: AtomicBatch<F>) -> (r: KernelResult<()>)
        where F: FnOnce() -> KernelResult<()>,
        requires
            old(self).circuit_breaker@.tripped
                || old(self).circuit_breaker@.total_ops + batch.operations@.len() < usize::MAX,
            forall|i: int| 0 <= i < batch.operations@.len() ==> call_requires(#[trigger] batch.operations@[i], ()),
        ensures
            final(self).pending_batches@ == old(self).pending_batches@,
            old(self).circuit_breaker@.tripped ==> {
                &&& final(self).circuit_breaker@ == old(self).circuit_breaker@
                &&& final(self).processed_batches == old(self).processed_batches
                &&& outcome(r) == Err::<(), FailureView>(FailureView::CircuitBreakerTripped {
                    threshold: batch_threshold(),
                    current_rate: if old(self).circuit_breaker@.total_ops == 0 {
                        Ratio { num: 0, den: 1 }
                    } else {
                        Ratio { num: old(self).circuit_breaker@.errors as u64, den: old(self).circuit_breaker@.total_ops as u64 }
                    },
                })
            },
            !old(self).circuit_breaker@.tripped ==> exists|results: Seq<KernelResult<()>>| {
                &&& 0 < results.len() <= batch.operations@.len() || (results.len() == 0 && batch.operations@.len() == 0)
                &&& forall|i: int| 0 <= i < results.len() ==> call_ensures(batch.operations@[i], (), #[trigger] results[i])
                &&& forall|i: int| 0 <= i < results.len() - 1 ==> (#[trigger] results[i]) is Ok
                &&& final(self).circuit_breaker@ == record_all(old(self).circuit_breaker@, results.map_values(|x: KernelResult<()>| x is Err))
                &&& r is Ok <==> (results.len() == batch.operations@.len() && (results.len() == 0 || results.last() is Ok))
                &&& r is Ok ==> final(self).processed_batches == old(self).processed_batches.wrapping_add(1)
                &&& r is Err ==> final(self).processed_batches == old(self).processed_batches
                    && results.last() is Err
                    && outcome(r) == Err::<(), FailureView>(FailureView::BatchFailure {
                        batch_id: batch.id,
                        reason: "Simulated Kernel Panic: Batch execution failed"@,
                    })
            },
    {
        if self.circuit_breaker.is_tripped() {
            return Err(FailureKind::CircuitBreakerTripped {
                threshold: Ratio { num: 1, den: 10 },
                current_rate: self.circuit_breaker.current_rate(),
            });
        }
        let id = batch.id;
        let mut ops = batch.operations;
        let ghost all = ops@;
        let ghost start = self.circuit_breaker@;
        let ghost mut results: Seq<KernelResult<()>> = Seq::empty();
        while ops.len() > 0
            invariant
                results.len() + ops@.len() == all.len(),
                all == batch.operations@,
                ops@ == all.skip(results.len() as int),
                forall|i: int| 0 <= i < ops@.len() ==> call_requires(#[trigger] ops@[i], ()),
                forall|i: int| 0 <= i < results.len() ==> call_ensures(all[i], (), #[trigger] results[i]),
                forall|i: int| 0 <= i < results.len() ==> (#[trigger] results[i]) is Ok,
                !old(self).circuit_breaker@.tripped,
                start == old(self).circuit_breaker@,
                id == batch.id,
                self.circuit_breaker@ == record_all(start, results.map_values(|x: KernelResult<()>| x is Err)),
                self.circuit_breaker@.tripped || self.circuit_breaker@.total_ops == start.total_ops + results.len(),
                start.total_ops + all.len() < usize::MAX,
                self.processed_batches == old(self).processed_batches,
                self.pending_batches@ == old(self).pending_batches@,
            decreases ops.len(),
        {
            assert(call_requires(ops@[0], ()));
            let ghost before = ops@;
            let op = ops.remove(0);
            assert forall|i: int| 0 <= i < ops@.len() implies call_requires(#[trigger] ops@[i], ()) by {
                assert(ops@[i] == before[i + 1]);
            }
            let res = op();
            let ghost prev = results;
            self.circuit_breaker.record(&res);
            proof {
                results = results.push(res);
                assert(results.map_values(|x: KernelResult<()>| x is Err).drop_last()
                    =~= prev.map_values(|x: KernelResult<()>| x is Err));
                assert(all[prev.len() as int] == before[0]);
                assert(ops@ =~= all.skip(results.len() as int));
            }
            if res.is_err() {
                proof {
                    assert(results.last() is Err);
                    assert forall|i: int| 0 <= i < results.len() - 1 implies (#[trigger] results[i]) is Ok by {
                        assert(results[i] == prev[i]);
                    }
                    assert forall|i: int| 0 <= i < results.len() implies call_ensures(all[i], (), #[trigger] results[i]) by {
                        if i < prev.len() { assert(results[i] == prev[i]); }
                    }
                }
                return Err(FailureKind::BatchFailure {
                    batch_id: id,
                    reason: String::from_str("Simulated Kernel Panic: Batch execution failed"),
                });
            }
            proof {
                assert forall|i: int| 0 <= i < results.len() implies (#[trigger] results[i]) is Ok by {
                    if i < prev.len() { assert(results[i] == prev[i]); }
                }
                assert forall|i: int| 0 <= i < results.len() implies call_ensures(all[i], (), #[trigger] results[i]) by {
                    if i < prev.len() { assert(results[i] == prev[i]); }
                }
            }
        }
        self.processed_batches = self.processed_batches.wrapping_add(1);
        proof {
            assert(results.len() == 0 || results.last() is Ok);
        }
        Ok(())
    }
}

impl<F> Default for MacroBatcher<F> {
    fn default() -> (r: Self)
        ensures r.processed_batches == 0, r.pending_batches@.len() == 0,
    {
        Self::new()
    }
}

// =============================================================================
// MICRO-KERNEL SCHEDULER SIMULATION
// =============================================================================

/// The states a kernel task can inhabit during its lifecycle.
#[derive(Debug, Copy, Clone, PartialEq, Eq, Structural)]
pub enum TaskState {
    /// Task is newly created and waiting for its first time slice.
    Ready,
    /// Task is currently occupying the CPU.
    Running,
    /// Task is waiting for an I/O event or synchronization primitive.
    Blocked,
    /// Task has completed execution and is awaiting cleanup (Zombie).
    Terminated,
}

/// Represents a Kernel Task (Thread Control Block - TCB).
pub struct KernelTask {
    /// Unique Process Identifier.
    pub pid: u32,
    /// Current execution state.
    pub state: TaskState,
    /// Scheduling priority (higher is more urgent).
    pub priority: u8,
    /// Remaining time in the current time slice.
    pub time_quanta_remaining: u32,
    /// Milliseconds of processor time the task has used.
    pub cpu_time_ms: u64,
}

/// A Round-Robin Scheduler with Time-Slicing.
pub struct MicroKernelScheduler {
    /// The queue of tasks ready to be executed.
    pub task_queue: Vec<KernelTask>,
    /// The PID of the task currently running on the simulated CPU.
    pub current_pid: Option<u32>,
    /// The default time slice granted to each task.
    pub time_slice: u32,
    /// Count of context switches performed since boot.
    pub context_switches: u64,
    /// Total system uptime in simulated clock ticks.
    pub total_uptime_ticks: u64,
}

/// A task given the CPU: running, with a full time slice.
pub open spec fn dispatched(t: KernelTask, time_slice: u32) -> KernelTask {
    KernelTask { state: TaskState::Running, time_quanta_remaining: time_slice, ..t }
}

/// The ready queue after one round-robin switch: the front task runs and
/// moves to the back.
pub open spec fn rotate(queue: Seq<KernelTask>, time_slice: u32) -> Seq<KernelTask> {
    queue.drop_first().push(dispatched(queue[0], time_slice))
}

/// The ready queue after `k` round-robin switches.
pub open spec fn rotate_n(queue: Seq<KernelTask>, time_slice: u32, k: nat) -> Seq<KernelTask>
    decreases k,
{
    if k == 0 { queue } else { rotate(rotate_n(queue, time_slice, (k - 1) as nat), time_slice) }
}

impl MicroKernelScheduler {
    /// Initializes the scheduler with a specific time quantum.
    pub fn new(time_slice: u32) -> (r: Self)
        ensures
            r.task_queue@.len() == 0,
            r.current_pid is None,
            r.time_slice == time_slice,
            r.context_switches == 0,
            r.total_uptime_ticks == 0,
    {
        MicroKernelScheduler { task_queue: Vec::new(), current_pid: None, time_slice, context_switches: 0, total_uptime_ticks: 0 }
    }

    /// Simulates a Context Switch: the task at the front of the queue gets the
    /// CPU with a full time slice and moves to the back of the queue.
    ///
    /// Returns `FailureKind::SystemError` (code 801) if the ready queue is empty.
    pub fn context_switch(&mut self) -> (r: KernelResult<u32>)
        ensures
            old(self).task_queue@.len() == 0 ==> {
                &&& outcome(r) == Err::<u32, FailureView>(FailureView::SystemError {
                    code: 801,
                    message: "Scheduler Ready Queue Exhaustion: No tasks to run"@,
                })
                &&& final(self).task_queue@ == old(self).task_queue@
                &&& final(self).current_pid == old(self).current_pid
                &&& final(self).context_switches == old(self).context_switches
            },
            old(self).task_queue@.len() > 0 ==> {
                &&& r == Ok::<u32, FailureKind>(old(self).task_queue@[0].pid)
                &&& final(self).task_queue@ == rotate(old(self).task_queue@, old(self).time_slice)
                &&& final(self).current_pid == Some(old(self).task_queue@[0].pid)
                &&& final(self).context_switches == old(self).context_switches.wrapping_add(1)
            },
            final(self).time_slice == old(self).time_slice,
            final(self).total_uptime_ticks == old(self).total_uptime_ticks,
    {
        if self.task_queue.len() == 0 {
            return Err(FailureKind::SystemError {
                code: 801,
                message: String::from_str("Scheduler Ready Queue Exhaustion: No tasks to run"),
            });
        }
        self.context_switches = self.context_switches.wrapping_add(1);
        let mut next_task = self.task_queue.remove(0);
        next_task.state = TaskState::Running;
        next_task.time_quanta_remaining = self.time_slice;
        let pid = next_task.pid;
        self.current_pid = Some(pid);
        self.task_queue.push(next_task);
        proof {
            assert(self.task_queue@ =~= rotate(old(self).task_queue@, old(self).time_slice));
        }
        Ok(pid)
    }

    /// Simulates a Timer Interrupt: the clock advances by one tick and, when a
    /// task is running, it is preempted by a context switch. Returns the PID of
    /// the preempted task.
    pub fn handle_timer_tick(&mut self) -> (preempted: Option<u32>)
        ensures
            preempted == old(self).current_pid,
            final(self).total_uptime_ticks == old(self).total_uptime_ticks.wrapping_add(1),
            old(self).current_pid is None ==> final(self).task_queue@ == old(self).task_queue@
                && final(self).context_switches == old(self).context_switches,
            old(self).current_pid is Some && old(self).task_queue@.len() > 0 ==>
                final(self).task_queue@ == rotate(old(self).task_queue@, old(self).time_slice)
                && final(self).current_pid == Some(old(self).task_queue@[0].pid)
                && final(self).context_switches == old(self).context_switches.wrapping_add(1),
            old(self).current_pid is Some && old(self).task_queue@.len() == 0 ==>
                final(self).task_queue@ == old(self).task_queue@ && final(self).current_pid == old(self).current_pid
                && final(self).context_switches == old(self).context_switches,
            final(self).time_slice == old(self).time_slice,
    {
        self.total_uptime_ticks = self.total_uptime_ticks.wrapping_add(1);
        match self.current_pid {
            Some(pid) => {
                let _ = self.context_switch();
                Some(pid)
            },
            None => None,
        }
    }
}

/// Round-robin fairness: in `n` consecutive switches over a queue of `n`
/// tasks, the `k`-th switch runs the task that was `k`-th in the queue, and
/// after the `n` switches every task is back at its place, running with a
/// full time slice.
pub proof fn lemma_round_robin(queue: Seq<KernelTask>, time_slice: u32, k: nat)
    requires k <= queue.len(),
    ensures
        rotate_n(queue, time_slice, k) =~= queue.skip(k as int) + queue.take(k as int).map_values(|t: KernelTask| dispatched(t, time_slice)),
        k < queue.len() ==> rotate_n(queue, time_slice, k)[0].pid == queue[k as int].pid,
    decreases k,
{
    if k > 0 {
        lemma_round_robin(queue, time_slice, (k - 1) as nat);
        let prev = rotate_n(queue, time_slice, (k - 1) as nat);
        assert(prev[0] == queue[k - 1]);
        assert(queue.take(k as int).map_values(|t: KernelTask| dispatched(t, time_slice))
            =~= queue.take(k - 1).map_values(|t: KernelTask| dispatched(t, time_slice)).push(dispatched(queue[k - 1], time_slice)));
    }
}

// =============================================================================
// KERNEL SYNCHRONIZATION (IPC)
// =============================================================================

/// A simulated Kernel Semaphore (Dijkstra's primitive).
pub struct Semaphore {
    pub count: usize,
    pub waiters: u32,
    pub max_capacity: usize,
}

impl Semaphore {
    /// P operation (Wait / Proberen): takes a unit when one is available,
    /// otherwise the caller joins the waiters.
    pub fn wait(&mut self)
        ensures
            final(self).max_capacity == old(self).max_capacity,
            old(self).count > 0 ==> final(self).count == old(self).count - 1 && final(self).waiters == old(self).waiters,
            old(self).count == 0 ==> final(self).count == 0 && final(self).waiters == old(self).waiters.wrapping_add(1),
    {
        if self.count > 0 {
            self.count = self.count - 1;
        } else {
            self.waiters = self.waiters.wrapping_add(1);
        }
    }

    /// V operation (Signal / Verhoog): releases a waiter when there is one,
    /// otherwise returns a unit, up to the capacity.
    pub fn signal(&mut self)
        ensures
            final(self).max_capacity == old(self).max_capacity,
            old(self).waiters > 0 ==> final(self).waiters == old(self).waiters - 1 && final(self).count == old(self).count,
            old(self).waiters == 0 && old(self).count < old(self).max_capacity ==>
                final(self).waiters == 0 && final(self).count == old(self).count + 1,
            old(self).waiters == 0 && old(self).count >= old(self).max_capacity ==> *final(self) == *old(self),
    {
        if self.waiters > 0 {
            self.waiters = self.waiters - 1;
        } else if self.count < self.max_capacity {
            self.count = self.count + 1;
        }
    }
}

/// The state a semaphore passes to after `wait`.
pub open spec fn after_wait(s: Semaphore) -> Semaphore {
    if s.count > 0 { Semaphore { count: (s.count - 1) as usize, ..s } } else { Semaphore { waiters: s.waiters.wrapping_add(1), ..s } }
}

/// The state a semaphore passes to after `signal`.
pub open spec fn after_signal(s: Semaphore) -> Semaphore {
    if s.waiters > 0 {
        Semaphore { waiters: (s.waiters - 1) as u32, ..s }
    } else if s.count < s.max_capacity {
        Semaphore { count: (s.count + 1) as usize, ..s }
    } else {
        s
    }
}

/// A semaphore is consistent when its count is within its capacity and
/// there are no waiters while units are available.
pub open spec fn consistent(s: Semaphore) -> bool {
    s.count <= s.max_capacity && (s.count > 0 ==> s.waiters == 0)
}

/// Both operations keep a semaphore consistent, and on a consistent
/// semaphore a `signal` undoes a `wait` (as long as the waiter count does not
/// wrap around).
pub proof fn lemma_semaphore_laws(s: Semaphore)
    ensures
        consistent(s) ==> consistent(after_wait(s)),
        consistent(s) ==> consistent(after_signal(s)),
        consistent(s) && (s.count > 0 || s.waiters < u32::MAX) ==> after_signal(after_wait(s)) == s,
{
}

/// Simulated IDT (Interrupt Descriptor Table) entry: a vector and the
/// description of its service routine.
pub struct InterruptHandler {
    pub vector: u8,
    pub description: &'static str,
}

/// Guide to Context Switching on x86_64 and RISC-V.
///
/// 1. **Save CPU State**: general-purpose registers are pushed onto the
///    current task's stack.
/// 2. **Switch Stacks**: the stack pointer moves to the next task's stack.
/// 3. **Restore CPU State**: the next task's registers are popped.
/// 4. **Return to Task**: `iret` or `mret` resumes the saved instruction pointer.
///
/// The scheduler itself must never block: it is the fastest path in the system.
pub struct ContextSwitchingDocs;

/// Guide to Preemption, Interrupts, and Atomic Operations.
///
/// Modifying the ready queue must not be interrupted (spinlocks, or interrupts
/// disabled during critical sections). Priority inversion is solved by
/// priority inheritance. Tickless kernels schedule timer interrupts only when
/// work needs to be done.
pub struct PreemptionDocs;

/// Micro-Kernel vs. Monolithic Architectures: monolithic kernels run most
/// services in kernel mode (fast, less isolated); micro-kernels run only
/// scheduling, memory management and IPC there (robust, IPC-bound).
pub struct KernelArchitectureDocs;

} // verus!
