//! Background Processing: Script and Wasm Streaming.
//!
//! Chunks of source code are parsed as they arrive, so that parsing overlaps
//! the download.
//!
//! # Streaming Architecture
//! 1. **Data Reception**: Chunks of source code are received from the network.
//! 2. **Background Parsing**: A background thread parses the chunks into an AST.
//! 3. **Main-Thread Finalization**: The parsed AST is finalized and compiled into bytecode.
use vstd::prelude::*;
use vstd::string::*;
use crate::KernelResult;
use crate::dffdf::{FailureKind, FailureView, outcome};

pub mod source_encoding;

verus! {

/// Represents a script streaming job.
pub struct ScriptStreamingJob {
    pub script_id: u32,
    pub source_data: Vec<u8>,
    pub position: usize,
    pub is_finished: bool,
    pub has_error: bool,
    pub state: StreamingState,
}

/// The stages of a script streaming job.
#[derive(Debug, Copy, Clone, PartialEq, Eq, Structural)]
pub enum StreamingState {
    Initial,
    HeaderParsing,
    BodyParsing,
    Finalizing,
    Error,
}

/// The stage a running job moves to before its chunk is consumed: the
/// header ends after byte 100, the body when the source is exhausted.
pub open spec fn advance(state: StreamingState, position: usize, len: usize) -> StreamingState {
    match state {
        StreamingState::Initial => StreamingState::HeaderParsing,
        StreamingState::HeaderParsing => if position > 100 { StreamingState::BodyParsing } else { StreamingState::HeaderParsing },
        StreamingState::BodyParsing => if position >= len { StreamingState::Finalizing } else { StreamingState::BodyParsing },
        _ => state,
    }
}

impl ScriptStreamingJob {
    /// The job after processing one chunk of `chunk_size` bytes, and the outcome.
    ///
    /// A finished job reports `false`; a job with an earlier error fails with
    /// `BatchFailure`; a finalizing job finishes and reports `false`; a job in
    /// error reports `false`. Otherwise the stage advances, the position moves
    /// by the chunk (saturating, and never past the end of the source), the job
    /// becomes finalizing once the source is consumed, and `true` is reported.
    pub open spec fn spec_parse_next_chunk(self, chunk_size: usize) -> (ScriptStreamingJob, Result<bool, FailureView>) {
        if self.is_finished {
            (self, Ok(false))
        } else if self.has_error {
            (self, Err(FailureView::BatchFailure {
                batch_id: self.script_id as u64,
                reason: "Streaming job encountered a previous error"@,
            }))
        } else if self.state == StreamingState::Finalizing {
            (ScriptStreamingJob { is_finished: true, ..self }, Ok(false))
        } else if self.state == StreamingState::Error {
            (self, Ok(false))
        } else {
            let len = self.source_data@.len() as usize;
            let s1 = advance(self.state, self.position, len);
            let moved = self.position.saturating_add(chunk_size);
            let p = if moved < len { moved } else { len };
            let s2 = if p >= len && s1 != StreamingState::Finalizing { StreamingState::Finalizing } else { s1 };
            (ScriptStreamingJob { position: p, state: s2, ..self }, Ok(true))
        }
    }

    /// Creates a new streaming job for a script.
    pub fn new(script_id: u32, source_data: Vec<u8>) -> (r: Self)
        ensures
            r.script_id == script_id,
            r.source_data@ == source_data@,
            r.position == 0,
            !r.is_finished,
            !r.has_error,
            r.state == StreamingState::Initial,
    {
        ScriptStreamingJob {
            script_id,
            source_data,
            position: 0,
            is_finished: false,
            has_error: false,
            state: StreamingState::Initial,
        }
    }

    /// Processes the next chunk of the script (see `spec_parse_next_chunk`).
    ///
    /// Returns `FailureKind::BatchFailure` if the job has a previous error.
    /// The position never passes the end of the source, and never moves back
    /// while it is within the source.
    pub fn parse_next_chunk(&mut self, chunk_size: usize) -> (r: KernelResult<bool>)
        ensures
            (*final(self), outcome(r)) == old(self).spec_parse_next_chunk(chunk_size),
            old(self).position <= old(self).source_data@.len() ==>
                old(self).position <= final(self).position <= final(self).source_data@.len(),
    {
        if self.is_finished {
            return Ok(false);
        }
        if self.has_error {
            return Err(FailureKind::BatchFailure {
                batch_id: self.script_id as u64,
                reason: String::from_str("Streaming job encountered a previous error"),
            });
        }
        match self.state {
            StreamingState::Initial => self.state = StreamingState::HeaderParsing,
            StreamingState::HeaderParsing => {
                if self.position > 100 {
                    self.state = StreamingState::BodyParsing;
                }
            },
            StreamingState::BodyParsing => {
                if self.position >= self.source_data.len() {
                    self.state = StreamingState::Finalizing;
                }
            },
            StreamingState::Finalizing => {
                self.is_finished = true;
                return Ok(false);
            },
            StreamingState::Error => return Ok(false),
        }
        let moved = self.position.saturating_add(chunk_size);
        let len = self.source_data.len();
        self.position = if moved < len { moved } else { len };
        if self.position >= len && self.state != StreamingState::Finalizing {
            self.state = StreamingState::Finalizing;
        }
        Ok(!self.is_finished)
    }

    /// The progress of the job as a fraction `(done, total)`: `(1, 1)` for an
    /// empty source, otherwise the position over the source length.
    pub fn progress_fraction(&self) -> (r: (usize, usize))
        ensures
            self.source_data@.len() == 0 ==> r == (1usize, 1usize),
            self.source_data@.len() > 0 ==> r == (self.position, self.source_data@.len() as usize),
    {
        if self.source_data.len() == 0 {
            (1, 1)
        } else {
            (self.position, self.source_data.len())
        }
    }
}

/// Whether a job still parses chunks: not finished, without an earlier
/// error, and neither finalizing nor in error.
pub open spec fn is_running(job: ScriptStreamingJob) -> bool {
    !job.is_finished && !job.has_error
        && job.state != StreamingState::Finalizing && job.state != StreamingState::Error
}

/// What parsing a chunk does to a running job whose position is within its
/// source: it reports `Ok(true)`; the position moves forward by the whole
/// chunk, but never past the end of the source; the job is finalizing exactly
/// when the source is consumed; before that the header ends once more than
/// 100 bytes were parsed; and nothing else about the job changes.
pub proof fn lemma_parse_consumes_chunk(job: ScriptStreamingJob, chunk_size: usize)
    requires
        is_running(job),
        job.position <= job.source_data@.len(),
    ensures ({
        let (next, r) = job.spec_parse_next_chunk(chunk_size);
        let len = job.source_data@.len();
        let target = job.position + chunk_size;
        &&& r == Ok::<bool, FailureView>(true)
        &&& next.position == (if target < len { target } else { len as int })
        &&& (next.state == StreamingState::Finalizing <==> next.position == len)
        &&& next.position < len ==> (next.state == StreamingState::BodyParsing
            <==> (job.state == StreamingState::BodyParsing || (job.state == StreamingState::HeaderParsing && job.position > 100)))
        &&& next.position < len ==> (next.state == StreamingState::HeaderParsing
            <==> (job.state == StreamingState::Initial || (job.state == StreamingState::HeaderParsing && job.position <= 100)))
        &&& next.script_id == job.script_id
        &&& next.source_data == job.source_data
        &&& !next.is_finished && !next.has_error
    }),
{
    assert(job.source_data.len() == job.source_data@.len());
}

/// What parsing does to a job that is not running: a finished job or one in
/// error is left as it is and reports `Ok(false)`, unless it holds an earlier
/// error, which is reported; a finalizing job finishes.
pub proof fn lemma_parse_stopped_job(job: ScriptStreamingJob, chunk_size: usize)
    requires !is_running(job),
    ensures ({
        let (next, r) = job.spec_parse_next_chunk(chunk_size);
        &&& next.position == job.position
        &&& !job.is_finished && job.has_error ==> r is Err && next == job
        &&& job.is_finished ==> r == Ok::<bool, FailureView>(false) && next == job
        &&& !job.is_finished && !job.has_error ==> r == Ok::<bool, FailureView>(false) && next.is_finished
            == (job.state == StreamingState::Finalizing)
    }),
{
}

/// Represents a WebAssembly streaming job.
pub struct WasmStreamingJob {
    pub job_id: u32,
    pub total_bytes: usize,
    pub received_bytes: usize,
    pub is_finalized: bool,
    pub sections_found: u32,
}

impl WasmStreamingJob {
    /// A job expecting `total_bytes` bytes, with nothing received yet.
    pub fn new(job_id: u32, total_bytes: usize) -> (r: Self)
        ensures
            r.job_id == job_id,
            r.total_bytes == total_bytes,
            r.received_bytes == 0,
            !r.is_finalized,
            r.sections_found == 0,
    {
        WasmStreamingJob { job_id, total_bytes, received_bytes: 0, is_finalized: false, sections_found: 0 }
    }

    /// Called when `count` new bytes are received for the Wasm module.
    ///
    /// Returns `FailureKind::SystemError` (code 701) if the job is finalized,
    /// and `FailureKind::OutOfBounds` if the bytes would exceed the expected
    /// total (an addition past `usize::MAX` counts as exceeding it); in both
    /// cases the job is unchanged. Otherwise the bytes are counted and one
    /// section is counted per 500 bytes of the chunk.
    pub fn on_bytes_received(&mut self, count: usize) -> (r: KernelResult<()>)
        ensures
            old(self).is_finalized ==> *final(self) == *old(self) && outcome(r) == Err::<(), FailureView>(FailureView::SystemError {
                code: 701,
                message: "Cannot add bytes to a finalized Wasm job"@,
            }),
            !old(self).is_finalized && old(self).received_bytes + count > old(self).total_bytes ==>
                *final(self) == *old(self) && outcome(r) == Err::<(), FailureView>(FailureView::OutOfBounds {
                    index: old(self).received_bytes.wrapping_add(count),
                    limit: old(self).total_bytes,
                    context: "WasmStreamingJob::on_bytes_received (overflow check)"@,
                }),
            !old(self).is_finalized && old(self).received_bytes + count <= old(self).total_bytes ==>
                r is Ok && *final(self) == (WasmStreamingJob {
                    received_bytes: (old(self).received_bytes + count) as usize,
                    sections_found: old(self).sections_found.wrapping_add((count / 500) as u32),
                    ..*old(self)
                }),
            old(self).received_bytes <= old(self).total_bytes ==> final(self).received_bytes <= final(self).total_bytes,
    {
        if self.is_finalized {
            return Err(FailureKind::SystemError {
                code: 701,
                message: String::from_str("Cannot add bytes to a finalized Wasm job"),
            });
        }
        let fits = match self.received_bytes.checked_add(count) {
            Some(total) => total <= self.total_bytes,
            None => false,
        };
        if fits {
            self.received_bytes = self.received_bytes + count;
            self.sections_found = self.sections_found.wrapping_add((count / 500) as u32);
            Ok(())
        } else {
            Err(FailureKind::OutOfBounds {
                index: self.received_bytes.wrapping_add(count),
                limit: self.total_bytes,
                context: "WasmStreamingJob::on_bytes_received (overflow check)",
            })
        }
    }

    /// Finalizes the job; no more bytes are accepted afterwards.
    pub fn finalize(&mut self)
        ensures *final(self) == (WasmStreamingJob { is_finalized: true, ..*old(self) }),
    {
        self.is_finalized = true;
    }
}

/// Simulated task runner for background streaming.
pub struct StreamingTaskRunner {
    pub active_jobs: Vec<ScriptStreamingJob>,
    pub wasm_jobs: Vec<WasmStreamingJob>,
    pub processed_bytes: usize,
    pub peak_active_jobs: usize,
}

/// The jobs and processed byte count after ticking jobs `0..n` in order,
/// and the outcome: each unfinished job parses a chunk of 1024 bytes and adds
/// 1024 to the count; the first failure stops the tick.
pub open spec fn spec_tick(jobs: Seq<ScriptStreamingJob>, processed: usize, n: int) -> (Seq<ScriptStreamingJob>, usize, Result<(), FailureView>)
    decreases n,
{
    if n <= 0 {
        (jobs, processed, Ok(()))
    } else {
        let (js, p, r) = spec_tick(jobs, processed, n - 1);
        match r {
            Err(e) => (js, p, Err(e)),
            Ok(_) => {
                let job = js[n - 1];
                if job.is_finished {
                    (js, p, Ok(()))
                } else {
                    let (job2, r2) = job.spec_parse_next_chunk(1024);
                    match r2 {
                        Err(e) => (js.update(n - 1, job2), p, Err(e)),
                        Ok(_) => (js.update(n - 1, job2), p.wrapping_add(1024), Ok(())),
                    }
                }
            },
        }
    }
}

impl StreamingTaskRunner {
    /// An idle runner.
    pub fn new() -> (r: Self)
        ensures
            r.active_jobs@.len() == 0,
            r.wasm_jobs@.len() == 0,
            r.processed_bytes == 0,
            r.peak_active_jobs == 0,
    {
        StreamingTaskRunner { active_jobs: Vec::new(), wasm_jobs: Vec::new(), processed_bytes: 0, peak_active_jobs: 0 }
    }

    /// Adds a job and records the peak number of active jobs.
    pub fn spawn_script_job(&mut self, job: ScriptStreamingJob)
        ensures
            final(self).active_jobs@ == old(self).active_jobs@.push(job),
            final(self).peak_active_jobs == if old(self).active_jobs@.len() + 1 > old(self).peak_active_jobs {
                (old(self).active_jobs@.len() + 1) as usize
            } else {
                old(self).peak_active_jobs
            },
            final(self).wasm_jobs@ == old(self).wasm_jobs@,
            final(self).processed_bytes == old(self).processed_bytes,
    {
        self.active_jobs.push(job);
        if self.active_jobs.len() > self.peak_active_jobs {
            self.peak_active_jobs = self.active_jobs.len();
        }
    }

    /// Ticks all active jobs (see `spec_tick`).
    ///
    /// Returns the first error encountered during chunk parsing.
    pub fn tick(&mut self) -> (r: KernelResult<()>)
        ensures
            ({
                let (js, p, res) = spec_tick(old(self).active_jobs@, old(self).processed_bytes, old(self).active_jobs@.len() as int);
                &&& final(self).active_jobs@ == js
                &&& final(self).processed_bytes == p
                &&& outcome(r) == res
            }),
            final(self).wasm_jobs@ == old(self).wasm_jobs@,
            final(self).peak_active_jobs == old(self).peak_active_jobs,
    {
        let n = self.active_jobs.len();
        let mut i: usize = 0;
        while i < n
            invariant
                n == old(self).active_jobs@.len(),
                i <= n,
                self.active_jobs@.len() == n,
                (self.active_jobs@, self.processed_bytes, Ok::<(), FailureView>(()))
                    == spec_tick(old(self).active_jobs@, old(self).processed_bytes, i as int),
                forall|k: int| i <= k < n ==> self.active_jobs@[k] == old(self).active_jobs@[k],
                self.wasm_jobs@ == old(self).wasm_jobs@,
                self.peak_active_jobs == old(self).peak_active_jobs,
            decreases n - i,
        {
            proof { lemma_tick_prefix(old(self).active_jobs@, old(self).processed_bytes, i as int); }
            if !self.active_jobs[i].is_finished {
                let r = self.active_jobs[i].parse_next_chunk(1024);
                match r {
                    Ok(_) => {},
                    Err(e) => {
                        proof { lemma_tick_stops(old(self).active_jobs@, old(self).processed_bytes, (i + 1) as int); }
                        return Err(e);
                    },
                }
                self.processed_bytes = self.processed_bytes.wrapping_add(1024);
            }
            i = i + 1;
        }
        Ok(())
    }
}

/// The number of unfinished jobs among the first `n`.
pub open spec fn unfinished_count(jobs: Seq<ScriptStreamingJob>, n: int) -> nat
    decreases n,
{
    if n <= 0 {
        0
    } else {
        unfinished_count(jobs, n - 1) + if jobs[n - 1].is_finished { 0nat } else { 1nat }
    }
}

/// A job after one tick: a finished job is left alone; any other job parses
/// one chunk of 1024 bytes.
pub open spec fn ticked(job: ScriptStreamingJob) -> ScriptStreamingJob {
    if job.is_finished { job } else { job.spec_parse_next_chunk(1024).0 }
}

/// What a tick does: it succeeds exactly when no unfinished job holds an
/// earlier error; a successful tick moves every unfinished job on by exactly
/// one chunk of 1024 bytes, leaves every finished job as it was, and adds 1024
/// to the processed byte count per unfinished job (the count wrapping at the
/// word size).
pub proof fn lemma_tick_advances_every_job(jobs: Seq<ScriptStreamingJob>, processed: usize)
    ensures ({
        let (js, p, r) = spec_tick(jobs, processed, jobs.len() as int);
        &&& r is Ok <==> forall|k: int| 0 <= k < jobs.len() && !(#[trigger] jobs[k]).is_finished ==> !jobs[k].has_error
        &&& r is Ok ==> js.len() == jobs.len()
        &&& r is Ok ==> forall|k: int| 0 <= k < jobs.len() ==> #[trigger] js[k] == ticked(jobs[k])
        &&& r is Ok ==> p == (processed + 1024 * unfinished_count(jobs, jobs.len() as int)) % (usize::MAX + 1)
    }),
{
    lemma_tick_prefix_law(jobs, processed, jobs.len() as int);
}

proof fn lemma_tick_prefix_law(jobs: Seq<ScriptStreamingJob>, processed: usize, n: int)
    requires 0 <= n <= jobs.len(),
    ensures ({
        let (js, p, r) = spec_tick(jobs, processed, n);
        &&& r is Ok <==> forall|k: int| 0 <= k < n && !(#[trigger] jobs[k]).is_finished ==> !jobs[k].has_error
        &&& r is Ok ==> js.len() == jobs.len()
        &&& r is Ok ==> forall|k: int| 0 <= k < n ==> #[trigger] js[k] == ticked(jobs[k])
        &&& r is Ok ==> forall|k: int| n <= k < jobs.len() ==> #[trigger] js[k] == jobs[k]
        &&& r is Ok ==> p == (processed + 1024 * unfinished_count(jobs, n)) % (usize::MAX + 1)
    }),
    decreases n,
{
    let m = usize::MAX + 1;
    if n == 0 {
        vstd::arithmetic::div_mod::lemma_small_mod(processed as nat, m as nat);
    } else {
        lemma_tick_prefix_law(jobs, processed, n - 1);
        let (js0, p0, r0) = spec_tick(jobs, processed, n - 1);
        let c0 = unfinished_count(jobs, n - 1);
        if r0 is Err {
            let k = choose|k: int| !(0 <= k < n - 1 && !(#[trigger] jobs[k]).is_finished ==> !jobs[k].has_error);
            assert(0 <= k < n && !jobs[k].is_finished && jobs[k].has_error);
        } else {
            let job = js0[n - 1];
            assert(job == jobs[n - 1]);
            let (js, p, r) = spec_tick(jobs, processed, n);
            if !job.is_finished {
                if job.has_error {
                    assert(r is Err);
                    assert(!jobs[n - 1].is_finished && jobs[n - 1].has_error);
                } else {
                    assert forall|k: int| 0 <= k < n && !(#[trigger] jobs[k]).is_finished implies !jobs[k].has_error by {
                        if k < n - 1 {}
                    }
                    let a = processed + 1024 * c0;
                    assert(p0 == a % m);
                    vstd::arithmetic::div_mod::lemma_add_mod_noop(a, 1024, m);
                    vstd::arithmetic::div_mod::lemma_small_mod(1024, m as nat);
                    let q = p0 + 1024;
                    if q > usize::MAX {
                        assert(q % m == q - m) by {
                            vstd::arithmetic::div_mod::lemma_mod_sub_multiples_vanish(q - m, m);
                            vstd::arithmetic::div_mod::lemma_small_mod((q - m) as nat, m as nat);
                        }
                    } else {
                        vstd::arithmetic::div_mod::lemma_small_mod(q as nat, m as nat);
                    }
                    assert(p == (processed + 1024 * unfinished_count(jobs, n)) % m);
                    assert forall|k: int| 0 <= k < n implies #[trigger] js[k] == ticked(jobs[k]) by {
                        if k < n - 1 { assert(js[k] == js0[k]); }
                    }
                }
            } else {
                assert forall|k: int| 0 <= k < n implies #[trigger] js[k] == ticked(jobs[k]) by {}
                assert forall|k: int| 0 <= k < n && !(#[trigger] jobs[k]).is_finished implies !jobs[k].has_error by {
                    if k < n - 1 {}
                }
            }
        }
    }
}

/// Ticking a prefix leaves the jobs after it untouched.
proof fn lemma_tick_prefix(jobs: Seq<ScriptStreamingJob>, processed: usize, n: int)
    requires 0 <= n <= jobs.len(),
    ensures
        spec_tick(jobs, processed, n).0.len() == jobs.len(),
        forall|k: int| n <= k < jobs.len() ==> spec_tick(jobs, processed, n).0[k] == jobs[k],
    decreases n,
{
    if n > 0 {
        lemma_tick_prefix(jobs, processed, n - 1);
    }
}

/// Once a tick fails, the later jobs are not ticked.
proof fn lemma_tick_stops(jobs: Seq<ScriptStreamingJob>, processed: usize, n: int)
    requires
        0 < n <= jobs.len(),
        spec_tick(jobs, processed, n).2 is Err,
    ensures
        spec_tick(jobs, processed, jobs.len() as int) == spec_tick(jobs, processed, n),
    decreases jobs.len() - n,
{
    if n < jobs.len() {
        lemma_tick_stops(jobs, processed, n + 1);
    }
}

impl Default for StreamingTaskRunner {
    fn default() -> (r: Self)
        ensures r.active_jobs@.len() == 0, r.processed_bytes == 0,
    {
        Self::new()
    }
}

/// Simulated Tokenizer used in streaming.
pub struct Tokenizer {
    pub current_pos: usize,
    pub last_token_start: usize,
    pub line_number: u32,
    pub column_number: u32,
    pub is_inside_template_literal: bool,
}

impl Tokenizer {
    /// A tokenizer at the start of line 1, column 1.
    pub fn new() -> (r: Self)
        ensures
            r.current_pos == 0,
            r.last_token_start == 0,
            r.line_number == 1,
            r.column_number == 1,
            !r.is_inside_template_literal,
    {
        Tokenizer { current_pos: 0, last_token_start: 0, line_number: 1, column_number: 1, is_inside_template_literal: false }
    }

    /// The next token of `_source`; the simulation scans none.
    pub fn next_token(&mut self, _source: &[u8]) -> (r: Option<Token>)
        ensures r is None, *final(self) == *old(self),
    {
        None
    }
}

impl Default for Tokenizer {
    fn default() -> (r: Self)
        ensures r.current_pos == 0, r.line_number == 1, r.column_number == 1,
    {
        Self::new()
    }
}

/// Simulated Token types.
pub enum Token {
    Keyword,
    Identifier,
    Literal,
    Operator,
    Semicolon,
    Comment,
    TemplateStart,
    TemplateEnd,
    Eof,
}

/// The Scanner's state machine.
///
/// The Scanner converts the incoming stream of characters into tokens. Because
/// the data arrives in chunks, it keeps its state across calls to
/// `parse_next_chunk`, and resumes a token cut at the end of a chunk when the
/// next chunk arrives.
pub struct ScannerDocs;

/// AST (Abstract Syntax Tree) generation during streaming: nodes are
/// allocated, populated and linked to their parent as soon as enough tokens
/// are available; lexical scopes are tracked as they are parsed.
pub struct ASTDocs;

/// The Bytecode Generator consumes fully populated AST nodes and produces a
/// `BytecodeArray` attached to the `SharedFunctionInfo`.
pub struct BytecodeGenDocs;

/// Streaming parallelizes the download and the parse phase; the background
/// thread synchronizes with the main thread on pool exhaustion, finalization
/// and errors.
pub struct PhilosophyDocs;

/// Common streaming issues: malformed UTF-8, buffer overruns (more data than
/// expected), and premature end of input.
pub struct TroubleshootingDocs;

/// The Character Stream reads characters one by one from the raw byte chunks.
pub struct CharacterStream {
    pub position: usize,
    pub length: usize,
}

impl CharacterStream {
    /// The next character; the simulation decodes none.
    pub fn next_char(&mut self) -> (r: Option<char>)
        ensures r is None, *final(self) == *old(self),
    {
        None
    }
}

/// The "Pre-Parsing" phase: functions not needed immediately are only checked
/// for syntax errors, without building a full AST.
pub struct PreParseDocs;

/// Metadata about a pre-parsed function.
pub struct PreParsedFunctionData {
    pub start_pos: usize,
    pub end_pos: usize,
    pub parameter_count: u32,
}

/// Resolving issues in the streaming pipeline: find malformed chunks by the
/// `ERR_STR_001` code, check the detected encoding, and check the memory
/// limits of background parsing.
pub struct IncidentResponseGuide;

} // verus!
