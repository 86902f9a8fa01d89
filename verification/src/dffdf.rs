//! Defensive Fail-Fast Diagnostic Framework (DFFDF).
//!
//! Every failure of the kernel is a value of `FailureKind`: it carries the
//! state, the limits and the location of the failure, a stable error code and
//! a remediation hint. `CircuitBreaker` halts a component whose error rate
//! exceeds a threshold.
//!
//! # Error Classification
//! - **Memory (MEM)**: Violations of the `SoA` heap structure or tagging rules.
//! - **Object (OBJ)**: State machine errors or property access violations.
//! - **Streaming (STR)**: Failures during background parsing or chunk processing.
//! - **System (SYS)**: General engine inconsistencies or resource exhaustion.
//! - **Security (SEC)**: Sandbox escapes or unauthorized memory access.
//! - **Wasm (WSM)**: WebAssembly specific validation or execution errors.
//! - **Garbage Collection (GC)**: Errors during memory reclamation cycles.
use vstd::prelude::*;
use vstd::string::*;
use crate::text::{dec, hex_width, pad_right, bool_text, push_dec, push_hex, push_padded};

verus! {

/// An exact fraction `num / den`, used for error rates and thresholds.
///
/// A zero denominator stands for a threshold that no rate exceeds.
#[derive(Debug, Clone, Copy, PartialEq, Eq, Structural)]
pub struct Ratio {
    pub num: u64,
    pub den: u64,
}

impl Ratio {
    /// Whether the rate `errors / total` is strictly above this ratio.
    pub open spec fn exceeded_by(self, errors: nat, total: nat) -> bool {
        errors * self.den > self.num * total
    }
}

/// Represents the various types of failures that can occur within the kernel.
#[derive(Debug, Clone, PartialEq)]
#[allow(inconsistent_fields)]
pub enum FailureKind {
    /// Memory access out of bounds.
    /// This is often triggered by incorrect index calculations in `SoA` layouts.
    OutOfBounds { index: usize, limit: usize, context: &'static str },
    /// Invalid memory tagging or branding.
    /// Occurs when an Smi is treated as an Object pointer or vice versa.
    InvalidTag { address: usize, expected_tag: u8, actual_tag: u8 },
    /// Heap allocation failure.
    /// The heap has reached its capacity and cannot accommodate new objects.
    HeapExhausted { requested: usize, available: usize },
    /// Object state transition error.
    /// Specific to state machines like `JSPromise` or Compiler Tiers.
    InvalidStateTransition { object_id: u32, from: &'static str, to: &'static str },
    /// Failure in atomic or macro batch processing.
    BatchFailure { batch_id: u64, reason: String },
    /// Circuit breaker tripped due to high error density.
    CircuitBreakerTripped { threshold: Ratio, current_rate: Ratio },
    /// Security violation or sandbox escape attempt.
    SecurityViolation { ptr: usize, sandbox_base: usize, sandbox_size: usize },
    /// Internal engine inconsistency.
    SystemError { code: u32, message: String },
    /// WebAssembly module validation error.
    WasmValidationError { offset: usize, reason: &'static str },
    /// Garbage Collection specific error.
    GCError { reason: &'static str },
    /// MMU Sheaf Gluing Contradiction.
    SheafGluingContradiction { virtual_addr: u64, expected: u64, found: u64, level: u32 },
    /// Invalid object delegation/prototype chain.
    InvalidDelegation { from: String, to: String },
    /// Contradiction in modal logic/speculative state.
    ModalContradiction { proposition: String, stage: usize },
    /// Stuck loop detected in execution homotopy.
    HomotopyStuckLoop { pattern: String, trace_length: usize },
    /// Contradiction in HoTT path identity.
    PathContradiction { start: String, end: String, mapping: String },
    /// Violation of the Univalence Axiom.
    UnivalenceViolation { expected_equiv: bool, actual_id: bool },
}

/// The mathematical content of a `FailureKind`: every text field is taken as
/// its sequence of characters.
#[allow(inconsistent_fields)]
pub enum FailureView {
    OutOfBounds { index: usize, limit: usize, context: Seq<char> },
    InvalidTag { address: usize, expected_tag: u8, actual_tag: u8 },
    HeapExhausted { requested: usize, available: usize },
    InvalidStateTransition { object_id: u32, from: Seq<char>, to: Seq<char> },
    BatchFailure { batch_id: u64, reason: Seq<char> },
    CircuitBreakerTripped { threshold: Ratio, current_rate: Ratio },
    SecurityViolation { ptr: usize, sandbox_base: usize, sandbox_size: usize },
    SystemError { code: u32, message: Seq<char> },
    WasmValidationError { offset: usize, reason: Seq<char> },
    GCError { reason: Seq<char> },
    SheafGluingContradiction { virtual_addr: u64, expected: u64, found: u64, level: u32 },
    InvalidDelegation { from: Seq<char>, to: Seq<char> },
    ModalContradiction { proposition: Seq<char>, stage: usize },
    HomotopyStuckLoop { pattern: Seq<char>, trace_length: usize },
    PathContradiction { start: Seq<char>, end: Seq<char>, mapping: Seq<char> },
    UnivalenceViolation { expected_equiv: bool, actual_id: bool },
}

impl View for FailureKind {
    type V = FailureView;

    open spec fn view(&self) -> FailureView {
        match self {
            FailureKind::OutOfBounds { index, limit, context } =>
                FailureView::OutOfBounds { index: *index, limit: *limit, context: context@ },
            FailureKind::InvalidTag { address, expected_tag, actual_tag } =>
                FailureView::InvalidTag { address: *address, expected_tag: *expected_tag, actual_tag: *actual_tag },
            FailureKind::HeapExhausted { requested, available } =>
                FailureView::HeapExhausted { requested: *requested, available: *available },
            FailureKind::InvalidStateTransition { object_id, from, to } =>
                FailureView::InvalidStateTransition { object_id: *object_id, from: from@, to: to@ },
            FailureKind::BatchFailure { batch_id, reason } =>
                FailureView::BatchFailure { batch_id: *batch_id, reason: reason@ },
            FailureKind::CircuitBreakerTripped { threshold, current_rate } =>
                FailureView::CircuitBreakerTripped { threshold: *threshold, current_rate: *current_rate },
            FailureKind::SecurityViolation { ptr, sandbox_base, sandbox_size } =>
                FailureView::SecurityViolation { ptr: *ptr, sandbox_base: *sandbox_base, sandbox_size: *sandbox_size },
            FailureKind::SystemError { code, message } =>
                FailureView::SystemError { code: *code, message: message@ },
            FailureKind::WasmValidationError { offset, reason } =>
                FailureView::WasmValidationError { offset: *offset, reason: reason@ },
            FailureKind::GCError { reason } => FailureView::GCError { reason: reason@ },
            FailureKind::SheafGluingContradiction { virtual_addr, expected, found, level } =>
                FailureView::SheafGluingContradiction {
                    virtual_addr: *virtual_addr,
                    expected: *expected,
                    found: *found,
                    level: *level,
                },
            FailureKind::InvalidDelegation { from, to } =>
                FailureView::InvalidDelegation { from: from@, to: to@ },
            FailureKind::ModalContradiction { proposition, stage } =>
                FailureView::ModalContradiction { proposition: proposition@, stage: *stage },
            FailureKind::HomotopyStuckLoop { pattern, trace_length } =>
                FailureView::HomotopyStuckLoop { pattern: pattern@, trace_length: *trace_length },
            FailureKind::PathContradiction { start, end, mapping } =>
                FailureView::PathContradiction { start: start@, end: end@, mapping: mapping@ },
            FailureKind::UnivalenceViolation { expected_equiv, actual_id } =>
                FailureView::UnivalenceViolation { expected_equiv: *expected_equiv, actual_id: *actual_id },
        }
    }
}

/// The outcome of a kernel operation, with its failure taken by its view.
pub open spec fn outcome<T>(r: Result<T, FailureKind>) -> Result<T, FailureView> {
    match r {
        Ok(v) => Ok(v),
        Err(e) => Err(e@),
    }
}

/// The stable error code of each kind of failure.
pub open spec fn code_of(k: FailureView) -> Seq<char> {
    match k {
        FailureView::OutOfBounds { .. } => "ERR_MEM_001"@,
        FailureView::InvalidTag { .. } => "ERR_MEM_002"@,
        FailureView::HeapExhausted { .. } => "ERR_MEM_003"@,
        FailureView::InvalidStateTransition { .. } => "ERR_OBJ_001"@,
        FailureView::BatchFailure { .. } => "ERR_STR_001"@,
        FailureView::CircuitBreakerTripped { .. } => "ERR_SYS_001"@,
        FailureView::SecurityViolation { .. } => "ERR_SEC_001"@,
        FailureView::SystemError { .. } => "ERR_SYS_002"@,
        FailureView::WasmValidationError { .. } => "ERR_WSM_001"@,
        FailureView::GCError { .. } => "ERR_GC_001"@,
        FailureView::SheafGluingContradiction { .. } => "ERR_TOP_001"@,
        FailureView::InvalidDelegation { .. } => "ERR_TOP_002"@,
        FailureView::ModalContradiction { .. } => "ERR_TOP_003"@,
        FailureView::HomotopyStuckLoop { .. } => "ERR_TOP_004"@,
        FailureView::PathContradiction { .. } => "ERR_HOT_001"@,
        FailureView::UnivalenceViolation { .. } => "ERR_HOT_002"@,
    }
}

/// The position of a failure's variant in the declaration of `FailureKind`.
pub open spec fn variant_number(k: FailureView) -> nat {
    match k {
        FailureView::OutOfBounds { .. } => 0,
        FailureView::InvalidTag { .. } => 1,
        FailureView::HeapExhausted { .. } => 2,
        FailureView::InvalidStateTransition { .. } => 3,
        FailureView::BatchFailure { .. } => 4,
        FailureView::CircuitBreakerTripped { .. } => 5,
        FailureView::SecurityViolation { .. } => 6,
        FailureView::SystemError { .. } => 7,
        FailureView::WasmValidationError { .. } => 8,
        FailureView::GCError { .. } => 9,
        FailureView::SheafGluingContradiction { .. } => 10,
        FailureView::InvalidDelegation { .. } => 11,
        FailureView::ModalContradiction { .. } => 12,
        FailureView::HomotopyStuckLoop { .. } => 13,
        FailureView::PathContradiction { .. } => 14,
        FailureView::UnivalenceViolation { .. } => 15,
    }
}

/// Whether `c` is an upper-case ASCII letter.
pub open spec fn is_upper(c: char) -> bool {
    'A' <= c <= 'Z'
}

/// Whether `c` is an ASCII decimal digit.
pub open spec fn is_digit(c: char) -> bool {
    '0' <= c <= '9'
}

/// The form of an error code: `ERR_`, an upper-case domain of two or three
/// letters, `_`, and three digits.
pub open spec fn is_code_form(s: Seq<char>) -> bool {
    let n = s.len();
    &&& 10 <= n <= 11
    &&& s.subrange(0, 4) == "ERR_"@
    &&& forall|i: int| 4 <= i < n - 4 ==> is_upper(#[trigger] s[i])
    &&& s[n - 4] == '_'
    &&& forall|i: int| n - 3 <= i < n ==> is_digit(#[trigger] s[i])
}

/// The letters of a code that tell the variants apart.
spec fn code_key(s: Seq<char>) -> (char, char, char) {
    (s[4], s[5], s[s.len() - 1])
}

/// Those letters for each variant.
spec fn variant_key(n: nat) -> (char, char, char) {
    if n == 0 { ('M', 'E', '1') }
    else if n == 1 { ('M', 'E', '2') }
    else if n == 2 { ('M', 'E', '3') }
    else if n == 3 { ('O', 'B', '1') }
    else if n == 4 { ('S', 'T', '1') }
    else if n == 5 { ('S', 'Y', '1') }
    else if n == 6 { ('S', 'E', '1') }
    else if n == 7 { ('S', 'Y', '2') }
    else if n == 8 { ('W', 'S', '1') }
    else if n == 9 { ('G', 'C', '1') }
    else if n == 10 { ('T', 'O', '1') }
    else if n == 11 { ('T', 'O', '2') }
    else if n == 12 { ('T', 'O', '3') }
    else if n == 13 { ('T', 'O', '4') }
    else if n == 14 { ('H', 'O', '1') }
    else { ('H', 'O', '2') }
}

proof fn lemma_code_shape(k: FailureView)
    ensures
        code_key(code_of(k)) == variant_key(variant_number(k)),
        is_code_form(code_of(k)),
{
    reveal_strlit("ERR_"); reveal_strlit("ERR_MEM_001"); reveal_strlit("ERR_MEM_002");
    reveal_strlit("ERR_MEM_003"); reveal_strlit("ERR_OBJ_001"); reveal_strlit("ERR_STR_001");
    reveal_strlit("ERR_SYS_001"); reveal_strlit("ERR_SEC_001"); reveal_strlit("ERR_SYS_002");
    reveal_strlit("ERR_WSM_001"); reveal_strlit("ERR_GC_001"); reveal_strlit("ERR_TOP_001");
    reveal_strlit("ERR_TOP_002"); reveal_strlit("ERR_TOP_003"); reveal_strlit("ERR_TOP_004");
    reveal_strlit("ERR_HOT_001"); reveal_strlit("ERR_HOT_002");
    let s = code_of(k);
    assert(s.subrange(0, 4) =~= "ERR_"@);
}

proof fn lemma_variant_key_injective(m: nat, n: nat)
    requires m < 16, n < 16, variant_key(m) == variant_key(n),
    ensures m == n,
{
}

/// One code per variant: two failures have the same code exactly when they
/// are of the same variant, whatever their fields; and every code has the
/// form `ERR_<DOMAIN>_<three digits>`.
pub proof fn lemma_codes_distinct(a: FailureView, b: FailureView)
    ensures
        code_of(a) == code_of(b) <==> variant_number(a) == variant_number(b),
        is_code_form(code_of(a)),
{
    lemma_code_shape(a);
    lemma_code_shape(b);
    if code_of(a) == code_of(b) {
        lemma_variant_key_injective(variant_number(a), variant_number(b));
    }
}

/// The remediation advice of each kind of failure.
pub open spec fn help_of(k: FailureView) -> Seq<char> {
    match k {
        FailureView::OutOfBounds { .. } => "Check your index calculations. Ensure the index is within the allocated capacity of the SoA buffer."@,
        FailureView::InvalidTag { .. } => "Verify that the pointer tagging logic is consistent. Ensure you are not misinterpreting an Smi as a TaggedAddress."@,
        FailureView::HeapExhausted { .. } => "The heap is full. Consider triggering a Garbage Collection cycle or increasing the heap capacity."@,
        FailureView::InvalidStateTransition { .. } => "Review the V8 spec for state transitions. A Promise cannot move from Fulfilled back to Pending."@,
        FailureView::BatchFailure { .. } => "One or more operations in the batch failed. Check individual operation logs for details."@,
        FailureView::CircuitBreakerTripped { .. } => "Error rate exceeded the safety threshold. The system has halted to prevent further corruption."@,
        FailureView::SecurityViolation { .. } => "A pointer tried to access memory outside the V8 sandbox. This could be a bug or an exploit attempt."@,
        FailureView::SystemError { .. } => "A general system error occurred. Please refer to the system logs for more information."@,
        FailureView::WasmValidationError { .. } => "The WebAssembly module contains illegal instructions or invalid structure."@,
        FailureView::GCError { .. } => "Garbage collection failed to complete properly. This may indicate severe heap corruption."@,
        FailureView::SheafGluingContradiction { .. } => "A contradiction was found during MMU sheaf gluing. Different page table levels disagree on the physical mapping."@,
        FailureView::InvalidDelegation { .. } => "The requested object delegation or prototype chain access is invalid or cyclic."@,
        FailureView::ModalContradiction { .. } => "A contradiction occurred in the speculative modal logic evaluation. The state is inconsistent."@,
        FailureView::HomotopyStuckLoop { .. } => "An infinite execution loop was detected using homotopy trace analysis."@,
        FailureView::PathContradiction { .. } => "A path identity contradiction was found. The start and end states do not match the expected mapping."@,
        FailureView::UnivalenceViolation { .. } => "The Univalence Axiom was violated. Equivalent states were not found to be identical."@,
    }
}

impl FailureKind {
    /// Returns a unique error code for the failure kind.
    pub fn code(&self) -> (r: &'static str)
        ensures r@ == code_of(self@),
    {
        match self {
            FailureKind::OutOfBounds { .. } => "ERR_MEM_001",
            FailureKind::InvalidTag { .. } => "ERR_MEM_002",
            FailureKind::HeapExhausted { .. } => "ERR_MEM_003",
            FailureKind::InvalidStateTransition { .. } => "ERR_OBJ_001",
            FailureKind::BatchFailure { .. } => "ERR_STR_001",
            FailureKind::CircuitBreakerTripped { .. } => "ERR_SYS_001",
            FailureKind::SecurityViolation { .. } => "ERR_SEC_001",
            FailureKind::SystemError { .. } => "ERR_SYS_002",
            FailureKind::WasmValidationError { .. } => "ERR_WSM_001",
            FailureKind::GCError { .. } => "ERR_GC_001",
            FailureKind::SheafGluingContradiction { .. } => "ERR_TOP_001",
            FailureKind::InvalidDelegation { .. } => "ERR_TOP_002",
            FailureKind::ModalContradiction { .. } => "ERR_TOP_003",
            FailureKind::HomotopyStuckLoop { .. } => "ERR_TOP_004",
            FailureKind::PathContradiction { .. } => "ERR_HOT_001",
            FailureKind::UnivalenceViolation { .. } => "ERR_HOT_002",
        }
    }

    /// Provides actionable remediation advice for the failure.
    pub fn help_message(&self) -> (r: &'static str)
        ensures r@ == help_of(self@),
    {
        match self {
            FailureKind::OutOfBounds { .. } => "Check your index calculations. Ensure the index is within the allocated capacity of the SoA buffer.",
            FailureKind::InvalidTag { .. } => "Verify that the pointer tagging logic is consistent. Ensure you are not misinterpreting an Smi as a TaggedAddress.",
            FailureKind::HeapExhausted { .. } => "The heap is full. Consider triggering a Garbage Collection cycle or increasing the heap capacity.",
            FailureKind::InvalidStateTransition { .. } => "Review the V8 spec for state transitions. A Promise cannot move from Fulfilled back to Pending.",
            FailureKind::BatchFailure { .. } => "One or more operations in the batch failed. Check individual operation logs for details.",
            FailureKind::CircuitBreakerTripped { .. } => "Error rate exceeded the safety threshold. The system has halted to prevent further corruption.",
            FailureKind::SecurityViolation { .. } => "A pointer tried to access memory outside the V8 sandbox. This could be a bug or an exploit attempt.",
            FailureKind::SystemError { .. } => "A general system error occurred. Please refer to the system logs for more information.",
            FailureKind::WasmValidationError { .. } => "The WebAssembly module contains illegal instructions or invalid structure.",
            FailureKind::GCError { .. } => "Garbage collection failed to complete properly. This may indicate severe heap corruption.",
            FailureKind::SheafGluingContradiction { .. } => "A contradiction was found during MMU sheaf gluing. Different page table levels disagree on the physical mapping.",
            FailureKind::InvalidDelegation { .. } => "The requested object delegation or prototype chain access is invalid or cyclic.",
            FailureKind::ModalContradiction { .. } => "A contradiction occurred in the speculative modal logic evaluation. The state is inconsistent.",
            FailureKind::HomotopyStuckLoop { .. } => "An infinite execution loop was detected using homotopy trace analysis.",
            FailureKind::PathContradiction { .. } => "A path identity contradiction was found. The start and end states do not match the expected mapping.",
            FailureKind::UnivalenceViolation { .. } => "The Univalence Axiom was violated. Equivalent states were not found to be identical.",
        }
    }
}

/// A ratio in hundredths, rounded to the nearest (a tie goes to the even
/// neighbour), as two-decimal formatting rounds an exact value.
pub open spec fn rounded_hundredths(r: Ratio) -> nat
    recommends r.den > 0,
{
    let n = r.num as nat * 100;
    let d = r.den as nat;
    let q = n / d;
    let rem = n % d;
    if 2 * rem > d || (2 * rem == d && q % 2 == 1) { q + 1 } else { q }
}

/// The text form of a ratio with two decimals, such as `0.10`; a zero
/// denominator gives `inf`, or `NaN` when the numerator is zero too.
pub open spec fn ratio_text(r: Ratio) -> Seq<char> {
    if r.den == 0 {
        if r.num == 0 { "NaN"@ } else { "inf"@ }
    } else {
        let h = rounded_hundredths(r);
        dec(h / 100) + "."@ + dec((h % 100) / 10) + dec(h % 10)
    }
}

/// The rounded hundredths of a ratio fit in `u64` once divided by 100.
proof fn lemma_hundredths_bound(r: Ratio)
    requires r.den > 0,
    ensures rounded_hundredths(r) / 100 <= r.num,
{
    let n = r.num as nat * 100;
    let d = r.den as nat;
    let q = n / d;
    let h = rounded_hundredths(r);
    assert(h <= q + 1);
    if d == 1 {
        assert(q == n && n % d == 0) by (nonlinear_arith) requires d == 1, q == n / d;
        assert(h == q);
        assert(h / 100 == r.num as nat) by (nonlinear_arith) requires h == r.num as nat * 100;
    } else {
        assert(q <= n / 2) by (nonlinear_arith) requires d >= 2, q == n / d;
        assert(h / 100 <= r.num as nat) by (nonlinear_arith)
            requires h <= q + 1, q <= n / 2, n == r.num as nat * 100;
    }
}

fn push_ratio(out: &mut String, r: &Ratio)
    ensures final(out)@ == old(out)@ + ratio_text(*r),
{
    proof { reveal_strlit("NaN"); reveal_strlit("inf"); reveal_strlit("."); }
    if r.den == 0 {
        if r.num == 0 {
            out.append("NaN");
        } else {
            out.append("inf");
        }
        return;
    }
    let n: u128 = (r.num as u128) * 100;
    let d: u128 = r.den as u128;
    let q: u128 = n / d;
    let rem: u128 = n % d;
    assert(q <= n) by (nonlinear_arith) requires d >= 1, q == n / d;
    let h: u128 = if 2 * rem > d || (2 * rem == d && q % 2 == 1) { q + 1 } else { q };
    proof {
        assert(h == rounded_hundredths(*r));
        lemma_hundredths_bound(*r);
    }
    let whole: u64 = (h / 100) as u64;
    let part: u64 = (h % 100) as u64;
    push_dec(out, whole);
    out.append(".");
    push_dec(out, part / 10);
    push_dec(out, part % 10);
    assert(out@ =~= old(out)@ + ratio_text(*r));
}

/// The detail lines of `OutOfBounds`.
pub open spec fn body_out_of_bounds(index: usize, limit: usize, context: Seq<char>) -> Seq<char> {
    "│ CAUSE:    Memory access out of bounds in context: "@
        + pad_right(context, 26)
        + " │"@
        + "\n"@
        + "│ LIMIT:    Attempted index "@
        + dec(index as nat)
        + " while buffer limit was "@
        + dec(limit as nat)
        + ".               │"@
        + "\n"@
        + "│ DETAIL:   Byte offset violation: "@
        + dec(index.saturating_sub(limit) as nat)
        + " past boundary.                      │"@
        + "\n"@
}

/// The detail lines of `InvalidTag`.
pub open spec fn body_invalid_tag(address: usize, expected_tag: u8, actual_tag: u8) -> Seq<char> {
    "│ CAUSE:    Pointer tagging mismatch detected.                                  │"@
        + "\n"@
        + "│ ADDRESS:  0x"@
        + hex_width(address as nat, 16)
        + "                                           │"@
        + "\n"@
        + "│ TAGS:     Expected: 0x"@
        + hex_width(expected_tag as nat, 2)
        + ", Actual: 0x"@
        + hex_width(actual_tag as nat, 2)
        + "                                 │"@
        + "\n"@
}

/// The detail lines of `HeapExhausted`.
pub open spec fn body_heap_exhausted(requested: usize, available: usize) -> Seq<char> {
    "│ CAUSE:    Insufficient heap memory for allocation.                           │"@
        + "\n"@
        + "│ REQUEST:  "@
        + dec(requested as nat)
        + " objects                                                     │"@
        + "\n"@
        + "│ LIMIT:    Current available slots: "@
        + dec(available as nat)
        + "                                     │"@
        + "\n"@
}

/// The detail lines of `InvalidStateTransition`.
pub open spec fn body_invalid_state_transition(object_id: u32, from: Seq<char>, to: Seq<char>) -> Seq<char> {
    "│ CAUSE:    Illegal state transition for Object ID: "@
        + pad_right(dec(object_id as nat), 26)
        + " │"@
        + "\n"@
        + "│ PATH:     "@
        + from
        + " -> "@
        + to
        + "                                               │"@
        + "\n"@
}

/// The detail lines of `BatchFailure`.
pub open spec fn body_batch_failure(batch_id: u64, reason: Seq<char>) -> Seq<char> {
    "│ CAUSE:    Atomic batch operation failed.                                     │"@
        + "\n"@
        + "│ BATCH ID: "@
        + dec(batch_id as nat)
        + "                                                       │"@
        + "\n"@
        + "│ REASON:   "@
        + pad_right(reason, 66)
        + " │"@
        + "\n"@
}

/// The detail lines of `CircuitBreakerTripped`.
pub open spec fn body_circuit_breaker_tripped(threshold: Ratio, current_rate: Ratio) -> Seq<char> {
    "│ CAUSE:    Circuit breaker tripped due to high error density.                 │"@
        + "\n"@
        + "│ STATS:    Threshold: "@
        + ratio_text(threshold)
        + ", Current Rate: "@
        + ratio_text(current_rate)
        + "                           │"@
        + "\n"@
}

/// The detail lines of `SecurityViolation`.
pub open spec fn body_security_violation(ptr: usize, sandbox_base: usize, sandbox_size: usize) -> Seq<char> {
    "│ CAUSE:    Out-of-sandbox memory access attempt.                              │"@
        + "\n"@
        + "│ POINTER:  0x"@
        + hex_width(ptr as nat, 16)
        + "                                           │"@
        + "\n"@
        + "│ LIMIT:    Base 0x"@
        + hex_width(sandbox_base as nat, 8)
        + ", Size 0x"@
        + hex_width(sandbox_size as nat, 8)
        + "                             │"@
        + "\n"@
}

/// The detail lines of `SystemError`.
pub open spec fn body_system_error(code: u32, message: Seq<char>) -> Seq<char> {
    "│ CAUSE:    General system failure.                                            │"@
        + "\n"@
        + "│ CODE:     "@
        + dec(code as nat)
        + "                                                                 │"@
        + "\n"@
        + "│ MESSAGE:  "@
        + pad_right(message, 66)
        + " │"@
        + "\n"@
}

/// The detail lines of `WasmValidationError`.
pub open spec fn body_wasm_validation_error(offset: usize, reason: Seq<char>) -> Seq<char> {
    "│ CAUSE:    Wasm module validation failed.                                     │"@
        + "\n"@
        + "│ OFFSET:   0x"@
        + hex_width(offset as nat, 0)
        + "                                                           │"@
        + "\n"@
        + "│ REASON:   "@
        + pad_right(reason, 66)
        + " │"@
        + "\n"@
}

/// The detail lines of `GCError`.
pub open spec fn body_g_c_error(reason: Seq<char>) -> Seq<char> {
    "│ CAUSE:    Garbage collection failure.                                        │"@
        + "\n"@
        + "│ REASON:   "@
        + pad_right(reason, 66)
        + " │"@
        + "\n"@
}

/// The detail lines of `SheafGluingContradiction`.
pub open spec fn body_sheaf_gluing_contradiction(virtual_addr: u64, expected: u64, found: u64, level: u32) -> Seq<char> {
    "│ CAUSE:    MMU Sheaf Gluing Contradiction.                                    │"@
        + "\n"@
        + "│ ADDR:     VA: 0x"@
        + hex_width(virtual_addr as nat, 16)
        + ", Level: "@
        + dec(level as nat)
        + "                                    │"@
        + "\n"@
        + "│ MAPPING:  Expected PA: 0x"@
        + hex_width(expected as nat, 16)
        + ", Found PA: 0x"@
        + hex_width(found as nat, 16)
        + "          │"@
        + "\n"@
}

/// The detail lines of `InvalidDelegation`.
pub open spec fn body_invalid_delegation(from: Seq<char>, to: Seq<char>) -> Seq<char> {
    "│ CAUSE:    Invalid object delegation or prototype chain.                      │"@
        + "\n"@
        + "│ FROM:     "@
        + pad_right(from, 66)
        + " │"@
        + "\n"@
        + "│ TO:       "@
        + pad_right(to, 66)
        + " │"@
        + "\n"@
}

/// The detail lines of `ModalContradiction`.
pub open spec fn body_modal_contradiction(proposition: Seq<char>, stage: usize) -> Seq<char> {
    "│ CAUSE:    Speculative modal logic contradiction.                             │"@
        + "\n"@
        + "│ PROP:     "@
        + pad_right(proposition, 66)
        + " │"@
        + "\n"@
        + "│ STAGE:    "@
        + pad_right(dec(stage as nat), 66)
        + " │"@
        + "\n"@
}

/// The detail lines of `HomotopyStuckLoop`.
pub open spec fn body_homotopy_stuck_loop(pattern: Seq<char>, trace_length: usize) -> Seq<char> {
    "│ CAUSE:    Infinite loop detected via homotopy analysis.                       │"@
        + "\n"@
        + "│ PATTERN:  "@
        + pad_right(pattern, 66)
        + " │"@
        + "\n"@
        + "│ TRACE:    Length: "@
        + pad_right(dec(trace_length as nat), 58)
        + " │"@
        + "\n"@
}

/// The detail lines of `PathContradiction`.
pub open spec fn body_path_contradiction(start: Seq<char>, end: Seq<char>, mapping: Seq<char>) -> Seq<char> {
    "│ CAUSE:    HoTT Path Contradiction detected.                                  │"@
        + "\n"@
        + "│ PATH:     "@
        + start
        + " -> "@
        + end
        + "                                               │"@
        + "\n"@
        + "│ MAP:      "@
        + pad_right(mapping, 66)
        + " │"@
        + "\n"@
}

/// The detail lines of `UnivalenceViolation`.
pub open spec fn body_univalence_violation(expected_equiv: bool, actual_id: bool) -> Seq<char> {
    "│ CAUSE:    Univalence Axiom Violation.                                        │"@
        + "\n"@
        + "│ EXPECTED: Equivalent="@
        + pad_right(bool_text(expected_equiv), 55)
        + " │"@
        + "\n"@
        + "│ ACTUAL:   Identical="@
        + pad_right(bool_text(actual_id), 56)
        + " │"@
        + "\n"@
}

fn push_out_of_bounds(out: &mut String, index: usize, limit: usize, context: &str)
    ensures final(out)@ == old(out)@ + body_out_of_bounds(index, limit, context@),
{
    out.append("│ CAUSE:    Memory access out of bounds in context: ");
    push_padded(out, context, 26);
    out.append(" │");
    out.append("\n");
    out.append("│ LIMIT:    Attempted index ");
    push_dec(out, index as u64);
    out.append(" while buffer limit was ");
    push_dec(out, limit as u64);
    out.append(".               │");
    out.append("\n");
    out.append("│ DETAIL:   Byte offset violation: ");
    push_dec(out, index.saturating_sub(limit) as u64);
    out.append(" past boundary.                      │");
    out.append("\n");
    assert(out@ =~= old(out)@ + body_out_of_bounds(index, limit, context@));
}

fn push_invalid_tag(out: &mut String, address: usize, expected_tag: u8, actual_tag: u8)
    ensures final(out)@ == old(out)@ + body_invalid_tag(address, expected_tag, actual_tag),
{
    out.append("│ CAUSE:    Pointer tagging mismatch detected.                                  │");
    out.append("\n");
    out.append("│ ADDRESS:  0x");
    push_hex(out, address as u64, 16);
    out.append("                                           │");
    out.append("\n");
    out.append("│ TAGS:     Expected: 0x");
    push_hex(out, expected_tag as u64, 2);
    out.append(", Actual: 0x");
    push_hex(out, actual_tag as u64, 2);
    out.append("                                 │");
    out.append("\n");
    assert(out@ =~= old(out)@ + body_invalid_tag(address, expected_tag, actual_tag));
}

fn push_heap_exhausted(out: &mut String, requested: usize, available: usize)
    ensures final(out)@ == old(out)@ + body_heap_exhausted(requested, available),
{
    out.append("│ CAUSE:    Insufficient heap memory for allocation.                           │");
    out.append("\n");
    out.append("│ REQUEST:  ");
    push_dec(out, requested as u64);
    out.append(" objects                                                     │");
    out.append("\n");
    out.append("│ LIMIT:    Current available slots: ");
    push_dec(out, available as u64);
    out.append("                                     │");
    out.append("\n");
    assert(out@ =~= old(out)@ + body_heap_exhausted(requested, available));
}

fn push_invalid_state_transition(out: &mut String, object_id: u32, from: &str, to: &str)
    ensures final(out)@ == old(out)@ + body_invalid_state_transition(object_id, from@, to@),
{
    out.append("│ CAUSE:    Illegal state transition for Object ID: ");
    { let mut t = String::new(); push_dec(&mut t, object_id as u64); push_padded(out, t.as_str(), 26); }
    out.append(" │");
    out.append("\n");
    out.append("│ PATH:     ");
    out.append(from);
    out.append(" -> ");
    out.append(to);
    out.append("                                               │");
    out.append("\n");
    assert(out@ =~= old(out)@ + body_invalid_state_transition(object_id, from@, to@));
}

fn push_batch_failure(out: &mut String, batch_id: u64, reason: &str)
    ensures final(out)@ == old(out)@ + body_batch_failure(batch_id, reason@),
{
    out.append("│ CAUSE:    Atomic batch operation failed.                                     │");
    out.append("\n");
    out.append("│ BATCH ID: ");
    push_dec(out, batch_id as u64);
    out.append("                                                       │");
    out.append("\n");
    out.append("│ REASON:   ");
    push_padded(out, reason, 66);
    out.append(" │");
    out.append("\n");
    assert(out@ =~= old(out)@ + body_batch_failure(batch_id, reason@));
}

fn push_circuit_breaker_tripped(out: &mut String, threshold: &Ratio, current_rate: &Ratio)
    ensures final(out)@ == old(out)@ + body_circuit_breaker_tripped(*threshold, *current_rate),
{
    out.append("│ CAUSE:    Circuit breaker tripped due to high error density.                 │");
    out.append("\n");
    out.append("│ STATS:    Threshold: ");
    push_ratio(out, threshold);
    out.append(", Current Rate: ");
    push_ratio(out, current_rate);
    out.append("                           │");
    out.append("\n");
    assert(out@ =~= old(out)@ + body_circuit_breaker_tripped(*threshold, *current_rate));
}

fn push_security_violation(out: &mut String, ptr: usize, sandbox_base: usize, sandbox_size: usize)
    ensures final(out)@ == old(out)@ + body_security_violation(ptr, sandbox_base, sandbox_size),
{
    out.append("│ CAUSE:    Out-of-sandbox memory access attempt.                              │");
    out.append("\n");
    out.append("│ POINTER:  0x");
    push_hex(out, ptr as u64, 16);
    out.append("                                           │");
    out.append("\n");
    out.append("│ LIMIT:    Base 0x");
    push_hex(out, sandbox_base as u64, 8);
    out.append(", Size 0x");
    push_hex(out, sandbox_size as u64, 8);
    out.append("                             │");
    out.append("\n");
    assert(out@ =~= old(out)@ + body_security_violation(ptr, sandbox_base, sandbox_size));
}

fn push_system_error(out: &mut String, code: u32, message: &str)
    ensures final(out)@ == old(out)@ + body_system_error(code, message@),
{
    out.append("│ CAUSE:    General system failure.                                            │");
    out.append("\n");
    out.append("│ CODE:     ");
    push_dec(out, code as u64);
    out.append("                                                                 │");
    out.append("\n");
    out.append("│ MESSAGE:  ");
    push_padded(out, message, 66);
    out.append(" │");
    out.append("\n");
    assert(out@ =~= old(out)@ + body_system_error(code, message@));
}

fn push_wasm_validation_error(out: &mut String, offset: usize, reason: &str)
    ensures final(out)@ == old(out)@ + body_wasm_validation_error(offset, reason@),
{
    out.append("│ CAUSE:    Wasm module validation failed.                                     │");
    out.append("\n");
    out.append("│ OFFSET:   0x");
    push_hex(out, offset as u64, 0);
    out.append("                                                           │");
    out.append("\n");
    out.append("│ REASON:   ");
    push_padded(out, reason, 66);
    out.append(" │");
    out.append("\n");
    assert(out@ =~= old(out)@ + body_wasm_validation_error(offset, reason@));
}

fn push_g_c_error(out: &mut String, reason: &str)
    ensures final(out)@ == old(out)@ + body_g_c_error(reason@),
{
    out.append("│ CAUSE:    Garbage collection failure.                                        │");
    out.append("\n");
    out.append("│ REASON:   ");
    push_padded(out, reason, 66);
    out.append(" │");
    out.append("\n");
    assert(out@ =~= old(out)@ + body_g_c_error(reason@));
}

fn push_sheaf_gluing_contradiction(out: &mut String, virtual_addr: u64, expected: u64, found: u64, level: u32)
    ensures final(out)@ == old(out)@ + body_sheaf_gluing_contradiction(virtual_addr, expected, found, level),
{
    out.append("│ CAUSE:    MMU Sheaf Gluing Contradiction.                                    │");
    out.append("\n");
    out.append("│ ADDR:     VA: 0x");
    push_hex(out, virtual_addr as u64, 16);
    out.append(", Level: ");
    push_dec(out, level as u64);
    out.append("                                    │");
    out.append("\n");
    out.append("│ MAPPING:  Expected PA: 0x");
    push_hex(out, expected as u64, 16);
    out.append(", Found PA: 0x");
    push_hex(out, found as u64, 16);
    out.append("          │");
    out.append("\n");
    assert(out@ =~= old(out)@ + body_sheaf_gluing_contradiction(virtual_addr, expected, found, level));
}

fn push_invalid_delegation(out: &mut String, from: &str, to: &str)
    ensures final(out)@ == old(out)@ + body_invalid_delegation(from@, to@),
{
    out.append("│ CAUSE:    Invalid object delegation or prototype chain.                      │");
    out.append("\n");
    out.append("│ FROM:     ");
    push_padded(out, from, 66);
    out.append(" │");
    out.append("\n");
    out.append("│ TO:       ");
    push_padded(out, to, 66);
    out.append(" │");
    out.append("\n");
    assert(out@ =~= old(out)@ + body_invalid_delegation(from@, to@));
}

fn push_modal_contradiction(out: &mut String, proposition: &str, stage: usize)
    ensures final(out)@ == old(out)@ + body_modal_contradiction(proposition@, stage),
{
    out.append("│ CAUSE:    Speculative modal logic contradiction.                             │");
    out.append("\n");
    out.append("│ PROP:     ");
    push_padded(out, proposition, 66);
    out.append(" │");
    out.append("\n");
    out.append("│ STAGE:    ");
    { let mut t = String::new(); push_dec(&mut t, stage as u64); push_padded(out, t.as_str(), 66); }
    out.append(" │");
    out.append("\n");
    assert(out@ =~= old(out)@ + body_modal_contradiction(proposition@, stage));
}

fn push_homotopy_stuck_loop(out: &mut String, pattern: &str, trace_length: usize)
    ensures final(out)@ == old(out)@ + body_homotopy_stuck_loop(pattern@, trace_length),
{
    out.append("│ CAUSE:    Infinite loop detected via homotopy analysis.                       │");
    out.append("\n");
    out.append("│ PATTERN:  ");
    push_padded(out, pattern, 66);
    out.append(" │");
    out.append("\n");
    out.append("│ TRACE:    Length: ");
    { let mut t = String::new(); push_dec(&mut t, trace_length as u64); push_padded(out, t.as_str(), 58); }
    out.append(" │");
    out.append("\n");
    assert(out@ =~= old(out)@ + body_homotopy_stuck_loop(pattern@, trace_length));
}

fn push_path_contradiction(out: &mut String, start: &str, end: &str, mapping: &str)
    ensures final(out)@ == old(out)@ + body_path_contradiction(start@, end@, mapping@),
{
    out.append("│ CAUSE:    HoTT Path Contradiction detected.                                  │");
    out.append("\n");
    out.append("│ PATH:     ");
    out.append(start);
    out.append(" -> ");
    out.append(end);
    out.append("                                               │");
    out.append("\n");
    out.append("│ MAP:      ");
    push_padded(out, mapping, 66);
    out.append(" │");
    out.append("\n");
    assert(out@ =~= old(out)@ + body_path_contradiction(start@, end@, mapping@));
}

fn push_univalence_violation(out: &mut String, expected_equiv: bool, actual_id: bool)
    ensures final(out)@ == old(out)@ + body_univalence_violation(expected_equiv, actual_id),
{
    out.append("│ CAUSE:    Univalence Axiom Violation.                                        │");
    out.append("\n");
    out.append("│ EXPECTED: Equivalent=");
    push_padded(out, if expected_equiv { "true" } else { "false" }, 55);
    out.append(" │");
    out.append("\n");
    out.append("│ ACTUAL:   Identical=");
    push_padded(out, if actual_id { "true" } else { "false" }, 56);
    out.append(" │");
    out.append("\n");
    assert(out@ =~= old(out)@ + body_univalence_violation(expected_equiv, actual_id));
}

/// The detail lines of each kind of failure in its rendered diagnostic.
pub open spec fn render_body(k: FailureView) -> Seq<char> {
    match k {
        FailureView::OutOfBounds { index, limit, context } => body_out_of_bounds(index, limit, context),
        FailureView::InvalidTag { address, expected_tag, actual_tag } => body_invalid_tag(address, expected_tag, actual_tag),
        FailureView::HeapExhausted { requested, available } => body_heap_exhausted(requested, available),
        FailureView::InvalidStateTransition { object_id, from, to } => body_invalid_state_transition(object_id, from, to),
        FailureView::BatchFailure { batch_id, reason } => body_batch_failure(batch_id, reason),
        FailureView::CircuitBreakerTripped { threshold, current_rate } => body_circuit_breaker_tripped(threshold, current_rate),
        FailureView::SecurityViolation { ptr, sandbox_base, sandbox_size } => body_security_violation(ptr, sandbox_base, sandbox_size),
        FailureView::SystemError { code, message } => body_system_error(code, message),
        FailureView::WasmValidationError { offset, reason } => body_wasm_validation_error(offset, reason),
        FailureView::GCError { reason } => body_g_c_error(reason),
        FailureView::SheafGluingContradiction { virtual_addr, expected, found, level } => body_sheaf_gluing_contradiction(virtual_addr, expected, found, level),
        FailureView::InvalidDelegation { from, to } => body_invalid_delegation(from, to),
        FailureView::ModalContradiction { proposition, stage } => body_modal_contradiction(proposition, stage),
        FailureView::HomotopyStuckLoop { pattern, trace_length } => body_homotopy_stuck_loop(pattern, trace_length),
        FailureView::PathContradiction { start, end, mapping } => body_path_contradiction(start, end, mapping),
        FailureView::UnivalenceViolation { expected_equiv, actual_id } => body_univalence_violation(expected_equiv, actual_id),
    }
}

/// The rendered diagnostic of a failure: a boxed report with the error code,
/// the details of the failure, and the remediation advice.
pub open spec fn render(k: FailureView) -> Seq<char> {
    "┌──────────────────────────────────────────────────────────────────────────────┐"@ + "\n"@
        + "│ [DIAGNOSTIC ERROR]: "@ + pad_right(code_of(k), 56) + " │"@ + "\n"@
        + "├──────────────────────────────────────────────────────────────────────────────┤"@ + "\n"@
        + render_body(k)
        + "├──────────────────────────────────────────────────────────────────────────────┤"@ + "\n"@
        + "│ HELP:     "@ + pad_right(help_of(k), 66) + " │"@ + "\n"@
        + "└──────────────────────────────────────────────────────────────────────────────┘"@ + "\n"@
}

impl FailureKind {
    fn push_body(&self, out: &mut String)
        ensures final(out)@ == old(out)@ + render_body(self@),
    {
        match self {
            FailureKind::OutOfBounds { index, limit, context } => push_out_of_bounds(out, *index, *limit, context),
            FailureKind::InvalidTag { address, expected_tag, actual_tag } => push_invalid_tag(out, *address, *expected_tag, *actual_tag),
            FailureKind::HeapExhausted { requested, available } => push_heap_exhausted(out, *requested, *available),
            FailureKind::InvalidStateTransition { object_id, from, to } => push_invalid_state_transition(out, *object_id, from, to),
            FailureKind::BatchFailure { batch_id, reason } => push_batch_failure(out, *batch_id, reason.as_str()),
            FailureKind::CircuitBreakerTripped { threshold, current_rate } => push_circuit_breaker_tripped(out, threshold, current_rate),
            FailureKind::SecurityViolation { ptr, sandbox_base, sandbox_size } => push_security_violation(out, *ptr, *sandbox_base, *sandbox_size),
            FailureKind::SystemError { code, message } => push_system_error(out, *code, message.as_str()),
            FailureKind::WasmValidationError { offset, reason } => push_wasm_validation_error(out, *offset, reason),
            FailureKind::GCError { reason } => push_g_c_error(out, reason),
            FailureKind::SheafGluingContradiction { virtual_addr, expected, found, level } => push_sheaf_gluing_contradiction(out, *virtual_addr, *expected, *found, *level),
            FailureKind::InvalidDelegation { from, to } => push_invalid_delegation(out, from.as_str(), to.as_str()),
            FailureKind::ModalContradiction { proposition, stage } => push_modal_contradiction(out, proposition.as_str(), *stage),
            FailureKind::HomotopyStuckLoop { pattern, trace_length } => push_homotopy_stuck_loop(out, pattern.as_str(), *trace_length),
            FailureKind::PathContradiction { start, end, mapping } => push_path_contradiction(out, start.as_str(), end.as_str(), mapping.as_str()),
            FailureKind::UnivalenceViolation { expected_equiv, actual_id } => push_univalence_violation(out, *expected_equiv, *actual_id),
        }
    }

    /// The rendered diagnostic of the failure (see `render`).
    pub fn to_string(&self) -> (r: String)
        ensures r@ == render(self@),
    {
        let mut out = String::new();
        out.append("┌──────────────────────────────────────────────────────────────────────────────┐");
        out.append("\n");
        out.append("│ [DIAGNOSTIC ERROR]: ");
        push_padded(&mut out, self.code(), 56);
        out.append(" │");
        out.append("\n");
        out.append("├──────────────────────────────────────────────────────────────────────────────┤");
        out.append("\n");
        self.push_body(&mut out);
        out.append("├──────────────────────────────────────────────────────────────────────────────┤");
        out.append("\n");
        out.append("│ HELP:     ");
        push_padded(&mut out, self.help_message(), 66);
        out.append(" │");
        out.append("\n");
        out.append("└──────────────────────────────────────────────────────────────────────────────┘");
        out.append("\n");
        assert(out@ =~= render(self@));
        out
    }
}

/// The state of a circuit breaker, as numbers.
pub struct BreakerView {
    pub threshold: Ratio,
    pub errors: usize,
    pub total_ops: usize,
    pub tripped: bool,
    pub min_ops: usize,
}

/// The breaker after recording one operation, failed or not: a tripped
/// breaker stays as it is; otherwise the operation (and its failure) is
/// counted, and from `min_ops` operations on the breaker trips when the
/// error rate exceeds the threshold.
pub open spec fn record_step(b: BreakerView, failed: bool) -> BreakerView {
    if b.tripped {
        b
    } else {
        let total = (b.total_ops + 1) as usize;
        let errors = (b.errors + if failed { 1int } else { 0int }) as usize;
        BreakerView {
            threshold: b.threshold,
            errors,
            total_ops: total,
            tripped: total >= b.min_ops && b.threshold.exceeded_by(errors as nat, total as nat),
            min_ops: b.min_ops,
        }
    }
}

/// The breaker after recording operations whose failures are `failed`, in order.
pub open spec fn record_all(b: BreakerView, failed: Seq<bool>) -> BreakerView
    decreases failed.len(),
{
    if failed.len() == 0 {
        b
    } else {
        record_step(record_all(b, failed.drop_last()), failed.last())
    }
}

/// A tripped breaker stays tripped, whatever is recorded, until it is reset.
pub proof fn lemma_tripped_stays_tripped(b: BreakerView, failed: Seq<bool>)
    requires b.tripped,
    ensures record_all(b, failed) == b,
    decreases failed.len(),
{
    if failed.len() > 0 {
        lemma_tripped_stays_tripped(b, failed.drop_last());
    }
}

/// The number of failures among `failed`.
pub open spec fn failures(failed: Seq<bool>) -> nat
    decreases failed.len(),
{
    if failed.len() == 0 {
        0
    } else {
        failures(failed.drop_last()) + if failed.last() { 1nat } else { 0nat }
    }
}

/// After the first `k` operations of `failed`, at least `min_ops` (and at
/// least one) were counted and their error rate was strictly above `threshold`.
pub open spec fn rate_exceeded_after(failed: Seq<bool>, k: int, threshold: Ratio, min_ops: usize) -> bool {
    &&& 1 <= k <= failed.len()
    &&& k >= min_ops
    &&& failures(failed.take(k)) * threshold.den > threshold.num * k
}

/// A fresh breaker, with nothing counted yet.
pub open spec fn fresh_breaker(threshold: Ratio, min_ops: usize) -> BreakerView {
    BreakerView { threshold, errors: 0, total_ops: 0, tripped: false, min_ops }
}

/// What a breaker does with a run of results: recorded one by one from a
/// fresh breaker, it is tripped exactly when, after some operation, at least
/// `min_ops` operations had been counted and the errors among them were a
/// strictly greater share of them than the threshold. While it is closed it
/// counts every operation and every failure.
pub proof fn lemma_breaker_trips_on_error_rate(threshold: Ratio, min_ops: usize, failed: Seq<bool>)
    requires
        failed.len() < usize::MAX,
    ensures
        record_all(fresh_breaker(threshold, min_ops), failed).tripped
            <==> exists|k: int| rate_exceeded_after(failed, k, threshold, min_ops),
        record_all(fresh_breaker(threshold, min_ops), failed).min_ops == min_ops,
        record_all(fresh_breaker(threshold, min_ops), failed).threshold == threshold,
        !record_all(fresh_breaker(threshold, min_ops), failed).tripped ==> {
            &&& record_all(fresh_breaker(threshold, min_ops), failed).total_ops == failed.len()
            &&& record_all(fresh_breaker(threshold, min_ops), failed).errors == failures(failed)
        },
    decreases failed.len(),
{
    let b0 = fresh_breaker(threshold, min_ops);
    if failed.len() > 0 {
        let init = failed.drop_last();
        let n = failed.len() as int;
        lemma_breaker_trips_on_error_rate(threshold, min_ops, init);
        lemma_failures_bound(init);
        let b1 = record_all(b0, init);
        assert forall|k: int| 1 <= k <= init.len() implies #[trigger] failed.take(k) == init.take(k) by {
            assert(failed.take(k) =~= init.take(k));
        }
        assert forall|k: int| rate_exceeded_after(init, k, threshold, min_ops)
            implies #[trigger] rate_exceeded_after(failed, k, threshold, min_ops) by {
            assert(failed.take(k) == init.take(k));
        }
        assert(failed.take(n) =~= failed);
        assert(init.take(init.len() as int) =~= init);
        assert(failures(failed.take(n)) == failures(failed));
        assert(failures(failed) == failures(init) + if failed.last() { 1nat } else { 0nat });
        if b1.tripped {
            let k = choose|k: int| rate_exceeded_after(init, k, threshold, min_ops);
            assert(rate_exceeded_after(failed, k, threshold, min_ops));
        } else {
            assert forall|k: int| rate_exceeded_after(failed, k, threshold, min_ops) && k < n
                implies rate_exceeded_after(init, k, threshold, min_ops) by {
                assert(failed.take(k) == init.take(k));
            }
            let b2 = record_all(b0, failed);
            assert(b2 == record_step(b1, failed.last()));
            assert(b2.total_ops == n && b2.errors == failures(failed));
            if b2.tripped {
                assert(rate_exceeded_after(failed, n, threshold, min_ops));
            } else {
                assert forall|k: int| !rate_exceeded_after(failed, k, threshold, min_ops) by {
                    if rate_exceeded_after(failed, k, threshold, min_ops) && k < n {
                        assert(rate_exceeded_after(init, k, threshold, min_ops));
                    }
                }
            }
        }
    } else {
        assert forall|k: int| !rate_exceeded_after(failed, k, threshold, min_ops) by {}
    }
}

proof fn lemma_failures_bound(failed: Seq<bool>)
    ensures failures(failed) <= failed.len(),
    decreases failed.len(),
{
    if failed.len() > 0 {
        lemma_failures_bound(failed.drop_last());
    }
}

/// A circuit breaker that monitors error rates and halts operations if they exceed a threshold.
pub struct CircuitBreaker {
    threshold: Ratio,
    errors: usize,
    total_ops: usize,
    is_tripped: bool,
    min_ops: usize,
}

impl View for CircuitBreaker {
    type V = BreakerView;

    closed spec fn view(&self) -> BreakerView {
        BreakerView {
            threshold: self.threshold,
            errors: self.errors,
            total_ops: self.total_ops,
            tripped: self.is_tripped,
            min_ops: self.min_ops,
        }
    }
}

impl CircuitBreaker {
    /// The breaker never counts more errors than operations.
    #[verifier::type_invariant]
    spec fn counts_consistent(&self) -> bool {
        self.errors <= self.total_ops
    }

    /// Creates a new circuit breaker.
    pub fn new(threshold: Ratio, min_ops: usize) -> (r: Self)
        ensures
            r@ == (BreakerView { threshold, errors: 0, total_ops: 0, tripped: false, min_ops }),
    {
        CircuitBreaker { threshold, errors: 0, total_ops: 0, is_tripped: false, min_ops }
    }

    /// Records an operation result.
    ///
    /// A tripped breaker ignores results. Otherwise the operation is counted,
    /// an `Err` is counted as an error, and once at least `min_ops` operations
    /// are counted the breaker trips if the error rate exceeds the threshold.
    pub fn record<T, E>(&mut self, result: &Result<T, E>)
        requires
            old(self)@.tripped || old(self)@.total_ops < usize::MAX,
        ensures
            final(self)@ == record_step(old(self)@, result is Err),
    {
        proof { use_type_invariant(&*self); }
        if self.is_tripped {
            return;
        }
        self.total_ops = self.total_ops + 1;
        if result.is_err() {
            self.errors = self.errors + 1;
        }
        if self.total_ops >= self.min_ops {
            let e = self.errors as u128;
            let t = self.total_ops as u128;
            let n = self.threshold.num as u128;
            let d = self.threshold.den as u128;
            assert(e * d <= u128::MAX) by (nonlinear_arith)
                requires e <= u64::MAX, d <= u64::MAX;
            assert(n * t <= u128::MAX) by (nonlinear_arith)
                requires t <= u64::MAX, n <= u64::MAX;
            if e * d > n * t {
                self.is_tripped = true;
            }
        }
    }

    /// Whether the breaker has tripped.
    pub fn is_tripped(&self) -> (r: bool)
        ensures r == self@.tripped,
    {
        self.is_tripped
    }

    /// The current error rate: errors over operations, or zero before any operation.
    pub fn current_rate(&self) -> (r: Ratio)
        ensures
            self@.total_ops == 0 ==> r == (Ratio { num: 0, den: 1 }),
            self@.total_ops > 0 ==> r == (Ratio { num: self@.errors as u64, den: self@.total_ops as u64 }),
    {
        if self.total_ops == 0 {
            Ratio { num: 0, den: 1 }
        } else {
            Ratio { num: self.errors as u64, den: self.total_ops as u64 }
        }
    }

    /// Clears the counters and closes the breaker again.
    pub fn reset(&mut self)
        ensures
            final(self)@ == (BreakerView { errors: 0, total_ops: 0, tripped: false, ..old(self)@ }),
    {
        self.errors = 0;
        self.total_ops = 0;
        self.is_tripped = false;
    }
}

/// Provides high-level diagnostic reporting for the entire system.
pub struct DiagnosticReport {
    pub failures: Vec<FailureKind>,
    pub timestamp: u64,
    pub session_id: String,
}

impl DiagnosticReport {
    /// Generates a summary of all recorded failures.
    pub fn summarize(&self) -> (r: String)
        ensures
            r@ == "--- ENGINE DIAGNOSTIC SUMMARY ---\n"@
                + "Session:   "@ + self.session_id@ + "\n"@
                + "Timestamp: "@ + dec(self.timestamp as nat) + "\n"@
                + "Total Failures: "@ + dec(self.failures@.len()) + "\n"@,
    {
        let mut report = String::new();
        report.append("--- ENGINE DIAGNOSTIC SUMMARY ---\n");
        report.append("Session:   ");
        report.append(self.session_id.as_str());
        report.append("\n");
        report.append("Timestamp: ");
        push_dec(&mut report, self.timestamp);
        report.append("\n");
        report.append("Total Failures: ");
        push_dec(&mut report, self.failures.len() as u64);
        report.append("\n");
        report
    }
}

/// A simulated error log for persistent tracking.
pub struct ErrorLog {
    pub entries: Vec<String>,
}

/// The log line of a failure: its code, then its remediation advice.
pub open spec fn log_line(k: FailureView) -> Seq<char> {
    "["@ + code_of(k) + "] - "@ + help_of(k)
}

impl ErrorLog {
    /// An empty log.
    pub fn new() -> (r: Self)
        ensures r.entries@.len() == 0,
    {
        ErrorLog { entries: Vec::new() }
    }

    /// Appends the log line of `kind`.
    pub fn log(&mut self, kind: &FailureKind)
        ensures
            final(self).entries@.len() == old(self).entries@.len() + 1,
            forall|i: int| 0 <= i < old(self).entries@.len() ==> final(self).entries@[i] == old(self).entries@[i],
            final(self).entries@.last()@ == log_line(kind@),
    {
        let mut line = String::new();
        line.append("[");
        line.append(kind.code());
        line.append("] - ");
        line.append(kind.help_message());
        self.entries.push(line);
    }
}

impl Default for ErrorLog {
    fn default() -> (r: Self)
        ensures r.entries@.len() == 0,
    {
        Self::new()
    }
}

/// Detailed description of the Memory domain error codes.
///
/// ## `ERR_MEM_001`: `OutOfBounds`
/// Raised when a kernel component indexes a Structure of Arrays (`SoA`)
/// buffer outside its bounds.
///
/// ## `ERR_MEM_002`: `InvalidTag`
/// Raised when a tagged address is read with the wrong tag (an Smi read as
/// a pointer, or the other way round).
///
/// ## `ERR_MEM_003`: `HeapExhausted`
/// Raised when the heap cannot satisfy an allocation request.
pub struct MemoryDomainDocs;

/// Detailed description of the Object domain error codes.
///
/// ## `ERR_OBJ_001`: `InvalidStateTransition`
/// Raised on an illegal transition of a state machine, such as a Promise
/// moving from 'Fulfilled' back to 'Pending'.
pub struct ObjectDomainDocs;

/// Detailed description of the System and Security domains.
///
/// ## `ERR_SEC_001`: `SecurityViolation`
/// Raised when a pointer resolves outside the sandbox.
///
/// ## `ERR_SYS_001`: `CircuitBreakerTripped`
/// Raised when the error rate of background batches exceeds its threshold.
pub struct SystemDomainDocs;

/// Detailed description of the Streaming and Wasm domains.
///
/// ## `ERR_STR_001`: `BatchFailure`
/// Raised when a chunk or a batch cannot be processed.
///
/// ## `ERR_WSM_001`: `WasmValidationError`
/// Raised when a WebAssembly module fails validation.
pub struct StreamingDomainDocs;

/// A guide for responding to DFFDF alerts.
///
/// 1. Read the domain prefix of the error code (MEM, OBJ, SEC, ...).
/// 2. Compare the cause and details (indices, limits) with your logic.
/// 3. Follow the HELP section of the diagnostic.
///
/// When a `CircuitBreaker` trips (`ERR_SYS_001`), review the `ErrorLog` to
/// identify the primary cause before resetting it.
pub struct TroubleshootingGuide;

/// A template for incident reports.
///
/// **Error Code**, **Severity**, **Component**, **Description**, **Impact**,
/// **Resolution**.
pub struct IncidentReportTemplate;

/// The framework combines low-level bitwise checks with structured
/// diagnostics, so that every failure is caught and described.
pub struct MandateComplianceDocs;

} // verus!
