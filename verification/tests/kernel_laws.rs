//! Tests of the kernel's laws and formulas on concrete values.

use v8_types_kernel_rust::{Heap, TaggedAddress, KernelError, CircuitBreaker};
use v8_types_kernel_rust::branded::{Smi, RawAddress, WeakRef, TagInspector, BitField, ToTagged};
use v8_types_kernel_rust::branded::fields::{TypeTag, GCColor, HashCode};
use v8_types_kernel_rust::branded::pointer_compression::{compress, decompress};
use v8_types_kernel_rust::branded::alignment::{is_aligned, round_up};
use v8_types_kernel_rust::heap::{MapIndex, ObjectIndex, InstanceType, PageTable};
use v8_types_kernel_rust::objects::{JSObject, JSPromise, PromiseState, JSArray, JSString, SharedFunctionInfo,
    FeedbackVector, JSFunction, JSIteratorResult, PrototypeChain, JSReceiver, AccessorInfo, JSDate};
use v8_types_kernel_rust::objects::hidden_classes::TransitionTree;
use v8_types_kernel_rust::dffdf::{FailureKind, Ratio, ErrorLog, DiagnosticReport};
use v8_types_kernel_rust::amb::{MacroBatcher, AtomicBatch, MicroKernelScheduler, KernelTask, TaskState, Semaphore};
use v8_types_kernel_rust::compiler::{InlineCache, ICState, RegisterAllocator};
use v8_types_kernel_rust::streaming::{ScriptStreamingJob, StreamingState, WasmStreamingJob, StreamingTaskRunner};
use v8_types_kernel_rust::streaming::source_encoding::{detect_encoding, Encoding};
use v8_types_kernel_rust::sandbox::{V8Sandbox, SandboxPtr};
use v8_types_kernel_rust::wasm::WasmModule;
use v8_types_kernel_rust::gc::{OrinocoGC, GCKind, NewSpace};
use v8_types_kernel_rust::topos::{MmuSheaf, PageTableLevel, BrandedVAddr, BrandedPAddr, KernelQuasitopos,
    MemoryAccess, ObjectTwoTopos, SystemContext, MemoryCohesion, MemoryNode};
use std::collections::HashMap;

type Op = Box<dyn FnOnce() -> Result<(), KernelError>>;

#[test]
fn smi_round_trip_negative_and_extreme() {
    for v in [0, 1, -1, 42, -42, i32::MAX, i32::MIN] {
        let t = Smi::encode(v);
        assert!(t.is_smi());
        assert_eq!(Smi::decode(t).unwrap().0, v);
    }
    assert_eq!(Smi::encode(21).0, 42);
    assert_eq!(Smi::zero().0, 0);
    assert_eq!(Smi(5).to_tagged().0, 10);
}

#[test]
fn smi_decode_refuses_object_word() {
    match Smi::decode(TaggedAddress(0x1235)) {
        Err(FailureKind::InvalidTag { address, expected_tag, actual_tag }) => {
            assert_eq!((address, expected_tag, actual_tag), (0x1235, 0, 1));
        }
        _ => panic!("expected InvalidTag"),
    }
}

#[test]
fn untag_refuses_smi_word() {
    match TaggedAddress(0x10).untag_object() {
        Err(FailureKind::InvalidTag { address, expected_tag, actual_tag }) => {
            assert_eq!((address, expected_tag, actual_tag), (0x10, 1, 0));
        }
        _ => panic!("expected InvalidTag"),
    }
    assert_eq!(RawAddress(8).to_tagged().0, 9);
}

#[test]
fn raw_address_helpers() {
    assert!(RawAddress::null().is_null());
    assert!(!RawAddress(3).is_null());
    assert_eq!(RawAddress(9).align_to_word().0, 16);
    assert_eq!(RawAddress(16).align_to_word().0, 16);
    assert_eq!(RawAddress(usize::MAX).align_to_word().0, 0);
    assert!(TaggedAddress::null().is_smi());
}

#[test]
fn text_forms_of_words() {
    assert_eq!(RawAddress(0x1234).to_string(), "Raw(0x0000000000001234)");
    assert_eq!(TaggedAddress(0x1235).to_string(), "Obj(0x0000000000001234)");
    assert_eq!(Smi::encode(-7).to_string(), "Smi(-7)");
    assert_eq!(Smi::encode(1000).to_string(), "Smi(1000)");
}

#[test]
fn bitfield_read_write() {
    assert_eq!(TypeTag::mask(), 0b11);
    assert_eq!(GCColor::mask(), 0b1100);
    assert_eq!(HashCode::mask(), 0xFF_FFFF0);
    let w = GCColor::update(0xFFFF_FFFF, 0b10);
    assert_eq!(w, 0xFFFF_FFFB);
    assert_eq!(GCColor::decode(w), 0b10);
    // A value wider than the field is truncated to the field.
    assert_eq!(GCColor::decode(GCColor::update(0, 0b111)), 0b11);
    assert_eq!(BitField::<4, 24>::encode(1), 0x10);
    assert_eq!(HashCode::update(w, HashCode::decode(w)), w);
    // A field running past the top of the word keeps only the bits inside it.
    if usize::BITS == 64 {
        assert_eq!(BitField::<60, 8>::mask(), 0xF000_0000_0000_0000);
        assert_eq!(BitField::<60, 8>::decode(usize::MAX), 0xF);
        assert_eq!(BitField::<60, 8>::encode(0xFF), 0xF000_0000_0000_0000);
    }
}

#[test]
fn weak_references() {
    let t = WeakRef::tag(RawAddress(0x1000));
    assert_eq!(t.0, 0x1003);
    assert_eq!(WeakRef::untag(t).unwrap().0, 0x1000);
    match WeakRef::untag(TaggedAddress(0x1001)) {
        Err(FailureKind::InvalidTag { expected_tag, actual_tag, .. }) => assert_eq!((expected_tag, actual_tag), (3, 1)),
        _ => panic!("expected InvalidTag"),
    }
}

#[test]
fn tag_inspection() {
    assert_eq!(TagInspector::inspect(TaggedAddress(4)), "Type: Smi (Small Integer)");
    assert_eq!(TagInspector::inspect(TaggedAddress(5)), "Type: HeapObject");
    assert_eq!(TagInspector::inspect(TaggedAddress(7)), "Type: WeakReference");
}

#[test]
fn pointer_compression_round_trip() {
    let base: usize = if usize::BITS == 64 { 0x1_0000_0000 } else { 0 };
    let addr = TaggedAddress(base | 0x1234);
    let c = compress(base, addr);
    assert_eq!(c, 0x1234);
    assert_eq!(decompress(base, c), addr);
    // Decompression adds the offset to the base, and compression undoes it.
    assert_eq!(decompress(base, 0xFFFF_FFFF).0, base + 0xFFFF_FFFF);
    assert_eq!(compress(base, decompress(base, 0xABCD_0123)), 0xABCD_0123);
}

#[test]
fn alignment_helpers() {
    assert!(is_aligned(64));
    assert!(!is_aligned(65));
    assert_eq!(round_up(65), 72);
    assert_eq!(round_up(64), 64);
}

#[test]
fn heap_read_after_write_and_isolation() {
    let mut heap = Heap::new(10);
    let a = heap.allocate_object(InstanceType::JSObject, MapIndex(0)).unwrap();
    heap.set_property(a, 0, TaggedAddress(10)).unwrap();
    heap.set_property(a, 1, TaggedAddress(11)).unwrap();
    let b = heap.allocate_object(InstanceType::JSObject, MapIndex(0)).unwrap();
    heap.set_property(b, 0, TaggedAddress(20)).unwrap();
    // Overwrite in place.
    heap.set_property(a, 1, TaggedAddress(12)).unwrap();
    assert_eq!(heap.get_property(a, 1).unwrap(), TaggedAddress(12));
    assert_eq!(heap.get_property(a, 0).unwrap(), TaggedAddress(10));
    assert_eq!(heap.get_property(b, 0).unwrap(), TaggedAddress(20));
    let stats = heap.get_stats();
    assert_eq!((stats.object_count, stats.property_count, stats.memory_usage_bytes, stats.peak_memory_bytes), (2, 3, 64, 64));
}

#[test]
fn heap_refuses_growth_of_inner_object() {
    let mut heap = Heap::new(10);
    let a = heap.allocate_object(InstanceType::JSObject, MapIndex(0)).unwrap();
    heap.set_property(a, 0, TaggedAddress(1)).unwrap();
    let b = heap.allocate_object(InstanceType::JSObject, MapIndex(0)).unwrap();
    heap.set_property(b, 0, TaggedAddress(2)).unwrap();
    match heap.set_property(a, 1, TaggedAddress(3)) {
        Err(FailureKind::SystemError { code, message }) => {
            assert_eq!(code, 501);
            assert_eq!(message, "In-place property growth violation for Object 0");
        }
        _ => panic!("expected SystemError"),
    }
}

#[test]
fn heap_errors() {
    let mut heap = Heap::new(1);
    let a = heap.allocate_object(InstanceType::JSObject, MapIndex(0)).unwrap();
    match heap.allocate_object(InstanceType::JSObject, MapIndex(0)) {
        Err(FailureKind::HeapExhausted { requested, available }) => assert_eq!((requested, available), (1, 0)),
        _ => panic!("expected HeapExhausted"),
    }
    match heap.get_property(a, 0) {
        Err(FailureKind::OutOfBounds { index, limit, context }) => {
            assert_eq!((index, limit), (0, 0));
            assert_eq!(context, "Heap::get_property (slot bounds check)");
        }
        _ => panic!("expected OutOfBounds"),
    }
    match heap.get_instance_type(ObjectIndex(5)) {
        Err(FailureKind::OutOfBounds { index, limit, .. }) => assert_eq!((index, limit), (5, 1)),
        _ => panic!("expected OutOfBounds"),
    }
    assert!(heap.set_property(ObjectIndex(3), 0, TaggedAddress(1)).is_err());
}

#[test]
fn promise_settles_once() {
    let mut heap = Heap::new(10);
    let p = JSPromise::new(&mut heap, MapIndex(1)).unwrap();
    assert_eq!(p.get_state(&heap).unwrap(), PromiseState::Pending);
    p.settle(&mut heap, PromiseState::Rejected, TaggedAddress(99)).unwrap();
    assert_eq!(p.get_state(&heap).unwrap(), PromiseState::Rejected);
    assert_eq!(heap.get_property(p.index, JSPromise::RESULT_SLOT).unwrap(), TaggedAddress(99));
    let before = heap.get_stats().property_count;
    match p.settle(&mut heap, PromiseState::Fulfilled, TaggedAddress(1)) {
        Err(FailureKind::InvalidStateTransition { object_id, from, to }) => {
            assert_eq!((object_id, from, to), (0, "Rejected", "Fulfilled"));
        }
        _ => panic!("expected InvalidStateTransition"),
    }
    assert_eq!(p.get_state(&heap).unwrap(), PromiseState::Rejected);
    assert_eq!(heap.get_stats().property_count, before);
}

#[test]
fn promise_state_corruption() {
    let mut heap = Heap::new(10);
    let p = JSPromise::new(&mut heap, MapIndex(1)).unwrap();
    heap.set_property(p.index, 0, TaggedAddress(0xAB)).unwrap();
    match p.settle(&mut heap, PromiseState::Fulfilled, TaggedAddress(1)) {
        Err(FailureKind::SystemError { code, message }) => {
            assert_eq!(code, 601);
            assert_eq!(message, "Corrupt Promise state detected: 0xAB");
        }
        _ => panic!("expected SystemError"),
    }
    match p.get_state(&heap) {
        Err(FailureKind::SystemError { code, .. }) => assert_eq!(code, 602),
        _ => panic!("expected SystemError"),
    }
    assert_eq!(PromiseState::from_u8(2), Some(PromiseState::Rejected));
    assert_eq!(PromiseState::from_u8(3), None);
}

#[test]
fn array_push_updates_length() {
    let mut heap = Heap::new(10);
    let arr = JSArray::new(&mut heap, MapIndex(2)).unwrap();
    arr.push(&mut heap, TaggedAddress(7)).unwrap();
    arr.push(&mut heap, TaggedAddress(8)).unwrap();
    assert_eq!(heap.get_property(arr.index, 0).unwrap(), TaggedAddress(4));
    assert_eq!(heap.elements_data, vec![TaggedAddress(7), TaggedAddress(8)]);
    let other = JSArray::new(&mut heap, MapIndex(2)).unwrap();
    other.push(&mut heap, TaggedAddress(9)).unwrap();
    match arr.push(&mut heap, TaggedAddress(10)) {
        Err(FailureKind::SystemError { code, .. }) => assert_eq!(code, 502),
        _ => panic!("expected SystemError"),
    }
}

#[test]
fn string_and_function_objects() {
    let mut heap = Heap::new(10);
    let s = JSString::new(&mut heap, MapIndex(3), 12, 77).unwrap();
    assert_eq!(s.length(&heap).unwrap(), 12);
    assert_eq!(heap.get_property(s.index, JSString::HASH_SLOT).unwrap(), TaggedAddress(154));
    let f = JSFunction::new(&mut heap, MapIndex(4), TaggedAddress(1), TaggedAddress(3), TaggedAddress(5)).unwrap();
    assert_eq!(heap.get_property(f.index, JSFunction::FEEDBACK_VECTOR_SLOT).unwrap(), TaggedAddress(5));
    let it = JSIteratorResult::new(&mut heap, MapIndex(5), TaggedAddress(9), true).unwrap();
    assert_eq!(heap.get_property(it.index, 1).unwrap(), TaggedAddress(1));
    let fv = FeedbackVector::new(&mut heap, MapIndex(6)).unwrap();
    fv.increment_invocation_count(&mut heap).unwrap();
    fv.increment_invocation_count(&mut heap).unwrap();
    assert_eq!(heap.get_property(fv.index, 0).unwrap(), TaggedAddress(4));
    let d = JSDate::new_with_time_value(&mut heap, MapIndex(7), 1234).unwrap();
    assert_eq!(heap.get_property(d.index, JSDate::VALUE_SLOT).unwrap(), TaggedAddress(1234));
}

#[test]
fn objects_writing_past_their_end_are_refused() {
    let mut heap = Heap::new(10);
    match SharedFunctionInfo::new(&mut heap, MapIndex(0), 2) {
        Err(FailureKind::SystemError { code, .. }) => assert_eq!(code, 501),
        _ => panic!("expected SystemError"),
    }
    match AccessorInfo::new(&mut heap, MapIndex(0), TaggedAddress(1)) {
        Err(FailureKind::SystemError { code, .. }) => assert_eq!(code, 501),
        _ => panic!("expected SystemError"),
    }
    // The objects stay allocated.
    assert_eq!(heap.get_stats().object_count, 2);
    assert_eq!(heap.get_instance_type(ObjectIndex(0)).unwrap(), InstanceType::SharedFunctionInfo);
}

#[test]
fn prototype_lookup_and_receivers() {
    let mut heap = Heap::new(10);
    let o = JSObject::new(&mut heap, MapIndex(0)).unwrap();
    o.set_property(&mut heap, 0, TaggedAddress(33)).unwrap();
    assert_eq!(PrototypeChain::lookup(&heap, o.index, 0).unwrap(), Some(TaggedAddress(33)));
    assert_eq!(PrototypeChain::lookup(&heap, o.index, 5).unwrap(), None);
    assert_eq!(o.get_property(&heap, 0).unwrap(), TaggedAddress(33));
    let r = JSReceiver { index: o.index };
    assert_eq!(r.get_prototype(&heap).unwrap(), TaggedAddress(0));
}

#[test]
fn transitions_find_first_match() {
    let mut tree = TransitionTree::new();
    tree.add_transition(MapIndex(0), MapIndex(1), TaggedAddress(10));
    tree.add_transition(MapIndex(0), MapIndex(2), TaggedAddress(10));
    tree.add_transition(MapIndex(1), MapIndex(3), TaggedAddress(12));
    assert_eq!(tree.find_transition(MapIndex(0), TaggedAddress(10)), Some(MapIndex(1)));
    assert_eq!(tree.find_transition(MapIndex(1), TaggedAddress(12)), Some(MapIndex(3)));
    assert_eq!(tree.find_transition(MapIndex(1), TaggedAddress(10)), None);
}

#[test]
fn page_table_translation() {
    let pt = PageTable::new();
    assert_eq!(pt.l4_table.len(), 512);
    if usize::BITS == 64 {
        assert_eq!(pt.translate_address(0x1000).unwrap(), 0x5555_0000_1000);
        match pt.translate_address(0x7FFF_FFFF_FFFF) {
            Err(FailureKind::SystemError { code, .. }) => assert_eq!(code, 502),
            _ => panic!("expected a page fault"),
        }
    }
}

#[test]
fn failure_codes_and_text() {
    let e = FailureKind::HeapExhausted { requested: 1, available: 0 };
    assert_eq!(e.code(), "ERR_MEM_003");
    assert!(e.help_message().starts_with("The heap is full."));
    let text = e.to_string();
    let lines: Vec<&str> = text.lines().collect();
    assert_eq!(lines.len(), 9);
    assert_eq!(lines[1], format!("│ [DIAGNOSTIC ERROR]: {:<56} │", "ERR_MEM_003"));
    assert!(lines[4].starts_with("│ REQUEST:  1 objects  "));
    assert!(lines[4].ends_with(" │"));
    let g = FailureKind::SheafGluingContradiction { virtual_addr: 0x2000, expected: 0x6000, found: 0x7000, level: 3 };
    let gt = g.to_string();
    assert!(gt.contains("│ ADDR:     VA: 0x0000000000002000, Level: 3"));
    assert!(gt.contains("Expected PA: 0x0000000000006000, Found PA: 0x0000000000007000"));
    let u = FailureKind::UnivalenceViolation { expected_equiv: true, actual_id: false };
    assert!(u.to_string().contains(&format!("│ EXPECTED: Equivalent={:<55} │", true)));
    let c = FailureKind::CircuitBreakerTripped { threshold: Ratio { num: 1, den: 10 }, current_rate: Ratio { num: 3, den: 5 } };
    assert!(c.to_string().contains("Threshold: 0.10, Current Rate: 0.60"));
}

#[test]
fn error_log_and_report() {
    let mut log = ErrorLog::new();
    log.log(&FailureKind::GCError { reason: "x" });
    assert_eq!(log.entries[0], format!("[ERR_GC_001] - {}", FailureKind::GCError { reason: "x" }.help_message()));
    let report = DiagnosticReport { failures: vec![FailureKind::GCError { reason: "x" }], timestamp: 1700, session_id: "s1".to_string() };
    assert_eq!(report.summarize(), "--- ENGINE DIAGNOSTIC SUMMARY ---\nSession:   s1\nTimestamp: 1700\nTotal Failures: 1\n");
}

#[test]
fn circuit_breaker_trips_and_stays_tripped() {
    let mut cb = CircuitBreaker::new(Ratio { num: 1, den: 10 }, 5);
    let ok: Result<(), ()> = Ok(());
    let err: Result<(), ()> = Err(());
    for _ in 0..4 { cb.record(&ok); }
    cb.record(&err);
    // 1 error in 5 operations is 20% > 10%.
    assert!(cb.is_tripped());
    assert_eq!(cb.current_rate(), Ratio { num: 1, den: 5 });
    cb.record(&ok);
    assert_eq!(cb.current_rate(), Ratio { num: 1, den: 5 });
    cb.reset();
    assert!(!cb.is_tripped());
    assert_eq!(cb.current_rate(), Ratio { num: 0, den: 1 });
}

#[test]
fn circuit_breaker_waits_for_min_ops() {
    let mut cb = CircuitBreaker::new(Ratio { num: 1, den: 10 }, 5);
    let err: Result<(), ()> = Err(());
    for _ in 0..4 { cb.record(&err); }
    assert!(!cb.is_tripped());
    cb.record(&err);
    assert!(cb.is_tripped());
}

#[test]
fn macro_batcher_runs_and_trips() {
    let mut batcher: MacroBatcher<Op> = MacroBatcher::new();
    let ok_batch = AtomicBatch::<Op> { id: 1, operations: vec![Box::new(|| Ok(())), Box::new(|| Ok(()))] };
    batcher.submit(ok_batch).unwrap();
    assert_eq!(batcher.processed_batches, 1);
    let bad = AtomicBatch::<Op> {
        id: 7,
        operations: vec![
            Box::new(|| Err(FailureKind::GCError { reason: "boom" })),
            Box::new(|| panic!("must not run")),
        ],
    };
    match batcher.submit(bad) {
        Err(FailureKind::BatchFailure { batch_id, reason }) => {
            assert_eq!(batch_id, 7);
            assert_eq!(reason, "Simulated Kernel Panic: Batch execution failed");
        }
        _ => panic!("expected BatchFailure"),
    }
    assert_eq!(batcher.processed_batches, 1);
    let more = AtomicBatch::<Op> { id: 8, operations: vec![Box::new(|| Ok(())), Box::new(|| Ok(()))] };
    // 1 error in 5 operations trips the 10% breaker.
    assert!(batcher.submit(more).is_ok());
    assert!(batcher.circuit_breaker.is_tripped());
    let last = AtomicBatch::<Op> { id: 9, operations: vec![] };
    match batcher.submit(last) {
        Err(FailureKind::CircuitBreakerTripped { threshold, current_rate }) => {
            assert_eq!(threshold, Ratio { num: 1, den: 10 });
            assert_eq!(current_rate, Ratio { num: 1, den: 5 });
        }
        _ => panic!("expected CircuitBreakerTripped"),
    }
}

fn task(pid: u32) -> KernelTask {
    KernelTask { pid, state: TaskState::Ready, priority: 1, time_quanta_remaining: 0, cpu_time_ms: 0 }
}

#[test]
fn scheduler_round_robin() {
    let mut s = MicroKernelScheduler::new(10);
    match s.context_switch() {
        Err(FailureKind::SystemError { code, .. }) => assert_eq!(code, 801),
        _ => panic!("expected SystemError"),
    }
    s.task_queue.push(task(1));
    s.task_queue.push(task(2));
    s.task_queue.push(task(3));
    assert_eq!(s.context_switch().unwrap(), 1);
    assert_eq!(s.context_switch().unwrap(), 2);
    assert_eq!(s.context_switch().unwrap(), 3);
    assert_eq!(s.context_switch().unwrap(), 1);
    assert_eq!(s.current_pid, Some(1));
    assert_eq!(s.context_switches, 4);
    assert!(s.task_queue.iter().all(|t| t.state == TaskState::Running && t.time_quanta_remaining == 10));
    assert_eq!(s.handle_timer_tick(), Some(1));
    assert_eq!(s.current_pid, Some(2));
    assert_eq!(s.total_uptime_ticks, 1);
}

#[test]
fn semaphore_wait_then_signal() {
    let mut s = Semaphore { count: 1, waiters: 0, max_capacity: 1 };
    s.wait();
    assert_eq!((s.count, s.waiters), (0, 0));
    s.wait();
    assert_eq!((s.count, s.waiters), (0, 1));
    s.signal();
    assert_eq!((s.count, s.waiters), (0, 0));
    s.signal();
    assert_eq!((s.count, s.waiters), (1, 0));
    s.signal();
    assert_eq!((s.count, s.waiters), (1, 0));
}

#[test]
fn inline_cache_states() {
    let mut ic = InlineCache::new();
    for _ in 0..11 { ic.record_hit(); }
    assert_eq!(ic.state, ICState::PreMonomorphic);
    for _ in 0..40 { ic.record_hit(); }
    assert_eq!(ic.state, ICState::Monomorphic);
    for _ in 0..3 { ic.record_miss(); }
    assert_eq!(ic.state, ICState::Polymorphic);
    for _ in 0..8 { ic.record_miss(); }
    assert_eq!(ic.state, ICState::Megamorphic);
    assert_eq!(ic.call_count, 62);
    assert_eq!(RegisterAllocator::allocate_for_node(9), 0);
}

#[test]
fn script_streaming_stages() {
    let mut job = ScriptStreamingJob::new(3, vec![1u8; 300]);
    assert_eq!(job.parse_next_chunk(150).unwrap(), true);
    assert_eq!((job.state, job.position), (StreamingState::HeaderParsing, 150));
    assert_eq!(job.parse_next_chunk(100).unwrap(), true);
    assert_eq!((job.state, job.position), (StreamingState::BodyParsing, 250));
    assert_eq!(job.parse_next_chunk(100).unwrap(), true);
    assert_eq!((job.state, job.position), (StreamingState::Finalizing, 300));
    assert_eq!(job.progress_fraction(), (300, 300));
    assert_eq!(job.parse_next_chunk(100).unwrap(), false);
    assert!(job.is_finished);
    assert_eq!(job.parse_next_chunk(100).unwrap(), false);
    let mut bad = ScriptStreamingJob::new(4, vec![]);
    bad.has_error = true;
    match bad.parse_next_chunk(1) {
        Err(FailureKind::BatchFailure { batch_id, .. }) => assert_eq!(batch_id, 4),
        _ => panic!("expected BatchFailure"),
    }
    assert_eq!(ScriptStreamingJob::new(5, vec![]).progress_fraction(), (1, 1));
}

#[test]
fn wasm_streaming_counts_and_finalizes() {
    let mut job = WasmStreamingJob::new(1, 2000);
    job.on_bytes_received(1200).unwrap();
    assert_eq!((job.received_bytes, job.sections_found), (1200, 2));
    match job.on_bytes_received(900) {
        Err(FailureKind::OutOfBounds { index, limit, .. }) => assert_eq!((index, limit), (2100, 2000)),
        _ => panic!("expected OutOfBounds"),
    }
    job.finalize();
    match job.on_bytes_received(1) {
        Err(FailureKind::SystemError { code, .. }) => assert_eq!(code, 701),
        _ => panic!("expected SystemError"),
    }
    assert_eq!(job.received_bytes, 1200);
}

#[test]
fn task_runner_ticks_unfinished_jobs() {
    let mut runner = StreamingTaskRunner::new();
    runner.spawn_script_job(ScriptStreamingJob::new(1, vec![0u8; 2000]));
    let mut done = ScriptStreamingJob::new(2, vec![]);
    done.is_finished = true;
    runner.spawn_script_job(done);
    assert_eq!(runner.peak_active_jobs, 2);
    runner.tick().unwrap();
    assert_eq!(runner.processed_bytes, 1024);
    assert_eq!(runner.active_jobs[0].position, 1024);
}

#[test]
fn encodings() {
    assert_eq!(detect_encoding(&[0xEF, 0xBB, 0xBF, 0x41]), Encoding::BomUtf8);
    assert_eq!(detect_encoding(&[0xFF, 0xFE]), Encoding::BomUtf16Le);
    assert_eq!(detect_encoding(&[0xFE, 0xFF, 0]), Encoding::BomUtf16Be);
    assert_eq!(detect_encoding(&[0xEF, 0xBB]), Encoding::Utf8);
}

#[test]
fn sandbox_resolution() {
    let sb = V8Sandbox::new(0x1000, 0x100);
    assert_eq!(sb.resolve(SandboxPtr(0x10)).unwrap(), 0x1010);
    match sb.resolve(SandboxPtr(0x100)) {
        Err(FailureKind::SecurityViolation { ptr, sandbox_base, sandbox_size }) => assert_eq!((ptr, sandbox_base, sandbox_size), (0x1100, 0x1000, 0x100)),
        _ => panic!("expected SecurityViolation"),
    }
    assert!(sb.resolve(SandboxPtr(usize::MAX)).is_err());
    assert_eq!(sb.reserve_region(64).unwrap(), SandboxPtr(0));
    assert_eq!(sb.reserve_region(0x100).unwrap(), SandboxPtr(0));
    match sb.reserve_region(0x101) {
        Err(FailureKind::HeapExhausted { requested, available }) => assert_eq!((requested, available), (0x101, 0x100)),
        _ => panic!("expected HeapExhausted"),
    }
}

#[test]
fn wasm_validation() {
    let mut m = WasmModule::new(1, vec![]);
    match m.validate() {
        Err(FailureKind::WasmValidationError { offset, reason }) => assert_eq!((offset, reason), (0, "Empty bytecode")),
        _ => panic!("expected WasmValidationError"),
    }
    let mut ok = WasmModule::new(2, vec![0, 0x61, 0x73, 0x6d]);
    ok.validate().unwrap();
    assert!(ok.is_valid);
}

#[test]
fn garbage_collection() {
    let mut gc = OrinocoGC::new();
    let r = gc.scavenge();
    assert_eq!(r.bytes_freed, 16 * 1024 * 1024 - 42 * 64);
    assert_eq!(gc.young_gen.from_space_base, 0x2000_0000);
    let path = gc.prove_gc_integrity(&r);
    assert_eq!(path.start, GCKind::Scavenge);
    assert_eq!(path.mapping, format!("Identity-preserving GC transformation: Freed {} bytes, preserved survivors.", r.bytes_freed));
    let step = gc.incremental_marking_step(250);
    assert_eq!(step.duration_us, 250);
    let full = gc.full_gc();
    assert_eq!(full.survived_objects, 5000);
    let mut ns = NewSpace::new(64);
    ns.top = 8;
    ns.flip();
    ns.flip();
    assert_eq!((ns.from_space_base, ns.to_space_base, ns.top), (0x1000_0000, 0x2000_0000, 0));
}

#[test]
fn sheaf_glues_agreeing_levels() {
    let mut sheaf = MmuSheaf::new();
    sheaf.register_level(PageTableLevel::L2, vec![(BrandedVAddr(0x10), BrandedPAddr(0x50)), (BrandedVAddr(0x11), BrandedPAddr(0x60))]);
    sheaf.register_level(PageTableLevel::L3, vec![(BrandedVAddr(0x11), BrandedPAddr(0x60)), (BrandedVAddr(0x99), BrandedPAddr(0x70))]);
    let glued = sheaf.glue_virtual_to_physical().unwrap();
    // Every registered translation is kept, each virtual address once.
    assert_eq!(glued, vec![(BrandedVAddr(0x10), BrandedPAddr(0x50)), (BrandedVAddr(0x11), BrandedPAddr(0x60)), (BrandedVAddr(0x99), BrandedPAddr(0x70))]);
    // Registering the same range again replaces the section.
    sheaf.register_level(PageTableLevel::L2, vec![(BrandedVAddr(0x10), BrandedPAddr(0x51)), (BrandedVAddr(0x11), BrandedPAddr(0x61))]);
    assert_eq!(sheaf.sections.len(), 2);
    match sheaf.glue_virtual_to_physical() {
        Err(FailureKind::SheafGluingContradiction { virtual_addr, expected, found, level }) => {
            assert_eq!((virtual_addr, expected, found, level), (0x11, 0x61, 0x60, 3));
        }
        _ => panic!("expected a contradiction"),
    }
    let c = sheaf.compute_cech_cohomology(2).unwrap();
    assert!(c.cocycle && c.obstruction.is_none() && c.degree == 2);
}

#[test]
fn healing_and_factorization() {
    let mut acc = MemoryAccess { address: BrandedVAddr(13), size: 4 };
    KernelQuasitopos::heal_malformed_access(&mut acc);
    assert_eq!(acc.address, BrandedVAddr(16));
    KernelQuasitopos::heal_malformed_access(&mut acc);
    assert_eq!(acc.address, BrandedVAddr(16));
    let mut state = HashMap::new();
    state.insert("heap".to_string(), 3u64);
    let ctx = SystemContext { valid_state: state.clone() };
    let err = FailureKind::GCError { reason: "r" };
    let f = KernelQuasitopos::exact_complete(&err, &ctx);
    assert_eq!(f.epi, err.to_string());
    assert_eq!(f.mono, state);
}

#[test]
fn prototype_registry_replaces() {
    let mut t = ObjectTwoTopos::new();
    t.register_prototype_chain("a", vec!["Object".to_string()]);
    t.register_prototype_chain("b", vec![]);
    t.register_prototype_chain("a", vec!["Array".to_string(), "Object".to_string()]);
    assert_eq!(t.hierarchy.len(), 2);
    assert_eq!(t.hierarchy[0].1, vec!["Array".to_string(), "Object".to_string()]);
    let mut mc = MemoryCohesion::new();
    mc.nodes.push(MemoryNode { id: BrandedVAddr(1) });
    let shape = mc.shape_modality();
    assert_eq!((shape.connected_components, shape.euler_characteristic, shape.cache_efficiency), (1, 1, "high"));
}

#[test]
fn ratios_render_with_two_decimals() {
    let text = |num: u64, den: u64| {
        FailureKind::CircuitBreakerTripped { threshold: Ratio { num, den }, current_rate: Ratio { num: 0, den: 1 } }
            .to_string()
    };
    for &(num, den) in &[(1u64, 10u64), (3, 5), (1, 8), (3, 8), (5, 2), (2, 3), (1, 3), (7, 1), (999, 1000), (0, 1)] {
        let expected = format!("Threshold: {:.2}, Current Rate: 0.00", num as f64 / den as f64);
        assert!(text(num, den).contains(&expected), "{num}/{den}");
    }
    assert!(text(1, 0).contains("Threshold: inf,"));
    assert!(text(0, 0).contains("Threshold: NaN,"));
}

#[test]
fn push_leaves_other_objects_unchanged() {
    let mut heap = Heap::new(10);
    let first = JSArray::new(&mut heap, MapIndex(2)).unwrap();
    first.push(&mut heap, TaggedAddress(4)).unwrap();
    let obj = JSObject::new(&mut heap, MapIndex(1)).unwrap();
    obj.set_property(&mut heap, 0, TaggedAddress(42)).unwrap();
    let arr = JSArray::new(&mut heap, MapIndex(2)).unwrap();
    arr.push(&mut heap, TaggedAddress(7)).unwrap();
    assert_eq!(obj.get_property(&heap, 0).unwrap(), TaggedAddress(42));
    assert_eq!(heap.get_property(first.index, 0).unwrap(), TaggedAddress(2));
    let f = first.index.0 as usize;
    assert_eq!((heap.elements_offsets[f], heap.elements_lengths[f]), (0, 1));
    assert_eq!(heap.elements_data, vec![TaggedAddress(4), TaggedAddress(7)]);
}

#[test]
fn settled_promise_stays_settled_under_later_calls() {
    let mut heap = Heap::new(10);
    let p = JSPromise::new(&mut heap, MapIndex(1)).unwrap();
    p.settle(&mut heap, PromiseState::Fulfilled, TaggedAddress(5)).unwrap();
    let q = JSPromise::new(&mut heap, MapIndex(1)).unwrap();
    q.settle(&mut heap, PromiseState::Rejected, TaggedAddress(6)).unwrap();
    assert!(p.settle(&mut heap, PromiseState::Rejected, TaggedAddress(7)).is_err());
    let r = JSPromise::new(&mut heap, MapIndex(1)).unwrap();
    assert_eq!(r.get_state(&heap).unwrap(), PromiseState::Pending);
    assert_eq!(p.get_state(&heap).unwrap(), PromiseState::Fulfilled);
    assert_eq!(heap.get_property(p.index, JSPromise::RESULT_SLOT).unwrap(), TaggedAddress(5));
    assert_eq!(q.get_state(&heap).unwrap(), PromiseState::Rejected);
}

#[test]
fn one_code_per_failure_variant() {
    let all = vec![
        FailureKind::OutOfBounds { index: 1, limit: 0, context: "x" },
        FailureKind::InvalidTag { address: 1, expected_tag: 0, actual_tag: 1 },
        FailureKind::HeapExhausted { requested: 1, available: 0 },
        FailureKind::InvalidStateTransition { object_id: 0, from: "Pending", to: "Pending" },
        FailureKind::BatchFailure { batch_id: 1, reason: String::from("r") },
        FailureKind::CircuitBreakerTripped { threshold: Ratio { num: 1, den: 2 }, current_rate: Ratio { num: 1, den: 1 } },
        FailureKind::SecurityViolation { ptr: 0, sandbox_base: 1, sandbox_size: 1 },
        FailureKind::SystemError { code: 1, message: String::new() },
        FailureKind::WasmValidationError { offset: 0, reason: "r" },
        FailureKind::GCError { reason: "r" },
        FailureKind::SheafGluingContradiction { virtual_addr: 0, expected: 0, found: 1, level: 1 },
        FailureKind::InvalidDelegation { from: String::new(), to: String::new() },
        FailureKind::ModalContradiction { proposition: String::new(), stage: 0 },
        FailureKind::HomotopyStuckLoop { pattern: String::new(), trace_length: 0 },
        FailureKind::PathContradiction { start: String::new(), end: String::new(), mapping: String::new() },
        FailureKind::UnivalenceViolation { expected_equiv: true, actual_id: false },
    ];
    let codes: Vec<&str> = all.iter().map(|e| e.code()).collect();
    for (i, a) in codes.iter().enumerate() {
        assert!(a.starts_with("ERR_") && a.len() >= 10 && a[a.len() - 3..].chars().all(|c| c.is_ascii_digit()));
        for b in &codes[i + 1..] {
            assert_ne!(a, b);
        }
    }
    assert_eq!(FailureKind::OutOfBounds { index: 9, limit: 8, context: "y" }.code(), codes[0]);
    assert_eq!(FailureKind::SystemError { code: 77, message: String::from("m") }.code(), "ERR_SYS_002");
}

#[test]
fn writes_past_an_object_never_reach_its_neighbour() {
    let mut heap = Heap::new(10);
    let a = heap.allocate_object(InstanceType::JSObject, MapIndex(0)).unwrap();
    let b = heap.allocate_object(InstanceType::JSObject, MapIndex(0)).unwrap();
    heap.set_property(b, 0, TaggedAddress(20)).unwrap();
    // Slot 1 of `a` has the data index of the buffer's end, but is not the next slot of `a`.
    for slot in [0u32, 1, 2] {
        match heap.set_property(a, slot, TaggedAddress(7)) {
            Err(FailureKind::SystemError { code, .. }) => assert_eq!(code, 501),
            _ => panic!("expected SystemError"),
        }
    }
    assert_eq!(heap.get_property(b, 0).unwrap(), TaggedAddress(20));
    assert_eq!(heap.get_stats().property_count, 1);
    assert!(heap.get_property(a, 0).is_err());
    // The object at the end of the buffer grows one slot at a time.
    assert!(heap.set_property(b, 2, TaggedAddress(22)).is_err());
    heap.set_property(b, 1, TaggedAddress(21)).unwrap();
    assert_eq!(heap.get_property(b, 1).unwrap(), TaggedAddress(21));
}

#[test]
fn sheaf_glues_registered_translations() {
    let mut sheaf = MmuSheaf::new();
    sheaf.register_level(PageTableLevel::L1, vec![(BrandedVAddr(0x1000), BrandedPAddr(0x5000)), (BrandedVAddr(0x2000), BrandedPAddr(0x6000))]);
    sheaf.register_level(PageTableLevel::L2, vec![(BrandedVAddr(0x1001), BrandedPAddr(0x7000))]);
    let glued = sheaf.glue_virtual_to_physical().unwrap();
    assert_eq!(glued, vec![
        (BrandedVAddr(0x1000), BrandedPAddr(0x5000)),
        (BrandedVAddr(0x2000), BrandedPAddr(0x6000)),
        (BrandedVAddr(0x1001), BrandedPAddr(0x7000)),
    ]);
    sheaf.register_level(PageTableLevel::L3, vec![(BrandedVAddr(0x0FFF), BrandedPAddr(0x1)), (BrandedVAddr(0x2000), BrandedPAddr(0x6001))]);
    match sheaf.glue_virtual_to_physical() {
        Err(FailureKind::SheafGluingContradiction { virtual_addr, expected, found, level }) => {
            assert_eq!((virtual_addr, expected, found, level), (0x2000, 0x6000, 0x6001, 3));
        }
        _ => panic!("expected a contradiction"),
    }
}
