//! The tracing decorator: pass-through outcomes and exact, unconditional
//! reporting.

use wasm_tracing_allocator::WasmTracingAllocator;
use wasm_tracing_allocator::allocator::Allocator;
use wasm_tracing_allocator::bump::BumpAllocator;
use wasm_tracing_allocator::events::Event;
use wasm_tracing_allocator::observer::TraceObserver;
use wasm_tracing_allocator::ops::AllocOp;

fn fresh() -> (WasmTracingAllocator<BumpAllocator>, TraceObserver) {
    (WasmTracingAllocator(BumpAllocator::new(1000)), TraceObserver::new())
}

#[test]
fn allocate_reports_request_and_outcome() {
    let (mut wta, mut obs) = fresh();
    let a = wta.allocate(&mut obs, 16, 8);
    assert_eq!(a, 8);
    assert_eq!(
        obs.event_log().as_slice(),
        &[Event::Alloc { size: 16, align: 8, address: 8 }]
    );
}

#[test]
fn allocate_zeroed_reports_its_own_kind() {
    let (mut wta, mut obs) = fresh();
    let a = wta.allocate_zeroed(&mut obs, 16, 8);
    assert_eq!(a, 8);
    assert_eq!(
        obs.event_log().as_slice(),
        &[Event::AllocZeroed { size: 16, align: 8, address: 8 }]
    );
}

#[test]
fn failed_allocate_is_still_reported_with_null_address() {
    let (mut wta, mut obs) = fresh();
    let a = wta.allocate(&mut obs, 2000, 8);
    assert_eq!(a, 0);
    assert_eq!(
        obs.event_log().as_slice(),
        &[Event::Alloc { size: 2000, align: 8, address: 0 }]
    );
    assert!(obs.dump_live_allocations().is_empty());
}

#[test]
fn deallocate_reports_the_address_exactly_as_given() {
    let (mut wta, mut obs) = fresh();
    wta.deallocate(&mut obs, 12345, 8, 8);
    assert_eq!(
        obs.event_log().as_slice(),
        &[Event::Dealloc { size: 8, align: 8, address: 12345 }]
    );
}

#[test]
fn reallocate_reports_old_and_new_address_as_one_pair() {
    let (mut wta, mut obs) = fresh();
    let a = wta.allocate(&mut obs, 32, 8);
    assert_eq!(a, 8);
    let b = wta.reallocate(&mut obs, a, 32, 8, 64);
    assert_eq!(b, 40);
    assert_eq!(
        obs.event_log().as_slice(),
        &[
            Event::Alloc { size: 32, align: 8, address: 8 },
            Event::Realloc { old_address: 8, new_address: 40, old_size: 32, new_size: 64, align: 8 },
        ]
    );
}

#[test]
fn failed_reallocate_reports_old_address_and_null_sentinel() {
    let (mut wta, mut obs) = fresh();
    let a = wta.allocate(&mut obs, 32, 8);
    let b = wta.reallocate(&mut obs, a, 32, 8, 5000);
    assert_eq!(b, 0);
    assert_eq!(
        obs.event_log()[1],
        Event::Realloc { old_address: 8, new_address: 0, old_size: 32, new_size: 5000, align: 8 }
    );
}

#[test]
fn identical_requests_are_reported_independently() {
    let (mut wta, mut obs) = fresh();
    let a = wta.allocate(&mut obs, 16, 8);
    let b = wta.allocate(&mut obs, 16, 8);
    assert_ne!(a, b);
    assert_eq!(
        obs.event_log().as_slice(),
        &[
            Event::Alloc { size: 16, align: 8, address: a },
            Event::Alloc { size: 16, align: 8, address: b },
        ]
    );
}

#[test]
fn traced_run_returns_what_the_bare_allocator_returns() {
    let ops = vec![
        AllocOp::Alloc { size: 16, align: 8 },
        AllocOp::AllocZeroed { size: 24, align: 4 },
        AllocOp::Realloc { old_pointer: 8, old_size: 16, align: 8, new_size: 48 },
        AllocOp::Dealloc { pointer: 8, size: 16, align: 8 },
        AllocOp::Alloc { size: 5000, align: 8 },
    ];

    let (mut wta, mut obs) = fresh();
    let traced = wta.run(&mut obs, &ops);

    let mut bare = BumpAllocator::new(1000);
    let untraced = wasm_tracing_allocator::ops::run_untraced(&mut bare, &ops);

    assert_eq!(traced, untraced);
    assert_eq!(wta.0, bare);
    assert_eq!(obs.event_log().len(), ops.len());
}

#[test]
fn run_reports_one_event_per_operation_in_order() {
    let ops = vec![
        AllocOp::Alloc { size: 16, align: 8 },
        AllocOp::Dealloc { pointer: 8, size: 16, align: 8 },
        AllocOp::Dealloc { pointer: 8, size: 16, align: 8 },
    ];
    let (mut wta, mut obs) = fresh();
    let results = wta.run(&mut obs, &ops);
    assert_eq!(results, vec![Some(8), None, None]);
    assert_eq!(
        obs.event_log().as_slice(),
        &[
            Event::Alloc { size: 16, align: 8, address: 8 },
            Event::Dealloc { size: 16, align: 8, address: 8 },
            Event::Dealloc { size: 16, align: 8, address: 8 },
        ]
    );
}

#[test]
fn bump_allocator_aligns_and_fails_cleanly() {
    let mut bump = BumpAllocator::new(100);
    let a = bump.allocate(10, 4);
    assert_eq!(a, 4);
    let b = bump.allocate(1, 1);
    assert_eq!(b, 14);
    let c = bump.allocate(100, 1);
    assert_eq!(c, 0);
    bump.deallocate(a, 10, 4);
    let d = bump.allocate(1, 1);
    assert_eq!(d, 15);
}
