//! The observer's analysis queries: live-allocation dumps and invalid-free
//! dumps built from the notification trace.

use wasm_tracing_allocator::WasmTracingAllocator;
use wasm_tracing_allocator::bump::BumpAllocator;
use wasm_tracing_allocator::events::{InvalidFree, LiveAllocation};
use wasm_tracing_allocator::observer::Observer;
use wasm_tracing_allocator::observer::TraceObserver;

fn fresh() -> (WasmTracingAllocator<BumpAllocator>, TraceObserver) {
    (WasmTracingAllocator(BumpAllocator::new(1000)), TraceObserver::new())
}

#[test]
fn empty_trace_dumps_nothing() {
    let obs = TraceObserver::new();
    assert!(obs.event_log().is_empty());
    assert!(obs.dump_live_allocations().is_empty());
    assert!(obs.dump_invalid_frees().is_empty());
}

#[test]
fn live_dump_between_allocate_and_deallocate() {
    let (mut wta, mut obs) = fresh();
    let a = wta.allocate(&mut obs, 16, 8);
    assert_eq!(
        obs.dump_live_allocations(),
        vec![LiveAllocation { address: a, size: 16, align: 8 }]
    );
    wta.deallocate(&mut obs, a, 16, 8);
    assert!(obs.dump_live_allocations().is_empty());
    assert!(obs.dump_invalid_frees().is_empty());
    assert_eq!(obs.event_log().len(), 2);
}

#[test]
fn free_of_never_allocated_address_is_invalid() {
    let (mut wta, mut obs) = fresh();
    wta.deallocate(&mut obs, 500, 8, 8);
    assert_eq!(obs.event_log().len(), 1);
    assert_eq!(
        obs.dump_invalid_frees(),
        vec![InvalidFree { address: 500, size: 8, align: 8 }]
    );
    assert!(obs.dump_live_allocations().is_empty());
}

#[test]
fn double_free_is_invalid() {
    let (mut wta, mut obs) = fresh();
    let a = wta.allocate(&mut obs, 16, 8);
    wta.deallocate(&mut obs, a, 16, 8);
    wta.deallocate(&mut obs, a, 16, 8);
    assert_eq!(
        obs.dump_invalid_frees(),
        vec![InvalidFree { address: a, size: 16, align: 8 }]
    );
}

#[test]
fn reallocate_moves_the_live_entry_to_the_new_address() {
    let (mut wta, mut obs) = fresh();
    let a = wta.allocate(&mut obs, 32, 8);
    let b = wta.reallocate(&mut obs, a, 32, 8, 64);
    assert_ne!(a, b);
    let live = obs.dump_live_allocations();
    assert_eq!(live, vec![LiveAllocation { address: b, size: 64, align: 8 }]);
    assert!(live.iter().all(|e| e.address != a));
}

#[test]
fn failed_reallocate_keeps_the_old_entry_live() {
    let (mut wta, mut obs) = fresh();
    let a = wta.allocate(&mut obs, 32, 8);
    let b = wta.reallocate(&mut obs, a, 32, 8, 5000);
    assert_eq!(b, 0);
    assert_eq!(
        obs.dump_live_allocations(),
        vec![LiveAllocation { address: a, size: 32, align: 8 }]
    );
}

#[test]
fn last_write_wins_when_one_address_is_claimed_twice() {
    let mut obs = TraceObserver::new();
    obs.on_alloc(16, 8, 100);
    obs.on_alloc(32, 8, 100);
    assert_eq!(
        obs.dump_live_allocations(),
        vec![LiveAllocation { address: 100, size: 32, align: 8 }]
    );
}

#[test]
fn zeroed_allocations_count_as_live() {
    let (mut wta, mut obs) = fresh();
    let a = wta.allocate_zeroed(&mut obs, 24, 4);
    assert_eq!(
        obs.dump_live_allocations(),
        vec![LiveAllocation { address: a, size: 24, align: 4 }]
    );
}

#[test]
fn invalid_frees_are_recorded_in_order_and_never_merged() {
    let mut obs = TraceObserver::new();
    obs.on_dealloc(8, 8, 700);
    obs.on_dealloc(8, 8, 700);
    obs.on_dealloc(16, 4, 900);
    assert_eq!(
        obs.dump_invalid_frees(),
        vec![
            InvalidFree { address: 700, size: 8, align: 8 },
            InvalidFree { address: 700, size: 8, align: 8 },
            InvalidFree { address: 900, size: 16, align: 4 },
        ]
    );
}


#[test]
fn live_total_sums_the_default_value_selector() {
    let (mut wta, mut obs) = fresh();
    wta.allocate(&mut obs, 16, 8);
    wta.allocate(&mut obs, 24, 8);
    let (table, total) = obs.dump_live_total();
    assert_eq!(table.len(), 2);
    assert_eq!(total, 40);
}

#[test]
fn invalid_free_count_counts_one_per_event() {
    let mut obs = TraceObserver::new();
    obs.on_dealloc(8, 8, 700);
    obs.on_dealloc(8, 8, 700);
    assert_eq!(obs.invalid_free_count(), 2);
}
