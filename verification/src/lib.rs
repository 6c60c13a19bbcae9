//! A tracing decorator for a pluggable memory allocator.
//!
//! The decorator delegates every allocation primitive to a wrapped
//! allocator unchanged and, immediately after each delegated call
//! returns, reports the call's resolved parameters and outcome to an
//! observer — exactly one notification per operation, in operation
//! order, with the fields exactly as the client and the allocator saw
//! them, failures included. The observer can then build aggregated views
//! of the trace: which allocations are still live, and which frees were
//! invalid.

use vstd::prelude::*;

pub mod allocator;
pub mod ops;
pub mod bump;
pub mod events;
pub mod observer;

verus! {

use crate::allocator::Allocator;
use crate::events::{Event, valid_layout};
use crate::observer::Observer;

/// A tracing decorator over an allocator.
///
/// It owns the one wrapped allocator instance that actually implements
/// the operations, delegates every call to it unchanged, and reports each
/// call's parameters and outcome to the observer immediately after the
/// delegated call returns — strictly after, so every notification reflects
/// the allocator's authoritative outcome, and unconditionally, so the
/// observer can tell a failed request from one never made.
pub struct WasmTracingAllocator<A>(pub A) where A: Allocator;

impl<A: Allocator> WasmTracingAllocator<A> {
    /// Delegate a plain allocation, then report it: the caller receives
    /// exactly what the wrapped allocator returned, and the observer
    /// receives exactly one notification carrying the request and that
    /// outcome.
    pub fn allocate<O: Observer>(
        &mut self,
        observer: &mut O,
        size: usize,
        align: usize,
    ) -> (pointer: usize)
        requires
            old(self).0.wf(),
            valid_layout(size, align),
        ensures
            final(self).0.wf(),
            pointer == old(self).0.spec_allocate_addr(size, align),
            final(self).0 == old(self).0.spec_allocate_state(size, align),
            final(observer).events() == old(observer).events().push(
                (Event::Alloc { size, align, address: pointer }),
            ),
    {
        let pointer = self.0.allocate(size, align);
        observer.on_alloc(size, align, pointer);
        pointer
    }

    /// Delegate a zero-initializing allocation, then report it, under the
    /// same contract as a plain allocation.
    pub fn allocate_zeroed<O: Observer>(
        &mut self,
        observer: &mut O,
        size: usize,
        align: usize,
    ) -> (pointer: usize)
        requires
            old(self).0.wf(),
            valid_layout(size, align),
        ensures
            final(self).0.wf(),
            pointer == old(self).0.spec_allocate_zeroed_addr(size, align),
            final(self).0 == old(self).0.spec_allocate_zeroed_state(size, align),
            final(observer).events() == old(observer).events().push(
                (Event::AllocZeroed { size, align, address: pointer }),
            ),
    {
        let pointer = self.0.allocate_zeroed(size, align);
        observer.on_alloc_zeroed(size, align, pointer);
        pointer
    }

    /// Delegate a deallocation, then report it. The decorator checks
    /// nothing itself: the address is passed through, and reported,
    /// exactly as the caller gave it, valid or not, so the observer can
    /// judge validity from its own bookkeeping.
    pub fn deallocate<O: Observer>(
        &mut self,
        observer: &mut O,
        pointer: usize,
        size: usize,
        align: usize,
    )
        requires
            old(self).0.wf(),
            valid_layout(size, align),
        ensures
            final(self).0.wf(),
            final(self).0 == old(self).0.spec_deallocate_state(pointer, size, align),
            final(observer).events() == old(observer).events().push(
                (Event::Dealloc { size, align, address: pointer }),
            ),
    {
        self.0.deallocate(pointer, size, align);
        observer.on_dealloc(size, align, pointer);
    }

    /// Delegate a reallocation, then report the old and the new placement
    /// as one pair. The delegated call completes strictly before the event
    /// is emitted, so on failure the event carries the null sentinel as
    /// the new address while the old address, still valid, stays reported.
    pub fn reallocate<O: Observer>(
        &mut self,
        observer: &mut O,
        old_pointer: usize,
        old_size: usize,
        align: usize,
        new_size: usize,
    ) -> (new_pointer: usize)
        requires
            old(self).0.wf(),
            valid_layout(old_size, align),
        ensures
            final(self).0.wf(),
            new_pointer == old(self).0.spec_reallocate_addr(old_pointer, old_size, align, new_size),
            final(self).0 == old(self).0.spec_reallocate_state(
                old_pointer,
                old_size,
                align,
                new_size,
            ),
            final(observer).events() == old(observer).events().push(
                (Event::Realloc {
                    old_address: old_pointer,
                    new_address: new_pointer,
                    old_size,
                    new_size,
                    align,
                }),
            ),
    {
        let new_pointer = self.0.reallocate(old_pointer, old_size, align, new_size);
        observer.on_realloc(old_pointer, new_pointer, old_size, new_size, align);
        new_pointer
    }
}

} // verus!
