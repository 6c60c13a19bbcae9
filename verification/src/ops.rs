//! Whole runs of client requests: what a sequence of operations returns to
//! the client and what trace it leaves, with the laws that tie the two
//! together.

use vstd::prelude::*;

verus! {

use crate::allocator::Allocator;
use crate::events::{Event, valid_layout};
use crate::observer::Observer;
use crate::WasmTracingAllocator;

/// One client request against the allocator capability set.
#[derive(Clone, Copy, PartialEq, Eq, Structural, Debug)]
pub enum AllocOp {
    /// Request `size` bytes aligned to `align`.
    Alloc { size: usize, align: usize },
    /// Request `size` zeroed bytes aligned to `align`.
    AllocZeroed { size: usize, align: usize },
    /// Release the region at `pointer`, described by `size` and `align`.
    Dealloc { pointer: usize, size: usize, align: usize },
    /// Resize the region at `old_pointer` from `old_size` to `new_size`,
    /// keeping the alignment.
    Realloc { old_pointer: usize, old_size: usize, align: usize, new_size: usize },
}

/// Whether the request carries a legal layout.
pub open spec fn op_valid(op: AllocOp) -> bool {
    match op {
        AllocOp::Alloc { size, align } => valid_layout(size, align),
        AllocOp::AllocZeroed { size, align } => valid_layout(size, align),
        AllocOp::Dealloc { pointer, size, align } => valid_layout(size, align),
        AllocOp::Realloc { old_pointer, old_size, align, new_size } => valid_layout(
            old_size,
            align,
        ),
    }
}

/// What the bare allocator in state `a` returns to the client for `op`:
/// the resulting address, or `None` for a deallocation, which returns
/// nothing. A failed allocation returns `Some(NULL_ADDRESS)` — failure is
/// an answer the client sees, not a missing one.
pub open spec fn op_result<A: Allocator>(a: A, op: AllocOp) -> Option<usize> {
    match op {
        AllocOp::Alloc { size, align } => Some(a.spec_allocate_addr(size, align)),
        AllocOp::AllocZeroed { size, align } => Some(a.spec_allocate_zeroed_addr(size, align)),
        AllocOp::Dealloc { pointer, size, align } => None,
        AllocOp::Realloc { old_pointer, old_size, align, new_size } => Some(
            a.spec_reallocate_addr(old_pointer, old_size, align, new_size),
        ),
    }
}

/// The bare allocator's state after serving `op` from state `a`.
pub open spec fn op_state<A: Allocator>(a: A, op: AllocOp) -> A {
    match op {
        AllocOp::Alloc { size, align } => a.spec_allocate_state(size, align),
        AllocOp::AllocZeroed { size, align } => a.spec_allocate_zeroed_state(size, align),
        AllocOp::Dealloc { pointer, size, align } => a.spec_deallocate_state(pointer, size, align),
        AllocOp::Realloc { old_pointer, old_size, align, new_size } => a.spec_reallocate_state(
            old_pointer,
            old_size,
            align,
            new_size,
        ),
    }
}

/// The one notification `op` gives rise to when served from state `a`.
pub open spec fn op_event<A: Allocator>(a: A, op: AllocOp) -> Event {
    match op {
        AllocOp::Alloc { size, align } => Event::Alloc {
            size,
            align,
            address: a.spec_allocate_addr(size, align),
        },
        AllocOp::AllocZeroed { size, align } => Event::AllocZeroed {
            size,
            align,
            address: a.spec_allocate_zeroed_addr(size, align),
        },
        AllocOp::Dealloc { pointer, size, align } => Event::Dealloc {
            size,
            align,
            address: pointer,
        },
        AllocOp::Realloc { old_pointer, old_size, align, new_size } => Event::Realloc {
            old_address: old_pointer,
            new_address: a.spec_reallocate_addr(old_pointer, old_size, align, new_size),
            old_size,
            new_size,
            align,
        },
    }
}

/// The allocator's state after serving a whole run of requests.
pub open spec fn run_state<A: Allocator>(a: A, ops: Seq<AllocOp>) -> A
    decreases ops.len(),
{
    if ops.len() == 0 {
        a
    } else {
        op_state(run_state(a, ops.drop_last()), ops.last())
    }
}

/// The values a run of requests hands back to the client, request by
/// request. This is defined by the allocator's own spec functions alone —
/// no tracing appears in it — so it is what the client would get from the
/// bare allocator.
pub open spec fn run_results<A: Allocator>(a: A, ops: Seq<AllocOp>) -> Seq<Option<usize>>
    decreases ops.len(),
{
    if ops.len() == 0 {
        Seq::empty()
    } else {
        run_results(a, ops.drop_last()).push(
            op_result(run_state(a, ops.drop_last()), ops.last()),
        )
    }
}

/// The trace a run of requests leaves behind: one event per request, in
/// request order.
pub open spec fn run_events<A: Allocator>(a: A, ops: Seq<AllocOp>) -> Seq<Event>
    decreases ops.len(),
{
    if ops.len() == 0 {
        Seq::empty()
    } else {
        run_events(a, ops.drop_last()).push(op_event(run_state(a, ops.drop_last()), ops.last()))
    }
}

/// What the one notification of a request must say of the request and of
/// the value returned to the client: the same sizes and alignment the
/// client asked for, and the address the client actually received —
/// including a failed allocation, whose event carries the null sentinel,
/// and a failed reallocation, whose event still reports the old address
/// beside the sentinel.
pub open spec fn faithful_report(op: AllocOp, result: Option<usize>, e: Event) -> bool {
    match op {
        AllocOp::Alloc { size, align } => result matches Some(address) && e == (Event::Alloc {
            size,
            align,
            address,
        }),
        AllocOp::AllocZeroed { size, align } => result matches Some(address) && e
            == (Event::AllocZeroed { size, align, address }),
        AllocOp::Dealloc { pointer, size, align } => result is None && e == (Event::Dealloc {
            size,
            align,
            address: pointer,
        }),
        AllocOp::Realloc { old_pointer, old_size, align, new_size } => result matches Some(
            new_address,
        ) && e == (Event::Realloc {
            old_address: old_pointer,
            new_address,
            old_size,
            new_size,
            align,
        }),
    }
}

/// A run of `n` requests emits exactly `n` notifications, one per request
/// in request order, and each notification reports exactly its own
/// request's parameters and outcome. Deallocations are reported whatever
/// address they name, and failed requests are reported with the null
/// sentinel: the observer can tell "requested and failed" from "never
/// requested".
pub proof fn lemma_reports_faithful<A: Allocator>(a: A, ops: Seq<AllocOp>)
    ensures
        run_events(a, ops).len() == ops.len(),
        run_results(a, ops).len() == ops.len(),
        forall|i: int|
            0 <= i < ops.len() ==> faithful_report(
                #[trigger] ops[i],
                run_results(a, ops)[i],
                run_events(a, ops)[i],
            ),
    decreases ops.len(),
{
    if ops.len() > 0 {
        lemma_reports_faithful(a, ops.drop_last());
        assert forall|i: int| 0 <= i < ops.len() implies faithful_report(
            #[trigger] ops[i],
            run_results(a, ops)[i],
            run_events(a, ops)[i],
        ) by {
            if i < ops.len() - 1 {
                assert(ops.drop_last()[i] == ops[i]);
                assert(run_results(a, ops)[i] == run_results(a, ops.drop_last())[i]);
                assert(run_events(a, ops)[i] == run_events(a, ops.drop_last())[i]);
            }
        }
    }
}

/// Reports are never merged: two distinct requests, even with identical
/// kind, size and alignment, each keep their own notification at their own
/// position in the trace, each carrying its own outcome.
pub proof fn lemma_reports_independent<A: Allocator>(a: A, ops: Seq<AllocOp>, i: int, j: int)
    requires
        0 <= i < ops.len(),
        0 <= j < ops.len(),
        i != j,
    ensures
        run_events(a, ops).len() == ops.len(),
        faithful_report(ops[i], run_results(a, ops)[i], run_events(a, ops)[i]),
        faithful_report(ops[j], run_results(a, ops)[j], run_events(a, ops)[j]),
{
    lemma_reports_faithful(a, ops);
}

impl<A: Allocator> WasmTracingAllocator<A> {
    /// Serve a whole run of client requests through the tracing layer.
    ///
    /// The returned outcomes, and the allocator's final state, are exactly
    /// those of the bare allocator — `run_results` and `run_state` never
    /// mention tracing — so the tracing layer is observationally
    /// transparent to the client; and the observer receives exactly the
    /// run's trace, one notification per request, appended in request
    /// order.
    pub fn run<O: Observer>(
        &mut self,
        observer: &mut O,
        ops: &Vec<AllocOp>,
    ) -> (results: Vec<Option<usize>>)
        requires
            old(self).0.wf(),
            forall|i: int| 0 <= i < ops@.len() ==> op_valid(#[trigger] ops@[i]),
        ensures
            final(self).0.wf(),
            results@ == run_results(old(self).0, ops@),
            final(self).0 == run_state(old(self).0, ops@),
            final(observer).events() == old(observer).events() + run_events(old(self).0, ops@),
    {
        let ghost a0 = self.0;
        let ghost obs0 = observer.events();
        let mut results: Vec<Option<usize>> = Vec::new();
        let mut i: usize = 0;
        proof {
            assert(ops@.take(0) =~= Seq::<AllocOp>::empty());
            assert(obs0 + run_events(a0, ops@.take(0)) =~= obs0);
        }
        while i < ops.len()
            invariant
                i <= ops@.len(),
                self.0.wf(),
                self.0 == run_state(a0, ops@.take(i as int)),
                results@ == run_results(a0, ops@.take(i as int)),
                observer.events() == obs0 + run_events(a0, ops@.take(i as int)),
                forall|j: int| 0 <= j < ops@.len() ==> op_valid(#[trigger] ops@[j]),
            decreases ops@.len() - i,
        {
            proof {
                assert(ops@.take(i as int + 1).drop_last() =~= ops@.take(i as int));
                assert(ops@.take(i as int + 1).last() == ops@[i as int]);
            }
            let op = ops[i];
            match op {
                AllocOp::Alloc { size, align } => {
                    let pointer = self.allocate(observer, size, align);
                    results.push(Some(pointer));
                },
                AllocOp::AllocZeroed { size, align } => {
                    let pointer = self.allocate_zeroed(observer, size, align);
                    results.push(Some(pointer));
                },
                AllocOp::Dealloc { pointer, size, align } => {
                    self.deallocate(observer, pointer, size, align);
                    results.push(None);
                },
                AllocOp::Realloc { old_pointer, old_size, align, new_size } => {
                    let new_pointer = self.reallocate(observer, old_pointer, old_size, align, new_size);
                    results.push(Some(new_pointer));
                },
            }
            proof {
                assert(observer.events() =~= obs0 + run_events(a0, ops@.take(i as int + 1)));
            }
            i += 1;
        }
        proof {
            assert(ops@.take(ops@.len() as int) =~= ops@);
        }
        results
    }
}

/// Serve the same run of client requests against the bare allocator, with
/// no tracing layer present. It meets the very same result and state
/// contract as the traced run: the sequence of values returned to the
/// client is identical whether or not the tracing layer is present.
pub fn run_untraced<A: Allocator>(allocator: &mut A, ops: &Vec<AllocOp>) -> (results: Vec<
    Option<usize>,
>)
    requires
        old(allocator).wf(),
        forall|i: int| 0 <= i < ops@.len() ==> op_valid(#[trigger] ops@[i]),
    ensures
        final(allocator).wf(),
        results@ == run_results(*old(allocator), ops@),
        *final(allocator) == run_state(*old(allocator), ops@),
{
    let ghost a0 = *allocator;
    let mut results: Vec<Option<usize>> = Vec::new();
    let mut i: usize = 0;
    proof {
        assert(ops@.take(0) =~= Seq::<AllocOp>::empty());
    }
    while i < ops.len()
        invariant
            i <= ops@.len(),
            allocator.wf(),
            *allocator == run_state(a0, ops@.take(i as int)),
            results@ == run_results(a0, ops@.take(i as int)),
            forall|j: int| 0 <= j < ops@.len() ==> op_valid(#[trigger] ops@[j]),
        decreases ops@.len() - i,
    {
        proof {
            assert(ops@.take(i as int + 1).drop_last() =~= ops@.take(i as int));
            assert(ops@.take(i as int + 1).last() == ops@[i as int]);
        }
        let op = ops[i];
        match op {
            AllocOp::Alloc { size, align } => {
                let pointer = allocator.allocate(size, align);
                results.push(Some(pointer));
            },
            AllocOp::AllocZeroed { size, align } => {
                let pointer = allocator.allocate_zeroed(size, align);
                results.push(Some(pointer));
            },
            AllocOp::Dealloc { pointer, size, align } => {
                allocator.deallocate(pointer, size, align);
                results.push(None);
            },
            AllocOp::Realloc { old_pointer, old_size, align, new_size } => {
                let new_pointer = allocator.reallocate(old_pointer, old_size, align, new_size);
                results.push(Some(new_pointer));
            },
        }
        i += 1;
    }
    proof {
        assert(ops@.take(ops@.len() as int) =~= ops@);
    }
    results
}

} // verus!
