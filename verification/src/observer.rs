//! The observer boundary: four one-way notification entry points, and a
//! reference observer that records the trace and answers the two analysis
//! queries.

use vstd::prelude::*;

verus! {

use crate::events::{
    Event, InvalidFree, LiveAllocation, LiveInfo, NULL_ADDRESS, live_table_matches,
    observer_state, table_bytes,
};

/// The notification side of the observer boundary: one entry point per
/// allocator operation, invoked synchronously, in completion order, with
/// no reordering, batching or dropping — each call appends exactly one
/// event to the trace the observer has received.
pub trait Observer: Sized {
    /// The trace received so far, in notification order.
    spec fn events(&self) -> Seq<Event>;

    /// Invoked after each plain allocation.
    fn on_alloc(&mut self, size: usize, align: usize, pointer: usize)
        ensures
            final(self).events() == old(self).events().push(
                (Event::Alloc { size, align, address: pointer }),
            ),
    ;

    /// Invoked after each deallocation.
    fn on_dealloc(&mut self, size: usize, align: usize, pointer: usize)
        ensures
            final(self).events() == old(self).events().push(
                (Event::Dealloc { size, align, address: pointer }),
            ),
    ;

    /// Invoked after each zero-initializing allocation.
    fn on_alloc_zeroed(&mut self, size: usize, align: usize, pointer: usize)
        ensures
            final(self).events() == old(self).events().push(
                (Event::AllocZeroed { size, align, address: pointer }),
            ),
    ;

    /// Invoked after each reallocation, with the old and the new placement
    /// as one pair.
    fn on_realloc(
        &mut self,
        old_pointer: usize,
        new_pointer: usize,
        old_size: usize,
        new_size: usize,
        align: usize,
    )
        ensures
            final(self).events() == old(self).events().push(
                (Event::Realloc {
                    old_address: old_pointer,
                    new_address: new_pointer,
                    old_size,
                    new_size,
                    align,
                }),
            ),
    ;
}

/// A reference observer: it keeps the raw trace, in notification order,
/// and computes the two analysis views from it on demand.
pub struct TraceObserver {
    log: Vec<Event>,
}

impl Observer for TraceObserver {
    closed spec fn events(&self) -> Seq<Event> {
        self.log@
    }

    fn on_alloc(&mut self, size: usize, align: usize, pointer: usize) {
        self.log.push(Event::Alloc { size, align, address: pointer });
    }

    fn on_dealloc(&mut self, size: usize, align: usize, pointer: usize) {
        self.log.push(Event::Dealloc { size, align, address: pointer });
    }

    fn on_alloc_zeroed(&mut self, size: usize, align: usize, pointer: usize) {
        self.log.push(Event::AllocZeroed { size, align, address: pointer });
    }

    fn on_realloc(
        &mut self,
        old_pointer: usize,
        new_pointer: usize,
        old_size: usize,
        new_size: usize,
        align: usize,
    ) {
        self.log.push(
            Event::Realloc {
                old_address: old_pointer,
                new_address: new_pointer,
                old_size,
                new_size,
                align,
            },
        );
    }
}

impl TraceObserver {
    /// An observer that has received nothing yet.
    pub fn new() -> (r: TraceObserver)
        ensures
            r.events() == Seq::<Event>::empty(),
    {
        TraceObserver { log: Vec::new() }
    }

    /// The full notification log, in order.
    pub fn event_log(&self) -> (r: &Vec<Event>)
        ensures
            r@ == self.events(),
    {
        &self.log
    }

    /// Dump the live allocations: one entry per address reported allocated
    /// and not since reported deallocated, with the size and alignment it
    /// was last given — last write wins when allocations transiently claim
    /// one address. The table lists exactly the live map of the trace
    /// received so far.
    pub fn dump_live_allocations(&self) -> (table: Vec<LiveAllocation>)
        ensures
            live_table_matches(table@, observer_state(self.events()).live),
    {
        let r = self.replay();
        r.0
    }

    /// Dump the invalid frees: every deallocation whose address did not
    /// correspond to a live allocation when it was reported — never
    /// allocated, or already freed — in notification order.
    pub fn dump_invalid_frees(&self) -> (frees: Vec<InvalidFree>)
        ensures
            frees@ == observer_state(self.events()).invalid_frees,
    {
        let r = self.replay();
        r.1
    }

    /// Aggregate a live-allocation dump with the default value selector:
    /// the table, and the total bytes its entries account for.
    pub fn dump_live_total(&self) -> (r: (Vec<LiveAllocation>, u128))
        ensures
            live_table_matches(r.0@, observer_state(self.events()).live),
            r.1 == table_bytes(r.0@),
    {
        let table = self.dump_live_allocations();
        let mut total: u128 = 0;
        let mut i: usize = 0;
        proof {
            assert(table@.take(0) =~= Seq::<LiveAllocation>::empty());
        }
        while i < table.len()
            invariant
                i <= table@.len(),
                total == table_bytes(table@.take(i as int)),
                total <= (i as int) * (usize::MAX as int),
            decreases table@.len() - i,
        {
            proof {
                assert(table@.take(i as int + 1).drop_last() =~= table@.take(i as int));
                assert(table@.take(i as int + 1).last() == table@[i as int]);
                assert((i as int) * (usize::MAX as int) + (usize::MAX as int) == (i as int + 1) * (
                usize::MAX as int)) by (nonlinear_arith);
                assert((i as int + 1) * (usize::MAX as int) < u128::MAX) by (nonlinear_arith)
                    requires
                        0 <= i as int,
                        i as int + 1 <= 0x10000000000000000,
                ;
            }
            total = total + (table[i].size as u128);
            i += 1;
        }
        proof {
            assert(table@.take(table@.len() as int) =~= table@);
        }
        (table, total)
    }

    /// Aggregate an invalid-free dump with the default value selector, one
    /// per event: how many invalid frees the trace holds so far.
    pub fn invalid_free_count(&self) -> (n: usize)
        ensures
            n == observer_state(self.events()).invalid_frees.len(),
    {
        let r = self.replay();
        r.1.len()
    }

    /// Rebuild both analysis views by replaying the trace, event by event.
    fn replay(&self) -> (r: (Vec<LiveAllocation>, Vec<InvalidFree>))
        ensures
            live_table_matches(r.0@, observer_state(self.events()).live),
            r.1@ == observer_state(self.events()).invalid_frees,
    {
        let mut table: Vec<LiveAllocation> = Vec::new();
        let mut invalid: Vec<InvalidFree> = Vec::new();
        let mut i: usize = 0;
        let n = self.log.len();
        proof {
            assert(self.log@.take(0) =~= Seq::<Event>::empty());
        }
        while i < n
            invariant
                i <= n,
                n == self.log@.len(),
                live_table_matches(table@, observer_state(self.log@.take(i as int)).live),
                invalid@ == observer_state(self.log@.take(i as int)).invalid_frees,
            decreases n - i,
        {
            let ghost state = observer_state(self.log@.take(i as int));
            proof {
                assert(self.log@.take(i as int + 1).drop_last() =~= self.log@.take(i as int));
                assert(self.log@.take(i as int + 1).last() == self.log@[i as int]);
            }
            let e = self.log[i];
            match e {
                Event::Alloc { size, align, address } => {
                    if address != NULL_ADDRESS {
                        table_upsert(
                            &mut table,
                            LiveAllocation { address, size, align },
                            Ghost(state.live),
                        );
                    }
                },
                Event::AllocZeroed { size, align, address } => {
                    if address != NULL_ADDRESS {
                        table_upsert(
                            &mut table,
                            LiveAllocation { address, size, align },
                            Ghost(state.live),
                        );
                    }
                },
                Event::Dealloc { size, align, address } => {
                    let found = find_entry(&table, address);
                    if found.is_some() {
                        proof {
                            let k = choose|k: int|
                                0 <= k < table@.len() && table@[k].address == address;
                            assert(state.live.contains_key(address));
                        }
                        table_remove(&mut table, address, Ghost(state.live));
                    } else {
                        proof {
                            if state.live.contains_key(address) {
                                let k = choose|k: int|
                                    0 <= k < table@.len() && table@[k].address == address;
                                assert(table@[k].address == address);
                            }
                        }
                        invalid.push(InvalidFree { address, size, align });
                    }
                },
                Event::Realloc { old_address, new_address, old_size, new_size, align } => {
                    if new_address != NULL_ADDRESS {
                        table_remove(&mut table, old_address, Ghost(state.live));
                        table_upsert(
                            &mut table,
                            LiveAllocation { address: new_address, size: new_size, align },
                            Ghost(state.live.remove(old_address)),
                        );
                    }
                },
            }
            i += 1;
        }
        proof {
            assert(self.log@.take(n as int) =~= self.log@);
        }
        (table, invalid)
    }
}

/// The index of the entry for `address`, if the table has one.
fn find_entry(table: &Vec<LiveAllocation>, address: usize) -> (r: Option<usize>)
    ensures
        match r {
            Some(i) => i < table@.len() && table@[i as int].address == address,
            None => forall|j: int|
                0 <= j < table@.len() ==> (#[trigger] table@[j]).address != address,
        },
{
    let mut i: usize = 0;
    while i < table.len()
        invariant
            i <= table@.len(),
            forall|j: int| 0 <= j < i ==> (#[trigger] table@[j]).address != address,
        decreases table@.len() - i,
    {
        if table[i].address == address {
            return Some(i);
        }
        i += 1;
    }
    None
}

/// Insert the entry for `entry.address`, or overwrite the one already
/// there: last write wins per address.
fn table_upsert(table: &mut Vec<LiveAllocation>, entry: LiveAllocation, Ghost(m): Ghost<
    Map<usize, LiveInfo>,
>)
    requires
        live_table_matches(old(table)@, m),
    ensures
        live_table_matches(
            final(table)@,
            m.insert(entry.address, LiveInfo { size: entry.size, align: entry.align }),
        ),
{
    let ghost t1 = table@;
    let ghost m2 = m.insert(entry.address, LiveInfo { size: entry.size, align: entry.align });
    let found = find_entry(table, entry.address);
    match found {
        Some(i) => {
            table[i] = entry;
            proof {
                let t2 = table@;
                assert forall|j: int| 0 <= j < t2.len() implies (#[trigger] t2[j]).address
                    == t1[j].address by {
                    if j != i {
                        assert(t2[j] == t1[j]);
                    }
                }
                assert forall|a: usize| #[trigger] m2.contains_key(a) implies exists|k: int|
                    0 <= k < t2.len() && (#[trigger] t2[k]).address == a by {
                    if a == entry.address {
                        assert(t2[i as int].address == a);
                    } else {
                        let k = choose|k: int| 0 <= k < t1.len() && t1[k].address == a;
                        assert(t2[k].address == a);
                    }
                }
            }
        },
        None => {
            table.push(entry);
            proof {
                let t2 = table@;
                assert(!m.contains_key(entry.address)) by {
                    if m.contains_key(entry.address) {
                        let k = choose|k: int|
                            0 <= k < t1.len() && t1[k].address == entry.address;
                        assert(t1[k].address == entry.address);
                    }
                }
                assert forall|j: int| 0 <= j < t1.len() implies t2[j] == t1[j] by {}
                assert forall|a: usize| #[trigger] m2.contains_key(a) implies exists|k: int|
                    0 <= k < t2.len() && (#[trigger] t2[k]).address == a by {
                    if a == entry.address {
                        assert(t2[t1.len() as int].address == a);
                    } else {
                        let k = choose|k: int| 0 <= k < t1.len() && t1[k].address == a;
                        assert(t2[k].address == a);
                    }
                }
            }
        },
    }
}

/// Remove the entry for `address`, if the table has one.
fn table_remove(table: &mut Vec<LiveAllocation>, address: usize, Ghost(m): Ghost<
    Map<usize, LiveInfo>,
>)
    requires
        live_table_matches(old(table)@, m),
    ensures
        live_table_matches(final(table)@, m.remove(address)),
{
    let ghost t1 = table@;
    let ghost m2 = m.remove(address);
    let found = find_entry(table, address);
    match found {
        Some(i) => {
            table.remove(i);
            proof {
                let t2 = table@;
                assert(t2 =~= t1.subrange(0, i as int) + t1.subrange(i as int + 1, t1.len() as int));
                assert forall|j: int| 0 <= j < i implies #[trigger] t2[j] == t1[j] by {}
                assert forall|j: int| i <= j < t2.len() implies #[trigger] t2[j] == t1[j + 1] by {}
                assert forall|a: usize| #[trigger] m2.contains_key(a) implies exists|k: int|
                    0 <= k < t2.len() && (#[trigger] t2[k]).address == a by {
                    let k = choose|k: int| 0 <= k < t1.len() && t1[k].address == a;
                    assert(t1[k].address != address);
                    if k < i {
                        assert(t2[k].address == a);
                    } else {
                        assert(t2[k - 1] == t1[k]);
                        assert(t2[k - 1].address == a);
                    }
                }
            }
        },
        None => {
            proof {
                assert(!m.contains_key(address)) by {
                    if m.contains_key(address) {
                        let k = choose|k: int| 0 <= k < t1.len() && t1[k].address == address;
                        assert(t1[k].address == address);
                    }
                }
                assert(m2 =~= m);
            }
        },
    }
}

} // verus!
