//! Trace events and the observer-side bookkeeping they determine.
//!
//! An address is an opaque integer handle; `NULL_ADDRESS` is the failure
//! sentinel that a failed allocation returns and reports. The functions
//! here say, mathematically, what a sequence of notifications means: which
//! addresses are live afterwards, and which deallocations were invalid.

use vstd::prelude::*;

verus! {

/// The null address: what a failed allocation returns, and what its
/// notification reports, so the observer can tell "requested and failed"
/// from "never requested".
pub const NULL_ADDRESS: usize = 0;

/// One notification reported to the observer, one per allocator operation,
/// carrying the operation's resolved parameters and outcome.
#[derive(Clone, Copy, PartialEq, Eq, Structural, Debug)]
pub enum Event {
    /// Reported after each plain allocation, successful or not.
    Alloc { size: usize, align: usize, address: usize },
    /// Reported after each zero-initializing allocation, successful or not.
    AllocZeroed { size: usize, align: usize, address: usize },
    /// Reported after each deallocation, with the address exactly as the
    /// caller gave it, valid or not.
    Dealloc { size: usize, align: usize, address: usize },
    /// Reported after each reallocation: the old and the new placement as
    /// one causally-linked pair, so the observer never sees a gap where
    /// neither or both addresses appear valid.
    Realloc {
        old_address: usize,
        new_address: usize,
        old_size: usize,
        new_size: usize,
        align: usize,
    },
}

/// Whether `n` is a power of two.
pub open spec fn is_power_of_two(n: int) -> bool
    decreases n,
{
    if n <= 0 {
        false
    } else if n == 1 {
        true
    } else {
        n % 2 == 0 && is_power_of_two(n / 2)
    }
}

/// A power of two is at least one.
pub proof fn lemma_power_of_two_pos(n: int)
    requires
        is_power_of_two(n),
    ensures
        n >= 1,
{
}

/// A layout request the allocator capability accepts: the alignment is a
/// power of two.
pub open spec fn valid_layout(size: usize, align: usize) -> bool {
    is_power_of_two(align as int)
}

/// One entry of the live-allocation table: an address reported allocated
/// and not since reported deallocated, with the size and alignment it was
/// last given.
#[derive(Clone, Copy, PartialEq, Eq, Structural, Debug)]
pub struct LiveAllocation {
    pub address: usize,
    pub size: usize,
    pub align: usize,
}

/// One recorded invalid free: a deallocation whose address was not live
/// when it was reported — never allocated, or already freed.
#[derive(Clone, Copy, PartialEq, Eq, Structural, Debug)]
pub struct InvalidFree {
    pub address: usize,
    pub size: usize,
    pub align: usize,
}

/// The size and alignment the live-allocation table associates with an
/// address.
#[derive(Clone, Copy, PartialEq, Eq, Structural, Debug)]
pub struct LiveInfo {
    pub size: usize,
    pub align: usize,
}

/// The observer's aggregate view of a trace: the live-allocation table and
/// the invalid frees seen so far, in order.
pub struct ObserverState {
    pub live: Map<usize, LiveInfo>,
    pub invalid_frees: Seq<InvalidFree>,
}

/// How one notification updates the observer's aggregate view.
///
/// An allocation whose address is the null sentinel failed and makes
/// nothing live. A deallocation of a live address removes it; of any other
/// address, it is recorded as an invalid free. A successful reallocation
/// retires the old address and makes the new one live in one step; a
/// failed one changes nothing, since the old region stays valid.
pub open spec fn apply_event(s: ObserverState, e: Event) -> ObserverState {
    match e {
        Event::Alloc { size, align, address } => apply_allocation(s, size, align, address),
        Event::AllocZeroed { size, align, address } => apply_allocation(s, size, align, address),
        Event::Dealloc { size, align, address } => {
            if s.live.contains_key(address) {
                ObserverState { live: s.live.remove(address), invalid_frees: s.invalid_frees }
            } else {
                ObserverState {
                    live: s.live,
                    invalid_frees: s.invalid_frees.push(InvalidFree { address, size, align }),
                }
            }
        },
        Event::Realloc { old_address, new_address, old_size, new_size, align } => {
            if new_address != NULL_ADDRESS {
                ObserverState {
                    live: s.live.remove(old_address).insert(
                        new_address,
                        LiveInfo { size: new_size, align },
                    ),
                    invalid_frees: s.invalid_frees,
                }
            } else {
                s
            }
        },
    }
}

/// How an allocation notification (plain or zeroed) updates the view:
/// last-write-wins per address, and a failed request makes nothing live.
pub open spec fn apply_allocation(
    s: ObserverState,
    size: usize,
    align: usize,
    address: usize,
) -> ObserverState {
    if address != NULL_ADDRESS {
        ObserverState {
            live: s.live.insert(address, LiveInfo { size, align }),
            invalid_frees: s.invalid_frees,
        }
    } else {
        s
    }
}

/// The observer's aggregate view after a whole trace, event by event.
pub open spec fn observer_state(events: Seq<Event>) -> ObserverState
    decreases events.len(),
{
    if events.len() == 0 {
        ObserverState { live: Map::empty(), invalid_frees: Seq::empty() }
    } else {
        apply_event(observer_state(events.drop_last()), events.last())
    }
}

/// The bytes a live table accounts for: the sum of its entries' sizes —
/// the default value selector of a live-allocation dump.
pub open spec fn table_bytes(table: Seq<LiveAllocation>) -> int
    decreases table.len(),
{
    if table.len() == 0 {
        0
    } else {
        table_bytes(table.drop_last()) + table.last().size
    }
}

/// The null address is never live: a failed allocation is reported but
/// makes nothing live, so no live-allocation dump ever shows it.
pub proof fn lemma_null_never_live(events: Seq<Event>)
    ensures
        !observer_state(events).live.contains_key(NULL_ADDRESS),
    decreases events.len(),
{
    if events.len() > 0 {
        lemma_null_never_live(events.drop_last());
    }
}

/// The executable live table `table` lists exactly the entries of the
/// mathematical live map `live`: no address twice, every entry present in
/// the map with the same size and alignment, and every mapped address
/// present as an entry.
pub open spec fn live_table_matches(table: Seq<LiveAllocation>, live: Map<usize, LiveInfo>) -> bool {
    &&& (forall|i: int, j: int|
        #![trigger table[i], table[j]]
        0 <= i < j < table.len() ==> table[i].address != table[j].address)
    &&& (forall|i: int|
        0 <= i < table.len() ==> live.contains_key((#[trigger] table[i]).address)
            && live[table[i].address] == (LiveInfo { size: table[i].size, align: table[i].align }))
    &&& (forall|a: usize|
        #[trigger] live.contains_key(a) ==> exists|i: int|
            0 <= i < table.len() && (#[trigger] table[i]).address == a)
}

} // verus!
