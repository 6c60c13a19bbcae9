//! A deterministic bump allocator over abstract addresses, the crate's own
//! model implementation of the allocator capability.
//!
//! It hands out aligned addresses from the range `[1, limit]`, moving a
//! cursor forward and never reusing released space — deallocation is a
//! no-op, and reallocation places a fresh region. Requests that do not fit
//! below `limit` fail with the null sentinel.

use vstd::prelude::*;

verus! {

use crate::allocator::Allocator;
use crate::events::{NULL_ADDRESS, lemma_power_of_two_pos};

/// A bump allocator: `next` is the lowest address not yet handed out,
/// `limit` the first address past the managed range.
#[derive(Clone, Copy, PartialEq, Eq, Structural, Debug)]
pub struct BumpAllocator {
    /// The lowest address not yet handed out; always at least one, so a
    /// successful allocation never returns the null sentinel.
    pub next: usize,
    /// One past the highest address the allocator may hand out.
    pub limit: usize,
}

/// `n` rounded up to the next multiple of `align`.
pub open spec fn round_up(n: int, align: int) -> int {
    if n % align == 0 {
        n
    } else {
        n + (align - n % align)
    }
}

impl BumpAllocator {
    /// A fresh allocator drawing addresses from `[1, limit]`.
    pub fn new(limit: usize) -> (r: BumpAllocator)
        requires
            limit >= 1,
        ensures
            r.wf(),
            r == (BumpAllocator { next: 1, limit }),
    {
        BumpAllocator { next: 1, limit }
    }
}

impl Allocator for BumpAllocator {
    open spec fn wf(&self) -> bool {
        1 <= self.next <= self.limit
    }

    open spec fn spec_allocate_addr(&self, size: usize, align: usize) -> usize {
        let aligned = round_up(self.next as int, align as int);
        if aligned + size <= self.limit {
            aligned as usize
        } else {
            NULL_ADDRESS
        }
    }

    open spec fn spec_allocate_state(&self, size: usize, align: usize) -> Self {
        let aligned = round_up(self.next as int, align as int);
        if aligned + size <= self.limit {
            BumpAllocator { next: (aligned + size) as usize, limit: self.limit }
        } else {
            *self
        }
    }

    open spec fn spec_allocate_zeroed_addr(&self, size: usize, align: usize) -> usize {
        self.spec_allocate_addr(size, align)
    }

    open spec fn spec_allocate_zeroed_state(&self, size: usize, align: usize) -> Self {
        self.spec_allocate_state(size, align)
    }

    open spec fn spec_deallocate_state(&self, pointer: usize, size: usize, align: usize) -> Self {
        *self
    }

    open spec fn spec_reallocate_addr(
        &self,
        old_pointer: usize,
        old_size: usize,
        align: usize,
        new_size: usize,
    ) -> usize {
        self.spec_allocate_addr(new_size, align)
    }

    open spec fn spec_reallocate_state(
        &self,
        old_pointer: usize,
        old_size: usize,
        align: usize,
        new_size: usize,
    ) -> Self {
        self.spec_allocate_state(new_size, align)
    }

    fn allocate(&mut self, size: usize, align: usize) -> (pointer: usize) {
        proof {
            lemma_power_of_two_pos(align as int);
        }
        let rem: usize = self.next % align;
        let pad: usize = if rem == 0 {
            0
        } else {
            align - rem
        };
        if pad <= self.limit - self.next {
            let aligned: usize = self.next + pad;
            if size <= self.limit - aligned {
                self.next = aligned + size;
                return aligned;
            }
        }
        NULL_ADDRESS
    }

    fn allocate_zeroed(&mut self, size: usize, align: usize) -> (pointer: usize) {
        self.allocate(size, align)
    }

    fn deallocate(&mut self, pointer: usize, size: usize, align: usize) {
    }

    fn reallocate(
        &mut self,
        old_pointer: usize,
        old_size: usize,
        align: usize,
        new_size: usize,
    ) -> (new_pointer: usize) {
        self.allocate(new_size, align)
    }
}

} // verus!
