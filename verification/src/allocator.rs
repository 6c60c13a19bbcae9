//! The allocator capability set: the four primitive operations a pluggable
//! low-level memory manager must support.

use vstd::prelude::*;

verus! {

use crate::events::valid_layout;

/// A pluggable low-level allocator, working on opaque integer address
/// handles; `NULL_ADDRESS` (zero) is the failure sentinel.
///
/// An implementation pins its own behaviour down, state by state, with its
/// spec functions: each executable operation returns exactly the address
/// its spec function names and leaves the allocator in exactly the state
/// its spec function names. A caller can therefore state — and prove —
/// that a wrapped call returns precisely what a direct call would have.
pub trait Allocator: Sized {
    /// The implementation's own well-formedness invariant.
    spec fn wf(&self) -> bool;

    /// The address a plain allocation returns from this state; the null
    /// sentinel on failure.
    spec fn spec_allocate_addr(&self, size: usize, align: usize) -> usize;

    /// The allocator state after a plain allocation.
    spec fn spec_allocate_state(&self, size: usize, align: usize) -> Self;

    /// The address a zero-initializing allocation returns from this state;
    /// the null sentinel on failure.
    spec fn spec_allocate_zeroed_addr(&self, size: usize, align: usize) -> usize;

    /// The allocator state after a zero-initializing allocation.
    spec fn spec_allocate_zeroed_state(&self, size: usize, align: usize) -> Self;

    /// The allocator state after a deallocation. The implementation's own
    /// contract for an invalid address applies unchanged; the capability
    /// itself checks nothing.
    spec fn spec_deallocate_state(&self, pointer: usize, size: usize, align: usize) -> Self;

    /// The address a reallocation returns from this state; the null
    /// sentinel on failure, in which case the old region stays valid.
    spec fn spec_reallocate_addr(
        &self,
        old_pointer: usize,
        old_size: usize,
        align: usize,
        new_size: usize,
    ) -> usize;

    /// The allocator state after a reallocation.
    spec fn spec_reallocate_state(
        &self,
        old_pointer: usize,
        old_size: usize,
        align: usize,
        new_size: usize,
    ) -> Self;

    /// Request `size` bytes aligned to `align`.
    fn allocate(&mut self, size: usize, align: usize) -> (pointer: usize)
        requires
            old(self).wf(),
            valid_layout(size, align),
        ensures
            final(self).wf(),
            pointer == old(self).spec_allocate_addr(size, align),
            *final(self) == old(self).spec_allocate_state(size, align),
    ;

    /// Request `size` zeroed bytes aligned to `align`.
    fn allocate_zeroed(&mut self, size: usize, align: usize) -> (pointer: usize)
        requires
            old(self).wf(),
            valid_layout(size, align),
        ensures
            final(self).wf(),
            pointer == old(self).spec_allocate_zeroed_addr(size, align),
            *final(self) == old(self).spec_allocate_zeroed_state(size, align),
    ;

    /// Release the region at `pointer`, described by `size` and `align`.
    fn deallocate(&mut self, pointer: usize, size: usize, align: usize)
        requires
            old(self).wf(),
            valid_layout(size, align),
        ensures
            final(self).wf(),
            *final(self) == old(self).spec_deallocate_state(pointer, size, align),
    ;

    /// Resize the region at `old_pointer` from `old_size` to `new_size`
    /// bytes, keeping the alignment.
    fn reallocate(
        &mut self,
        old_pointer: usize,
        old_size: usize,
        align: usize,
        new_size: usize,
    ) -> (new_pointer: usize)
        requires
            old(self).wf(),
            valid_layout(old_size, align),
        ensures
            final(self).wf(),
            new_pointer == old(self).spec_reallocate_addr(old_pointer, old_size, align, new_size),
            *final(self) == old(self).spec_reallocate_state(old_pointer, old_size, align, new_size),
    ;
}

} // verus!
