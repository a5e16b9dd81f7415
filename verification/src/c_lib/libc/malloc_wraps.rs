//! The allocator capability: the raw heap behind an allocate-by-layout and
//! deallocate-by-layout interface, for containers that take an allocator.

use crate::c_lib::libc::mem::{
    free, is_allocated, is_raw, lemma_raw_in_region, malloc, raw_request_ok, spec_free,
    spec_malloc, usable_size, valid_request,
};
use crate::lib_alloc::heap::{Heap, HeapView};
use crate::lib_alloc::layout::Layout;
use vstd::prelude::*;

verus! {

/// The error of a failed `allocate`.
#[derive(Debug, Clone, Copy, PartialEq, Eq, Structural)]
pub struct AllocError;

/// A region handed out by `allocate`: its address and its length in bytes.
#[derive(Debug, Clone, Copy, PartialEq, Eq, Structural)]
pub struct Region {
    pub ptr: usize,
    pub len: usize,
}

/// Allocator which uses `malloc`.
#[derive(Debug, Clone, Copy)]
pub struct MallocAllocator;

/// What `allocate` does to a heap for a request of `size` bytes: nothing where
/// the request is not one `malloc` takes, else what `malloc` does.
pub open spec fn spec_allocate(h: HeapView, size: int) -> (HeapView, int) {
    if raw_request_ok(size) {
        spec_malloc(h, size)
    } else {
        (h, 0)
    }
}

impl MallocAllocator {
    /// Allocates by layout: `malloc` of the layout's size. Returns the region,
    /// as long as the layout's size, or an error where `malloc` gives null or
    /// the size with its header would not be a valid request. It never stops
    /// the kernel.
    pub fn allocate(&self, heap: &mut Heap, layout: Layout) -> (region: Result<Region, AllocError>)
        requires
            old(heap).wf(),
        ensures
            final(heap).wf(),
            final(heap)@ == spec_allocate(old(heap)@, layout.spec_size() as int).0,
            match region {
                Ok(r) => r.ptr != 0 && r.ptr == spec_allocate(
                    old(heap)@,
                    layout.spec_size() as int,
                ).1 && r.len == layout.spec_size(),
                Err(_) => spec_allocate(old(heap)@, layout.spec_size() as int).1 == 0,
            },
    {
        let size = layout.size();
        if !valid_request(size) {
            return Err(AllocError);
        }
        let ptr = malloc(heap, size);
        if ptr == 0 {
            Err(AllocError)
        } else {
            Ok(Region { ptr, len: size })
        }
    }

    /// Whether `ptr` is a live raw allocation whose header records the size of
    /// `layout`: what `deallocate` demands.
    pub fn layout_matches(&self, heap: &Heap, ptr: usize, layout: Layout) -> (matches: bool)
        requires
            heap.wf(),
        ensures
            matches == (is_raw(heap@, ptr as int) && usable_size(heap@, ptr as int)
                == layout.spec_size()),
    {
        if !is_allocated(heap, ptr) {
            return false;
        }
        proof {
            lemma_raw_in_region(heap@, ptr as int);
        }
        heap.read_word(ptr - 8) == layout.size() as u64
    }

    /// Deallocates by layout: `free(ptr)`. The header before `ptr` must record
    /// the layout's size; a mismatch means a corrupted heap, on which the
    /// kernel stops rather than go on, so the call does not take one.
    pub fn deallocate(&self, heap: &mut Heap, ptr: usize, layout: Layout)
        requires
            old(heap).wf(),
            is_raw(old(heap)@, ptr as int),
            usable_size(old(heap)@, ptr as int) == layout.spec_size(),
        ensures
            final(heap).wf(),
            final(heap)@ == spec_free(old(heap)@, ptr as int),
            final(heap)@ == old(heap)@.release(ptr - 8),
    {
        free(heap, ptr);
    }
}

} // verus!
