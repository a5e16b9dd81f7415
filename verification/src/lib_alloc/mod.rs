//! The kernel heap: its address range and the bookkeeping engine behind every
//! allocation entry point.

use vstd::prelude::*;

pub mod heap;
pub mod layout;

verus! {

/// The beginning of the heap.
pub const HEAP_START: u64 = 0x4444_4444_0000;

/// The heap's size: 100 KiB.
pub const HEAP_SIZE: usize = 102400;

/// The heap's end: `HEAP_START + HEAP_SIZE`.
pub const HEAP_END: u64 = 0x4444_4445_9000;

/// Returns whether `addr` is inside of the heap; both ends count.
pub fn is_heap_addr(addr: usize) -> (inside: bool)
    ensures
        inside == (HEAP_START <= addr && addr <= HEAP_END),
        HEAP_END == HEAP_START + HEAP_SIZE,
{
    HEAP_START <= addr as u64 && addr as u64 <= HEAP_END
}

} // verus!
