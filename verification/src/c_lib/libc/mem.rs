//! C-style memory operations over a [`Heap`].
//!
//! The raw family (`malloc`, `free`, `calloc`, `realloc`) keeps the usable size
//! of every allocation in a header word just before the address it returns. The
//! typed family (`malloc_safe` and its kin) keeps no header: the caller passes
//! the pointee's layout again when it frees or resizes.
//!
//! Pointers are addresses; `0` is the null pointer.

use crate::c_lib::libc::error::ALLOCATION_FAILURE;
use crate::lib_alloc::heap::{
    lemma_align_up, lemma_allocate_success, lemma_block_in_region, lemma_first_fit_some,
    lemma_live_in_region, lemma_load_frame, lemma_place_disjoint, lemma_place_live,
    lemma_place_wf, lemma_store_load_other, lemma_store_load_same, repeated, Heap, HeapView,
};
use crate::lib_alloc::layout::Layout;
use vstd::bytes::*;
use vstd::prelude::*;

verus! {

/// The width of the header word, which is also the alignment of every raw
/// allocation.
pub const HEADER_WIDTH: usize = 8;

/// The header word that records a usable size of `size` bytes.
pub open spec fn header_bytes(size: int) -> Seq<u8> {
    spec_u64_to_le_bytes(size as u64)
}

/// The usable size that the header before `ptr` records.
pub open spec fn usable_size(h: HeapView, ptr: int) -> int {
    spec_u64_from_le_bytes(h.load(ptr - 8, 8)) as int
}

/// `ptr` is a live raw allocation: the block that starts one header before it
/// is live, and its header records the block's length less the header.
pub open spec fn is_raw(h: HeapView, ptr: int) -> bool {
    h.is_live(ptr - 8, usable_size(h, ptr) + 8)
}

/// A raw request of `size` bytes has a valid layout: with its header, rounded
/// up to the header's alignment, it does not pass `isize::MAX`.
pub open spec fn raw_request_ok(size: int) -> bool {
    size + 8 + 7 <= isize::MAX
}

/// What `malloc(size)` does to a heap and what it returns.
pub open spec fn spec_malloc(h: HeapView, size: int) -> (HeapView, int) {
    if size == 0 {
        (h.with_errno(5), 0)
    } else {
        match h.first_fit(size + 8, 8) {
            None => (h.with_errno(5), 0),
            Some(i) => (
                h.place(i, size + 8, 8).store(h.candidate(i, 8), header_bytes(size)),
                h.candidate(i, 8) + 8,
            ),
        }
    }
}

/// What `free(ptr)` does to a heap.
pub open spec fn spec_free(h: HeapView, ptr: int) -> HeapView {
    if ptr == 0 {
        h.with_errno(5)
    } else {
        h.release(ptr - 8)
    }
}

/// What `calloc(nmemb, size)` does to a heap and what it returns.
pub open spec fn spec_calloc(h: HeapView, nmemb: int, size: int) -> (HeapView, int) {
    let total = nmemb * size;
    if total > usize::MAX || total == 0 {
        (h.with_errno(5), 0)
    } else {
        let (h1, ptr) = spec_malloc(h, total);
        if ptr == 0 {
            (h1, 0)
        } else {
            (h1.store(ptr, repeated(0, total)), ptr)
        }
    }
}

/// The smaller of two numbers.
pub open spec fn min(a: int, b: int) -> int {
    if a <= b {
        a
    } else {
        b
    }
}

/// What `realloc(ptr, new_size)` does to a heap and what it returns.
pub open spec fn spec_realloc(h: HeapView, ptr: int, new_size: int) -> (HeapView, int) {
    if ptr == 0 {
        spec_malloc(h, new_size)
    } else if new_size == 0 {
        (spec_free(h.with_errno(5), ptr), 0)
    } else {
        let (h1, new_ptr) = spec_malloc(h, new_size);
        if new_ptr == 0 {
            (h1, 0)
        } else {
            let n = min(usable_size(h, ptr), new_size);
            (spec_free(h1.store(new_ptr, h1.load(ptr, n)), ptr), new_ptr)
        }
    }
}

/// A successful `malloc` leaves a raw allocation of exactly the size asked for,
/// inside the region, and keeps every block that was live, with its bytes.
pub proof fn lemma_malloc_success(h: HeapView, size: int)
    requires
        h.wf(),
        0 < size,
        raw_request_ok(size),
        h.first_fit(size + 8, 8) is Some,
    ensures
        ({
            let (h1, ptr) = spec_malloc(h, size);
            &&& h1.wf()
            &&& ptr != 0
            &&& ptr % 8 == 0
            &&& is_raw(h1, ptr)
            &&& usable_size(h1, ptr) == size
            &&& h1.in_region(ptr - 8, size + 8)
            &&& h1.errno == h.errno
            &&& h1.base == h.base
            &&& h1.mem.len() == h.mem.len()
            &&& forall|k: int|
                0 <= k < h.mem.len() && !(ptr - 8 - h.base <= k < ptr - h.base) ==> h1.mem[k]
                    == h.mem[k]
            &&& forall|addr: int, len: int| #[trigger]
                h.is_live(addr, len) ==> {
                    &&& h1.is_live(addr, len)
                    &&& addr + len <= ptr - 8 || ptr + size <= addr
                    &&& h1.load(addr, len) == h.load(addr, len)
                }
        }),
{
    lemma_first_fit_some(h, size + 8, 8);
    let i = h.first_fit(size + 8, 8).unwrap();
    let c = h.candidate(i, 8);
    let hp = h.place(i, size + 8, 8);
    let (h1, ptr) = spec_malloc(h, size);
    lemma_place_wf(h, i, size + 8, 8);
    lemma_align_up(h.gap_lo(i), 8);
    assert(h1.blocks == hp.blocks);
    assert forall|k: int| 0 <= k <= h1.blocks.len() implies #[trigger] h1.gap_lo(k) <= h1.gap_hi(
        k,
    ) by {
        assert(hp.gap_lo(k) <= hp.gap_hi(k));
    }
    lemma_auto_spec_u64_to_from_le_bytes();
    lemma_store_load_same(hp, c, header_bytes(size));
    assert(usable_size(h1, ptr) == size);
    assert(h1.is_block_at(i, c, size + 8));
    assert forall|addr: int, len: int| #[trigger] h.is_live(addr, len) implies {
        &&& h1.is_live(addr, len)
        &&& addr + len <= ptr - 8 || ptr + size <= addr
        &&& h1.load(addr, len) == h.load(addr, len)
    } by {
        lemma_place_live(h, i, size + 8, 8, addr, len);
        let k = choose|k: int| 0 <= k < hp.blocks.len() && hp.is_block_at(k, addr, len);
        assert(h1.is_block_at(k, addr, len));
        let j = choose|j: int| 0 <= j < h.blocks.len() && h.is_block_at(j, addr, len);
        lemma_place_disjoint(h, i, size + 8, 8, j);
        lemma_block_in_region(h, j);
        lemma_store_load_other(hp, c, header_bytes(size), addr, len);
    }
}

/// Allocates `size` usable bytes and returns their address, or null.
///
/// A request of zero bytes fails, and so does one that no gap of the heap can
/// hold together with its header; a failure records `ALLOCATION_FAILURE` and
/// changes nothing else. A success places header and bytes in the first gap
/// that holds them, writes `size` into the header, and returns the address just
/// after it; the usable bytes keep whatever the region held there.
pub fn malloc(heap: &mut Heap, size: usize) -> (ptr: usize)
    requires
        old(heap).wf(),
        raw_request_ok(size as int),
    ensures
        final(heap).wf(),
        final(heap)@ == spec_malloc(old(heap)@, size as int).0,
        ptr == spec_malloc(old(heap)@, size as int).1,
        ptr == 0 ==> final(heap)@ == old(heap)@.with_errno(5),
        ptr == 0 <==> size == 0 || old(heap)@.first_fit(size + 8, 8) is None,
{
    if size == 0 {
        heap.set_errno(ALLOCATION_FAILURE);
        return 0;
    }
    let raw = heap.allocate(size + HEADER_WIDTH, HEADER_WIDTH);
    if raw == 0 {
        heap.set_errno(ALLOCATION_FAILURE);
        return 0;
    }
    proof {
        lemma_malloc_success(old(heap)@, size as int);
        let i = old(heap)@.first_fit(size + 8, 8).unwrap();
        lemma_first_fit_some(old(heap)@, size + 8, 8);
        lemma_place_wf(old(heap)@, i, size + 8, 8);
    }
    heap.write_word(raw, size as u64);
    raw + HEADER_WIDTH
}

/// A live raw allocation lies inside the region, header and usable bytes.
pub proof fn lemma_raw_in_region(h: HeapView, ptr: int)
    requires
        h.wf(),
        is_raw(h, ptr),
    ensures
        0 <= usable_size(h, ptr),
        8 < ptr,
        h.in_region(ptr - 8, usable_size(h, ptr) + 8),
        h.in_region(ptr - 8, 8),
        h.in_region(ptr, usable_size(h, ptr)),
        usable_size(h, ptr) + 8 <= usize::MAX,
{
    lemma_live_in_region(h, ptr - 8, usable_size(h, ptr) + 8);
}

/// A raw allocation stays one in a state with the same blocks whose bytes
/// agree on the allocation's header.
pub proof fn lemma_raw_frame(a: HeapView, b: HeapView, ptr: int)
    requires
        a.wf(),
        is_raw(a, ptr),
        a.base == b.base,
        a.mem.len() == b.mem.len(),
        forall|addr: int, len: int| #[trigger] a.is_live(addr, len) ==> b.is_live(addr, len),
        forall|k: int| ptr - 8 - a.base <= k < ptr - a.base ==> a.mem[k] == b.mem[k],
    ensures
        is_raw(b, ptr),
        usable_size(b, ptr) == usable_size(a, ptr),
{
    lemma_raw_in_region(a, ptr);
    lemma_load_frame(a, b, ptr - 8, 8);
}

/// States with the same blocks have the same live blocks.
pub proof fn lemma_same_blocks(a: HeapView, b: HeapView)
    requires
        a.blocks == b.blocks,
    ensures
        forall|addr: int, len: int| #[trigger] a.is_live(addr, len) ==> b.is_live(addr, len),
{
    assert forall|addr: int, len: int| #[trigger] a.is_live(addr, len) implies b.is_live(
        addr,
        len,
    ) by {
        let j = choose|j: int| 0 <= j < a.blocks.len() && a.is_block_at(j, addr, len);
        assert(b.is_block_at(j, addr, len));
    }
}

/// Whether a raw request of `size` bytes has a valid layout.
pub fn valid_request(size: usize) -> (valid: bool)
    ensures
        valid == raw_request_ok(size as int),
{
    size <= isize::MAX as usize - 15
}

/// Whether `ptr` is a live raw allocation of `heap`.
pub fn is_allocated(heap: &Heap, ptr: usize) -> (live: bool)
    requires
        heap.wf(),
    ensures
        live == is_raw(heap@, ptr as int),
{
    if ptr < HEADER_WIDTH || !heap.in_region(ptr - HEADER_WIDTH, HEADER_WIDTH) {
        proof {
            if is_raw(heap@, ptr as int) {
                lemma_raw_in_region(heap@, ptr as int);
            }
        }
        return false;
    }
    let size = heap.read_word(ptr - HEADER_WIDTH);
    if size > (usize::MAX - HEADER_WIDTH) as u64 {
        proof {
            if is_raw(heap@, ptr as int) {
                lemma_raw_in_region(heap@, ptr as int);
            }
        }
        return false;
    }
    heap.is_live(ptr - HEADER_WIDTH, size as usize + HEADER_WIDTH)
}

/// Releases the raw allocation at `ptr`.
///
/// A null `ptr` records `ALLOCATION_FAILURE` and does nothing else. Otherwise
/// the header before `ptr` is read and the block it describes, header
/// included, goes back to the backing allocator; the bytes keep their values.
/// `ptr` must be null or a live raw allocation of this heap.
pub fn free(heap: &mut Heap, ptr: usize)
    requires
        old(heap).wf(),
        ptr != 0 ==> is_raw(old(heap)@, ptr as int),
    ensures
        final(heap).wf(),
        final(heap)@ == spec_free(old(heap)@, ptr as int),
{
    if ptr == 0 {
        heap.set_errno(ALLOCATION_FAILURE);
        return ;
    }
    proof {
        lemma_raw_in_region(heap@, ptr as int);
    }
    let meta = ptr - HEADER_WIDTH;
    let size = heap.read_word(meta);
    heap.deallocate(meta, size as usize + HEADER_WIDTH);
}

/// Allocates `nmemb` elements of `size` bytes each, all zero.
///
/// Where the product overflows or is zero, or the heap cannot hold it, the
/// call records `ALLOCATION_FAILURE`, changes nothing else and returns null.
/// Otherwise it behaves as `malloc` of the product and then sets every usable
/// byte to zero.
pub fn calloc(heap: &mut Heap, nmemb: usize, size: usize) -> (ptr: usize)
    requires
        old(heap).wf(),
        nmemb * size <= usize::MAX ==> raw_request_ok(nmemb * size),
    ensures
        final(heap).wf(),
        final(heap)@ == spec_calloc(old(heap)@, nmemb as int, size as int).0,
        ptr == spec_calloc(old(heap)@, nmemb as int, size as int).1,
        ptr == 0 ==> final(heap)@ == old(heap)@.with_errno(5),
        ptr == 0 <==> nmemb * size > usize::MAX || nmemb * size == 0 || old(heap)@.first_fit(
            nmemb * size + 8,
            8,
        ) is None,
{
    let total = match nmemb.checked_mul(size) {
        Some(total) => total,
        None => 0,
    };
    if total == 0 {
        heap.set_errno(ALLOCATION_FAILURE);
        return 0;
    }
    let ptr = malloc(heap, total);
    if ptr == 0 {
        return 0;
    }
    proof {
        lemma_malloc_success(old(heap)@, total as int);
    }
    let done = heap.fill(ptr, total, 0);
    assert(done);
    ptr
}

/// Resizes the raw allocation at `ptr` to `new_size` usable bytes by moving it.
///
/// A null `ptr` makes this `malloc(new_size)`. A `new_size` of zero frees
/// `ptr`, returns null and records `ALLOCATION_FAILURE`. Otherwise a new
/// allocation is made, the bytes that both sizes cover are copied to it, the
/// old one is freed and the new address is returned; where the new allocation
/// fails the old one stays as it is, `ALLOCATION_FAILURE` is recorded and null
/// is returned.
pub fn realloc(heap: &mut Heap, ptr: usize, new_size: usize) -> (new_ptr: usize)
    requires
        old(heap).wf(),
        ptr != 0 ==> is_raw(old(heap)@, ptr as int),
        raw_request_ok(new_size as int),
    ensures
        final(heap).wf(),
        final(heap)@ == spec_realloc(old(heap)@, ptr as int, new_size as int).0,
        new_ptr == spec_realloc(old(heap)@, ptr as int, new_size as int).1,
        new_ptr == 0 <==> new_size == 0 || old(heap)@.first_fit(new_size + 8, 8) is None,
{
    if ptr == 0 {
        return malloc(heap, new_size);
    }
    if new_size == 0 {
        heap.set_errno(ALLOCATION_FAILURE);
        proof {
            lemma_same_blocks(old(heap)@, heap@);
            lemma_raw_frame(old(heap)@, heap@, ptr as int);
        }
        free(heap, ptr);
        return 0;
    }
    proof {
        lemma_raw_in_region(heap@, ptr as int);
    }
    let old_size = heap.read_word(ptr - HEADER_WIDTH) as usize;
    let new_ptr = malloc(heap, new_size);
    if new_ptr == 0 {
        heap.set_errno(ALLOCATION_FAILURE);
        return 0;
    }
    let n = if old_size <= new_size {
        old_size
    } else {
        new_size
    };
    proof {
        lemma_malloc_success(old(heap)@, new_size as int);
        lemma_raw_frame(old(heap)@, heap@, ptr as int);
        lemma_raw_in_region(heap@, ptr as int);
    }
    let ghost h1 = heap@;
    let done = heap.copy(ptr, new_ptr, n);
    assert(done);
    proof {
        lemma_same_blocks(h1, heap@);
        lemma_raw_frame(h1, heap@, ptr as int);
    }
    free(heap, ptr);
    new_ptr
}

/// Allocates storage for one value of the layout `layout` and returns its
/// address, or null where the heap cannot hold it. The storage keeps whatever
/// the region held there; no error is recorded. A layout of zero bytes gets
/// null.
pub fn malloc_safe(heap: &mut Heap, layout: Layout) -> (ptr: usize)
    requires
        old(heap).wf(),
    ensures
        final(heap).wf(),
        final(heap)@ == old(heap)@.allocate(layout.spec_size() as int, layout.spec_align() as int).0,
        ptr == old(heap)@.allocate(layout.spec_size() as int, layout.spec_align() as int).1,
        ptr == 0 <==> layout.spec_size() == 0 || old(heap)@.first_fit(
            layout.spec_size() as int,
            layout.spec_align() as int,
        ) is None,
{
    heap.allocate(layout.size(), layout.align())
}

/// What `malloc_safe_val` does to a heap and what it returns.
pub open spec fn spec_malloc_safe_val(h: HeapView, size: int, align: int, val: Seq<u8>) -> (
    HeapView,
    int,
) {
    let (h1, ptr) = h.allocate(size, align);
    if ptr == 0 {
        (h1, 0)
    } else {
        (h1.store(ptr, val), ptr)
    }
}

/// Allocates as `malloc_safe` does and writes `val`, the value's bytes, into
/// the storage at once. Returns null and writes nothing where the allocation
/// fails.
pub fn malloc_safe_val(heap: &mut Heap, layout: Layout, val: &[u8]) -> (ptr: usize)
    requires
        old(heap).wf(),
        val@.len() == layout.spec_size(),
    ensures
        final(heap).wf(),
        final(heap)@ == spec_malloc_safe_val(
            old(heap)@,
            layout.spec_size() as int,
            layout.spec_align() as int,
            val@,
        ).0,
        ptr == spec_malloc_safe_val(
            old(heap)@,
            layout.spec_size() as int,
            layout.spec_align() as int,
            val@,
        ).1,
        ptr == 0 <==> layout.spec_size() == 0 || old(heap)@.first_fit(
            layout.spec_size() as int,
            layout.spec_align() as int,
        ) is None,
{
    let size = layout.size();
    let align = layout.align();
    let ptr = heap.allocate(size, align);
    if ptr == 0 {
        return 0;
    }
    proof {
        lemma_allocate_success(old(heap)@, size as int, align as int);
    }
    let done = heap.write(ptr, val);
    assert(done);
    ptr
}

/// Allocates raw storage fit to hold a value of the layout `layout`, without
/// writing the value. The request must be one that `malloc` can meet: where it
/// cannot, the kernel stops on an allocation error.
pub fn malloc_unsized_safe_val(heap: &mut Heap, layout: Layout) -> (ptr: usize)
    requires
        old(heap).wf(),
        raw_request_ok(layout.spec_size() as int),
        layout.spec_size() > 0,
        old(heap)@.first_fit(layout.spec_size() + 8, 8) is Some,
    ensures
        final(heap).wf(),
        ptr != 0,
        final(heap)@ == spec_malloc(old(heap)@, layout.spec_size() as int).0,
        ptr == spec_malloc(old(heap)@, layout.spec_size() as int).1,
{
    malloc(heap, layout.size())
}

/// Whether `malloc_unsized_safe_val` can meet a request for `layout` on
/// `heap`: the size is not zero, it is valid with its header, and some gap can
/// hold it.
pub fn can_malloc(heap: &Heap, layout: Layout) -> (can: bool)
    requires
        heap.wf(),
    ensures
        can == (layout.spec_size() > 0 && raw_request_ok(layout.spec_size() as int)
            && heap@.first_fit(layout.spec_size() + 8, 8) is Some),
{
    let size = layout.size();
    if size == 0 || !valid_request(size) {
        return false;
    }
    heap.find_fit(size + HEADER_WIDTH, HEADER_WIDTH).is_some()
}

/// What `free_safe` does to a heap.
pub open spec fn spec_free_safe(h: HeapView, ptr: int) -> HeapView {
    if ptr == 0 {
        h.with_errno(5)
    } else {
        h.release(ptr)
    }
}

/// Releases the storage at `ptr`, whose pointee has the layout `layout`.
///
/// A null `ptr` records `ALLOCATION_FAILURE` and does nothing else. Otherwise
/// the block goes back to the backing allocator under the layout given; `ptr`
/// must then be a live block of that size.
pub fn free_safe(heap: &mut Heap, ptr: usize, layout: Layout)
    requires
        old(heap).wf(),
        ptr != 0 ==> old(heap)@.is_live(ptr as int, layout.spec_size() as int),
    ensures
        final(heap).wf(),
        final(heap)@ == spec_free_safe(old(heap)@, ptr as int),
{
    if ptr == 0 {
        heap.set_errno(ALLOCATION_FAILURE);
        return ;
    }
    heap.deallocate(ptr, layout.size());
}

/// Moves the storage at `ptr`, whose pointee has the layout `layout`, to a
/// new block of the same layout and returns its address; the bytes move with
/// it. The heap must be able to hold the new block while the old one is live:
/// where it cannot, the kernel stops on an allocation error.
pub fn realloc_safe(heap: &mut Heap, ptr: usize, layout: Layout) -> (new_ptr: usize)
    requires
        old(heap).wf(),
        old(heap)@.is_live(ptr as int, layout.spec_size() as int),
        old(heap)@.first_fit(layout.spec_size() as int, layout.spec_align() as int) is Some,
    ensures
        final(heap).wf(),
        new_ptr != 0,
        final(heap)@ == old(heap)@.reallocate(
            ptr as int,
            layout.spec_size() as int,
            layout.spec_align() as int,
            layout.spec_size() as int,
        ).0,
        new_ptr == old(heap)@.reallocate(
            ptr as int,
            layout.spec_size() as int,
            layout.spec_align() as int,
            layout.spec_size() as int,
        ).1,
{
    proof {
        lemma_live_in_region(heap@, ptr as int, layout.spec_size() as int);
    }
    heap.reallocate(ptr, layout.size(), layout.align(), layout.size())
}

/// What `calloc_safe` does to a heap and what it returns, for `nmemb` slots of
/// `size` bytes aligned to `align`.
pub open spec fn spec_calloc_safe(h: HeapView, size: int, align: int, nmemb: int) -> (
    HeapView,
    int,
) {
    if nmemb == 0 {
        (h, 0)
    } else {
        let (h1, ptr) = h.allocate(nmemb * size, align);
        if ptr == 0 {
            (h.with_errno(5), 0)
        } else {
            (h1.store(ptr, repeated(0, nmemb * size)), ptr)
        }
    }
}

/// Allocates `nmemb` contiguous slots of the layout `elem`, all zero.
///
/// No slots: null, and no error. Where the heap cannot hold them:
/// `ALLOCATION_FAILURE` is recorded and null returned. The total size must not
/// overflow and must make a valid layout: where it does not, the kernel stops.
pub fn calloc_safe(heap: &mut Heap, elem: Layout, nmemb: usize) -> (ptr: usize)
    requires
        old(heap).wf(),
        elem.spec_size() > 0,
        nmemb * elem.spec_size() + elem.spec_align() - 1 <= isize::MAX,
    ensures
        final(heap).wf(),
        final(heap)@ == spec_calloc_safe(
            old(heap)@,
            elem.spec_size() as int,
            elem.spec_align() as int,
            nmemb as int,
        ).0,
        ptr == spec_calloc_safe(
            old(heap)@,
            elem.spec_size() as int,
            elem.spec_align() as int,
            nmemb as int,
        ).1,
        ptr == 0 <==> nmemb == 0 || old(heap)@.first_fit(
            nmemb * elem.spec_size(),
            elem.spec_align() as int,
        ) is None,
{
    if nmemb == 0 {
        return 0;
    }
    let size = elem.size();
    let align = elem.align();
    assert(nmemb * size > 0) by (nonlinear_arith)
        requires
            nmemb > 0,
            size > 0,
    ;
    let total = nmemb * size;
    let raw = heap.allocate(total, align);
    if raw == 0 {
        heap.set_errno(ALLOCATION_FAILURE);
        return 0;
    }
    proof {
        lemma_allocate_success(old(heap)@, total as int, align as int);
    }
    let done = heap.fill(raw, total, 0);
    assert(done);
    raw
}

} // verus!
