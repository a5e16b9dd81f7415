//! What holds of the raw heap across calls, stated over the functions that say
//! what each call does.

use crate::c_lib::libc::mem::{
    is_raw, lemma_malloc_success, lemma_raw_frame, lemma_raw_in_region, lemma_same_blocks, min,
    raw_request_ok, spec_calloc, spec_calloc_safe, spec_free, spec_malloc, spec_realloc,
    usable_size,
};
use crate::lib_alloc::heap::{
    fresh, lemma_allocate_success, lemma_first_fit_is, lemma_first_fit_some,
    lemma_live_in_region, lemma_load_frame, lemma_no_fit_no_room, lemma_place_wf,
    lemma_release_live, lemma_release_wf, lemma_same_blocks_wf, lemma_store_load_same,
    repeated, HeapView,
};
use vstd::prelude::*;

verus! {

/// On a heap on which nothing is live, whose base is aligned to the header,
/// `malloc` serves every size from one byte up to the capacity less the
/// header: it returns the address just after the first header word, and the
/// allocation has exactly the size asked for and lies inside the region.
pub proof fn fresh_heap_serves_every_size(base: int, capacity: int, size: int)
    requires
        0 < base,
        base % 8 == 0,
        base + capacity <= usize::MAX,
        1 <= size <= capacity - 8,
        raw_request_ok(size),
    ensures
        ({
            let (h1, ptr) = spec_malloc(fresh(base, capacity), size);
            &&& h1.wf()
            &&& ptr == base + 8
            &&& is_raw(h1, ptr)
            &&& usable_size(h1, ptr) == size
            &&& h1.in_region(ptr, size)
            &&& h1.errno == 0
        }),
{
    let h = fresh(base, capacity);
    assert(h.gap_lo(0) <= h.gap_hi(0));
    assert(h.wf());
    assert(h.fits(0, size + 8, 8));
    assert(h.is_first_fit(0, size + 8, 8));
    lemma_first_fit_is(h, 0, size + 8, 8);
    lemma_malloc_success(h, size);
}

/// `malloc` of a size that is not zero returns null only where the heap has
/// no room: every range that could hold the header and the bytes, aligned to
/// the header and inside the region, overlaps a live block.
pub proof fn null_means_no_room(h: HeapView, size: int, addr: int)
    requires
        h.wf(),
        0 < size,
        spec_malloc(h, size).1 == 0,
        addr % 8 == 0,
        h.in_region(addr, size + 8),
    ensures
        spec_malloc(h, size).0 == h.with_errno(5),
        exists|j: int|
            0 <= j < h.blocks.len() && addr < (#[trigger] h.blocks[j]).start + h.blocks[j].len
                && h.blocks[j].start < addr + size + 8,
{
    if h.first_fit(size + 8, 8) is Some {
        lemma_first_fit_some(h, size + 8, 8);
        lemma_place_wf(h, h.first_fit(size + 8, 8).unwrap(), size + 8, 8);
    }
    lemma_no_fit_no_room(h, size + 8, 8, addr);
}

/// Bytes written inside the region read back as written, and the write
/// touches no byte outside its range, no block and no error code.
pub proof fn write_stays_in_its_range(h: HeapView, addr: int, data: Seq<u8>)
    requires
        h.in_region(addr, data.len() as int),
    ensures
        h.store(addr, data).load(addr, data.len() as int) == data,
        h.store(addr, data).blocks == h.blocks,
        h.store(addr, data).errno == h.errno,
        h.store(addr, data).mem.len() == h.mem.len(),
        forall|k: int|
            0 <= k < h.mem.len() && !(addr - h.base <= k < addr - h.base + data.len())
                ==> h.store(addr, data).mem[k] == h.mem[k],
{
    lemma_store_load_same(h, addr, data);
}

/// After `free(p)` and then `malloc(size)`, every other block that was live is
/// still live and holds the bytes it held, and the new allocation, header
/// included, overlaps none of them: it may only reuse what `free` gave back or
/// what was free before.
pub proof fn free_then_malloc_keeps_others(h: HeapView, p: int, size: int, addr: int, len: int)
    requires
        h.wf(),
        is_raw(h, p),
        h.is_live(addr, len),
        addr != p - 8,
        0 <= size,
        raw_request_ok(size),
    ensures
        ({
            let (h2, q) = spec_malloc(spec_free(h, p), size);
            &&& h2.wf()
            &&& h2.is_live(addr, len)
            &&& h2.load(addr, len) == h.load(addr, len)
            &&& q != 0 ==> addr + len <= q - 8 || q + size <= addr
        }),
{
    lemma_raw_in_region(h, p);
    lemma_live_in_region(h, p - 8, usable_size(h, p) + 8);
    lemma_release_wf(h, p - 8);
    lemma_release_live(h, p - 8, addr, len);
    let h1 = spec_free(h, p);
    let (h2, q) = spec_malloc(h1, size);
    lemma_live_in_region(h, addr, len);
    if q == 0 {
        lemma_same_blocks_wf(h1, h2);
        lemma_same_blocks(h1, h2);
        assert(h2.load(addr, len) =~= h.load(addr, len));
    } else {
        lemma_malloc_success(h1, size);
        assert(h1.load(addr, len) =~= h.load(addr, len));
    }
}

/// `free` ends the allocation it is given, so that it cannot be freed twice,
/// and keeps every other raw allocation with its size and its bytes.
pub proof fn free_ends_the_allocation(h: HeapView, p: int, q: int)
    requires
        h.wf(),
        is_raw(h, p),
    ensures
        spec_free(h, p).wf(),
        !is_raw(spec_free(h, p), p),
        spec_free(h, p).mem == h.mem,
        spec_free(h, p).errno == h.errno,
        q != p && is_raw(h, q) ==> is_raw(spec_free(h, p), q) && usable_size(spec_free(h, p), q)
            == usable_size(h, q),
{
    lemma_raw_in_region(h, p);
    lemma_live_in_region(h, p - 8, usable_size(h, p) + 8);
    lemma_release_wf(h, p - 8);
    let h1 = spec_free(h, p);
    lemma_release_live(h, p - 8, p - 8, usable_size(h1, p) + 8);
    if q != p && is_raw(h, q) {
        lemma_release_live(h, p - 8, q - 8, usable_size(h, q) + 8);
    }
}

/// `calloc` with no elements, or with elements of no size, returns null and
/// records the allocation failure; where it returns an address, the
/// allocation has the size of the product and every byte of it is zero.
pub proof fn calloc_gives_zeroes(h: HeapView, nmemb: int, size: int)
    requires
        h.wf(),
        0 <= nmemb,
        0 <= size,
        nmemb * size <= usize::MAX ==> raw_request_ok(nmemb * size),
    ensures
        ({
            let (h1, ptr) = spec_calloc(h, nmemb, size);
            &&& h1.wf()
            &&& nmemb == 0 || size == 0 ==> ptr == 0 && h1 == h.with_errno(5)
            &&& ptr != 0 ==> {
                &&& is_raw(h1, ptr)
                &&& usable_size(h1, ptr) == nmemb * size
                &&& h1.load(ptr, nmemb * size) == repeated(0, nmemb * size)
            }
        }),
{
    let total = nmemb * size;
    assert(nmemb == 0 || size == 0 ==> total == 0) by (nonlinear_arith)
        requires
            total == nmemb * size,
    ;
    assert(0 <= total) by (nonlinear_arith)
        requires
            total == nmemb * size,
            0 <= nmemb,
            0 <= size,
    ;
    let (h1, ptr) = spec_calloc(h, nmemb, size);
    if ptr == 0 {
        lemma_same_blocks_wf(h, h1);
    } else {
        lemma_malloc_success(h, total);
        let (hm, p) = spec_malloc(h, total);
        let zeros = repeated(0, total);
        lemma_same_blocks_wf(hm, h1);
        lemma_same_blocks(hm, h1);
        lemma_raw_frame(hm, h1, ptr);
        lemma_store_load_same(hm, ptr, zeros);
    }
}

/// `realloc` of the null pointer is `malloc`.
pub proof fn realloc_of_null_is_malloc(h: HeapView, new_size: int)
    ensures
        spec_realloc(h, 0, new_size) == spec_malloc(h, new_size),
{
}

/// `realloc` to size zero frees the allocation and returns null; the block is
/// live no more, and the allocation failure is recorded.
pub proof fn realloc_to_zero_frees(h: HeapView, p: int)
    requires
        h.wf(),
        is_raw(h, p),
    ensures
        spec_realloc(h, p, 0).1 == 0,
        spec_realloc(h, p, 0).0 == spec_free(h, p).with_errno(5),
        spec_realloc(h, p, 0).0.wf(),
        !spec_realloc(h, p, 0).0.is_live(p - 8, usable_size(h, p) + 8),
{
    lemma_raw_in_region(h, p);
    lemma_live_in_region(h, p - 8, usable_size(h, p) + 8);
    lemma_release_wf(h, p - 8);
    lemma_release_live(h, p - 8, p - 8, usable_size(h, p) + 8);
    let a = spec_realloc(h, p, 0).0;
    let b = spec_free(h, p);
    assert(h.with_errno(5).index_of(p - 8) == h.index_of(p - 8));
    assert(a.blocks == b.blocks);
    lemma_same_blocks_wf(b, a);
    if a.is_live(p - 8, usable_size(h, p) + 8) {
        lemma_same_blocks(a, b);
    }
}

/// A `realloc` that returns an address leaves there an allocation of the new
/// size whose first bytes are the old allocation's: all of them where the new
/// size is not below the old, the first `new_size` of them where it is. The
/// old allocation is live no more.
pub proof fn realloc_keeps_the_bytes(h: HeapView, p: int, new_size: int)
    requires
        h.wf(),
        is_raw(h, p),
        0 < new_size,
        raw_request_ok(new_size),
        spec_realloc(h, p, new_size).1 != 0,
    ensures
        ({
            let (h3, q) = spec_realloc(h, p, new_size);
            let n = min(usable_size(h, p), new_size);
            &&& h3.wf()
            &&& is_raw(h3, q)
            &&& usable_size(h3, q) == new_size
            &&& h3.load(q, n) == h.load(p, n)
            &&& !h3.is_live(p - 8, usable_size(h, p) + 8)
            &&& h3.errno == h.errno
        }),
{
    let old_size = usable_size(h, p);
    let n = min(old_size, new_size);
    lemma_raw_in_region(h, p);
    lemma_malloc_success(h, new_size);
    let (h1, q) = spec_malloc(h, new_size);
    let data = h1.load(p, n);
    let h2 = h1.store(q, data);
    let (h3, q3) = spec_realloc(h, p, new_size);
    assert(q3 == q);
    assert(h3 == spec_free(h2, p));
    assert(h.is_live(p - 8, old_size + 8));
    assert(h1.is_live(p - 8, old_size + 8));
    assert(p + old_size <= q - 8 || q + new_size <= p - 8);
    lemma_load_frame(h, h1, p, n);
    lemma_same_blocks_wf(h1, h2);
    lemma_same_blocks(h1, h2);
    lemma_raw_frame(h1, h2, q);
    lemma_store_load_same(h1, q, data);
    lemma_live_in_region(h2, p - 8, old_size + 8);
    lemma_live_in_region(h2, q - 8, new_size + 8);
    lemma_release_wf(h2, p - 8);
    lemma_release_live(h2, p - 8, q - 8, new_size + 8);
    lemma_release_live(h2, p - 8, p - 8, old_size + 8);
    assert(h3.mem == h2.mem);
    assert(h3.load(q - 8, 8) == h2.load(q - 8, 8));
    assert(h3.load(q, n) == h2.load(q, n));
}

/// No call of the raw family clears the last error: each leaves it as it was
/// or records the allocation failure.
pub proof fn errno_is_kept_or_set_to_failure(
    h: HeapView,
    ptr: int,
    size: int,
    nmemb: int,
)
    requires
        h.wf(),
        0 <= size,
        0 <= nmemb,
        raw_request_ok(size),
        nmemb * size <= usize::MAX ==> raw_request_ok(nmemb * size),
    ensures
        spec_malloc(h, size).0.errno == h.errno || spec_malloc(h, size).0.errno == 5,
        spec_free(h, ptr).errno == h.errno || spec_free(h, ptr).errno == 5,
        spec_calloc(h, nmemb, size).0.errno == h.errno || spec_calloc(h, nmemb, size).0.errno == 5,
        spec_realloc(h, ptr, size).0.errno == h.errno || spec_realloc(h, ptr, size).0.errno == 5,
        spec_malloc(h, size).1 == 0 ==> spec_malloc(h, size).0.errno == 5,
        spec_calloc(h, nmemb, size).1 == 0 ==> spec_calloc(h, nmemb, size).0.errno == 5,
        ptr != 0 && spec_realloc(h, ptr, size).1 == 0 ==> spec_realloc(h, ptr, size).0.errno == 5,
{
    if size > 0 && h.first_fit(size + 8, 8) is Some {
        lemma_malloc_success(h, size);
    }
    let total = nmemb * size;
    assert(0 <= total) by (nonlinear_arith)
        requires
            total == nmemb * size,
            0 <= nmemb,
            0 <= size,
    ;
    if 0 < total <= usize::MAX && h.first_fit(total + 8, 8) is Some {
        lemma_malloc_success(h, total);
    }
}

/// A `calloc_safe` that returns an address leaves there a live block of the
/// total size, inside the region, whose every byte is zero.
pub proof fn calloc_safe_gives_zeroes(h: HeapView, size: int, align: int, nmemb: int)
    requires
        h.wf(),
        0 < size,
        0 < align,
        0 <= nmemb,
        spec_calloc_safe(h, size, align, nmemb).1 != 0,
    ensures
        ({
            let (h1, ptr) = spec_calloc_safe(h, size, align, nmemb);
            &&& h1.wf()
            &&& ptr % align == 0
            &&& h1.is_live(ptr, nmemb * size)
            &&& h1.load(ptr, nmemb * size) == repeated(0, nmemb * size)
            &&& h1.errno == h.errno
        }),
{
    let total = nmemb * size;
    assert(total > 0) by (nonlinear_arith)
        requires
            total == nmemb * size,
            0 < size,
            0 < nmemb,
    ;
    lemma_allocate_success(h, total, align);
    let (ha, ptr) = h.allocate(total, align);
    let h1 = spec_calloc_safe(h, size, align, nmemb).0;
    lemma_same_blocks_wf(ha, h1);
    lemma_same_blocks(ha, h1);
    lemma_store_load_same(ha, ptr, repeated(0, total));
}

/// A `realloc_safe` leaves at the address it returns a live block of the same
/// size with the bytes of the old block, which is live no more.
pub proof fn realloc_safe_keeps_the_bytes(h: HeapView, ptr: int, size: int, align: int)
    requires
        h.wf(),
        0 < align,
        h.is_live(ptr, size),
        h.first_fit(size, align) is Some,
    ensures
        ({
            let (h3, q) = h.reallocate(ptr, size, align, size);
            &&& h3.wf()
            &&& q != 0
            &&& q != ptr
            &&& q % align == 0
            &&& h3.is_live(q, size)
            &&& !h3.is_live(ptr, size)
            &&& h3.load(q, size) == h.load(ptr, size)
            &&& h3.errno == h.errno
        }),
{
    lemma_live_in_region(h, ptr, size);
    lemma_allocate_success(h, size, align);
    let (h1, q) = h.allocate(size, align);
    let h2 = h1.store(q, h1.load(ptr, size));
    lemma_same_blocks_wf(h1, h2);
    lemma_same_blocks(h1, h2);
    lemma_store_load_same(h1, q, h1.load(ptr, size));
    lemma_live_in_region(h2, ptr, size);
    lemma_release_wf(h2, ptr);
    lemma_release_live(h2, ptr, q, size);
    lemma_release_live(h2, ptr, ptr, size);
    let h3 = h2.release(ptr);
    assert(h3.load(q, size) == h2.load(q, size));
}

} // verus!
