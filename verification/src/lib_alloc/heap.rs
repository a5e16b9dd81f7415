//! A heap region with its backing allocator.
//!
//! The region is a run of bytes starting at a non-zero base address. The backing
//! allocator hands out blocks of it by first fit: it keeps the live blocks in
//! address order and places a request in the first gap between them that can
//! hold it at the requested alignment. Address `0` is the null pointer and never
//! lies in a region.

use vstd::bytes::*;
use vstd::prelude::*;
use vstd::slice::slice_subrange;

verus! {

/// A live block of the region: its first address and its length in bytes.
#[derive(Clone, Copy, Debug, PartialEq, Eq, Structural)]
pub struct Block {
    pub start: usize,
    pub len: usize,
}

/// The mathematical state of a heap: where the region starts, what every byte
/// of it holds, which blocks are live (in address order), and the last error.
pub struct HeapView {
    pub base: int,
    pub mem: Seq<u8>,
    pub blocks: Seq<Block>,
    pub errno: int,
}

/// The least multiple of `align` that is not below `x`.
pub open spec fn align_up(x: int, align: int) -> int {
    if x % align == 0 {
        x
    } else {
        x + align - x % align
    }
}

impl HeapView {
    /// One past the last address of the region.
    pub open spec fn limit(self) -> int {
        self.base + self.mem.len()
    }

    /// Where gap `i` begins: the region's base, or the end of block `i - 1`.
    pub open spec fn gap_lo(self, i: int) -> int {
        if i == 0 {
            self.base
        } else {
            self.blocks[i - 1].start + self.blocks[i - 1].len
        }
    }

    /// Where gap `i` ends: the start of block `i`, or the region's limit.
    pub open spec fn gap_hi(self, i: int) -> int {
        if i == self.blocks.len() {
            self.limit()
        } else {
            self.blocks[i].start as int
        }
    }

    /// The region is addressable and does not hold address 0, and the live
    /// blocks are non-empty, in address order, disjoint and inside the region.
    pub open spec fn wf(self) -> bool {
        &&& 0 < self.base
        &&& self.limit() <= usize::MAX
        &&& i32::MIN <= self.errno <= i32::MAX
        &&& forall|i: int| 0 <= i < self.blocks.len() ==> (#[trigger] self.blocks[i]).len > 0
        &&& forall|i: int| 0 <= i <= self.blocks.len() ==> #[trigger] self.gap_lo(i) <= self.gap_hi(i)
    }

    /// `[addr, addr + n)` lies inside the region.
    pub open spec fn in_region(self, addr: int, n: int) -> bool {
        self.base <= addr && 0 <= n && addr + n <= self.limit()
    }

    /// A block of `len` bytes starting at `addr` is live.
    pub open spec fn is_live(self, addr: int, len: int) -> bool {
        exists|i: int| 0 <= i < self.blocks.len() && self.is_block_at(i, addr, len)
    }

    /// Block `i` starts at `addr` and is `len` bytes long.
    pub open spec fn is_block_at(self, i: int, addr: int, len: int) -> bool {
        self.blocks[i].start == addr && self.blocks[i].len == len
    }

    /// The address at which a request aligned to `align` would start in gap `i`.
    pub open spec fn candidate(self, i: int, align: int) -> int {
        align_up(self.gap_lo(i), align)
    }

    /// Gap `i` can hold `size` bytes aligned to `align`.
    pub open spec fn fits(self, i: int, size: int, align: int) -> bool {
        0 <= i <= self.blocks.len() && self.candidate(i, align) + size <= self.gap_hi(i)
    }

    /// Gap `i` is the first that can hold the request.
    pub open spec fn is_first_fit(self, i: int, size: int, align: int) -> bool {
        self.fits(i, size, align) && forall|j: int| 0 <= j < i ==> !self.fits(j, size, align)
    }

    /// The first gap that can hold the request, if there is one.
    pub open spec fn first_fit(self, size: int, align: int) -> Option<int> {
        if exists|i: int| self.is_first_fit(i, size, align) {
            Some(choose|i: int| self.is_first_fit(i, size, align))
        } else {
            None
        }
    }

    /// The state after a block of `size` bytes is placed in gap `i`.
    pub open spec fn place(self, i: int, size: int, align: int) -> HeapView {
        HeapView {
            blocks: self.blocks.insert(
                i,
                Block { start: self.candidate(i, align) as usize, len: size as usize },
            ),
            ..self
        }
    }

    /// What the backing allocator's `allocate` does and returns: a request of
    /// zero bytes, or one that no gap can hold, changes nothing and gives null.
    pub open spec fn allocate(self, size: int, align: int) -> (HeapView, int) {
        if size == 0 {
            (self, 0)
        } else {
            match self.first_fit(size, align) {
                Some(i) => (self.place(i, size, align), self.candidate(i, align)),
                None => (self, 0),
            }
        }
    }

    /// What the backing allocator's `reallocate` does and returns: it places a
    /// new block, copies the bytes that both sizes cover and gives the old
    /// block back; where the new block cannot be placed it changes nothing
    /// and gives null.
    pub open spec fn reallocate(self, addr: int, old_size: int, align: int, new_size: int) -> (
        HeapView,
        int,
    ) {
        let (h1, new_addr) = self.allocate(new_size, align);
        if new_addr == 0 {
            (self, 0)
        } else {
            let n = if old_size <= new_size {
                old_size
            } else {
                new_size
            };
            (h1.store(new_addr, h1.load(addr, n)).release(addr), new_addr)
        }
    }

    /// The index of the live block that starts at `addr`.
    pub open spec fn index_of(self, addr: int) -> int {
        choose|i: int| 0 <= i < self.blocks.len() && self.blocks[i].start == addr
    }

    /// The state after the block that starts at `addr` is given back.
    pub open spec fn release(self, addr: int) -> HeapView {
        HeapView { blocks: self.blocks.remove(self.index_of(addr)), ..self }
    }

    /// The `n` bytes that start at `addr`.
    pub open spec fn load(self, addr: int, n: int) -> Seq<u8> {
        self.mem.subrange(addr - self.base, addr - self.base + n)
    }

    /// The state after `data` is written at `addr`; every other byte keeps its
    /// value.
    pub open spec fn store(self, addr: int, data: Seq<u8>) -> HeapView {
        HeapView {
            mem: Seq::new(
                self.mem.len(),
                |k: int|
                    if addr - self.base <= k < addr - self.base + data.len() {
                        data[k - (addr - self.base)]
                    } else {
                        self.mem[k]
                    },
            ),
            ..self
        }
    }

    /// The state after `code` is recorded as the last error.
    pub open spec fn with_errno(self, code: int) -> HeapView {
        HeapView { errno: code, ..self }
    }
}

/// `n` bytes of value `byte`.
pub open spec fn repeated(byte: u8, n: int) -> Seq<u8> {
    Seq::new(n as nat, |k: int| byte)
}

/// The state of a heap of `size` zero bytes at `base` on which nothing has
/// happened yet.
pub open spec fn fresh(base: int, size: int) -> HeapView {
    HeapView { base, mem: repeated(0, size), blocks: Seq::empty(), errno: 0 }
}

/// Live blocks are in address order: an earlier one ends before a later one
/// starts.
pub proof fn lemma_ordered(h: HeapView, i: int, j: int)
    requires
        h.wf(),
        0 <= i < j < h.blocks.len(),
    ensures
        h.blocks[i].start + h.blocks[i].len <= h.blocks[j].start,
    decreases j - i,
{
    assert(h.gap_lo(j) <= h.gap_hi(j));
    if j > i + 1 {
        lemma_ordered(h, i, j - 1);
        assert(h.blocks[j - 1].len > 0);
    }
}

/// Every live block lies inside the region.
pub proof fn lemma_block_in_region(h: HeapView, i: int)
    requires
        h.wf(),
        0 <= i < h.blocks.len(),
    ensures
        h.in_region(h.blocks[i].start as int, h.blocks[i].len as int),
{
    let n = h.blocks.len() as int;
    assert(h.gap_lo(0) <= h.gap_hi(0));
    assert(h.gap_lo(n) <= h.gap_hi(n));
    assert(h.blocks[0].len > 0);
    assert(h.blocks[n - 1].len > 0);
    if 0 < i {
        lemma_ordered(h, 0, i);
    }
    if i < n - 1 {
        lemma_ordered(h, i, n - 1);
    }
}

/// No two live blocks start at the same address.
pub proof fn lemma_start_unique(h: HeapView, i: int, j: int)
    requires
        h.wf(),
        0 <= i < h.blocks.len(),
        0 <= j < h.blocks.len(),
        h.blocks[i].start == h.blocks[j].start,
    ensures
        i == j,
{
    assert(h.blocks[i].len > 0);
    assert(h.blocks[j].len > 0);
    if i < j {
        lemma_ordered(h, i, j);
    }
    if j < i {
        lemma_ordered(h, j, i);
    }
}

/// The gap that is the first fit is the one `first_fit` names.
pub proof fn lemma_first_fit_is(h: HeapView, i: int, size: int, align: int)
    requires
        h.is_first_fit(i, size, align),
    ensures
        h.first_fit(size, align) == Some(i),
{
    let k = choose|k: int| h.is_first_fit(k, size, align);
    assert(h.is_first_fit(k, size, align));
    if k < i {
        assert(!h.fits(k, size, align));
    }
    if i < k {
        assert(!h.fits(i, size, align));
    }
}

/// Where no gap can hold the request there is no first fit.
pub proof fn lemma_no_fit(h: HeapView, size: int, align: int)
    requires
        forall|j: int| 0 <= j <= h.blocks.len() ==> !h.fits(j, size, align),
    ensures
        h.first_fit(size, align) is None,
{
    assert forall|i: int| !h.is_first_fit(i, size, align) by {
        if h.is_first_fit(i, size, align) {
            assert(h.fits(i, size, align));
        }
    }
}

/// What `first_fit` names is a first fit.
pub proof fn lemma_first_fit_some(h: HeapView, size: int, align: int)
    requires
        h.first_fit(size, align) is Some,
    ensures
        h.is_first_fit(h.first_fit(size, align).unwrap(), size, align),
{
}

/// `align_up` does not go below its argument and stays within one alignment
/// step of it.
pub proof fn lemma_align_up(x: int, align: int)
    requires
        0 <= x,
        0 < align,
    ensures
        x <= align_up(x, align) < x + align,
        align_up(x, align) % align == 0,
{
    let r = x % align;
    assert(0 <= r < align);
    if r != 0 {
        assert((x + align - r) % align == 0) by (nonlinear_arith)
            requires
                r == x % align,
                0 < align,
                0 <= x,
        ;
    }
}

/// Placing a block in a gap that can hold it keeps the heap well-formed.
pub proof fn lemma_place_wf(h: HeapView, i: int, size: int, align: int)
    requires
        h.wf(),
        h.fits(i, size, align),
        0 < size,
        0 < align,
    ensures
        h.place(i, size, align).wf(),
        h.place(i, size, align).blocks[i].start == h.candidate(i, align),
        h.place(i, size, align).blocks[i].len == size,
        h.gap_lo(i) <= h.candidate(i, align),
        h.candidate(i, align) + size <= h.gap_hi(i),
        h.in_region(h.candidate(i, align), size),
{
    let p = h.place(i, size, align);
    let n = h.blocks.len() as int;
    assert(h.gap_lo(i) <= h.gap_hi(i));
    assert(h.gap_lo(0) <= h.gap_hi(0));
    assert(h.gap_lo(n) <= h.gap_hi(n));
    if 0 < i {
        lemma_block_in_region(h, i - 1);
    }
    if i < n {
        lemma_block_in_region(h, i);
    }
    lemma_align_up(h.gap_lo(i), align);
    let c = h.candidate(i, align);
    assert(h.gap_lo(i) <= c);
    assert(c + size <= h.gap_hi(i) <= usize::MAX);
    assert(p.blocks.len() == n + 1);
    assert(p.blocks[i] == Block { start: c as usize, len: size as usize });
    assert forall|k: int| 0 <= k < p.blocks.len() implies (#[trigger] p.blocks[k]).len > 0 by {
        if k < i {
            assert(p.blocks[k] == h.blocks[k]);
        } else if k > i {
            assert(p.blocks[k] == h.blocks[k - 1]);
        }
    }
    assert forall|k: int| 0 <= k <= p.blocks.len() implies #[trigger] p.gap_lo(k) <= p.gap_hi(k) by {
        if k < i {
            assert(h.gap_lo(k) <= h.gap_hi(k));
            if k > 0 {
                assert(p.blocks[k - 1] == h.blocks[k - 1]);
            }
            assert(p.blocks[k] == h.blocks[k]);
        } else if k == i {
            if k > 0 {
                assert(p.blocks[k - 1] == h.blocks[k - 1]);
            }
        } else if k == i + 1 {
            if k < n + 1 {
                assert(p.blocks[k] == h.blocks[k - 1]);
            }
        } else {
            assert(h.gap_lo(k - 1) <= h.gap_hi(k - 1));
            assert(p.blocks[k - 1] == h.blocks[k - 2]);
            if k < n + 1 {
                assert(p.blocks[k] == h.blocks[k - 1]);
            }
        }
    }
}

/// Giving a live block back keeps the heap well-formed.
pub proof fn lemma_release_wf(h: HeapView, addr: int)
    requires
        h.wf(),
        exists|i: int| 0 <= i < h.blocks.len() && h.blocks[i].start == addr,
    ensures
        h.release(addr).wf(),
        0 <= h.index_of(addr) < h.blocks.len(),
        h.blocks[h.index_of(addr)].start == addr,
{
    let i = h.index_of(addr);
    let p = h.release(addr);
    let n = h.blocks.len() as int;
    assert(p.blocks.len() == n - 1);
    assert(h.blocks[i].len > 0);
    assert forall|k: int| 0 <= k < p.blocks.len() implies (#[trigger] p.blocks[k]).len > 0 by {
        if k < i {
            assert(p.blocks[k] == h.blocks[k]);
        } else {
            assert(p.blocks[k] == h.blocks[k + 1]);
        }
    }
    assert forall|k: int| 0 <= k <= p.blocks.len() implies #[trigger] p.gap_lo(k) <= p.gap_hi(k) by {
        if k < i {
            assert(h.gap_lo(k) <= h.gap_hi(k));
            if k > 0 {
                assert(p.blocks[k - 1] == h.blocks[k - 1]);
            }
            assert(p.blocks[k] == h.blocks[k]);
        } else if k == i {
            assert(h.gap_lo(i) <= h.gap_hi(i));
            assert(h.gap_lo(i + 1) <= h.gap_hi(i + 1));
            if k > 0 {
                assert(p.blocks[k - 1] == h.blocks[k - 1]);
            }
            if k < n - 1 {
                assert(p.blocks[k] == h.blocks[k + 1]);
            }
        } else {
            assert(h.gap_lo(k + 1) <= h.gap_hi(k + 1));
            assert(p.blocks[k - 1] == h.blocks[k]);
            if k < n - 1 {
                assert(p.blocks[k] == h.blocks[k + 1]);
            }
        }
    }
}

/// A block placed in a gap overlaps no block that was live before.
pub proof fn lemma_place_disjoint(h: HeapView, i: int, size: int, align: int, j: int)
    requires
        h.wf(),
        h.fits(i, size, align),
        0 < size,
        0 < align,
        0 <= j < h.blocks.len(),
    ensures
        h.blocks[j].start + h.blocks[j].len <= h.candidate(i, align) || h.candidate(i, align)
            + size <= h.blocks[j].start,
{
    lemma_place_wf(h, i, size, align);
    assert(h.blocks[j].len > 0);
    if j < i {
        if j < i - 1 {
            lemma_ordered(h, j, i - 1);
            assert(h.blocks[i - 1].len > 0);
        }
    } else {
        if i < j {
            lemma_ordered(h, i, j);
            assert(h.blocks[i].len > 0);
        }
    }
}

/// A block that was live stays live when another is placed.
pub proof fn lemma_place_live(h: HeapView, i: int, size: int, align: int, addr: int, len: int)
    requires
        0 <= i <= h.blocks.len(),
        h.is_live(addr, len),
    ensures
        h.place(i, size, align).is_live(addr, len),
{
    let k = choose|k: int| 0 <= k < h.blocks.len() && h.is_block_at(k, addr, len);
    let p = h.place(i, size, align);
    if k < i {
        assert(p.blocks[k] == h.blocks[k]);
        assert(p.is_block_at(k, addr, len));
    } else {
        assert(p.blocks[k + 1] == h.blocks[k]);
        assert(p.is_block_at(k + 1, addr, len));
    }
}

/// A live block stays live when a block with another start is given back, and
/// the block given back is live no more.
pub proof fn lemma_release_live(h: HeapView, gone: int, addr: int, len: int)
    requires
        h.wf(),
        exists|i: int| 0 <= i < h.blocks.len() && h.blocks[i].start == gone,
    ensures
        addr != gone ==> (h.release(gone).is_live(addr, len) <==> h.is_live(addr, len)),
        addr == gone ==> !h.release(gone).is_live(addr, len),
{
    lemma_release_wf(h, gone);
    let g = h.index_of(gone);
    let p = h.release(gone);
    if h.is_live(addr, len) && addr != gone {
        let k = choose|k: int| 0 <= k < h.blocks.len() && h.is_block_at(k, addr, len);
        if k < g {
            assert(p.blocks[k] == h.blocks[k]);
            assert(p.is_block_at(k, addr, len));
        } else {
            assert(p.blocks[k - 1] == h.blocks[k]);
            assert(p.is_block_at(k - 1, addr, len));
        }
    }
    if p.is_live(addr, len) {
        let k = choose|k: int| 0 <= k < p.blocks.len() && p.is_block_at(k, addr, len);
        if k < g {
            assert(p.blocks[k] == h.blocks[k]);
            assert(h.is_block_at(k, addr, len));
            if addr == gone {
                lemma_start_unique(h, k, g);
            }
        } else {
            assert(p.blocks[k] == h.blocks[k + 1]);
            assert(h.is_block_at(k + 1, addr, len));
            if addr == gone {
                lemma_start_unique(h, k + 1, g);
            }
        }
    }
}

/// Bytes read back from where they were written are the bytes written.
pub proof fn lemma_store_load_same(h: HeapView, addr: int, data: Seq<u8>)
    requires
        h.in_region(addr, data.len() as int),
    ensures
        h.store(addr, data).load(addr, data.len() as int) == data,
{
    assert(h.store(addr, data).load(addr, data.len() as int) =~= data);
}

/// A write leaves every byte outside its range as it was.
pub proof fn lemma_store_load_other(h: HeapView, addr: int, data: Seq<u8>, other: int, n: int)
    requires
        h.in_region(other, n),
        other + n <= addr || addr + data.len() <= other,
    ensures
        h.store(addr, data).load(other, n) == h.load(other, n),
{
    assert(h.store(addr, data).load(other, n) =~= h.load(other, n));
}

/// Two states that agree on a range of bytes load the same bytes from it.
pub proof fn lemma_load_frame(a: HeapView, b: HeapView, addr: int, n: int)
    requires
        a.base == b.base,
        a.mem.len() == b.mem.len(),
        a.in_region(addr, n),
        forall|k: int| addr - a.base <= k < addr - a.base + n ==> a.mem[k] == b.mem[k],
    ensures
        a.load(addr, n) == b.load(addr, n),
{
    assert(a.load(addr, n) =~= b.load(addr, n));
}

/// A successful `allocate` keeps the heap well-formed, leaves every byte as it
/// was, keeps every live block live, and places the new block inside the
/// region, at an aligned address, where it overlaps none of them.
pub proof fn lemma_allocate_success(h: HeapView, size: int, align: int)
    requires
        h.wf(),
        0 < size,
        0 < align,
        h.first_fit(size, align) is Some,
    ensures
        ({
            let (h1, addr) = h.allocate(size, align);
            &&& h1.wf()
            &&& addr != 0
            &&& addr % align == 0
            &&& h1.is_live(addr, size)
            &&& h1.in_region(addr, size)
            &&& h1.mem == h.mem
            &&& h1.base == h.base
            &&& h1.errno == h.errno
            &&& forall|a: int, len: int| #[trigger]
                h.is_live(a, len) ==> {
                    &&& h1.is_live(a, len)
                    &&& h.in_region(a, len)
                    &&& a + len <= addr || addr + size <= a
                }
        }),
{
    lemma_first_fit_some(h, size, align);
    let i = h.first_fit(size, align).unwrap();
    let (h1, addr) = h.allocate(size, align);
    lemma_place_wf(h, i, size, align);
    lemma_align_up(h.gap_lo(i), align);
    assert(h1.is_block_at(i, addr, size));
    assert forall|a: int, len: int| #[trigger] h.is_live(a, len) implies {
        &&& h1.is_live(a, len)
        &&& h.in_region(a, len)
        &&& a + len <= addr || addr + size <= a
    } by {
        lemma_place_live(h, i, size, align, a, len);
        let j = choose|j: int| 0 <= j < h.blocks.len() && h.is_block_at(j, a, len);
        lemma_place_disjoint(h, i, size, align, j);
        lemma_block_in_region(h, j);
    }
}

/// A state that differs from a well-formed one only in its bytes and its
/// error code is well-formed.
pub proof fn lemma_same_blocks_wf(a: HeapView, b: HeapView)
    requires
        a.wf(),
        a.blocks == b.blocks,
        a.base == b.base,
        a.mem.len() == b.mem.len(),
        i32::MIN <= b.errno <= i32::MAX,
    ensures
        b.wf(),
{
    assert forall|i: int| 0 <= i <= b.blocks.len() implies #[trigger] b.gap_lo(i) <= b.gap_hi(
        i,
    ) by {
        assert(a.gap_lo(i) <= a.gap_hi(i));
    }
}

/// `align_up` gives the least multiple of `align` that is not below `x`.
pub proof fn lemma_align_up_least(x: int, align: int, a: int)
    requires
        0 <= x <= a,
        0 < align,
        a % align == 0,
    ensures
        align_up(x, align) <= a,
{
    let r = x % align;
    if r != 0 {
        let q = x / align;
        let k = a / align;
        vstd::arithmetic::div_mod::lemma_fundamental_div_mod(x, align);
        vstd::arithmetic::div_mod::lemma_fundamental_div_mod(a, align);
        assert(0 < r < align);
        assert(q + 1 <= k) by (nonlinear_arith)
            requires
                x == align * q + r,
                a == align * k,
                0 < r,
                x <= a,
                0 < align,
        ;
        assert(align * (q + 1) <= align * k) by (nonlinear_arith)
            requires
                q + 1 <= k,
                0 < align,
        ;
        assert(align * (q + 1) == align * q + align) by (nonlinear_arith);
    }
}

/// Where some gap can hold a request, some gap is the first to hold it.
pub proof fn lemma_fits_has_first(h: HeapView, size: int, align: int, k: int)
    requires
        h.fits(k, size, align),
    ensures
        h.first_fit(size, align) is Some,
    decreases k,
{
    if forall|j: int| 0 <= j < k ==> !h.fits(j, size, align) {
        assert(h.is_first_fit(k, size, align));
    } else {
        let j = choose|j: int| 0 <= j < k && h.fits(j, size, align);
        lemma_fits_has_first(h, size, align, j);
    }
}

/// An aligned range inside the region that overlaps no live block lies in a
/// gap that can hold it.
proof fn lemma_room_fits(h: HeapView, size: int, align: int, addr: int, i: int)
    requires
        h.wf(),
        0 < size,
        0 < align,
        addr % align == 0,
        h.in_region(addr, size),
        0 <= i <= h.blocks.len(),
        h.gap_lo(i) <= addr,
        forall|j: int|
            0 <= j < h.blocks.len() ==> (#[trigger] h.blocks[j]).start + h.blocks[j].len <= addr
                || addr + size <= h.blocks[j].start,
    ensures
        h.first_fit(size, align) is Some,
    decreases h.blocks.len() - i,
{
    if i == h.blocks.len() || h.blocks[i].start >= addr + size {
        lemma_align_up_least(h.gap_lo(i), align, addr);
        assert(h.fits(i, size, align));
        lemma_fits_has_first(h, size, align, i);
    } else {
        assert(h.blocks[i].start + h.blocks[i].len <= addr);
        lemma_room_fits(h, size, align, addr, i + 1);
    }
}

/// Where no gap can hold a request, there is no room for it at all: every
/// aligned range of its size inside the region overlaps a live block.
pub proof fn lemma_no_fit_no_room(h: HeapView, size: int, align: int, addr: int)
    requires
        h.wf(),
        0 < size,
        0 < align,
        h.first_fit(size, align) is None,
        addr % align == 0,
        h.in_region(addr, size),
    ensures
        exists|j: int|
            0 <= j < h.blocks.len() && addr < (#[trigger] h.blocks[j]).start + h.blocks[j].len
                && h.blocks[j].start < addr + size,
{
    if forall|j: int|
        0 <= j < h.blocks.len() ==> (#[trigger] h.blocks[j]).start + h.blocks[j].len <= addr
            || addr + size <= h.blocks[j].start {
        lemma_room_fits(h, size, align, addr, 0);
    }
}

/// A live block lies inside the region, and no other live block starts where
/// it starts.
pub proof fn lemma_live_in_region(h: HeapView, addr: int, len: int)
    requires
        h.wf(),
        h.is_live(addr, len),
    ensures
        h.in_region(addr, len),
        0 < len,
        exists|i: int| 0 <= i < h.blocks.len() && h.blocks[i].start == addr,
        forall|other: int| h.is_live(addr, other) ==> other == len,
{
    let j = choose|j: int| 0 <= j < h.blocks.len() && h.is_block_at(j, addr, len);
    lemma_block_in_region(h, j);
    assert forall|other: int| h.is_live(addr, other) implies other == len by {
        let k = choose|k: int| 0 <= k < h.blocks.len() && h.is_block_at(k, addr, other);
        lemma_start_unique(h, j, k);
    }
}

/// A heap region: its bytes, the backing allocator's record of the live
/// blocks, and the slot that holds the last error code.
pub struct Heap {
    base: usize,
    mem: Vec<u8>,
    blocks: Vec<Block>,
    errno: i32,
}

impl View for Heap {
    type V = HeapView;

    closed spec fn view(&self) -> HeapView {
        HeapView {
            base: self.base as int,
            mem: self.mem@,
            blocks: self.blocks@,
            errno: self.errno as int,
        }
    }
}

/// Where a request of `size` bytes aligned to `align` starts in the gap
/// `[lo, hi)`, if the gap can hold it.
fn gap_fit(lo: usize, hi: usize, size: usize, align: usize) -> (start: Option<usize>)
    requires
        lo <= hi,
        0 < align,
    ensures
        start is Some <==> align_up(lo as int, align as int) + size <= hi,
        start is Some ==> start.unwrap() == align_up(lo as int, align as int),
{
    let r = lo % align;
    let pad = if r == 0 {
        0
    } else {
        align - r
    };
    if pad <= hi - lo && size <= hi - lo - pad {
        Some(lo + pad)
    } else {
        None
    }
}

impl Heap {
    /// The heap's state is well-formed.
    pub open spec fn wf(&self) -> bool {
        self@.wf()
    }

    /// A heap of `size` zero bytes whose first address is `base`, with no live
    /// block and no error recorded. There is none where `base` is the null
    /// address or the region would pass the end of the address space.
    pub fn new(base: usize, size: usize) -> (heap: Option<Heap>)
        ensures
            heap is Some <==> 0 < base && base + size <= usize::MAX,
            heap is Some ==> heap.unwrap().wf() && heap.unwrap()@ == fresh(base as int, size as int),
    {
        if base == 0 || size > usize::MAX - base {
            return None;
        }
        let mut mem: Vec<u8> = Vec::new();
        let mut k: usize = 0;
        while k < size
            invariant
                k <= size,
                mem@ =~= repeated(0, k as int),
            decreases size - k,
        {
            mem.push(0u8);
            k += 1;
        }
        let heap = Heap { base, mem, blocks: Vec::new(), errno: 0 };
        proof {
            assert(heap@.blocks =~= Seq::<Block>::empty());
            assert(heap@.gap_lo(0) <= heap@.gap_hi(0));
        }
        Some(heap)
    }

    /// The first address of the region.
    pub fn base(&self) -> (base: usize)
        ensures
            base == self@.base,
    {
        self.base
    }

    /// The number of bytes in the region.
    pub fn capacity(&self) -> (size: usize)
        ensures
            size == self@.mem.len(),
    {
        self.mem.len()
    }

    /// The last error code recorded.
    pub fn errno(&self) -> (code: i32)
        ensures
            code == self@.errno,
    {
        self.errno
    }

    /// Records `code` as the last error; nothing else changes.
    pub fn set_errno(&mut self, code: i32)
        ensures
            final(self)@ == old(self)@.with_errno(code as int),
            old(self).wf() ==> final(self).wf(),
    {
        self.errno = code;
        proof {
            if old(self).wf() {
                let a = old(self)@;
                let b = self@;
                assert forall|i: int| 0 <= i <= b.blocks.len() implies #[trigger] b.gap_lo(i)
                    <= b.gap_hi(i) by {
                    assert(a.gap_lo(i) <= a.gap_hi(i));
                }
            }
        }
    }

    /// Searches for the first gap that can hold `size` bytes aligned to `align`
    /// and returns its index with the address at which the block would start.
    pub fn find_fit(&self, size: usize, align: usize) -> (found: Option<(usize, usize)>)
        requires
            self.wf(),
            0 < align,
            0 < size,
        ensures
            found is Some <==> self@.first_fit(size as int, align as int) is Some,
            found is Some ==> self@.first_fit(size as int, align as int) == Some(
                found.unwrap().0 as int,
            ) && found.unwrap().1 == self@.candidate(found.unwrap().0 as int, align as int)
                && found.unwrap().0 <= self@.blocks.len(),
    {
        let n = self.blocks.len();
        let mut i: usize = 0;
        let mut lo: usize = self.base;
        while i < n
            invariant
                self.wf(),
                n == self.blocks@.len(),
                0 <= i <= n,
                lo == self@.gap_lo(i as int),
                0 < align,
                0 < size,
                forall|j: int| 0 <= j < i ==> !self@.fits(j, size as int, align as int),
            decreases n - i,
        {
            let hi = self.blocks[i].start;
            proof {
                assert(self@.gap_lo(i as int) <= self@.gap_hi(i as int));
                assert(self@.gap_lo(i + 1) <= self@.gap_hi(i + 1));
            }
            match gap_fit(lo, hi, size, align) {
                Some(start) => {
                    proof {
                        assert(self@.is_first_fit(i as int, size as int, align as int));
                        lemma_first_fit_is(self@, i as int, size as int, align as int);
                    }
                    return Some((i, start));
                },
                None => {},
            }
            lo = self.blocks[i].start + self.blocks[i].len;
            i += 1;
        }
        let hi = self.base + self.mem.len();
        proof {
            assert(self@.gap_lo(n as int) <= self@.gap_hi(n as int));
        }
        match gap_fit(lo, hi, size, align) {
            Some(start) => {
                proof {
                    assert(self@.is_first_fit(n as int, size as int, align as int));
                    lemma_first_fit_is(self@, n as int, size as int, align as int);
                }
                Some((n, start))
            },
            None => {
                proof {
                    lemma_no_fit(self@, size as int, align as int);
                }
                None
            },
        }
    }

    /// The backing allocator's `allocate`: places `size` bytes aligned to
    /// `align` in the first gap that can hold them and returns the block's
    /// address. Returns null, and changes nothing, where `size` is zero or no
    /// gap can hold the request.
    pub fn allocate(&mut self, size: usize, align: usize) -> (addr: usize)
        requires
            old(self).wf(),
            0 < align,
        ensures
            final(self).wf(),
            final(self)@ == old(self)@.allocate(size as int, align as int).0,
            addr == old(self)@.allocate(size as int, align as int).1,
            addr == 0 <==> size == 0 || old(self)@.first_fit(size as int, align as int) is None,
    {
        if size == 0 {
            return 0;
        }
        match self.find_fit(size, align) {
            Some((i, start)) => {
                proof {
                    lemma_first_fit_some(self@, size as int, align as int);
                    lemma_place_wf(self@, i as int, size as int, align as int);
                }
                self.blocks.insert(i, Block { start, len: size });
                start
            },
            None => 0,
        }
    }

    /// The backing allocator's `deallocate`: gives back the live block of
    /// `size` bytes that starts at `addr`. The bytes keep their values.
    pub fn deallocate(&mut self, addr: usize, size: usize)
        requires
            old(self).wf(),
            old(self)@.is_live(addr as int, size as int),
        ensures
            final(self).wf(),
            final(self)@ == old(self)@.release(addr as int),
    {
        let ghost k = choose|k: int|
            0 <= k < self@.blocks.len() && self@.is_block_at(k, addr as int, size as int);
        let n = self.blocks.len();
        let mut i: usize = 0;
        while self.blocks[i].start != addr
            invariant
                *self == *old(self),
                n == self.blocks@.len(),
                self.wf(),
                0 <= i <= k < self.blocks@.len(),
                self.blocks@[k].start == addr,
            decreases k - i,
        {
            assert(self.blocks@[i as int].start != addr);
            i += 1;
        }
        proof {
            lemma_release_wf(self@, addr as int);
            lemma_start_unique(self@, i as int, self@.index_of(addr as int));
        }
        self.blocks.remove(i);
    }

    /// Whether a block of `size` bytes that starts at `addr` is live.
    pub fn is_live(&self, addr: usize, size: usize) -> (live: bool)
        ensures
            live == self@.is_live(addr as int, size as int),
    {
        let n = self.blocks.len();
        let mut i: usize = 0;
        while i < n
            invariant
                n == self.blocks@.len(),
                0 <= i <= n,
                forall|j: int| 0 <= j < i ==> !self@.is_block_at(j, addr as int, size as int),
            decreases n - i,
        {
            if self.blocks[i].start == addr && self.blocks[i].len == size {
                proof {
                    assert(self@.is_block_at(i as int, addr as int, size as int));
                }
                return true;
            }
            i += 1;
        }
        false
    }

    /// Whether `[addr, addr + n)` lies inside the region.
    pub fn in_region(&self, addr: usize, n: usize) -> (inside: bool)
        ensures
            inside == self@.in_region(addr as int, n as int),
    {
        addr >= self.base && addr - self.base <= self.mem.len() && n <= self.mem.len() - (addr
            - self.base)
    }

    /// Writes `data` at `addr`. Does nothing and returns `false` where the
    /// bytes would not all lie inside the region.
    pub fn write(&mut self, addr: usize, data: &[u8]) -> (done: bool)
        ensures
            done == old(self)@.in_region(addr as int, data@.len() as int),
            done ==> final(self)@ == old(self)@.store(addr as int, data@),
            !done ==> final(self)@ == old(self)@,
            old(self).wf() ==> final(self).wf(),
    {
        if !self.in_region(addr, data.len()) {
            return false;
        }
        let off = addr - self.base;
        let n = data.len();
        let total = self.mem.len();
        let mut k: usize = 0;
        while k < n
            invariant
                0 <= k <= n,
                total == self.mem@.len(),
                n == data@.len(),
                off == addr - self.base,
                off + n <= self.mem@.len(),
                self.base == old(self).base,
                self.blocks == old(self).blocks,
                self.errno == old(self).errno,
                self.mem@.len() == old(self).mem@.len(),
                forall|j: int|
                    0 <= j < self.mem@.len() ==> self.mem@[j] == if off <= j < off + k {
                        data@[j - off]
                    } else {
                        old(self).mem@[j]
                    },
            decreases n - k,
        {
            self.mem.set(off + k, data[k]);
            k += 1;
        }
        proof {
            assert(self@.mem =~= old(self)@.store(addr as int, data@).mem);
            if old(self).wf() {
                let a = old(self)@;
                let b = self@;
                assert forall|i: int| 0 <= i <= b.blocks.len() implies #[trigger] b.gap_lo(i)
                    <= b.gap_hi(i) by {
                    assert(a.gap_lo(i) <= a.gap_hi(i));
                }
            }
        }
        true
    }

    /// Reads the `n` bytes at `addr`; `None` where they do not all lie inside
    /// the region.
    pub fn read(&self, addr: usize, n: usize) -> (data: Option<Vec<u8>>)
        ensures
            data is Some <==> self@.in_region(addr as int, n as int),
            data is Some ==> data.unwrap()@ == self@.load(addr as int, n as int),
    {
        if !self.in_region(addr, n) {
            return None;
        }
        let off = addr - self.base;
        let total = self.mem.len();
        let mut out: Vec<u8> = Vec::new();
        let mut k: usize = 0;
        while k < n
            invariant
                0 <= k <= n,
                total == self.mem@.len(),
                off == addr - self.base,
                off + n <= self.mem@.len(),
                out@ =~= self.mem@.subrange(off as int, off + k),
            decreases n - k,
        {
            out.push(self.mem[off + k]);
            k += 1;
        }
        Some(out)
    }

    /// Sets the `n` bytes at `addr` to `byte`. Does nothing and returns `false`
    /// where they do not all lie inside the region.
    pub fn fill(&mut self, addr: usize, n: usize, byte: u8) -> (done: bool)
        ensures
            done == old(self)@.in_region(addr as int, n as int),
            done ==> final(self)@ == old(self)@.store(addr as int, repeated(byte, n as int)),
            !done ==> final(self)@ == old(self)@,
            old(self).wf() ==> final(self).wf(),
    {
        if !self.in_region(addr, n) {
            return false;
        }
        let mut data: Vec<u8> = Vec::new();
        let mut k: usize = 0;
        while k < n
            invariant
                0 <= k <= n,
                data@ =~= repeated(byte, k as int),
            decreases n - k,
        {
            data.push(byte);
            k += 1;
        }
        self.write(addr, data.as_slice())
    }

    /// Copies `n` bytes from `src` to `dst`. Does nothing and returns `false`
    /// where either range does not lie inside the region.
    pub fn copy(&mut self, src: usize, dst: usize, n: usize) -> (done: bool)
        ensures
            done == (old(self)@.in_region(src as int, n as int) && old(self)@.in_region(
                dst as int,
                n as int,
            )),
            done ==> final(self)@ == old(self)@.store(
                dst as int,
                old(self)@.load(src as int, n as int),
            ),
            !done ==> final(self)@ == old(self)@,
            old(self).wf() ==> final(self).wf(),
    {
        if !self.in_region(dst, n) {
            return false;
        }
        match self.read(src, n) {
            Some(data) => self.write(dst, data.as_slice()),
            None => false,
        }
    }

    /// Reads the 64-bit little-endian word at `addr`.
    pub fn read_word(&self, addr: usize) -> (word: u64)
        requires
            self@.in_region(addr as int, 8),
        ensures
            word == spec_u64_from_le_bytes(self@.load(addr as int, 8)),
    {
        let off = addr - self.base;
        let total = self.mem.len();
        assert(off + 8 <= total);
        let bytes = slice_subrange(self.mem.as_slice(), off, off + 8);
        u64_from_le_bytes(bytes)
    }

    /// Writes `word` at `addr` as 64 bits, little-endian.
    pub fn write_word(&mut self, addr: usize, word: u64)
        requires
            old(self)@.in_region(addr as int, 8),
        ensures
            final(self)@ == old(self)@.store(addr as int, spec_u64_to_le_bytes(word)),
            old(self).wf() ==> final(self).wf(),
    {
        let bytes = u64_to_le_bytes(word);
        let done = self.write(addr, bytes.as_slice());
        assert(done);
    }

    /// The backing allocator's `reallocate`: moves the live block of `old_size`
    /// bytes at `addr` to a new block of `new_size` bytes aligned to `align`,
    /// with the bytes that both sizes cover, and returns the new address.
    /// Returns null, and changes nothing, where `new_size` is zero or the new
    /// block cannot be placed while the old one is live.
    pub fn reallocate(&mut self, addr: usize, old_size: usize, align: usize, new_size: usize) -> (new_addr: usize)
        requires
            old(self).wf(),
            old(self)@.is_live(addr as int, old_size as int),
            0 < align,
        ensures
            final(self).wf(),
            final(self)@ == old(self)@.reallocate(
                addr as int,
                old_size as int,
                align as int,
                new_size as int,
            ).0,
            new_addr == old(self)@.reallocate(
                addr as int,
                old_size as int,
                align as int,
                new_size as int,
            ).1,
            new_addr == 0 <==> new_size == 0 || old(self)@.first_fit(new_size as int, align as int)
                is None,
    {
        let new_addr = self.allocate(new_size, align);
        if new_addr == 0 {
            return 0;
        }
        let n = if old_size <= new_size {
            old_size
        } else {
            new_size
        };
        proof {
            lemma_allocate_success(old(self)@, new_size as int, align as int);
            lemma_live_in_region(old(self)@, addr as int, old_size as int);
        }
        let done = self.copy(addr, new_addr, n);
        assert(done);
        proof {
            let h1 = old(self)@.allocate(new_size as int, align as int).0;
            assert(h1.is_live(addr as int, old_size as int));
            assert(self@.blocks == h1.blocks);
            let j = choose|j: int| 0 <= j < h1.blocks.len() && h1.is_block_at(j, addr as int, old_size as int);
            assert(self@.is_block_at(j, addr as int, old_size as int));
        }
        self.deallocate(addr, old_size);
        new_addr
    }
}

} // verus!
