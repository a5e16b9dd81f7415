use ion_kernel::c_lib::libc::error::{get_errno, perror, set_errno, ErrCode, ALLOCATION_FAILURE};
use ion_kernel::c_lib::libc::malloc_wraps::{AllocError, MallocAllocator};
use ion_kernel::c_lib::libc::mem::{
    calloc, can_malloc, calloc_safe, free, free_safe, is_allocated, malloc, malloc_safe,
    malloc_safe_val, malloc_unsized_safe_val, realloc, realloc_safe, HEADER_WIDTH,
};
use ion_kernel::lib_alloc::heap::Heap;
use ion_kernel::lib_alloc::layout::Layout;
use ion_kernel::lib_alloc::{is_heap_addr, HEAP_END, HEAP_SIZE, HEAP_START};

const BASE: usize = 0x1000;

fn heap(size: usize) -> Heap {
    Heap::new(BASE, size).unwrap()
}

#[test]
fn new_heap_refuses_null_base_and_overflow() {
    assert!(Heap::new(0, 16).is_none());
    assert!(Heap::new(usize::MAX, 1).is_none());
    assert!(Heap::new(usize::MAX - 4, 5).is_none());
    let h = Heap::new(usize::MAX - 4, 4).unwrap();
    assert_eq!(h.base(), usize::MAX - 4);
    assert_eq!(h.capacity(), 4);
    assert_eq!(h.errno(), 0);
}

#[test]
fn malloc_zero_is_null_and_records_failure() {
    let mut h = heap(256);
    assert_eq!(get_errno(&h), ErrCode(0));
    let p = malloc(&mut h, 0);
    assert_eq!(p, 0);
    assert_eq!(get_errno(&h), ErrCode(ALLOCATION_FAILURE));
    assert_eq!(get_errno(&h).0, 5);
}

#[test]
fn malloc_returns_address_after_header() {
    let mut h = heap(256);
    let p = malloc(&mut h, 10);
    assert_eq!(p, BASE + HEADER_WIDTH);
    assert_eq!(h.read_word(BASE), 10);
    assert!(is_allocated(&h, p));
    assert!(h.is_live(BASE, 18));
    assert_eq!(h.errno(), 0);
    let q = malloc(&mut h, 3);
    assert_eq!(q, BASE + 24 + 8);
    assert_eq!(h.read_word(BASE + 24), 3);
}

#[test]
fn malloc_serves_every_size_up_to_capacity_less_header() {
    for s in 1..=(64 - 8) {
        let mut h = heap(64);
        let p = malloc(&mut h, s);
        assert_eq!(p, BASE + 8);
        let data: Vec<u8> = (0..s).map(|i| (i % 251) as u8 + 1).collect();
        assert!(h.write(p, &data));
        assert_eq!(h.read(p, s).unwrap(), data);
        assert_eq!(h.read_word(BASE), s as u64);
    }
    let mut h = heap(64);
    assert_eq!(malloc(&mut h, 57), 0);
    assert_eq!(h.errno(), 5);
}

#[test]
fn write_touches_only_its_range() {
    let mut h = heap(64);
    let p = malloc(&mut h, 8);
    let q = malloc(&mut h, 8);
    assert!(h.write(q, &[9; 8]));
    assert!(h.write(p, &[1, 2, 3, 4, 5, 6, 7, 8]));
    assert_eq!(h.read(q, 8).unwrap(), vec![9; 8]);
    assert_eq!(h.read_word(q - 8), 8);
    assert_eq!(h.read_word(p - 8), 8);
    assert!(!h.write(BASE + 60, &[0; 5]));
    assert!(!h.write(BASE - 1, &[0; 1]));
    assert!(h.read(BASE + 64, 1).is_none());
    assert_eq!(h.read(BASE + 64, 0).unwrap(), Vec::<u8>::new());
}

#[test]
fn exhaustion_returns_null_and_records_failure() {
    let mut h = heap(1024);
    let mut served = 0;
    loop {
        let p = malloc(&mut h, 100);
        if p == 0 {
            break;
        }
        assert_eq!(h.errno(), 0);
        assert_eq!(p, BASE + served * 112 + 8);
        served += 1;
    }
    assert_eq!(served, 9);
    assert_eq!(get_errno(&h), ErrCode(5));
    let small = malloc(&mut h, 8);
    assert_eq!(small, BASE + 9 * 112 + 8);
}

#[test]
fn free_null_records_failure() {
    let mut h = heap(64);
    free(&mut h, 0);
    assert_eq!(h.errno(), 5);
}

#[test]
fn free_then_malloc_reuses_without_touching_others() {
    let mut h = heap(256);
    let a = malloc(&mut h, 16);
    let b = malloc(&mut h, 16);
    let c = malloc(&mut h, 16);
    assert!(h.write(a, &[0xAA; 16]));
    assert!(h.write(b, &[0xBB; 16]));
    assert!(h.write(c, &[0xCC; 16]));
    free(&mut h, b);
    assert!(!is_allocated(&h, b));
    assert!(is_allocated(&h, a));
    assert!(is_allocated(&h, c));
    let d = malloc(&mut h, 16);
    assert_eq!(d, b);
    assert!(h.write(d, &[0xDD; 16]));
    assert_eq!(h.read(a, 16).unwrap(), vec![0xAA; 16]);
    assert_eq!(h.read(c, 16).unwrap(), vec![0xCC; 16]);
    assert_eq!(h.read_word(a - 8), 16);
    assert_eq!(h.read_word(c - 8), 16);
    free(&mut h, a);
    let e = malloc(&mut h, 17);
    assert_eq!(e, c + 16 + 8);
    assert_eq!(h.errno(), 0);
}

#[test]
fn calloc_gives_zero_bytes_on_dirty_memory() {
    let mut h = heap(128);
    let p = malloc(&mut h, 40);
    assert!(h.write(p, &[0xFF; 40]));
    free(&mut h, p);
    let q = calloc(&mut h, 3, 5);
    assert_eq!(q, p);
    assert_eq!(h.read(q, 15).unwrap(), vec![0; 15]);
    assert_eq!(h.read_word(q - 8), 15);
    assert_eq!(h.read(q + 15, 1).unwrap(), vec![0xFF]);
    assert_eq!(h.errno(), 0);
}

#[test]
fn calloc_of_nothing_or_too_much_is_null() {
    let mut h = heap(128);
    assert_eq!(calloc(&mut h, 4, 0), 0);
    assert_eq!(h.errno(), 5);
    set_errno(&mut h, 0);
    assert_eq!(calloc(&mut h, 0, 4), 0);
    assert_eq!(h.errno(), 5);
    set_errno(&mut h, 0);
    assert_eq!(calloc(&mut h, usize::MAX, 2), 0);
    assert_eq!(h.errno(), 5);
    set_errno(&mut h, 0);
    assert_eq!(calloc(&mut h, 11, 11), 0);
    assert_eq!(h.errno(), 5);
    assert!(!h.is_live(BASE, 8));
}

#[test]
fn realloc_of_null_is_malloc() {
    let mut a = heap(128);
    let mut b = heap(128);
    let p = realloc(&mut a, 0, 24);
    let q = malloc(&mut b, 24);
    assert_eq!(p, q);
    assert_eq!(a.read(BASE, 128), b.read(BASE, 128));
    assert_eq!(a.errno(), b.errno());
    assert_eq!(realloc(&mut a, 0, 0), 0);
    assert_eq!(a.errno(), 5);
}

#[test]
fn realloc_to_zero_frees_and_records_failure() {
    let mut h = heap(128);
    let p = malloc(&mut h, 24);
    assert_eq!(realloc(&mut h, p, 0), 0);
    assert_eq!(h.errno(), 5);
    assert!(!is_allocated(&h, p));
    assert_eq!(malloc(&mut h, 120), BASE + 8);
}

#[test]
fn realloc_keeps_bytes_when_growing_and_shrinking() {
    let mut h = heap(256);
    let p = malloc(&mut h, 6);
    assert!(h.write(p, &[1, 2, 3, 4, 5, 6]));
    let q = realloc(&mut h, p, 12);
    assert_ne!(q, 0);
    assert_ne!(q, p);
    assert_eq!(h.read(q, 6).unwrap(), vec![1, 2, 3, 4, 5, 6]);
    assert_eq!(h.read_word(q - 8), 12);
    assert!(!is_allocated(&h, p));
    let r = realloc(&mut h, q, 4);
    assert_ne!(r, 0);
    assert_eq!(h.read(r, 4).unwrap(), vec![1, 2, 3, 4]);
    assert_eq!(h.read_word(r - 8), 4);
    assert!(!is_allocated(&h, q));
    assert_eq!(h.errno(), 0);
}

#[test]
fn realloc_that_cannot_grow_keeps_the_old_allocation() {
    let mut h = heap(64);
    let p = malloc(&mut h, 24);
    assert!(h.write(p, &[7; 24]));
    assert_eq!(realloc(&mut h, p, 40), 0);
    assert_eq!(h.errno(), 5);
    assert!(is_allocated(&h, p));
    assert_eq!(h.read(p, 24).unwrap(), vec![7; 24]);
}

#[test]
fn test_malloc() {
    let mut h = heap(1024);
    let word = Layout::from_size_align(8, 8).unwrap();
    let safe_ptr = malloc_safe_val(&mut h, word, &7u64.to_le_bytes());
    assert_eq!(h.read_word(safe_ptr), 7);
    free_safe(&mut h, safe_ptr, word);

    let alloc = malloc(&mut h, 1);
    assert!(h.write(alloc, &[42]));
    assert_eq!(h.read(alloc, 1).unwrap(), vec![42]);
    free(&mut h, alloc);

    let boxed = MallocAllocator.allocate(&mut h, Layout::from_size_align(4, 4).unwrap()).unwrap();
    assert!(h.write(boxed.ptr, &42u32.to_le_bytes()));
    assert_eq!(h.read(boxed.ptr, 4).unwrap(), 42u32.to_le_bytes().to_vec());
    MallocAllocator.deallocate(&mut h, boxed.ptr, Layout::from_size_align(4, 4).unwrap());

    let alloc = malloc(&mut h, 1);
    assert!(h.write(alloc, &[1]));
    let re = realloc(&mut h, alloc, 2);
    assert!(h.write(re, &2u16.to_le_bytes()));
    assert_eq!(h.read(re, 2).unwrap(), vec![2, 0]);
    free(&mut h, re);

    let half = Layout::from_size_align(2, 2).unwrap();
    let alloc = malloc_safe(&mut h, half);
    let new = realloc_safe(&mut h, alloc, half);
    assert!(h.write(new, &42u16.to_le_bytes()));
    assert_eq!(h.read(new, 2).unwrap(), vec![42, 0]);
    free_safe(&mut h, new, half);

    let slice_alloc = calloc(&mut h, 3, 1);
    assert_eq!(h.read(slice_alloc, 3).unwrap(), vec![0, 0, 0]);
    free(&mut h, slice_alloc);

    let slice_safe = calloc_safe(&mut h, half, 3);
    assert_eq!(h.read(slice_safe, 6).unwrap(), vec![0; 6]);
    free_safe(&mut h, slice_safe, Layout::from_size_align(6, 2).unwrap());
    assert_eq!(h.errno(), 0);
    assert_eq!(malloc(&mut h, 1016), BASE + 8);
}

#[test]
fn typed_allocation_respects_alignment() {
    let mut h = Heap::new(0x1001, 256).unwrap();
    let p = malloc_safe(&mut h, Layout::from_size_align(3, 1).unwrap());
    assert_eq!(p, 0x1001);
    let q = malloc_safe(&mut h, Layout::from_size_align(16, 16).unwrap());
    assert_eq!(q, 0x1010);
    let r = malloc_safe(&mut h, Layout::from_size_align(2, 2).unwrap());
    assert_eq!(r, 0x1004);
    let s = malloc(&mut h, 1);
    assert_eq!(s, 0x1008 + 8 + 0x18);
    assert_eq!(h.errno(), 0);
    assert_eq!(malloc_safe(&mut h, Layout::from_size_align(0, 1).unwrap()), 0);
    assert_eq!(malloc_safe(&mut h, Layout::from_size_align(512, 1).unwrap()), 0);
    assert_eq!(h.errno(), 0);
}

#[test]
fn malloc_safe_val_writes_the_value_or_nothing() {
    let mut h = heap(16);
    let l = Layout::from_size_align(12, 4).unwrap();
    let p = malloc_safe_val(&mut h, l, &[5; 12]);
    assert_eq!(p, BASE);
    assert_eq!(h.read(p, 12).unwrap(), vec![5; 12]);
    assert_eq!(h.read(p + 12, 4).unwrap(), vec![0; 4]);
    let q = malloc_safe_val(&mut h, l, &[6; 12]);
    assert_eq!(q, 0);
    assert_eq!(h.read(BASE, 16).unwrap(), [vec![5; 12], vec![0; 4]].concat());
    assert_eq!(h.errno(), 0);
}

#[test]
fn malloc_unsized_safe_val_is_malloc_of_the_size() {
    let mut h = heap(64);
    let l = Layout::from_size_align(24, 8).unwrap();
    assert!(can_malloc(&h, l));
    let p = malloc_unsized_safe_val(&mut h, l);
    assert_eq!(p, BASE + 8);
    assert_eq!(h.read_word(BASE), 24);
    assert!(can_malloc(&h, l));
    assert!(!can_malloc(&h, Layout::from_size_align(25, 1).unwrap()));
    assert!(can_malloc(&h, Layout::from_size_align(23, 1).unwrap()));
    assert!(!can_malloc(&h, Layout::from_size_align(0, 1).unwrap()));
    assert!(h.is_live(BASE, 32));
    assert!(!h.is_live(BASE + 32, 31));
}

#[test]
fn free_safe_of_null_records_failure() {
    let mut h = heap(64);
    free_safe(&mut h, 0, Layout::from_size_align(4, 4).unwrap());
    assert_eq!(get_errno(&h), ErrCode(5));
}

#[test]
fn calloc_safe_cases() {
    let mut h = heap(64);
    let l = Layout::from_size_align(4, 4).unwrap();
    assert_eq!(calloc_safe(&mut h, l, 0), 0);
    assert_eq!(h.errno(), 0);
    assert!(h.fill(BASE, 64, 0xEE));
    let p = calloc_safe(&mut h, l, 5);
    assert_eq!(p, BASE);
    assert_eq!(h.read(p, 20).unwrap(), vec![0; 20]);
    assert_eq!(h.read(p + 20, 1).unwrap(), vec![0xEE]);
    assert_eq!(calloc_safe(&mut h, l, 12), 0);
    assert_eq!(h.errno(), 5);
}

#[test]
fn realloc_safe_moves_the_bytes() {
    let mut h = heap(64);
    let l = Layout::from_size_align(8, 8).unwrap();
    let p = malloc_safe_val(&mut h, l, &[1, 2, 3, 4, 5, 6, 7, 8]);
    let q = realloc_safe(&mut h, p, l);
    assert_eq!(q, BASE + 8);
    assert_eq!(h.read(q, 8).unwrap(), vec![1, 2, 3, 4, 5, 6, 7, 8]);
    assert!(!h.is_live(p, 8));
    assert!(h.is_live(q, 8));
}

#[test]
fn backing_reallocate_grows_shrinks_and_fails() {
    let mut h = heap(32);
    let p = h.allocate(8, 1);
    assert!(h.write(p, &[1, 2, 3, 4, 5, 6, 7, 8]));
    let q = h.reallocate(p, 8, 1, 16);
    assert_eq!(q, BASE + 8);
    assert_eq!(h.read(q, 8).unwrap(), vec![1, 2, 3, 4, 5, 6, 7, 8]);
    assert_eq!(h.reallocate(q, 16, 1, 17), 0);
    assert!(h.is_live(q, 16));
    assert_eq!(h.reallocate(q, 16, 1, 0), 0);
    let r = h.reallocate(q, 16, 1, 3);
    assert_eq!(r, BASE);
    assert_eq!(h.read(r, 3).unwrap(), vec![1, 2, 3]);
    assert!(h.copy(r, r + 10, 3));
    assert_eq!(h.read(r + 10, 3).unwrap(), vec![1, 2, 3]);
    assert!(!h.copy(r, BASE + 30, 3));
    assert!(h.find_fit(29, 1).is_some());
    assert_eq!(h.find_fit(29, 1), Some((1, BASE + 3)));
    assert_eq!(h.find_fit(29, 4), None);
    assert_eq!(h.find_fit(28, 4), Some((1, BASE + 4)));
    h.deallocate(r, 3);
    assert_eq!(h.find_fit(32, 16), Some((0, BASE)));
}

#[test]
fn allocator_capability_allocates_and_checks_layouts() {
    let mut h = heap(64);
    let l = Layout::from_size_align(16, 8).unwrap();
    let region = MallocAllocator.allocate(&mut h, l).unwrap();
    assert_eq!(region.ptr, BASE + 8);
    assert_eq!(region.len, 16);
    assert!(MallocAllocator.layout_matches(&h, region.ptr, l));
    assert!(!MallocAllocator.layout_matches(&h, region.ptr, Layout::from_size_align(8, 8).unwrap()));
    assert!(!MallocAllocator.layout_matches(&h, region.ptr + 8, l));
    assert!(!MallocAllocator.layout_matches(&h, 0, l));
    assert_eq!(MallocAllocator.allocate(&mut h, Layout::from_size_align(64, 8).unwrap()), Err(AllocError));
    assert_eq!(h.errno(), 5);
    assert_eq!(MallocAllocator.allocate(&mut h, Layout::from_size_align(0, 1).unwrap()), Err(AllocError));
    let huge = Layout::from_size_align(isize::MAX as usize - 3, 4).unwrap();
    set_errno(&mut h, 0);
    assert_eq!(MallocAllocator.allocate(&mut h, huge), Err(AllocError));
    assert_eq!(h.errno(), 0);
    MallocAllocator.deallocate(&mut h, region.ptr, l);
    assert!(!is_allocated(&h, region.ptr));
}

#[test]
fn is_allocated_tells_raw_allocations() {
    let mut h = heap(64);
    assert!(!is_allocated(&h, 0));
    assert!(!is_allocated(&h, BASE + 8));
    let p = malloc(&mut h, 8);
    assert!(is_allocated(&h, p));
    assert!(!is_allocated(&h, p + 1));
    assert!(!is_allocated(&h, BASE + 64));
    h.write_word(p - 8, 9);
    assert!(!is_allocated(&h, p));
    h.write_word(p - 8, u64::MAX);
    assert!(!is_allocated(&h, p));
}

#[test]
fn layout_validity() {
    assert!(Layout::from_size_align(0, 1).is_some());
    assert!(Layout::from_size_align(8, 0).is_none());
    assert!(Layout::from_size_align(8, 3).is_none());
    assert!(Layout::from_size_align(8, 6).is_none());
    assert!(Layout::from_size_align(isize::MAX as usize, 1).is_some());
    assert!(Layout::from_size_align(isize::MAX as usize, 2).is_none());
    assert!(Layout::from_size_align(isize::MAX as usize - 7, 8).is_some());
    assert!(Layout::from_size_align(isize::MAX as usize - 6, 8).is_none());
    let l = Layout::from_size_align(24, 16).unwrap();
    assert_eq!(l.size(), 24);
    assert_eq!(l.align(), 16);
}

#[test]
fn heap_address_range() {
    assert_eq!(HEAP_START, 0x4444_4444_0000);
    assert_eq!(HEAP_SIZE, 100 * 1024);
    assert_eq!(HEAP_END, HEAP_START + HEAP_SIZE as u64);
    if usize::BITS >= 64 {
        assert!(is_heap_addr(HEAP_START as usize));
        assert!(is_heap_addr(HEAP_END as usize));
        assert!(!is_heap_addr(HEAP_START as usize - 1));
        assert!(!is_heap_addr(HEAP_END as usize + 1));
    }
    assert!(!is_heap_addr(0));
}

#[test]
fn perror_renders_meaning_and_code() {
    let mut h = heap(16);
    assert_eq!(perror(&h, "boot"), "boot: Ok (os error 0)");
    malloc(&mut h, 0);
    assert_eq!(perror(&h, "malloc"), "malloc: Allocation Failure (os error 5)");
    set_errno(&mut h, 9);
    assert_eq!(perror(&h, "x"), "x: (os error 9)");
    set_errno(&mut h, -3);
    assert_eq!(perror(&h, ""), ": (os error -3)");
}

#[test]
fn error_code_meanings() {
    let table = [
        "Ok",
        "Failed",
        "Memory Corruption",
        "CPU Exception",
        "Process Failure",
        "Allocation Failure",
        "Invalid Input",
        "Missing Feature",
    ];
    for (code, text) in table.iter().enumerate() {
        assert_eq!(ErrCode(code as i32).meaning(), Some(*text));
        assert_eq!(ErrCode(code as i32).code(), code as i32);
    }
    assert_eq!(ErrCode(8).meaning(), None);
    assert_eq!(ErrCode(-1).meaning(), None);
    assert_eq!(ErrCode::default(), ErrCode(0));
}
