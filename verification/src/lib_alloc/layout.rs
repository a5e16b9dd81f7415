//! Layouts: the size and alignment of a requested allocation.

use vstd::prelude::*;

verus! {

/// `align` is a power of two and `size`, rounded up to a multiple of `align`,
/// does not pass `isize::MAX`.
pub open spec fn valid_layout(size: usize, align: usize) -> bool {
    &&& align != 0
    &&& align & ((align - 1) as usize) == 0
    &&& size + align - 1 <= isize::MAX
}

/// A (size, alignment) pair that describes a requested allocation. Every value
/// of this type is valid in the sense of [`valid_layout`].
#[derive(Clone, Copy, Debug)]
pub struct Layout {
    size: usize,
    align: usize,
}

impl Layout {
    #[verifier::type_invariant]
    spec fn inv(self) -> bool {
        valid_layout(self.size, self.align)
    }

    /// The size in bytes, in contracts.
    pub closed spec fn spec_size(self) -> usize {
        self.size
    }

    /// The alignment in bytes, in contracts.
    pub closed spec fn spec_align(self) -> usize {
        self.align
    }

    /// The layout of `size` bytes aligned to `align`, where that is a valid
    /// layout.
    pub fn from_size_align(size: usize, align: usize) -> (layout: Option<Layout>)
        ensures
            layout is Some <==> valid_layout(size, align),
            layout is Some ==> layout.unwrap().spec_size() == size && layout.unwrap().spec_align()
                == align,
    {
        if align == 0 || (align & (align - 1)) != 0 {
            return None;
        }
        let max = isize::MAX as usize;
        if align - 1 > max || size > max - (align - 1) {
            return None;
        }
        Some(Layout { size, align })
    }

    /// The size in bytes.
    pub fn size(&self) -> (size: usize)
        ensures
            size == self.spec_size(),
            valid_layout(self.spec_size(), self.spec_align()),
    {
        proof {
            use_type_invariant(self);
        }
        self.size
    }

    /// The alignment in bytes: a power of two.
    pub fn align(&self) -> (align: usize)
        ensures
            align == self.spec_align(),
            valid_layout(self.spec_size(), self.spec_align()),
    {
        proof {
            use_type_invariant(self);
        }
        self.align
    }
}

} // verus!
