//! Tools for reading and writing single bits of a machine word.

use vstd::prelude::*;

verus! {

/// Values that stand for one bit.
pub trait IntoBit: Sized {
    /// The bit that the value stands for, if it stands for one.
    spec fn bit(&self) -> Option<bool>;

    /// Converts the value into a bit: `None` where it stands for none.
    fn into_bit(self) -> (b: Option<bool>)
        ensures
            b == self.bit(),
    ;
}

impl IntoBit for bool {
    open spec fn bit(&self) -> Option<bool> {
        Some(*self)
    }

    fn into_bit(self) -> (b: Option<bool>) {
        Some(self)
    }
}

impl IntoBit for u8 {
    /// 0 is the cleared bit, 1 the set bit, and no other number is a bit.
    open spec fn bit(&self) -> Option<bool> {
        if *self == 0 {
            Some(false)
        } else if *self == 1 {
            Some(true)
        } else {
            None
        }
    }

    fn into_bit(self) -> (b: Option<bool>) {
        if self == 0 {
            Some(false)
        } else if self == 1 {
            Some(true)
        } else {
            None
        }
    }
}

impl IntoBit for u16 {
    /// 0 is the cleared bit, 1 the set bit, and no other number is a bit.
    open spec fn bit(&self) -> Option<bool> {
        if *self == 0 {
            Some(false)
        } else if *self == 1 {
            Some(true)
        } else {
            None
        }
    }

    fn into_bit(self) -> (b: Option<bool>) {
        if self == 0 {
            Some(false)
        } else if self == 1 {
            Some(true)
        } else {
            None
        }
    }
}

impl IntoBit for u32 {
    /// 0 is the cleared bit, 1 the set bit, and no other number is a bit.
    open spec fn bit(&self) -> Option<bool> {
        if *self == 0 {
            Some(false)
        } else if *self == 1 {
            Some(true)
        } else {
            None
        }
    }

    fn into_bit(self) -> (b: Option<bool>) {
        if self == 0 {
            Some(false)
        } else if self == 1 {
            Some(true)
        } else {
            None
        }
    }
}

impl IntoBit for u64 {
    /// 0 is the cleared bit, 1 the set bit, and no other number is a bit.
    open spec fn bit(&self) -> Option<bool> {
        if *self == 0 {
            Some(false)
        } else if *self == 1 {
            Some(true)
        } else {
            None
        }
    }

    fn into_bit(self) -> (b: Option<bool>) {
        if self == 0 {
            Some(false)
        } else if self == 1 {
            Some(true)
        } else {
            None
        }
    }
}

impl IntoBit for usize {
    /// 0 is the cleared bit, 1 the set bit, and no other number is a bit.
    open spec fn bit(&self) -> Option<bool> {
        if *self == 0 {
            Some(false)
        } else if *self == 1 {
            Some(true)
        } else {
            None
        }
    }

    fn into_bit(self) -> (b: Option<bool>) {
        if self == 0 {
            Some(false)
        } else if self == 1 {
            Some(true)
        } else {
            None
        }
    }
}

impl IntoBit for i8 {
    /// 0 is the cleared bit, 1 the set bit, and no other number is a bit.
    open spec fn bit(&self) -> Option<bool> {
        if *self == 0 {
            Some(false)
        } else if *self == 1 {
            Some(true)
        } else {
            None
        }
    }

    fn into_bit(self) -> (b: Option<bool>) {
        if self == 0 {
            Some(false)
        } else if self == 1 {
            Some(true)
        } else {
            None
        }
    }
}

impl IntoBit for i16 {
    /// 0 is the cleared bit, 1 the set bit, and no other number is a bit.
    open spec fn bit(&self) -> Option<bool> {
        if *self == 0 {
            Some(false)
        } else if *self == 1 {
            Some(true)
        } else {
            None
        }
    }

    fn into_bit(self) -> (b: Option<bool>) {
        if self == 0 {
            Some(false)
        } else if self == 1 {
            Some(true)
        } else {
            None
        }
    }
}

impl IntoBit for i32 {
    /// 0 is the cleared bit, 1 the set bit, and no other number is a bit.
    open spec fn bit(&self) -> Option<bool> {
        if *self == 0 {
            Some(false)
        } else if *self == 1 {
            Some(true)
        } else {
            None
        }
    }

    fn into_bit(self) -> (b: Option<bool>) {
        if self == 0 {
            Some(false)
        } else if self == 1 {
            Some(true)
        } else {
            None
        }
    }
}

impl IntoBit for i64 {
    /// 0 is the cleared bit, 1 the set bit, and no other number is a bit.
    open spec fn bit(&self) -> Option<bool> {
        if *self == 0 {
            Some(false)
        } else if *self == 1 {
            Some(true)
        } else {
            None
        }
    }

    fn into_bit(self) -> (b: Option<bool>) {
        if self == 0 {
            Some(false)
        } else if self == 1 {
            Some(true)
        } else {
            None
        }
    }
}

impl IntoBit for isize {
    /// 0 is the cleared bit, 1 the set bit, and no other number is a bit.
    open spec fn bit(&self) -> Option<bool> {
        if *self == 0 {
            Some(false)
        } else if *self == 1 {
            Some(true)
        } else {
            None
        }
    }

    fn into_bit(self) -> (b: Option<bool>) {
        if self == 0 {
            Some(false)
        } else if self == 1 {
            Some(true)
        } else {
            None
        }
    }
}

/// Whether bit `bitn` of `val` is set.
pub open spec fn spec_read_bit(val: usize, bitn: usize) -> bool {
    (val & (1usize << bitn)) != 0
}

/// `val` with bit `bitn` set to `bit` and every other bit as it was.
pub open spec fn spec_set_bit(val: usize, bitn: usize, bit: bool) -> usize {
    if bit {
        val | (1usize << bitn)
    } else {
        val & !(1usize << bitn)
    }
}

/// Reads the nth bit. `bitn` must be the number of a bit of the word.
pub fn read_bit(val: usize, bitn: usize) -> (set: bool)
    requires
        bitn < usize::BITS,
    ensures
        set == spec_read_bit(val, bitn),
{
    (val & (1usize << bitn)) != 0
}

/// Sets the nth bit to what `bit` stands for. `bitn` must be the number of a
/// bit of the word, and `bit` must stand for a bit.
pub fn set_bit<B: IntoBit>(val: &mut usize, bitn: usize, bit: B)
    requires
        bitn < usize::BITS,
        bit.bit() is Some,
    ensures
        *final(val) == spec_set_bit(*old(val), bitn, bit.bit().unwrap()),
{
    match bit.into_bit() {
        Some(true) => {
            *val = *val | (1usize << bitn);
        },
        _ => {
            *val = *val & !(1usize << bitn);
        },
    }
}

} // verus!
