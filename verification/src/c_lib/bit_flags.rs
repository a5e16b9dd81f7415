//! A collection of bit flags in one unsigned word, as the `cpuid` registers
//! hold them.

use crate::c_lib::libc::error::{digits, render_digits};
use vstd::prelude::*;
use vstd::string::*;

verus! {

/// The unsigned integers that can hold flags.
pub trait Uint: Copy {
    /// The word with every bit of the type set, as a 64-bit number.
    spec fn mask() -> u64;

    /// The number of bits of the type.
    spec fn bits() -> int;

    /// The value as a 64-bit number.
    spec fn value(self) -> u64;

    /// The value as a 64-bit number; it has no bit that the type lacks.
    fn into_u64(self) -> (v: u64)
        ensures
            v == self.value(),
            v & Self::mask() == v,
    ;

    /// The value that the low bits of `v` make: the bits that the type has.
    fn from_u64(v: u64) -> (x: Self)
        ensures
            x.value() == v & Self::mask(),
    ;

    /// The number of bits of the type.
    fn bit_count() -> (count: usize)
        ensures
            count == Self::bits(),
    ;

    /// The mask has the flags below the number of bits and no other.
    proof fn lemma_mask()
        ensures
            0 < Self::bits() <= 64,
            forall|k: int| flag_of(Self::mask(), k) <==> 0 <= k < Self::bits(),
    ;
}

/// A collection of flags in a word of the type `Int`, `u32` where none is
/// named. Flag `n` is bit `n` of the word; a flag that the word has no bit for
/// does not exist and reads as unset.
#[derive(Clone, Copy, Debug, PartialEq, Eq)]
pub struct BitFlags<Int: Uint = u32> {
    word: Int,
}

/// One end of a region of flags.
#[derive(Clone, Copy, Debug, PartialEq, Eq, Structural)]
pub enum RegionBound {
    /// The region reaches this flag.
    Included(u8),
    /// The region stops just short of this flag.
    Excluded(u8),
    /// The region has no end on this side.
    Unbounded,
}

/// An error for setting a region: the region's upper and lower bound and the
/// length of the slice that did not match them.
#[derive(Debug, Clone, Copy, PartialEq, Eq, Structural)]
pub struct SetRegionError {
    pub upper_bound: u8,
    pub lower_bound: u8,
    pub slice_len: usize,
}

/// The text of the error: what was expected, with the length of the range in
/// brackets, and what was given.
pub open spec fn spec_region_error_text(e: SetRegionError) -> Seq<char> {
    "Expected a slice for the range "@ + digits(e.lower_bound as nat) + "->"@ + digits(
        e.upper_bound as nat,
    ) + " ("@ + digits((e.upper_bound - e.lower_bound) as nat)
        + "), but instead got a slice of len "@ + digits(e.slice_len as nat)
}

impl SetRegionError {
    /// The text of the error. The lower bound must not pass the upper bound.
    pub fn message(&self) -> (text: String)
        requires
            self.lower_bound <= self.upper_bound,
        ensures
            text@ == spec_region_error_text(*self),
    {
        let lower = render_digits(self.lower_bound as u64);
        let upper = render_digits(self.upper_bound as u64);
        let range = render_digits((self.upper_bound - self.lower_bound) as u64);
        let len = render_digits(self.slice_len as u64);
        let mut text = String::from_str("Expected a slice for the range ");
        text.append(lower.as_str());
        text.append("->");
        text.append(upper.as_str());
        text.append(" (");
        text.append(range.as_str());
        text.append("), but instead got a slice of len ");
        text.append(len.as_str());
        text
    }
}

/// The binary digits of a number, most significant first, without leading
/// zeros.
pub open spec fn binary_digits(n: nat) -> Seq<char>
    decreases n,
{
    if n < 2 {
        if n == 0 {
            "0"@
        } else {
            "1"@
        }
    } else {
        binary_digits(n / 2) + if n % 2 == 0 {
            "0"@
        } else {
            "1"@
        }
    }
}

fn render_binary(n: u64) -> (text: String)
    ensures
        text@ == binary_digits(n as nat),
    decreases n,
{
    if n < 2 {
        if n == 0 {
            String::from_str("0")
        } else {
            String::from_str("1")
        }
    } else {
        let mut text = render_binary(n / 2);
        if n % 2 == 0 {
            text.append("0");
        } else {
            text.append("1");
        }
        text
    }
}

/// Whether flag `n` is set in `word`.
pub open spec fn flag_of(word: u64, n: int) -> bool {
    0 <= n < 64 && (word & (1u64 << (n as u64))) != 0
}

/// `word` with flag `n` set to `flag`.
pub open spec fn with_flag(word: u64, n: int, flag: bool) -> u64 {
    if n < 0 || n >= 64 {
        word
    } else if flag {
        word | (1u64 << (n as u64))
    } else {
        word & !(1u64 << (n as u64))
    }
}

/// The number of the last flag of a region that ends with `end`, in a word of
/// `count` flags.
pub open spec fn upper_of(end: RegionBound, count: int) -> int {
    match end {
        RegionBound::Unbounded => count,
        RegionBound::Excluded(e) => e - 1,
        RegionBound::Included(i) => i as int,
    }
}

/// The number of the first flag of a region that starts with `start`.
pub open spec fn lower_of(start: RegionBound) -> int {
    match start {
        RegionBound::Excluded(e) => e + 1,
        RegionBound::Included(e) => e as int,
        RegionBound::Unbounded => 0,
    }
}

/// Setting a flag sets that flag and leaves every other flag as it was.
pub proof fn lemma_with_flag(word: u64, n: int, flag: bool, k: int)
    requires
        0 <= n < 64,
    ensures
        flag_of(with_flag(word, n, flag), k) == if k == n {
            flag
        } else {
            flag_of(word, k)
        },
{
    if 0 <= k < 64 {
        let a = n as u64;
        let b = k as u64;
        assert(((word | (1u64 << a)) & (1u64 << b) != 0) == (b == a || (word & (1u64 << b)) != 0))
            by (bit_vector)
            requires
                a < 64,
                b < 64,
        ;
        assert(((word & !(1u64 << a)) & (1u64 << b) != 0) == (b != a && (word & (1u64 << b))
            != 0)) by (bit_vector)
            requires
                a < 64,
                b < 64,
        ;
    }
}

/// A flag is set in the low bits of a word where it is set in the word and the
/// mask has it.
pub proof fn lemma_masked_flag(word: u64, mask: u64, k: int)
    ensures
        flag_of(word & mask, k) == (flag_of(word, k) && flag_of(mask, k)),
{
    if 0 <= k < 64 {
        let b = k as u64;
        assert((((word & mask) & (1u64 << b)) != 0) == ((word & (1u64 << b)) != 0 && (mask & (1u64
            << b)) != 0)) by (bit_vector)
            requires
                b < 64,
        ;
    }
}

/// A word with no bit beyond the first `count` has none of the flags beyond
/// them.
proof fn lemma_low_mask(mask: u64, count: int)
    requires
        mask == if count == 8 {
            0xffu64
        } else if count == 16 {
            0xffffu64
        } else if count == 32 {
            0xffff_ffffu64
        } else {
            0xffff_ffff_ffff_ffffu64
        },
        count == 8 || count == 16 || count == 32 || count == 64,
    ensures
        forall|k: int| flag_of(mask, k) <==> 0 <= k < count,
{
    assert forall|k: int| flag_of(mask, k) <==> 0 <= k < count by {
        if 0 <= k < 64 {
            let b = k as u64;
            assert(((0xffu64 & (1u64 << b)) != 0) == (b < 8)) by (bit_vector)
                requires
                    b < 64,
            ;
            assert(((0xffffu64 & (1u64 << b)) != 0) == (b < 16)) by (bit_vector)
                requires
                    b < 64,
            ;
            assert(((0xffff_ffffu64 & (1u64 << b)) != 0) == (b < 32)) by (bit_vector)
                requires
                    b < 64,
            ;
            assert(((0xffff_ffff_ffff_ffffu64 & (1u64 << b)) != 0) == (b < 64)) by (bit_vector)
                requires
                    b < 64,
            ;
        }
    }
}

impl Uint for u8 {
    open spec fn bits() -> int {
        8
    }

    open spec fn mask() -> u64 {
        0xff
    }

    open spec fn value(self) -> u64 {
        self as u64
    }

    fn into_u64(self) -> (v: u64) {
        let v = self as u64;
        assert(v & 0xff == v) by (bit_vector)
            requires
                v <= 0xff,
        ;
        v
    }

    fn from_u64(v: u64) -> (x: Self) {
        assert(v & 0xff <= 0xff) by (bit_vector);
        (v & 0xff) as u8
    }

    fn bit_count() -> (count: usize) {
        8
    }

    proof fn lemma_mask() {
        lemma_low_mask(0xff, 8);
    }
}

impl Uint for u16 {
    open spec fn bits() -> int {
        16
    }

    open spec fn mask() -> u64 {
        0xffff
    }

    open spec fn value(self) -> u64 {
        self as u64
    }

    fn into_u64(self) -> (v: u64) {
        let v = self as u64;
        assert(v & 0xffff == v) by (bit_vector)
            requires
                v <= 0xffff,
        ;
        v
    }

    fn from_u64(v: u64) -> (x: Self) {
        assert(v & 0xffff <= 0xffff) by (bit_vector);
        (v & 0xffff) as u16
    }

    fn bit_count() -> (count: usize) {
        16
    }

    proof fn lemma_mask() {
        lemma_low_mask(0xffff, 16);
    }
}

impl Uint for u32 {
    open spec fn bits() -> int {
        32
    }

    open spec fn mask() -> u64 {
        0xffff_ffff
    }

    open spec fn value(self) -> u64 {
        self as u64
    }

    fn into_u64(self) -> (v: u64) {
        let v = self as u64;
        assert(v & 0xffff_ffff == v) by (bit_vector)
            requires
                v <= 0xffff_ffff,
        ;
        v
    }

    fn from_u64(v: u64) -> (x: Self) {
        assert(v & 0xffff_ffff <= 0xffff_ffff) by (bit_vector);
        (v & 0xffff_ffff) as u32
    }

    fn bit_count() -> (count: usize) {
        32
    }

    proof fn lemma_mask() {
        lemma_low_mask(0xffff_ffff, 32);
    }
}

impl Uint for u64 {
    open spec fn bits() -> int {
        64
    }

    open spec fn mask() -> u64 {
        0xffff_ffff_ffff_ffff
    }

    open spec fn value(self) -> u64 {
        self
    }

    fn into_u64(self) -> (v: u64) {
        let v = self;
        assert(v & 0xffff_ffff_ffff_ffff == v) by (bit_vector);
        v
    }

    fn from_u64(v: u64) -> (x: Self) {
        v & 0xffff_ffff_ffff_ffff
    }

    fn bit_count() -> (count: usize) {
        64
    }

    proof fn lemma_mask() {
        lemma_low_mask(0xffff_ffff_ffff_ffff, 64);
    }
}

impl Uint for usize {
    open spec fn bits() -> int {
        usize::BITS as int
    }

    open spec fn mask() -> u64 {
        usize::MAX as u64
    }

    open spec fn value(self) -> u64 {
        self as u64
    }

    fn into_u64(self) -> (v: u64) {
        let v = self as u64;
        let ghost m = usize::MAX as u64;
        assert(v & m == v) by (bit_vector)
            requires
                v <= m,
                m == 0xffff_ffffu64 || m == 0xffff_ffff_ffff_ffffu64,
        ;
        v
    }

    fn from_u64(v: u64) -> (x: Self) {
        let m = usize::MAX as u64;
        assert(v & m <= m) by (bit_vector);
        (v & m) as usize
    }

    fn bit_count() -> (count: usize) {
        usize::BITS as usize
    }

    proof fn lemma_mask() {
        lemma_low_mask(usize::MAX as u64, usize::BITS as int);
    }
}

fn upper_bound(end: RegionBound, count: usize) -> (upper: usize)
    requires
        upper_of(end, count as int) >= 0,
    ensures
        upper == upper_of(end, count as int),
{
    match end {
        RegionBound::Unbounded => count,
        RegionBound::Excluded(e) => (e - 1) as usize,
        RegionBound::Included(i) => i as usize,
    }
}

fn lower_bound(start: RegionBound) -> (lower: usize)
    requires
        lower_of(start) <= 255,
    ensures
        lower == lower_of(start),
{
    match start {
        RegionBound::Excluded(e) => (e + 1) as usize,
        RegionBound::Included(e) => e as usize,
        RegionBound::Unbounded => 0,
    }
}

impl<Int: Uint> View for BitFlags<Int> {
    type V = u64;

    closed spec fn view(&self) -> u64 {
        self.word.value()
    }
}

impl<Int: Uint> BitFlags<Int> {
    /// Creates a new `BitFlags` using the passed in integer.
    pub fn new(i: Int) -> (flags: Self)
        ensures
            flags@ == i.value(),
    {
        Self { word: i }
    }

    /// Creates a new `BitFlags` with no flag set.
    pub fn new_unset() -> (flags: Self)
        ensures
            flags@ == 0,
    {
        let word = Int::from_u64(0);
        let ghost m = Int::mask();
        assert(0u64 & m == 0) by (bit_vector);
        Self { word }
    }

    /// The flags as text: `0b` and the word's binary digits, the highest set
    /// flag first.
    pub fn binary(&self) -> (text: String)
        ensures
            text@ == "0b"@ + binary_digits(self@ as nat),
    {
        let digits = render_binary(self.word.into_u64());
        let mut text = String::from_str("0b");
        text.append(digits.as_str());
        text
    }

    /// The word that holds the flags.
    pub fn bits(&self) -> (word: Int)
        ensures
            word.value() == self@,
    {
        self.word
    }

    /// Reads the `n`th flag. `n` must be the number of a bit of a 64-bit word.
    pub fn read_flag(&self, n: usize) -> (set: bool)
        requires
            n < 64,
        ensures
            set == flag_of(self@, n as int),
    {
        (self.word.into_u64() & (1u64 << (n as u64))) != 0
    }

    /// Sets the `n`th flag. `n` must be the number of a bit of a 64-bit word.
    pub fn set_flag(&mut self, n: usize, flag: bool)
        requires
            n < 64,
        ensures
            final(self)@ == with_flag(old(self)@, n as int, flag) & Int::mask(),
            forall|k: int|
                #[trigger] flag_of(final(self)@, k) == if k == n && flag_of(Int::mask(), k) {
                    flag
                } else {
                    flag_of(old(self)@, k)
                },
    {
        let word = self.word.into_u64();
        let res = if flag {
            word | (1u64 << (n as u64))
        } else {
            word & !(1u64 << (n as u64))
        };
        self.word = Int::from_u64(res);
        proof {
            assert forall|k: int|
                #[trigger] flag_of(self@, k) == if k == n && flag_of(Int::mask(), k) {
                    flag
                } else {
                    flag_of(old(self)@, k)
                } by {
                lemma_masked_flag(res, Int::mask(), k);
                lemma_with_flag(word, n as int, flag, k);
                lemma_masked_flag(word, Int::mask(), k);
            }
        }
    }

    /// Sets flags from `vals`, for a region given by its two ends.
    ///
    /// With `lower` the region's first flag and `upper` its last (the number of
    /// flags of the word where the region has no end), `vals` must hold
    /// `upper - lower` values, else nothing is set and the error says what was
    /// expected. Flag `n` is then set to `vals[n]` for every `n` from `lower`
    /// up to the end of `vals`.
    pub fn set_region(&mut self, start: RegionBound, end: RegionBound, vals: &[bool]) -> (res: Result<
        (),
        SetRegionError,
    >)
        requires
            0 <= upper_of(end, Self::spec_flag_count()),
            lower_of(start) <= 255,
            lower_of(start) <= upper_of(end, Self::spec_flag_count()),
            vals@.len() == upper_of(end, Self::spec_flag_count()) - lower_of(start) ==> vals@.len()
                <= 64,
        ensures
            res is Err <==> vals@.len() != upper_of(end, Self::spec_flag_count()) - lower_of(
                start,
            ),
            res is Err ==> final(self)@ == old(self)@ && res.unwrap_err() == (SetRegionError {
                upper_bound: upper_of(end, Self::spec_flag_count()) as u8,
                lower_bound: lower_of(start) as u8,
                slice_len: vals@.len() as usize,
            }),
            res is Ok ==> forall|k: int|
                #[trigger] flag_of(final(self)@, k) == if lower_of(start) <= k < vals@.len()
                    && flag_of(Int::mask(), k) {
                    vals@[k]
                } else {
                    flag_of(old(self)@, k)
                },
    {
        let upper = upper_bound(end, Self::flag_count());
        let lower = lower_bound(start);
        if vals.len() != upper - lower {
            return Err(
                SetRegionError {
                    upper_bound: upper as u8,
                    lower_bound: lower as u8,
                    slice_len: vals.len(),
                },
            );
        }
        let stop = vals.len();
        let mut n: usize = lower;
        while n < stop
            invariant
                lower <= n,
                stop == vals@.len(),
                stop <= 64,
                forall|k: int|
                    #[trigger] flag_of(self@, k) == if lower <= k < n && k < stop && flag_of(
                        Int::mask(),
                        k,
                    ) {
                        vals@[k]
                    } else {
                        flag_of(old(self)@, k)
                    },
            decreases stop - n,
        {
            let ghost before = self@;
            self.set_flag(n, vals[n]);
            proof {
                assert forall|k: int|
                    #[trigger] flag_of(self@, k) == if lower <= k < n + 1 && k < stop && flag_of(
                        Int::mask(),
                        k,
                    ) {
                        vals@[k]
                    } else {
                        flag_of(old(self)@, k)
                    } by {
                    assert(flag_of(before, k) == if lower <= k < n && k < stop && flag_of(
                        Int::mask(),
                        k,
                    ) {
                        vals@[k]
                    } else {
                        flag_of(old(self)@, k)
                    });
                }
            }
            n += 1;
        }
        Ok(())
    }

    /// Reads the flags of a region into `buf`, flag `n` into `buf[n]`, and
    /// returns a copy of that part of `buf`. The region's last flag must have a
    /// place in `buf`, and its first must not lie more than one past its last.
    pub fn read_region_into(&self, start: RegionBound, end: RegionBound, buf: &mut Vec<bool>) -> (region: Vec<bool>)
        requires
            0 <= upper_of(end, Self::spec_flag_count()) < old(buf)@.len(),
            upper_of(end, Self::spec_flag_count()) < 64,
            lower_of(start) <= upper_of(end, Self::spec_flag_count()) + 1,
        ensures
            final(buf)@.len() == old(buf)@.len(),
            forall|k: int|
                0 <= k < old(buf)@.len() ==> final(buf)@[k] == if lower_of(start) <= k <= upper_of(
                    end,
                    Self::spec_flag_count(),
                ) {
                    flag_of(self@, k)
                } else {
                    old(buf)@[k]
                },
            region@ == final(buf)@.subrange(
                lower_of(start),
                upper_of(end, Self::spec_flag_count()) + 1,
            ),
    {
        let upper = upper_bound(end, Self::flag_count());
        let lower = lower_bound(start);
        let mut region: Vec<bool> = Vec::new();
        let mut n: usize = lower;
        while n <= upper
            invariant
                lower <= n <= upper + 1,
                upper < 64,
                upper < buf@.len(),
                buf@.len() == old(buf)@.len(),
                forall|k: int|
                    0 <= k < buf@.len() ==> buf@[k] == if lower <= k < n {
                        flag_of(self@, k)
                    } else {
                        old(buf)@[k]
                    },
                region@ =~= buf@.subrange(lower as int, n as int),
            decreases upper + 1 - n,
        {
            let flag = self.read_flag(n);
            buf.set(n, flag);
            region.push(flag);
            n += 1;
        }
        region
    }

    /// The number of flags of the word, in contracts: the number of bits that
    /// the word's type has.
    pub open spec fn spec_flag_count() -> int {
        Int::bits()
    }

    /// Returns the maximum count of flags.
    pub fn flag_count() -> (count: usize)
        ensures
            count == Self::spec_flag_count(),
            0 < count <= 64,
            forall|k: int| flag_of(Int::mask(), k) <==> 0 <= k < count,
    {
        proof {
            Int::lemma_mask();
        }
        Int::bit_count()
    }

    /// Sets all flags to 0.
    pub fn unset_all(&mut self)
        ensures
            final(self)@ == 0,
            forall|k: int| !flag_of(final(self)@, k),
    {
        self.word = Int::from_u64(0);
        let ghost m = Int::mask();
        assert(0u64 & m == 0) by (bit_vector);
        assert forall|k: int| !flag_of(self@, k) by {
            if 0 <= k < 64 {
                let b = k as u64;
                assert((0u64 & (1u64 << b)) == 0) by (bit_vector);
            }
        }
    }

    /// Sets all flags to 1.
    pub fn set_all(&mut self)
        ensures
            final(self)@ == Int::mask(),
            forall|k: int| 0 <= k < Self::spec_flag_count() ==> flag_of(final(self)@, k),
    {
        self.word = Int::from_u64(u64::MAX);
        proof {
            let m = Int::mask();
            assert(0xffff_ffff_ffff_ffffu64 & m == m) by (bit_vector);
            Int::lemma_mask();
        }
    }
}

} // verus!
