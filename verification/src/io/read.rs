//! Reading: the reading trait, the end-of-file test, and the adapters that
//! chain two readers and limit one.

use crate::io::error::{spec_kind, Error, ErrorKind};
use vstd::prelude::*;

verus! {

/// Default buffer size.
pub const DEFAULT_BUF_SIZE: usize = 1024;

/// A mutable slice of bytes for reads.
#[derive(Debug)]
pub struct IoSliceMut<'a> {
    inner: &'a mut [u8],
}

impl<'a> IoSliceMut<'a> {
    /// The bytes of the slice, in contracts.
    pub closed spec fn bytes(&self) -> Seq<u8> {
        self.inner@
    }

    /// Returns a new `IoSliceMut` with the passed in buffer.
    pub fn new(buf: &'a mut [u8]) -> (slice: IoSliceMut<'a>)
        ensures
            slice.bytes() == old(buf)@,
    {
        IoSliceMut { inner: buf }
    }

    /// Returns the mutable reference.
    pub fn get_mut(&mut self) -> (buf: &mut [u8])
        ensures
            buf@ == old(self).bytes(),
            final(self).bytes() == final(buf)@,
    {
        self.inner
    }

    /// Returns the length of the slice.
    pub fn len(&self) -> (len: usize)
        ensures
            len == self.bytes().len(),
    {
        self.inner.len()
    }

    /// Returns whether the slice is empty.
    pub fn is_empty(&self) -> (empty: bool)
        ensures
            empty == (self.bytes().len() == 0),
    {
        self.inner.len() == 0
    }
}

/// Returns whether the result of a read is an end of file: `Ok(0)`.
pub fn is_eof(res: &Result<usize, Error>) -> (eof: bool)
    ensures
        eof == (res matches Ok(n) && n == 0),
{
    match res {
        Ok(n) => *n == 0,
        Err(_) => false,
    }
}

/// What to do after one read of a reader whose bytes must fill a buffer.
#[derive(Debug)]
pub enum ExactStep {
    /// The buffer is full.
    Full,
    /// The read delivered this many bytes and more are needed.
    Advance(usize),
    /// The read was interrupted and is to be made again.
    Retry,
    /// The reader ended before the buffer was full, or the read failed.
    Fail(Error),
}

/// Readable data. An implementation says how many bytes it has put at the
/// start of the buffer, which is never more than the buffer holds; `Ok(0)` is
/// the end of the file.
pub trait Read {
    /// Reads data into the buffer, returning the number of bytes read.
    fn read(&mut self, buf: &mut [u8]) -> (res: Result<usize, Error>)
        ensures
            final(buf)@.len() == old(buf)@.len(),
            res matches Ok(n) ==> n <= old(buf)@.len(),
    ;

    /// Reads into several buffers: one read into the first buffer that is not
    /// empty, and the end of the file, with nothing asked of the reader, where
    /// there is none.
    fn read_vectored(&mut self, bufs: &mut [IoSliceMut<'_>]) -> (res: Result<usize, Error>)
        ensures
            (forall|k: int| 0 <= k < old(bufs)@.len() ==> (#[trigger] old(bufs)@[k]).bytes().len()
                == 0) ==> (res matches Ok(n) && n == 0) && &*final(self) == &*old(self)
                && final(bufs)@ == old(bufs)@,
            (exists|k: int| 0 <= k < old(bufs)@.len() && (#[trigger] old(bufs)@[k]).bytes().len()
                > 0) ==> exists|r: &mut Self, b: &mut [u8], k: int|
                #![trigger call_ensures(Self::read, (r, b), res), old(bufs)@[k]]
                {
                    &&& 0 <= k < old(bufs)@.len()
                    &&& forall|j: int| 0 <= j < k ==> (#[trigger] old(bufs)@[j]).bytes().len() == 0
                    &&& &*r == &*old(self)
                    &&& &*final(r) == &*final(self)
                    &&& b@ == old(bufs)@[k].bytes()
                    &&& b@.len() > 0
                    &&& call_ensures(Self::read, (r, b), res)
                    &&& final(bufs)@.len() == old(bufs)@.len()
                    &&& final(bufs)@[k].bytes() == final(b)@
                    &&& forall|j: int|
                        0 <= j < old(bufs)@.len() && j != k ==> #[trigger] final(bufs)@[j] == old(
                            bufs,
                        )@[j]
                },
    {
        let n = bufs.len();
        let mut k: usize = 0;
        while k < n
            invariant
                0 <= k <= n,
                n == bufs@.len(),
                bufs@ == old(bufs)@,
                &*self == &*old(self),
                forall|j: int| 0 <= j < k ==> (#[trigger] bufs@[j]).bytes().len() == 0,
            decreases n - k,
        {
            if !bufs[k].is_empty() {
                return self.read(bufs[k].get_mut());
            }
            k += 1;
        }
        Ok(0)
    }

    /// Whether this reader has an efficient vectored read.
    fn is_read_vectored(&self) -> bool {
        false
    }

    /// Whether this reader never returns the end of the file.
    fn is_endless(&self) -> bool {
        false
    }

    /// Optional size hint to the reader.
    fn size_hint(&self) -> Option<usize> {
        None
    }
}

/// Judges one read of `remaining` bytes still to be filled: the end of the
/// file before the buffer is full is the error of an early end, a read whose
/// error is of the kind `Interrupted` is made again, and any other error ends
/// the reading.
pub fn exact_step(res: Result<usize, Error>, remaining: usize) -> (step: ExactStep)
    requires
        res matches Ok(n) ==> n <= remaining,
    ensures
        match res {
            Ok(n) => if n == remaining {
                step is Full
            } else if n == 0 {
                step matches ExactStep::Fail(e) && e.data() == Error::spec_early_eof()
            } else {
                step matches ExactStep::Advance(k) && k == n
            },
            Err(e) => if spec_kind(e.data()) == Some(ErrorKind::Interrupted) {
                step is Retry
            } else {
                step matches ExactStep::Fail(f) && f == e
            },
        },
{
    match res {
        Ok(n) => {
            if n == remaining {
                ExactStep::Full
            } else if n == 0 {
                ExactStep::Fail(Error::early_eof())
            } else {
                ExactStep::Advance(n)
            }
        },
        Err(e) => {
            match e.kind() {
                Some(ErrorKind::Interrupted) => ExactStep::Retry,
                _ => ExactStep::Fail(e),
            }
        },
    }
}

/// A chain of two readers: the second is read once the first is at its end.
#[derive(Debug, Clone)]
pub struct Chain<R1: Read, R2: Read> {
    first: R1,
    second: R2,
}

impl<R1: Read, R2: Read> Chain<R1, R2> {
    /// The reader that is read first, in contracts.
    pub closed spec fn spec_first(&self) -> R1 {
        self.first
    }

    /// The reader that is read once the first is at its end, in contracts.
    pub closed spec fn spec_second(&self) -> R2 {
        self.second
    }

    /// Chains `first` and `second`.
    pub fn new(first: R1, second: R2) -> (chain: Self)
        ensures
            chain.spec_first() == first,
            chain.spec_second() == second,
    {
        Chain { first, second }
    }

    /// Gives back the two readers.
    pub fn into_inner(self) -> (readers: (R1, R2))
        ensures
            readers.0 == self.spec_first(),
            readers.1 == self.spec_second(),
    {
        (self.first, self.second)
    }
}

impl<R1: Read, R2: Read> Read for Chain<R1, R2> {
    /// Reads from the first reader; where that is at its end, reads from the
    /// second into what the first left of the buffer. The answer is the
    /// second reader's in that case and the first reader's in every other,
    /// in which the second reader is not asked.
    fn read(&mut self, buf: &mut [u8]) -> (res: Result<usize, Error>)
        ensures
            exists|r1: &mut R1, b1: &mut [u8], first: Result<usize, Error>|
                {
                    &&& *r1 == old(self).spec_first()
                    &&& *final(r1) == final(self).spec_first()
                    &&& b1@ == old(buf)@
                    &&& #[trigger] call_ensures(R1::read, (r1, b1), first)
                    &&& if first matches Ok(n) && n == 0 {
                        exists|r2: &mut R2, b2: &mut [u8]|
                            {
                                &&& *r2 == old(self).spec_second()
                                &&& *final(r2) == final(self).spec_second()
                                &&& b2@ == final(b1)@
                                &&& final(buf)@ == final(b2)@
                                &&& #[trigger] call_ensures(R2::read, (r2, b2), res)
                            }
                    } else {
                        &&& res == first
                        &&& final(self).spec_second() == old(self).spec_second()
                        &&& final(buf)@ == final(b1)@
                    }
                },
    {
        let first = self.first.read(buf);
        if is_eof(&first) {
            self.second.read(buf)
        } else {
            first
        }
    }
}

/// A reader adapter that reads at most `limit` bytes from the inner reader.
#[derive(Debug, Clone)]
pub struct Take<R> {
    inner: R,
    limit: u64,
}

impl<R> Take<R> {
    /// The inner reader, in contracts.
    pub closed spec fn spec_inner(&self) -> R {
        self.inner
    }

    /// The bytes that may still be read, in contracts.
    pub closed spec fn spec_limit(&self) -> u64 {
        self.limit
    }

    /// Creates a new `Take` wrapping `inner` with a byte limit.
    pub fn new(inner: R, limit: u64) -> (take: Self)
        ensures
            take.spec_inner() == inner,
            take.spec_limit() == limit,
    {
        Self { inner, limit }
    }

    /// Gets the remaining limit.
    pub fn limit(&self) -> (limit: u64)
        ensures
            limit == self.spec_limit(),
    {
        self.limit
    }

    /// Sets a new limit; the inner reader stays as it is.
    pub fn set_limit(&mut self, limit: u64)
        ensures
            final(self).spec_limit() == limit,
            final(self).spec_inner() == old(self).spec_inner(),
    {
        self.limit = limit;
    }

    /// Gives back the inner reader.
    pub fn into_inner(self) -> (inner: R)
        ensures
            inner == self.spec_inner(),
    {
        self.inner
    }

    /// Returns a mutable reference to the inner reader.
    pub fn get_mut(&mut self) -> (inner: &mut R)
        ensures
            *inner == old(self).spec_inner(),
            final(self).spec_inner() == *final(inner),
            final(self).spec_limit() == old(self).spec_limit(),
    {
        &mut self.inner
    }

    /// Returns a reference to the inner reader.
    pub fn get_ref(&self) -> (inner: &R)
        ensures
            *inner == self.spec_inner(),
    {
        &self.inner
    }

    /// How many bytes a read into a buffer of `len` bytes may ask of the inner
    /// reader: the smaller of `len` and the limit.
    pub fn clamp(&self, len: usize) -> (max: usize)
        ensures
            max == if len <= self.spec_limit() {
                len as int
            } else {
                self.spec_limit() as int
            },
    {
        if len as u64 <= self.limit {
            len
        } else {
            self.limit as usize
        }
    }
}

impl<R: Read> Read for Take<R> {
    /// Reads from the inner reader into the start of `buf`, no more than the
    /// limit allows, and takes what was read off the limit. At limit 0 this is
    /// the end of the file and the inner reader is not asked.
    fn read(&mut self, buf: &mut [u8]) -> (res: Result<usize, Error>)
        ensures
            old(self).spec_limit() == 0 ==> (res matches Ok(n) && n == 0) && final(buf)@ == old(
                buf,
            )@ && final(self).spec_limit() == 0,
            res matches Ok(n) ==> n <= old(self).spec_limit() && final(self).spec_limit() == old(
                self,
            ).spec_limit() - n,
            res is Err ==> final(self).spec_limit() == old(self).spec_limit(),
            forall|k: int|
                old(self).spec_limit() <= k < old(buf)@.len() ==> final(buf)@[k] == old(buf)@[k],
            old(self).spec_limit() == 0 ==> final(self).spec_inner() == old(self).spec_inner(),
            old(self).spec_limit() > 0 ==> exists|r: &mut R, head: &mut [u8]|
                {
                    let max = if old(buf)@.len() <= old(self).spec_limit() {
                        old(buf)@.len() as int
                    } else {
                        old(self).spec_limit() as int
                    };
                    &&& *r == old(self).spec_inner()
                    &&& *final(r) == final(self).spec_inner()
                    &&& head@ == old(buf)@.subrange(0, max)
                    &&& final(buf)@ == final(head)@ + old(buf)@.subrange(
                        max,
                        old(buf)@.len() as int,
                    )
                    &&& #[trigger] call_ensures(R::read, (r, head), res)
                },
    {
        if self.limit == 0 {
            return Ok(0);
        }
        let max = self.clamp(buf.len());
        let (head, tail) = buf.split_at_mut(max);
        let res = self.inner.read(head);
        match res {
            Ok(n) => {
                self.limit -= n as u64;
                Ok(n)
            },
            Err(e) => Err(e),
        }
    }

    /// A `Take` has a vectored read of its own.
    fn is_read_vectored(&self) -> (vectored: bool)
        ensures
            vectored,
    {
        true
    }
}

} // verus!
