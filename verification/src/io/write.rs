//! Writing: the writing trait and the slices of a vectored write.

use crate::io::error::Error;
use vstd::prelude::*;
use vstd::slice::slice_subrange;

verus! {

/// A slice of bytes for vectored writes.
#[derive(Debug, Clone, Copy)]
pub struct IoSlice<'a> {
    inner: &'a [u8],
}

impl<'a> IoSlice<'a> {
    /// The bytes of the slice, in contracts.
    pub closed spec fn bytes(&self) -> Seq<u8> {
        self.inner@
    }

    /// Creates a new IO slice.
    pub fn new(buf: &'a [u8]) -> (slice: Self)
        ensures
            slice.bytes() == buf@,
    {
        Self { inner: buf }
    }

    /// Gets the bytes of the IO slice.
    pub fn as_slice(&self) -> (buf: &[u8])
        ensures
            buf@ == self.bytes(),
    {
        self.inner
    }
}

/// What to do after one write of a buffer that must be written whole.
#[derive(Debug)]
pub enum WriteStep {
    /// Every byte is written.
    Done,
    /// The write took this many bytes and more are left.
    Advance(usize),
    /// The write failed, or took nothing while bytes were left.
    Fail(Error),
}

/// Judges one write of the `remaining` bytes that are left, of which there is
/// at least one: a write that took them all ends the writing, one that took
/// some goes on with the rest, one that took none is the error of an early
/// end of file, and an error of the write ends the writing with that error.
pub fn write_step(res: Result<usize, Error>, remaining: usize) -> (step: WriteStep)
    requires
        0 < remaining,
        res matches Ok(n) ==> n <= remaining,
    ensures
        match res {
            Ok(n) => if n == 0 {
                step matches WriteStep::Fail(e) && e.data() == Error::spec_early_eof()
            } else if n == remaining {
                step is Done
            } else {
                step matches WriteStep::Advance(k) && k == n
            },
            Err(e) => step matches WriteStep::Fail(f) && f == e,
        },
{
    match res {
        Ok(n) => {
            if n == 0 {
                WriteStep::Fail(Error::early_eof())
            } else if n == remaining {
                WriteStep::Done
            } else {
                WriteStep::Advance(n)
            }
        },
        Err(e) => WriteStep::Fail(e),
    }
}

/// A sink of bytes. An implementation says how many bytes of a buffer it has
/// taken, which is never more than the buffer holds.
pub trait Write {
    /// Attempts to write some bytes from `buf` and returns how many were
    /// written, which may be fewer than `buf` holds.
    fn write(&mut self, buf: &[u8]) -> (res: Result<usize, Error>)
        ensures
            res matches Ok(n) ==> n <= buf@.len(),
    ;

    /// Flushes buffered data; nothing to do for a writer that buffers none.
    fn flush(&mut self) -> Result<(), Error> {
        Ok(())
    }

    /// Vectored write: writes the slices in turn, skipping empty ones, and
    /// stops after the first that was not written whole. Returns the number of
    /// bytes written, or the first error. The slices must not hold more bytes
    /// than can be counted.
    fn write_vectored(&mut self, bufs: &[IoSlice<'_>]) -> (res: Result<usize, Error>)
        requires
            total_len(bufs@) <= usize::MAX,
        ensures
            res matches Ok(n) ==> n <= total_len(bufs@),
            (forall|k: int| 0 <= k < bufs@.len() ==> (#[trigger] bufs@[k]).bytes().len() == 0) ==> (
            res matches Ok(n) && n == 0) && &*final(self) == &*old(self),
            res matches Err(e) ==> exists|r: &mut Self, b: &[u8]|
                b@.len() > 0 && #[trigger] call_ensures(Self::write, (r, b), Err::<usize, Error>(e)),
    {
        let mut total: usize = 0;
        let mut k: usize = 0;
        while k < bufs.len()
            invariant
                0 <= k <= bufs@.len(),
                total <= total_len(bufs@.subrange(0, k as int)),
                total_len(bufs@) <= usize::MAX,
                (forall|j: int| 0 <= j < k ==> (#[trigger] bufs@[j]).bytes().len() == 0) ==> total
                    == 0 && &*self == &*old(self),
            decreases bufs@.len() - k,
        {
            proof {
                assert(bufs@.subrange(0, k + 1).drop_last() =~= bufs@.subrange(0, k as int));
                lemma_total_len_prefix(bufs@, k + 1);
            }
            let slice = bufs[k].as_slice();
            k += 1;
            if slice.len() > 0 {
                match self.write(slice) {
                    Ok(n) => {
                        total += n;
                        if n < slice.len() {
                            proof {
                                lemma_total_len_prefix(bufs@, k as int);
                            }
                            return Ok(total);
                        }
                    },
                    Err(e) => {
                        return Err(e);
                    },
                }
            }
        }
        proof {
            assert(bufs@.subrange(0, k as int) =~= bufs@);
        }
        Ok(total)
    }

    /// Indicates whether `write_vectored` is specialised.
    fn is_write_vectored(&self) -> bool {
        false
    }

    /// Writes the entire buffer, in as many writes as it takes: each write is
    /// handed the bytes that are left, and [`write_step`] judges its answer.
    /// What a writer answers is the writer's own affair, and so is what its own
    /// `write_all` returns where it has one.
    fn write_all(&mut self, buf: &[u8]) -> Result<(), Error> {
        let mut done: usize = 0;
        while done < buf.len()
            invariant
                0 <= done <= buf@.len(),
            decreases buf@.len() - done,
        {
            let rest = slice_subrange(buf, done, buf.len());
            match write_step(self.write(rest), buf.len() - done) {
                WriteStep::Done => {
                    return Ok(());
                },
                WriteStep::Advance(n) => {
                    done += n;
                },
                WriteStep::Fail(e) => {
                    return Err(e);
                },
            }
        }
        Ok(())
    }

    /// Writes all slices completely, each with `write_all`, in turn. With no
    /// slice it succeeds and the writer is not asked; an error is the error
    /// of the `write_all` that failed.
    fn write_all_vectored(&mut self, bufs: &[IoSlice<'_>]) -> (res: Result<(), Error>)
        ensures
            bufs@.len() == 0 ==> res is Ok && &*final(self) == &*old(self),
            res matches Err(e) ==> exists|r: &mut Self, b: &[u8]| #[trigger]
                call_ensures(Self::write_all, (r, b), Err::<(), Error>(e)),
    {
        let mut k: usize = 0;
        while k < bufs.len()
            invariant
                0 <= k <= bufs@.len(),
                k == 0 ==> &*self == &*old(self),
            decreases bufs@.len() - k,
        {
            match self.write_all(bufs[k].as_slice()) {
                Ok(()) => {},
                Err(e) => {
                    return Err(e);
                },
            }
            k += 1;
        }
        Ok(())
    }
}

/// The number of bytes that the slices hold together.
pub open spec fn total_len(bufs: Seq<IoSlice<'_>>) -> int
    decreases bufs.len(),
{
    if bufs.len() == 0 {
        0
    } else {
        total_len(bufs.drop_last()) + bufs.last().bytes().len()
    }
}

/// The first `k` slices hold no more bytes than all of them.
pub proof fn lemma_total_len_prefix(bufs: Seq<IoSlice<'_>>, k: int)
    requires
        0 <= k <= bufs.len(),
    ensures
        0 <= total_len(bufs.subrange(0, k)) <= total_len(bufs),
    decreases bufs.len(),
{
    if k == bufs.len() {
        assert(bufs.subrange(0, k) =~= bufs);
        if bufs.len() > 0 {
            lemma_total_len_prefix(bufs.drop_last(), k - 1);
            assert(bufs.drop_last().subrange(0, k - 1) =~= bufs.drop_last());
        }
    } else {
        lemma_total_len_prefix(bufs.drop_last(), k);
        assert(bufs.drop_last().subrange(0, k) =~= bufs.subrange(0, k));
    }
}

} // verus!
