//! Small readers and writers: the empty stream, the sink, and the endless
//! repetition of one byte.

use crate::io::buf_read::BufRead;
use crate::io::error::{Error, ErrorData, ErrorKind};
use crate::io::read::Read;
use crate::io::seek::{Seek, SeekFrom};
use crate::io::write::{IoSlice, Write};
use vstd::prelude::*;

verus! {

/// An empty stream: every read is at the end of the file, and no write
/// takes a byte.
#[derive(Debug, PartialEq, Eq, Clone, Copy, Structural)]
pub struct Empty;

impl Read for Empty {
    /// Reads nothing: the stream is at its end.
    fn read(&mut self, buf: &mut [u8]) -> (res: Result<usize, Error>)
        ensures
            res matches Ok(n) && n == 0,
            final(buf)@ == old(buf)@,
    {
        Ok(0)
    }

    fn size_hint(&self) -> (hint: Option<usize>)
        ensures
            hint == Some(0usize),
    {
        Some(0)
    }
}

impl Write for Empty {
    /// Takes no byte.
    fn write(&mut self, buf: &[u8]) -> (res: Result<usize, Error>)
        ensures
            res matches Ok(n) && n == 0,
    {
        Ok(0)
    }

    /// Fails: nothing can be written to the empty stream.
    fn write_all(&mut self, buf: &[u8]) -> (res: Result<(), Error>)
        ensures
            res matches Err(e) && e.data() == ErrorData::SimpleMessage(
                ErrorKind::WriteZero,
                "needed a non-empty reader, but `read` returned EOF",
            ),
    {
        Err(Error::write_to_empty())
    }

    fn write_all_vectored(&mut self, bufs: &[IoSlice<'_>]) -> (res: Result<(), Error>)
        ensures
            res is Ok,
    {
        Ok(())
    }

    fn write_vectored(&mut self, bufs: &[IoSlice<'_>]) -> (res: Result<usize, Error>)
        ensures
            res matches Ok(n) && n == 0,
    {
        proof {
            crate::io::write::lemma_total_len_prefix(bufs@, 0);
        }
        Ok(0)
    }
}

impl Seek for Empty {
    /// There is no position but the start.
    fn seek(&mut self, from: SeekFrom) -> (res: Result<u64, Error>)
        ensures
            res matches Ok(pos) && pos == 0,
    {
        Ok(0)
    }
}

impl BufRead for Empty {
    fn fill_buf(&mut self) -> (res: Result<&[u8], Error>)
        ensures
            res matches Ok(buf) && buf@.len() == 0,
    {
        let empty: &[u8] = &[];
        Ok(empty)
    }

    fn consume(&mut self, amt: usize) {
    }
}

/// Emulates writing, but discards the bytes.
#[derive(Debug, Clone, Copy, PartialEq, Eq, Structural)]
pub struct Sink;

impl Write for Sink {
    /// Takes every byte and keeps none.
    fn write(&mut self, buf: &[u8]) -> (res: Result<usize, Error>)
        ensures
            res matches Ok(n) && n == buf@.len(),
    {
        Ok(buf.len())
    }

    fn write_all(&mut self, buf: &[u8]) -> (res: Result<(), Error>)
        ensures
            res is Ok,
    {
        Ok(())
    }

    fn write_all_vectored(&mut self, bufs: &[IoSlice<'_>]) -> (res: Result<(), Error>)
        ensures
            res is Ok,
    {
        Ok(())
    }
}

impl Seek for Sink {
    /// There is no position but the start.
    fn seek(&mut self, from: SeekFrom) -> (res: Result<u64, Error>)
        ensures
            res matches Ok(pos) && pos == 0,
    {
        Ok(0)
    }
}

/// Repeats the same byte without end.
#[derive(Debug, PartialEq, Eq, Clone, Copy, Structural)]
pub struct Repeat {
    byte: u8,
}

impl Repeat {
    /// The byte that is repeated, in contracts.
    pub closed spec fn spec_byte(&self) -> u8 {
        self.byte
    }

    /// Creates a new `Repeat` that repeats `byte`.
    pub fn new(byte: u8) -> (repeat: Self)
        ensures
            repeat.spec_byte() == byte,
    {
        Self { byte }
    }

    /// Creates a never-ending stream of zeros.
    pub fn zeros() -> (repeat: Self)
        ensures
            repeat.spec_byte() == 0,
    {
        Self::new(0)
    }
}

impl Read for Repeat {
    /// Fills every place of `buf` with the byte and returns how many there
    /// are.
    fn read(&mut self, buf: &mut [u8]) -> (res: Result<usize, Error>)
        ensures
            res matches Ok(n) && n == old(buf)@.len(),
            forall|k: int| 0 <= k < final(buf)@.len() ==> final(buf)@[k] == old(self).spec_byte(),
            final(self).spec_byte() == old(self).spec_byte(),
    {
        let n = buf.len();
        let mut k: usize = 0;
        while k < n
            invariant
                0 <= k <= n,
                n == buf@.len(),
                n == old(buf)@.len(),
                self.byte == old(self).byte,
                forall|j: int| 0 <= j < k ==> buf@[j] == self.byte,
            decreases n - k,
        {
            buf[k] = self.byte;
            k += 1;
        }
        Ok(n)
    }
}

impl Seek for Repeat {
    /// The stream is the same at every position.
    fn seek(&mut self, from: SeekFrom) -> (res: Result<u64, Error>)
        ensures
            res matches Ok(pos) && pos == 0,
            final(self).spec_byte() == old(self).spec_byte(),
    {
        Ok(0)
    }
}

} // verus!
