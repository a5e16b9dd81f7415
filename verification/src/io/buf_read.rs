//! Buffered reading.

use crate::io::error::Error;
use crate::io::read::Read;
use vstd::prelude::*;

verus! {

/// `pos` is the place of the first `delim` in `bytes`.
pub open spec fn is_first(bytes: Seq<u8>, delim: u8, pos: int) -> bool {
    &&& 0 <= pos < bytes.len()
    &&& bytes[pos] == delim
    &&& forall|k: int| 0 <= k < pos ==> bytes[k] != delim
}

/// The place of the first `delim` in `available`, if there is one.
pub fn delimiter_position(available: &[u8], delim: u8) -> (pos: Option<usize>)
    ensures
        match pos {
            Some(p) => is_first(available@, delim, p as int),
            None => forall|k: int| 0 <= k < available@.len() ==> available@[k] != delim,
        },
{
    let n = available.len();
    let mut k: usize = 0;
    while k < n
        invariant
            0 <= k <= n,
            n == available@.len(),
            forall|j: int| 0 <= j < k ==> available@[j] != delim,
        decreases n - k,
    {
        if available[k] == delim {
            return Some(k);
        }
        k += 1;
    }
    None
}

/// One step of reading until a delimiter: what a reader's buffer holds goes to
/// the end of `buf`, up to and with the first `delim` where there is one, else
/// all of it. Returns how many bytes were taken, which the reader is then to
/// discard, and whether the delimiter was among them.
pub fn until_step(available: &[u8], delim: u8, buf: &mut Vec<u8>) -> (step: (usize, bool))
    ensures
        step.1 <==> exists|p: int| is_first(available@, delim, p),
        step.1 ==> is_first(available@, delim, step.0 - 1),
        !step.1 ==> step.0 == available@.len(),
        final(buf)@ == old(buf)@ + available@.subrange(0, step.0 as int),
{
    let len = available.len();
    let (take, found) = match delimiter_position(available, delim) {
        Some(pos) => (pos + 1, true),
        None => (len, false),
    };
    let mut k: usize = 0;
    while k < take
        invariant
            0 <= k <= take <= available@.len(),
            buf@ == old(buf)@ + available@.subrange(0, k as int),
        decreases take - k,
    {
        buf.push(available[k]);
        proof {
            assert(available@.subrange(0, k + 1) =~= available@.subrange(0, k as int).push(
                available@[k as int],
            ));
            assert(buf@ =~= old(buf)@ + available@.subrange(0, k + 1));
        }
        k += 1;
    }
    (take, found)
}

/// A reader with a buffer of its own.
pub trait BufRead: Read {
    /// Returns the contents of the internal buffer, filling it first where it
    /// is empty.
    fn fill_buf(&mut self) -> Result<&[u8], Error>;

    /// Discards `amt` bytes from the buffer.
    fn consume(&mut self, amt: usize);

    /// Reads exactly enough bytes to fill `buf`, in as many reads as it takes,
    /// each into the places that are still free. A buffer without places is
    /// full at once and the reader is not asked. Success means that the last
    /// read delivered bytes; an error is the error of a read, or the error of
    /// an early end of file after a read that delivered nothing while places
    /// were left.
    fn read_exact(&mut self, buf: &mut [u8]) -> (res: Result<(), Error>)
        ensures
            final(buf)@.len() == old(buf)@.len(),
            old(buf)@.len() == 0 ==> res is Ok && final(buf)@ == old(buf)@ && &*final(self)
                == &*old(self),
            res is Ok && old(buf)@.len() > 0 ==> exists|r: &mut Self, b: &mut [u8], n: usize|
                b@.len() > 0 && n > 0 && #[trigger] call_ensures(
                    <Self as Read>::read,
                    (r, b),
                    Ok::<usize, Error>(n),
                ),
            res matches Err(e) ==> {
                ||| exists|r: &mut Self, b: &mut [u8]|
                    b@.len() > 0 && #[trigger] call_ensures(
                        <Self as Read>::read,
                        (r, b),
                        Err::<usize, Error>(e),
                    )
                ||| e.data() == Error::spec_early_eof() && exists|r: &mut Self, b: &mut [u8]|
                    b@.len() > 0 && #[trigger] call_ensures(
                        <Self as Read>::read,
                        (r, b),
                        Ok::<usize, Error>(0),
                    )
            },
    {
        let len = buf.len();
        let mut filled: usize = 0;
        while filled < len
            invariant
                0 <= filled <= len,
                len == buf@.len(),
                len == old(buf)@.len(),
                filled == 0 ==> buf@ == old(buf)@ && &*self == &*old(self),
                filled > 0 ==> exists|r: &mut Self, b: &mut [u8], n: usize|
                    b@.len() > 0 && n > 0 && #[trigger] call_ensures(
                        <Self as Read>::read,
                        (r, b),
                        Ok::<usize, Error>(n),
                    ),
            decreases len - filled,
        {
            let (_, rest) = buf.split_at_mut(filled);
            match self.read(rest) {
                Ok(n) => {
                    if n == 0 {
                        return Err(Error::early_eof());
                    }
                    filled += n;
                },
                Err(e) => {
                    return Err(e);
                },
            }
        }
        Ok(())
    }

    /// Returns true if there is still data left in the buffer or source: the
    /// buffer is filled, and there is data where it then holds a byte. An
    /// error of the filling is handed on.
    fn has_data_left(&mut self) -> (res: Result<bool, Error>)
        ensures
            exists|r: &mut Self, filled: Result<&[u8], Error>|
                &*r == &*old(self) && &*final(r) == &*final(self) && #[trigger] call_ensures(
                    Self::fill_buf,
                    (r,),
                    filled,
                ) && res == match filled {
                    Ok(available) => Ok::<bool, Error>(available@.len() > 0),
                    Err(e) => Err::<bool, Error>(e),
                },
    {
        match self.fill_buf() {
            Ok(available) => Ok(available.len() > 0),
            Err(e) => Err(e),
        }
    }
}

} // verus!
