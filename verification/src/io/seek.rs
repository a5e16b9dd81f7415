//! Moving a cursor: where to seek from, and the seeking trait.

use crate::io::error::Error;
use vstd::prelude::*;

verus! {

/// Where to seek from.
#[derive(Debug, Clone, Copy, PartialEq, Eq, Structural)]
pub enum SeekFrom {
    /// From the start.
    Start(u64),
    /// From the current cursor position.
    Current(i64),
    /// From the end.
    End(i64),
}

/// The seek trait. Nothing is known of what an implementation answers to a
/// seek; every other method is a seek whose answer is handed on.
pub trait Seek {
    /// Seeks from the argument and returns a position that can be used with
    /// `SeekFrom::Start`.
    fn seek(&mut self, from: SeekFrom) -> Result<u64, Error>;

    /// Rewinds to the beginning: a seek to the start, whose position is
    /// dropped and whose error is handed on.
    fn rewind(&mut self) -> (res: Result<(), Error>)
        ensures
            exists|r: &mut Self, pos: Result<u64, Error>|
                &*r == &*old(self) && &*final(r) == &*final(self) && #[trigger] call_ensures(
                    Self::seek,
                    (r, SeekFrom::Start(0)),
                    pos,
                ) && res == without_position(pos),
    {
        match self.seek(SeekFrom::Start(0)) {
            Ok(_) => Ok(()),
            Err(e) => Err(e),
        }
    }

    /// The stream's length: what a seek to the end answers.
    fn len(&mut self) -> (res: Result<u64, Error>)
        ensures
            exists|r: &mut Self|
                &*r == &*old(self) && &*final(r) == &*final(self) && #[trigger] call_ensures(
                    Self::seek,
                    (r, SeekFrom::End(0)),
                    res,
                ),
    {
        self.seek(SeekFrom::End(0))
    }

    /// Returns the current position: what a seek by nothing answers.
    fn current_position(&mut self) -> (res: Result<u64, Error>)
        ensures
            exists|r: &mut Self|
                &*r == &*old(self) && &*final(r) == &*final(self) && #[trigger] call_ensures(
                    Self::seek,
                    (r, SeekFrom::Current(0)),
                    res,
                ),
    {
        self.seek(SeekFrom::Current(0))
    }

    /// Seeks from the current position: a seek by `n`, whose position is
    /// dropped and whose error is handed on.
    fn seek_relative(&mut self, n: i64) -> (res: Result<(), Error>)
        ensures
            exists|r: &mut Self, pos: Result<u64, Error>|
                &*r == &*old(self) && &*final(r) == &*final(self) && #[trigger] call_ensures(
                    Self::seek,
                    (r, SeekFrom::Current(n)),
                    pos,
                ) && res == without_position(pos),
    {
        match self.seek(SeekFrom::Current(n)) {
            Ok(_) => Ok(()),
            Err(e) => Err(e),
        }
    }
}

/// The answer of a seek without its position.
pub open spec fn without_position(pos: Result<u64, Error>) -> Result<(), Error> {
    match pos {
        Ok(_) => Ok(()),
        Err(e) => Err(e),
    }
}

} // verus!
