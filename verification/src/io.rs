//! The in-memory seekable byte stream that decoders read from.

use vstd::prelude::*;

use crate::error::BinResult;
use crate::error::Error;
use crate::error::IoErrorKind;

verus! {

/// The mathematical view of a stream: the bytes it holds and the current
/// read position. The position may lie beyond the end of the data (a seek
/// past the end is allowed); any read there fails.
pub struct StreamView {
    /// The bytes of the stream.
    pub data: Seq<u8>,
    /// The current read position.
    pub pos: int,
}

/// A seekable in-memory byte stream, read from front to back by the decode
/// engine. It owns its bytes; decoders only advance or reset the position
/// and never change the data.
pub struct Cursor {
    data: Vec<u8>,
    pos: u64,
}

impl View for Cursor {
    type V = StreamView;

    closed spec fn view(&self) -> StreamView {
        StreamView { data: self.data@, pos: self.pos as int }
    }
}

impl Cursor {
    /// A stream over the given bytes, positioned at the start.
    pub fn new(data: Vec<u8>) -> (c: Cursor)
        ensures
            c@.data == data@,
            c@.pos == 0,
    {
        Cursor { data, pos: 0 }
    }

    /// The current read position.
    pub fn stream_position(&self) -> (p: u64)
        ensures
            p as int == self@.pos,
    {
        self.pos
    }

    /// Moves the read position to the given absolute offset.
    pub fn seek_to(&mut self, pos: u64)
        ensures
            final(self)@.data == old(self)@.data,
            final(self)@.pos == pos as int,
    {
        self.pos = pos;
    }

    /// The number of bytes the stream holds.
    pub fn len(&self) -> (n: usize)
        ensures
            n as int == self@.data.len(),
    {
        self.data.len()
    }

    /// Reads exactly `n` bytes at the current position and advances past
    /// them. When fewer than `n` bytes remain, fails with a short-read error
    /// and leaves the position unchanged.
    pub fn read_bytes(&mut self, n: usize) -> (r: BinResult<Vec<u8>>)
        ensures
            final(self)@.data == old(self)@.data,
            old(self)@.pos >= 0,
            match r {
                Ok(bytes) => {
                    &&& n == 0 || old(self)@.pos + n <= old(self)@.data.len()
                    &&& bytes@ == (if n == 0 {
                        Seq::<u8>::empty()
                    } else {
                        old(self)@.data.subrange(old(self)@.pos, old(self)@.pos + n)
                    })
                    &&& final(self)@.pos == old(self)@.pos + n
                },
                Err(e) => {
                    &&& n > 0 && old(self)@.pos + n > old(self)@.data.len()
                    &&& e == Error::Io(IoErrorKind::UnexpectedEof)
                    &&& final(self)@.pos == old(self)@.pos
                },
            },
    {
        if n == 0 {
            return Ok(Vec::new());
        }
        let len = self.data.len();
        if self.pos > len as u64 || (n as u64) > (len as u64) - self.pos {
            return Err(Error::Io(IoErrorKind::UnexpectedEof));
        }
        let start = self.pos as usize;
        let mut bytes: Vec<u8> = Vec::with_capacity(n);
        let mut i: usize = 0;
        let mut j: usize = start;
        while i < n
            invariant
                bytes@ == self.data@.subrange(start as int, start + i),
                0 <= i <= n,
                j == start + i,
                start + n <= len,
                len as int == self.data@.len(),
            decreases n - i,
        {
            let b = self.data[j];
            bytes.push(b);
            proof {
                assert(self.data@.subrange(start as int, start + i).push(b) =~= self.data@.subrange(
                    start as int,
                    start + i + 1,
                ));
            }
            i += 1;
            j += 1;
        }
        self.pos = self.pos + n as u64;
        Ok(bytes)
    }
}

} // verus!
