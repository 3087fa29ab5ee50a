//! An in-memory random-access byte source with a cursor.
//!
//! The decoders of this crate pull bytes from a [`Source`], which plays the
//! role of a seekable stream: reads advance the cursor, seeks reposition it,
//! and a read past the end yields nothing. Callers load the stream's bytes
//! up front and resolve payload descriptors against the same buffer later.

use vstd::prelude::*;

verus! {

/// A byte buffer together with a cursor position.
///
/// Reading never fails: a read at or past the end of the buffer simply
/// returns `None`, which stands for end-of-stream.
#[derive(Debug, Clone, PartialEq, Eq)]
pub struct Source {
    pub bytes: Vec<u8>,
    pub pos: usize,
}

impl Source {
    /// Wraps a byte buffer with the cursor at the start.
    pub fn new(bytes: Vec<u8>) -> (r: Source)
        ensures
            r.bytes@ == bytes@,
            r.pos == 0,
    {
        Source { bytes, pos: 0 }
    }

    /// Moves the cursor back to the start of the stream.
    pub fn seek_start(&mut self)
        ensures
            final(self).bytes@ == old(self).bytes@,
            final(self).pos == 0,
    {
        self.pos = 0;
    }

    /// The current cursor position, as a stream offset.
    pub fn position(&self) -> (r: u64)
        ensures
            r == self.pos as u64,
    {
        self.pos as u64
    }

    /// The total number of bytes in the stream.
    pub fn len(&self) -> (r: usize)
        ensures
            r == self.bytes@.len(),
    {
        self.bytes.len()
    }

    /// Reads one byte and advances the cursor, or reports end-of-stream.
    pub fn read_byte(&mut self) -> (r: Option<u8>)
        ensures
            final(self).bytes@ == old(self).bytes@,
            old(self).pos < old(self).bytes@.len() ==> {
                &&& r == Some(old(self).bytes@[old(self).pos as int])
                &&& final(self).pos == old(self).pos + 1
            },
            old(self).pos >= old(self).bytes@.len() ==> {
                &&& r is None
                &&& final(self).pos == old(self).pos
            },
    {
        if self.pos < self.bytes.len() {
            let b = self.bytes[self.pos];
            self.pos = self.pos + 1;
            Some(b)
        } else {
            None
        }
    }

    /// Looks at the byte under the cursor without consuming it.
    pub fn peek_byte(&self) -> (r: Option<u8>)
        ensures
            self.pos < self.bytes@.len() ==> r == Some(self.bytes@[self.pos as int]),
            self.pos >= self.bytes@.len() ==> r is None,
    {
        if self.pos < self.bytes.len() {
            Some(self.bytes[self.pos])
        } else {
            None
        }
    }

    /// Consumes the byte under the cursor; the caller must know one is there.
    pub fn skip_byte(&mut self)
        requires
            old(self).pos < old(self).bytes@.len(),
        ensures
            final(self).bytes@ == old(self).bytes@,
            final(self).pos == old(self).pos + 1,
    {
        proof {
            assert(self.bytes.len() == self.bytes@.len());
        }
        self.pos = self.pos + 1;
    }

    /// Reads exactly `n` bytes, advancing the cursor, or reports
    /// end-of-stream without moving if fewer than `n` bytes remain.
    pub fn read_exact(&mut self, n: usize) -> (r: Option<Vec<u8>>)
        ensures
            final(self).bytes@ == old(self).bytes@,
            old(self).pos + n <= old(self).bytes@.len() ==> {
                &&& match r {
                    Some(v) => v@ == old(self).bytes@.subrange(
                        old(self).pos as int,
                        old(self).pos + n,
                    ),
                    None => false,
                }
                &&& final(self).pos == old(self).pos + n
            },
            old(self).pos + n > old(self).bytes@.len() ==> {
                &&& r is None
                &&& final(self).pos == old(self).pos
            },
    {
        if n <= self.bytes.len() && self.pos <= self.bytes.len() - n {
            let mut v: Vec<u8> = Vec::new();
            let mut i: usize = 0;
            while i < n
                invariant
                    self.bytes@ == old(self).bytes@,
                    self.pos == old(self).pos,
                    self.pos + n <= self.bytes@.len(),
                    self.bytes@.len() <= usize::MAX,
                    i <= n,
                    v@ == self.bytes@.subrange(self.pos as int, self.pos + i),
                decreases n - i,
            {
                v.push(self.bytes[self.pos + i]);
                proof {
                    assert(self.bytes@.subrange(self.pos as int, self.pos + i + 1)
                        =~= self.bytes@.subrange(self.pos as int, self.pos + i)
                            .push(self.bytes@[self.pos + i]));
                }
                i = i + 1;
            }
            self.pos = self.pos + n;
            Some(v)
        } else {
            None
        }
    }

    /// Moves the cursor forward by `n` bytes; the caller must know the
    /// target still lies within the stream.
    pub fn skip(&mut self, n: usize)
        requires
            old(self).pos + n <= old(self).bytes@.len(),
        ensures
            final(self).bytes@ == old(self).bytes@,
            final(self).pos == old(self).pos + n,
    {
        proof {
            assert(self.bytes.len() == self.bytes@.len());
        }
        self.pos = self.pos + n;
    }

    /// Copies the byte range `[offset, offset + length)` out of the buffer
    /// without touching the cursor; `None` if the range does not fit.
    pub fn read_range(&self, offset: usize, length: usize) -> (r: Option<Vec<u8>>)
        ensures
            offset + length <= self.bytes@.len() ==> match r {
                Some(v) => v@ == self.bytes@.subrange(offset as int, offset + length),
                None => false,
            },
            offset + length > self.bytes@.len() ==> r is None,
    {
        if length <= self.bytes.len() && offset <= self.bytes.len() - length {
            let mut v: Vec<u8> = Vec::new();
            let mut i: usize = 0;
            while i < length
                invariant
                    offset + length <= self.bytes@.len(),
                    self.bytes@.len() <= usize::MAX,
                    i <= length,
                    v@ == self.bytes@.subrange(offset as int, offset + i),
                decreases length - i,
            {
                v.push(self.bytes[offset + i]);
                proof {
                    assert(self.bytes@.subrange(offset as int, offset + i + 1)
                        =~= self.bytes@.subrange(offset as int, offset + i)
                            .push(self.bytes@[offset + i]));
                }
                i = i + 1;
            }
            Some(v)
        } else {
            None
        }
    }
}

} // verus!
