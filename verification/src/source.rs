//! The two shapes in which a container's bytes are handed over: a forward
//! sequence that gives one byte at a time, and a stream that is read in runs.
//! Both stand over bytes that are already in memory.

use vstd::prelude::*;
use vstd::slice::{slice_subrange, slice_to_vec};

verus! {

/// A forward sequence of bytes that can be copied at any point.
#[derive(Clone, Copy)]
pub struct ByteIter<'a> {
    rest: &'a [u8],
}

impl<'a> ByteIter<'a> {
    /// The bytes that are still to come.
    pub closed spec fn remaining(&self) -> Seq<u8> {
        self.rest@
    }

    /// A sequence that gives `bytes` from the first on.
    pub fn new(bytes: &'a [u8]) -> (r: Self)
        ensures
            r.remaining() == bytes@,
    {
        ByteIter { rest: bytes }
    }

    /// The next byte, or `None` at the end.
    pub fn next(&mut self) -> (r: Option<u8>)
        ensures
            match r {
                Some(byte) => {
                    &&& old(self).remaining().len() > 0
                    &&& byte == old(self).remaining()[0]
                    &&& final(self).remaining() == old(self).remaining().skip(1)
                },
                None => {
                    &&& old(self).remaining().len() == 0
                    &&& final(self).remaining().len() == 0
                },
            },
    {
        let len = self.rest.len();
        if len == 0 {
            None
        } else {
            let byte = self.rest[0];
            self.rest = slice_subrange(self.rest, 1, len);
            Some(byte)
        }
    }
}

/// A stream of bytes that is read in runs of a given length.
pub struct ByteReader<'a> {
    rest: &'a [u8],
}

impl<'a> ByteReader<'a> {
    /// The bytes that are still to come.
    pub closed spec fn remaining(&self) -> Seq<u8> {
        self.rest@
    }

    /// A stream that gives `bytes` from the first on.
    pub fn new(bytes: &'a [u8]) -> (r: Self)
        ensures
            r.remaining() == bytes@,
    {
        ByteReader { rest: bytes }
    }

    /// The next `len` bytes. Where fewer are left, `None`, and the stream is
    /// at its end.
    pub fn read_exact(&mut self, len: usize) -> (r: Option<Vec<u8>>)
        ensures
            match r {
                Some(run) => {
                    &&& len <= old(self).remaining().len()
                    &&& run@ == old(self).remaining().take(len as int)
                    &&& final(self).remaining() == old(self).remaining().skip(len as int)
                },
                None => {
                    &&& len > old(self).remaining().len()
                    &&& final(self).remaining().len() == 0
                },
            },
    {
        let left = self.rest.len();
        if len > left {
            self.rest = slice_subrange(self.rest, left, left);
            None
        } else {
            let run = slice_to_vec(slice_subrange(self.rest, 0, len));
            self.rest = slice_subrange(self.rest, len, left);
            Some(run)
        }
    }

    /// All the bytes that are left.
    pub fn read_to_end(&mut self) -> (r: Vec<u8>)
        ensures
            r@ == old(self).remaining(),
            final(self).remaining().len() == 0,
    {
        let left = self.rest.len();
        let run = slice_to_vec(self.rest);
        self.rest = slice_subrange(self.rest, left, left);
        run
    }
}

} // verus!
