//! An input of bytes held in memory.

use crate::brainfuck_runtime_error::IoFailure;
use vstd::prelude::*;

verus! {

/// A sequence of bytes that is read from the front, one byte at a time.
#[derive(Debug)]
pub struct ByteSource {
    bytes: Vec<u8>,
    position: usize,
}

impl ByteSource {
    /// The bytes that have not been read yet.
    pub closed spec fn remaining(&self) -> Seq<u8> {
        if self.position <= self.bytes@.len() {
            self.bytes@.subrange(self.position as int, self.bytes@.len() as int)
        } else {
            Seq::empty()
        }
    }

    /// A source that will hand out `bytes` from first to last.
    pub fn new(bytes: Vec<u8>) -> (r: Self)
        ensures
            r.remaining() == bytes@,
    {
        let r = ByteSource { bytes, position: 0 };
        assert(r.bytes@.subrange(0, r.bytes@.len() as int) == r.bytes@);
        r
    }

    /// Reads the next byte. Fails with `UnexpectedEof`, and changes nothing,
    /// when every byte has been read.
    pub fn read_byte(&mut self) -> (r: Result<u8, IoFailure>)
        ensures
            old(self).remaining().len() > 0 ==> {
                &&& r matches Ok(b)
                &&& b == old(self).remaining()[0]
                &&& final(self).remaining() == old(self).remaining().drop_first()
            },
            old(self).remaining().len() == 0 ==> {
                &&& r matches Err(IoFailure::UnexpectedEof)
                &&& final(self).remaining() == old(self).remaining()
            },
    {
        if self.position < self.bytes.len() {
            let b = self.bytes[self.position];
            self.position = self.position + 1;
            assert(final(self).remaining() == old(self).remaining().drop_first());
            Ok(b)
        } else {
            Err(IoFailure::UnexpectedEof)
        }
    }
}

} // verus!
