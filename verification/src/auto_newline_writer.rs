//! An output that is made to end on a line boundary.

use crate::brainfuck_runtime_error::IoFailure;
use vstd::prelude::*;

verus! {

/// The byte that ends a line.
pub const NEWLINE: u8 = 10;

/// Whether a sequence of bytes ends with a line terminator.
pub open spec fn ends_with_newline(bytes: Seq<u8>) -> bool {
    bytes.len() > 0 && bytes.last() == NEWLINE
}

/// What has to follow `written` so that the output ends on a line
/// boundary: nothing if its last byte ends a line, one terminator if not.
pub open spec fn closing(written: Seq<u8>) -> Seq<u8> {
    if ends_with_newline(written) {
        Seq::empty()
    } else {
        seq![NEWLINE]
    }
}

/// Closing an output twice adds nothing the second time, and closing adds
/// at most one byte and alters none.
pub proof fn lemma_closing_idempotent(written: Seq<u8>)
    ensures
        closing(written + closing(written)) == Seq::<u8>::empty(),
        ends_with_newline(written + closing(written)),
        (written + closing(written)).subrange(0, written.len() as int) == written,
        closing(written).len() <= 1,
{
    let closed = written + closing(written);
    assert(closed.subrange(0, written.len() as int) == written);
    if ends_with_newline(written) {
        assert(closed == written);
    } else {
        assert(closed.last() == NEWLINE);
    }
}

/// A writer over a buffer of bytes that remembers whether the last byte
/// written through it ended a line, and on `finish` ends the line if not.
pub struct AutoNewlineWriter {
    writer: Vec<u8>,
    history: Ghost<Seq<u8>>,
    last_written_char_is_newline: bool,
}

impl AutoNewlineWriter {
    /// The writer's record agrees with what was written through it.
    pub closed spec fn wf(&self) -> bool {
        self.last_written_char_is_newline == ends_with_newline(self.history@)
    }

    /// The bytes that the buffer holds now.
    pub closed spec fn buffer(&self) -> Seq<u8> {
        self.writer@
    }

    /// Every byte written through the writer since it was made, in order.
    pub closed spec fn written(&self) -> Seq<u8> {
        self.history@
    }

    /// Since `earlier`, the bytes `added` were written through the writer
    /// and nothing was taken out of its buffer.
    pub open spec fn grew_by(&self, earlier: &Self, added: Seq<u8>) -> bool {
        &&& self.buffer() == earlier.buffer() + added
        &&& self.written() == earlier.written() + added
    }

    /// Puts a writer over a buffer. Nothing has been written through it yet.
    pub fn new(writer: Vec<u8>) -> (r: Self)
        ensures
            r.wf(),
            r.buffer() == writer@,
            r.written() == Seq::<u8>::empty(),
    {
        AutoNewlineWriter {
            writer,
            history: Ghost(Seq::empty()),
            last_written_char_is_newline: false,
        }
    }

    /// Appends `buf` to the buffer, all of it, and returns its length. A
    /// buffer in memory takes every byte: this never fails.
    pub fn write(&mut self, buf: &[u8]) -> (r: Result<usize, IoFailure>)
        requires
            old(self).wf(),
        ensures
            final(self).wf(),
            final(self).buffer() == old(self).buffer() + buf@,
            final(self).written() == old(self).written() + buf@,
            r matches Ok(n) ==> n == buf@.len(),
            r is Ok,
    {
        let mut i: usize = 0;
        while i < buf.len()
            invariant
                0 <= i <= buf@.len(),
                self.writer@ == old(self).writer@ + buf@.subrange(0, i as int),
                self.history@ == old(self).history@ + buf@.subrange(0, i as int),
                self.last_written_char_is_newline == ends_with_newline(self.history@),
            decreases buf@.len() - i,
        {
            let byte = buf[i];
            self.writer.push(byte);
            self.last_written_char_is_newline = byte == NEWLINE;
            proof {
                self.history@ = self.history@.push(byte);
            }
            i = i + 1;
            assert(buf@.subrange(0, i as int) == buf@.subrange(0, i - 1).push(byte));
        }
        assert(buf@.subrange(0, buf@.len() as int) == buf@);
        Ok(buf.len())
    }

    /// Hands on what has been written. For a buffer in memory there is
    /// nothing left to do: this never fails and changes nothing.
    pub fn flush(&mut self) -> (r: Result<(), IoFailure>)
        ensures
            *final(self) == *old(self),
            r is Ok,
    {
        Ok(())
    }

    /// Takes the bytes out of the buffer, which is empty afterwards. The
    /// writer still knows what was written through it.
    pub fn drain(&mut self) -> (r: Vec<u8>)
        requires
            old(self).wf(),
        ensures
            final(self).wf(),
            r@ == old(self).buffer(),
            final(self).buffer() == Seq::<u8>::empty(),
            final(self).written() == old(self).written(),
    {
        let mut taken: Vec<u8> = Vec::new();
        std::mem::swap(&mut self.writer, &mut taken);
        taken
    }

    /// Ends the output: if the last byte written through the writer is not
    /// a line terminator, or nothing was written, one terminator is
    /// appended. The buffer comes back with nothing else changed.
    pub fn finish(self) -> (r: Vec<u8>)
        requires
            self.wf(),
        ensures
            r@ == self.buffer() + closing(self.written()),
    {
        let mut this = self;
        if !this.last_written_char_is_newline {
            this.writer.push(NEWLINE);
            assert(this.writer@ == self.writer@ + seq![NEWLINE]);
        }
        this.writer
    }
}

} // verus!
