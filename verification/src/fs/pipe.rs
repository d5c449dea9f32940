use vstd::prelude::*;
use crate::fs::mail::{ring_accepts, ring_after_write, ring_yields, MailRingBuffer, MAIL_BUFFER_SIZE, WOULD_BLOCK};

verus! {

/// The ring of bytes between the two ends of a pipe.
pub type PipeRingBuffer = MailRingBuffer;

/// One end of a pipe: whether it is the end to read from or the end to
/// write to, and which pipe it belongs to.
#[derive(Clone, Copy, Debug, PartialEq, Eq, Structural)]
pub struct Pipe {
    pub readable: bool,
    pub writable: bool,
    /// The number of the pipe among the pipes of the kernel.
    pub buffer: usize,
}

impl Pipe {
    /// The end to read from of the pipe `buffer`.
    pub fn read_end_with_buffer(buffer: usize) -> (pipe: Pipe)
        ensures
            pipe == (Pipe { readable: true, writable: false, buffer }),
    {
        Pipe { readable: true, writable: false, buffer }
    }

    /// The end to write to of the pipe `buffer`.
    pub fn write_end_with_buffer(buffer: usize) -> (pipe: Pipe)
        ensures
            pipe == (Pipe { readable: false, writable: true, buffer }),
    {
        Pipe { readable: false, writable: true, buffer }
    }

    /// What a read of at most `len` bytes from this end returns when the
    /// pipes are `pipes` and `writers` tells whether any task still holds
    /// the other end: -1 for an end that cannot be read from or a pipe
    /// that does not exist; otherwise the number of bytes read, which is 0
    /// at the end of what a pipe without writers holds; and `WOULD_BLOCK`
    /// when the pipe is empty but has a writer.
    pub open spec fn read_result(self, pipes: Seq<MailRingBuffer>, len: usize, writers: bool) -> Result<
        usize,
        isize,
    > {
        if !self.readable || self.buffer >= pipes.len() {
            Err(-1isize)
        } else if len > 0 && pipes[self.buffer as int]@.len() == 0 && writers {
            Err(WOULD_BLOCK)
        } else {
            Ok(ring_yields(pipes[self.buffer as int]@, len as nat) as usize)
        }
    }

    /// What a write of `buf` to this end returns when the pipes are
    /// `pipes`: -1 for an end that cannot be written to or a pipe that
    /// does not exist; otherwise the number of bytes written, as many as
    /// the pipe has room for; and `WOULD_BLOCK` when there are bytes to
    /// write but no room at all.
    pub open spec fn write_result(self, pipes: Seq<MailRingBuffer>, buf: Seq<u8>) -> Result<usize, isize> {
        if !self.writable || self.buffer >= pipes.len() {
            Err(-1isize)
        } else if buf.len() > 0 && pipes[self.buffer as int]@.len() >= MAIL_BUFFER_SIZE {
            Err(WOULD_BLOCK)
        } else {
            Ok(ring_accepts(pipes[self.buffer as int]@, buf) as usize)
        }
    }

    /// Reads up to `len` bytes from the pipe, appends them to `buf`, and
    /// returns their number; see `read_result`. A call that fails changes
    /// nothing.
    pub fn read(&self, pipes: &mut Vec<MailRingBuffer>, buf: &mut Vec<u8>, len: usize, writers: bool) -> (res:
        Result<usize, isize>)
        ensures
            res == self.read_result(old(pipes)@, len, writers),
            final(pipes)@.len() == old(pipes)@.len(),
            forall|i: int|
                0 <= i < old(pipes)@.len() && i != self.buffer ==> final(pipes)@[i] == old(pipes)@[i],
            res.is_err() ==> *final(pipes) == *old(pipes) && final(buf)@ == old(buf)@,
            res.is_ok() ==> {
                let ring = old(pipes)@[self.buffer as int];
                &&& final(buf)@ == old(buf)@ + ring@.take(res.unwrap() as int)
                &&& final(pipes)@[self.buffer as int]@ == ring@.skip(res.unwrap() as int)
                &&& final(pipes)@[self.buffer as int].write_end_open() == ring.write_end_open()
            },
    {
        if !self.readable || self.buffer >= pipes.len() {
            return Err(-1);
        }
        let loop_read = pipes[self.buffer].available_read();
        if len > 0 && loop_read == 0 && writers {
            return Err(WOULD_BLOCK);
        }
        let n = pipes[self.buffer].read_bytes(buf, len);
        Ok(n)
    }

    /// Writes as many of the bytes of `buf` as the pipe has room for and
    /// returns their number; see `write_result`. A call that fails changes
    /// nothing.
    pub fn write(&self, pipes: &mut Vec<MailRingBuffer>, buf: &Vec<u8>) -> (res: Result<usize, isize>)
        ensures
            res == self.write_result(old(pipes)@, buf@),
            final(pipes)@.len() == old(pipes)@.len(),
            forall|i: int|
                0 <= i < old(pipes)@.len() && i != self.buffer ==> final(pipes)@[i] == old(pipes)@[i],
            res.is_err() ==> *final(pipes) == *old(pipes),
            res.is_ok() ==> final(pipes)@[self.buffer as int]@ == ring_after_write(
                old(pipes)@[self.buffer as int]@,
                buf@,
            ) && final(pipes)@[self.buffer as int].write_end_open() == old(pipes)@[self.buffer as int].write_end_open(),
    {
        if !self.writable || self.buffer >= pipes.len() {
            return Err(-1);
        }
        let loop_write = pipes[self.buffer].available_write();
        if buf.len() > 0 && loop_write == 0 {
            return Err(WOULD_BLOCK);
        }
        let n = pipes[self.buffer].write_bytes(buf);
        Ok(n)
    }
}

/// Opens a new, empty pipe among `pipes` and returns its end to read from
/// and its end to write to.
pub fn make_pipe(pipes: &mut Vec<MailRingBuffer>) -> (ends: (Pipe, Pipe))
    ensures
        final(pipes)@.len() == old(pipes)@.len() + 1,
        final(pipes)@.take(old(pipes)@.len() as int) == old(pipes)@,
        final(pipes)@.last()@ == Seq::<u8>::empty(),
        !final(pipes)@.last().write_end_open(),
        ends.0 == (Pipe { readable: true, writable: false, buffer: old(pipes)@.len() as usize }),
        ends.1 == (Pipe { readable: false, writable: true, buffer: old(pipes)@.len() as usize }),
{
    let id = pipes.len();
    pipes.push(MailRingBuffer::new());
    assert(pipes@.take(id as int) =~= old(pipes)@);
    (Pipe::read_end_with_buffer(id), Pipe::write_end_with_buffer(id))
}

} // verus!
