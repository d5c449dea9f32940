use vstd::prelude::*;
use std::collections::VecDeque;

verus! {

/// Number of bytes one mail can hold.
pub const MAIL_BUFFER_SIZE: usize = 256;

/// Number of mails a mailbox can hold.
pub const MAILBOX_SIZE: usize = 16;

/// Result of a read or a write that can transfer nothing now but may later:
/// the task is to be suspended and the call made again when it resumes.
pub const WOULD_BLOCK: isize = -2;

/// How full a ring buffer is.
#[derive(Copy, Clone, PartialEq, Eq, Structural, Debug)]
pub enum MailBufferStatus {
    FULL,
    EMPTY,
    NORMAL,
}

/// A ring of bytes that carries one mail from its sender to the mailbox.
pub struct MailRingBuffer {
    arr: [u8; 256],
    head: usize,
    tail: usize,
    status: MailBufferStatus,
    write_end: bool,
}

/// The number of bytes between `head` and `tail` in a ring of
/// `MAIL_BUFFER_SIZE` slots that is known to be empty, full or neither.
pub open spec fn ring_len(head: usize, tail: usize, status: MailBufferStatus) -> nat {
    if status == MailBufferStatus::EMPTY {
        0
    } else if tail > head {
        (tail - head) as nat
    } else {
        (tail + MAIL_BUFFER_SIZE - head) as nat
    }
}

/// What a ring that holds `content` holds after a write of `bytes`: as many
/// of them as fit are appended.
pub open spec fn ring_after_write(content: Seq<u8>, bytes: Seq<u8>) -> Seq<u8> {
    content + bytes.take(ring_accepts(content, bytes) as int)
}

/// The number of `bytes` that fit into a ring that holds `content`.
pub open spec fn ring_accepts(content: Seq<u8>, bytes: Seq<u8>) -> nat {
    if content.len() >= MAIL_BUFFER_SIZE {
        0
    } else if bytes.len() <= MAIL_BUFFER_SIZE - content.len() {
        bytes.len()
    } else {
        (MAIL_BUFFER_SIZE - content.len()) as nat
    }
}

/// The number of bytes that a read of at most `len` takes out of a ring
/// that holds `content`.
pub open spec fn ring_yields(content: Seq<u8>, len: nat) -> nat {
    if len <= content.len() {
        len
    } else {
        content.len()
    }
}

impl MailRingBuffer {
    /// The indices lie in the ring, and the status says truly whether the
    /// ring is empty, full or neither.
    #[verifier::type_invariant]
    closed spec fn inv(&self) -> bool {
        &&& self.head < MAIL_BUFFER_SIZE
        &&& self.tail < MAIL_BUFFER_SIZE
        &&& (self.status == MailBufferStatus::NORMAL) == (self.head != self.tail)
    }

    /// The bytes in the ring, the oldest first.
    pub closed spec fn view(&self) -> Seq<u8> {
        Seq::new(
            ring_len(self.head, self.tail, self.status),
            |i: int| self.arr@[(self.head + i) % (MAIL_BUFFER_SIZE as int)],
        )
    }

    /// Whether a sender still holds the write end.
    pub closed spec fn write_end_open(&self) -> bool {
        self.write_end
    }

    /// An empty ring without a write end.
    pub fn new() -> (rb: MailRingBuffer)
        ensures
            rb@ == Seq::<u8>::empty(),
            !rb.write_end_open(),
    {
        let rb = MailRingBuffer {
            arr: [0; 256],
            head: 0,
            tail: 0,
            status: MailBufferStatus::EMPTY,
            write_end: false,
        };
        assert(rb@ =~= Seq::<u8>::empty());
        rb
    }

    /// Records that a sender holds the write end.
    pub fn set_write_end(&mut self)
        ensures
            final(self)@ == old(self)@,
            final(self).write_end_open(),
    {
        proof {
            use_type_invariant(&*self);
        }
        self.write_end = true;
        assert(self@ =~= old(self)@);
    }

    /// Records that the sender has dropped the write end.
    pub fn close_write_end(&mut self)
        ensures
            final(self)@ == old(self)@,
            !final(self).write_end_open(),
    {
        proof {
            use_type_invariant(&*self);
        }
        self.write_end = false;
        assert(self@ =~= old(self)@);
    }

    /// Appends one byte to a ring that has room for it.
    pub fn write_byte(&mut self, byte: u8)
        requires
            old(self)@.len() < MAIL_BUFFER_SIZE,
        ensures
            final(self)@ == old(self)@.push(byte),
            final(self).write_end_open() == old(self).write_end_open(),
    {
        proof {
            use_type_invariant(&*self);
        }
        let mut arr = self.arr;
        arr[self.tail] = byte;
        let tail = (self.tail + 1) % MAIL_BUFFER_SIZE;
        let status = if tail == self.head {
            MailBufferStatus::FULL
        } else {
            MailBufferStatus::NORMAL
        };
        *self = MailRingBuffer { arr, head: self.head, tail, status, write_end: self.write_end };
        assert(self@ =~= old(self)@.push(byte));
    }

    /// Takes the oldest byte out of a ring that is not empty.
    pub fn read_byte(&mut self) -> (byte: u8)
        requires
            old(self)@.len() > 0,
        ensures
            byte == old(self)@[0],
            final(self)@ == old(self)@.drop_first(),
            final(self).write_end_open() == old(self).write_end_open(),
    {
        proof {
            use_type_invariant(&*self);
        }
        let c = self.arr[self.head];
        let head = (self.head + 1) % MAIL_BUFFER_SIZE;
        let status = if head == self.tail {
            MailBufferStatus::EMPTY
        } else {
            MailBufferStatus::NORMAL
        };
        *self = MailRingBuffer { arr: self.arr, head, tail: self.tail, status, write_end: self.write_end };
        assert(self@ =~= old(self)@.drop_first());
        c
    }

    /// The number of bytes that can be read.
    pub fn available_read(&self) -> (n: usize)
        ensures
            n == self@.len(),
            n <= MAIL_BUFFER_SIZE,
    {
        proof {
            use_type_invariant(self);
        }
        if self.status == MailBufferStatus::EMPTY {
            0
        } else {
            if self.tail > self.head {
                self.tail - self.head
            } else {
                self.tail + MAIL_BUFFER_SIZE - self.head
            }
        }
    }

    /// The number of bytes that can be written.
    pub fn available_write(&self) -> (n: usize)
        ensures
            n == MAIL_BUFFER_SIZE - self@.len(),
    {
        proof {
            use_type_invariant(self);
        }
        if self.status == MailBufferStatus::FULL {
            0
        } else {
            MAIL_BUFFER_SIZE - self.available_read()
        }
    }

    /// Whether no sender holds the write end any more.
    pub fn all_write_ends_closed(&self) -> (closed: bool)
        ensures
            closed == !self.write_end_open(),
    {
        !self.write_end
    }

    /// Appends as many of `bytes` as fit, and returns how many that was.
    pub fn write_bytes(&mut self, bytes: &Vec<u8>) -> (n: usize)
        ensures
            n == ring_accepts(old(self)@, bytes@),
            final(self)@ == ring_after_write(old(self)@, bytes@),
            final(self).write_end_open() == old(self).write_end_open(),
    {
        let room = self.available_write();
        let count = if bytes.len() < room {
            bytes.len()
        } else {
            room
        };
        let mut i: usize = 0;
        while i < count
            invariant
                i <= count,
                count <= bytes@.len(),
                count + old(self)@.len() <= MAIL_BUFFER_SIZE,
                self@ == old(self)@ + bytes@.take(i as int),
                self.write_end_open() == old(self).write_end_open(),
            decreases count - i,
        {
            self.write_byte(bytes[i]);
            assert(bytes@.take(i + 1) == bytes@.take(i as int).push(bytes@[i as int]));
            assert(old(self)@ + bytes@.take(i + 1) == (old(self)@ + bytes@.take(i as int)).push(
                bytes@[i as int],
            ));
            i += 1;
        }
        count
    }

    /// Takes up to `len` of the oldest bytes out, appends them to `out`, and
    /// returns how many that was.
    pub fn read_bytes(&mut self, out: &mut Vec<u8>, len: usize) -> (n: usize)
        ensures
            n == ring_yields(old(self)@, len as nat),
            final(out)@ == old(out)@ + old(self)@.take(n as int),
            final(self)@ == old(self)@.skip(n as int),
            final(self).write_end_open() == old(self).write_end_open(),
    {
        let stored = self.available_read();
        let count = if len < stored {
            len
        } else {
            stored
        };
        let mut i: usize = 0;
        while i < count
            invariant
                i <= count,
                count <= old(self)@.len(),
                out@ == old(out)@ + old(self)@.take(i as int),
                self@ == old(self)@.skip(i as int),
                self.write_end_open() == old(self).write_end_open(),
            decreases count - i,
        {
            let byte = self.read_byte();
            out.push(byte);
            assert(old(self)@.take(i + 1) == old(self)@.take(i as int).push(old(self)@[i as int]));
            assert(old(out)@ + old(self)@.take(i + 1) == (old(out)@ + old(self)@.take(i as int)).push(
                old(self)@[i as int],
            ));
            assert(old(self)@.skip(i + 1) == old(self)@.skip(i as int).drop_first());
            i += 1;
        }
        assert(old(self)@.skip(0) == old(self)@);
        count
    }
}

/// What is written into a ring comes out again, in order and complete: if
/// `bytes` fit into a ring that holds `content`, then after the write a read
/// of everything yields `content` followed by `bytes`, and leaves the ring
/// empty. Where the bytes lie in the ring plays no part.
pub proof fn lemma_ring_round_trip(content: Seq<u8>, bytes: Seq<u8>)
    requires
        content.len() + bytes.len() <= MAIL_BUFFER_SIZE,
    ensures
        ring_accepts(content, bytes) == bytes.len(),
        ring_yields(ring_after_write(content, bytes), content.len() + bytes.len()) == content.len()
            + bytes.len(),
        ring_after_write(content, bytes).take((content.len() + bytes.len()) as int) == content + bytes,
        ring_after_write(content, bytes).skip((content.len() + bytes.len()) as int) == Seq::<u8>::empty(),
{
    assert(bytes.take(bytes.len() as int) == bytes);
    assert((content + bytes).take((content.len() + bytes.len()) as int) == content + bytes);
}

/// Reading in two steps yields what reading in one step yields: a read of
/// at most `a` bytes followed by a read of at most `b` bytes takes out the
/// same bytes, in the same order, as one read of at most `a + b`.
pub proof fn lemma_ring_read_split(content: Seq<u8>, a: nat, b: nat)
    ensures
        ({
            let first = ring_yields(content, a);
            let rest = content.skip(first as int);
            let second = ring_yields(rest, b);
            &&& first + second == ring_yields(content, a + b)
            &&& content.take(first as int) + rest.take(second as int) == content.take(
                (first + second) as int,
            )
            &&& rest.skip(second as int) == content.skip((first + second) as int)
        }),
{
    let first = ring_yields(content, a);
    let rest = content.skip(first as int);
    let second = ring_yields(rest, b);
    assert(content.take(first as int) + rest.take(second as int) =~= content.take(
        (first + second) as int,
    ));
    assert(rest.skip(second as int) =~= content.skip((first + second) as int));
}

/// Writing in two steps stores what writing in one step stores: a write of
/// `a` followed by a write of `b` leaves in the ring what one write of `a`
/// followed by `b` leaves, whenever `a` fits.
pub proof fn lemma_ring_write_split(content: Seq<u8>, a: Seq<u8>, b: Seq<u8>)
    requires
        content.len() + a.len() <= MAIL_BUFFER_SIZE,
    ensures
        ring_after_write(ring_after_write(content, a), b) == ring_after_write(content, a + b),
{
    assert(a.take(a.len() as int) == a);
    let mid = ring_after_write(content, a);
    let n = ring_accepts(mid, b);
    assert(ring_accepts(content, a + b) == a.len() + n);
    assert((a + b).take((a.len() + n) as int) =~= a + b.take(n as int));
    assert(mid + b.take(n as int) =~= content + (a + b).take((a.len() + n) as int));
}

} // verus!

verus! {

/// The mails of a mailbox, the oldest first.
pub struct MailBoxInner {
    pub mails: VecDeque<MailRingBuffer>,
}

/// Calls `VecDeque::back_mut`. Believed of it, not proved: it hands out
/// the last element of the queue to be changed in place, and no other
/// element changes; for a queue without elements it returns `None`.
#[verifier::external_body]
fn deque_back_mut(mails: &mut VecDeque<MailRingBuffer>) -> (last: Option<&mut MailRingBuffer>)
    ensures
        old(mails)@.len() == 0 ==> last.is_none() && final(mails)@ == old(mails)@,
        old(mails)@.len() > 0 ==> last.is_some() && *last.unwrap() == old(mails)@.last() && final(mails)@
            == old(mails)@.drop_last().push(*final(last.unwrap())),
{
    mails.back_mut()
}

/// The mailbox of a task: the read end of every mail sent to it.
pub struct MailBox {
    pub inner: MailBoxInner,
}

/// The write end of one mail.
pub struct Socket<'a> {
    pub writable: bool,
    pub mail: &'a mut MailRingBuffer,
}

impl<'a> Socket<'a> {
    /// A socket cannot be read from. The call fails with -1.
    pub fn read(&self, len: usize) -> (res: Result<usize, isize>)
        ensures
            res == Err::<usize, isize>(-1isize),
    {
        Err(-1)
    }

    /// The write end of the mail that `buffer` carries.
    pub fn write_end_with_buffer(buffer: &'a mut MailRingBuffer) -> (socket: Socket<'a>)
        ensures
            socket.writable,
            *socket.mail == *old(buffer),
            *final(buffer) == *final(socket.mail),
    {
        Socket { writable: true, mail: buffer }
    }

    /// Writes as many of the bytes of `buf` as the mail has room for and
    /// returns their number. A mail without any room takes nothing and the
    /// call returns `WOULD_BLOCK`.
    pub fn write(&mut self, buf: &Vec<u8>) -> (res: Result<usize, isize>)
        requires
            old(self).writable,
        ensures
            final(self).writable,
            old(self).mail@.len() >= MAIL_BUFFER_SIZE ==> res == Err::<usize, isize>(WOULD_BLOCK)
                && final(self).mail@ == old(self).mail@,
            old(self).mail@.len() < MAIL_BUFFER_SIZE ==> res == Ok::<usize, isize>(
                ring_accepts(old(self).mail@, buf@) as usize,
            ) && final(self).mail@ == ring_after_write(old(self).mail@, buf@),
            final(self).mail.write_end_open() == old(self).mail.write_end_open(),
            *final(final(self).mail) == *final(old(self).mail),
    {
        let loop_write = self.mail.available_write();
        if loop_write == 0 {
            return Err(WOULD_BLOCK);
        }
        let n = self.mail.write_bytes(buf);
        Ok(n)
    }

    /// Gives the write end up: the mail is complete.
    pub fn close(self)
        ensures
            final(self.mail)@ == old(self.mail)@,
            !final(self.mail).write_end_open(),
    {
        self.mail.close_write_end();
    }
}

impl MailBox {
    /// A mailbox without mails.
    pub fn new() -> (mb: MailBox)
        ensures
            mb.inner.mails@.len() == 0,
    {
        MailBox { inner: MailBoxInner { mails: VecDeque::new() } }
    }

    /// Puts a new, empty mail behind the others and returns its write end.
    pub fn create_socket(&mut self) -> (socket: Socket<'_>)
        ensures
            socket.writable,
            socket.mail@ == Seq::<u8>::empty(),
            socket.mail.write_end_open(),
            final(self).inner.mails@ == old(self).inner.mails@.push(*final(socket.mail)),
    {
        let mut buffer = MailRingBuffer::new();
        buffer.set_write_end();
        self.inner.mails.push_back(buffer);
        match deque_back_mut(&mut self.inner.mails) {
            Some(mail) => Socket::write_end_with_buffer(mail),
            None => unreached(),
        }
    }

    /// Whether the mailbox holds no mail.
    pub fn is_empty(&self) -> (r: bool)
        ensures
            r == (self.inner.mails@.len() == 0),
    {
        self.inner.mails.len() == 0
    }

    /// Whether the mailbox holds as many mails as it can.
    pub fn is_full(&self) -> (r: bool)
        ensures
            r == (self.inner.mails@.len() >= MAILBOX_SIZE),
    {
        self.inner.mails.len() >= MAILBOX_SIZE
    }
}

impl MailBox {
    /// Reads from the oldest mail: takes up to `len` of its bytes out,
    /// appends them to `out` and returns their number. A mail that is empty
    /// afterwards and whose sender is done leaves the mailbox; any other
    /// mail stays the oldest, so that a mail is read to its end before the
    /// next one is. Without any mail the call fails with -1. When the oldest
    /// mail is empty but its sender still holds the write end, nothing
    /// changes and the call returns `WOULD_BLOCK`.
    pub fn read(&mut self, out: &mut Vec<u8>, len: usize) -> (res: Result<usize, isize>)
        ensures
            res == mailbox_read_result(old(self).inner.mails@, len),
            res.is_err() ==> final(self).inner.mails@ == old(self).inner.mails@ && final(out)@ == old(out)@,
            res.is_ok() ==> {
                let mail = old(self).inner.mails@[0];
                let n = res.unwrap() as int;
                &&& final(out)@ == old(out)@ + mail@.take(n)
                &&& if mailbox_read_removes(old(self).inner.mails@, len) {
                    final(self).inner.mails@ == old(self).inner.mails@.drop_first()
                } else {
                    &&& final(self).inner.mails@.len() == old(self).inner.mails@.len()
                    &&& final(self).inner.mails@[0]@ == mail@.skip(n)
                    &&& final(self).inner.mails@[0].write_end_open() == mail.write_end_open()
                    &&& forall|i: int|
                        1 <= i < old(self).inner.mails@.len() ==> final(self).inner.mails@[i] == old(self).inner.mails@[i]
                }
            },
    {
        if self.inner.mails.len() == 0 {
            return Err(-1);
        }
        let loop_read = self.inner.mails[0].available_read();
        let closed = self.inner.mails[0].all_write_ends_closed();
        if loop_read == 0 && !closed {
            return Err(WOULD_BLOCK);
        }
        match self.inner.mails.pop_front() {
            Some(mut mail) => {
                let n = mail.read_bytes(out, len);
                if n < loop_read || !closed {
                    // not read to its end yet: it stays the oldest
                    self.inner.mails.push_front(mail);
                }
                Ok(n)
            },
            None => Err(-1),
        }
    }

    /// A mailbox cannot be written to; mails arrive through sockets. The
    /// call fails with -1.
    pub fn write(&self, buf: &Vec<u8>) -> (res: Result<usize, isize>)
        ensures
            res == Err::<usize, isize>(-1isize),
    {
        Err(-1)
    }
}

/// What `MailBox::read` returns for a mailbox that holds `mails`, asked for
/// at most `len` bytes.
pub open spec fn mailbox_read_result(mails: Seq<MailRingBuffer>, len: usize) -> Result<usize, isize> {
    if mails.len() == 0 {
        Err(-1isize)
    } else if mails[0]@.len() == 0 && mails[0].write_end_open() {
        Err(WOULD_BLOCK)
    } else {
        Ok(ring_yields(mails[0]@, len as nat) as usize)
    }
}

/// Whether a successful `MailBox::read` of at most `len` bytes takes the
/// oldest mail out of the mailbox: it does when it empties a mail whose
/// sender is done.
pub open spec fn mailbox_read_removes(mails: Seq<MailRingBuffer>, len: usize) -> bool {
    ring_yields(mails[0]@, len as nat) == mails[0]@.len() && !mails[0].write_end_open()
}

} // verus!
