use vstd::prelude::*;
use std::collections::VecDeque;

verus! {

/// Number of bytes that wait for the console at most.
pub const DEFAULT_OUT_BUFFER_SIZE: usize = 10_000;

/// Number of bytes from the console that wait to be read at most.
pub const DEFAULT_IN_BUFFER_SIZE: usize = 1_000;

/// The two queues of bytes between the kernel and its console.
pub struct ConsoleBuffers {
    pub in_buffer: VecDeque<u8>,
    pub out_buffer: VecDeque<u8>,
}

/// `queue` with `c` behind it, unless it holds `limit` bytes already.
pub open spec fn pushed(queue: Seq<u8>, c: u8, limit: usize) -> Seq<u8> {
    if queue.len() < limit {
        queue.push(c)
    } else {
        queue
    }
}

impl ConsoleBuffers {
    /// Two empty queues.
    pub fn new() -> (buffers: ConsoleBuffers)
        ensures
            buffers.in_buffer@ == Seq::<u8>::empty(),
            buffers.out_buffer@ == Seq::<u8>::empty(),
    {
        ConsoleBuffers { in_buffer: VecDeque::new(), out_buffer: VecDeque::new() }
    }

    /// Queues a byte for the console. A byte that finds the queue full is dropped.
    pub fn push_stdout(&mut self, c: u8)
        ensures
            final(self).out_buffer@ == pushed(old(self).out_buffer@, c, DEFAULT_OUT_BUFFER_SIZE),
            final(self).in_buffer@ == old(self).in_buffer@,
    {
        if self.out_buffer.len() < DEFAULT_OUT_BUFFER_SIZE {
            self.out_buffer.push_back(c);
        }
    }

    /// Takes the oldest byte that waits for the console, or 0 if none does.
    pub fn pop_stdout(&mut self) -> (c: u8)
        ensures
            old(self).out_buffer@.len() > 0 ==> c == old(self).out_buffer@[0] && final(self).out_buffer@ == old(self).out_buffer@.drop_first(),
            old(self).out_buffer@.len() == 0 ==> c == 0 && final(self).out_buffer@ == old(self).out_buffer@,
            final(self).in_buffer@ == old(self).in_buffer@,
    {
        match self.out_buffer.pop_front() {
            Some(c) => c,
            None => 0,
        }
    }

    /// Queues a byte that came from the console. A byte that finds the
    /// queue full is dropped.
    pub fn push_stdin(&mut self, c: u8)
        ensures
            final(self).in_buffer@ == pushed(old(self).in_buffer@, c, DEFAULT_IN_BUFFER_SIZE),
            final(self).out_buffer@ == old(self).out_buffer@,
    {
        if self.in_buffer.len() < DEFAULT_IN_BUFFER_SIZE {
            self.in_buffer.push_back(c);
        }
    }

    /// Takes the oldest byte that came from the console, or 0 if there is none.
    pub fn pop_stdin(&mut self) -> (c: u8)
        ensures
            old(self).in_buffer@.len() > 0 ==> c == old(self).in_buffer@[0] && final(self).in_buffer@ == old(self).in_buffer@.drop_first(),
            old(self).in_buffer@.len() == 0 ==> c == 0 && final(self).in_buffer@ == old(self).in_buffer@,
            final(self).out_buffer@ == old(self).out_buffer@,
    {
        match self.in_buffer.pop_front() {
            Some(c) => c,
            None => 0,
        }
    }
}

} // verus!
