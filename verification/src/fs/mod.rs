use vstd::prelude::*;
use crate::uart::{same_but, serials_wf, BufferedSerial, SERIAL_NUM};

pub mod mail;
pub mod pipe;
pub mod serial;
pub mod stdio;

pub use mail::{MailBox, MailRingBuffer, Socket};
pub use pipe::{make_pipe, Pipe};
pub use serial::Serial;
pub use stdio::{Stdin, Stdout};

verus! {

/// What a task can read from and write to through a file descriptor. The
/// files of this kernel are backed by the board's serial ports.
pub trait File {
    /// Reads up to `len` bytes and appends them to `buf`. Returns the number
    /// of bytes read, or a negative error.
    fn read(&self, serials: &mut Vec<BufferedSerial>, buf: &mut Vec<u8>, len: usize) -> (res: Result<
        usize,
        isize,
    >)
        requires
            serials_wf(old(serials)@),
        ensures
            serials_wf(final(serials)@),
            res matches Ok(n) ==> 0 < n <= len && final(buf)@.len() == old(buf)@.len() + n && final(buf)@.take(old(buf)@.len() as int) == old(buf)@,
            res.is_err() ==> final(buf)@ == old(buf)@,
    ;

    /// Writes bytes of `buf`, from its start. Returns the number of bytes
    /// written, or a negative error.
    fn write(&self, serials: &mut Vec<BufferedSerial>, buf: &Vec<u8>) -> (res: Result<usize, isize>)
        requires
            serials_wf(old(serials)@),
        ensures
            serials_wf(final(serials)@),
            res matches Ok(n) ==> n <= buf@.len(),
    ;
}

/// An entry of a task's table of open files.
#[derive(Clone, Copy, Debug, PartialEq, Eq, Structural)]
pub enum FileDescriptor {
    Stdin(Stdin),
    Stdout(Stdout),
    Serial(Serial),
    /// An end of a pipe. Pipes do not go through the serial ports: as a
    /// `File`, an end of a pipe fails with -1, and the system calls reach
    /// the pipe by itself.
    Pipe(Pipe),
}

impl FileDescriptor {
    /// The serial port behind the file, if the board has it.
    pub open spec fn port(self) -> Option<int> {
        match self {
            FileDescriptor::Stdin(_) => Some(0),
            FileDescriptor::Stdout(_) => Some(0),
            FileDescriptor::Serial(s) => if s.port < SERIAL_NUM {
                Some(s.port as int)
            } else {
                None
            },
            FileDescriptor::Pipe(_) => None,
        }
    }

    /// What a write of `buf` to the file returns when the serial ports are `serials`.
    pub open spec fn write_result(self, serials: Seq<BufferedSerial>, buf: Seq<u8>) -> Result<usize, isize> {
        match self {
            FileDescriptor::Stdin(_) => Err(-1isize),
            FileDescriptor::Stdout(_) => Ok(buf.len() as usize),
            FileDescriptor::Serial(s) => if s.port < SERIAL_NUM && serials[s.port as int]@.accepts(buf) > 0 {
                Ok(serials[s.port as int]@.accepts(buf) as usize)
            } else {
                Err(-1isize)
            },
            FileDescriptor::Pipe(_) => Err(-1isize),
        }
    }

    /// Whether a write of `buf` to the file turns the serial ports `before`
    /// into `after`: the port behind a file that can be written to has
    /// queued the bytes that fit, and nothing else has changed.
    pub open spec fn write_effect(
        self,
        before: Seq<BufferedSerial>,
        after: Seq<BufferedSerial>,
        buf: Seq<u8>,
    ) -> bool {
        match self {
            FileDescriptor::Stdin(_) => after == before,
            FileDescriptor::Stdout(_) => same_but(before, after, 0) && after[0]@ == before[0]@.after_write(
                buf,
            ),
            FileDescriptor::Serial(s) => if s.port < SERIAL_NUM {
                same_but(before, after, s.port as int) && after[s.port as int]@ == before[s.port as int]@.after_write(
                    buf,
                )
            } else {
                after == before
            },
            FileDescriptor::Pipe(_) => after == before,
        }
    }

    /// What a read of at most `len` bytes from the file returns when the
    /// serial ports are `serials`.
    pub open spec fn read_result(self, serials: Seq<BufferedSerial>, len: usize) -> Result<usize, isize> {
        match self {
            FileDescriptor::Stdin(_) => if len == 1 && serials[0]@.rx_buffer.len() > 0 {
                Ok(1usize)
            } else {
                Err(-1isize)
            },
            FileDescriptor::Stdout(_) => Err(-1isize),
            FileDescriptor::Serial(s) => if s.port < SERIAL_NUM && serials[s.port as int]@.yields(len as nat)
                > 0 {
                Ok(serials[s.port as int]@.yields(len as nat) as usize)
            } else {
                Err(-1isize)
            },
            FileDescriptor::Pipe(_) => Err(-1isize),
        }
    }

    /// Whether the file takes part in a read of `len` bytes at all: the
    /// standard input does so only for a single byte, the standard output
    /// never, a serial port if the board has it.
    pub open spec fn reads(self, len: usize) -> bool {
        match self {
            FileDescriptor::Stdin(_) => len == 1,
            FileDescriptor::Stdout(_) => false,
            FileDescriptor::Serial(s) => s.port < SERIAL_NUM,
            FileDescriptor::Pipe(_) => false,
        }
    }

    /// Whether a read of at most `len` bytes from the file turns the serial
    /// ports `before` into `after` and the buffer `buf` into `out`: the
    /// bytes read are gone from the port behind the file and stand at the
    /// end of the buffer, and nothing else has changed.
    pub open spec fn read_effect(
        self,
        before: Seq<BufferedSerial>,
        after: Seq<BufferedSerial>,
        buf: Seq<u8>,
        out: Seq<u8>,
        len: usize,
    ) -> bool {
        if self.reads(len) {
            let port = self.port().unwrap();
            &&& same_but(before, after, port)
            &&& after[port]@ == before[port]@.after_read(len as nat)
            &&& out == buf + before[port]@.rx_buffer.take(before[port]@.yields(len as nat) as int)
        } else {
            after == before && out == buf
        }
    }
}

impl File for FileDescriptor {
    /// Reads from the file behind the descriptor.
    fn read(&self, serials: &mut Vec<BufferedSerial>, buf: &mut Vec<u8>, len: usize) -> (res: Result<
        usize,
        isize,
    >)
        ensures
            res == self.read_result(old(serials)@, len),
            self.read_effect(old(serials)@, final(serials)@, old(buf)@, final(buf)@, len),
    {
        match self {
            FileDescriptor::Stdin(f) => f.read(serials, buf, len),
            FileDescriptor::Stdout(f) => f.read(serials, buf, len),
            FileDescriptor::Serial(f) => f.read(serials, buf, len),
            FileDescriptor::Pipe(_) => Err(-1),
        }
    }

    /// Writes to the file behind the descriptor.
    fn write(&self, serials: &mut Vec<BufferedSerial>, buf: &Vec<u8>) -> (res: Result<usize, isize>)
        ensures
            res == self.write_result(old(serials)@, buf@),
            self.write_effect(old(serials)@, final(serials)@, buf@),
    {
        match self {
            FileDescriptor::Stdin(f) => f.write(serials, buf),
            FileDescriptor::Stdout(f) => f.write(serials, buf),
            FileDescriptor::Serial(f) => f.write(serials, buf),
            FileDescriptor::Pipe(_) => Err(-1),
        }
    }
}

} // verus!
