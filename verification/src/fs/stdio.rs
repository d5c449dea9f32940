use vstd::prelude::*;
use crate::fs::File;
use crate::uart::{serial_getchar, serials_wf, same_but, BufferedSerial, SerialState};

verus! {

/// The standard input of a task: what the first serial port receives.
#[derive(Clone, Copy, Debug, PartialEq, Eq, Structural)]
pub struct Stdin;

/// The standard output of a task: what the first serial port sends.
#[derive(Clone, Copy, Debug, PartialEq, Eq, Structural)]
pub struct Stdout;

impl File for Stdin {
    /// Reads one byte. A request for any other number of bytes fails with
    /// -1, and so does one that finds nothing received; the latter switches
    /// the port's interrupt for received data on.
    fn read(&self, serials: &mut Vec<BufferedSerial>, buf: &mut Vec<u8>, len: usize) -> (res: Result<
        usize,
        isize,
    >)
        ensures
            len != 1 ==> res == Err::<usize, isize>(-1isize) && final(serials)@ == old(serials)@
                && final(buf)@ == old(buf)@,
            len == 1 ==> same_but(old(serials)@, final(serials)@, 0) && final(serials)@[0]@ == old(serials)@[0]@.after_read(1) && final(buf)@ == old(buf)@ + old(serials)@[0]@.rx_buffer.take(old(serials)@[0]@.yields(1) as int) && res == (if old(serials)@[0]@.rx_buffer.len() > 0 {
                Ok::<usize, isize>(1usize)
            } else {
                Err::<usize, isize>(-1isize)
            }),
    {
        if len != 1 {
            return Err(-1);
        }
        let ghost rx = old(serials)@[0]@.rx_buffer;
        match serial_getchar(serials, 0) {
            Some(ch) => {
                buf.push(ch);
                assert(rx.take(1) == seq![rx[0]]);
                assert(rx.skip(1) == rx.drop_first());
                assert(buf@ == old(buf)@ + rx.take(1));
                Ok(1)
            },
            None => {
                assert(rx.skip(0) == rx);
                assert(buf@ == old(buf)@ + rx.take(0));
                Err(-1)
            },
        }
    }

    /// The standard input cannot be written to. The call fails with -1.
    fn write(&self, serials: &mut Vec<BufferedSerial>, buf: &Vec<u8>) -> (res: Result<usize, isize>)
        ensures
            res == Err::<usize, isize>(-1isize),
            final(serials)@ == old(serials)@,
    {
        Err(-1)
    }
}

impl File for Stdout {
    /// The standard output cannot be read from. The call fails with -1.
    fn read(&self, serials: &mut Vec<BufferedSerial>, buf: &mut Vec<u8>, len: usize) -> (res: Result<
        usize,
        isize,
    >)
        ensures
            res == Err::<usize, isize>(-1isize),
            final(serials)@ == old(serials)@,
            final(buf)@ == old(buf)@,
    {
        Err(-1)
    }

    /// Queues the bytes of `buf` at the first serial port, in order, and
    /// returns the length of `buf`. Bytes that find the port's queue full
    /// are dropped.
    fn write(&self, serials: &mut Vec<BufferedSerial>, buf: &Vec<u8>) -> (res: Result<usize, isize>)
        ensures
            res == Ok::<usize, isize>(buf@.len() as usize),
            same_but(old(serials)@, final(serials)@, 0),
            final(serials)@[0]@ == old(serials)@[0]@.after_write(buf@),
    {
        let _ = serials[0].write_bytes(buf);
        Ok(buf.len())
    }
}

/// Prints `text` on the standard output: queues its bytes at the first
/// serial port, in order; bytes that find the port's queue full are dropped.
pub fn print(serials: &mut Vec<BufferedSerial>, text: &Vec<u8>)
    requires
        serials_wf(old(serials)@),
    ensures
        same_but(old(serials)@, final(serials)@, 0),
        final(serials)@[0]@ == old(serials)@[0]@.after_write(text@),
{
    let _ = Stdout.write(serials, text);
}

} // verus!
