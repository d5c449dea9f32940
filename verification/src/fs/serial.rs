use vstd::prelude::*;
use crate::fs::File;
use crate::uart::{same_but, serials_wf, BufferedSerial, SerialState, SERIAL_NUM};

verus! {

/// One of the board's serial ports as a file.
#[derive(Clone, Copy, Debug, PartialEq, Eq, Structural)]
pub struct Serial {
    /// The number of the port.
    pub port: usize,
}

impl File for Serial {
    /// Takes up to `len` of the bytes the port has received, appends them
    /// to `buf` and returns how many there were; if there were fewer than
    /// `len`, the port's interrupt for received data is on afterwards. A
    /// call that gets no byte fails with -1, and so does one for a port the
    /// board does not have.
    fn read(&self, serials: &mut Vec<BufferedSerial>, buf: &mut Vec<u8>, len: usize) -> (res: Result<
        usize,
        isize,
    >)
        ensures
            self.port >= SERIAL_NUM ==> res == Err::<usize, isize>(-1isize) && final(serials)@ == old(serials)@
                && final(buf)@ == old(buf)@,
            self.port < SERIAL_NUM ==> {
                let port = old(serials)@[self.port as int]@;
                &&& same_but(old(serials)@, final(serials)@, self.port as int)
                &&& final(serials)@[self.port as int]@ == port.after_read(len as nat)
                &&& final(buf)@ == old(buf)@ + port.rx_buffer.take(port.yields(len as nat) as int)
                &&& res == (if port.yields(len as nat) > 0 {
                    Ok::<usize, isize>(port.yields(len as nat) as usize)
                } else {
                    Err::<usize, isize>(-1isize)
                })
            },
    {
        let port = self.port;
        if port >= SERIAL_NUM {
            return Err(-1);
        }
        let read_cnt = serials[port].read_bytes(buf, len);
        if read_cnt > 0 {
            Ok(read_cnt)
        } else {
            Err(-1)
        }
    }

    /// Queues the bytes of `buf` for sending at the port, in order, until
    /// its queue is full, and returns how many were queued. A call that
    /// queues no byte fails with -1, and so does one for a port the board
    /// does not have.
    fn write(&self, serials: &mut Vec<BufferedSerial>, buf: &Vec<u8>) -> (res: Result<usize, isize>)
        ensures
            self.port >= SERIAL_NUM ==> res == Err::<usize, isize>(-1isize) && final(serials)@ == old(serials)@,
            self.port < SERIAL_NUM ==> {
                let port = old(serials)@[self.port as int]@;
                &&& same_but(old(serials)@, final(serials)@, self.port as int)
                &&& final(serials)@[self.port as int]@ == port.after_write(buf@)
                &&& res == (if port.accepts(buf@) > 0 {
                    Ok::<usize, isize>(port.accepts(buf@) as usize)
                } else {
                    Err::<usize, isize>(-1isize)
                })
            },
    {
        let port = self.port;
        if port >= SERIAL_NUM {
            return Err(-1);
        }
        let write_cnt = serials[port].write_bytes(buf);
        if write_cnt > 0 {
            Ok(write_cnt)
        } else {
            Err(-1)
        }
    }
}

} // verus!
