use vstd::prelude::*;
use std::collections::VecDeque;
use crate::config::Board;
use crate::pac::generic::with_bit;
use crate::pac::uart::{lsr, mcr, msr};

verus! {

/// Number of bytes a serial port buffers for sending.
pub const DEFAULT_TX_BUFFER_SIZE: usize = 1000;

/// Number of bytes a serial port buffers after receiving.
pub const DEFAULT_RX_BUFFER_SIZE: usize = 1000;

/// Number of bytes the device's own queue holds.
pub const FIFO_DEPTH: usize = 16;

/// Number of bytes after which the receiver toggles its request-to-send
/// line, to tell the sender that its queue has been drained that far.
pub const RTS_PULSE_WIDTH: usize = 8;

/// Number of serial ports of a board.
pub const SERIAL_NUM: usize = 4;

/// The frequency of the clock that the devices divide for their baud rate.
pub const SERIAL_CLOCK: usize = 100_000_000;

/// The serial port that raises `irq`; see `crate::uart::irq_to_serial_id`.
pub fn irq_to_serial_id(board: Board, irq: u16) -> (id: usize)
    ensures
        id == crate::uart::spec_irq_to_serial_id(board, irq),
        id < SERIAL_NUM,
{
    crate::uart::irq_to_serial_id(board, irq)
}

/// The address of the registers of the serial port that raises `irq`.
pub fn get_base_addr_from_irq(board: Board, irq: u16) -> (addr: usize)
    ensures
        addr == crate::uart::spec_get_base_addr_from_irq(board, irq),
{
    crate::uart::get_base_addr_from_irq(board, irq)
}

/// What a serial device reports as the reason of an interrupt.
#[derive(Clone, Copy, Debug, PartialEq, Eq, Structural)]
pub enum IID_A {
    MODEM_STATUS,
    NO_INTERRUPT_PENDING,
    THR_EMPTY,
    RECEIVED_DATA_AVAILABLE,
    RECEIVER_LINE_STATUS,
    CHARACTER_TIMEOUT,
}

/// The two bytes of the divisor that gives the baud rate `baud_rate` from
/// the clock `clock`: the low byte and the high byte of `clock / (16 *
/// baud_rate)`.
pub fn set_divisor(clock: usize, baud_rate: usize) -> (latch: (u32, u32))
    requires
        0 < baud_rate,
        16 * baud_rate <= usize::MAX,
    ensures
        latch.0 == (clock / (16 * baud_rate) as usize) & 0xff,
        latch.1 == ((clock / (16 * baud_rate) as usize) >> 8) & 0xff,
{
    let divisor = clock / (16 * baud_rate);
    let low = divisor & 0b1111_1111;
    let high = (divisor >> 8) & 0b1111_1111;
    assert(divisor & 0xff <= 0xff) by (bit_vector);
    assert((divisor >> 8) & 0xff <= 0xff) by (bit_vector);
    (low as u32, high as u32)
}

/// Whether the request-to-send line is asserted in the modem control value.
pub fn read_rts(mcr: &mcr::R) -> (asserted: bool)
    ensures
        asserted == crate::pac::generic::bit_of(mcr.bits, 1),
{
    mcr.rts().is_asserted()
}

/// Asserts or deasserts the request-to-send line in the modem control value.
pub fn rts(mcr: &mut mcr::W, is_asserted: bool)
    ensures
        final(mcr).bits == with_bit(old(mcr).bits, 1, is_asserted),
{
    mcr.rts().bit(is_asserted);
}

/// Whether the clear-to-send line is asserted in the modem status value.
pub fn cts(msr: &msr::R) -> (asserted: bool)
    ensures
        asserted == crate::pac::generic::bit_of(msr.bits, 4),
{
    msr.cts().bit()
}

/// Whether the clear-to-send line has changed since the modem status was
/// read last.
pub fn dcts(msr: &msr::R) -> (changed: bool)
    ensures
        changed == crate::pac::generic::bit_of(msr.bits, 0),
{
    msr.dcts().bit()
}

/// Whether the line status tells of an overrun, upon which the receiver
/// deasserts its request-to-send line.
pub fn overrun(lsr: &lsr::R) -> (error: bool)
    ensures
        error == crate::pac::generic::bit_of(lsr.bits, 1),
{
    lsr.oe().bit_is_set()
}

/// The number of bytes in the sender's view of the receiver's queue after
/// the clear-to-send line has changed. The receiver toggles its line once
/// per `RTS_PULSE_WIDTH` bytes it has taken: a line that stands as it stood
/// at the last change has toggled twice, any other once.
pub open spec fn spec_after_cts(tx_fifo_count: isize, prev_cts: bool, cts: bool) -> isize {
    if cts == prev_cts {
        tx_fifo_count.wrapping_sub(16)
    } else {
        tx_fifo_count.wrapping_sub(8)
    }
}

/// The number of bytes in the sender's view of the receiver's queue after
/// the clear-to-send line has changed.
#[verifier::when_used_as_spec(spec_after_cts)]
pub fn after_cts(tx_fifo_count: isize, prev_cts: bool, cts: bool) -> (count: isize)
    ensures
        count == spec_after_cts(tx_fifo_count, prev_cts, cts),
{
    if cts == prev_cts {
        tx_fifo_count.wrapping_sub(16)
    } else {
        tx_fifo_count.wrapping_sub(8)
    }
}

/// The receiver's count of bytes taken since its line was last asserted,
/// after one more byte, and what the receiver does to its request-to-send
/// line for it: at `RTS_PULSE_WIDTH` bytes it deasserts the line, at twice
/// as many it asserts the line and starts to count anew.
pub open spec fn spec_rx_step(rx_fifo_count: usize) -> (usize, Option<bool>) {
    let count = rx_fifo_count.wrapping_add(1);
    if count == RTS_PULSE_WIDTH {
        (count, Some(false))
    } else if count == RTS_PULSE_WIDTH * 2 {
        (0usize, Some(true))
    } else {
        (count, None)
    }
}

/// The receiver's count after one more byte, and what it does to its
/// request-to-send line.
#[verifier::when_used_as_spec(spec_rx_step)]
pub fn rx_step(rx_fifo_count: usize) -> (step: (usize, Option<bool>))
    ensures
        step == spec_rx_step(rx_fifo_count),
{
    let count = rx_fifo_count.wrapping_add(1);
    if count == RTS_PULSE_WIDTH {
        (count, Some(false))
    } else if count == RTS_PULSE_WIDTH * 2 {
        (0, Some(true))
    } else {
        (count, None)
    }
}

/// A serial port that a task drives by polling, with flow control by the
/// request-to-send and clear-to-send lines.
#[derive(Clone, Copy, Debug, PartialEq, Eq, Structural)]
pub struct PollingSerial {
    pub base_address: usize,
    pub rx_count: usize,
    pub tx_count: usize,
    pub tx_fifo_count: isize,
    pub rx_fifo_count: usize,
    pub prev_cts: bool,
}

impl PollingSerial {
    /// A port at `base_address` that has moved nothing yet.
    pub fn new(base_address: usize) -> (port: PollingSerial)
        ensures
            port == (PollingSerial {
                base_address,
                rx_count: 0,
                tx_count: 0,
                tx_fifo_count: 0,
                rx_fifo_count: 0,
                prev_cts: true,
            }),
    {
        PollingSerial { base_address, rx_count: 0, tx_count: 0, tx_fifo_count: 0, rx_fifo_count: 0, prev_cts: true }
    }

    /// Asserts or deasserts the request-to-send line.
    pub fn rts(&self, mcr: &mut mcr::W, is_asserted: bool)
        ensures
            final(mcr).bits == with_bit(old(mcr).bits, 1, is_asserted),
    {
        rts(mcr, is_asserted);
    }

    /// Whether the clear-to-send line is asserted.
    pub fn cts(&self, msr: &msr::R) -> (asserted: bool)
        ensures
            asserted == crate::pac::generic::bit_of(msr.bits, 4),
    {
        cts(msr)
    }

    /// Whether the clear-to-send line has changed.
    pub fn dcts(&self, msr: &msr::R) -> (changed: bool)
        ensures
            changed == crate::pac::generic::bit_of(msr.bits, 0),
    {
        dcts(msr)
    }

    /// Whether the device reports that received data is available.
    pub fn iid_rda(&self, iid: IID_A) -> (r: bool)
        ensures
            r == (iid == IID_A::RECEIVED_DATA_AVAILABLE),
    {
        iid == IID_A::RECEIVED_DATA_AVAILABLE
    }

    /// Prepares the port for use: asserts the request-to-send line, and
    /// returns the two bytes of the divisor for `baud_rate`.
    pub fn hardware_init(&mut self, mcr: &mut mcr::W, baud_rate: usize) -> (latch: (u32, u32))
        requires
            0 < baud_rate,
            16 * baud_rate <= usize::MAX,
        ensures
            *final(self) == *old(self),
            final(mcr).bits == with_bit(old(mcr).bits, 1, true),
            latch.0 == (SERIAL_CLOCK / (16 * baud_rate) as usize) & 0xff,
            latch.1 == ((SERIAL_CLOCK / (16 * baud_rate) as usize) >> 8) & 0xff,
    {
        let latch = set_divisor(SERIAL_CLOCK, baud_rate);
        self.rts(mcr, true);
        latch
    }

    /// A polling port has nothing to do on an interrupt.
    pub fn interrupt_handler(&mut self)
        ensures
            *final(self) == *old(self),
    {
    }

    /// Whether the line status tells of an overrun; then the
    /// request-to-send line is deasserted.
    pub fn error_handler(&self, lsr: &lsr::R, mcr: &mut mcr::W) -> (error: bool)
        ensures
            error == crate::pac::generic::bit_of(lsr.bits, 1),
            error ==> final(mcr).bits == with_bit(old(mcr).bits, 1, false),
            !error ==> final(mcr).bits == old(mcr).bits,
    {
        if overrun(lsr) {
            mcr.rts().deasserted();
            true
        } else {
            false
        }
    }

    /// The port after it has looked at the modem status before a write.
    pub open spec fn after_status(self, msr: msr::R) -> PollingSerial {
        if crate::pac::generic::bit_of(msr.bits, 0) {
            PollingSerial {
                tx_fifo_count: spec_after_cts(
                    self.tx_fifo_count,
                    self.prev_cts,
                    crate::pac::generic::bit_of(msr.bits, 4),
                ),
                prev_cts: crate::pac::generic::bit_of(msr.bits, 4),
                ..self
            }
        } else {
            self
        }
    }

    /// Asks whether one more byte may be handed to the device, given the
    /// modem status. The port first takes note of a change of the
    /// clear-to-send line. If the receiver's queue then counts as full, the
    /// byte has to wait and the call returns `false`; otherwise the caller
    /// hands the byte to the device, and the byte is counted.
    pub fn try_write(&mut self, msr: &msr::R) -> (go: bool)
        ensures
            go == (old(self).after_status(*msr).tx_fifo_count != FIFO_DEPTH),
            !go ==> *final(self) == old(self).after_status(*msr),
            go ==> *final(self) == (PollingSerial {
                tx_count: old(self).tx_count.wrapping_add(1),
                tx_fifo_count: old(self).after_status(*msr).tx_fifo_count.wrapping_add(1),
                ..old(self).after_status(*msr)
            }),
    {
        if self.dcts(msr) {
            let cts = self.cts(msr);
            self.tx_fifo_count = after_cts(self.tx_fifo_count, self.prev_cts, cts);
            self.prev_cts = cts;
        }
        if self.tx_fifo_count == FIFO_DEPTH as isize {
            return false;
        }
        self.tx_count = self.tx_count.wrapping_add(1);
        self.tx_fifo_count = self.tx_fifo_count.wrapping_add(1);
        true
    }

    /// Takes note of what the device has received, if anything, and passes
    /// it on together with what is to be done to the request-to-send line.
    pub fn try_read(&mut self, received: Option<u8>) -> (got: (Option<u8>, Option<bool>))
        ensures
            got.0 == received,
            received.is_none() ==> got.1.is_none() && *final(self) == *old(self),
            received.is_some() ==> got.1 == spec_rx_step(old(self).rx_fifo_count).1 && *final(self) == (
            PollingSerial {
                rx_count: old(self).rx_count.wrapping_add(1),
                rx_fifo_count: spec_rx_step(old(self).rx_fifo_count).0,
                ..*old(self)
            }),
    {
        match received {
            Some(ch) => {
                self.rx_count = self.rx_count.wrapping_add(1);
                let (count, line) = rx_step(self.rx_fifo_count);
                self.rx_fifo_count = count;
                (Some(ch), line)
            },
            None => (None, None),
        }
    }
}

/// The count `x` as a word holds it when it has overflowed at most once.
pub open spec fn wrapped(x: int) -> usize {
    if x > usize::MAX {
        (x - usize::MAX - 1) as usize
    } else {
        x as usize
    }
}

/// What an interrupt-driven port holds: the bytes of its two queues, the
/// oldest first, its counters, its interrupt switches, and the
/// clear-to-send line as it stood at its last change.
pub struct PortState {
    pub base_address: usize,
    pub rx_buffer: Seq<u8>,
    pub tx_buffer: Seq<u8>,
    pub rx_count: usize,
    pub tx_count: usize,
    pub intr_count: usize,
    pub rx_intr_count: usize,
    pub tx_intr_count: usize,
    pub rx_fifo_count: usize,
    pub tx_fifo_count: isize,
    pub rx_intr_enabled: bool,
    pub tx_intr_enabled: bool,
    pub prev_cts: bool,
}

impl PortState {
    /// The number of bytes that go to the device in one burst: as many as
    /// the receiver's queue has room for in the sender's view, and no more
    /// than wait.
    pub open spec fn burst(self) -> nat {
        if self.tx_fifo_count >= FIFO_DEPTH {
            0
        } else if self.tx_buffer.len() <= FIFO_DEPTH - self.tx_fifo_count {
            self.tx_buffer.len()
        } else {
            (FIFO_DEPTH - self.tx_fifo_count) as nat
        }
    }

    /// The port after a burst: the bytes sent are gone from the queue and
    /// counted, and the interrupt that asks for more bytes is off, unless
    /// the receiver's queue counted as more than full before.
    pub open spec fn after_burst(self) -> PortState {
        let n = self.burst();
        PortState {
            tx_buffer: self.tx_buffer.skip(n as int),
            tx_count: wrapped(self.tx_count + n),
            tx_fifo_count: (self.tx_fifo_count + n) as isize,
            tx_intr_enabled: self.tx_intr_enabled && self.tx_fifo_count > FIFO_DEPTH,
            ..self
        }
    }

    /// The port after it has counted an interrupt.
    pub open spec fn counted(self) -> PortState {
        PortState { intr_count: self.intr_count.wrapping_add(1), ..self }
    }

    /// The port after it has taken note of a change of the clear-to-send
    /// line to `cts`.
    pub open spec fn after_change(self, cts: bool) -> PortState {
        PortState {
            tx_fifo_count: spec_after_cts(self.tx_fifo_count, self.prev_cts, cts),
            prev_cts: cts,
            tx_intr_enabled: true,
            ..self
        }
    }

    /// The port after the interrupt `int_type`, given the modem status.
    pub open spec fn after_interrupt(self, int_type: IID_A, msr: msr::R) -> PortState {
        match int_type {
            IID_A::NO_INTERRUPT_PENDING => self,
            IID_A::RECEIVED_DATA_AVAILABLE | IID_A::CHARACTER_TIMEOUT => PortState {
                rx_intr_count: self.rx_intr_count.wrapping_add(1),
                ..self.counted()
            },
            IID_A::THR_EMPTY => (PortState {
                tx_intr_count: self.tx_intr_count.wrapping_add(1),
                ..self.counted()
            }).after_burst(),
            IID_A::RECEIVER_LINE_STATUS => self.counted(),
            IID_A::MODEM_STATUS => if crate::pac::generic::bit_of(msr.bits, 0) {
                self.counted().after_change(crate::pac::generic::bit_of(msr.bits, 4)).after_burst()
            } else {
                self.counted()
            },
        }
    }

    /// The port after the byte `ch` has been received.
    pub open spec fn after_receive(self, ch: u8) -> PortState {
        PortState {
            rx_count: self.rx_count.wrapping_add(1),
            rx_fifo_count: spec_rx_step(self.rx_fifo_count).0,
            rx_buffer: self.rx_buffer.push(ch),
            rx_intr_enabled: self.rx_intr_enabled && self.rx_buffer.len() + 1 < DEFAULT_TX_BUFFER_SIZE,
            ..self
        }
    }
}

/// What the driver of the device has to do after an interrupt.
pub struct SerialOutput {
    /// The bytes to hand to the device, in order.
    pub send: Vec<u8>,
    /// What to do to the request-to-send line, if anything.
    pub rts: Option<bool>,
    /// Whether to read the device's bytes and hand each to `receive`.
    pub receive: bool,
    /// Whether there is nothing to do but to report the device's status.
    pub report: bool,
}

/// What the driver of the device has to do after a byte was received.
#[derive(Clone, Copy, Debug, PartialEq, Eq, Structural)]
pub struct Received {
    /// What to do to the request-to-send line, if anything.
    pub rts: Option<bool>,
    /// Whether the driver may go on reading.
    pub go_on: bool,
}

/// A serial port that a task drives by interrupts, with a queue of bytes
/// in each direction and flow control by the request-to-send and
/// clear-to-send lines.
pub struct BufferedSerial {
    pub base_address: usize,
    pub rx_buffer: VecDeque<u8>,
    pub tx_buffer: VecDeque<u8>,
    pub rx_count: usize,
    pub tx_count: usize,
    pub intr_count: usize,
    pub rx_intr_count: usize,
    pub tx_intr_count: usize,
    pub rx_fifo_count: usize,
    pub tx_fifo_count: isize,
    pub rx_intr_enabled: bool,
    pub tx_intr_enabled: bool,
    pub prev_cts: bool,
}

impl View for BufferedSerial {
    type V = PortState;

    open spec fn view(&self) -> PortState {
        PortState {
            base_address: self.base_address,
            rx_buffer: self.rx_buffer@,
            tx_buffer: self.tx_buffer@,
            rx_count: self.rx_count,
            tx_count: self.tx_count,
            intr_count: self.intr_count,
            rx_intr_count: self.rx_intr_count,
            tx_intr_count: self.tx_intr_count,
            rx_fifo_count: self.rx_fifo_count,
            tx_fifo_count: self.tx_fifo_count,
            rx_intr_enabled: self.rx_intr_enabled,
            tx_intr_enabled: self.tx_intr_enabled,
            prev_cts: self.prev_cts,
        }
    }
}

impl BufferedSerial {
    /// A port at `base_address` with empty queues, every counter zero and
    /// both interrupts off.
    pub fn new(base_address: usize) -> (port: BufferedSerial)
        ensures
            port@ == (PortState {
                base_address,
                rx_buffer: Seq::<u8>::empty(),
                tx_buffer: Seq::<u8>::empty(),
                rx_count: 0,
                tx_count: 0,
                intr_count: 0,
                rx_intr_count: 0,
                tx_intr_count: 0,
                rx_fifo_count: 0,
                tx_fifo_count: 0,
                rx_intr_enabled: false,
                tx_intr_enabled: false,
                prev_cts: true,
            }),
    {
        BufferedSerial {
            base_address,
            rx_buffer: VecDeque::new(),
            tx_buffer: VecDeque::new(),
            rx_count: 0,
            tx_count: 0,
            intr_count: 0,
            rx_intr_count: 0,
            tx_intr_count: 0,
            rx_fifo_count: 0,
            tx_fifo_count: 0,
            rx_intr_enabled: false,
            tx_intr_enabled: false,
            prev_cts: true,
        }
    }

    /// Switches the interrupt for received data on.
    pub fn enable_rdai(&mut self)
        ensures
            final(self)@ == (PortState { rx_intr_enabled: true, ..old(self)@ }),
    {
        self.rx_intr_enabled = true;
    }

    /// Switches the interrupt for received data off.
    pub fn disable_rdai(&mut self)
        ensures
            final(self)@ == (PortState { rx_intr_enabled: false, ..old(self)@ }),
    {
        self.rx_intr_enabled = false;
    }

    /// Switches the interrupt that asks for more bytes to send on.
    pub fn enable_threi(&mut self)
        ensures
            final(self)@ == (PortState { tx_intr_enabled: true, ..old(self)@ }),
    {
        self.tx_intr_enabled = true;
    }

    /// Switches the interrupt that asks for more bytes to send off.
    pub fn disable_threi(&mut self)
        ensures
            final(self)@ == (PortState { tx_intr_enabled: false, ..old(self)@ }),
    {
        self.tx_intr_enabled = false;
    }

    /// Prepares the port for use: asserts the request-to-send line,
    /// switches both interrupts on, and returns the two bytes of the
    /// divisor for `baud_rate`.
    pub fn hardware_init(&mut self, mcr: &mut mcr::W, baud_rate: usize) -> (latch: (u32, u32))
        requires
            0 < baud_rate,
            16 * baud_rate <= usize::MAX,
        ensures
            final(self)@ == (PortState { rx_intr_enabled: true, tx_intr_enabled: true, ..old(self)@ }),
            final(mcr).bits == with_bit(old(mcr).bits, 1, true),
            latch.0 == (SERIAL_CLOCK / (16 * baud_rate) as usize) & 0xff,
            latch.1 == ((SERIAL_CLOCK / (16 * baud_rate) as usize) >> 8) & 0xff,
    {
        let latch = set_divisor(SERIAL_CLOCK, baud_rate);
        rts(mcr, true);
        self.enable_rdai();
        self.enable_threi();
        latch
    }

    /// Whether the request-to-send line is asserted.
    pub fn read_rts(&self, mcr: &mcr::R) -> (asserted: bool)
        ensures
            asserted == crate::pac::generic::bit_of(mcr.bits, 1),
    {
        read_rts(mcr)
    }

    /// Asserts or deasserts the request-to-send line.
    pub fn rts(&self, mcr: &mut mcr::W, is_asserted: bool)
        ensures
            final(mcr).bits == with_bit(old(mcr).bits, 1, is_asserted),
    {
        rts(mcr, is_asserted);
    }

    /// Whether the clear-to-send line is asserted.
    pub fn cts(&self, msr: &msr::R) -> (asserted: bool)
        ensures
            asserted == crate::pac::generic::bit_of(msr.bits, 4),
    {
        cts(msr)
    }

    /// Whether the clear-to-send line has changed.
    pub fn dcts(&self, msr: &msr::R) -> (changed: bool)
        ensures
            changed == crate::pac::generic::bit_of(msr.bits, 0),
    {
        dcts(msr)
    }

    /// Takes the bytes of one burst out of the queue for sending; see
    /// `PortState::after_burst`. The driver hands them to the device.
    pub fn start_tx(&mut self) -> (send: Vec<u8>)
        ensures
            send@ == old(self)@.tx_buffer.take(old(self)@.burst() as int),
            final(self)@ == old(self)@.after_burst(),
    {
        let mut send: Vec<u8> = Vec::new();
        let ghost start = self@;
        let ghost tx = self@.tx_buffer;
        let total = self.tx_buffer.len();
        assert(tx.skip(0) == tx);
        assert(tx.take(0) =~= Seq::<u8>::empty());
        while self.tx_fifo_count < FIFO_DEPTH as isize
            invariant
                send@.len() <= start.burst(),
                send@ == tx.take(send@.len() as int),
                tx == start.tx_buffer,
                start == old(self)@,
                tx.len() == total,
                self.tx_fifo_count == start.tx_fifo_count + send@.len(),
                self@ == (PortState {
                    tx_buffer: tx.skip(send@.len() as int),
                    tx_count: wrapped(start.tx_count + send@.len()),
                    tx_fifo_count: self.tx_fifo_count,
                    tx_intr_enabled: self.tx_intr_enabled,
                    ..start
                }),
                self.tx_intr_enabled == start.tx_intr_enabled,
            decreases FIFO_DEPTH - self.tx_fifo_count,
        {
            let ghost k = send@.len() as int;
            match self.tx_buffer.pop_front() {
                Some(ch) => {
                    send.push(ch);
                    self.tx_count = self.tx_count.wrapping_add(1);
                    self.tx_fifo_count = self.tx_fifo_count + 1;
                    proof {
                        assert(tx.skip(k)[0] == tx[k]);
                        assert(tx.take(k + 1) == tx.take(k).push(tx[k]));
                        assert(tx.skip(k).drop_first() == tx.skip(k + 1));
                    }
                },
                None => {
                    self.disable_threi();
                    assert(tx.skip(k).len() == 0);
                    assert(k == tx.len());
                    assert(start.burst() == tx.len());
                    assert(send@ == tx.take(start.burst() as int));
                    assert(self@ == start.after_burst());
                    return send;
                },
            }
        }
        if self.tx_fifo_count == FIFO_DEPTH as isize {
            self.disable_threi();
        }
        send
    }

    /// Queues one byte for sending. If the receiver's queue has room in the
    /// sender's view, the interrupt that asks for more bytes is switched
    /// on and a burst is sent at once. A queue that already holds
    /// `DEFAULT_TX_BUFFER_SIZE` bytes takes nothing: the call returns
    /// `None` and changes nothing.
    pub fn try_write(&mut self, word: u8) -> (send: Option<Vec<u8>>)
        ensures
            send.is_some() == (old(self)@.tx_buffer.len() < DEFAULT_TX_BUFFER_SIZE),
            send.is_none() ==> final(self)@ == old(self)@,
            send.is_some() ==> {
                let queued = PortState { tx_buffer: old(self)@.tx_buffer.push(word), ..old(self)@ };
                if queued.tx_fifo_count < FIFO_DEPTH {
                    let ready = PortState { tx_intr_enabled: true, ..queued };
                    send.unwrap()@ == ready.tx_buffer.take(ready.burst() as int) && final(self)@
                        == ready.after_burst()
                } else {
                    send.unwrap()@ == Seq::<u8>::empty() && final(self)@ == queued
                }
            },
    {
        if self.tx_buffer.len() < DEFAULT_TX_BUFFER_SIZE {
            self.tx_buffer.push_back(word);
            if self.tx_fifo_count < FIFO_DEPTH as isize {
                self.disable_threi();
                self.enable_threi();
                Some(self.start_tx())
            } else {
                Some(Vec::new())
            }
        } else {
            None
        }
    }

    /// Takes the oldest received byte. When there is none, the call returns
    /// `None` and makes sure the interrupt for received data is on.
    pub fn try_read(&mut self) -> (word: Option<u8>)
        ensures
            old(self)@.rx_buffer.len() > 0 ==> word == Some(old(self)@.rx_buffer[0]) && final(self)@ == (
            PortState { rx_buffer: old(self)@.rx_buffer.drop_first(), ..old(self)@ }),
            old(self)@.rx_buffer.len() == 0 ==> word.is_none() && final(self)@ == (PortState {
                rx_intr_enabled: true,
                ..old(self)@
            }),
    {
        match self.rx_buffer.pop_front() {
            Some(ch) => Some(ch),
            None => {
                if !self.rx_intr_enabled {
                    self.enable_rdai();
                }
                None
            },
        }
    }

    /// Takes note of a byte that the device has received: counts it,
    /// queues it, and says what to do to the request-to-send line. When
    /// the queue has reached `DEFAULT_TX_BUFFER_SIZE` bytes, the interrupt
    /// for received data is switched off and the driver has to stop
    /// reading.
    pub fn receive(&mut self, ch: u8) -> (received: Received)
        ensures
            received.rts == spec_rx_step(old(self)@.rx_fifo_count).1,
            received.go_on == (old(self)@.rx_buffer.len() + 1 < DEFAULT_TX_BUFFER_SIZE),
            final(self)@ == old(self)@.after_receive(ch),
    {
        self.rx_count = self.rx_count.wrapping_add(1);
        let (count, line) = rx_step(self.rx_fifo_count);
        self.rx_fifo_count = count;
        self.rx_buffer.push_back(ch);
        if self.rx_buffer.len() >= DEFAULT_TX_BUFFER_SIZE {
            self.disable_rdai();
            Received { rts: line, go_on: false }
        } else {
            Received { rts: line, go_on: true }
        }
    }

    /// Takes note of the interrupt `int_type` of the device, given the
    /// modem status and the line status as the device reports them, and
    /// says what the driver has to do; see `PortState::after_interrupt`.
    /// For received data the driver reads the device. For room in the
    /// device a burst is sent. For a line status that tells of an overrun
    /// the request-to-send line is deasserted. For a change of the
    /// clear-to-send line the sender corrects its view of the receiver's
    /// queue and sends a burst; a modem status without such a change is
    /// only reported.
    pub fn interrupt_handler(&mut self, int_type: IID_A, msr: &msr::R, lsr: &lsr::R) -> (output: SerialOutput)
        ensures
            final(self)@ == old(self)@.after_interrupt(int_type, *msr),
            output.receive == (int_type == IID_A::RECEIVED_DATA_AVAILABLE || int_type
                == IID_A::CHARACTER_TIMEOUT),
            output.rts == (if int_type == IID_A::RECEIVER_LINE_STATUS && crate::pac::generic::bit_of(
                lsr.bits,
                1,
            ) {
                Some(false)
            } else {
                None
            }),
            output.report == (int_type == IID_A::MODEM_STATUS && !crate::pac::generic::bit_of(msr.bits, 0)),
            output.send@ == (match int_type {
                IID_A::THR_EMPTY => old(self)@.tx_buffer.take(old(self)@.burst() as int),
                IID_A::MODEM_STATUS => if crate::pac::generic::bit_of(msr.bits, 0) {
                    let changed = old(self)@.after_change(crate::pac::generic::bit_of(msr.bits, 4));
                    changed.tx_buffer.take(changed.burst() as int)
                } else {
                    Seq::<u8>::empty()
                },
                _ => Seq::<u8>::empty(),
            }),
    {
        let mut output = SerialOutput { send: Vec::new(), rts: None, receive: false, report: false };
        match int_type {
            IID_A::NO_INTERRUPT_PENDING => {},
            IID_A::RECEIVED_DATA_AVAILABLE | IID_A::CHARACTER_TIMEOUT => {
                self.intr_count = self.intr_count.wrapping_add(1);
                self.rx_intr_count = self.rx_intr_count.wrapping_add(1);
                output.receive = true;
            },
            IID_A::THR_EMPTY => {
                self.intr_count = self.intr_count.wrapping_add(1);
                self.tx_intr_count = self.tx_intr_count.wrapping_add(1);
                output.send = self.start_tx();
            },
            IID_A::RECEIVER_LINE_STATUS => {
                self.intr_count = self.intr_count.wrapping_add(1);
                if overrun(lsr) {
                    output.rts = Some(false);
                }
            },
            IID_A::MODEM_STATUS => {
                self.intr_count = self.intr_count.wrapping_add(1);
                if dcts(msr) {
                    let cts = cts(msr);
                    self.tx_fifo_count = after_cts(self.tx_fifo_count, self.prev_cts, cts);
                    self.prev_cts = cts;
                    self.disable_threi();
                    self.enable_threi();
                    output.send = self.start_tx();
                } else {
                    output.report = true;
                }
            },
        }
        output
    }
}

} // verus!
