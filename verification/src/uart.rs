use vstd::prelude::*;
use std::collections::VecDeque;
use crate::config::Board;

verus! {

/// Number of bytes a serial port buffers for sending.
pub const DEFAULT_TX_BUFFER_SIZE: usize = 1_000;

/// Number of bytes a serial port buffers after receiving.
pub const DEFAULT_RX_BUFFER_SIZE: usize = 1_000;

/// Number of bytes the device's own queue takes at once.
pub const FIFO_DEPTH: usize = 16;

/// Number of serial ports of a board.
pub const SERIAL_NUM: usize = 4;

/// Distance between the register blocks of two consecutive serial ports.
pub const SERIAL_ADDRESS_STRIDE: usize = 0x1000;

/// The address of the registers of a board's first serial port.
pub open spec fn spec_serial_base_address(board: Board) -> usize {
    match board {
        Board::Qemu => 0x1000_2000,
        Board::Lrv => 0x6000_1000,
    }
}

/// The address of the registers of a board's first serial port.
#[verifier::when_used_as_spec(spec_serial_base_address)]
pub fn serial_base_address(board: Board) -> (addr: usize)
    ensures
        addr == spec_serial_base_address(board),
{
    match board {
        Board::Qemu => 0x1000_2000,
        Board::Lrv => 0x6000_1000,
    }
}

/// The serial port that raises `irq`: the four lines that start at the
/// board's first serial line belong to the ports 0 to 3, and any other line
/// counts for port 0.
pub open spec fn spec_irq_to_serial_id(board: Board, irq: u16) -> usize {
    if board.spec_first_serial_irq() <= irq < board.spec_first_serial_irq() + 4 {
        (irq - board.spec_first_serial_irq()) as usize
    } else {
        0
    }
}

/// The serial port that raises `irq`.
#[verifier::when_used_as_spec(spec_irq_to_serial_id)]
pub fn irq_to_serial_id(board: Board, irq: u16) -> (id: usize)
    ensures
        id == spec_irq_to_serial_id(board, irq),
        id < SERIAL_NUM,
{
    let first = board.first_serial_irq();
    if first <= irq && irq < first + 4 {
        (irq - first) as usize
    } else {
        0
    }
}

/// The address of the registers of the serial port that raises `irq`.
pub open spec fn spec_get_base_addr_from_irq(board: Board, irq: u16) -> usize {
    (spec_serial_base_address(board) + spec_irq_to_serial_id(board, irq) * SERIAL_ADDRESS_STRIDE) as usize
}

/// The address of the registers of the serial port that raises `irq`.
#[verifier::when_used_as_spec(spec_get_base_addr_from_irq)]
pub fn get_base_addr_from_irq(board: Board, irq: u16) -> (addr: usize)
    ensures
        addr == spec_get_base_addr_from_irq(board, irq),
        addr == spec_serial_base_address(board) + spec_irq_to_serial_id(board, irq) * 0x1000,
{
    serial_base_address(board) + irq_to_serial_id(board, irq) * SERIAL_ADDRESS_STRIDE
}

/// What a serial device reports as the reason of an interrupt.
#[derive(Clone, Copy, Debug, PartialEq, Eq, Structural)]
pub enum InterruptType {
    ModemStatus,
    TransmitterHoldingRegisterEmpty,
    ReceivedDataAvailable,
    ReceiverLineStatus,
    Timeout,
    Reserved,
}

/// What the driver of the device has to do after the port has taken note of
/// an interrupt.
#[derive(Clone, Copy, Debug, PartialEq, Eq, Structural)]
pub enum SerialWork {
    /// Read the device's bytes and hand each to `push_received`.
    Receive,
    /// Take up to `FIFO_DEPTH` bytes from `pop_to_send` and write them to the device.
    Transmit,
    /// Nothing but to report the device's status.
    Report,
    /// The interrupt is of a kind the port does not handle.
    Unsupported,
}

/// A serial port with a queue of bytes in each direction, between the tasks
/// and the device.
pub struct BufferedSerial {
    pub rx_buffer: VecDeque<u8>,
    pub tx_buffer: VecDeque<u8>,
    pub rx_count: usize,
    pub tx_count: usize,
    pub intr_count: usize,
    pub rx_intr_count: usize,
    pub tx_intr_count: usize,
    pub tx_fifo_count: usize,
    pub rx_intr_enabled: bool,
    pub tx_intr_enabled: bool,
}

/// What a serial port holds: the bytes of its two queues, the oldest first,
/// its counters and its interrupt switches.
pub struct SerialState {
    pub rx_buffer: Seq<u8>,
    pub tx_buffer: Seq<u8>,
    pub rx_count: usize,
    pub tx_count: usize,
    pub intr_count: usize,
    pub rx_intr_count: usize,
    pub tx_intr_count: usize,
    pub tx_fifo_count: usize,
    pub rx_intr_enabled: bool,
    pub tx_intr_enabled: bool,
}

impl View for BufferedSerial {
    type V = SerialState;

    open spec fn view(&self) -> SerialState {
        SerialState {
            rx_buffer: self.rx_buffer@,
            tx_buffer: self.tx_buffer@,
            rx_count: self.rx_count,
            tx_count: self.tx_count,
            intr_count: self.intr_count,
            rx_intr_count: self.rx_intr_count,
            tx_intr_count: self.tx_intr_count,
            tx_fifo_count: self.tx_fifo_count,
            rx_intr_enabled: self.rx_intr_enabled,
            tx_intr_enabled: self.tx_intr_enabled,
        }
    }
}

impl BufferedSerial {
    /// A port with empty queues, every counter zero and both interrupts off.
    pub fn new() -> (s: BufferedSerial)
        ensures
            s@ == SerialState::fresh(),
    {
        BufferedSerial {
            rx_buffer: VecDeque::new(),
            tx_buffer: VecDeque::new(),
            rx_count: 0,
            tx_count: 0,
            intr_count: 0,
            rx_intr_count: 0,
            tx_intr_count: 0,
            tx_fifo_count: 0,
            rx_intr_enabled: false,
            tx_intr_enabled: false,
        }
    }

    /// Prepares the port for use: the interrupt for received data is on.
    pub fn hardware_init(&mut self)
        ensures
            final(self)@ == (SerialState { rx_intr_enabled: true, ..old(self)@ }),
    {
        self.rx_intr_enabled = true;
    }

    /// Queues one byte for sending and makes sure the interrupt that drains
    /// the queue is on. A queue that already holds
    /// `DEFAULT_TX_BUFFER_SIZE` bytes takes nothing: the call returns
    /// `false` and changes nothing.
    pub fn try_write(&mut self, word: u8) -> (queued: bool)
        ensures
            queued == (old(self)@.tx_buffer.len() < DEFAULT_TX_BUFFER_SIZE),
            queued ==> final(self)@ == (SerialState {
                tx_buffer: old(self)@.tx_buffer.push(word),
                tx_intr_enabled: true,
                ..old(self)@
            }),
            !queued ==> final(self)@ == old(self)@,
    {
        if self.tx_buffer.len() < DEFAULT_TX_BUFFER_SIZE {
            self.tx_buffer.push_back(word);
            if !self.tx_intr_enabled {
                self.tx_intr_enabled = true;
            }
            true
        } else {
            false
        }
    }

    /// Takes the oldest received byte. When there is none, the call returns
    /// `None` and makes sure the interrupt for received data is on.
    pub fn try_read(&mut self) -> (word: Option<u8>)
        ensures
            old(self)@.rx_buffer.len() > 0 ==> word == Some(old(self)@.rx_buffer[0]) && final(self)@ == (
            SerialState { rx_buffer: old(self)@.rx_buffer.drop_first(), ..old(self)@ }),
            old(self)@.rx_buffer.len() == 0 ==> word.is_none() && final(self)@ == (SerialState {
                rx_intr_enabled: true,
                ..old(self)@
            }),
    {
        match self.rx_buffer.pop_front() {
            Some(ch) => Some(ch),
            None => {
                if !self.rx_intr_enabled {
                    self.rx_intr_enabled = true;
                }
                None
            },
        }
    }

    /// Takes note of an interrupt of the device and says what is to be done
    /// about it. The interrupt is counted, and so is its kind if it is about
    /// received data or about room for sending.
    pub fn interrupt_handler(&mut self, int_type: InterruptType) -> (work: SerialWork)
        ensures
            work == serial_work(int_type),
            final(self)@ == (SerialState {
                intr_count: old(self).intr_count.wrapping_add(1),
                rx_intr_count: if work == SerialWork::Receive {
                    old(self).rx_intr_count.wrapping_add(1)
                } else {
                    old(self).rx_intr_count
                },
                tx_intr_count: if work == SerialWork::Transmit {
                    old(self).tx_intr_count.wrapping_add(1)
                } else {
                    old(self).tx_intr_count
                },
                ..old(self)@
            }),
    {
        self.intr_count = self.intr_count.wrapping_add(1);
        match int_type {
            InterruptType::ReceivedDataAvailable | InterruptType::Timeout => {
                self.rx_intr_count = self.rx_intr_count.wrapping_add(1);
                SerialWork::Receive
            },
            InterruptType::TransmitterHoldingRegisterEmpty => {
                self.tx_intr_count = self.tx_intr_count.wrapping_add(1);
                SerialWork::Transmit
            },
            InterruptType::ModemStatus => SerialWork::Report,
            _ => SerialWork::Unsupported,
        }
    }

    /// Stores a byte that the device received and tells whether the driver
    /// may go on reading. When the queue of received bytes is full the byte
    /// is dropped, the interrupt for received data is switched off, and the
    /// driver has to stop.
    pub fn push_received(&mut self, ch: u8) -> (go_on: bool)
        ensures
            go_on == (old(self)@.rx_buffer.len() < DEFAULT_TX_BUFFER_SIZE),
            go_on ==> final(self)@ == (SerialState {
                rx_buffer: old(self)@.rx_buffer.push(ch),
                rx_count: old(self).rx_count.wrapping_add(1),
                ..old(self)@
            }),
            !go_on ==> final(self)@ == (SerialState { rx_intr_enabled: false, ..old(self)@ }),
    {
        if self.rx_buffer.len() < DEFAULT_TX_BUFFER_SIZE {
            self.rx_buffer.push_back(ch);
            self.rx_count = self.rx_count.wrapping_add(1);
            true
        } else {
            self.rx_intr_enabled = false;
            false
        }
    }

    /// Takes the next byte to hand to the device. When nothing is queued the
    /// interrupt that drains the queue is switched off.
    pub fn pop_to_send(&mut self) -> (word: Option<u8>)
        ensures
            old(self)@.tx_buffer.len() > 0 ==> word == Some(old(self)@.tx_buffer[0]) && final(self)@ == (
            SerialState {
                tx_buffer: old(self)@.tx_buffer.drop_first(),
                tx_count: old(self).tx_count.wrapping_add(1),
                ..old(self)@
            }),
            old(self)@.tx_buffer.len() == 0 ==> word.is_none() && final(self)@ == (SerialState {
                tx_intr_enabled: false,
                ..old(self)@
            }),
    {
        match self.tx_buffer.pop_front() {
            Some(ch) => {
                self.tx_count = self.tx_count.wrapping_add(1);
                Some(ch)
            },
            None => {
                self.tx_intr_enabled = false;
                None
            },
        }
    }
}

impl SerialState {
    /// A port with empty queues, every counter zero and both interrupts off.
    pub open spec fn fresh() -> SerialState {
        SerialState {
            rx_buffer: Seq::<u8>::empty(),
            tx_buffer: Seq::<u8>::empty(),
            rx_count: 0,
            tx_count: 0,
            intr_count: 0,
            rx_intr_count: 0,
            tx_intr_count: 0,
            tx_fifo_count: 0,
            rx_intr_enabled: false,
            tx_intr_enabled: false,
        }
    }

    /// The number of `bytes` that the queue for sending has room for.
    pub open spec fn accepts(self, bytes: Seq<u8>) -> nat {
        if self.tx_buffer.len() >= DEFAULT_TX_BUFFER_SIZE {
            0
        } else if bytes.len() <= DEFAULT_TX_BUFFER_SIZE - self.tx_buffer.len() {
            bytes.len()
        } else {
            (DEFAULT_TX_BUFFER_SIZE - self.tx_buffer.len()) as nat
        }
    }

    /// The port after as many of `bytes` as fit are queued for sending.
    pub open spec fn after_write(self, bytes: Seq<u8>) -> SerialState {
        SerialState {
            tx_buffer: self.tx_buffer + bytes.take(self.accepts(bytes) as int),
            tx_intr_enabled: self.tx_intr_enabled || self.accepts(bytes) > 0,
            ..self
        }
    }

    /// The number of bytes that a read of at most `len` gets.
    pub open spec fn yields(self, len: nat) -> nat {
        if len <= self.rx_buffer.len() {
            len
        } else {
            self.rx_buffer.len()
        }
    }

    /// The port after a read of at most `len` bytes: the bytes are gone from
    /// the queue, and if there were fewer than `len` the interrupt for
    /// received data is on.
    pub open spec fn after_read(self, len: nat) -> SerialState {
        SerialState {
            rx_buffer: self.rx_buffer.skip(self.yields(len) as int),
            rx_intr_enabled: self.rx_intr_enabled || self.yields(len) < len,
            ..self
        }
    }
}

impl BufferedSerial {
    /// Queues the bytes of `buf` for sending, in order, until the queue is
    /// full, and returns how many were queued.
    pub fn write_bytes(&mut self, buf: &Vec<u8>) -> (n: usize)
        ensures
            n == old(self)@.accepts(buf@),
            final(self)@ == old(self)@.after_write(buf@),
    {
        let mut i: usize = 0;
        while i < buf.len()
            invariant
                i <= buf@.len(),
                i == old(self)@.accepts(buf@.take(i as int)),
                self@ == old(self)@.after_write(buf@.take(i as int)),
            decreases buf@.len() - i,
        {
            let ghost before = buf@.take(i as int);
            let ghost next = buf@.take(i + 1);
            assert(next == before.push(buf@[i as int]));
            assert(before.take(i as int) == before);
            if self.try_write(buf[i]) {
                assert(next.take(i + 1) == next);
                assert(self@.tx_buffer == old(self)@.tx_buffer + next.take(i + 1));
                i += 1;
            } else {
                proof {
                    assert(old(self)@.accepts(buf@) == i);
                    assert(buf@.take(i as int) == buf@.take(old(self)@.accepts(buf@) as int));
                    assert(before.take(i as int) == buf@.take(i as int));
                }
                return i;
            }
        }
        assert(buf@.take(i as int) == buf@);
        i
    }

    /// Takes up to `len` received bytes, the oldest first, appends them to
    /// `out`, and returns how many there were.
    pub fn read_bytes(&mut self, out: &mut Vec<u8>, len: usize) -> (n: usize)
        ensures
            n == old(self)@.yields(len as nat),
            final(out)@ == old(out)@ + old(self)@.rx_buffer.take(n as int),
            final(self)@ == old(self)@.after_read(len as nat),
    {
        let mut i: usize = 0;
        assert(old(self)@.rx_buffer.skip(0) == old(self)@.rx_buffer);
        while i < len
            invariant
                i <= len,
                i <= old(self)@.rx_buffer.len(),
                out@ == old(out)@ + old(self)@.rx_buffer.take(i as int),
                self@ == (SerialState { rx_buffer: old(self)@.rx_buffer.skip(i as int), ..old(self)@ }),
            decreases len - i,
        {
            let ghost rx = old(self)@.rx_buffer;
            match self.try_read() {
                Some(ch) => {
                    assert(rx.take(i + 1) == rx.take(i as int).push(rx[i as int]));
                    assert(rx.skip(i + 1) == rx.skip(i as int).drop_first());
                    out.push(ch);
                    assert(out@ == old(out)@ + rx.take(i + 1));
                    i += 1;
                },
                None => {
                    return i;
                },
            }
        }
        i
    }
}

/// What is to be done about an interrupt of the given kind.
pub open spec fn serial_work(int_type: InterruptType) -> SerialWork {
    match int_type {
        InterruptType::ReceivedDataAvailable | InterruptType::Timeout => SerialWork::Receive,
        InterruptType::TransmitterHoldingRegisterEmpty => SerialWork::Transmit,
        InterruptType::ModemStatus => SerialWork::Report,
        _ => SerialWork::Unsupported,
    }
}

/// The serial ports of a board.
pub open spec fn serials_wf(serials: Seq<BufferedSerial>) -> bool {
    serials.len() == SERIAL_NUM
}

/// The four serial ports of a board, all fresh.
pub fn new_serials() -> (serials: Vec<BufferedSerial>)
    ensures
        serials_wf(serials@),
        forall|i: int| 0 <= i < SERIAL_NUM ==> (#[trigger] serials@[i])@ == SerialState::fresh(),
{
    let mut serials: Vec<BufferedSerial> = Vec::new();
    serials.push(BufferedSerial::new());
    serials.push(BufferedSerial::new());
    serials.push(BufferedSerial::new());
    serials.push(BufferedSerial::new());
    serials
}

/// Whether two rows of serial ports hold the same but for the port `id`.
pub open spec fn same_but(before: Seq<BufferedSerial>, after: Seq<BufferedSerial>, id: int) -> bool {
    &&& after.len() == before.len()
    &&& forall|i: int| 0 <= i < before.len() && i != id ==> (#[trigger] after[i])@ == before[i]@
}

/// Switches on, for every port, the interrupt for received data.
pub fn init(serials: &mut Vec<BufferedSerial>)
    requires
        serials_wf(old(serials)@),
    ensures
        final(serials)@.len() == old(serials)@.len(),
        forall|i: int|
            0 <= i < SERIAL_NUM ==> (#[trigger] final(serials)@[i])@ == (SerialState {
                rx_intr_enabled: true,
                ..old(serials)@[i]@
            }),
{
    let mut serial_id: usize = 0;
    while serial_id < SERIAL_NUM
        invariant
            serial_id <= SERIAL_NUM,
            serials@.len() == SERIAL_NUM,
            forall|i: int|
                0 <= i < serial_id ==> (#[trigger] serials@[i])@ == (SerialState {
                    rx_intr_enabled: true,
                    ..old(serials)@[i]@
                }),
            forall|i: int| serial_id <= i < SERIAL_NUM ==> (#[trigger] serials@[i])@ == old(serials)@[i]@,
        decreases SERIAL_NUM - serial_id,
    {
        serials[serial_id].hardware_init();
        serial_id += 1;
    }
}

/// Takes note of the interrupt `irq` at the port it belongs to.
pub fn handle_interrupt(serials: &mut Vec<BufferedSerial>, board: Board, irq: u16, int_type: InterruptType) -> (work:
    SerialWork)
    requires
        serials_wf(old(serials)@),
    ensures
        work == serial_work(int_type),
        same_but(old(serials)@, final(serials)@, spec_irq_to_serial_id(board, irq) as int),
        final(serials)@[spec_irq_to_serial_id(board, irq) as int]@ == (SerialState {
            intr_count: old(serials)@[spec_irq_to_serial_id(board, irq) as int].intr_count.wrapping_add(1),
            rx_intr_count: if work == SerialWork::Receive {
                old(serials)@[spec_irq_to_serial_id(board, irq) as int].rx_intr_count.wrapping_add(1)
            } else {
                old(serials)@[spec_irq_to_serial_id(board, irq) as int].rx_intr_count
            },
            tx_intr_count: if work == SerialWork::Transmit {
                old(serials)@[spec_irq_to_serial_id(board, irq) as int].tx_intr_count.wrapping_add(1)
            } else {
                old(serials)@[spec_irq_to_serial_id(board, irq) as int].tx_intr_count
            },
            ..old(serials)@[spec_irq_to_serial_id(board, irq) as int]@
        }),
{
    let id = irq_to_serial_id(board, irq);
    serials[id].interrupt_handler(int_type)
}

/// Queues `c` for sending at the port `serial_id`; `false`, and no change,
/// when the port's queue is full.
pub fn serial_putchar(serials: &mut Vec<BufferedSerial>, serial_id: usize, c: u8) -> (queued: bool)
    requires
        serial_id < old(serials)@.len(),
    ensures
        same_but(old(serials)@, final(serials)@, serial_id as int),
        queued == (old(serials)@[serial_id as int]@.tx_buffer.len() < DEFAULT_TX_BUFFER_SIZE),
        queued ==> final(serials)@[serial_id as int]@ == (SerialState {
            tx_buffer: old(serials)@[serial_id as int]@.tx_buffer.push(c),
            tx_intr_enabled: true,
            ..old(serials)@[serial_id as int]@
        }),
        !queued ==> final(serials)@[serial_id as int]@ == old(serials)@[serial_id as int]@,
{
    serials[serial_id].try_write(c)
}

/// Takes the oldest byte received at the port `serial_id`. When there is
/// none, the port's interrupt for received data is switched on.
pub fn serial_getchar(serials: &mut Vec<BufferedSerial>, serial_id: usize) -> (word: Option<u8>)
    requires
        serial_id < old(serials)@.len(),
    ensures
        same_but(old(serials)@, final(serials)@, serial_id as int),
        old(serials)@[serial_id as int]@.rx_buffer.len() > 0 ==> word == Some(
            old(serials)@[serial_id as int]@.rx_buffer[0],
        ) && final(serials)@[serial_id as int]@ == (SerialState {
            rx_buffer: old(serials)@[serial_id as int]@.rx_buffer.drop_first(),
            ..old(serials)@[serial_id as int]@
        }),
        old(serials)@[serial_id as int]@.rx_buffer.len() == 0 ==> word.is_none() && final(serials)@[serial_id as int]@ == (SerialState { rx_intr_enabled: true, ..old(serials)@[serial_id as int]@ }),
{
    serials[serial_id].try_read()
}

} // verus!
