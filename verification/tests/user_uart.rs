use uintr_kernel::config::Board;
use uintr_kernel::pac::uart::{lsr, mcr, msr};
use uintr_kernel::user::user_uart::{
    after_cts, cts, dcts, get_base_addr_from_irq, irq_to_serial_id, overrun, read_rts, rts, rx_step, set_divisor,
    BufferedSerial, PollingSerial, Received, IID_A,
};

#[test]
fn divisor_for_a_baud_rate() {
    // 100 MHz / (16 * 115200) = 54
    assert_eq!(set_divisor(100_000_000, 115_200), (54, 0));
    // 100 MHz / (16 * 6250000) = 1
    assert_eq!(set_divisor(100_000_000, 6_250_000), (1, 0));
    // 100 MHz / (16 * 300) = 20833 = 0x5161
    assert_eq!(set_divisor(100_000_000, 300), (0x61, 0x51));
    assert_eq!(set_divisor(0, 1), (0, 0));
}

#[test]
fn lines_of_the_modem() {
    let mut w = mcr::W::new();
    rts(&mut w, true);
    assert_eq!(w.value(), 0b10);
    assert!(read_rts(&mcr::R::new(w.value())));
    rts(&mut w, false);
    assert_eq!(w.value(), 0);
    assert!(!read_rts(&mcr::R::new(0b1)));
    assert!(cts(&msr::R::new(0b1_0000)));
    assert!(!cts(&msr::R::new(0b0_1111)));
    assert!(dcts(&msr::R::new(0b1)));
    assert!(!dcts(&msr::R::new(0b1_0000)));
    assert!(overrun(&lsr::R::new(0b10)));
    assert!(!overrun(&lsr::R::new(0b1)));
}

#[test]
fn flow_control_counts() {
    // the line stands as before: two pulses, sixteen bytes
    assert_eq!(after_cts(16, true, true), 0);
    assert_eq!(after_cts(16, false, false), 0);
    // the line has changed: one pulse, eight bytes
    assert_eq!(after_cts(16, true, false), 8);
    assert_eq!(after_cts(3, false, true), -5);
    assert_eq!(after_cts(isize::MIN, true, false), isize::MAX - 7);
    assert_eq!(rx_step(0), (1, None));
    assert_eq!(rx_step(6), (7, None));
    assert_eq!(rx_step(7), (8, Some(false)));
    assert_eq!(rx_step(8), (9, None));
    assert_eq!(rx_step(15), (0, Some(true)));
    assert_eq!(rx_step(16), (17, None));
    assert_eq!(rx_step(usize::MAX), (0, None));
}

#[test]
fn serial_ports_by_interrupt_for_tasks() {
    assert_eq!(irq_to_serial_id(Board::Qemu, 14), 2);
    assert_eq!(irq_to_serial_id(Board::Lrv, 5), 1);
    assert_eq!(irq_to_serial_id(Board::Lrv, 100), 0);
    assert_eq!(get_base_addr_from_irq(Board::Qemu, 15), 0x1000_5000);
    assert_eq!(get_base_addr_from_irq(Board::Lrv, 5), 0x6000_2000);
}

#[test]
fn polling_port_counts_what_it_sends() {
    let mut port = PollingSerial::new(0x6000_2000);
    assert_eq!(port.base_address, 0x6000_2000);
    assert!(port.prev_cts);
    let quiet = msr::R::new(0);
    for i in 0..16 {
        assert!(port.try_write(&quiet), "{}", i);
    }
    assert_eq!(port.tx_fifo_count, 16);
    assert_eq!(port.tx_count, 16);
    // the receiver's queue counts as full
    assert!(!port.try_write(&quiet));
    assert_eq!(port.tx_count, 16);
    // the line has changed and is now deasserted: eight bytes were taken
    assert!(port.try_write(&msr::R::new(0b0_0001)));
    assert_eq!(port.tx_fifo_count, 9);
    assert!(!port.prev_cts);
    // changed, and deasserted as before: sixteen bytes were taken
    assert!(port.try_write(&msr::R::new(0b0_0001)));
    assert_eq!(port.tx_fifo_count, -6);
    assert_eq!(port.tx_count, 18);
}

#[test]
fn polling_port_pulses_its_line_while_it_receives() {
    let mut port = PollingSerial::new(0);
    assert_eq!(port.try_read(None), (None, None));
    assert_eq!(port.rx_count, 0);
    let mut lines = Vec::new();
    for i in 0..32u8 {
        let (byte, line) = port.try_read(Some(i));
        assert_eq!(byte, Some(i));
        lines.push(line);
    }
    for (i, line) in lines.iter().enumerate() {
        let expected = match i % 16 {
            7 => Some(false),
            15 => Some(true),
            _ => None,
        };
        assert_eq!(*line, expected, "{}", i);
    }
    assert_eq!(port.rx_count, 32);
    assert_eq!(port.rx_fifo_count, 0);
}

#[test]
fn polling_port_helpers() {
    let mut port = PollingSerial::new(0);
    let mut w = mcr::W::new();
    assert_eq!(port.hardware_init(&mut w, 115_200), (54, 0));
    assert_eq!(w.value(), 0b10);
    port.interrupt_handler();
    assert_eq!(port, PollingSerial::new(0));
    assert!(port.iid_rda(IID_A::RECEIVED_DATA_AVAILABLE));
    assert!(!port.iid_rda(IID_A::CHARACTER_TIMEOUT));
    assert!(port.cts(&msr::R::new(0x10)));
    assert!(port.dcts(&msr::R::new(0x01)));
    // an overrun deasserts the line
    assert!(port.error_handler(&lsr::R::new(0b10), &mut w));
    assert_eq!(w.value(), 0);
    port.rts(&mut w, true);
    assert!(!port.error_handler(&lsr::R::new(0b1000_1100), &mut w));
    assert_eq!(w.value(), 0b10);
}

#[test]
fn buffered_port_sends_in_bursts() {
    let mut port = BufferedSerial::new(0x1000_3000);
    assert!(port.prev_cts);
    assert!(!port.tx_intr_enabled);
    // the first byte goes out at once
    assert_eq!(port.try_write(1), Some(vec![1]));
    assert_eq!(port.tx_fifo_count, 1);
    assert!(!port.tx_intr_enabled);
    for i in 2..=16u8 {
        assert_eq!(port.try_write(i), Some(vec![i]));
    }
    assert_eq!(port.tx_fifo_count, 16);
    // the receiver's queue counts as full: bytes wait
    for i in 17..=40u8 {
        assert_eq!(port.try_write(i), Some(vec![]));
    }
    assert_eq!(port.tx_buffer.len(), 24);
    assert_eq!(port.tx_count, 16);
    // room in the device alone does not help
    let quiet = msr::R::new(0);
    let idle = lsr::R::new(0);
    let output = port.interrupt_handler(IID_A::THR_EMPTY, &quiet, &idle);
    assert!(output.send.is_empty());
    assert!(!port.tx_intr_enabled);
    // the receiver has taken eight bytes
    let output = port.interrupt_handler(IID_A::MODEM_STATUS, &msr::R::new(0b0_0001), &idle);
    assert_eq!(output.send, (17..=24).collect::<Vec<u8>>());
    assert!(!output.report);
    assert_eq!(port.tx_fifo_count, 16);
    assert!(!port.prev_cts);
    assert!(!port.tx_intr_enabled);
    // and sixteen more: the queue runs empty
    let output = port.interrupt_handler(IID_A::MODEM_STATUS, &msr::R::new(0b0_0001), &idle);
    assert_eq!(output.send, (25..=40).collect::<Vec<u8>>());
    assert_eq!(port.tx_fifo_count, 16);
    let output = port.interrupt_handler(IID_A::MODEM_STATUS, &msr::R::new(0b1_0001), &idle);
    assert!(output.send.is_empty());
    assert_eq!(port.tx_fifo_count, 8);
    assert!(port.prev_cts);
    assert_eq!(port.tx_count, 40);
    assert_eq!((port.intr_count, port.tx_intr_count, port.rx_intr_count), (4, 1, 0));
}

#[test]
fn buffered_port_queue_is_bounded() {
    let mut port = BufferedSerial::new(0);
    port.tx_fifo_count = 16;
    for _ in 0..1000 {
        assert_eq!(port.try_write(9), Some(vec![]));
    }
    assert_eq!(port.try_write(9), None);
    assert_eq!(port.tx_buffer.len(), 1000);
    port.tx_fifo_count = 10;
    assert_eq!(port.start_tx(), vec![9; 6]);
    assert_eq!(port.tx_fifo_count, 16);
    port.tx_fifo_count = 20;
    port.enable_threi();
    assert!(port.start_tx().is_empty());
    assert!(port.tx_intr_enabled);
    port.disable_threi();
    assert!(!port.tx_intr_enabled);
}

#[test]
fn buffered_port_receives() {
    let mut port = BufferedSerial::new(0);
    assert_eq!(port.try_read(), None);
    assert!(port.rx_intr_enabled);
    let status = msr::R::new(0);
    let line = lsr::R::new(0);
    let output = port.interrupt_handler(IID_A::RECEIVED_DATA_AVAILABLE, &status, &line);
    assert!(output.receive);
    let output = port.interrupt_handler(IID_A::CHARACTER_TIMEOUT, &status, &line);
    assert!(output.receive && output.send.is_empty() && output.rts.is_none());
    for i in 0..7u8 {
        assert_eq!(port.receive(i), Received { rts: None, go_on: true });
    }
    assert_eq!(port.receive(7), Received { rts: Some(false), go_on: true });
    for i in 8..15u8 {
        assert_eq!(port.receive(i), Received { rts: None, go_on: true });
    }
    assert_eq!(port.receive(15), Received { rts: Some(true), go_on: true });
    assert_eq!(port.rx_fifo_count, 0);
    assert_eq!(port.rx_count, 16);
    assert_eq!(port.try_read(), Some(0));
    assert_eq!(port.try_read(), Some(1));
    for i in 0..984u32 {
        assert!(port.receive(i as u8).go_on);
    }
    assert_eq!(port.rx_buffer.len(), 998);
    assert!(port.receive(1).go_on);
    // the queue is full: the device is left alone
    assert!(!port.receive(2).go_on);
    assert!(!port.rx_intr_enabled);
    assert_eq!(port.rx_buffer.len(), 1000);
    port.enable_rdai();
    assert!(port.rx_intr_enabled);
    port.disable_rdai();
    assert!(!port.rx_intr_enabled);
}

#[test]
fn buffered_port_line_and_modem_status() {
    let mut port = BufferedSerial::new(0);
    let status = msr::R::new(0b1_0000);
    let output = port.interrupt_handler(IID_A::RECEIVER_LINE_STATUS, &status, &lsr::R::new(0b10));
    assert_eq!(output.rts, Some(false));
    let output = port.interrupt_handler(IID_A::RECEIVER_LINE_STATUS, &status, &lsr::R::new(0b1000_0100));
    assert_eq!(output.rts, None);
    // a modem status without a change of the line is only reported
    let output = port.interrupt_handler(IID_A::MODEM_STATUS, &status, &lsr::R::new(0));
    assert!(output.report);
    assert_eq!(port.tx_fifo_count, 0);
    let output = port.interrupt_handler(IID_A::NO_INTERRUPT_PENDING, &status, &lsr::R::new(0));
    assert!(!output.report && !output.receive && output.send.is_empty());
    assert_eq!(port.intr_count, 3);
    let mut w = mcr::W::new();
    assert_eq!(port.hardware_init(&mut w, 6_250_000), (1, 0));
    assert!(port.rx_intr_enabled && port.tx_intr_enabled);
    assert!(port.read_rts(&mcr::R::new(w.value())));
    port.rts(&mut w, false);
    assert_eq!(w.value(), 0);
    assert!(port.cts(&status));
    assert!(!port.dcts(&status));
}
