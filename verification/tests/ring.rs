use uintr_kernel::fs::mail::{MailBox, MailRingBuffer, MAILBOX_SIZE, MAIL_BUFFER_SIZE, WOULD_BLOCK};
use uintr_kernel::fs::pipe::{make_pipe, Pipe};

#[test]
fn ring_keeps_order_across_the_wrap() {
    let mut ring = MailRingBuffer::new();
    let mut out = Vec::new();
    // move the indices close to the end of the ring
    for _ in 0..250 {
        ring.write_byte(0);
        ring.read_byte();
    }
    let bytes: Vec<u8> = (1..=20).collect();
    assert_eq!(ring.write_bytes(&bytes), 20);
    assert_eq!(ring.available_read(), 20);
    assert_eq!(ring.read_bytes(&mut out, 20), 20);
    assert_eq!(out, bytes);
    assert_eq!(ring.available_read(), 0);
}

#[test]
fn ring_starts_empty_with_full_room() {
    let ring = MailRingBuffer::new();
    assert_eq!(ring.available_read(), 0);
    assert_eq!(ring.available_write(), MAIL_BUFFER_SIZE);
    assert!(ring.all_write_ends_closed());
}

#[test]
fn ring_byte_by_byte_is_first_in_first_out() {
    let mut ring = MailRingBuffer::new();
    ring.write_byte(7);
    ring.write_byte(8);
    ring.write_byte(9);
    assert_eq!(ring.available_read(), 3);
    assert_eq!(ring.available_write(), 253);
    assert_eq!(ring.read_byte(), 7);
    assert_eq!(ring.read_byte(), 8);
    assert_eq!(ring.read_byte(), 9);
    assert_eq!(ring.available_read(), 0);
}

#[test]
fn ring_takes_no_more_than_its_size() {
    let mut ring = MailRingBuffer::new();
    let bytes: Vec<u8> = (0..300).map(|i| (i % 251) as u8).collect();
    assert_eq!(ring.write_bytes(&bytes), 256);
    assert_eq!(ring.available_read(), 256);
    assert_eq!(ring.available_write(), 0);
    assert_eq!(ring.write_bytes(&bytes), 0);
    let mut out = Vec::new();
    assert_eq!(ring.read_bytes(&mut out, 1000), 256);
    assert_eq!(out, bytes[..256].to_vec());
}

#[test]
fn ring_full_then_empty_then_full_again() {
    let mut ring = MailRingBuffer::new();
    for round in 0..3u8 {
        let bytes: Vec<u8> = (0..256).map(|i| (i as u8).wrapping_add(round)).collect();
        assert_eq!(ring.write_bytes(&bytes), 256);
        let mut out = Vec::new();
        assert_eq!(ring.read_bytes(&mut out, 100), 100);
        assert_eq!(ring.read_bytes(&mut out, 156), 156);
        assert_eq!(out, bytes);
        assert_eq!(ring.available_write(), 256);
    }
}

#[test]
fn ring_many_writes_one_reader() {
    let mut ring = MailRingBuffer::new();
    let mut sent: Vec<u8> = Vec::new();
    let mut got: Vec<u8> = Vec::new();
    let mut next: u8 = 0;
    for chunk in 1..60usize {
        let bytes: Vec<u8> = (0..chunk).map(|_| {
            next = next.wrapping_add(1);
            next
        }).collect();
        let n = ring.write_bytes(&bytes);
        sent.extend_from_slice(&bytes[..n]);
        ring.read_bytes(&mut got, chunk / 2 + 1);
    }
    ring.read_bytes(&mut got, 256);
    assert_eq!(got, sent);
}

#[test]
fn socket_write_end_opens_and_closes() {
    let mut mailbox = MailBox::new();
    assert!(mailbox.is_empty());
    {
        let mut socket = mailbox.create_socket();
        assert_eq!(socket.write(&vec![1, 2, 3]), Ok(3));
        assert_eq!(socket.read(3), Err(-1));
        socket.close();
    }
    assert!(!mailbox.is_empty());
    assert!(!mailbox.is_full());
    assert_eq!(mailbox.inner.mails.len(), 1);
    assert!(mailbox.inner.mails[0].all_write_ends_closed());
    assert_eq!(mailbox.inner.mails[0].available_read(), 3);
}

#[test]
fn socket_without_room_would_block() {
    let mut mailbox = MailBox::new();
    let mut socket = mailbox.create_socket();
    let big: Vec<u8> = vec![5; 300];
    assert_eq!(socket.write(&big), Ok(256));
    assert_eq!(socket.write(&vec![1]), Err(WOULD_BLOCK));
    socket.close();
}

#[test]
fn mailbox_read_from_empty_fails() {
    let mut mailbox = MailBox::new();
    let mut out = Vec::new();
    assert_eq!(mailbox.read(&mut out, 10), Err(-1));
    assert_eq!(mailbox.write(&vec![1]), Err(-1));
    assert!(out.is_empty());
}

#[test]
fn mailbox_reads_a_mail_to_its_end_before_the_next() {
    let mut mailbox = MailBox::new();
    for mail in [vec![1u8, 2, 3, 4, 5], vec![9u8, 8]] {
        let mut socket = mailbox.create_socket();
        assert_eq!(socket.write(&mail), Ok(mail.len()));
        socket.close();
    }
    let mut out = Vec::new();
    assert_eq!(mailbox.read(&mut out, 2), Ok(2));
    assert_eq!(out, vec![1, 2]);
    assert_eq!(mailbox.inner.mails.len(), 2);
    assert_eq!(mailbox.read(&mut out, 10), Ok(3));
    assert_eq!(out, vec![1, 2, 3, 4, 5]);
    assert_eq!(mailbox.inner.mails.len(), 1);
    assert_eq!(mailbox.read(&mut out, 10), Ok(2));
    assert_eq!(out, vec![1, 2, 3, 4, 5, 9, 8]);
    assert!(mailbox.is_empty());
}

#[test]
fn mailbox_with_open_empty_mail_would_block() {
    let mut mailbox = MailBox::new();
    {
        let _socket = mailbox.create_socket();
    }
    let mut out = Vec::new();
    assert_eq!(mailbox.read(&mut out, 4), Err(WOULD_BLOCK));
    assert_eq!(mailbox.inner.mails.len(), 1);
}

#[test]
fn mailbox_is_full_at_sixteen_mails() {
    let mut mailbox = MailBox::new();
    for i in 0..MAILBOX_SIZE {
        assert!(!mailbox.is_full());
        let mut socket = mailbox.create_socket();
        socket.write(&vec![i as u8]).unwrap();
        socket.close();
    }
    assert!(mailbox.is_full());
}

#[test]
fn pipe_ends_and_round_trip() {
    let mut pipes: Vec<MailRingBuffer> = Vec::new();
    let (read_end, write_end) = make_pipe(&mut pipes);
    assert_eq!(read_end, Pipe { readable: true, writable: false, buffer: 0 });
    assert_eq!(write_end, Pipe { readable: false, writable: true, buffer: 0 });
    assert_eq!(pipes.len(), 1);
    let mut out = Vec::new();
    assert_eq!(write_end.write(&mut pipes, &vec![10, 20, 30]), Ok(3));
    assert_eq!(read_end.read(&mut pipes, &mut out, 2, true), Ok(2));
    assert_eq!(read_end.read(&mut pipes, &mut out, 2, true), Ok(1));
    assert_eq!(out, vec![10, 20, 30]);
}

#[test]
fn pipe_blocks_only_while_a_writer_is_left() {
    let mut pipes: Vec<MailRingBuffer> = Vec::new();
    let (read_end, write_end) = make_pipe(&mut pipes);
    let mut out = Vec::new();
    assert_eq!(read_end.read(&mut pipes, &mut out, 4, true), Err(WOULD_BLOCK));
    assert_eq!(read_end.read(&mut pipes, &mut out, 4, false), Ok(0));
    assert_eq!(read_end.read(&mut pipes, &mut out, 0, true), Ok(0));
    assert_eq!(write_end.write(&mut pipes, &vec![1; 256]), Ok(256));
    assert_eq!(write_end.write(&mut pipes, &vec![1]), Err(WOULD_BLOCK));
    assert_eq!(write_end.write(&mut pipes, &vec![]), Ok(0));
}

#[test]
fn pipe_wrong_end_or_missing_pipe_fails() {
    let mut pipes: Vec<MailRingBuffer> = Vec::new();
    let (read_end, write_end) = make_pipe(&mut pipes);
    let mut out = Vec::new();
    assert_eq!(write_end.read(&mut pipes, &mut out, 1, false), Err(-1));
    assert_eq!(read_end.write(&mut pipes, &vec![1]), Err(-1));
    let nowhere = Pipe::write_end_with_buffer(7);
    assert_eq!(nowhere.write(&mut pipes, &vec![1]), Err(-1));
    let nothing = Pipe::read_end_with_buffer(7);
    assert_eq!(nothing.read(&mut pipes, &mut out, 1, false), Err(-1));
}
