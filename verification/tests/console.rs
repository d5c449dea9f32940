use uintr_kernel::console::{print, print_colorized, push_decimal, push_escape, ANSICON};
use uintr_kernel::console_blog::ConsoleBuffers;
use uintr_kernel::logger::{init, level_to_color, log, Level, LevelFilter};
use uintr_kernel::config::Board;
use uintr_kernel::user::syscall::{
    exit_word, pid_word, sys_claim_ext_int, sys_close, sys_dup, sys_exec, sys_exit, sys_flush_trace, sys_fork,
    sys_get_time, sys_getpid, sys_init_user_trap, sys_mailread, sys_mailwrite, sys_open, sys_pipe, sys_read,
    sys_send_msg, sys_set_ext_int_enable, sys_set_timer, sys_spawn, sys_waitpid, sys_write, sys_yield, syscall,
    SyscallRequest,
};

#[test]
fn colour_codes() {
    assert_eq!(ANSICON::Reset.code(), 0);
    assert_eq!(ANSICON::Bold.code(), 1);
    assert_eq!(ANSICON::Underline.code(), 4);
    assert_eq!(ANSICON::Blink.code(), 5);
    assert_eq!(ANSICON::Reverse.code(), 7);
    assert_eq!(ANSICON::FgBlack.code(), 30);
    assert_eq!(ANSICON::FgRed.code(), 31);
    assert_eq!(ANSICON::FgWhite.code(), 37);
    assert_eq!(ANSICON::FgDefault.code(), 39);
    assert_eq!(ANSICON::FgLightGray.code(), 90);
    assert_eq!(ANSICON::FgLightWhite.code(), 97);
    assert_eq!(ANSICON::BgBlack.code(), 40);
    assert_eq!(ANSICON::BgWhite.code(), 47);
    assert_eq!(ANSICON::BgDefault.code(), 49);
    assert_eq!(ANSICON::BgLightGray.code(), 100);
    assert_eq!(ANSICON::BgLightWhite.code(), 107);
}

#[test]
fn decimal_digits() {
    for (n, text) in [(0u8, "0"), (7, "7"), (10, "10"), (49, "49"), (99, "99"), (100, "100"), (107, "107"), (255, "255")] {
        let mut out = b">".to_vec();
        push_decimal(&mut out, n);
        assert_eq!(out, format!(">{}", text).into_bytes());
    }
    let mut out = Vec::new();
    push_escape(&mut out, 31);
    assert_eq!(out, b"\x1b[31m".to_vec());
}

#[test]
fn colorized_text() {
    assert_eq!(print(&b"plain".to_vec()), b"plain".to_vec());
    assert_eq!(print_colorized(&b"hello".to_vec(), 31, 49), b"\x1b[31m\x1b[49mhello\x1b[0m".to_vec());
    assert_eq!(print_colorized(&Vec::new(), 0, 107), b"\x1b[0m\x1b[107m\x1b[0m".to_vec());
}

#[test]
fn log_levels() {
    assert_eq!(level_to_color(Level::Error), 31);
    assert_eq!(level_to_color(Level::Warn), 93);
    assert_eq!(level_to_color(Level::Info), 34);
    assert_eq!(level_to_color(Level::Debug), 96);
    assert_eq!(level_to_color(Level::Trace), 90);
    assert_eq!(init(None), LevelFilter::Off);
    assert_eq!(init(Some(&b"ERROR".to_vec())), LevelFilter::Error);
    assert_eq!(init(Some(&b"WARN".to_vec())), LevelFilter::Warn);
    assert_eq!(init(Some(&b"INFO".to_vec())), LevelFilter::Info);
    assert_eq!(init(Some(&b"DEBUG".to_vec())), LevelFilter::Debug);
    assert_eq!(init(Some(&b"TRACE".to_vec())), LevelFilter::Trace);
    assert_eq!(init(Some(&b"error".to_vec())), LevelFilter::Off);
    assert_eq!(init(Some(&b"ERRORS".to_vec())), LevelFilter::Off);
    assert_eq!(init(Some(&b"".to_vec())), LevelFilter::Off);
}

#[test]
fn log_lines() {
    assert_eq!(
        log(Level::Warn, 2, &b"queue full".to_vec()),
        b"\x1b[93m\x1b[49m[ WARN 2]: queue full\r\n\x1b[0m".to_vec()
    );
    assert_eq!(log(Level::Error, 0, &b"x".to_vec()), b"\x1b[31m\x1b[49m[ERROR 0]: x\r\n\x1b[0m".to_vec());
    assert_eq!(log(Level::Info, 10, &b"".to_vec()), b"\x1b[34m\x1b[49m[ INFO 10]: \r\n\x1b[0m".to_vec());
    assert_eq!(log(Level::Debug, 1, &b"d".to_vec()), b"\x1b[96m\x1b[49m[DEBUG 1]: d\r\n\x1b[0m".to_vec());
    assert_eq!(log(Level::Trace, 3, &b"t".to_vec()), b"\x1b[90m\x1b[49m[TRACE 3]: t\r\n\x1b[0m".to_vec());
}

#[test]
fn console_queues() {
    let mut buffers = ConsoleBuffers::new();
    assert_eq!(buffers.pop_stdout(), 0);
    assert_eq!(buffers.pop_stdin(), 0);
    buffers.push_stdout(b'a');
    buffers.push_stdout(b'b');
    buffers.push_stdin(b'z');
    assert_eq!(buffers.pop_stdout(), b'a');
    assert_eq!(buffers.pop_stdin(), b'z');
    assert_eq!(buffers.pop_stdout(), b'b');
    for i in 0..10_005u32 {
        buffers.push_stdout(i as u8);
        buffers.push_stdin(i as u8);
    }
    assert_eq!(buffers.out_buffer.len(), 10_000);
    assert_eq!(buffers.in_buffer.len(), 1_000);
}

#[test]
fn board_constants() {
    assert_eq!(Board::Qemu.clock_freq(), 12_500_000);
    assert_eq!(Board::Lrv.clock_freq(), 10_000_000);
    assert_eq!(Board::Qemu.memory_end(), 0x8080_0000);
    assert_eq!(Board::Lrv.memory_end(), 0x1_0080_0000);
    assert_eq!(Board::Qemu.first_serial_irq(), 12);
    assert_eq!(Board::Lrv.first_serial_irq(), 4);
}

#[test]
fn user_requests() {
    assert_eq!(syscall(7, 1, 2, 3), SyscallRequest { id: 7, args: [1, 2, 3] });
    assert_eq!(sys_dup(3), SyscallRequest { id: 24, args: [3, 0, 0] });
    assert_eq!(sys_open(0x100, 2), SyscallRequest { id: 56, args: [0x100, 2, 0] });
    assert_eq!(sys_close(4), SyscallRequest { id: 57, args: [4, 0, 0] });
    assert_eq!(sys_pipe(0x200), SyscallRequest { id: 59, args: [0x200, 0, 0] });
    assert_eq!(sys_read(0, 0x300, 16), SyscallRequest { id: 63, args: [0, 0x300, 16] });
    assert_eq!(sys_write(1, 0x400, 3), SyscallRequest { id: 64, args: [1, 0x400, 3] });
    assert_eq!(sys_exit(0), SyscallRequest { id: 93, args: [0, 0, 0] });
    assert_eq!(sys_exit(-1), SyscallRequest { id: 93, args: [usize::MAX, 0, 0] });
    assert_eq!(sys_yield(), SyscallRequest { id: 124, args: [0, 0, 0] });
    assert_eq!(sys_get_time(0x500, 0), SyscallRequest { id: 169, args: [0x500, 0, 0] });
    assert_eq!(sys_getpid(), SyscallRequest { id: 172, args: [0, 0, 0] });
    assert_eq!(sys_fork(), SyscallRequest { id: 220, args: [0, 0, 0] });
    assert_eq!(sys_exec(0x600, 0x700), SyscallRequest { id: 221, args: [0x600, 0x700, 0] });
    assert_eq!(sys_spawn(0x800), SyscallRequest { id: 400, args: [0x800, 0, 0] });
    assert_eq!(sys_waitpid(-1, 0x900), SyscallRequest { id: 260, args: [usize::MAX, 0x900, 0] });
    assert_eq!(sys_waitpid(5, 0x900), SyscallRequest { id: 260, args: [5, 0x900, 0] });
    assert_eq!(sys_mailread(0xa00, 256), SyscallRequest { id: 401, args: [0xa00, 256, 0] });
    assert_eq!(sys_mailwrite(2, 0xb00, 8), SyscallRequest { id: 402, args: [2, 0xb00, 8] });
    assert_eq!(sys_flush_trace(), SyscallRequest { id: 555, args: [0, 0, 0] });
    assert_eq!(sys_init_user_trap(), SyscallRequest { id: 600, args: [0, 0, 0] });
    assert_eq!(sys_send_msg(3, 0xdead), SyscallRequest { id: 601, args: [3, 0xdead, 0] });
    assert_eq!(sys_set_timer(1_000_000), SyscallRequest { id: 602, args: [1_000_000, 0, 0] });
    assert_eq!(sys_claim_ext_int(13), SyscallRequest { id: 603, args: [13, 0, 0] });
    assert_eq!(sys_set_ext_int_enable(13, 1), SyscallRequest { id: 604, args: [13, 1, 0] });
    assert_eq!(exit_word(-2), usize::MAX - 1);
    assert_eq!(pid_word(-1), usize::MAX);
    assert_eq!(pid_word(9), 9);
}
