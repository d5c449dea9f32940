use uintr_kernel::config::Board;
use uintr_kernel::fs::mail::WOULD_BLOCK;
use uintr_kernel::fs::pipe::Pipe;
use uintr_kernel::fs::serial::Serial;
use uintr_kernel::fs::stdio::{print, Stdin, Stdout};
use uintr_kernel::fs::{File, FileDescriptor};
use uintr_kernel::kernel::Kernel;
use uintr_kernel::mm::{MapArea, MemorySet};
use uintr_kernel::syscall::fs::{
    has_writer, read_blocks, sys_close, sys_mailread, sys_mailwrite, sys_pipe, sys_read, sys_write, write_blocks,
};
use uintr_kernel::syscall::process::{sys_fork, sys_mmap, sys_munmap, sys_waitpid};
use uintr_kernel::syscall::{is_supported, syscall, UserArea};
use uintr_kernel::task::processor::{current_task, mmap, munmap, run_tasks};
use uintr_kernel::task::task::{KernelEntry, LoadedImage, TaskStatus};
use uintr_kernel::task::{add_initproc, exit_current_and_run_next, suspend_current_and_run_next};
use uintr_kernel::timer::TimeVal;
use uintr_kernel::trap::{
    can_handle, decode_cause, syscall_number, trap_from_kernel, trap_handler, TrapCause, TrapOutcome,
};
use uintr_kernel::uart::new_serials;

fn boot() -> Kernel {
    let entry = KernelEntry { kernel_satp: 1, trap_handler: 2, trap_return: 3 };
    let mut kernel = Kernel::new(Board::Qemu, entry);
    add_initproc(
        &mut kernel,
        LoadedImage { memory_set: MemorySet::new(), user_sp: 0x1_0000, entry_point: 0x1000 },
    );
    kernel
}

fn user() -> UserArea {
    UserArea { valid: true, bytes: Vec::new(), time: TimeVal::new(), exit_code: 0, pipe: [0, 0], image: None }
}

fn tx(kernel: &Kernel, port: usize) -> Vec<u8> {
    kernel.serials[port].tx_buffer.iter().copied().collect()
}

fn set_call(kernel: &mut Kernel, tid: usize, id: usize, args: [usize; 3]) {
    let cx = &mut kernel.pids.task_table.get_mut(&tid).unwrap().inner.trap_cx;
    cx.x[17] = id;
    cx.x[10] = args[0];
    cx.x[11] = args[1];
    cx.x[12] = args[2];
}

fn a0(kernel: &Kernel, tid: usize) -> usize {
    kernel.pids.task_table[&tid].inner.trap_cx.x[10]
}

fn sepc(kernel: &Kernel, tid: usize) -> usize {
    kernel.pids.task_table[&tid].inner.trap_cx.sepc
}

#[test]
fn write_to_standard_output_reaches_the_serial_port() {
    let mut kernel = boot();
    run_tasks(&mut kernel, 0);
    assert_eq!(sys_write(&mut kernel, 0, 1, &b"hi\n".to_vec()), 3);
    assert_eq!(tx(&kernel, 0), b"hi\n".to_vec());
    assert!(kernel.serials[0].tx_intr_enabled);
    // standard error is the same port
    assert_eq!(sys_write(&mut kernel, 0, 2, &b"!".to_vec()), 1);
    assert_eq!(tx(&kernel, 0), b"hi\n!".to_vec());
    assert!(tx(&kernel, 1).is_empty());
}

#[test]
fn write_through_the_trap_handler() {
    let mut kernel = boot();
    run_tasks(&mut kernel, 0);
    set_call(&mut kernel, 1, 64, [1, 0x5000, 3]);
    let mut area = user();
    area.bytes = b"hi\n".to_vec();
    let report = trap_handler(&mut kernel, 0, TrapCause::UserEnvCall, &vec![], &mut area, 0);
    assert_eq!(report.outcome, TrapOutcome::Return);
    assert_eq!(a0(&kernel, 1), 3);
    assert_eq!(sepc(&kernel, 1), 0x1004);
    assert_eq!(tx(&kernel, 0), b"hi\n".to_vec());
}

#[test]
fn write_to_bad_descriptor_fails() {
    let mut kernel = boot();
    run_tasks(&mut kernel, 0);
    assert_eq!(sys_write(&mut kernel, 0, 5, &vec![1]), -1);
    assert_eq!(sys_write(&mut kernel, 0, 99, &vec![1]), -1);
    // standard input cannot be written to
    assert_eq!(sys_write(&mut kernel, 0, 0, &vec![1]), -1);
    let mut buf = Vec::new();
    assert_eq!(sys_read(&mut kernel, 0, 7, &mut buf, 1), -1);
    // standard output cannot be read from
    assert_eq!(sys_read(&mut kernel, 0, 1, &mut buf, 1), -1);
    assert!(buf.is_empty());
}

#[test]
fn read_from_standard_input_takes_one_byte() {
    let mut kernel = boot();
    run_tasks(&mut kernel, 0);
    let mut buf = Vec::new();
    // nothing received yet
    assert_eq!(sys_read(&mut kernel, 0, 0, &mut buf, 1), -1);
    assert!(kernel.serials[0].rx_intr_enabled);
    kernel.serials[0].push_received(b'a');
    kernel.serials[0].push_received(b'b');
    // only single bytes can be read
    assert_eq!(sys_read(&mut kernel, 0, 0, &mut buf, 2), -1);
    assert_eq!(sys_read(&mut kernel, 0, 0, &mut buf, 1), 1);
    assert_eq!(sys_read(&mut kernel, 0, 0, &mut buf, 1), 1);
    assert_eq!(buf, b"ab".to_vec());
    assert_eq!(sys_read(&mut kernel, 0, 0, &mut buf, 1), -1);
}

#[test]
fn serial_files_read_and_write() {
    let mut kernel = boot();
    run_tasks(&mut kernel, 0);
    // descriptor 3 is port 2, descriptor 4 is port 3
    assert_eq!(sys_write(&mut kernel, 0, 3, &vec![1, 2, 3]), 3);
    assert_eq!(sys_write(&mut kernel, 0, 4, &vec![9]), 1);
    assert_eq!(tx(&kernel, 2), vec![1, 2, 3]);
    assert_eq!(tx(&kernel, 3), vec![9]);
    assert_eq!(sys_write(&mut kernel, 0, 3, &vec![]), -1);
    for byte in [7u8, 8, 9] {
        kernel.serials[2].push_received(byte);
    }
    let mut buf = Vec::new();
    assert_eq!(sys_read(&mut kernel, 0, 3, &mut buf, 2), 2);
    assert_eq!(sys_read(&mut kernel, 0, 3, &mut buf, 2), 1);
    assert_eq!(buf, vec![7, 8, 9]);
    assert_eq!(sys_read(&mut kernel, 0, 3, &mut buf, 2), -1);
}

#[test]
fn serial_queue_takes_a_thousand_bytes() {
    let mut serials = new_serials();
    let port = Serial { port: 1 };
    let mut sent = 0;
    for _ in 0..9 {
        sent += port.write(&mut serials, &vec![0x55; 120]).unwrap_or(0);
    }
    assert_eq!(sent, 1000);
    assert_eq!(port.write(&mut serials, &vec![1]), Err(-1));
    // bytes for the standard output that find the queue full are dropped
    let out = Stdout;
    assert_eq!(out.write(&mut serials, &vec![1; 1005]), Ok(1005));
    assert_eq!(serials[0].tx_buffer.len(), 1000);
    assert_eq!(Serial { port: 4 }.write(&mut serials, &vec![1]), Err(-1));
    let mut buf = Vec::new();
    assert_eq!(Serial { port: 9 }.read(&mut serials, &mut buf, 1), Err(-1));
    assert_eq!(Stdin.write(&mut serials, &vec![1]), Err(-1));
    assert_eq!(out.read(&mut serials, &mut buf, 1), Err(-1));
}

#[test]
fn print_queues_at_the_first_port() {
    let mut serials = new_serials();
    print(&mut serials, &b"ok".to_vec());
    assert_eq!(serials[0].tx_buffer.iter().copied().collect::<Vec<u8>>(), b"ok".to_vec());
}

#[test]
fn pipe_as_a_file_fails() {
    let mut serials = new_serials();
    let file = FileDescriptor::Pipe(Pipe::write_end_with_buffer(0));
    let mut buf = Vec::new();
    assert_eq!(file.write(&mut serials, &vec![1]), Err(-1));
    assert_eq!(file.read(&mut serials, &mut buf, 1), Err(-1));
}

#[test]
fn close_frees_the_descriptor() {
    let mut kernel = boot();
    run_tasks(&mut kernel, 0);
    assert_eq!(sys_close(&mut kernel, 0, 1), 0);
    assert_eq!(sys_close(&mut kernel, 0, 1), -1);
    assert_eq!(sys_close(&mut kernel, 0, 5), -1);
    assert_eq!(sys_write(&mut kernel, 0, 1, &vec![1]), -1);
    // the lowest free descriptor is used next
    let mut fds = [0usize; 2];
    assert_eq!(sys_pipe(&mut kernel, 0, &mut fds), 0);
    assert_eq!(fds, [1, 5]);
    assert_eq!(kernel.pipes.len(), 1);
}

#[test]
fn pipe_between_parent_and_child() {
    let mut kernel = boot();
    run_tasks(&mut kernel, 0);
    let mut fds = [0usize; 2];
    assert_eq!(sys_pipe(&mut kernel, 0, &mut fds), 0);
    assert_eq!(fds, [5, 6]);
    assert_eq!(sys_fork(&mut kernel, 0), 2);
    // the parent keeps the read end only
    assert_eq!(sys_close(&mut kernel, 0, 6), 0);
    let mut buf = Vec::new();
    assert!(has_writer(&kernel, 0));
    assert!(read_blocks(&kernel, 0, 5, 8));
    assert_eq!(sys_read(&mut kernel, 0, 5, &mut buf, 8), WOULD_BLOCK);
    // through the trap handler the reader is suspended and will call again
    set_call(&mut kernel, 1, 63, [5, 0x6000, 8]);
    let report = trap_handler(&mut kernel, 0, TrapCause::UserEnvCall, &vec![], &mut user(), 0);
    assert_eq!(report.outcome, TrapOutcome::Schedule);
    assert_eq!(sepc(&kernel, 1), 0x1000);
    assert_eq!(a0(&kernel, 1), 5);
    // the child writes and ends
    assert_eq!(run_tasks(&mut kernel, 0), Some(2));
    assert_eq!(sys_close(&mut kernel, 0, 5), 0);
    assert_eq!(sys_write(&mut kernel, 0, 6, &b"pipe".to_vec()), 4);
    assert_eq!(sys_read(&mut kernel, 0, 6, &mut buf, 1), -1);
    exit_current_and_run_next(&mut kernel, 0, 0);
    // the parent reads what was written
    assert_eq!(run_tasks(&mut kernel, 0), Some(1));
    let mut area = user();
    let report = trap_handler(&mut kernel, 0, TrapCause::UserEnvCall, &vec![], &mut area, 0);
    assert_eq!(report.outcome, TrapOutcome::Return);
    assert_eq!(a0(&kernel, 1), 4);
    assert_eq!(area.bytes, b"pipe".to_vec());
    assert_eq!(sepc(&kernel, 1), 0x1004);
    // the zombie still holds its write end
    assert!(has_writer(&kernel, 0));
    let mut code = 0;
    assert_eq!(sys_waitpid(&mut kernel, 0, 2, &mut code), 2);
    assert!(!has_writer(&kernel, 0));
    assert!(!read_blocks(&kernel, 0, 5, 8));
    assert_eq!(sys_read(&mut kernel, 0, 5, &mut buf, 8), 0);
}

#[test]
fn write_to_full_pipe_blocks() {
    let mut kernel = boot();
    run_tasks(&mut kernel, 0);
    let mut fds = [0usize; 2];
    sys_pipe(&mut kernel, 0, &mut fds);
    assert_eq!(sys_write(&mut kernel, 0, fds[1], &vec![3; 300]), 256);
    assert!(write_blocks(&kernel, 0, fds[1], &vec![1]));
    assert!(!write_blocks(&kernel, 0, fds[1], &vec![]));
    assert!(!write_blocks(&kernel, 0, 1, &vec![1]));
    assert_eq!(sys_write(&mut kernel, 0, fds[1], &vec![1]), WOULD_BLOCK);
    let mut buf = Vec::new();
    assert_eq!(sys_read(&mut kernel, 0, fds[0], &mut buf, 10), 10);
    assert_eq!(sys_write(&mut kernel, 0, fds[1], &vec![1; 20]), 10);
}

#[test]
fn mailbox_backpressure() {
    let mut kernel = boot();
    run_tasks(&mut kernel, 0);
    assert_eq!(sys_fork(&mut kernel, 0), 2);
    // fill the mailbox of the child
    for i in 0..16u8 {
        assert_eq!(sys_mailwrite(&mut kernel, 2, &vec![i]), 1);
    }
    assert_eq!(sys_mailwrite(&mut kernel, 2, &vec![99]), -1);
    // the child reads one byte, which is one mail
    suspend_current_and_run_next(&mut kernel, 0);
    assert_eq!(run_tasks(&mut kernel, 1), Some(2));
    let mut buf = Vec::new();
    assert_eq!(sys_mailread(&mut kernel, 1, &mut buf, 1), 1);
    assert_eq!(buf, vec![0]);
    assert_eq!(sys_mailwrite(&mut kernel, 2, &vec![99]), 1);
    assert_eq!(sys_mailwrite(&mut kernel, 2, &vec![100]), -1);
    // the mails come in the order sent
    let mut all = Vec::new();
    for _ in 0..16 {
        assert_eq!(sys_mailread(&mut kernel, 1, &mut all, 256), 1);
    }
    assert_eq!(all, vec![1, 2, 3, 4, 5, 6, 7, 8, 9, 10, 11, 12, 13, 14, 15, 99]);
    assert_eq!(sys_mailread(&mut kernel, 1, &mut all, 256), -1);
}

#[test]
fn mail_carries_at_most_256_bytes() {
    let mut kernel = boot();
    run_tasks(&mut kernel, 0);
    let long: Vec<u8> = (0..400).map(|i| (i % 200) as u8).collect();
    assert_eq!(sys_mailwrite(&mut kernel, 1, &long), 256);
    assert_eq!(sys_mailwrite(&mut kernel, 1, &vec![]), 0);
    assert_eq!(sys_mailwrite(&mut kernel, 7, &vec![1]), -1);
    assert_eq!(kernel.pids.task_table[&1].inner.mail_box.inner.mails.len(), 1);
    let mut buf = Vec::new();
    assert_eq!(sys_mailread(&mut kernel, 0, &mut buf, 0), 0);
    assert_eq!(sys_mailread(&mut kernel, 0, &mut buf, 100), 100);
    assert_eq!(sys_mailread(&mut kernel, 0, &mut buf, 1000), 156);
    assert_eq!(buf, long[..256].to_vec());
    assert_eq!(sys_mailread(&mut kernel, 0, &mut buf, 1), -1);
}

#[test]
fn mail_to_a_task_that_has_ended_fails() {
    let mut kernel = boot();
    run_tasks(&mut kernel, 0);
    sys_fork(&mut kernel, 0);
    suspend_current_and_run_next(&mut kernel, 0);
    run_tasks(&mut kernel, 0);
    exit_current_and_run_next(&mut kernel, 0, 1);
    assert_eq!(sys_mailwrite(&mut kernel, 2, &vec![1]), -1);
}

#[test]
fn mmap_and_munmap() {
    let mut kernel = boot();
    run_tasks(&mut kernel, 0);
    assert_eq!(sys_mmap(&mut kernel, 0, 0x1000_0000, 4096, 3), 4096);
    assert_eq!(sys_mmap(&mut kernel, 0, 0x1000_2000, 1, 1), 4096);
    assert_eq!(sys_mmap(&mut kernel, 0, 0x2000_0000, 4097, 7), 8192);
    assert_eq!(sys_mmap(&mut kernel, 0, 0x3000_0000, 0, 7), 0);
    // not aligned
    assert_eq!(sys_mmap(&mut kernel, 0, 0x1000_0001, 4096, 3), -1);
    // no permission, or unknown permission bits
    assert_eq!(sys_mmap(&mut kernel, 0, 0x4000_0000, 4096, 0), -1);
    assert_eq!(sys_mmap(&mut kernel, 0, 0x4000_0000, 4096, 8), -1);
    // touches a mapped area
    assert_eq!(sys_mmap(&mut kernel, 0, 0x1000_0000, 4096, 3), -1);
    assert_eq!(sys_mmap(&mut kernel, 0, 0x2000_1000, 4096, 3), -1);
    // does not fit the address space
    assert_eq!(sys_mmap(&mut kernel, 0, usize::MAX - 0xfff, 8192, 3), -1);
    let areas = kernel.pids.task_table[&1].inner.memory_set.areas.clone();
    assert_eq!(
        areas,
        vec![
            MapArea { start: 0x1000_0000, end: 0x1000_1000, perm: 3, mmio: false },
            MapArea { start: 0x1000_2000, end: 0x1000_3000, perm: 1, mmio: false },
            MapArea { start: 0x2000_0000, end: 0x2000_2000, perm: 7, mmio: false },
        ]
    );
    assert_eq!(sys_munmap(&mut kernel, 0, 0x1000_2000, 4096), 4096);
    assert_eq!(sys_munmap(&mut kernel, 0, 0x1000_2000, 4096), -1);
    assert_eq!(sys_munmap(&mut kernel, 0, 0x2000_0000, 4096), -1);
    assert_eq!(sys_munmap(&mut kernel, 0, 0x2000_0000, 8000), 8192);
    assert_eq!(kernel.pids.task_table[&1].inner.memory_set.areas.len(), 1);
    // a hart without task
    assert_eq!(mmap(&mut kernel, 2, 0x5000_0000, 4096, 3), Err(-1));
    assert_eq!(munmap(&mut kernel, 2, 0x1000_0000, 4096), Err(-1));
    assert_eq!(sys_mmap(&mut kernel, 2, 0x5000_0000, 4096, 3), -1);
}

#[test]
fn device_registers_map_once() {
    let mut space = MemorySet::new();
    assert_eq!(space.mmio_map(0x1000_3000, 0x1000_4000, 3), Ok(()));
    // the same area again
    assert_eq!(space.mmio_map(0x1000_3000, 0x1000_4000, 3), Ok(()));
    assert_eq!(space.areas.len(), 1);
    // an area that touches it
    assert_eq!(space.mmio_map(0x1000_3800, 0x1000_4800, 3), Err(-1));
    assert_eq!(space.mmio_map(0x1000_3000, 0x1000_4000, 1), Err(-1));
    // an empty range
    assert_eq!(space.mmio_map(0x2000, 0x2000, 3), Err(-1));
    assert!(space.is_mapped(0x1000_3000, 0x1000_3010, 1));
    assert!(!space.is_mapped(0x1000_3000, 0x1000_3010, 4));
    assert!(!space.is_mapped(0x1000_2000, 0x1000_3010, 1));
    assert!(space.overlaps_any(0x1000_3fff, 0x1000_5000));
    assert!(!space.overlaps_any(0x1000_4000, 0x1000_5000));
    let copy = MemorySet::from_existed_user(&space);
    assert_eq!(copy.areas, space.areas);
    space.recycle_data_pages();
    assert!(space.areas.is_empty());
    assert_eq!(copy.areas.len(), 1);
}

#[test]
fn known_and_unknown_system_calls() {
    for id in [57, 59, 63, 64, 93, 124, 140, 169, 172, 215, 220, 221, 222, 260, 400, 401, 402, 600, 601, 602, 603, 604] {
        assert!(is_supported(id), "{}", id);
    }
    for id in [0, 24, 56, 58, 555, 556, 605, usize::MAX] {
        assert!(!is_supported(id), "{}", id);
    }
}

#[test]
fn unknown_system_call_is_not_handled() {
    let mut kernel = boot();
    run_tasks(&mut kernel, 0);
    set_call(&mut kernel, 1, 999, [1, 2, 3]);
    assert_eq!(syscall_number(&kernel, 0), 999);
    assert!(!can_handle(&kernel, 0, TrapCause::UserEnvCall));
    assert!(can_handle(&kernel, 0, TrapCause::SupervisorTimer));
    set_call(&mut kernel, 1, 124, [0, 0, 0]);
    assert_eq!(syscall_number(&kernel, 0), 124);
    assert!(can_handle(&kernel, 0, TrapCause::UserEnvCall));
}

#[test]
fn fork_through_the_trap_handler() {
    let mut kernel = boot();
    run_tasks(&mut kernel, 0);
    set_call(&mut kernel, 1, 220, [0, 0, 0]);
    let report = trap_handler(&mut kernel, 0, TrapCause::UserEnvCall, &vec![], &mut user(), 0);
    assert_eq!(report.outcome, TrapOutcome::Return);
    // the parent finds the child's identifier, the child finds 0
    assert_eq!(a0(&kernel, 1), 2);
    assert_eq!(a0(&kernel, 2), 0);
    // both go on behind the call
    assert_eq!(sepc(&kernel, 1), 0x1004);
    assert_eq!(sepc(&kernel, 2), 0x1004);
    assert_eq!(run_tasks(&mut kernel, 1), Some(2));
    assert_eq!(current_task(&kernel, 0), Some(1));
    assert_eq!(current_task(&kernel, 1), Some(2));
}

#[test]
fn exec_through_the_trap_handler_leaves_a0() {
    let mut kernel = boot();
    run_tasks(&mut kernel, 0);
    set_call(&mut kernel, 1, 221, [0x7000, 0, 0]);
    let mut area = user();
    let report = trap_handler(&mut kernel, 0, TrapCause::UserEnvCall, &vec![], &mut area, 0);
    assert_eq!(report.outcome, TrapOutcome::Return);
    // no such program
    assert_eq!(a0(&kernel, 1), usize::MAX);
    set_call(&mut kernel, 1, 221, [0x7000, 0, 0]);
    area.image = Some(LoadedImage { memory_set: MemorySet::new(), user_sp: 0x9_0000, entry_point: 0x4_0000 });
    trap_handler(&mut kernel, 0, TrapCause::UserEnvCall, &vec![], &mut area, 0);
    assert!(area.image.is_none());
    let cx = &kernel.pids.task_table[&1].inner.trap_cx;
    assert_eq!(cx.sepc, 0x4_0000);
    assert_eq!(cx.x[10], 0);
    assert_eq!(cx.x[2], 0x9_0000);
    assert_eq!(cx.x[17], 0);
}

#[test]
fn exit_and_yield_through_the_trap_handler() {
    let mut kernel = boot();
    run_tasks(&mut kernel, 0);
    sys_fork(&mut kernel, 0);
    set_call(&mut kernel, 1, 124, [5, 0, 0]);
    let report = trap_handler(&mut kernel, 0, TrapCause::UserEnvCall, &vec![], &mut user(), 0);
    assert_eq!(report.outcome, TrapOutcome::Schedule);
    assert_eq!(a0(&kernel, 1), 0);
    assert_eq!(run_tasks(&mut kernel, 0), Some(2));
    set_call(&mut kernel, 2, 93, [(-9i32) as usize, 0, 0]);
    let report = trap_handler(&mut kernel, 0, TrapCause::UserEnvCall, &vec![], &mut user(), 0);
    assert_eq!(report.outcome, TrapOutcome::Schedule);
    let zombie = &kernel.pids.task_table[&2];
    assert_eq!(zombie.inner.task_status, TaskStatus::Zombie);
    assert_eq!(zombie.inner.exit_code, -9);
    assert_eq!(zombie.inner.trap_cx.x[10], (-9i32) as usize);
}

#[test]
fn dispatcher_calls_by_number() {
    let mut kernel = boot();
    run_tasks(&mut kernel, 0);
    let mut area = user();
    assert_eq!(syscall(&mut kernel, 0, 172, [0, 0, 0], &mut area, 0), 1);
    assert_eq!(syscall(&mut kernel, 0, 140, [20, 0, 0], &mut area, 0), 20);
    assert_eq!(syscall(&mut kernel, 0, 140, [1, 0, 0], &mut area, 0), -1);
    assert_eq!(syscall(&mut kernel, 0, 169, [0x100, 0, 0], &mut area, 25_000_000), 0);
    assert_eq!(area.time, TimeVal { sec: 2, usec: 0 });
    assert_eq!(syscall(&mut kernel, 0, 222, [0x1000_0000, 100, 3], &mut area, 0), 4096);
    assert_eq!(syscall(&mut kernel, 0, 215, [0x1000_0000, 100, 0], &mut area, 0), 4096);
    assert_eq!(syscall(&mut kernel, 0, 59, [0x200, 0, 0], &mut area, 0), 0);
    assert_eq!(area.pipe, [5, 6]);
    area.bytes = vec![1, 2, 3];
    assert_eq!(syscall(&mut kernel, 0, 64, [6, 0x300, 3], &mut area, 0), 3);
    area.bytes.clear();
    assert_eq!(syscall(&mut kernel, 0, 63, [5, 0x300, 2], &mut area, 0), 2);
    assert_eq!(area.bytes, vec![1, 2]);
    assert_eq!(syscall(&mut kernel, 0, 63, [5, 0x300, usize::MAX], &mut area, 0), -1);
    assert_eq!(syscall(&mut kernel, 0, 57, [6, 0, 0], &mut area, 0), 0);
    assert_eq!(syscall(&mut kernel, 0, 402, [1, 0x300, 2], &mut area, 0), 2);
    area.bytes.clear();
    assert_eq!(syscall(&mut kernel, 0, 401, [0x300, 9, 0], &mut area, 0), 2);
    assert_eq!(area.bytes, vec![1, 2]);
    assert_eq!(syscall(&mut kernel, 0, 220, [0, 0, 0], &mut area, 0), 2);
    assert_eq!(syscall(&mut kernel, 0, 260, [usize::MAX, 0x400, 0], &mut area, 0), -2);
    assert_eq!(syscall(&mut kernel, 0, 400, [0x500, 0, 0], &mut area, 0), -1);
    assert_eq!(syscall(&mut kernel, 0, 600, [0, 0, 0], &mut area, 0), -0x3000);
    assert_eq!(syscall(&mut kernel, 0, 601, [1, 42, 0], &mut area, 0), 0);
    assert_eq!(syscall(&mut kernel, 0, 602, [1000, 0, 0], &mut area, 0), 0);
    assert_eq!(syscall(&mut kernel, 0, 603, [13, 0, 0], &mut area, 0), 0x1000_3000);
    assert_eq!(syscall(&mut kernel, 0, 604, [13, 1, 0], &mut area, 0), 0);
    assert_eq!(syscall(&mut kernel, 0, 124, [0, 0, 0], &mut area, 0), 0);
    assert_eq!(current_task(&kernel, 0), None);
}

#[test]
fn faults_end_the_task() {
    for (cause, code) in [
        (TrapCause::StoreFault, -2),
        (TrapCause::StorePageFault, -2),
        (TrapCause::InstructionFault, -2),
        (TrapCause::InstructionPageFault, -2),
        (TrapCause::LoadFault, -2),
        (TrapCause::LoadPageFault, -2),
        (TrapCause::IllegalInstruction, -3),
    ] {
        let mut kernel = boot();
        run_tasks(&mut kernel, 0);
        let report = trap_handler(&mut kernel, 0, cause, &vec![], &mut user(), 0);
        assert_eq!(report.outcome, TrapOutcome::Schedule);
        let task = &kernel.pids.task_table[&1];
        assert_eq!(task.inner.task_status, TaskStatus::Zombie);
        assert_eq!(task.inner.exit_code, code);
    }
}

#[test]
fn other_traps() {
    let mut kernel = boot();
    run_tasks(&mut kernel, 0);
    let report = trap_handler(&mut kernel, 0, TrapCause::SupervisorSoft, &vec![], &mut user(), 0);
    assert_eq!(report.outcome, TrapOutcome::Return);
    assert_eq!(current_task(&kernel, 0), Some(1));
    assert!(!can_handle(&kernel, 0, TrapCause::Unsupported));
    for cause in [
        TrapCause::StoreFault,
        TrapCause::StorePageFault,
        TrapCause::InstructionFault,
        TrapCause::InstructionPageFault,
        TrapCause::LoadFault,
        TrapCause::LoadPageFault,
        TrapCause::IllegalInstruction,
        TrapCause::SupervisorTimer,
        TrapCause::SupervisorExternal,
        TrapCause::SupervisorSoft,
    ] {
        assert!(can_handle(&kernel, 0, cause));
    }
    assert_eq!(trap_from_kernel(TrapCause::SupervisorSoft), TrapOutcome::Return);
}

#[test]
fn address_outside_the_task_is_refused() {
    let mut kernel = boot();
    run_tasks(&mut kernel, 0);
    let mut area = user();
    area.valid = false;
    area.bytes = vec![1, 2, 3];
    assert_eq!(syscall(&mut kernel, 0, 64, [1, 0x300, 3], &mut area, 0), -1);
    assert!(tx(&kernel, 0).is_empty());
    assert_eq!(syscall(&mut kernel, 0, 63, [3, 0x300, 3], &mut area, 0), -1);
    assert_eq!(syscall(&mut kernel, 0, 169, [0x300, 0, 0], &mut area, 12_500_000), -1);
    assert_eq!(area.time, TimeVal { sec: 0, usec: 0 });
    assert_eq!(syscall(&mut kernel, 0, 402, [1, 0x300, 3], &mut area, 0), -1);
    // a mail of no bytes needs no address
    area.bytes.clear();
    assert_eq!(syscall(&mut kernel, 0, 402, [1, 0x300, 0], &mut area, 0), 0);
    assert_eq!(syscall(&mut kernel, 0, 401, [0x300, 0, 0], &mut area, 0), -1);
    // calls that move nothing are not affected
    assert_eq!(syscall(&mut kernel, 0, 172, [0, 0, 0], &mut area, 0), 1);
}

#[test]
fn causes_by_code() {
    assert_eq!(decode_cause(false, 8), TrapCause::UserEnvCall);
    assert_eq!(decode_cause(false, 1), TrapCause::InstructionFault);
    assert_eq!(decode_cause(false, 2), TrapCause::IllegalInstruction);
    assert_eq!(decode_cause(false, 5), TrapCause::LoadFault);
    assert_eq!(decode_cause(false, 7), TrapCause::StoreFault);
    assert_eq!(decode_cause(false, 12), TrapCause::InstructionPageFault);
    assert_eq!(decode_cause(false, 13), TrapCause::LoadPageFault);
    assert_eq!(decode_cause(false, 15), TrapCause::StorePageFault);
    assert_eq!(decode_cause(false, 3), TrapCause::Unsupported);
    assert_eq!(decode_cause(false, 9), TrapCause::Unsupported);
    assert_eq!(decode_cause(true, 1), TrapCause::SupervisorSoft);
    assert_eq!(decode_cause(true, 5), TrapCause::SupervisorTimer);
    assert_eq!(decode_cause(true, 9), TrapCause::SupervisorExternal);
    assert_eq!(decode_cause(true, 8), TrapCause::Unsupported);
    assert_eq!(decode_cause(true, 0), TrapCause::Unsupported);
}
