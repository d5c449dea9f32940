use vstd::prelude::*;
use crate::config::CPU_NUM;
use crate::fs::mail::{
    mailbox_read_removes, mailbox_read_result, ring_accepts, ring_yields, MailRingBuffer, MAILBOX_SIZE,
    MAIL_BUFFER_SIZE,
};
use crate::fs::{File, FileDescriptor};
use crate::kernel::Kernel;
use crate::task::pid::{find_task};
use crate::task::processor::same_but_inner;
use crate::task::task::{TaskControlBlockInner, TaskStatus};

verus! {

/// The file behind the descriptor `fd` of the task `t`, if it is open.
pub open spec fn open_file(kernel: &Kernel, t: int, fd: usize) -> Option<FileDescriptor> {
    if fd < kernel.tcb(t).inner.fd_table@.len() {
        kernel.tcb(t).inner.fd_table@[fd as int]
    } else {
        None
    }
}

/// The word that a system call returns for the result of a file operation:
/// the number of bytes, or -1.
pub open spec fn file_return(res: Result<usize, isize>) -> isize {
    match res {
        Ok(n) => n as isize,
        Err(_) => -1isize,
    }
}

/// Whether the entry `entry` of a table of files is a write end of the pipe `id`.
pub open spec fn is_write_end(entry: Option<FileDescriptor>, id: usize) -> bool {
    match entry {
        Some(FileDescriptor::Pipe(pipe)) => pipe.writable && pipe.buffer == id,
        _ => false,
    }
}

/// Whether the task `t` holds a write end of the pipe `id` among its first
/// `n` files.
pub open spec fn task_writes(kernel: &Kernel, t: int, id: usize, n: int) -> bool {
    exists|fd: int| 0 <= fd < n && is_write_end(#[trigger] kernel.tcb(t).inner.fd_table@[fd], id)
}

/// Whether a task with an identifier below `n` holds a write end of the
/// pipe `id`.
pub open spec fn writers_upto(kernel: &Kernel, id: usize, n: int) -> bool {
    exists|t: int|
        0 <= t < n && #[trigger] kernel.live(t) && task_writes(
            kernel,
            t,
            id,
            kernel.tcb(t).inner.fd_table@.len() as int,
        )
}

/// Whether any task holds a write end of the pipe `id`. A task that has
/// ended holds its files until it is reaped.
pub open spec fn spec_has_writer(kernel: &Kernel, id: usize) -> bool {
    writers_upto(kernel, id, kernel.pids.slots().len() as int)
}

/// Whether any task holds a write end of the pipe `id`.
#[verifier::when_used_as_spec(spec_has_writer)]
pub fn has_writer(kernel: &Kernel, id: usize) -> (r: bool)
    ensures
        r == spec_has_writer(kernel, id),
{
    let mut t: usize = 0;
    while t < kernel.pids.current
        invariant
            t <= kernel.pids.slots().len(),
            !writers_upto(kernel, id, t as int),
        decreases kernel.pids.slots().len() - t,
    {
        match kernel.pids.slot(t) {
            Some(tcb) => {
                let mut fd: usize = 0;
                while fd < tcb.inner.fd_table.len()
                    invariant
                        fd <= tcb.inner.fd_table@.len(),
                        t < kernel.pids.slots().len(),
                        kernel.live(t as int),
                        *tcb == kernel.tcb(t as int),
                        !task_writes(kernel, t as int, id, fd as int),
                    decreases tcb.inner.fd_table@.len() - fd,
                {
                    let found = match tcb.inner.fd_table[fd] {
                        Some(FileDescriptor::Pipe(pipe)) => pipe.writable && pipe.buffer == id,
                        _ => false,
                    };
                    if found {
                        assert(is_write_end(kernel.tcb(t as int).inner.fd_table@[fd as int], id));
                        assert(task_writes(kernel, t as int, id, tcb.inner.fd_table@.len() as int));
                        assert(writers_upto(kernel, id, kernel.pids.slots().len() as int));
                        return true;
                    }
                    fd += 1;
                }
            },
            None => {},
        }
        proof {
            if writers_upto(kernel, id, t + 1) {
                let x = choose|x: int|
                    0 <= x < t + 1 && #[trigger] kernel.live(x) && task_writes(
                        kernel,
                        x,
                        id,
                        kernel.tcb(x).inner.fd_table@.len() as int,
                    );
                if x < t {
                    assert(writers_upto(kernel, id, t as int));
                }
            }
        }
        t += 1;
    }
    false
}

/// Whether `after` is `before` but for its serial ports and its pipes.
pub open spec fn same_but_files(after: &Kernel, before: &Kernel) -> bool {
    &&& after.same_start(before)
    &&& after.pids == before.pids
    &&& after.pool == before.pool
    &&& after.processors == before.processors
    &&& after.timers == before.timers
    &&& after.ext_int_map == before.ext_int_map
    &&& after.plic == before.plic
}

/// The word that a system call returns for the result of an operation on
/// a pipe: the number of bytes, `WOULD_BLOCK`, or -1.
pub open spec fn pipe_return(res: Result<usize, isize>) -> isize {
    match res {
        Ok(n) => n as isize,
        Err(e) => if e == crate::fs::mail::WOULD_BLOCK {
            crate::fs::mail::WOULD_BLOCK
        } else {
            -1isize
        },
    }
}

/// Whether a write of `len` bytes to the descriptor `fd` of the task `t`
/// can transfer nothing now but may later: the file is the write end of a
/// pipe without any room.
pub open spec fn spec_write_blocks(kernel: &Kernel, t: int, fd: usize, buf: Seq<u8>) -> bool {
    match open_file(kernel, t, fd) {
        Some(FileDescriptor::Pipe(pipe)) => pipe.write_result(kernel.pipes@, buf) == Err::<usize, isize>(
            crate::fs::mail::WOULD_BLOCK,
        ),
        _ => false,
    }
}

/// Whether a read of at most `len` bytes from the descriptor `fd` of the
/// task `t` can transfer nothing now but may later: the file is the read
/// end of an empty pipe that some task can still write to.
pub open spec fn spec_read_blocks(kernel: &Kernel, t: int, fd: usize, len: usize) -> bool {
    match open_file(kernel, t, fd) {
        Some(FileDescriptor::Pipe(pipe)) => pipe.read_result(
            kernel.pipes@,
            len,
            spec_has_writer(kernel, pipe.buffer),
        ) == Err::<usize, isize>(crate::fs::mail::WOULD_BLOCK),
        _ => false,
    }
}

/// The file behind the descriptor `fd` of the task that runs on `hart`,
/// if it is open.
pub fn current_file(kernel: &Kernel, hart: usize, fd: usize) -> (file: Option<FileDescriptor>)
    requires
        kernel.wf(),
        hart < CPU_NUM,
        kernel.current(hart as int).is_some(),
    ensures
        file == open_file(kernel, kernel.current(hart as int).unwrap() as int, fd),
{
    let task = kernel.processors[hart].current.unwrap();
    assert(kernel.live(task as int));
    match kernel.pids.slot(task) {
        Some(tcb) => {
            if fd >= tcb.inner.fd_table.len() {
                None
            } else {
                tcb.inner.fd_table[fd]
            }
        },
        None => None,
    }
}

/// Whether a write of `buf` to the descriptor `fd` of the task that runs
/// on `hart` would block; see `spec_write_blocks`.
pub fn write_blocks(kernel: &Kernel, hart: usize, fd: usize, buf: &Vec<u8>) -> (r: bool)
    requires
        kernel.wf(),
        hart < CPU_NUM,
        kernel.current(hart as int).is_some(),
    ensures
        r == spec_write_blocks(kernel, kernel.current(hart as int).unwrap() as int, fd, buf@),
{
    match current_file(kernel, hart, fd) {
        Some(FileDescriptor::Pipe(pipe)) => {
            pipe.writable && pipe.buffer < kernel.pipes.len() && buf.len() > 0
                && kernel.pipes[pipe.buffer].available_write() == 0
        },
        _ => false,
    }
}

/// Whether a read of at most `len` bytes from the descriptor `fd` of the
/// task that runs on `hart` would block; see `spec_read_blocks`.
pub fn read_blocks(kernel: &Kernel, hart: usize, fd: usize, len: usize) -> (r: bool)
    requires
        kernel.wf(),
        hart < CPU_NUM,
        kernel.current(hart as int).is_some(),
    ensures
        r == spec_read_blocks(kernel, kernel.current(hart as int).unwrap() as int, fd, len),
{
    match current_file(kernel, hart, fd) {
        Some(FileDescriptor::Pipe(pipe)) => {
            pipe.readable && pipe.buffer < kernel.pipes.len() && len > 0
                && kernel.pipes[pipe.buffer].available_read() == 0 && has_writer(kernel, pipe.buffer)
        },
        _ => false,
    }
}

/// The effect of `sys_write`, which returns `ret`, on the kernel. A
/// descriptor that is not open gives -1. The end of a pipe takes as many
/// bytes as the pipe has room for; see `Pipe::write_result`. Any other
/// file passes the bytes to its serial port; see
/// `FileDescriptor::write_result`.
pub open spec fn sys_write_post(
    before: &Kernel,
    after: &Kernel,
    hart: usize,
    fd: usize,
    buf: Seq<u8>,
    ret: isize,
) -> bool {
    let t = before.current(hart as int).unwrap() as int;
    &&& same_but_files(after, before)
    &&& match open_file(before, t, fd) {
        None => ret == -1 && *after == *before,
        Some(FileDescriptor::Pipe(pipe)) => {
            let res = pipe.write_result(before.pipes@, buf);
            &&& ret == pipe_return(res)
            &&& after.serials == before.serials
            &&& res.is_err() ==> *after == *before
            &&& res.is_ok() ==> {
                &&& after.pipes@.len() == before.pipes@.len()
                &&& forall|i: int|
                    0 <= i < before.pipes@.len() && i != pipe.buffer ==> after.pipes@[i] == before.pipes@[i]
                &&& after.pipes@[pipe.buffer as int]@ == crate::fs::mail::ring_after_write(
                    before.pipes@[pipe.buffer as int]@,
                    buf,
                )
                &&& after.pipes@[pipe.buffer as int].write_end_open() == before.pipes@[pipe.buffer as int].write_end_open()
            }
        },
        Some(file) => ret == file_return(file.write_result(before.serials@, buf)) && file.write_effect(
            before.serials@,
            after.serials@,
            buf,
        ) && after.pipes == before.pipes,
    }
}

/// Writes the bytes of `buf` to the file behind the descriptor `fd` of the
/// calling task and returns the number of bytes written. Returns -1 if the
/// descriptor is not open or the file takes no byte, and `WOULD_BLOCK` if
/// the file is a pipe without any room: then the caller is to be suspended
/// and to call again.
pub fn sys_write(kernel: &mut Kernel, hart: usize, fd: usize, buf: &Vec<u8>) -> (ret: isize)
    requires
        old(kernel).wf(),
        hart < CPU_NUM,
        old(kernel).current(hart as int).is_some(),
        buf@.len() <= isize::MAX,
    ensures
        final(kernel).wf(),
        sys_write_post(old(kernel), final(kernel), hart, fd, buf@, ret),
{
    let file = match current_file(kernel, hart, fd) {
        Some(file) => file,
        None => {
            return -1;
        },
    };
    let res = match file {
        FileDescriptor::Pipe(pipe) => {
            let res = pipe.write(&mut kernel.pipes, buf);
            match res {
                Ok(n) => Ok(n),
                Err(e) => if e == crate::fs::mail::WOULD_BLOCK {
                    Err(crate::fs::mail::WOULD_BLOCK)
                } else {
                    Err(-1)
                },
            }
        },
        _ => {
            match file.write(&mut kernel.serials, buf) {
                Ok(n) => Ok(n),
                Err(_) => Err(-1),
            }
        },
    };
    proof {
        let old_k = *old(kernel);
        assert(kernel.same_shape(&old_k));
        kernel.lemma_same_shape(&old_k);
    }
    match res {
        Ok(write_len) => write_len as isize,
        Err(e) => e,
    }
}

/// The effect of `sys_read`, which returns `ret`, on the kernel and on the
/// buffer. A descriptor that is not open gives -1. The end of a pipe gives
/// the oldest bytes of the pipe; see `Pipe::read_result`. Any other file
/// gives what its serial port has received; see
/// `FileDescriptor::read_result`.
pub open spec fn sys_read_post(
    before: &Kernel,
    after: &Kernel,
    hart: usize,
    fd: usize,
    buf_before: Seq<u8>,
    buf_after: Seq<u8>,
    len: usize,
    ret: isize,
) -> bool {
    let t = before.current(hart as int).unwrap() as int;
    &&& same_but_files(after, before)
    &&& match open_file(before, t, fd) {
        None => ret == -1 && *after == *before && buf_after == buf_before,
        Some(FileDescriptor::Pipe(pipe)) => {
            let res = pipe.read_result(before.pipes@, len, spec_has_writer(before, pipe.buffer));
            &&& ret == pipe_return(res)
            &&& after.serials == before.serials
            &&& res.is_err() ==> *after == *before && buf_after == buf_before
            &&& res.is_ok() ==> {
                let ring = before.pipes@[pipe.buffer as int];
                &&& after.pipes@.len() == before.pipes@.len()
                &&& forall|i: int|
                    0 <= i < before.pipes@.len() && i != pipe.buffer ==> after.pipes@[i] == before.pipes@[i]
                &&& buf_after == buf_before + ring@.take(ret as int)
                &&& after.pipes@[pipe.buffer as int]@ == ring@.skip(ret as int)
                &&& after.pipes@[pipe.buffer as int].write_end_open() == ring.write_end_open()
            }
        },
        Some(file) => ret == file_return(file.read_result(before.serials@, len)) && file.read_effect(
            before.serials@,
            after.serials@,
            buf_before,
            buf_after,
            len,
        ) && after.pipes == before.pipes,
    }
}

/// Reads up to `len` bytes from the file behind the descriptor `fd` of the
/// calling task, appends them to `buf`, and returns their number. Returns
/// -1 if the descriptor is not open or the file gives no byte, and
/// `WOULD_BLOCK` if the file is an empty pipe that some task can still
/// write to: then the caller is to be suspended and to call again.
pub fn sys_read(kernel: &mut Kernel, hart: usize, fd: usize, buf: &mut Vec<u8>, len: usize) -> (ret: isize)
    requires
        old(kernel).wf(),
        hart < CPU_NUM,
        old(kernel).current(hart as int).is_some(),
        len <= isize::MAX,
    ensures
        final(kernel).wf(),
        sys_read_post(old(kernel), final(kernel), hart, fd, old(buf)@, final(buf)@, len, ret),
{
    let file = match current_file(kernel, hart, fd) {
        Some(file) => file,
        None => {
            return -1;
        },
    };
    let res = match file {
        FileDescriptor::Pipe(pipe) => {
            let writers = has_writer(kernel, pipe.buffer);
            let res = pipe.read(&mut kernel.pipes, buf, len, writers);
            match res {
                Ok(n) => Ok(n),
                Err(e) => if e == crate::fs::mail::WOULD_BLOCK {
                    Err(crate::fs::mail::WOULD_BLOCK)
                } else {
                    Err(-1)
                },
            }
        },
        _ => {
            match file.read(&mut kernel.serials, buf, len) {
                Ok(n) => Ok(n),
                Err(_) => Err(-1),
            }
        },
    };
    proof {
        let old_k = *old(kernel);
        assert(kernel.same_shape(&old_k));
        kernel.lemma_same_shape(&old_k);
    }
    match res {
        Ok(read_len) => read_len as isize,
        Err(e) => e,
    }
}

/// The table of files `table` with `file` in its lowest free slot, which
/// is a new slot at its end if it has no free one; and the number of that
/// slot.
pub open spec fn with_file(table: Seq<Option<FileDescriptor>>, file: FileDescriptor) -> (
    Seq<Option<FileDescriptor>>,
    usize,
) {
    let fd = crate::task::task::first_free_fd(table, table.len() as int);
    if fd < table.len() {
        (table.update(fd, Some(file)), fd as usize)
    } else {
        (table.push(Some(file)), fd as usize)
    }
}

/// The effect of `sys_pipe`, which returns `ret`, on the kernel and on the
/// place for the two descriptors: the kernel has one more pipe, which is
/// empty; the calling task has its read end in its lowest free slot and
/// then its write end in the lowest slot that is free after that; the
/// place holds the two descriptors, the read end first.
pub open spec fn sys_pipe_post(before: &Kernel, after: &Kernel, hart: usize, pipe: [usize; 2], ret: isize) -> bool {
    let t = before.current(hart as int).unwrap() as int;
    let id = before.pipes@.len() as usize;
    let inner = before.tcb(t).inner;
    let changed = after.tcb(t).inner;
    let first = with_file(
        inner.fd_table@,
        FileDescriptor::Pipe(crate::fs::Pipe { readable: true, writable: false, buffer: id }),
    );
    let second = with_file(
        first.0,
        FileDescriptor::Pipe(crate::fs::Pipe { readable: false, writable: true, buffer: id }),
    );
    &&& ret == 0
    &&& after.same_start(before)
    &&& after.same_tasks_but(before, t)
    &&& after.live(t)
    &&& after.tcb(t).pid == before.tcb(t).pid
    &&& after.tcb(t).kernel_stack == before.tcb(t).kernel_stack
    &&& after.pool == before.pool
    &&& after.processors == before.processors
    &&& after.timers == before.timers
    &&& after.serials == before.serials
    &&& after.ext_int_map == before.ext_int_map
    &&& after.plic == before.plic
    &&& after.pipes@.len() == before.pipes@.len() + 1
    &&& after.pipes@.take(before.pipes@.len() as int) == before.pipes@
    &&& after.pipes@.last()@ == Seq::<u8>::empty()
    &&& !after.pipes@.last().write_end_open()
    &&& changed == (TaskControlBlockInner { fd_table: changed.fd_table, ..inner })
    &&& changed.fd_table@ == second.0
    &&& pipe@ == seq![first.1, second.1]
}

/// Opens a pipe for the calling task, stores the descriptors of its read
/// end and of its write end into `pipe`, and returns 0.
pub fn sys_pipe(kernel: &mut Kernel, hart: usize, pipe: &mut [usize; 2]) -> (ret: isize)
    requires
        old(kernel).wf(),
        hart < CPU_NUM,
        old(kernel).current(hart as int).is_some(),
    ensures
        final(kernel).wf(),
        sys_pipe_post(old(kernel), final(kernel), hart, *final(pipe), ret),
{
    let task = kernel.processors[hart].current.unwrap();
    let ghost t = task as int;
    assert(old(kernel).live(t));
    let (pipe_read, pipe_write) = crate::fs::make_pipe(&mut kernel.pipes);
    let mut read_fd: usize = 0;
    let mut write_fd: usize = 0;
    match kernel.pids.slot_mut(task) {
        Some(tcb) => {
            read_fd = tcb.inner.alloc_fd();
            tcb.inner.fd_table[read_fd] = Some(FileDescriptor::Pipe(pipe_read));
            proof {
                crate::task::task::lemma_first_free_fd(
                    old(kernel).tcb(t).inner.fd_table@,
                    old(kernel).tcb(t).inner.fd_table@.len() as int,
                );
                assert(tcb.inner.fd_table@ =~= with_file(
                    old(kernel).tcb(t).inner.fd_table@,
                    FileDescriptor::Pipe(pipe_read),
                ).0);
            }
            let ghost mid = tcb.inner.fd_table@;
            write_fd = tcb.inner.alloc_fd();
            tcb.inner.fd_table[write_fd] = Some(FileDescriptor::Pipe(pipe_write));
            proof {
                crate::task::task::lemma_first_free_fd(mid, mid.len() as int);
                assert(tcb.inner.fd_table@ =~= with_file(mid, FileDescriptor::Pipe(pipe_write)).0);
            }
        },
        None => {},
    }
    pipe[0] = read_fd;
    pipe[1] = write_fd;
    proof {
        let old_k = *old(kernel);
        assert(pipe@ =~= seq![read_fd, write_fd]);
        assert(kernel.same_shape(&old_k));
        kernel.lemma_same_shape(&old_k);
    }
    0
}

/// The effect of `sys_close`, which returns `ret`, on the kernel.
pub open spec fn sys_close_post(before: &Kernel, after: &Kernel, hart: usize, fd: usize, ret: isize) -> bool {
    &&& ({
        let t = before.current(hart as int).unwrap() as int;
        let inner = before.tcb(t).inner;
        &&& open_file(before, t, fd).is_none() ==> ret == -1 && *after == *before
        &&& open_file(before, t, fd).is_some() ==> {
            &&& ret == 0
            &&& same_but_inner(after, before, t)
            &&& after.tcb(t).inner == (TaskControlBlockInner {
                fd_table: after.tcb(t).inner.fd_table,
                ..inner
            })
            &&& after.tcb(t).inner.fd_table@ == inner.fd_table@.update(fd as int, None)
        }
    })
}

/// Closes the descriptor `fd` of the calling task and returns 0. Returns
/// -1, and changes nothing, if the descriptor is not open.
pub fn sys_close(kernel: &mut Kernel, hart: usize, fd: usize) -> (ret: isize)
    requires
        old(kernel).wf(),
        hart < CPU_NUM,
        old(kernel).current(hart as int).is_some(),
    ensures
        final(kernel).wf(),
        sys_close_post(old(kernel), final(kernel), hart, fd, ret),
{
    let task = kernel.processors[hart].current.unwrap();
    assert(old(kernel).live(task as int));
    let open = match kernel.pids.slot(task) {
        Some(tcb) => fd < tcb.inner.fd_table.len() && tcb.inner.fd_table[fd].is_some(),
        None => false,
    };
    if !open {
        return -1;
    }
    match kernel.pids.slot_mut(task) {
        Some(tcb) => {
            tcb.inner.fd_table[fd] = None;
        },
        None => {},
    }
    proof {
        let old_k = *old(kernel);
        assert(kernel.same_shape(&old_k));
        kernel.lemma_same_shape(&old_k);
    }
    0
}

/// What `sys_mailwrite` returns for a mail of `len` bytes to the task `pid`
/// of `kernel`: -1 if no such task exists, if it has ended or if its
/// mailbox is full; otherwise the number of bytes that the mail carries,
/// at most `MAIL_BUFFER_SIZE`.
pub open spec fn mailwrite_result(kernel: &Kernel, pid: usize, len: nat) -> isize {
    if !kernel.live(pid as int) || kernel.status(pid as int) == TaskStatus::Zombie {
        -1isize
    } else if kernel.tcb(pid as int).inner.mail_box.inner.mails@.len() >= MAILBOX_SIZE {
        -1isize
    } else if len <= MAIL_BUFFER_SIZE {
        len as isize
    } else {
        MAIL_BUFFER_SIZE as isize
    }
}

/// The effect of `sys_mailwrite`, which returns `ret`, on the kernel.
pub open spec fn sys_mailwrite_post(before: &Kernel, after: &Kernel, pid: usize, buf: Seq<u8>, ret: isize) -> bool {
    &&& ret == mailwrite_result(before, pid, buf.len())
    &&& ret <= 0 ==> *after == *before
    &&& ret > 0 ==> {
        let inner = before.tcb(pid as int).inner;
        let changed = after.tcb(pid as int).inner;
        let mails = changed.mail_box.inner.mails@;
        &&& same_but_inner(after, before, pid as int)
        &&& changed == (TaskControlBlockInner { mail_box: changed.mail_box, ..inner })
        &&& mails.len() == inner.mail_box.inner.mails@.len() + 1
        &&& mails.take(mails.len() - 1) == inner.mail_box.inner.mails@
        &&& mails.last()@ == buf.take(ret as int)
        &&& !mails.last().write_end_open()
    }
}

/// Sends the bytes of `buf`, at most the first `MAIL_BUFFER_SIZE` of them,
/// as one mail to the task `pid`, and returns the number of bytes sent. The
/// mail is the last in the task's mailbox. A mail of no bytes is not sent,
/// and the call returns 0. The call returns -1, and changes nothing, if no
/// such task exists, if it has ended, or if its mailbox is full.
pub fn sys_mailwrite(kernel: &mut Kernel, pid: usize, buf: &Vec<u8>) -> (ret: isize)
    requires
        old(kernel).wf(),
    ensures
        final(kernel).wf(),
        sys_mailwrite_post(old(kernel), final(kernel), pid, buf@, ret),
{
    if find_task(kernel, pid).is_none() {
        return -1;
    }
    let full = match kernel.pids.slot(pid) {
        Some(tcb) => tcb.inner.is_mailbox_full(),
        None => true,
    };
    if full {
        return -1;
    } else if buf.len() == 0 {
        return 0;
    }
    let mut written: usize = 0;
    match kernel.pids.slot_mut(pid) {
        Some(tcb) => {
            let mut socket = tcb.create_socket();
            match socket.write(buf) {
                Ok(write_len) => {
                    written = write_len;
                },
                Err(_) => {},
            }
            socket.close();
        },
        None => {},
    }
    proof {
        let old_k = *old(kernel);
        let t = pid as int;
        let before = old_k.tcb(t).inner.mail_box.inner.mails@;
        let mails = kernel.tcb(t).inner.mail_box.inner.mails@;
        assert(mails.take(mails.len() - 1) =~= before);
        assert(buf@.take(written as int) =~= Seq::<u8>::empty() + buf@.take(written as int));
        assert(old_k.task_wf(t));
        assert(kernel.same_shape(&old_k)) by {
            assert forall|x: int| #[trigger] kernel.live(x) && old_k.task_wf(x) implies kernel.task_wf(x) by {
                if x == t {
                    assert forall|m: int| 0 <= m < mails.len() implies !(#[trigger] mails[m]).write_end_open() by {
                        if m < before.len() {
                            assert(mails[m] == before[m]);
                        }
                    }
                }
            }
        }
        kernel.lemma_same_shape(&old_k);
    }
    written as isize
}

/// The number of bytes that `sys_mailread` asks the mailbox for when the
/// caller asks for `len`.
pub open spec fn mail_request(len: usize) -> usize {
    if len <= MAIL_BUFFER_SIZE {
        len
    } else {
        MAIL_BUFFER_SIZE
    }
}

/// The effect of `sys_mailread`, which returns `ret`, on the kernel and on the buffer.
pub open spec fn sys_mailread_post(before: &Kernel, after: &Kernel, hart: usize, buf_before: Seq<u8>, buf_after: Seq<u8>, len: usize, ret: isize) -> bool {
    &&& ({
        let t = before.current(hart as int).unwrap() as int;
        let inner = before.tcb(t).inner;
        let mails = inner.mail_box.inner.mails@;
        let changed = after.tcb(t).inner;
        &&& mails.len() == 0 ==> ret == -1 && *after == *before && buf_after == buf_before
        &&& mails.len() > 0 && len == 0 ==> ret == 0 && *after == *before && buf_after
            == buf_before
        &&& mails.len() > 0 && len > 0 ==> {
            let n = ring_yields(mails[0]@, mail_request(len) as nat) as int;
            &&& ret == n
            &&& buf_after == buf_before + mails[0]@.take(n)
            &&& same_but_inner(after, before, t)
            &&& changed == (TaskControlBlockInner { mail_box: changed.mail_box, ..inner })
            &&& if n == mails[0]@.len() {
                changed.mail_box.inner.mails@ == mails.drop_first()
            } else {
                &&& changed.mail_box.inner.mails@.len() == mails.len()
                &&& changed.mail_box.inner.mails@[0]@ == mails[0]@.skip(n)
                &&& !changed.mail_box.inner.mails@[0].write_end_open()
                &&& forall|i: int| 1 <= i < mails.len() ==> changed.mail_box.inner.mails@[i] == mails[i]
            }
        }
    })
}

/// Reads from the oldest mail of the calling task: takes up to `len` of its
/// bytes, at most `MAIL_BUFFER_SIZE`, appends them to `buf`, and returns
/// their number. A mail that has been read to its end leaves the mailbox.
/// The call returns -1 if the mailbox is empty, and 0, without reading, if
/// `len` is 0.
pub fn sys_mailread(kernel: &mut Kernel, hart: usize, buf: &mut Vec<u8>, len: usize) -> (ret: isize)
    requires
        old(kernel).wf(),
        hart < CPU_NUM,
        old(kernel).current(hart as int).is_some(),
    ensures
        final(kernel).wf(),
        sys_mailread_post(old(kernel), final(kernel), hart, old(buf)@, final(buf)@, len, ret),
{
    let task = kernel.processors[hart].current.unwrap();
    let ghost t = task as int;
    assert(old(kernel).live(t));
    assert(old(kernel).task_wf(t));
    let empty = match kernel.pids.slot(task) {
        Some(tcb) => tcb.inner.is_mailbox_empty(),
        None => true,
    };
    if empty {
        return -1;
    } else if len == 0 {
        return 0;
    }
    let request = if len < MAIL_BUFFER_SIZE {
        len
    } else {
        MAIL_BUFFER_SIZE
    };
    let res = match kernel.pids.slot_mut(task) {
        Some(tcb) => tcb.inner.mail_box.read(buf, request),
        None => Err(-1),
    };
    proof {
        let old_k = *old(kernel);
        let before = old_k.tcb(t).inner.mail_box.inner.mails@;
        let mails = kernel.tcb(t).inner.mail_box.inner.mails@;
        assert(!before[0].write_end_open());
        assert(res.is_ok());
        assert(kernel.same_shape(&old_k)) by {
            assert forall|x: int| #[trigger] kernel.live(x) && old_k.task_wf(x) implies kernel.task_wf(x) by {
                if x == t {
                    assert forall|m: int| 0 <= m < mails.len() implies !(#[trigger] mails[m]).write_end_open() by {
                        if mailbox_read_removes(before, request) {
                            assert(mails[m] == before[m + 1]);
                        } else if m >= 1 {
                            assert(mails[m] == before[m]);
                        }
                    }
                }
            }
        }
        kernel.lemma_same_shape(&old_k);
    }
    match res {
        Ok(read_len) => read_len as isize,
        Err(_) => -1,
    }
}

} // verus!
