use vstd::prelude::*;

verus! {

pub const SYSCALL_DUP: usize = 24;

pub const SYSCALL_OPEN: usize = 56;

pub const SYSCALL_CLOSE: usize = 57;

pub const SYSCALL_PIPE: usize = 59;

pub const SYSCALL_READ: usize = 63;

pub const SYSCALL_WRITE: usize = 64;

pub const SYSCALL_EXIT: usize = 93;

pub const SYSCALL_YIELD: usize = 124;

pub const SYSCALL_GET_TIME: usize = 169;

pub const SYSCALL_GETPID: usize = 172;

pub const SYSCALL_FORK: usize = 220;

pub const SYSCALL_EXEC: usize = 221;

pub const SYSCALL_SPAWN: usize = 400;

pub const SYSCALL_WAITPID: usize = 260;

pub const SYSCALL_MAILREAD: usize = 401;

pub const SYSCALL_MAILWRITE: usize = 402;

pub const SYSCALL_FLUSH_TRACE: usize = 555;

pub const SYSCALL_INIT_USER_TRAP: usize = 600;

pub const SYSCALL_SEND_MSG: usize = 601;

pub const SYSCALL_SET_TIMER: usize = 602;

pub const SYSCALL_CLAIM_EXT_INT: usize = 603;

pub const SYSCALL_SET_EXT_INT_ENABLE: usize = 604;

/// A system call as a task hands it to the kernel: its number, for the
/// register `a7`, and its three arguments, for `a0` to `a2`. Addresses are
/// those of the task's own memory.
#[derive(Clone, Copy, Debug, PartialEq, Eq)]
pub struct SyscallRequest {
    pub id: usize,
    pub args: [usize; 3],
}

/// The system call with the number `id` and the arguments `a0` to `a2`.
pub fn syscall(id: usize, a0: usize, a1: usize, a2: usize) -> (request: SyscallRequest)
    ensures
        request.id == id,
        request.args@ == seq![a0, a1, a2],
{
    let request = SyscallRequest { id, args: [a0, a1, a2] };
    assert(request.args@ =~= seq![a0, a1, a2]);
    request
}

/// The word that carries the exit code `exit_code`: the code, extended to
/// the width of a word.
pub open spec fn spec_exit_word(exit_code: i32) -> usize {
    exit_code as isize as usize
}

/// The word that carries the exit code `exit_code`.
#[verifier::when_used_as_spec(spec_exit_word)]
pub fn exit_word(exit_code: i32) -> (word: usize)
    ensures
        word == spec_exit_word(exit_code),
{
    #[verifier::truncate]
    ((exit_code as isize) as usize)
}

/// The word that carries the signed number `n`: its bits, read as unsigned.
pub open spec fn spec_pid_word(n: isize) -> usize {
    n as usize
}

/// The word that carries the signed number `n`.
#[verifier::when_used_as_spec(spec_pid_word)]
pub fn pid_word(n: isize) -> (word: usize)
    ensures
        word == spec_pid_word(n),
{
    #[verifier::truncate]
    (n as usize)
}

/// Duplicates the file descriptor `fd`.
pub fn sys_dup(fd: usize) -> (request: SyscallRequest)
    ensures
        request.id == SYSCALL_DUP,
        request.args@ == seq![fd, 0usize, 0usize],
{
    syscall(SYSCALL_DUP, fd, 0, 0)
}

/// Opens the file whose name stands at the address `path`.
pub fn sys_open(path: usize, flags: u32) -> (request: SyscallRequest)
    ensures
        request.id == SYSCALL_OPEN,
        request.args@ == seq![path, flags as usize, 0usize],
{
    syscall(SYSCALL_OPEN, path, flags as usize, 0)
}

/// Closes the file descriptor `fd`.
pub fn sys_close(fd: usize) -> (request: SyscallRequest)
    ensures
        request.id == SYSCALL_CLOSE,
        request.args@ == seq![fd, 0usize, 0usize],
{
    syscall(SYSCALL_CLOSE, fd, 0, 0)
}

/// Opens a pipe and stores its two file descriptors at the address `pipe`.
pub fn sys_pipe(pipe: usize) -> (request: SyscallRequest)
    ensures
        request.id == SYSCALL_PIPE,
        request.args@ == seq![pipe, 0usize, 0usize],
{
    syscall(SYSCALL_PIPE, pipe, 0, 0)
}

/// Reads up to `len` bytes from `fd` to the address `buffer`.
pub fn sys_read(fd: usize, buffer: usize, len: usize) -> (request: SyscallRequest)
    ensures
        request.id == SYSCALL_READ,
        request.args@ == seq![fd, buffer, len],
{
    syscall(SYSCALL_READ, fd, buffer, len)
}

/// Writes the `len` bytes at the address `buffer` to `fd`.
pub fn sys_write(fd: usize, buffer: usize, len: usize) -> (request: SyscallRequest)
    ensures
        request.id == SYSCALL_WRITE,
        request.args@ == seq![fd, buffer, len],
{
    syscall(SYSCALL_WRITE, fd, buffer, len)
}

/// Ends the task with `exit_code`.
pub fn sys_exit(exit_code: i32) -> (request: SyscallRequest)
    ensures
        request.id == SYSCALL_EXIT,
        request.args@ == seq![exit_word(exit_code), 0usize, 0usize],
{
    syscall(SYSCALL_EXIT, exit_word(exit_code), 0, 0)
}

/// Gives the hart up.
pub fn sys_yield() -> (request: SyscallRequest)
    ensures
        request.id == SYSCALL_YIELD,
        request.args@ == seq![0usize, 0usize, 0usize],
{
    syscall(SYSCALL_YIELD, 0, 0, 0)
}

/// Stores the time of day at the address `time`.
pub fn sys_get_time(time: usize, tz: usize) -> (request: SyscallRequest)
    ensures
        request.id == SYSCALL_GET_TIME,
        request.args@ == seq![time, tz, 0usize],
{
    syscall(SYSCALL_GET_TIME, time, tz, 0)
}

/// Asks for the identifier of the task.
pub fn sys_getpid() -> (request: SyscallRequest)
    ensures
        request.id == SYSCALL_GETPID,
        request.args@ == seq![0usize, 0usize, 0usize],
{
    syscall(SYSCALL_GETPID, 0, 0, 0)
}

/// Forks the task.
pub fn sys_fork() -> (request: SyscallRequest)
    ensures
        request.id == SYSCALL_FORK,
        request.args@ == seq![0usize, 0usize, 0usize],
{
    syscall(SYSCALL_FORK, 0, 0, 0)
}

/// Replaces the program of the task by the one whose name stands at the address `path`.
pub fn sys_exec(path: usize, args: usize) -> (request: SyscallRequest)
    ensures
        request.id == SYSCALL_EXEC,
        request.args@ == seq![path, args, 0usize],
{
    syscall(SYSCALL_EXEC, path, args, 0)
}

/// Starts the program whose name stands at the address `path` as a child.
pub fn sys_spawn(path: usize) -> (request: SyscallRequest)
    ensures
        request.id == SYSCALL_SPAWN,
        request.args@ == seq![path, 0usize, 0usize],
{
    syscall(SYSCALL_SPAWN, path, 0, 0)
}

/// Waits for the child `pid`, or for any child if `pid` is -1, and stores its exit code at the address `exit_code`.
pub fn sys_waitpid(pid: isize, exit_code: usize) -> (request: SyscallRequest)
    ensures
        request.id == SYSCALL_WAITPID,
        request.args@ == seq![pid_word(pid), exit_code, 0usize],
{
    syscall(SYSCALL_WAITPID, pid_word(pid), exit_code, 0)
}

/// Reads up to `len` bytes of the oldest mail to the address `buf`.
pub fn sys_mailread(buf: usize, len: usize) -> (request: SyscallRequest)
    ensures
        request.id == SYSCALL_MAILREAD,
        request.args@ == seq![buf, len, 0usize],
{
    syscall(SYSCALL_MAILREAD, buf, len, 0)
}

/// Sends the `len` bytes at the address `buf` as a mail to the task `pid`.
pub fn sys_mailwrite(pid: usize, buf: usize, len: usize) -> (request: SyscallRequest)
    ensures
        request.id == SYSCALL_MAILWRITE,
        request.args@ == seq![pid, buf, len],
{
    syscall(SYSCALL_MAILWRITE, pid, buf, len)
}

/// Asks the kernel to write out its trace.
pub fn sys_flush_trace() -> (request: SyscallRequest)
    ensures
        request.id == SYSCALL_FLUSH_TRACE,
        request.args@ == seq![0usize, 0usize, 0usize],
{
    syscall(SYSCALL_FLUSH_TRACE, 0, 0, 0)
}

/// Opts the task in to user-mode traps.
pub fn sys_init_user_trap() -> (request: SyscallRequest)
    ensures
        request.id == SYSCALL_INIT_USER_TRAP,
        request.args@ == seq![0usize, 0usize, 0usize],
{
    syscall(SYSCALL_INIT_USER_TRAP, 0, 0, 0)
}

/// Sends the message `msg` to the task `pid`.
pub fn sys_send_msg(pid: usize, msg: usize) -> (request: SyscallRequest)
    ensures
        request.id == SYSCALL_SEND_MSG,
        request.args@ == seq![pid, msg, 0usize],
{
    syscall(SYSCALL_SEND_MSG, pid, msg, 0)
}

/// Sets a timer of the task at the time `time_us`.
pub fn sys_set_timer(time_us: isize) -> (request: SyscallRequest)
    ensures
        request.id == SYSCALL_SET_TIMER,
        request.args@ == seq![pid_word(time_us), 0usize, 0usize],
{
    syscall(SYSCALL_SET_TIMER, pid_word(time_us), 0, 0)
}

/// Claims the device `device_id`.
pub fn sys_claim_ext_int(device_id: usize) -> (request: SyscallRequest)
    ensures
        request.id == SYSCALL_CLAIM_EXT_INT,
        request.args@ == seq![device_id, 0usize, 0usize],
{
    syscall(SYSCALL_CLAIM_EXT_INT, device_id, 0, 0)
}

/// Switches the interrupt of the device `device_id` on, or off if `enable` is 0.
pub fn sys_set_ext_int_enable(device_id: usize, enable: usize) -> (request: SyscallRequest)
    ensures
        request.id == SYSCALL_SET_EXT_INT_ENABLE,
        request.args@ == seq![device_id, enable, 0usize],
{
    syscall(SYSCALL_SET_EXT_INT_ENABLE, device_id, enable, 0)
}

} // verus!
