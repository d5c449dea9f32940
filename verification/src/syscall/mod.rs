use vstd::prelude::*;
use crate::config::CPU_NUM;
use crate::kernel::Kernel;
use crate::task::task::LoadedImage;
use crate::timer::TimeVal;

pub mod device;
pub mod fs;
pub mod process;

pub use device::{sys_claim_ext_int, sys_set_ext_int_enable};
pub use fs::{sys_close, sys_mailread, sys_mailwrite, sys_pipe, sys_read, sys_write};
pub use process::{
    sys_exec, sys_exit, sys_fork, sys_get_time, sys_getpid, sys_init_user_trap, sys_mmap, sys_munmap,
    sys_send_msg, sys_set_priority, sys_set_timer, sys_spawn, sys_waitpid, sys_yield,
};

verus! {

pub const SYSCALL_CLOSE: usize = 57;

pub const SYSCALL_PIPE: usize = 59;

pub const SYSCALL_READ: usize = 63;

pub const SYSCALL_WRITE: usize = 64;

pub const SYSCALL_EXIT: usize = 93;

pub const SYSCALL_YIELD: usize = 124;

pub const SYSCALL_SET_PRIORITY: usize = 140;

pub const SYSCALL_GET_TIME: usize = 169;

pub const SYSCALL_GETPID: usize = 172;

pub const SYSCALL_MUNMAP: usize = 215;

pub const SYSCALL_FORK: usize = 220;

pub const SYSCALL_EXEC: usize = 221;

pub const SYSCALL_MMAP: usize = 222;

pub const SYSCALL_WAITPID: usize = 260;

pub const SYSCALL_SPAWN: usize = 400;

pub const SYSCALL_MAILREAD: usize = 401;

pub const SYSCALL_MAILWRITE: usize = 402;

pub const SYSCALL_INIT_USER_TRAP: usize = 600;

pub const SYSCALL_SEND_MSG: usize = 601;

pub const SYSCALL_SET_TIMER: usize = 602;

pub const SYSCALL_CLAIM_EXT_INT: usize = 603;

pub const SYSCALL_SET_EXT_INT_ENABLE: usize = 604;

/// What the platform hands to the kernel, and takes back from it, of the
/// calling task's memory for one system call: the kernel itself never
/// follows an address of a task.
pub struct UserArea {
    /// Whether the address given for the bytes or for the time lies in the
    /// task's memory. Where it does not, the call fails with -1.
    pub valid: bool,
    /// For `write` and `mailwrite`, the bytes at the address given. For
    /// `read` and `mailread`, the bytes read are appended here, to be
    /// stored at the address given.
    pub bytes: Vec<u8>,
    /// For `get_time`, the time to store at the address given.
    pub time: TimeVal,
    /// For `waitpid`, the exit code to store at the address given.
    pub exit_code: i32,
    /// For `pipe`, the two descriptors to store at the address given.
    pub pipe: [usize; 2],
    /// For `exec` and `spawn`, the program that the loader found under the
    /// name at the address given, if it found one.
    pub image: Option<LoadedImage>,
}

/// Whether the kernel has a system call with the number `syscall_id`.
pub open spec fn spec_is_supported(syscall_id: usize) -> bool {
    syscall_id == SYSCALL_CLOSE || syscall_id == SYSCALL_PIPE || syscall_id == SYSCALL_READ || syscall_id == SYSCALL_WRITE || syscall_id
        == SYSCALL_EXIT || syscall_id == SYSCALL_YIELD || syscall_id == SYSCALL_SET_PRIORITY || syscall_id
        == SYSCALL_GET_TIME || syscall_id == SYSCALL_GETPID || syscall_id == SYSCALL_MUNMAP || syscall_id
        == SYSCALL_FORK || syscall_id == SYSCALL_EXEC || syscall_id == SYSCALL_MMAP || syscall_id
        == SYSCALL_WAITPID || syscall_id == SYSCALL_SPAWN || syscall_id == SYSCALL_MAILREAD || syscall_id
        == SYSCALL_MAILWRITE || syscall_id == SYSCALL_INIT_USER_TRAP || syscall_id == SYSCALL_SEND_MSG
        || syscall_id == SYSCALL_SET_TIMER || syscall_id == SYSCALL_CLAIM_EXT_INT || syscall_id
        == SYSCALL_SET_EXT_INT_ENABLE
}

/// Whether the kernel has a system call with the number `syscall_id`.
#[verifier::when_used_as_spec(spec_is_supported)]
pub fn is_supported(syscall_id: usize) -> (r: bool)
    ensures
        r == spec_is_supported(syscall_id),
{
    syscall_id == SYSCALL_CLOSE || syscall_id == SYSCALL_PIPE || syscall_id == SYSCALL_READ || syscall_id == SYSCALL_WRITE || syscall_id
        == SYSCALL_EXIT || syscall_id == SYSCALL_YIELD || syscall_id == SYSCALL_SET_PRIORITY || syscall_id
        == SYSCALL_GET_TIME || syscall_id == SYSCALL_GETPID || syscall_id == SYSCALL_MUNMAP || syscall_id
        == SYSCALL_FORK || syscall_id == SYSCALL_EXEC || syscall_id == SYSCALL_MMAP || syscall_id
        == SYSCALL_WAITPID || syscall_id == SYSCALL_SPAWN || syscall_id == SYSCALL_MAILREAD || syscall_id
        == SYSCALL_MAILWRITE || syscall_id == SYSCALL_INIT_USER_TRAP || syscall_id == SYSCALL_SEND_MSG
        || syscall_id == SYSCALL_SET_TIMER || syscall_id == SYSCALL_CLAIM_EXT_INT || syscall_id
        == SYSCALL_SET_EXT_INT_ENABLE
}

/// Whether the two areas differ at most in their bytes.
pub open spec fn same_but_bytes(after: UserArea, before: UserArea) -> bool {
    after == (UserArea { bytes: after.bytes, ..before })
}

/// Whether the system call `syscall_id` is refused because the address it
/// is to work on does not lie in the task's memory: a `read`, a `write`
/// or a `get_time` at such an address, and a `mailread` or a `mailwrite`
/// of at least one byte.
pub open spec fn refused(syscall_id: usize, args: [usize; 3], user: UserArea) -> bool {
    !user.valid && (syscall_id == SYSCALL_READ || syscall_id == SYSCALL_WRITE || syscall_id
        == SYSCALL_GET_TIME || (syscall_id == SYSCALL_MAILREAD && args[1] > 0) || (syscall_id
        == SYSCALL_MAILWRITE && args[2] > 0))
}

/// Whether the system call `syscall_id` of the task `t` can do nothing now
/// but may later, so that the task has to wait: a `read` from an empty
/// pipe that some task can still write to, or a `write` to a pipe without
/// any room.
pub open spec fn syscall_blocks(kernel: &Kernel, t: int, syscall_id: usize, args: [usize; 3], user: UserArea) -> bool {
    if !user.valid {
        false
    } else if syscall_id == SYSCALL_READ {
        args[2] <= isize::MAX && fs::spec_read_blocks(kernel, t, args[0], args[2])
    } else if syscall_id == SYSCALL_WRITE {
        user.bytes@.len() <= isize::MAX && fs::spec_write_blocks(kernel, t, args[0], user.bytes@)
    } else {
        false
    }
}

/// Whether the system call `syscall_id` of the task that runs on `hart`
/// has to wait; see `syscall_blocks`.
pub fn blocks(kernel: &Kernel, hart: usize, syscall_id: usize, args: [usize; 3], user: &UserArea) -> (r: bool)
    requires
        kernel.wf(),
        hart < CPU_NUM,
        kernel.current(hart as int).is_some(),
    ensures
        r == syscall_blocks(kernel, kernel.current(hart as int).unwrap() as int, syscall_id, args, *user),
{
    if !user.valid {
        false
    } else if syscall_id == SYSCALL_READ {
        args[2] <= isize::MAX as usize && fs::read_blocks(kernel, hart, args[0], args[2])
    } else if syscall_id == SYSCALL_WRITE {
        user.bytes.len() <= isize::MAX as usize && fs::write_blocks(kernel, hart, args[0], &user.bytes)
    } else {
        false
    }
}

/// The effect of the system call `syscall_id` with the arguments `args`,
/// made by the task that runs on `hart` when the timer reads `now`, on the
/// kernel and on the caller's memory: that of the function of the call,
/// working on the part of `UserArea` that is meant for it. A `read` or
/// `write` of more bytes than a signed word can count fails with -1, and
/// so does a call that is to move bytes or the time from or to an address
/// that does not lie in the task's memory; both leave everything as it is.
pub open spec fn syscall_post(
    before: &Kernel,
    after: &Kernel,
    hart: usize,
    syscall_id: usize,
    args: [usize; 3],
    user: UserArea,
    user_after: UserArea,
    now: usize,
    ret: isize,
) -> bool {
    if syscall_id == SYSCALL_CLOSE {
        fs::sys_close_post(before, after, hart, args[0], ret) && user_after == user
    } else if syscall_id == SYSCALL_PIPE {
        fs::sys_pipe_post(before, after, hart, user_after.pipe, ret) && user_after == (UserArea {
            pipe: user_after.pipe,
            ..user
        })
    } else if refused(syscall_id, args, user) {
        ret == -1 && *after == *before && user_after == user
    } else if syscall_id == SYSCALL_READ {
        same_but_bytes(user_after, user) && (if args[2] <= isize::MAX {
            fs::sys_read_post(before, after, hart, args[0], user.bytes@, user_after.bytes@, args[2], ret)
        } else {
            ret == -1 && *after == *before && user_after == user
        })
    } else if syscall_id == SYSCALL_WRITE {
        user_after == user && (if user.bytes@.len() <= isize::MAX {
            fs::sys_write_post(before, after, hart, args[0], user.bytes@, ret)
        } else {
            ret == -1 && *after == *before
        })
    } else if syscall_id == SYSCALL_EXIT {
        process::sys_exit_post(before, after, hart, args[0] as i32) && user_after == user && ret == 0
    } else if syscall_id == SYSCALL_YIELD {
        process::sys_yield_post(before, after, hart, ret) && user_after == user
    } else if syscall_id == SYSCALL_GET_TIME {
        process::sys_get_time_post(before, now, user_after.time, ret) && user_after == (UserArea {
            time: user_after.time,
            ..user
        }) && *after == *before
    } else if syscall_id == SYSCALL_SET_PRIORITY {
        process::sys_set_priority_post(before, after, hart, args[0] as isize, ret) && user_after == user
    } else if syscall_id == SYSCALL_MMAP {
        process::sys_mmap_post(before, after, hart, args[0], args[1], args[2], ret) && user_after == user
    } else if syscall_id == SYSCALL_MUNMAP {
        process::sys_munmap_post(before, after, hart, args[0], args[1], ret) && user_after == user
    } else if syscall_id == SYSCALL_GETPID {
        process::sys_getpid_post(before, hart, ret) && user_after == user && *after == *before
    } else if syscall_id == SYSCALL_FORK {
        process::sys_fork_post(before, after, hart, ret) && user_after == user
    } else if syscall_id == SYSCALL_EXEC {
        process::sys_exec_post(before, after, hart, user.image, ret) && user_after == (UserArea {
            image: None,
            ..user
        })
    } else if syscall_id == SYSCALL_WAITPID {
        process::sys_waitpid_post(
            before,
            after,
            hart,
            args[0] as isize,
            user.exit_code,
            user_after.exit_code,
            ret,
        ) && user_after == (UserArea { exit_code: user_after.exit_code, ..user })
    } else if syscall_id == SYSCALL_SPAWN {
        process::sys_spawn_post(before, after, hart, user.image, ret) && user_after == (UserArea {
            image: None,
            ..user
        })
    } else if syscall_id == SYSCALL_MAILREAD {
        fs::sys_mailread_post(before, after, hart, user.bytes@, user_after.bytes@, args[1], ret)
            && same_but_bytes(user_after, user)
    } else if syscall_id == SYSCALL_MAILWRITE {
        fs::sys_mailwrite_post(before, after, args[0], user.bytes@, ret) && user_after == user
    } else if syscall_id == SYSCALL_INIT_USER_TRAP {
        process::sys_init_user_trap_post(before, after, hart, ret) && user_after == user
    } else if syscall_id == SYSCALL_SEND_MSG {
        process::sys_send_msg_post(before, after, args[0], args[1], ret) && user_after == user
    } else if syscall_id == SYSCALL_SET_TIMER {
        process::sys_set_timer_post(before, after, hart, args[0], now, ret) && user_after == user
    } else if syscall_id == SYSCALL_CLAIM_EXT_INT {
        device::sys_claim_ext_int_post(before, after, hart, args[0], ret) && user_after == user
    } else {
        device::sys_set_ext_int_enable_post(before, after, hart, args[0], args[1], ret) && user_after == user
    }
}

/// Carries out the system call `syscall_id` with the arguments `args` for
/// the task that runs on `hart`, and returns what the call returns. The
/// call `exit` returns 0 here; its task is gone.
pub fn syscall(
    kernel: &mut Kernel,
    hart: usize,
    syscall_id: usize,
    args: [usize; 3],
    user: &mut UserArea,
    now: usize,
) -> (ret: isize)
    requires
        old(kernel).wf(),
        hart < CPU_NUM,
        old(kernel).current(hart as int).is_some(),
        spec_is_supported(syscall_id),
    ensures
        final(kernel).wf(),
        syscall_post(old(kernel), final(kernel), hart, syscall_id, args, *old(user), *final(user), now, ret),
{
    if syscall_id == SYSCALL_CLOSE {
        sys_close(kernel, hart, args[0])
    } else if syscall_id == SYSCALL_PIPE {
        sys_pipe(kernel, hart, &mut user.pipe)
    } else if !user.valid && (syscall_id == SYSCALL_READ || syscall_id == SYSCALL_WRITE || syscall_id
        == SYSCALL_GET_TIME || (syscall_id == SYSCALL_MAILREAD && args[1] > 0) || (syscall_id
        == SYSCALL_MAILWRITE && args[2] > 0)) {
        -1
    } else if syscall_id == SYSCALL_READ {
        if args[2] > isize::MAX as usize {
            -1
        } else {
            sys_read(kernel, hart, args[0], &mut user.bytes, args[2])
        }
    } else if syscall_id == SYSCALL_WRITE {
        if user.bytes.len() > isize::MAX as usize {
            -1
        } else {
            sys_write(kernel, hart, args[0], &user.bytes)
        }
    } else if syscall_id == SYSCALL_EXIT {
        sys_exit(kernel, hart, #[verifier::truncate] (args[0] as i32));
        0
    } else if syscall_id == SYSCALL_YIELD {
        sys_yield(kernel, hart)
    } else if syscall_id == SYSCALL_GET_TIME {
        sys_get_time(kernel, now, &mut user.time, args[1])
    } else if syscall_id == SYSCALL_SET_PRIORITY {
        sys_set_priority(kernel, hart, #[verifier::truncate] (args[0] as isize))
    } else if syscall_id == SYSCALL_MMAP {
        sys_mmap(kernel, hart, args[0], args[1], args[2])
    } else if syscall_id == SYSCALL_MUNMAP {
        sys_munmap(kernel, hart, args[0], args[1])
    } else if syscall_id == SYSCALL_GETPID {
        sys_getpid(kernel, hart)
    } else if syscall_id == SYSCALL_FORK {
        sys_fork(kernel, hart)
    } else if syscall_id == SYSCALL_EXEC {
        let image = user.image.take();
        sys_exec(kernel, hart, image)
    } else if syscall_id == SYSCALL_WAITPID {
        sys_waitpid(kernel, hart, #[verifier::truncate] (args[0] as isize), &mut user.exit_code)
    } else if syscall_id == SYSCALL_SPAWN {
        let image = user.image.take();
        sys_spawn(kernel, hart, image)
    } else if syscall_id == SYSCALL_MAILREAD {
        sys_mailread(kernel, hart, &mut user.bytes, args[1])
    } else if syscall_id == SYSCALL_MAILWRITE {
        sys_mailwrite(kernel, args[0], &user.bytes)
    } else if syscall_id == SYSCALL_INIT_USER_TRAP {
        sys_init_user_trap(kernel, hart)
    } else if syscall_id == SYSCALL_SEND_MSG {
        sys_send_msg(kernel, args[0], args[1])
    } else if syscall_id == SYSCALL_SET_TIMER {
        sys_set_timer(kernel, hart, args[0], now)
    } else if syscall_id == SYSCALL_CLAIM_EXT_INT {
        sys_claim_ext_int(kernel, hart, args[0])
    } else {
        sys_set_ext_int_enable(kernel, hart, args[0], args[1])
    }
}

} // verus!
