use vstd::prelude::*;
use crate::config::{Board, CPU_NUM};
use crate::kernel::Kernel;
use crate::task::birth::{born, enroll, lemma_wf_after_birth, newborn};
use crate::task::pid::{lemma_pid_range, PidHandle, MAX_PID};
use crate::task::processor::same_but_inner;
use crate::task::task::{LoadedImage, TaskControlBlock, TaskControlBlockInner, TaskStatus};
use crate::task::{exit_current_and_run_next, suspend_current_and_run_next};
use crate::timer::{get_time, is_min_key, us_to_ticks, ticks_of_us, TimeVal};
use crate::trap::context::TrapContext;
use crate::plic::{s_context, u_context, IRQ_NUM};
use crate::trap::handoff::lists_device;
use crate::trap::usertrap::{push_result, push_trap_record, release_devices, unregister_devices, UserTrapRecord};

verus! {

/// The effect of `sys_exit` on the kernel: that of `exit_current_and_run_next`.
pub open spec fn sys_exit_post(before: &Kernel, after: &Kernel, hart: usize, exit_code: i32) -> bool {
    crate::task::exit_current_and_run_next_post(before, after, hart, exit_code)
}

/// Ends the calling task with `exit_code`; see `exit_current_and_run_next`.
/// The task does not return from this call.
pub fn sys_exit(kernel: &mut Kernel, hart: usize, exit_code: i32)
    requires
        old(kernel).wf(),
        hart < CPU_NUM,
        old(kernel).current(hart as int).is_some(),
    ensures
        final(kernel).wf(),
        sys_exit_post(old(kernel), final(kernel), hart, exit_code),
{
    exit_current_and_run_next(kernel, hart, exit_code);
}

/// The effect of `sys_yield`, which returns `ret`, on the kernel: that of
/// `suspend_current_and_run_next`; the call returns 0.
pub open spec fn sys_yield_post(before: &Kernel, after: &Kernel, hart: usize, ret: isize) -> bool {
    ret == 0 && crate::task::suspend_current_and_run_next_post(before, after, hart)
}

/// Gives the hart up; see `suspend_current_and_run_next`. Returns 0.
pub fn sys_yield(kernel: &mut Kernel, hart: usize) -> (ret: isize)
    requires
        old(kernel).wf(),
        hart < CPU_NUM,
        old(kernel).current(hart as int).is_some(),
    ensures
        final(kernel).wf(),
        sys_yield_post(old(kernel), final(kernel), hart, ret),
{
    suspend_current_and_run_next(kernel, hart);
    0
}

/// The effect of `sys_set_priority`, which returns `ret`, on the kernel.
pub open spec fn sys_set_priority_post(before: &Kernel, after: &Kernel, hart: usize, prio: isize, ret: isize) -> bool {
    &&& before.current(hart as int).is_none() || prio < 2 ==> ret == -1 && *after == *before
    &&& before.current(hart as int).is_some() && prio >= 2 ==> {
        let t = before.current(hart as int).unwrap() as int;
        &&& ret == prio
        &&& same_but_inner(after, before, t)
        &&& after.tcb(t).inner == (TaskControlBlockInner { priority: prio, ..before.tcb(t).inner })
    }
}

/// Sets the priority of the calling task and returns it. A priority below 2
/// is refused: the call returns -1 and changes nothing.
pub fn sys_set_priority(kernel: &mut Kernel, hart: usize, prio: isize) -> (ret: isize)
    requires
        old(kernel).wf(),
        hart < CPU_NUM,
    ensures
        final(kernel).wf(),
        sys_set_priority_post(old(kernel), final(kernel), hart, prio, ret),
{
    match crate::task::processor::set_current_priority(kernel, hart, prio) {
        Ok(prio) => prio,
        Err(err) => err,
    }
}

/// What `sys_get_time` stores and returns.
pub open spec fn sys_get_time_post(kernel: &Kernel, now: usize, time_after: TimeVal, ret: isize) -> bool {
    &&& ret == 0
    &&& time_after.sec == now / kernel.board.spec_clock_freq()
    &&& time_after.usec == (now % kernel.board.spec_clock_freq()) * 1000_000 / (
    kernel.board.spec_clock_freq() as int)
}

/// Stores the time of day that the timer reading `now` stands for into
/// `time`, and returns 0.
pub fn sys_get_time(kernel: &Kernel, now: usize, time: &mut TimeVal, tz: usize) -> (ret: isize)
    ensures
        sys_get_time_post(kernel, now, *final(time), ret),
{
    *time = get_time(now, kernel.board);
    0
}

/// The effect of `sys_mmap`, which returns `ret`, on the kernel.
pub open spec fn sys_mmap_post(before: &Kernel, after: &Kernel, hart: usize, start: usize, len: usize, port: usize, ret: isize) -> bool {
    &&& before.current(hart as int).is_none() ==> ret == -1 && *after == *before
    &&& before.current(hart as int).is_some() ==> {
        let t = before.current(hart as int).unwrap() as int;
        let areas = before.tcb(t).inner.memory_set.areas@;
        &&& same_but_inner(after, before, t)
        &&& after.tcb(t).inner == (TaskControlBlockInner {
            memory_set: after.tcb(t).inner.memory_set,
            ..before.tcb(t).inner
        })
        &&& crate::mm::mmap_ok(areas, start, len, port) ==> ret == crate::mm::page_round_up(len as int)
            && after.tcb(t).inner.memory_set.areas@ == (if len == 0 {
            areas
        } else {
            areas.push(
                crate::mm::MapArea {
                    start,
                    end: (start + crate::mm::page_round_up(len as int)) as usize,
                    perm: port,
                    mmio: false,
                },
            )
        })
        &&& !crate::mm::mmap_ok(areas, start, len, port) ==> ret == -1 && after.tcb(
            t,
        ).inner.memory_set.areas@ == areas
    }
}

/// Maps memory into the calling task's address space and returns the number
/// of bytes mapped, or -1; see `MemorySet::mmap`.
pub fn sys_mmap(kernel: &mut Kernel, hart: usize, start: usize, len: usize, port: usize) -> (ret: isize)
    requires
        old(kernel).wf(),
        hart < CPU_NUM,
    ensures
        final(kernel).wf(),
        sys_mmap_post(old(kernel), final(kernel), hart, start, len, port, ret),
{
    match crate::task::processor::mmap(kernel, hart, start, len, port) {
        Ok(size) => size,
        Err(_) => -1,
    }
}

/// The effect of `sys_munmap`, which returns `ret`, on the kernel.
pub open spec fn sys_munmap_post(before: &Kernel, after: &Kernel, hart: usize, start: usize, len: usize, ret: isize) -> bool {
    &&& before.current(hart as int).is_none() ==> ret == -1 && *after == *before
    &&& before.current(hart as int).is_some() ==> {
        let t = before.current(hart as int).unwrap() as int;
        &&& same_but_inner(after, before, t)
        &&& after.tcb(t).inner == (TaskControlBlockInner {
            memory_set: after.tcb(t).inner.memory_set,
            ..before.tcb(t).inner
        })
        &&& crate::mm::munmap_effect(
            before.tcb(t).inner.memory_set.areas@,
            after.tcb(t).inner.memory_set.areas@,
            start,
            len,
            if ret >= 0 {
                Ok(ret)
            } else {
                Err(ret)
            },
        )
    }
}

/// Unmaps memory from the calling task's address space and returns the
/// number of bytes unmapped, or -1; see `MemorySet::munmap`.
pub fn sys_munmap(kernel: &mut Kernel, hart: usize, start: usize, len: usize) -> (ret: isize)
    requires
        old(kernel).wf(),
        hart < CPU_NUM,
    ensures
        final(kernel).wf(),
        sys_munmap_post(old(kernel), final(kernel), hart, start, len, ret),
{
    match crate::task::processor::munmap(kernel, hart, start, len) {
        Ok(size) => size,
        Err(_) => -1,
    }
}

/// What `sys_getpid` returns.
pub open spec fn sys_getpid_post(kernel: &Kernel, hart: usize, ret: isize) -> bool {
    &&& ret == kernel.current(hart as int).unwrap()
    &&& ret > 0
}

/// The identifier of the calling task.
pub fn sys_getpid(kernel: &Kernel, hart: usize) -> (ret: isize)
    requires
        kernel.wf(),
        hart < CPU_NUM,
        kernel.current(hart as int).is_some(),
    ensures
        sys_getpid_post(kernel, hart, ret),
{
    let task = kernel.processors[hart].current.unwrap();
    assert(kernel.live(task as int));
    proof {
        lemma_pid_range();
    }
    task as isize
}

/// The task `child` with the registers `x` in its trap context.
pub open spec fn with_registers(child: TaskControlBlock, x: [usize; 32]) -> TaskControlBlock {
    TaskControlBlock {
        inner: TaskControlBlockInner { trap_cx: TrapContext { x, ..child.inner.trap_cx }, ..child.inner },
        ..child
    }
}

/// The effect of `sys_fork`, which returns `ret`, on the kernel.
pub open spec fn sys_fork_post(before: &Kernel, after: &Kernel, hart: usize, ret: isize) -> bool {
    &&& before.pids.current > MAX_PID ==> ret == -1 && *after == *before
    &&& before.pids.current <= MAX_PID ==> {
        let c = before.pids.current as int;
        let p = before.current(hart as int).unwrap();
        &&& ret == c
        &&& after.live(c)
        &&& born(after, before, after.tcb(c), Some(p))
        &&& after.tcb(c).inner.trap_cx.x@ == before.tcb(p as int).inner.trap_cx.x@.update(10, 0)
        &&& with_registers(after.tcb(c), before.tcb(p as int).inner.trap_cx.x).is_fork_of(
            before.tcb(p as int),
            PidHandle(c as usize),
            before.entry,
            before.processors@[hart as int].registers.uie,
            before.processors@[hart as int].registers.uip,
        )
    }
}

/// Makes a child of the calling task, a copy of it that is ready to run,
/// and returns the child's identifier. The child will find 0 in its
/// register `a0`, where the caller finds the child's identifier. When no
/// identifier is left, the call returns -1 and changes nothing.
pub fn sys_fork(kernel: &mut Kernel, hart: usize) -> (ret: isize)
    requires
        old(kernel).wf(),
        hart < CPU_NUM,
        old(kernel).current(hart as int).is_some(),
    ensures
        final(kernel).wf(),
        sys_fork_post(old(kernel), final(kernel), hart, ret),
{
    let task = kernel.processors[hart].current.unwrap();
    assert(old(kernel).live(task as int));
    if !kernel.pids.has_free() {
        return -1;
    }
    let handle = kernel.pids.alloc_pid();
    let new_pid = handle.0;
    let uie = kernel.processors[hart].registers.uie;
    let uip = kernel.processors[hart].registers.uip;
    let entry = kernel.entry;
    let mut child = match kernel.pids.slot_mut(task) {
        Some(tcb) => tcb.fork(handle, entry, uie, uip),
        None => {
            return -1;
        },
    };
    let ghost forked = child;
    // for the child, fork returns 0
    child.inner.trap_cx.x[10] = 0;
    let ghost the_child = child;
    enroll(kernel, child);
    proof {
        assert(with_registers(the_child, old(kernel).tcb(task as int).inner.trap_cx.x) == forked);
        assert(kernel.pids.slots()[new_pid as int] == Some(the_child));
        assert(old(kernel).status(task as int) == TaskStatus::Running(hart));
        lemma_wf_after_birth(*old(kernel), *kernel, the_child, Some(task));
        lemma_pid_range();
    }
    new_pid as isize
}

/// The effect of `sys_spawn`, which returns `ret`, on the kernel.
pub open spec fn sys_spawn_post(before: &Kernel, after: &Kernel, hart: usize, image: Option<LoadedImage>, ret: isize) -> bool {
    &&& image.is_none() || before.pids.current > MAX_PID ==> ret == -1 && *after == *before
    &&& image.is_some() && before.pids.current <= MAX_PID ==> {
        let c = before.pids.current as int;
        let p = before.current(hart as int).unwrap();
        &&& ret == c
        &&& after.live(c)
        &&& born(after, before, after.tcb(c), Some(p))
        &&& after.tcb(c).is_fresh(
            PidHandle(c as usize),
            image.unwrap().memory_set.areas@,
            image.unwrap().user_sp,
            image.unwrap().entry_point,
            before.entry,
            before.processors@[hart as int].registers.uie,
            before.processors@[hart as int].registers.uip,
            Some(p),
        )
    }
}

/// Makes a child of the calling task that runs the program `image`, and
/// returns the child's identifier. Without a program, or when no
/// identifier is left, the call returns -1 and changes nothing.
pub fn sys_spawn(kernel: &mut Kernel, hart: usize, image: Option<LoadedImage>) -> (ret: isize)
    requires
        old(kernel).wf(),
        hart < CPU_NUM,
        old(kernel).current(hart as int).is_some(),
    ensures
        final(kernel).wf(),
        sys_spawn_post(old(kernel), final(kernel), hart, image, ret),
{
    let task = kernel.processors[hart].current.unwrap();
    assert(old(kernel).live(task as int));
    let image = match image {
        Some(image) => image,
        None => {
            return -1;
        },
    };
    if !kernel.pids.has_free() {
        return -1;
    }
    let handle = kernel.pids.alloc_pid();
    let new_pid = handle.0;
    let uie = kernel.processors[hart].registers.uie;
    let uip = kernel.processors[hart].registers.uip;
    let entry = kernel.entry;
    let mut child = match kernel.pids.slot_mut(task) {
        Some(tcb) => tcb.spawn(handle, image, entry, uie, uip),
        None => {
            return -1;
        },
    };
    let ghost before_a0 = child;
    child.inner.trap_cx.x[10] = 0;
    let ghost the_child = child;
    enroll(kernel, child);
    proof {
        assert(the_child.inner.trap_cx.x@ =~= before_a0.inner.trap_cx.x@);
        assert(kernel.pids.slots()[new_pid as int] == Some(the_child));
        assert(old(kernel).status(task as int) == TaskStatus::Running(hart));
        lemma_wf_after_birth(*old(kernel), *kernel, the_child, Some(task));
        lemma_pid_range();
    }
    new_pid as isize
}

/// The effect of `sys_init_user_trap`, which returns `ret`, on the kernel.
pub open spec fn sys_init_user_trap_post(before: &Kernel, after: &Kernel, hart: usize, ret: isize) -> bool {
    &&& ({
        let t = before.current(hart as int).unwrap() as int;
        let inner = before.tcb(t).inner;
        &&& same_but_inner(after, before, t)
        &&& inner.can_init_user_trap() ==> {
            &&& ret == -0x3000
            &&& after.tcb(t).inner == (TaskControlBlockInner {
                user_trap_info: after.tcb(t).inner.user_trap_info,
                memory_set: after.tcb(t).inner.memory_set,
                trap_cx: TrapContext {
                    sstatus: inner.trap_cx.sstatus | crate::trap::context::SSTATUS_UIE,
                    ..inner.trap_cx
                },
                ..inner
            })
            &&& after.tcb(t).inner.spec_is_user_trap_enabled()
            &&& after.tcb(t).inner.user_trap_info.is_some()
            &&& after.tcb(t).inner.user_trap_info.unwrap().records() == Seq::<
                UserTrapRecord,
            >::empty()
            &&& after.tcb(t).inner.user_trap_info.unwrap().devices@ == Seq::<(u16, bool)>::empty()
            &&& after.tcb(t).inner.memory_set.areas@ == inner.memory_set.areas@.push(
                crate::mm::MapArea {
                    start: crate::config::USER_TRAP_BUFFER,
                    end: (crate::config::USER_TRAP_BUFFER + crate::config::PAGE_SIZE) as usize,
                    perm: 3,
                    mmio: false,
                },
            )
        }
        &&& !inner.can_init_user_trap() ==> ret == -1 && after.tcb(t).inner == (
        TaskControlBlockInner { memory_set: after.tcb(t).inner.memory_set, ..inner })
            && after.tcb(t).inner.memory_set.areas@ == inner.memory_set.areas@
    })
}

/// Opts the calling task in to user-mode traps and returns the address of
/// its trap queue as a signed word; see
/// `TaskControlBlockInner::init_user_trap`. A task that has opted in
/// already, or whose queue cannot be mapped, gets -1.
pub fn sys_init_user_trap(kernel: &mut Kernel, hart: usize) -> (ret: isize)
    requires
        old(kernel).wf(),
        hart < CPU_NUM,
        old(kernel).current(hart as int).is_some(),
    ensures
        final(kernel).wf(),
        sys_init_user_trap_post(old(kernel), final(kernel), hart, ret),
{
    let task = kernel.processors[hart].current.unwrap();
    assert(old(kernel).live(task as int));
    let res = match kernel.pids.slot_mut(task) {
        Some(tcb) => tcb.inner.init_user_trap(),
        None => Err(-1),
    };
    proof {
        let old_k = *old(kernel);
        assert(kernel.same_shape(&old_k));
        kernel.lemma_same_shape(&old_k);
    }
    match res {
        Ok(addr) => addr,
        Err(errno) => errno,
    }
}

/// The effect of `sys_send_msg`, which returns `ret`, on the kernel.
pub open spec fn sys_send_msg_post(before: &Kernel, after: &Kernel, pid: usize, msg: usize, ret: isize) -> bool {
    &&& ret == (if push_result(before, pid).is_ok() {
        0isize
    } else {
        -1isize
    })
    &&& ret == 0 ==> {
        &&& same_but_inner(after, before, pid as int)
        &&& after.tcb(pid as int).inner == (TaskControlBlockInner {
            user_trap_info: after.tcb(pid as int).inner.user_trap_info,
            ..before.tcb(pid as int).inner
        })
        &&& after.tcb(pid as int).inner.user_trap_info.is_some()
        &&& after.tcb(pid as int).inner.user_trap_info.unwrap().devices == before.tcb(
            pid as int,
        ).inner.user_trap_info.unwrap().devices
        &&& after.tcb(pid as int).inner.user_trap_info.unwrap().records() == before.tcb(
            pid as int,
        ).inner.user_trap_info.unwrap().records().push(
            UserTrapRecord { cause: (pid * 16) as usize, message: msg },
        )
    }
    &&& ret != 0 ==> after.same_records(before)
    &&& after.plic == before.plic
}

/// Sends the message `msg` to the task `pid`: delivers it the trap record
/// with the cause `pid << 4` and the message. Returns 0, or -1 when the
/// record cannot be delivered; see `push_trap_record`.
pub fn sys_send_msg(kernel: &mut Kernel, pid: usize, msg: usize) -> (ret: isize)
    requires
        old(kernel).wf(),
    ensures
        final(kernel).wf(),
        sys_send_msg_post(old(kernel), final(kernel), pid, msg, ret),
{
    if pid > MAX_PID {
        proof {
            let old_k = *old(kernel);
            assert(kernel.same_records(&old_k));
        }
        return -1;
    }
    proof {
        lemma_pid_range();
    }
    if push_trap_record(kernel, pid, UserTrapRecord { cause: pid * 16, message: msg }).is_ok() {
        0
    } else {
        -1
    }
}

/// The effect of `sys_set_timer`, which returns `ret`, on the kernel.
pub open spec fn sys_set_timer_post(before: &Kernel, after: &Kernel, hart: usize, time_us: usize, now: usize, ret: isize) -> bool {
    &&& ret == 0
    &&& after.same_setup(before)
    &&& after.pids == before.pids
    &&& after.pool == before.pool
    &&& after.processors == before.processors
    &&& after.serials == before.serials
    &&& after.ext_int_map == before.ext_int_map
    &&& after.plic == before.plic
    &&& after.timers@.len() == before.timers@.len()
    &&& forall|h: int| 0 <= h < CPU_NUM && h != hart ==> after.timers@[h] == before.timers@[h]
    &&& ({
        let time = us_to_ticks(time_us, before.board);
        let pid = before.current(hart as int).unwrap();
        let timers = before.timers@[hart as int];
        let changed = after.timers@[hart as int];
        &&& time < now ==> changed.map@ == timers.map@ && changed.programmed == timers.programmed
        &&& time >= now ==> changed.map@ == timers.map@.insert(time, pid)
        &&& time >= now && is_min_key(changed.map@, time) ==> changed.programmed == Some(time)
        &&& time >= now && !is_min_key(changed.map@, time) ==> changed.programmed == timers.programmed
    })
}

/// Sets a virtual timer of the calling task at the time `time_us`, in
/// microseconds of the board's timer, when the timer reads `now`. Returns
/// 0. A time in the past sets no timer.
pub fn sys_set_timer(kernel: &mut Kernel, hart: usize, time_us: usize, now: usize) -> (ret: isize)
    requires
        old(kernel).wf(),
        hart < CPU_NUM,
        old(kernel).current(hart as int).is_some(),
    ensures
        final(kernel).wf(),
        sys_set_timer_post(old(kernel), final(kernel), hart, time_us, now, ret),
{
    let pid = kernel.processors[hart].current.unwrap();
    let time = ticks_of_us(time_us, kernel.board);
    kernel.timers[hart].set_virtual_timer(time, pid, now);
    proof {
        let old_k = *old(kernel);
        assert(kernel.same_shape(&old_k)) by {
            assert forall|h: int| 0 <= h < CPU_NUM implies (#[trigger] kernel.timers@[h]).wf() by {
                if h != hart {
                    assert(kernel.timers@[h] == old_k.timers@[h]);
                }
            }
        }
        kernel.lemma_same_shape(&old_k);
    }
    0
}

/// The effect of `sys_exec`, which returns `ret`, on the kernel.
pub open spec fn sys_exec_post(before: &Kernel, after: &Kernel, hart: usize, image: Option<LoadedImage>, ret: isize) -> bool {
    &&& image.is_none() ==> ret == -1 && *after == *before
    &&& image.is_some() ==> {
        let t = before.current(hart as int).unwrap() as int;
        let inner = after.tcb(t).inner;
        &&& ret == 0
        &&& after.same_setup(before)
        &&& after.same_tasks_but(before, t)
        &&& after.live(t)
        &&& after.tcb(t).pid == before.tcb(t).pid
        &&& after.tcb(t).kernel_stack == before.tcb(t).kernel_stack
        &&& inner == (TaskControlBlockInner {
            user_trap_info: None,
            memory_set: inner.memory_set,
            trap_cx: inner.trap_cx,
            ..before.tcb(t).inner
        })
        &&& inner.memory_set.areas@ == image.unwrap().memory_set.areas@
        &&& inner.trap_cx.x@ == Seq::new(32, |i: int| 0usize).update(2, image.unwrap().user_sp)
        &&& inner.trap_cx.sstatus == 0
        &&& inner.trap_cx.sepc == image.unwrap().entry_point
        &&& inner.trap_cx.kernel_satp == before.entry.kernel_satp
        &&& inner.trap_cx.kernel_sp == crate::task::pid::spec_stack_top(t as usize)
        &&& inner.trap_cx.trap_handler == before.entry.trap_handler
        &&& after.pool == before.pool
        &&& after.processors == before.processors
        &&& after.timers == before.timers
        &&& after.serials == before.serials
        &&& after.plic@ == release_devices(before.plic@, before.devices(t), CPU_NUM as nat)
        &&& after.ext_int_map@ == unregister_devices(
            before.ext_int_map@,
            before.devices(t),
            before.devices(t).len(),
        )
    }
}

/// Replaces the program of the calling task by `image` and returns 0. The
/// task gives its devices back to the kernel and is no longer opted in to
/// user-mode traps; see `TaskControlBlock::exec`. Without a program the
/// call returns -1 and changes nothing.
pub fn sys_exec(kernel: &mut Kernel, hart: usize, image: Option<LoadedImage>) -> (ret: isize)
    requires
        old(kernel).wf(),
        hart < CPU_NUM,
        old(kernel).current(hart as int).is_some(),
    ensures
        final(kernel).wf(),
        sys_exec_post(old(kernel), final(kernel), hart, image, ret),
{
    let task = kernel.processors[hart].current.unwrap();
    assert(old(kernel).live(task as int));
    assert(old(kernel).task_wf(task as int));
    let image = match image {
        Some(image) => image,
        None => {
            return -1;
        },
    };
    let entry = kernel.entry;
    match kernel.pids.slot_mut(task) {
        Some(tcb) => {
            if let Some(trap_info) = &tcb.inner.user_trap_info {
                trap_info.remove_user_ext_int_map(&mut kernel.plic, &mut kernel.ext_int_map);
            }
            tcb.exec(image, entry);
        },
        None => {},
    }
    proof {
        let old_k = *old(kernel);
        let t = task as int;
        assert(release_devices(old_k.plic@, Seq::<(u16, bool)>::empty(), CPU_NUM as nat) == old_k.plic@) by {
            reveal_with_fuel(release_devices, 5);
        }
        assert(kernel.same_live(&old_k));
        crate::task::lemma_release_keeps_claims(old_k, *kernel, t);
        assert(kernel.same_task_wf(&old_k));
        kernel.lemma_frame_structure(&old_k);
        assert(kernel.same_status(&old_k));
        assert(kernel.same_currents(&old_k));
        kernel.lemma_frame_running(&old_k);
        kernel.lemma_frame_ready(&old_k);
        assert(kernel.same_family(&old_k));
        kernel.lemma_frame_family(&old_k);
    }
    0
}

/// Whether a call of `sys_waitpid` for `pid` is about the child `child`:
/// -1 stands for any child, any other number for the child with that
/// identifier.
pub open spec fn waitpid_matches(pid: isize, child: usize) -> bool {
    pid == -1 || pid == child
}

/// Whether the task `t` has a child that a call of `sys_waitpid` for `pid` is about.
pub open spec fn has_matching_child(kernel: &Kernel, t: int, pid: isize) -> bool {
    exists|i: int|
        0 <= i < kernel.tcb(t).inner.children@.len() && waitpid_matches(
            pid,
            #[trigger] kernel.tcb(t).inner.children@[i],
        )
}

/// Whether the child at the index `i` of the task `t` can be reaped by a
/// call of `sys_waitpid` for `pid`: the call is about it and it has ended.
pub open spec fn reapable(kernel: &Kernel, t: int, pid: isize, i: int) -> bool {
    waitpid_matches(pid, kernel.tcb(t).inner.children@[i]) && kernel.status(
        kernel.tcb(t).inner.children@[i] as int,
    ) == TaskStatus::Zombie
}

/// The index of the first child among the first `n` of the task `t` that
/// can be reaped, or `n` if there is none.
pub open spec fn first_reapable(kernel: &Kernel, t: int, pid: isize, n: int) -> int
    decreases n,
{
    if n <= 0 {
        0
    } else {
        let before = first_reapable(kernel, t, pid, n - 1);
        if before < n - 1 {
            before
        } else if reapable(kernel, t, pid, n - 1) {
            n - 1
        } else {
            n
        }
    }
}

/// Once a child that can be reaped has been met, looking further does not
/// change the child found.
pub proof fn lemma_first_reapable_stable(kernel: &Kernel, t: int, pid: isize, n: int, m: int)
    requires
        0 <= n <= m,
        first_reapable(kernel, t, pid, n) < n,
    ensures
        first_reapable(kernel, t, pid, m) == first_reapable(kernel, t, pid, n),
    decreases m - n,
{
    if n < m {
        lemma_first_reapable_stable(kernel, t, pid, n, m - 1);
    }
}

/// Whether `after` is `before` without the child at the index `idx` of the
/// task `p`: the child is gone from the table and from the children of
/// `p`, and everything else is as before.
pub open spec fn reaped(after: &Kernel, before: &Kernel, p: int, idx: int) -> bool {
    let c = before.tcb(p).inner.children@[idx] as int;
    &&& after.pids.current == before.pids.current
    &&& after.pids.recycled@ == before.pids.recycled@
    &&& before.pids.bounded() ==> after.pids.bounded()
    &&& after.pids.slots()[c].is_none()
    &&& forall|x: int|
        0 <= x < before.pids.slots().len() && x != c && x != p ==> #[trigger] after.pids.slots()[x]
            == before.pids.slots()[x]
    &&& after.live(p)
    &&& after.tcb(p).pid == before.tcb(p).pid
    &&& after.tcb(p).kernel_stack == before.tcb(p).kernel_stack
    &&& after.tcb(p).inner == (TaskControlBlockInner {
        children: after.tcb(p).inner.children,
        ..before.tcb(p).inner
    })
    &&& after.tcb(p).inner.children@ == before.tcb(p).inner.children@.remove(idx)
    &&& after.same_setup(before)
    &&& after.pool == before.pool
    &&& after.processors == before.processors
    &&& after.timers == before.timers
    &&& after.serials == before.serials
    &&& after.ext_int_map == before.ext_int_map
    &&& after.plic == before.plic
}

/// The effect of `sys_waitpid`, which returns `ret`, on the kernel and on the place for the exit code.
pub open spec fn sys_waitpid_post(before: &Kernel, after: &Kernel, hart: usize, pid: isize, exit_code_before: i32, exit_code_after: i32, ret: isize) -> bool {
    &&& ({
        let t = before.current(hart as int).unwrap() as int;
        let kids = before.tcb(t).inner.children@;
        let idx = first_reapable(before, t, pid, kids.len() as int);
        &&& !has_matching_child(before, t, pid) ==> ret == -1 && *after == *before
            && exit_code_after == exit_code_before
        &&& has_matching_child(before, t, pid) && idx >= kids.len() ==> ret == -2 && *after
            == *before && exit_code_after == exit_code_before
        &&& has_matching_child(before, t, pid) && idx < kids.len() ==> {
            &&& ret == kids[idx]
            &&& exit_code_after == before.tcb(kids[idx] as int).inner.exit_code
            &&& reaped(after, before, t, idx)
        }
    })
}

/// Waits for a child of the calling task: for any child if `pid` is -1,
/// otherwise for the child with the identifier `pid`. If the task has no
/// such child the call returns -1. If it has one but none of them has
/// ended, the call returns -2. Otherwise the first of them that has ended
/// is reaped: it leaves the table of tasks and the children of the caller,
/// its exit code is stored into `exit_code`, and its identifier is
/// returned.
pub fn sys_waitpid(kernel: &mut Kernel, hart: usize, pid: isize, exit_code: &mut i32) -> (ret: isize)
    requires
        old(kernel).wf(),
        hart < CPU_NUM,
        old(kernel).current(hart as int).is_some(),
    ensures
        final(kernel).wf(),
        sys_waitpid_post(old(kernel), final(kernel), hart, pid, *old(exit_code), *final(exit_code), ret),
{
    let task = kernel.processors[hart].current.unwrap();
    let ghost t = task as int;
    assert(old(kernel).live(t));
    let mut found_any = false;
    let mut found: Option<usize> = None;
    match kernel.pids.slot(task) {
        Some(tcb) => {
            let mut i: usize = 0;
            while i < tcb.inner.children.len() && found.is_none()
                invariant
                    i <= tcb.inner.children@.len(),
                    kernel.wf(),
                    kernel.live(t),
                    *tcb == kernel.tcb(t),
                    found.is_none() ==> found_any == (exists|j: int|
                        0 <= j < i && waitpid_matches(pid, #[trigger] tcb.inner.children@[j])),
                    found.is_none() ==> first_reapable(kernel, t, pid, i as int) == i,
                    found.is_some() ==> found.unwrap() < tcb.inner.children@.len() && first_reapable(
                        kernel,
                        t,
                        pid,
                        tcb.inner.children@.len() as int,
                    ) == found.unwrap() && reapable(kernel, t, pid, found.unwrap() as int),
                decreases tcb.inner.children@.len() - i + (if found.is_none() {
                    1int
                } else {
                    0int
                }),
            {
                let child = tcb.inner.children[i];
                assert(kernel.live(child as int));
                let mut zombie = false;
                if pid == -1 || (pid >= 0 && pid as usize == child) {
                    found_any = true;
                    zombie = match kernel.pids.slot(child) {
                        Some(c) => c.inner.is_zombie(),
                        None => false,
                    };
                }
                if zombie {
                    found = Some(i);
                    proof {
                        lemma_first_reapable_stable(kernel, t, pid, i as int + 1, tcb.inner.children@.len() as int);
                    }
                } else {
                    i += 1;
                }
            }
        },
        None => {},
    }
    proof {
        if found.is_some() {
            let k = found.unwrap() as int;
            assert(waitpid_matches(pid, old(kernel).tcb(t).inner.children@[k]));
        }
    }
    match found {
        Some(idx) => {
            let child = match kernel.pids.slot_mut(task) {
                Some(tcb) => tcb.inner.children.remove(idx),
                None => 0,
            };
            assert(child == old(kernel).tcb(t).inner.children@[idx as int]);
            assert(old(kernel).live(child as int));
            assert(child > task);
            assert(kernel.pids.slots()[child as int] == old(kernel).pids.slots()[child as int]);
            let ghost mid = *kernel;
            let reaped_task = kernel.pids.dealloc(child);
            *exit_code = reaped_task.inner.exit_code;
            proof {
                assert(kernel.pids.slots()[t] == mid.pids.slots()[t]);
                assert(kernel.live(t));
                assert(reaped(kernel, old(kernel), t, idx as int));
                lemma_wf_after_reap(*old(kernel), *kernel, t, idx as int);
                lemma_pid_range();
            }
            child as isize
        },
        None => {
            if found_any {
                -2
            } else {
                -1
            }
        },
    }
}

/// A well-formed kernel stays well formed when a task reaps a child that
/// has ended.
pub proof fn lemma_wf_after_reap(old_k: Kernel, new_k: Kernel, p: int, idx: int)
    requires
        old_k.wf(),
        old_k.live(p),
        0 <= idx < old_k.tcb(p).inner.children@.len(),
        old_k.status(old_k.tcb(p).inner.children@[idx] as int) == TaskStatus::Zombie,
        reaped(&new_k, &old_k, p, idx),
    ensures
        new_k.wf(),
{
    let kids = old_k.tcb(p).inner.children@;
    let c = kids[idx] as int;
    let init = old_k.initproc.unwrap() as int;
    assert(old_k.live(c));
    assert(old_k.tcb(c).inner.parent == Some(p as usize));
    assert(c > p);
    assert(old_k.live(init));
    assert(c != init);
    assert(old_k.tcb(c).inner.children@.len() == 0);
    assert(old_k.devices(c).len() == 0);
    assert forall|x: int| #[trigger] new_k.live(x) == (old_k.live(x) && x != c) by {
        if 0 <= x < old_k.pids.slots().len() && x != c && x != p {
            assert(new_k.pids.slots()[x] == old_k.pids.slots()[x]);
        }
    }
    assert forall|x: int| #[trigger] new_k.live(x) implies {
        &&& new_k.tcb(x).pid == old_k.tcb(x).pid
        &&& new_k.tcb(x).kernel_stack == old_k.tcb(x).kernel_stack
        &&& new_k.tcb(x).inner.mail_box == old_k.tcb(x).inner.mail_box
        &&& new_k.tcb(x).inner.parent == old_k.tcb(x).inner.parent
        &&& new_k.status(x) == old_k.status(x)
        &&& new_k.devices(x) == old_k.devices(x)
        &&& x != p ==> new_k.tcb(x).inner.children == old_k.tcb(x).inner.children
    } by {
        if x != p {
            assert(new_k.pids.slots()[x] == old_k.pids.slots()[x]);
        }
    }
    assert(new_k.wf_structure()) by {
        assert forall|i: int|
            0 <= i < new_k.pids.slots().len() && (#[trigger] new_k.pids.slots()[i]).is_some() implies new_k.pids.slots()[i].unwrap().pid.0
            == i by {
            assert(new_k.live(i));
            assert(old_k.live(i));
            assert(old_k.pids.slots()[i].is_some());
        }
        assert(new_k.live(0) == (old_k.live(0) && 0 != c));
        assert forall|x: int| #[trigger] new_k.live(x) implies new_k.task_wf(x) by {
            assert(old_k.live(x));
            assert(old_k.task_wf(x));
        }
    }
    assert(new_k.wf_running()) by {
        assert forall|h: int| 0 <= h < CPU_NUM && (#[trigger] new_k.current(h)).is_some() implies new_k.live(
            new_k.current(h).unwrap() as int,
        ) && new_k.status(new_k.current(h).unwrap() as int) == TaskStatus::Running(h as usize) by {
            assert(old_k.current(h).is_some());
            let x = old_k.current(h).unwrap() as int;
            assert(old_k.live(x));
            assert(x != c);
        }
        assert forall|t2: int|
            new_k.live(t2) && crate::kernel::running_on(#[trigger] new_k.status(t2)).is_some() implies crate::kernel::running_on(
            new_k.status(t2),
        ).unwrap() < CPU_NUM && new_k.current(crate::kernel::running_on(new_k.status(t2)).unwrap() as int)
            == Some(t2 as usize) by {
            assert(old_k.live(t2));
            assert(crate::kernel::running_on(old_k.status(t2)).is_some());
        }
    }
    assert(new_k.wf_ready()) by {
        let q = old_k.queue();
        assert forall|j: int| 0 <= j < q.len() implies new_k.live(#[trigger] q[j] as int) && new_k.status(
            q[j] as int,
        ) == TaskStatus::Ready by {
            assert(old_k.live(q[j] as int));
            assert(old_k.status(q[j] as int) == TaskStatus::Ready);
        }
        assert forall|t2: int|
            new_k.live(t2) && #[trigger] new_k.status(t2) == TaskStatus::Ready implies q.contains(
            t2 as usize,
        ) by {
            assert(old_k.live(t2));
            assert(old_k.status(t2) == TaskStatus::Ready);
        }
    }
    assert(new_k.wf_family()) by {
        assert forall|x: int, i: int|
            new_k.live(x) && 0 <= i < new_k.tcb(x).inner.children@.len() implies new_k.live(
            #[trigger] new_k.tcb(x).inner.children@[i] as int,
        ) && new_k.tcb(new_k.tcb(x).inner.children@[i] as int).inner.parent == Some(x as usize) && new_k.tcb(
            x,
        ).inner.children@[i] > x by {
            assert(old_k.live(x));
            let kid = new_k.tcb(x).inner.children@[i] as int;
            if x == p {
                let j = if i < idx {
                    i
                } else {
                    i + 1
                };
                assert(kid == kids[j]);
                assert(crate::kernel::distinct(kids));
                assert(old_k.live(kid));
                assert(kid != c);
            } else {
                assert(kid == old_k.tcb(x).inner.children@[i]);
                assert(old_k.live(kid));
                assert(old_k.tcb(kid).inner.parent == Some(x as usize));
                assert(kid != c);
            }
        }
        assert forall|x: int| #[trigger] new_k.live(x) implies crate::kernel::distinct(
            new_k.tcb(x).inner.children@,
        ) by {
            assert(old_k.live(x));
            if x == p {
                let all = new_k.tcb(x).inner.children@;
                assert(crate::kernel::distinct(kids));
                assert forall|i: int, j: int| 0 <= i < all.len() && 0 <= j < all.len() && i != j implies all[i]
                    != all[j] by {
                    let i2 = if i < idx {
                        i
                    } else {
                        i + 1
                    };
                    let j2 = if j < idx {
                        j
                    } else {
                        j + 1
                    };
                    assert(all[i] == kids[i2]);
                    assert(all[j] == kids[j2]);
                }
            }
        }
        assert forall|x: int| #[trigger] new_k.live(x) implies new_k.initproc.is_some() by {
            assert(old_k.live(x));
        }
        assert(new_k.live(init));
        assert forall|x: int|
            new_k.live(x) && #[trigger] new_k.status(x) == TaskStatus::Zombie && Some(x as usize)
                != new_k.initproc implies new_k.tcb(x).inner.children@.len() == 0 by {
            assert(old_k.live(x));
            assert(old_k.status(x) == TaskStatus::Zombie);
            if x == p {
                assert(old_k.tcb(x).inner.children@.len() == 0);
            }
        }
    }
    assert(new_k.wf_claims()) by {
        assert forall|irq: u16| #[trigger] new_k.ext_int_map@.contains_key(irq) implies new_k.live(
            new_k.ext_int_map@[irq] as int,
        ) && lists_device(new_k.devices(new_k.ext_int_map@[irq] as int), irq as int) by {
            assert(old_k.ext_int_map@.contains_key(irq));
            let o = old_k.ext_int_map@[irq] as int;
            assert(old_k.live(o));
            assert(lists_device(old_k.devices(o), irq as int));
            assert(o != c);
        }
        assert forall|x: int, i: int|
            new_k.live(x) && 0 <= i < new_k.devices(x).len() implies new_k.ext_int_map@.contains_key(
            (#[trigger] new_k.devices(x)[i]).0,
        ) && new_k.ext_int_map@[new_k.devices(x)[i].0] == x by {
            assert(old_k.live(x));
            assert(new_k.devices(x)[i] == old_k.devices(x)[i]);
        }
        assert forall|x: int| #[trigger] new_k.live(x) implies crate::kernel::distinct_devices(
            new_k.devices(x),
        ) by {
            assert(old_k.live(x));
        }
        assert forall|x: int|
            new_k.live(x) && #[trigger] new_k.status(x) == TaskStatus::Zombie implies new_k.devices(x).len()
            == 0 by {
            assert(old_k.live(x));
            assert(old_k.status(x) == TaskStatus::Zombie);
        }
    }
    assert(new_k.wf_routing()) by {
        assert forall|h: int, irq: int|
            0 <= h < CPU_NUM && 0 <= irq < IRQ_NUM && #[trigger] new_k.plic@.is_enabled(
                u_context(h),
                irq,
            ) implies {
            &&& new_k.ext_int_map@.contains_key(irq as u16)
            &&& new_k.live(new_k.ext_int_map@[irq as u16] as int)
            &&& new_k.status(new_k.ext_int_map@[irq as u16] as int) == TaskStatus::Running(h as usize)
            &&& new_k.plic@.no_supervisor_enable(irq)
        } by {
            assert(old_k.plic@.is_enabled(u_context(h), irq));
            let o = old_k.ext_int_map@[irq as u16] as int;
            assert(old_k.live(o));
            assert(old_k.status(o) == TaskStatus::Running(h as usize));
            assert(o != c);
        }
    }
}

} // verus!
