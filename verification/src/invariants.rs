use vstd::prelude::*;
use crate::config::CPU_NUM;
use crate::kernel::{distinct_devices, Kernel};
use crate::plic::{s_context, u_context, PlicState, IRQ_NUM};
use crate::syscall::{syscall_post, UserArea, SYSCALL_FORK};
use crate::task::pid::MAX_PID;
use crate::task::task::TaskStatus;
use crate::timer::{is_min_key, TimerMap};
use crate::trap::handoff::{lemma_device_flag, lists_device, steered_to_supervisor, steered_to_user};
use crate::trap::usertrap::UserTrapRecord;
use crate::trap::{handle_syscall_post, trap_return_post, TrapOutcome};
use crate::user::trap::{events_of, taken};

verus! {

/// Every identifier that has been given out either names a task whose
/// status agrees with the ready queue, or names no task any more: a task
/// in the table is in the ready queue if and only if it is ready, and
/// never twice.
pub proof fn lemma_table_agrees_with_queue(kernel: &Kernel, tid: int)
    requires
        kernel.wf(),
        0 <= tid < kernel.pids.current,
    ensures
        !kernel.live(tid) || ((kernel.status(tid) == TaskStatus::Ready) <==> kernel.queue().contains(
            tid as usize,
        )),
        forall|i: int, j: int|
            0 <= i < kernel.queue().len() && 0 <= j < kernel.queue().len() && kernel.queue()[i] == tid
                && kernel.queue()[j] == tid ==> i == j,
{
    if kernel.live(tid) && kernel.queue().contains(tid as usize) {
        let j = choose|j: int| 0 <= j < kernel.queue().len() && kernel.queue()[j] == tid as usize;
        assert(kernel.status(kernel.queue()[j] as int) == TaskStatus::Ready);
    }
}

/// No task runs on two harts, and a hart sees a task as running only on
/// itself: if two harts run the same task they are one hart, the task that
/// a hart runs has the status of running on that hart, and a task with the
/// status of running on a hart is the one that this hart runs.
pub proof fn lemma_runs_on_one_hart(kernel: &Kernel, tid: usize, h1: int, h2: int)
    requires
        kernel.wf(),
        0 <= h1 < CPU_NUM,
        0 <= h2 < CPU_NUM,
    ensures
        kernel.current(h1) == Some(tid) && kernel.current(h2) == Some(tid) ==> h1 == h2,
        kernel.current(h1) == Some(tid) ==> kernel.live(tid as int) && kernel.status(tid as int)
            == TaskStatus::Running(h1 as usize),
        kernel.live(tid as int) && kernel.status(tid as int) == TaskStatus::Running(h1 as usize)
            ==> kernel.current(h1) == Some(tid),
{
    if kernel.current(h1) == Some(tid) {
        assert(kernel.current(h1).is_some());
    }
    if kernel.current(h2) == Some(tid) {
        assert(kernel.current(h2).is_some());
    }
    if kernel.live(tid as int) && kernel.status(tid as int) == TaskStatus::Running(h1 as usize) {
        assert(crate::kernel::running_on(kernel.status(tid as int)).is_some());
    }
}

/// The number that the return to user mode leaves in the scratch register
/// is the number of trap records that the task's handler takes at its
/// entry. Whenever records wait for a task that takes interrupts in user
/// mode, the return leaves the length of the task's queue in the scratch
/// register. Whatever other harts add to the queue before the handler
/// starts, the handler then takes that number of records, and they are
/// the records that waited at the return.
pub proof fn lemma_scratch_counts_records(
    before: &Kernel,
    after: &Kernel,
    hart: usize,
    arrived: Seq<UserTrapRecord>,
)
    requires
        before.wf(),
        hart < CPU_NUM,
        before.current(hart as int).is_some(),
        trap_return_post(before, after, hart),
        before.tcb(before.current(hart as int).unwrap() as int).inner.pending_user_traps() > 0,
    ensures
        ({
            let t = before.current(hart as int).unwrap() as int;
            let announced = after.processors@[hart as int].uscratch;
            &&& after.tcb(t).inner.user_trap_info.is_some()
            &&& announced == after.tcb(t).inner.user_trap_info.unwrap().records().len()
            &&& taken(announced, after.tcb(t).inner.user_trap_info.unwrap().records() + arrived) == announced
            &&& (after.tcb(t).inner.user_trap_info.unwrap().records() + arrived).take(announced as int)
                == after.tcb(t).inner.user_trap_info.unwrap().records()
            &&& (after.tcb(t).inner.user_trap_info.unwrap().records() + arrived).skip(announced as int)
                == arrived
        }),
{
    let t = before.current(hart as int).unwrap() as int;
    assert(before.live(t));
    assert(before.task_wf(t));
    let waiting = after.tcb(t).inner.user_trap_info.unwrap().records();
    assert((waiting + arrived).take(waiting.len() as int) =~= waiting);
    assert((waiting + arrived).skip(waiting.len() as int) =~= arrived);
}

/// A claimed interrupt has one owner and one route. Its owner is a task
/// that exists and lists the device exactly once. It never reaches a user
/// context and a supervisor context at the same time; and where it reaches
/// a user context, its owner runs on that hart.
pub proof fn lemma_claimed_interrupt(kernel: &Kernel, irq: u16, h1: int, h2: int)
    requires
        kernel.wf(),
        kernel.ext_int_map@.contains_key(irq),
        0 <= h1 < CPU_NUM,
        0 <= h2 < CPU_NUM,
    ensures
        kernel.live(kernel.ext_int_map@[irq] as int),
        lists_device(kernel.devices(kernel.ext_int_map@[irq] as int), irq as int),
        forall|i: int, j: int|
            0 <= i < kernel.devices(kernel.ext_int_map@[irq] as int).len() && 0 <= j < kernel.devices(
                kernel.ext_int_map@[irq] as int,
            ).len() && (#[trigger] kernel.devices(kernel.ext_int_map@[irq] as int)[i]).0 == irq && (
            #[trigger] kernel.devices(kernel.ext_int_map@[irq] as int)[j]).0 == irq ==> i == j,
        !(kernel.plic@.is_enabled(u_context(h1), irq as int) && kernel.plic@.is_enabled(
            s_context(h2),
            irq as int,
        )),
        kernel.plic@.is_enabled(u_context(h1), irq as int) ==> kernel.status(kernel.ext_int_map@[irq] as int)
            == TaskStatus::Running(h1 as usize),
{
    let owner = kernel.ext_int_map@[irq] as int;
    assert(kernel.live(owner));
    assert(distinct_devices(kernel.devices(owner)));
    if kernel.plic@.is_enabled(u_context(h1), irq as int) {
        assert(irq < IRQ_NUM) by {
            // only bits within the tables are set
        }
        assert(kernel.plic@.no_supervisor_enable(irq as int));
        assert(!kernel.plic@.is_enabled(s_context(h2), irq as int));
    }
}

/// When a task starts to run on a hart, none of the devices it has claimed
/// reaches a supervisor context, each reaches the user context of the hart
/// if and only if the task has enabled it, and the enable bits of every
/// interrupt that the task has not claimed stay as they are.
pub proof fn lemma_devices_reach_user(
    before: PlicState,
    after: PlicState,
    devices: Seq<(u16, bool)>,
    hart: usize,
    k: int,
    h: int,
    c: int,
    irq: int,
)
    requires
        steered_to_user(after, before, devices, hart),
        distinct_devices(devices),
        hart < CPU_NUM,
        0 <= k < devices.len(),
        0 <= h < CPU_NUM,
    ensures
        !after.is_enabled(s_context(h), devices[k].0 as int),
        after.is_enabled(u_context(hart as int), devices[k].0 as int) == devices[k].1,
        !lists_device(devices, irq) ==> after.is_enabled(c, irq) == before.is_enabled(c, irq),
{
    lemma_device_flag(devices, k);
    assert(lists_device(devices, devices[k].0 as int));
    assert(s_context(h) % 3 == 1 && s_context(h) / 3 == h);
    assert(u_context(hart as int) % 3 == 2);
}

/// When a task stops running on a hart, none of the devices it has claimed
/// reaches the user context of the hart, each reaches the supervisor
/// context of the hart if and only if the task has enabled it, so that none
/// reaches both, and the enable bits of every interrupt that the task has
/// not claimed stay as they are.
pub proof fn lemma_devices_reach_supervisor(
    before: PlicState,
    after: PlicState,
    devices: Seq<(u16, bool)>,
    hart: usize,
    k: int,
    c: int,
    irq: int,
)
    requires
        steered_to_supervisor(after, before, devices, hart),
        distinct_devices(devices),
        hart < CPU_NUM,
        0 <= k < devices.len(),
    ensures
        !after.is_enabled(u_context(hart as int), devices[k].0 as int),
        after.is_enabled(s_context(hart as int), devices[k].0 as int) == devices[k].1,
        !(after.is_enabled(u_context(hart as int), devices[k].0 as int) && after.is_enabled(
            s_context(hart as int),
            devices[k].0 as int,
        )),
        !lists_device(devices, irq) ==> after.is_enabled(c, irq) == before.is_enabled(c, irq),
{
    lemma_device_flag(devices, k);
    assert(lists_device(devices, devices[k].0 as int));
}

/// While any deadline waits, the hart's timer is set to the earliest.
pub proof fn lemma_timer_is_earliest(timers: &TimerMap, key: usize)
    requires
        timers.wf(),
        is_min_key(timers.map@, key),
    ensures
        timers.programmed == Some(key),
{
}

/// Setting a virtual timer keeps the hart's timer at the earliest deadline.
pub proof fn lemma_set_keeps_earliest(before: &TimerMap, after: &TimerMap, time: usize, pid: usize, now: usize)
    requires
        before.wf(),
        after.is_set(before, time, pid, now),
    ensures
        after.wf(),
{
    assert forall|key: usize| is_min_key(after.map@, key) implies after.programmed == Some(key) by {
        if time >= now {
            if key != time {
                assert(!is_min_key(after.map@, time)) by {
                    if is_min_key(after.map@, time) {
                        assert(after.map@.contains_key(key));
                        assert(after.map@.contains_key(time));
                    }
                }
                assert forall|other: usize| before.map@.contains_key(other) implies key <= other by {
                    assert(after.map@.contains_key(other));
                }
                assert(is_min_key(before.map@, key));
            }
        }
    }
}

/// Taking the earliest deadline out keeps the hart's timer at the earliest
/// deadline that remains.
pub proof fn lemma_pop_keeps_earliest(before: &TimerMap, after: &TimerMap, first: Option<(usize, usize)>)
    requires
        before.wf(),
        after.is_popped(before, first),
    ensures
        after.wf(),
{
    if first.is_none() {
        assert forall|key: usize| is_min_key(after.map@, key) implies after.programmed == Some(key) by {
            assert(before.map@.contains_key(key));
        }
    }
}

/// Virtual timers fire by ascending deadline: of two deadlines taken out
/// of the timers of a hart one after the other, the first is the earlier.
pub proof fn lemma_timers_fire_in_order(
    before: &TimerMap,
    between: &TimerMap,
    after: &TimerMap,
    first: (usize, usize),
    second: (usize, usize),
)
    requires
        between.is_popped(before, Some(first)),
        after.is_popped(between, Some(second)),
    ensures
        first.0 < second.0,
{
    assert(between.map@.contains_key(second.0));
    assert(before.map@.contains_key(second.0));
}

/// A task's handler meets its trap records in the order in which they
/// were delivered: the events of records delivered one after the other
/// are the events of the earlier ones followed by those of the later ones.
pub proof fn lemma_events_in_order(earlier: Seq<UserTrapRecord>, later: Seq<UserTrapRecord>)
    ensures
        events_of(earlier + later) == events_of(earlier) + events_of(later),
    decreases later.len(),
{
    if later.len() == 0 {
        assert(earlier + later == earlier);
        assert(events_of(earlier) + events_of(later) == events_of(earlier));
    } else {
        lemma_events_in_order(earlier, later.drop_last());
        assert((earlier + later).drop_last() == earlier + later.drop_last());
        assert((earlier + later).last() == later.last());
        match crate::user::trap::spec_event_of(later.last()) {
            Some(event) => {
                assert(events_of(earlier + later) == events_of(earlier + later.drop_last()).push(event));
                assert(events_of(later) == events_of(later.drop_last()).push(event));
                assert((events_of(earlier) + events_of(later.drop_last())).push(event) == events_of(earlier)
                    + events_of(later.drop_last()).push(event));
            },
            None => {},
        }
    }
}

/// A fork returns the child's identifier to the parent and 0 to the child:
/// after the kernel has handled the `fork` call of a task, while an
/// identifier is left, the register `a0` of the task holds the identifier
/// of its new child and the register `a0` of the child holds 0.
pub proof fn lemma_fork_returns(
    before: &Kernel,
    after: &Kernel,
    hart: usize,
    user: UserArea,
    user_after: UserArea,
    now: usize,
    outcome: TrapOutcome,
)
    requires
        before.wf(),
        hart < CPU_NUM,
        before.current(hart as int).is_some(),
        before.tcb(before.current(hart as int).unwrap() as int).inner.trap_cx.x@[17] == SYSCALL_FORK,
        before.pids.current <= MAX_PID,
        handle_syscall_post(before, after, hart, user, user_after, now, outcome),
    ensures
        ({
            let parent = before.current(hart as int).unwrap() as int;
            let child = before.pids.current as int;
            &&& after.live(child)
            &&& after.tcb(child).inner.trap_cx.x@[10] == 0
            &&& after.live(parent)
            &&& after.tcb(parent).inner.trap_cx.x@[10] == child
            &&& after.tcb(child).inner.parent == Some(parent as usize)
        }),
{
    let t = before.current(hart as int).unwrap() as int;
    let c = before.pids.current as int;
    let cx = before.tcb(t).inner.trap_cx;
    assert(before.live(t));
    assert(before.status(t) == TaskStatus::Running(hart));
    assert(!crate::syscall::syscall_blocks(before, t, SYSCALL_FORK, crate::trap::syscall_args(cx), user));
    let (advanced, done, ret) = choose|advanced: Kernel, done: Kernel, ret: isize|
        {
            &&& crate::trap::with_trap_cx(
                &advanced,
                before,
                t,
                crate::trap::context::TrapContext { sepc: cx.sepc.wrapping_add(4), ..cx },
            )
            &&& #[trigger] syscall_post(
                &advanced,
                &done,
                hart,
                SYSCALL_FORK,
                crate::trap::syscall_args(cx),
                user,
                user_after,
                now,
                ret,
            )
            &&& crate::trap::result_stored(after, &done, t, SYSCALL_FORK, ret)
        };
    assert(advanced.pids.current == before.pids.current);
    assert(advanced.current(hart as int) == before.current(hart as int));
    assert(crate::syscall::process::sys_fork_post(&advanced, &done, hart, ret));
    assert(done.live(c));
    assert(t < c);
    assert(done.pids.slots()[t] == done.pids.slots()[t]);
    assert(done.live(t));
    assert(done.status(t) == TaskStatus::Running(hart)) by {
        assert(done.tcb(t).inner.task_status == advanced.tcb(t).inner.task_status);
    }
    assert(after.pids.slots()[c] == done.pids.slots()[c]);
}

} // verus!
