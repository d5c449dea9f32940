use vstd::prelude::*;
use crate::config::CPU_NUM;
use crate::kernel::Kernel;
use crate::plic::{s_context, u_context, IRQ_NUM};
use crate::task::processor::switched_out;
use crate::trap::handoff::{
    lemma_disable_handoff, lemma_release_devices, lemma_unregister_devices, lists_device, lists_device_upto,
};
use crate::task::birth::{enroll, born, lemma_wf_after_birth, newborn};
use crate::task::pid::{lemma_pid_range, MAX_PID};
use crate::trap::usertrap::{disable_handoff, release_devices, unregister_devices};

pub mod birth;
pub mod context;
pub mod manager;
pub mod pid;
pub mod pool;
pub mod processor;
pub mod task;

pub use context::TaskContext;
pub use manager::TaskManager;
pub use pid::{find_task, kernel_stack_position, pid_alloc, KernelStack, PidAllocator, PidHandle};
pub use pool::{add_task, fetch_task, prioritize_task, TaskPool};
pub use processor::{
    current_task, current_tasks, current_trap_cx, mmap, munmap, run_tasks, schedule, set_current_priority,
    take_current_task, Processor,
};
pub use task::{KernelEntry, LoadedImage, TaskControlBlock, TaskControlBlockInner, TaskStatus};

verus! {

/// The task `tid` of `kernel` as it is after it has been suspended on a
/// hart whose registers held `registers`: ready, with these registers as
/// its saved context, and with one more suspension counted.
pub open spec fn suspended_task(kernel: &Kernel, tid: int, registers: TaskContext) -> TaskControlBlock {
    TaskControlBlock {
        inner: TaskControlBlockInner {
            task_status: TaskStatus::Ready,
            task_cx: registers,
            time_intr_count: kernel.tcb(tid).inner.time_intr_count.wrapping_add(1),
            ..kernel.tcb(tid).inner
        },
        ..kernel.tcb(tid)
    }
}

/// The effect of `suspend_current_and_run_next` on the kernel.
pub open spec fn suspend_current_and_run_next_post(before: &Kernel, after: &Kernel, hart: usize) -> bool {
    &&& ({
        let t = before.current(hart as int).unwrap();
        &&& after.queue() == before.queue().push(t)
        &&& after.same_setup(before)
        &&& after.same_tasks_but(before, t as int)
        &&& after.live(t as int)
        &&& after.tcb(t as int) == suspended_task(
            before,
            t as int,
            before.processors@[hart as int].registers,
        )
        &&& after.same_harts_but(before, hart as int)
        &&& after.processors@[hart as int] == switched_out(before.processors@[hart as int])
        &&& after.plic@ == disable_handoff(before.plic@, before.devices(t as int), hart)
        &&& after.timers@ == before.timers@
        &&& after.serials@ == before.serials@
        &&& after.ext_int_map@ == before.ext_int_map@
    })
}

/// Suspends the task that runs on `hart` and returns the hart to its idle
/// loop. The task's registers are saved, the task is ready again and
/// rejoins the ready queue at its tail, and the interrupts of its devices
/// are steered back to the kernel. The hart then runs nothing, and the
/// next round of its scheduling loop picks the task to run.
pub fn suspend_current_and_run_next(kernel: &mut Kernel, hart: usize)
    requires
        old(kernel).wf(),
        hart < CPU_NUM,
        old(kernel).current(hart as int).is_some(),
    ensures
        final(kernel).wf(),
        suspend_current_and_run_next_post(old(kernel), final(kernel), hart),
{
    let task = kernel.processors[hart].current.unwrap();
    assert(old(kernel).live(task as int));
    assert(old(kernel).task_wf(task as int));
    match kernel.pids.slot_mut(task) {
        Some(tcb) => {
            tcb.inner.time_intr_count = tcb.inner.time_intr_count.wrapping_add(1);
            // the switch to the idle loop
            let p = &mut kernel.processors[hart];
            crate::task::processor::schedule(p, &mut tcb.inner.task_cx);
            // the idle loop takes the task off the hart
            p.current = None;
            tcb.inner.task_status = TaskStatus::Ready;
            if let Some(trap_info) = &tcb.inner.user_trap_info {
                trap_info.disable_user_ext_int(&mut kernel.plic, hart);
            }
        },
        None => {},
    }
    kernel.pool.add(task);
    proof {
        let old_k = *old(kernel);
        let t = task as int;
        lemma_disable_handoff(old_k.plic@, old_k.devices(t), hart);
        assert(kernel.same_live(&old_k));
        assert(kernel.same_task_wf(&old_k));
        kernel.lemma_frame_structure(&old_k);
        assert(kernel.same_family(&old_k));
        kernel.lemma_frame_family(&old_k);
        assert(kernel.same_claims(&old_k));
        kernel.lemma_frame_claims(&old_k);
        assert(kernel.wf_running()) by {
            assert forall|h: int| 0 <= h < CPU_NUM && (#[trigger] kernel.current(h)).is_some() implies kernel.live(
                kernel.current(h).unwrap() as int,
            ) && kernel.status(kernel.current(h).unwrap() as int) == TaskStatus::Running(h as usize) by {
                assert(h != hart);
                assert(kernel.processors@[h] == old_k.processors@[h]);
                assert(old_k.current(h).is_some());
                let t2 = old_k.current(h).unwrap() as int;
                assert(old_k.live(t2));
                assert(t2 != t);
            }
            assert forall|t2: int|
                kernel.live(t2) && crate::kernel::running_on(#[trigger] kernel.status(t2)).is_some() implies crate::kernel::running_on(
                kernel.status(t2),
            ).unwrap() < CPU_NUM && kernel.current(
                crate::kernel::running_on(kernel.status(t2)).unwrap() as int,
            ) == Some(t2 as usize) by {
                assert(t2 != t);
                assert(old_k.live(t2));
                assert(kernel.status(t2) == old_k.status(t2));
                let h2 = crate::kernel::running_on(old_k.status(t2)).unwrap();
                assert(old_k.current(h2 as int) == Some(t2 as usize));
                assert(h2 != hart);
                assert(kernel.processors@[h2 as int] == old_k.processors@[h2 as int]);
            }
        }
        assert(kernel.wf_ready()) by {
            let q = old_k.queue();
            let nq = kernel.queue();
            assert(!q.contains(task)) by {
                if q.contains(task) {
                    let j = choose|j: int| 0 <= j < q.len() && q[j] == task;
                    assert(old_k.status(q[j] as int) == TaskStatus::Ready);
                }
            }
            assert forall|j: int| 0 <= j < nq.len() implies kernel.live(#[trigger] nq[j] as int)
                && kernel.status(nq[j] as int) == TaskStatus::Ready by {
                if j < q.len() {
                    assert(nq[j] == q[j]);
                    assert(old_k.live(q[j] as int));
                    assert(q.contains(q[j]));
                }
            }
            assert(crate::kernel::distinct(nq)) by {
                assert forall|i: int, j: int| 0 <= i < nq.len() && 0 <= j < nq.len() && i != j implies nq[i]
                    != nq[j] by {
                    if i < q.len() {
                        assert(q.contains(q[i]));
                    }
                    if j < q.len() {
                        assert(q.contains(q[j]));
                    }
                }
            }
            assert forall|t2: int|
                kernel.live(t2) && #[trigger] kernel.status(t2) == TaskStatus::Ready implies nq.contains(
                t2 as usize,
            ) by {
                if t2 == t {
                    assert(nq[q.len() as int] == task);
                } else {
                    assert(old_k.live(t2));
                    assert(old_k.status(t2) == TaskStatus::Ready);
                    assert(q.contains(t2 as usize));
                    let j = choose|j: int| 0 <= j < q.len() && q[j] == t2 as usize;
                    assert(nq[j] == t2 as usize);
                }
            }
        }
        assert(kernel.wf_routing()) by {
            assert forall|h: int, irq: int|
                0 <= h < CPU_NUM && 0 <= irq < IRQ_NUM && #[trigger] kernel.plic@.is_enabled(
                    u_context(h),
                    irq,
                ) implies {
                &&& kernel.ext_int_map@.contains_key(irq as u16)
                &&& kernel.live(kernel.ext_int_map@[irq as u16] as int)
                &&& kernel.status(kernel.ext_int_map@[irq as u16] as int) == TaskStatus::Running(h as usize)
                &&& kernel.plic@.no_supervisor_enable(irq)
            } by {
                lemma_routing_after_suspend(old_k, *kernel, hart, t, h, irq);
            }
        }
    }
}

/// The interrupt routing still holds after a task has been switched out.
proof fn lemma_routing_after_suspend(old_k: Kernel, new_k: Kernel, hart: usize, t: int, h: int, irq: int)
    requires
        old_k.wf(),
        hart < CPU_NUM,
        old_k.live(t),
        old_k.status(t) == TaskStatus::Running(hart),
        new_k.plic@ == disable_handoff(old_k.plic@, old_k.devices(t), hart),
        new_k.ext_int_map@ == old_k.ext_int_map@,
        new_k.same_tasks_but(&old_k, t),
        0 <= h < CPU_NUM,
        0 <= irq < IRQ_NUM,
        new_k.plic@.is_enabled(u_context(h), irq),
    ensures
        new_k.ext_int_map@.contains_key(irq as u16),
        new_k.live(new_k.ext_int_map@[irq as u16] as int),
        new_k.status(new_k.ext_int_map@[irq as u16] as int) == TaskStatus::Running(h as usize),
        new_k.plic@.no_supervisor_enable(irq),
{
    let devices = old_k.devices(t);
    lemma_disable_handoff(old_k.plic@, devices, hart);
    let p = old_k.plic@;
    let r = new_k.plic@;
    if lists_device(devices, irq) {
        let k = choose|k: int| 0 <= k < devices.len() && (#[trigger] devices[k]).0 == irq;
        assert(old_k.ext_int_map@.contains_key(devices[k].0) && old_k.ext_int_map@[devices[k].0] == t);
        assert(irq as u16 == devices[k].0);
        assert(h != hart);
        assert(r.is_enabled(u_context(h), irq) == p.is_enabled(u_context(h), irq));
        assert(p.is_enabled(u_context(h), irq));
        assert(old_k.status(t) == TaskStatus::Running(h as usize));
    } else {
        assert(r.is_enabled(u_context(h), irq) == p.is_enabled(u_context(h), irq));
        assert(p.is_enabled(u_context(h), irq));
        let owner = old_k.ext_int_map@[irq as u16] as int;
        assert(old_k.ext_int_map@.contains_key(irq as u16));
        assert(lists_device(old_k.devices(owner), irq as u16 as int));
        assert(owner != t);
        assert(new_k.pids.slots()[owner] == old_k.pids.slots()[owner]);
        assert(p.no_supervisor_enable(irq));
        assert forall|h2: int| 0 <= h2 < CPU_NUM implies !#[trigger] r.is_enabled(s_context(h2), irq) by {
            assert(r.is_enabled(s_context(h2), irq) == p.is_enabled(s_context(h2), irq));
        }
    }
}

/// The inner state of the task `tid` of `kernel` as it is after the task
/// has ended with `exit_code`, but for its children and its address space:
/// the task is a zombie, keeps the exit code, is no longer opted in to
/// user-mode traps, and has its user-mode interrupts off.
pub open spec fn ended_inner(kernel: &Kernel, tid: int, exit_code: i32, after: TaskControlBlockInner) -> TaskControlBlockInner {
    TaskControlBlockInner {
        task_status: TaskStatus::Zombie,
        exit_code,
        user_trap_info: None,
        task_cx: TaskContext { uie: 0, uip: 0, ..kernel.tcb(tid).inner.task_cx },
        children: after.children,
        memory_set: after.memory_set,
        ..kernel.tcb(tid).inner
    }
}

/// Whether `child` is a child of the task `tid` of `kernel`.
pub open spec fn is_child(kernel: &Kernel, tid: int, child: int) -> bool {
    kernel.tcb(tid).inner.children@.contains(child as usize)
}

/// The task `tid` of `kernel` with `parent` as its parent.
pub open spec fn adopted(kernel: &Kernel, tid: int, parent: usize) -> TaskControlBlock {
    TaskControlBlock {
        inner: TaskControlBlockInner { parent: Some(parent), ..kernel.tcb(tid).inner },
        ..kernel.tcb(tid)
    }
}

/// Whether the tasks of `after` are those of `before` after the task `t`
/// has ended with `exit_code`. The task itself is a zombie with the exit
/// code, without address space, devices or user-mode interrupts. Unless it
/// is the first task, it has no children any more: the first task has them
/// behind its own, and they have the first task as parent. Every other
/// task is as before.
pub open spec fn tasks_after_exit(after: &Kernel, before: &Kernel, t: int, exit_code: i32) -> bool {
    let init = before.initproc.unwrap() as int;
    &&& after.pids.current == before.pids.current
    &&& after.pids.recycled@ == before.pids.recycled@
    &&& before.pids.bounded() ==> after.pids.bounded()
    &&& after.same_live(before)
    &&& after.tcb(t).pid == before.tcb(t).pid
    &&& after.tcb(t).kernel_stack == before.tcb(t).kernel_stack
    &&& after.tcb(t).inner == ended_inner(before, t, exit_code, after.tcb(t).inner)
    &&& after.tcb(t).inner.memory_set.areas@ == Seq::<crate::mm::MapArea>::empty()
    &&& after.tcb(t).inner.children@ == (if t == init {
        before.tcb(t).inner.children@
    } else {
        Seq::<usize>::empty()
    })
    &&& t != init ==> {
        &&& after.tcb(init).pid == before.tcb(init).pid
        &&& after.tcb(init).kernel_stack == before.tcb(init).kernel_stack
        &&& after.tcb(init).inner == (TaskControlBlockInner {
            children: after.tcb(init).inner.children,
            ..before.tcb(init).inner
        })
        &&& after.tcb(init).inner.children@ == before.tcb(init).inner.children@ + before.tcb(t).inner.children@
    }
    &&& forall|x: int|
        before.live(x) && x != t && x != init ==> #[trigger] after.tcb(x) == (if t != init && is_child(
            before,
            t,
            x,
        ) {
            adopted(before, x, init as usize)
        } else {
            before.tcb(x)
        })
}

/// The effect of `exit_current_and_run_next` on the kernel.
pub open spec fn exit_current_and_run_next_post(before: &Kernel, after: &Kernel, hart: usize, exit_code: i32) -> bool {
    &&& ({
        let t = before.current(hart as int).unwrap() as int;
        &&& tasks_after_exit(after, before, t, exit_code)
        &&& after.queue() == before.queue()
        &&& after.same_setup(before)
        &&& after.same_harts_but(before, hart as int)
        &&& after.processors@[hart as int] == switched_out(before.processors@[hart as int])
        &&& after.plic@ == release_devices(before.plic@, before.devices(t), CPU_NUM as nat)
        &&& after.ext_int_map@ == unregister_devices(
            before.ext_int_map@,
            before.devices(t),
            before.devices(t).len(),
        )
        &&& after.timers@ == before.timers@
        &&& after.serials@ == before.serials@
    })
}

/// Ends the task that runs on `hart` with `exit_code` and returns the hart
/// to its idle loop. The task gives its devices back to the kernel, its
/// claims leave the registry, its address space is recycled, and it stays
/// as a zombie until its parent reaps it; its children become children of
/// the first task.
pub fn exit_current_and_run_next(kernel: &mut Kernel, hart: usize, exit_code: i32)
    requires
        old(kernel).wf(),
        hart < CPU_NUM,
        old(kernel).current(hart as int).is_some(),
    ensures
        final(kernel).wf(),
        exit_current_and_run_next_post(old(kernel), final(kernel), hart, exit_code),
{
    let task = kernel.processors[hart].current.unwrap();
    let init = kernel.initproc.unwrap();
    assert(old(kernel).live(task as int));
    assert(old(kernel).task_wf(task as int));
    let p = &mut kernel.processors[hart];
    p.current = None;
    // the context of a task that has ended is not kept
    let mut unused = TaskContext::default();
    crate::task::processor::schedule(p, &mut unused);
    let mut kids: Vec<usize> = Vec::new();
    match kernel.pids.slot_mut(task) {
        Some(tcb) => {
            if let Some(trap_info) = &tcb.inner.user_trap_info {
                trap_info.remove_user_ext_int_map(&mut kernel.plic, &mut kernel.ext_int_map);
            }
            tcb.inner.user_trap_info = None;
            tcb.inner.task_cx.uie = 0;
            tcb.inner.task_cx.uip = 0;
            tcb.inner.task_status = TaskStatus::Zombie;
            tcb.inner.exit_code = exit_code;
            if task != init {
                std::mem::swap(&mut kids, &mut tcb.inner.children);
            }
            tcb.inner.memory_set.recycle_data_pages();
        },
        None => {},
    }
    proof {
        assert(release_devices(old(kernel).plic@, Seq::<(u16, bool)>::empty(), CPU_NUM as nat) == old(kernel).plic@) by {
            reveal_with_fuel(release_devices, 5);
        }
    }
    if task != init {
        reparent(kernel, task, init, &kids, Ghost(*old(kernel)));
    }
    proof {
        lemma_wf_after_exit(*old(kernel), *kernel, hart, task as int, exit_code);
    }
}

/// Makes the tasks `kids`, the children of the ended task `task`, children
/// of the first task.
fn reparent(kernel: &mut Kernel, task: usize, init: usize, kids: &Vec<usize>, Ghost(before): Ghost<Kernel>)
    requires
        before.wf(),
        before.live(task as int),
        before.initproc == Some(init),
        task != init,
        kids@ == before.tcb(task as int).inner.children@,
        old(kernel).pids.current == before.pids.current,
        old(kernel).pids.recycled@ == before.pids.recycled@,
        before.pids.bounded() ==> old(kernel).pids.bounded(),
        forall|x: int|
            0 <= x < before.pids.slots().len() && x != task ==> #[trigger] old(kernel).pids.slots()[x]
                == before.pids.slots()[x],
        old(kernel).live(task as int),
    ensures
        final(kernel).pids.current == before.pids.current,
        final(kernel).pids.recycled@ == before.pids.recycled@,
        before.pids.bounded() ==> final(kernel).pids.bounded(),
        final(kernel).pids.slots()[task as int] == old(kernel).pids.slots()[task as int],
        final(kernel).same_live(&before),
        final(kernel).tcb(init as int).pid == before.tcb(init as int).pid,
        final(kernel).tcb(init as int).kernel_stack == before.tcb(init as int).kernel_stack,
        final(kernel).tcb(init as int).inner == (TaskControlBlockInner {
            children: final(kernel).tcb(init as int).inner.children,
            ..before.tcb(init as int).inner
        }),
        final(kernel).tcb(init as int).inner.children@ == before.tcb(init as int).inner.children@ + kids@,
        forall|x: int|
            before.live(x) && x != task && x != init ==> #[trigger] final(kernel).tcb(x) == (if is_child(
                &before,
                task as int,
                x,
            ) {
                adopted(&before, x, init)
            } else {
                before.tcb(x)
            }),
        final(kernel).board == old(kernel).board,
        final(kernel).entry == old(kernel).entry,
        final(kernel).initproc == old(kernel).initproc,
        final(kernel).pool == old(kernel).pool,
        final(kernel).processors == old(kernel).processors,
        final(kernel).timers == old(kernel).timers,
        final(kernel).serials == old(kernel).serials,
        final(kernel).pipes == old(kernel).pipes,
        final(kernel).ext_int_map == old(kernel).ext_int_map,
        final(kernel).plic == old(kernel).plic,
{
    let mut i: usize = 0;
    assert(before.tcb(init as int).inner.children@ + kids@.take(0) == before.tcb(init as int).inner.children@);
    while i < kids.len()
        invariant
            i <= kids@.len(),
            before.wf(),
            before.live(task as int),
            before.initproc == Some(init),
            task != init,
            kids@ == before.tcb(task as int).inner.children@,
            kernel.pids.current == before.pids.current,
            kernel.pids.recycled@ == before.pids.recycled@,
            before.pids.bounded() ==> kernel.pids.bounded(),
            kernel.pids.slots()[task as int] == old(kernel).pids.slots()[task as int],
            kernel.same_live(&before),
            kernel.tcb(init as int).pid == before.tcb(init as int).pid,
            kernel.tcb(init as int).kernel_stack == before.tcb(init as int).kernel_stack,
            kernel.tcb(init as int).inner == (TaskControlBlockInner {
                children: kernel.tcb(init as int).inner.children,
                ..before.tcb(init as int).inner
            }),
            kernel.tcb(init as int).inner.children@ == before.tcb(init as int).inner.children@ + kids@.take(
                i as int,
            ),
            forall|x: int|
                before.live(x) && x != task && x != init ==> #[trigger] kernel.tcb(x) == (if kids@.take(
                    i as int,
                ).contains(x as usize) {
                    adopted(&before, x, init)
                } else {
                    before.tcb(x)
                }),
            kernel.board == old(kernel).board,
            kernel.entry == old(kernel).entry,
            kernel.initproc == old(kernel).initproc,
            kernel.pool == old(kernel).pool,
            kernel.processors == old(kernel).processors,
            kernel.timers == old(kernel).timers,
            kernel.serials == old(kernel).serials,
            kernel.pipes == old(kernel).pipes,
            kernel.ext_int_map == old(kernel).ext_int_map,
            kernel.plic == old(kernel).plic,
        decreases kids@.len() - i,
    {
        let child = kids[i];
        let ghost prev = *kernel;
        proof {
            assert(before.live(child as int));
            assert(before.tcb(child as int).inner.parent == Some(task));
            assert(child != init);
            assert(child > task);
            assert(crate::kernel::distinct(kids@));
            assert(!kids@.take(i as int).contains(child)) by {
                if kids@.take(i as int).contains(child) {
                    let j = choose|j: int| 0 <= j < i && kids@.take(i as int)[j] == child;
                    assert(kids@[j] == child);
                }
            }
            assert(kernel.live(child as int));
            assert(kernel.live(init as int));
        }
        match kernel.pids.slot_mut(child) {
            Some(tcb) => {
                tcb.inner.parent = Some(init);
            },
            None => {},
        }
        match kernel.pids.slot_mut(init) {
            Some(tcb) => {
                tcb.inner.children.push(child);
            },
            None => {},
        }
        proof {
            let next = kids@.take(i + 1);
            assert(next == kids@.take(i as int).push(child));
            assert(before.tcb(init as int).inner.children@ + next == (before.tcb(init as int).inner.children@
                + kids@.take(i as int)).push(child));
            assert forall|x: int| #[trigger] kernel.live(x) == before.live(x) by {
                assert(prev.live(x) == before.live(x));
            }
            assert forall|x: int| before.live(x) && x != task && x != init implies #[trigger] kernel.tcb(x) == (
            if next.contains(x as usize) {
                adopted(&before, x, init)
            } else {
                before.tcb(x)
            }) by {
                if x == child {
                    assert(next[i as int] == child);
                    assert(prev.tcb(x) == before.tcb(x));
                } else {
                    assert(kernel.tcb(x) == prev.tcb(x));
                    if kids@.take(i as int).contains(x as usize) {
                        let j = choose|j: int| 0 <= j < i && kids@.take(i as int)[j] == x as usize;
                        assert(next[j] == x as usize);
                    }
                    if next.contains(x as usize) {
                        let j = choose|j: int| 0 <= j < i + 1 && next[j] == x as usize;
                        assert(j < i);
                        assert(kids@.take(i as int)[j] == x as usize);
                    }
                }
            }
        }
        i += 1;
    }
    assert(kids@.take(i as int) == kids@);
}

/// The kernel is well formed after a task has ended.
proof fn lemma_wf_after_exit(old_k: Kernel, new_k: Kernel, hart: usize, t: int, exit_code: i32)
    requires
        old_k.wf(),
        hart < CPU_NUM,
        old_k.live(t),
        old_k.current(hart as int) == Some(t as usize),
        tasks_after_exit(&new_k, &old_k, t, exit_code),
        new_k.queue() == old_k.queue(),
        new_k.same_setup(&old_k),
        new_k.same_harts_but(&old_k, hart as int),
        new_k.processors@[hart as int] == switched_out(old_k.processors@[hart as int]),
        new_k.plic@ == release_devices(old_k.plic@, old_k.devices(t), CPU_NUM as nat),
        new_k.ext_int_map@ == unregister_devices(old_k.ext_int_map@, old_k.devices(t), old_k.devices(t).len()),
        new_k.timers@ == old_k.timers@,
        new_k.serials@ == old_k.serials@,
    ensures
        new_k.wf(),
{
    let init = old_k.initproc.unwrap() as int;
    let devices = old_k.devices(t);
    assert(old_k.live(t));
    assert(old_k.status(t) == TaskStatus::Running(hart));
    assert(old_k.task_wf(t));
    lemma_release_devices(old_k.plic@, devices, CPU_NUM as nat);
    lemma_unregister_devices(old_k.ext_int_map@, devices, devices.len());
    assert forall|irq: int| lists_device_upto(devices, irq, devices.len()) == lists_device(devices, irq) by {
        if lists_device(devices, irq) {
            let k = choose|k: int| 0 <= k < devices.len() && (#[trigger] devices[k]).0 == irq;
            assert(devices[k].0 == irq);
        }
        if lists_device_upto(devices, irq, devices.len()) {
            let k = choose|k: int| 0 <= k < devices.len() && k < devices.len() && (#[trigger] devices[k]).0 == irq;
            assert(devices[k].0 == irq);
        }
    }
    // what each task keeps
    assert forall|x: int| #[trigger] new_k.live(x) implies {
        &&& old_k.live(x)
        &&& new_k.tcb(x).pid == old_k.tcb(x).pid
        &&& new_k.tcb(x).kernel_stack == old_k.tcb(x).kernel_stack
        &&& new_k.tcb(x).inner.mail_box == old_k.tcb(x).inner.mail_box
        &&& x != t ==> new_k.status(x) == old_k.status(x) && new_k.devices(x) == old_k.devices(x)
        &&& x != t && x != init ==> new_k.tcb(x).inner.children == old_k.tcb(x).inner.children
        &&& new_k.devices(t) == Seq::<(u16, bool)>::empty()
    } by {
        assert(old_k.live(x));
        if x != t && x != init {
            assert(new_k.tcb(x) == (if t != init && is_child(&old_k, t, x) {
                adopted(&old_k, x, init as usize)
            } else {
                old_k.tcb(x)
            }));
        }
    }
    assert(new_k.wf_structure()) by {
        assert(new_k.pids.wf()) by {
            assert forall|i: int|
                0 <= i < new_k.pids.slots().len() && (#[trigger] new_k.pids.slots()[i]).is_some() implies new_k.pids.slots()[i].unwrap().pid.0
                == i by {
                assert(new_k.live(i));
                assert(old_k.live(i));
                assert(old_k.pids.slots()[i].is_some());
            }
            assert(new_k.live(0) == old_k.live(0));
        }
        assert forall|x: int| #[trigger] new_k.live(x) implies new_k.task_wf(x) by {
            assert(old_k.live(x));
            assert(old_k.task_wf(x));
        }
    }
    assert(new_k.wf_running()) by {
        assert forall|h: int| 0 <= h < CPU_NUM && (#[trigger] new_k.current(h)).is_some() implies new_k.live(
            new_k.current(h).unwrap() as int,
        ) && new_k.status(new_k.current(h).unwrap() as int) == TaskStatus::Running(h as usize) by {
            assert(h != hart);
            assert(new_k.processors@[h] == old_k.processors@[h]);
            assert(old_k.current(h).is_some());
            let t2 = old_k.current(h).unwrap() as int;
            assert(old_k.live(t2));
            assert(t2 != t);
            assert(new_k.live(t2));
        }
        assert forall|t2: int|
            new_k.live(t2) && crate::kernel::running_on(#[trigger] new_k.status(t2)).is_some() implies crate::kernel::running_on(
            new_k.status(t2),
        ).unwrap() < CPU_NUM && new_k.current(crate::kernel::running_on(new_k.status(t2)).unwrap() as int)
            == Some(t2 as usize) by {
            assert(t2 != t);
            assert(old_k.live(t2));
            let h2 = crate::kernel::running_on(old_k.status(t2)).unwrap();
            assert(old_k.current(h2 as int) == Some(t2 as usize));
            assert(h2 != hart);
            assert(new_k.processors@[h2 as int] == old_k.processors@[h2 as int]);
        }
    }
    assert(new_k.wf_ready()) by {
        let q = old_k.queue();
        assert forall|j: int| 0 <= j < q.len() implies new_k.live(#[trigger] q[j] as int) && new_k.status(
            q[j] as int,
        ) == TaskStatus::Ready by {
            assert(old_k.live(q[j] as int));
            assert(old_k.status(q[j] as int) == TaskStatus::Ready);
            assert(new_k.live(q[j] as int));
        }
        assert forall|t2: int|
            new_k.live(t2) && #[trigger] new_k.status(t2) == TaskStatus::Ready implies q.contains(
            t2 as usize,
        ) by {
            assert(t2 != t);
            assert(old_k.live(t2));
            assert(old_k.status(t2) == TaskStatus::Ready);
        }
    }
    assert(new_k.wf_family()) by {
        lemma_family_after_exit(old_k, new_k, t, exit_code);
    }
    lemma_release_keeps_claims(old_k, new_k, t);
}

/// The registry, the devices of the tasks and the routing of interrupts
/// agree after the task `t` has given all its devices back.
pub proof fn lemma_release_keeps_claims(old_k: Kernel, new_k: Kernel, t: int)
    requires
        old_k.wf(),
        old_k.live(t),
        new_k.same_live(&old_k),
        new_k.devices(t) == Seq::<(u16, bool)>::empty(),
        forall|x: int| #[trigger]
            new_k.live(x) && x != t ==> new_k.status(x) == old_k.status(x) && new_k.devices(x) == old_k.devices(
                x,
            ),
        new_k.plic@ == release_devices(old_k.plic@, old_k.devices(t), CPU_NUM as nat),
        new_k.ext_int_map@ == unregister_devices(old_k.ext_int_map@, old_k.devices(t), old_k.devices(t).len()),
    ensures
        new_k.wf_claims(),
        new_k.wf_routing(),
        new_k.plic.wf(),
{
    let devices = old_k.devices(t);
    assert(old_k.task_wf(t));
    lemma_release_devices(old_k.plic@, devices, CPU_NUM as nat);
    lemma_unregister_devices(old_k.ext_int_map@, devices, devices.len());
    assert forall|irq: int| lists_device_upto(devices, irq, devices.len()) == lists_device(devices, irq) by {
        if lists_device(devices, irq) {
            let k = choose|k: int| 0 <= k < devices.len() && (#[trigger] devices[k]).0 == irq;
            assert(devices[k].0 == irq);
        }
        if lists_device_upto(devices, irq, devices.len()) {
            let k = choose|k: int| 0 <= k < devices.len() && k < devices.len() && (#[trigger] devices[k]).0 == irq;
            assert(devices[k].0 == irq);
        }
    }
    assert forall|x: int| #[trigger] new_k.live(x) implies old_k.live(x) by {}
    assert(new_k.wf_claims()) by {
        assert forall|irq: u16| #[trigger] new_k.ext_int_map@.contains_key(irq) implies new_k.live(
            new_k.ext_int_map@[irq] as int,
        ) && lists_device(new_k.devices(new_k.ext_int_map@[irq] as int), irq as int) by {
            assert(old_k.ext_int_map@.contains_key(irq));
            assert(!lists_device(devices, irq as int));
            let o = old_k.ext_int_map@[irq] as int;
            assert(old_k.live(o));
            assert(lists_device(old_k.devices(o), irq as int));
            assert(o != t);
            assert(new_k.live(o));
        }
        assert forall|x: int, i: int|
            new_k.live(x) && 0 <= i < new_k.devices(x).len() implies new_k.ext_int_map@.contains_key(
            (#[trigger] new_k.devices(x)[i]).0,
        ) && new_k.ext_int_map@[new_k.devices(x)[i].0] == x by {
            assert(x != t);
            assert(old_k.live(x));
            let irq = old_k.devices(x)[i].0;
            assert(new_k.devices(x)[i] == old_k.devices(x)[i]);
            assert(old_k.ext_int_map@.contains_key(irq) && old_k.ext_int_map@[irq] == x);
            if lists_device(devices, irq as int) {
                let k = choose|k: int| 0 <= k < devices.len() && (#[trigger] devices[k]).0 == irq as int;
                assert(old_k.ext_int_map@[devices[k].0] == t);
            }
        }
        assert forall|x: int| #[trigger] new_k.live(x) implies crate::kernel::distinct_devices(
            new_k.devices(x),
        ) by {
            assert(old_k.live(x));
        }
        assert forall|x: int|
            new_k.live(x) && #[trigger] new_k.status(x) == TaskStatus::Zombie implies new_k.devices(x).len()
            == 0 by {
            assert(old_k.live(x));
            if x != t {
                assert(old_k.status(x) == TaskStatus::Zombie);
            }
        }
    }
    assert(new_k.wf_routing()) by {
        let p = old_k.plic@;
        let r = new_k.plic@;
        assert forall|h: int, irq: int|
            0 <= h < CPU_NUM && 0 <= irq < IRQ_NUM && #[trigger] r.is_enabled(u_context(h), irq) implies {
            &&& new_k.ext_int_map@.contains_key(irq as u16)
            &&& new_k.live(new_k.ext_int_map@[irq as u16] as int)
            &&& new_k.status(new_k.ext_int_map@[irq as u16] as int) == TaskStatus::Running(h as usize)
            &&& r.no_supervisor_enable(irq)
        } by {
            assert(!lists_device(devices, irq));
            assert(p.is_enabled(u_context(h), irq));
            let o = old_k.ext_int_map@[irq as u16] as int;
            assert(old_k.ext_int_map@.contains_key(irq as u16));
            assert(old_k.live(o));
            assert(o != t);
            assert(new_k.live(o));
            assert(!lists_device_upto(devices, irq as u16 as int, devices.len()));
            assert(new_k.ext_int_map@.contains_key(irq as u16));
            assert(p.no_supervisor_enable(irq));
            assert forall|h2: int| 0 <= h2 < CPU_NUM implies !#[trigger] r.is_enabled(s_context(h2), irq) by {
                assert(r.is_enabled(s_context(h2), irq) == p.is_enabled(s_context(h2), irq));
            }
        }
    }
}

/// The family relations hold after a task has ended.
proof fn lemma_family_after_exit(old_k: Kernel, new_k: Kernel, t: int, exit_code: i32)
    requires
        old_k.wf(),
        old_k.live(t),
        tasks_after_exit(&new_k, &old_k, t, exit_code),
        new_k.initproc == old_k.initproc,
    ensures
        new_k.wf_family(),
{
    let init = old_k.initproc.unwrap() as int;
    let kids = old_k.tcb(t).inner.children@;
    assert(old_k.live(init));
    assert forall|x: int| #[trigger] new_k.live(x) implies old_k.live(x) by {}
    // where each task's parent and children come from
    assert forall|x: int| old_k.live(x) && x != t && x != init implies new_k.tcb(x).inner.children
        == old_k.tcb(x).inner.children && new_k.tcb(x).inner.parent == (if t != init && is_child(&old_k, t, x) {
        Some(init as usize)
    } else {
        old_k.tcb(x).inner.parent
    }) by {
        assert(new_k.tcb(x) == (if t != init && is_child(&old_k, t, x) {
            adopted(&old_k, x, init as usize)
        } else {
            old_k.tcb(x)
        }));
    }
    assert forall|x: int, i: int|
        new_k.live(x) && 0 <= i < new_k.tcb(x).inner.children@.len() implies new_k.live(
        #[trigger] new_k.tcb(x).inner.children@[i] as int,
    ) && new_k.tcb(new_k.tcb(x).inner.children@[i] as int).inner.parent == Some(x as usize) && new_k.tcb(
        x,
    ).inner.children@[i] > x by {
        assert(old_k.live(x));
        let c = new_k.tcb(x).inner.children@[i] as int;
        if x == init && t != init {
            let own = old_k.tcb(init).inner.children@;
            if i < own.len() {
                assert(c == own[i]);
                assert(old_k.live(c) && old_k.tcb(c).inner.parent == Some(init as usize));
                assert(c != init);
                if c != t {
                    if is_child(&old_k, t, c) {
                        let j = choose|j: int| 0 <= j < kids.len() && kids[j] == c as usize;
                        assert(old_k.tcb(kids[j] as int).inner.parent == Some(t as usize));
                    }
                }
            } else {
                assert(c == kids[i - own.len()]);
                assert(old_k.live(c) && old_k.tcb(c).inner.parent == Some(t as usize));
                assert(c > t);
                assert(c != init);
                assert(kids.contains(c as usize));
                assert(is_child(&old_k, t, c));
            }
        } else if x == t {
            assert(t == init);
            assert(c == old_k.tcb(t).inner.children@[i]);
            assert(old_k.live(c) && old_k.tcb(c).inner.parent == Some(t as usize));
            assert(c != t);
        } else {
            assert(c == old_k.tcb(x).inner.children@[i]);
            assert(old_k.live(c) && old_k.tcb(c).inner.parent == Some(x as usize));
            assert(c != init);
            if c != t {
                if t != init && is_child(&old_k, t, c) {
                    let j = choose|j: int| 0 <= j < kids.len() && kids[j] == c as usize;
                    assert(old_k.tcb(kids[j] as int).inner.parent == Some(t as usize));
                }
            }
        }
    }
    assert forall|x: int| #[trigger] new_k.live(x) implies crate::kernel::distinct(
        new_k.tcb(x).inner.children@,
    ) by {
        assert(old_k.live(x));
        if x == init && t != init {
            let own = old_k.tcb(init).inner.children@;
            let all = new_k.tcb(x).inner.children@;
            assert(crate::kernel::distinct(own));
            assert(crate::kernel::distinct(kids));
            assert forall|i: int, j: int| 0 <= i < all.len() && 0 <= j < all.len() && i != j implies all[i]
                != all[j] by {
                if i < own.len() && j >= own.len() {
                    assert(old_k.tcb(own[i] as int).inner.parent == Some(init as usize));
                    assert(old_k.tcb(kids[j - own.len()] as int).inner.parent == Some(t as usize));
                }
                if j < own.len() && i >= own.len() {
                    assert(old_k.tcb(own[j] as int).inner.parent == Some(init as usize));
                    assert(old_k.tcb(kids[i - own.len()] as int).inner.parent == Some(t as usize));
                }
            }
        }
    }
    assert forall|x: int| #[trigger] new_k.live(x) implies new_k.initproc.is_some() by {
        assert(old_k.live(x));
    }
    assert(new_k.live(init));
    assert(new_k.tcb(init).inner.parent.is_none());
    assert forall|x: int|
        new_k.live(x) && #[trigger] new_k.status(x) == TaskStatus::Zombie && Some(x as usize)
            != new_k.initproc implies new_k.tcb(x).inner.children@.len() == 0 by {
        assert(old_k.live(x));
        if x != t {
            assert(new_k.status(x) == old_k.status(x));
        }
    }
}

/// Makes the program `image` the first task: the task gets the identifier
/// 1, has no parent, and waits in the ready queue. It will adopt the
/// children of every task that ends.
pub fn add_initproc(kernel: &mut Kernel, image: LoadedImage)
    requires
        old(kernel).wf(),
        old(kernel).initproc.is_none(),
        old(kernel).pids.current == 1,
    ensures
        final(kernel).wf(),
        final(kernel).live(1),
        born(final(kernel), old(kernel), final(kernel).tcb(1), None),
        final(kernel).tcb(1).is_fresh(
            PidHandle(1),
            image.memory_set.areas@,
            image.user_sp,
            image.entry_point,
            old(kernel).entry,
            old(kernel).processors@[0].registers.uie,
            old(kernel).processors@[0].registers.uip,
            None,
        ),
{
    proof {
        lemma_pid_range();
    }
    let handle = kernel.pids.alloc_pid();
    let uie = kernel.processors[0].registers.uie;
    let uip = kernel.processors[0].registers.uip;
    let child = TaskControlBlock::new(handle, image, kernel.entry, uie, uip);
    let ghost the_child = child;
    enroll(kernel, child);
    kernel.initproc = Some(1);
    proof {
        assert(kernel.pids.slots()[1] == Some(the_child));
        lemma_wf_after_birth(*old(kernel), *kernel, the_child, None);
    }
}

} // verus!
