use vstd::prelude::*;
use crate::config::CPU_NUM;
use crate::kernel::Kernel;
use crate::plic::u_context;
use crate::task::context::TaskContext;
use crate::task::task::{TaskControlBlock, TaskControlBlockInner, TaskStatus};
use crate::trap::handoff::{lemma_disable_handoff, lemma_enable_handoff, lists_device};
use crate::trap::usertrap::{disable_handoff, enable_handoff};

verus! {

/// One hart as the scheduler sees it: the task it runs, the context it
/// idles in between two tasks, and its image of the registers that a
/// context switch exchanges.
pub struct Processor {
    /// The identifier of the task that runs on the hart.
    pub current: Option<usize>,
    /// The context of the hart's scheduling loop.
    pub idle_task_cx: TaskContext,
    /// The registers of the hart that a context switch saves and loads.
    pub registers: TaskContext,
    /// The user scratch register: the number of trap records that the
    /// running task's handler is to take at its next entry.
    pub uscratch: usize,
}

impl Processor {
    /// Whether the hart is one that has not run anything yet: it runs no
    /// task, its contexts hold marker values, and its scratch register
    /// is zero.
    pub open spec fn is_fresh(self) -> bool {
        &&& self.current.is_none()
        &&& self.idle_task_cx.is_marker()
        &&& self.registers.is_marker()
        &&& self.uscratch == 0
    }

    /// A hart that runs nothing.
    pub fn new() -> (p: Processor)
        ensures
            p.is_fresh(),
    {
        Processor {
            current: None,
            idle_task_cx: TaskContext::default(),
            registers: TaskContext::default(),
            uscratch: 0,
        }
    }

    /// Takes the running task off the hart.
    pub fn take_current(&mut self) -> (task: Option<usize>)
        ensures
            task == old(self).current,
            *final(self) == (Processor { current: None, ..*old(self) }),
    {
        self.current.take()
    }

    /// The task that runs on the hart.
    pub fn current(&self) -> (task: Option<usize>)
        ensures
            task == self.current,
    {
        self.current
    }
}

impl Default for Processor {
    /// A hart that runs nothing.
    fn default() -> (p: Processor)
        ensures
            p.is_fresh(),
    {
        Processor::new()
    }
}

/// The task that runs on `hart`, after taking it off the hart. Nothing else
/// changes; it is for the caller to end the task or to queue it.
pub fn take_current_task(kernel: &mut Kernel, hart: usize) -> (task: Option<usize>)
    requires
        hart < old(kernel).processors@.len(),
    ensures
        task == old(kernel).current(hart as int),
        final(kernel).same_harts_but(old(kernel), hart as int),
        final(kernel).processors@[hart as int] == (Processor {
            current: None,
            ..old(kernel).processors@[hart as int]
        }),
        final(kernel).same_setup(old(kernel)),
        final(kernel).pids == old(kernel).pids,
        final(kernel).pool == old(kernel).pool,
        final(kernel).timers == old(kernel).timers,
        final(kernel).serials == old(kernel).serials,
        final(kernel).ext_int_map == old(kernel).ext_int_map,
        final(kernel).plic == old(kernel).plic,
{
    kernel.processors[hart].take_current()
}

/// The task that runs on `hart`.
pub fn current_task(kernel: &Kernel, hart: usize) -> (task: Option<usize>)
    requires
        hart < kernel.processors@.len(),
    ensures
        task == kernel.current(hart as int),
{
    kernel.processors[hart].current()
}

/// The tasks that run on the harts, by hart.
pub fn current_tasks(kernel: &Kernel) -> (tasks: Vec<Option<usize>>)
    ensures
        tasks@.len() == kernel.processors@.len(),
        forall|h: int| 0 <= h < tasks@.len() ==> tasks@[h] == kernel.current(h),
{
    let mut tasks: Vec<Option<usize>> = Vec::new();
    let mut h: usize = 0;
    while h < kernel.processors.len()
        invariant
            h <= kernel.processors@.len(),
            tasks@.len() == h,
            forall|k: int| 0 <= k < h ==> tasks@[k] == kernel.current(k),
        decreases kernel.processors@.len() - h,
    {
        tasks.push(kernel.processors[h].current());
        h += 1;
    }
    tasks
}

/// The trap context of the task that runs on `hart`.
pub fn current_trap_cx(kernel: &Kernel, hart: usize) -> (cx: &crate::trap::context::TrapContext)
    requires
        kernel.wf(),
        hart < CPU_NUM,
        kernel.current(hart as int).is_some(),
    ensures
        *cx == kernel.tcb(kernel.current(hart as int).unwrap() as int).inner.trap_cx,
{
    let task = kernel.processors[hart].current.unwrap();
    assert(kernel.live(task as int));
    let tcb = kernel.pids.slot(task).unwrap();
    &tcb.inner.trap_cx
}

/// Whether `after` is `before` but for the inner state of the task `tid`.
pub open spec fn same_but_inner(after: &Kernel, before: &Kernel, tid: int) -> bool {
    &&& after.same_setup(before)
    &&& after.same_tasks_but(before, tid)
    &&& after.live(tid)
    &&& after.tcb(tid).pid == before.tcb(tid).pid
    &&& after.tcb(tid).kernel_stack == before.tcb(tid).kernel_stack
    &&& after.pool == before.pool
    &&& after.processors == before.processors
    &&& after.timers == before.timers
    &&& after.serials == before.serials
    &&& after.ext_int_map == before.ext_int_map
    &&& after.plic == before.plic
}

/// Sets the priority of the task that runs on `hart`. Without such a task,
/// or for a priority below 2, the call fails with -1 and changes nothing.
pub fn set_current_priority(kernel: &mut Kernel, hart: usize, priority: isize) -> (res: Result<isize, isize>)
    requires
        old(kernel).wf(),
        hart < CPU_NUM,
    ensures
        final(kernel).wf(),
        old(kernel).current(hart as int).is_none() || priority < 2 ==> res == Err::<isize, isize>(-1isize)
            && *final(kernel) == *old(kernel),
        old(kernel).current(hart as int).is_some() && priority >= 2 ==> {
            let t = old(kernel).current(hart as int).unwrap() as int;
            &&& res == Ok::<isize, isize>(priority)
            &&& same_but_inner(final(kernel), old(kernel), t)
            &&& final(kernel).tcb(t).inner == (TaskControlBlockInner { priority, ..old(kernel).tcb(t).inner })
        },
{
    if priority < 2 {
        return Err(-1);
    }
    match kernel.processors[hart].current {
        Some(task) => {
            assert(old(kernel).live(task as int));
            let res = match kernel.pids.slot_mut(task) {
                Some(tcb) => tcb.inner.set_priority(priority),
                None => Err(-1),
            };
            proof {
                let old_k = *old(kernel);
                assert(kernel.same_shape(&old_k));
                kernel.lemma_same_shape(&old_k);
            }
            res
        },
        None => Err(-1),
    }
}

/// Maps memory into the address space of the task that runs on `hart`; see
/// `MemorySet::mmap`. Without such a task the call fails with -1.
pub fn mmap(kernel: &mut Kernel, hart: usize, start: usize, len: usize, port: usize) -> (res: Result<
    isize,
    isize,
>)
    requires
        old(kernel).wf(),
        hart < CPU_NUM,
    ensures
        final(kernel).wf(),
        old(kernel).current(hart as int).is_none() ==> res == Err::<isize, isize>(-1isize) && *final(kernel)
            == *old(kernel),
        old(kernel).current(hart as int).is_some() ==> {
            let t = old(kernel).current(hart as int).unwrap() as int;
            let areas = old(kernel).tcb(t).inner.memory_set.areas@;
            &&& same_but_inner(final(kernel), old(kernel), t)
            &&& final(kernel).tcb(t).inner == (TaskControlBlockInner {
                memory_set: final(kernel).tcb(t).inner.memory_set,
                ..old(kernel).tcb(t).inner
            })
            &&& crate::mm::mmap_ok(areas, start, len, port) ==> res == Ok::<isize, isize>(
                crate::mm::page_round_up(len as int) as isize,
            ) && final(kernel).tcb(t).inner.memory_set.areas@ == (if len == 0 {
                areas
            } else {
                areas.push(
                    crate::mm::MapArea {
                        start,
                        end: (start + crate::mm::page_round_up(len as int)) as usize,
                        perm: port,
                        mmio: false,
                    },
                )
            })
            &&& !crate::mm::mmap_ok(areas, start, len, port) ==> res == Err::<isize, isize>(-1isize)
                && final(kernel).tcb(t).inner.memory_set.areas@ == areas
        },
{
    match kernel.processors[hart].current {
        Some(task) => {
            assert(old(kernel).live(task as int));
            let res = match kernel.pids.slot_mut(task) {
                Some(tcb) => tcb.inner.mmap(start, len, port),
                None => Err(-1),
            };
            proof {
                let old_k = *old(kernel);
                assert(kernel.same_shape(&old_k));
                kernel.lemma_same_shape(&old_k);
            }
            res
        },
        None => Err(-1),
    }
}

/// Unmaps memory from the address space of the task that runs on `hart`;
/// see `MemorySet::munmap`. Without such a task the call fails with -1.
pub fn munmap(kernel: &mut Kernel, hart: usize, start: usize, len: usize) -> (res: Result<isize, isize>)
    requires
        old(kernel).wf(),
        hart < CPU_NUM,
    ensures
        final(kernel).wf(),
        old(kernel).current(hart as int).is_none() ==> res == Err::<isize, isize>(-1isize) && *final(kernel)
            == *old(kernel),
        old(kernel).current(hart as int).is_some() ==> {
            let t = old(kernel).current(hart as int).unwrap() as int;
            &&& same_but_inner(final(kernel), old(kernel), t)
            &&& final(kernel).tcb(t).inner == (TaskControlBlockInner {
                memory_set: final(kernel).tcb(t).inner.memory_set,
                ..old(kernel).tcb(t).inner
            })
            &&& crate::mm::munmap_effect(
                old(kernel).tcb(t).inner.memory_set.areas@,
                final(kernel).tcb(t).inner.memory_set.areas@,
                start,
                len,
                res,
            )
        },
{
    match kernel.processors[hart].current {
        Some(task) => {
            assert(old(kernel).live(task as int));
            let res = match kernel.pids.slot_mut(task) {
                Some(tcb) => tcb.inner.munmap(start, len),
                None => Err(-1),
            };
            proof {
                let old_k = *old(kernel);
                assert(kernel.same_shape(&old_k));
                kernel.lemma_same_shape(&old_k);
            }
            res
        },
        None => Err(-1),
    }
}

/// The hart after the switch from its idle loop to a task whose saved
/// context is `task_cx`.
pub open spec fn switched_in(hart: Processor, task: usize, task_cx: TaskContext) -> Processor {
    Processor { current: Some(task), idle_task_cx: hart.registers, registers: task_cx, uscratch: hart.uscratch }
}

/// The hart after the switch from a task back to its idle loop.
pub open spec fn switched_out(hart: Processor) -> Processor {
    Processor { current: None, idle_task_cx: hart.idle_task_cx, registers: hart.idle_task_cx, uscratch: hart.uscratch }
}

/// The effect of `run_tasks`, which returns `task`, on the kernel.
pub open spec fn run_tasks_post(before: &Kernel, after: &Kernel, hart: usize, task: Option<usize>) -> bool {
    &&& before.queue().len() == 0 ==> task.is_none() && *after == *before
    &&& before.queue().len() > 0 ==> {
        let t = before.queue()[0];
        &&& task == Some(t)
        &&& after.queue() == before.queue().drop_first()
        &&& after.same_setup(before)
        &&& after.same_tasks_but(before, t as int)
        &&& after.live(t as int)
        &&& after.tcb(t as int) == before.tcb_with_status(t as int, TaskStatus::Running(hart))
        &&& after.same_harts_but(before, hart as int)
        &&& after.processors@[hart as int] == switched_in(
            before.processors@[hart as int],
            t,
            before.tcb(t as int).inner.task_cx,
        )
        &&& after.plic@ == enable_handoff(before.plic@, before.devices(t as int), hart)
        &&& after.timers@ == before.timers@
        &&& after.serials@ == before.serials@
        &&& after.ext_int_map@ == before.ext_int_map@
    }
}

/// Switches the hart from the task it runs back to its idle loop: the
/// registers of the hart are saved into `switched_task_cx`, and the hart
/// goes on in its idle context.
pub fn schedule(hart: &mut Processor, switched_task_cx: &mut TaskContext)
    ensures
        *final(switched_task_cx) == old(hart).registers,
        *final(hart) == (Processor { registers: old(hart).idle_task_cx, ..*old(hart) }),
{
    let idle = hart.idle_task_cx;
    TaskContext::switch(&mut hart.registers, switched_task_cx, &idle);
}

impl Processor {
    /// One round of the scheduling loop of the hart `hart`; see `run_tasks`.
    pub fn run(kernel: &mut Kernel, hart: usize) -> (task: Option<usize>)
        requires
            old(kernel).wf(),
            hart < CPU_NUM,
            old(kernel).current(hart as int).is_none(),
        ensures
            final(kernel).wf(),
            run_tasks_post(old(kernel), final(kernel), hart, task),
    {
        if kernel.pool.scheduler.ready_queue.len() == 0 {
            return None;
        }
        let task = kernel.pool.fetch().unwrap();
        assert(old(kernel).queue()[0] == task);
        assert(old(kernel).live(task as int));
        run_next(kernel, hart, task);
        proof {
            let old_k = *old(kernel);
            let t = task as int;
            lemma_enable_handoff(old_k.plic@, old_k.devices(t), hart);
            assert(kernel.same_live(&old_k));
            assert(kernel.same_task_wf(&old_k));
            kernel.lemma_frame_structure(&old_k);
            assert(kernel.same_family(&old_k));
            kernel.lemma_frame_family(&old_k);
            assert(kernel.same_claims(&old_k));
            kernel.lemma_frame_claims(&old_k);
            assert(kernel.wf_running()) by {
                assert forall|h: int| 0 <= h < CPU_NUM && (#[trigger] kernel.current(h)).is_some() implies kernel.live(
                    kernel.current(h).unwrap() as int,
                ) && kernel.status(kernel.current(h).unwrap() as int) == TaskStatus::Running(h as usize) by {
                    if h != hart {
                        assert(kernel.processors@[h] == old_k.processors@[h]);
                        assert(old_k.current(h).is_some());
                    }
                }
                assert forall|t2: int|
                    kernel.live(t2) && crate::kernel::running_on(#[trigger] kernel.status(t2)).is_some() implies crate::kernel::running_on(
                    kernel.status(t2),
                ).unwrap() < CPU_NUM && kernel.current(
                    crate::kernel::running_on(kernel.status(t2)).unwrap() as int,
                ) == Some(t2 as usize) by {
                    if t2 != t {
                        assert(old_k.live(t2));
                        assert(kernel.status(t2) == old_k.status(t2));
                        let h2 = crate::kernel::running_on(old_k.status(t2)).unwrap();
                        assert(old_k.current(h2 as int) == Some(t2 as usize));
                        assert(h2 != hart);
                        assert(kernel.processors@[h2 as int] == old_k.processors@[h2 as int]);
                    }
                }
            }
            assert(kernel.wf_ready()) by {
                let q = old_k.queue();
                let nq = kernel.queue();
                assert forall|j: int| 0 <= j < nq.len() implies kernel.live(#[trigger] nq[j] as int)
                    && kernel.status(nq[j] as int) == TaskStatus::Ready by {
                    assert(nq[j] == q[j + 1]);
                    assert(old_k.live(q[j + 1] as int));
                }
                assert forall|t2: int|
                    kernel.live(t2) && #[trigger] kernel.status(t2) == TaskStatus::Ready implies nq.contains(
                    t2 as usize,
                ) by {
                    assert(old_k.live(t2));
                    assert(old_k.status(t2) == TaskStatus::Ready);
                    assert(q.contains(t2 as usize));
                    let j = choose|j: int| 0 <= j < q.len() && q[j] == t2 as usize;
                    assert(nq[j - 1] == t2 as usize);
                }
            }
            assert(kernel.wf_routing()) by {
                assert forall|h: int, irq: int|
                    0 <= h < CPU_NUM && 0 <= irq < crate::plic::IRQ_NUM && #[trigger] kernel.plic@.is_enabled(
                        u_context(h),
                        irq,
                    ) implies {
                    &&& kernel.ext_int_map@.contains_key(irq as u16)
                    &&& kernel.live(kernel.ext_int_map@[irq as u16] as int)
                    &&& kernel.status(kernel.ext_int_map@[irq as u16] as int) == TaskStatus::Running(h as usize)
                    &&& kernel.plic@.no_supervisor_enable(irq)
                } by {
                    lemma_routing_after_run(old_k, *kernel, hart, t, h, irq);
                }
            }
        }
        Some(task)
    }
}

/// One round of the scheduling loop of the idle hart `hart`: takes the task
/// at the head of the ready queue and switches to it. The task is then
/// running on the hart, the hart's registers hold the task's saved context,
/// and the interrupts of the task's devices are steered to it. With an
/// empty ready queue nothing changes.
pub fn run_tasks(kernel: &mut Kernel, hart: usize) -> (task: Option<usize>)
    requires
        old(kernel).wf(),
        hart < CPU_NUM,
        old(kernel).current(hart as int).is_none(),
    ensures
        final(kernel).wf(),
        run_tasks_post(old(kernel), final(kernel), hart, task),
{
    Processor::run(kernel, hart)
}

/// The interrupt routing still holds after a task has been switched in.
proof fn lemma_routing_after_run(old_k: Kernel, new_k: Kernel, hart: usize, t: int, h: int, irq: int)
    requires
        old_k.wf(),
        hart < CPU_NUM,
        old_k.live(t),
        old_k.status(t) == TaskStatus::Ready,
        new_k.plic@ == enable_handoff(old_k.plic@, old_k.devices(t), hart),
        new_k.ext_int_map@ == old_k.ext_int_map@,
        new_k.same_tasks_but(&old_k, t),
        new_k.live(t),
        new_k.status(t) == TaskStatus::Running(hart),
        0 <= h < CPU_NUM,
        0 <= irq < crate::plic::IRQ_NUM,
        new_k.plic@.is_enabled(u_context(h), irq),
    ensures
        new_k.ext_int_map@.contains_key(irq as u16),
        new_k.live(new_k.ext_int_map@[irq as u16] as int),
        new_k.status(new_k.ext_int_map@[irq as u16] as int) == TaskStatus::Running(h as usize),
        new_k.plic@.no_supervisor_enable(irq),
{
    let devices = old_k.devices(t);
    lemma_enable_handoff(old_k.plic@, devices, hart);
    let p = old_k.plic@;
    let r = new_k.plic@;
    if lists_device(devices, irq) {
        let k = choose|k: int| 0 <= k < devices.len() && (#[trigger] devices[k]).0 == irq;
        assert(old_k.ext_int_map@.contains_key(devices[k].0) && old_k.ext_int_map@[devices[k].0] == t);
        assert(irq as u16 == devices[k].0);
        if h != hart {
            assert(r.is_enabled(u_context(h), irq) == p.is_enabled(u_context(h), irq));
            assert(p.is_enabled(u_context(h), irq));
            assert(old_k.status(t) == TaskStatus::Running(h as usize));
        }
        assert forall|h2: int| 0 <= h2 < CPU_NUM implies !#[trigger] r.is_enabled(
            crate::plic::s_context(h2),
            irq,
        ) by {}
    } else {
        assert(r.is_enabled(u_context(h), irq) == p.is_enabled(u_context(h), irq));
        assert(p.is_enabled(u_context(h), irq));
        let owner = old_k.ext_int_map@[irq as u16] as int;
        assert(old_k.ext_int_map@.contains_key(irq as u16));
        assert(lists_device(old_k.devices(owner), irq as u16 as int));
        assert(owner != t);
        assert(new_k.pids.slots()[owner] == old_k.pids.slots()[owner]);
        assert(p.no_supervisor_enable(irq));
        assert forall|h2: int| 0 <= h2 < CPU_NUM implies !#[trigger] r.is_enabled(
            crate::plic::s_context(h2),
            irq,
        ) by {
            assert(r.is_enabled(crate::plic::s_context(h2), irq) == p.is_enabled(crate::plic::s_context(h2), irq));
        }
    }
}

/// Switches the hart `hart` from its idle loop to the task `task`.
fn run_next(kernel: &mut Kernel, hart: usize, task: usize)
    requires
        old(kernel).pids.wf(),
        old(kernel).plic.wf(),
        old(kernel).processors@.len() == CPU_NUM,
        hart < CPU_NUM,
        old(kernel).live(task as int),
        crate::trap::usertrap::devices_in_range(old(kernel).devices(task as int)),
    ensures
        final(kernel).queue() == old(kernel).queue(),
        final(kernel).same_setup(old(kernel)),
        final(kernel).same_tasks_but(old(kernel), task as int),
        final(kernel).live(task as int),
        final(kernel).tcb(task as int) == old(kernel).tcb_with_status(task as int, TaskStatus::Running(hart)),
        final(kernel).same_harts_but(old(kernel), hart as int),
        final(kernel).processors@[hart as int] == switched_in(
            old(kernel).processors@[hart as int],
            task,
            old(kernel).tcb(task as int).inner.task_cx,
        ),
        final(kernel).plic@ == enable_handoff(old(kernel).plic@, old(kernel).devices(task as int), hart),
        final(kernel).timers@ == old(kernel).timers@,
        final(kernel).serials@ == old(kernel).serials@,
        final(kernel).ext_int_map@ == old(kernel).ext_int_map@,
{
    match kernel.pids.slot_mut(task) {
        Some(tcb) => {
            tcb.inner.task_status = TaskStatus::Running(hart);
            let next_task_cx = tcb.inner.task_cx;
            if let Some(trap_info) = &tcb.inner.user_trap_info {
                trap_info.enable_user_ext_int(&mut kernel.plic, hart);
            }
            let p = &mut kernel.processors[hart];
            TaskContext::switch(&mut p.registers, &mut p.idle_task_cx, &next_task_cx);
            p.current = Some(task);
        },
        None => {},
    }
}

} // verus!
