use vstd::prelude::*;
use std::collections::BTreeMap;
use crate::config::{Board, CPU_NUM};
use crate::plic::{s_context, u_context, Plic, IRQ_NUM};
use crate::task::pid::{PidAllocator, MAX_PID};
use crate::task::pool::TaskPool;
use crate::task::processor::Processor;
use crate::task::task::{KernelEntry, TaskControlBlock, TaskStatus};
use crate::timer::TimerMap;
use crate::trap::handoff::lists_device;
use crate::trap::usertrap::UserTrapInfo;
use crate::uart::{new_serials, serials_wf, BufferedSerial};

verus! {

/// The whole state of the kernel: the tasks, the ready queue, the harts,
/// their virtual timers, the registry of claimed devices, the image of the
/// interrupt controller and the serial ports. It is set up once, before any
/// hart schedules, and every operation of the kernel works on it.
pub struct Kernel {
    pub board: Board,
    pub entry: KernelEntry,
    pub pids: PidAllocator,
    pub pool: TaskPool,
    pub processors: Vec<Processor>,
    pub timers: Vec<TimerMap>,
    /// The registry of claimed devices: the owner of each claimed interrupt.
    pub ext_int_map: BTreeMap<u16, usize>,
    pub plic: Plic,
    pub serials: Vec<BufferedSerial>,
    /// The pipes that tasks have opened; their ends are files of the tasks.
    pub pipes: Vec<crate::fs::mail::MailRingBuffer>,
    /// The identifier of the first task, which adopts the children of every
    /// task that ends.
    pub initproc: Option<usize>,
}

/// The hart that a task with the status `status` runs on, if it runs.
pub open spec fn running_on(status: TaskStatus) -> Option<usize> {
    match status {
        TaskStatus::Running(h) => Some(h),
        _ => None,
    }
}

/// Whether no value occurs twice in `s`.
pub open spec fn distinct(s: Seq<usize>) -> bool {
    forall|i: int, j: int| 0 <= i < s.len() && 0 <= j < s.len() && i != j ==> s[i] != s[j]
}

/// Whether no device occurs twice in `devices`.
pub open spec fn distinct_devices(devices: Seq<(u16, bool)>) -> bool {
    forall|i: int, j: int|
        0 <= i < devices.len() && 0 <= j < devices.len() && i != j ==> devices[i].0 != devices[j].0
}

impl Kernel {
    /// Whether a task with the identifier `tid` exists.
    pub open spec fn live(&self, tid: int) -> bool {
        self.pids.contains(tid)
    }

    /// The task with the identifier `tid`.
    pub open spec fn tcb(&self, tid: int) -> TaskControlBlock {
        self.pids.task(tid)
    }

    /// The status of the task `tid`.
    pub open spec fn status(&self, tid: int) -> TaskStatus {
        self.tcb(tid).inner.task_status
    }

    /// The ready queue.
    pub open spec fn queue(&self) -> Seq<usize> {
        self.pool.queue()
    }

    /// The task that runs on the hart `hart`.
    pub open spec fn current(&self, hart: int) -> Option<usize> {
        self.processors@[hart].current
    }

    /// The devices that the task `tid` has claimed; none for a task that has
    /// not opted in to user-mode traps.
    pub open spec fn devices(&self, tid: int) -> Seq<(u16, bool)> {
        if self.tcb(tid).inner.user_trap_info.is_some() {
            self.tcb(tid).inner.user_trap_info.unwrap().devices@
        } else {
            Seq::empty()
        }
    }

    /// The tables have their sizes, and each part is well formed by itself.
    pub open spec fn wf_structure(&self) -> bool {
        &&& self.pids.wf()
        &&& self.processors@.len() == CPU_NUM
        &&& self.timers@.len() == CPU_NUM
        &&& forall|h: int| 0 <= h < CPU_NUM ==> (#[trigger] self.timers@[h]).wf()
        &&& self.plic.wf()
        &&& serials_wf(self.serials@)
        &&& self.pool.sleeping_tasks@ == Set::<usize>::empty()
        &&& forall|t: int| #[trigger] self.live(t) ==> self.task_wf(t)
    }

    /// The task `tid` is well formed by itself: its kernel stack is its
    /// own, its devices are ones the controller knows, its trap queue
    /// holds no more than its capacity, and every mail in its mailbox is
    /// complete.
    pub open spec fn task_wf(&self, tid: int) -> bool {
        &&& self.tcb(tid).kernel_stack.pid == tid
        &&& crate::trap::usertrap::devices_in_range(self.devices(tid))
        &&& self.tcb(tid).inner.user_trap_info.is_some() ==> self.tcb(
            tid,
        ).inner.user_trap_info.unwrap().records().len() <= crate::trap::usertrap::USER_TRAP_CAPACITY
        &&& forall|m: int|
            0 <= m < self.tcb(tid).inner.mail_box.inner.mails@.len() ==> !(
            #[trigger] self.tcb(tid).inner.mail_box.inner.mails@[m]).write_end_open()
    }

    /// Harts and tasks agree on who runs where: the task that a hart runs
    /// is running on that hart, and a task that is running on a hart is the
    /// one that this hart runs. So no task runs on two harts.
    pub open spec fn wf_running(&self) -> bool {
        &&& forall|h: int|
            0 <= h < CPU_NUM && (#[trigger] self.current(h)).is_some() ==> self.live(
                self.current(h).unwrap() as int,
            ) && self.status(self.current(h).unwrap() as int) == TaskStatus::Running(h as usize)
        &&& forall|t: int|
            self.live(t) && running_on(#[trigger] self.status(t)).is_some() ==> running_on(self.status(t)).unwrap()
                < CPU_NUM && self.current(running_on(self.status(t)).unwrap() as int) == Some(t as usize)
    }

    /// The ready queue holds exactly the tasks that are ready, each once.
    pub open spec fn wf_ready(&self) -> bool {
        &&& forall|j: int|
            0 <= j < self.queue().len() ==> self.live(#[trigger] self.queue()[j] as int) && self.status(
                self.queue()[j] as int,
            ) == TaskStatus::Ready
        &&& distinct(self.queue())
        &&& forall|t: int|
            self.live(t) && #[trigger] self.status(t) == TaskStatus::Ready ==> self.queue().contains(
                t as usize,
            )
    }

    /// The children of every task exist, are younger than it, name it as
    /// their parent, and are listed once; the first task exists as soon as
    /// any task does, has the identifier 1 and no parent; a task that has
    /// ended, other than the first, has handed over its children.
    pub open spec fn wf_family(&self) -> bool {
        &&& forall|t: int, i: int|
            self.live(t) && 0 <= i < self.tcb(t).inner.children@.len() ==> self.live(
                #[trigger] self.tcb(t).inner.children@[i] as int,
            ) && self.tcb(self.tcb(t).inner.children@[i] as int).inner.parent == Some(t as usize)
                && self.tcb(t).inner.children@[i] > t
        &&& forall|t: int| #[trigger] self.live(t) ==> distinct(self.tcb(t).inner.children@)
        &&& forall|t: int| #[trigger] self.live(t) ==> self.initproc.is_some()
        &&& self.initproc.is_some() ==> self.initproc == Some(1usize) && self.live(
            self.initproc.unwrap() as int,
        ) && self.tcb(self.initproc.unwrap() as int).inner.parent.is_none()
        &&& forall|t: int|
            self.live(t) && #[trigger] self.status(t) == TaskStatus::Zombie && Some(t as usize)
                != self.initproc ==> self.tcb(t).inner.children@.len() == 0
    }

    /// The registry of claims and the tasks agree: the owner of a claimed
    /// interrupt is a task that has not ended and lists the device, and
    /// every device that a task lists is registered for it, once. A task
    /// that has ended lists none.
    pub open spec fn wf_claims(&self) -> bool {
        &&& forall|irq: u16| #[trigger]
            self.ext_int_map@.contains_key(irq) ==> self.live(self.ext_int_map@[irq] as int)
                && lists_device(self.devices(self.ext_int_map@[irq] as int), irq as int)
        &&& forall|t: int, i: int|
            self.live(t) && 0 <= i < self.devices(t).len() ==> self.ext_int_map@.contains_key(
                (#[trigger] self.devices(t)[i]).0,
            ) && self.ext_int_map@[self.devices(t)[i].0] == t
        &&& forall|t: int| #[trigger] self.live(t) ==> distinct_devices(self.devices(t))
        &&& forall|t: int|
            self.live(t) && #[trigger] self.status(t) == TaskStatus::Zombie ==> self.devices(t).len() == 0
    }

    /// An interrupt reaches user mode only where its owner runs, and then
    /// reaches no supervisor context: if the controller has an interrupt
    /// enabled for the user context of a hart, the interrupt is claimed,
    /// its owner runs on that hart, and no supervisor context has it
    /// enabled.
    pub open spec fn wf_routing(&self) -> bool {
        forall|h: int, irq: int|
            0 <= h < CPU_NUM && 0 <= irq < IRQ_NUM && #[trigger] self.plic@.is_enabled(u_context(h), irq)
                ==> {
                &&& self.ext_int_map@.contains_key(irq as u16)
                &&& self.live(self.ext_int_map@[irq as u16] as int)
                &&& self.status(self.ext_int_map@[irq as u16] as int) == TaskStatus::Running(h as usize)
                &&& self.plic@.no_supervisor_enable(irq)
            }
    }

    /// Whether `self` has the tasks of `before`, but for the task `tid`.
    pub open spec fn same_tasks_but(&self, before: &Kernel, tid: int) -> bool {
        &&& self.pids.current == before.pids.current
        &&& self.pids.recycled@ == before.pids.recycled@
        &&& before.pids.bounded() ==> self.pids.bounded()
        &&& forall|t: int|
            0 <= t < before.pids.slots().len() && t != tid ==> #[trigger] self.pids.slots()[t]
                == before.pids.slots()[t]
    }

    /// Whether `self` has the harts of `before`, but for the hart `hart`.
    pub open spec fn same_harts_but(&self, before: &Kernel, hart: int) -> bool {
        &&& self.processors@.len() == before.processors@.len()
        &&& forall|h: int|
            0 <= h < before.processors@.len() && h != hart ==> #[trigger] self.processors@[h]
                == before.processors@[h]
    }

    /// Whether `self` has the board, the kernel addresses, the first task,
    /// the sleeping tasks and the pipes of `before`.
    pub open spec fn same_setup(&self, before: &Kernel) -> bool {
        &&& self.same_start(before)
        &&& self.pipes == before.pipes
    }

    /// Whether `self` has the board, the kernel addresses, the first task
    /// and the sleeping tasks of `before`.
    pub open spec fn same_start(&self, before: &Kernel) -> bool {
        &&& self.board == before.board
        &&& self.entry == before.entry
        &&& self.initproc == before.initproc
        &&& self.pool.sleeping_tasks@ == before.pool.sleeping_tasks@
    }

    /// The task `tid` with its status replaced by `status`.
    pub open spec fn tcb_with_status(&self, tid: int, status: TaskStatus) -> TaskControlBlock {
        TaskControlBlock {
            inner: crate::task::task::TaskControlBlockInner { task_status: status, ..self.tcb(tid).inner },
            ..self.tcb(tid)
        }
    }

    /// Whether `self` has the same tasks as `before`.
    pub open spec fn same_live(&self, before: &Kernel) -> bool {
        forall|t: int| #[trigger] self.live(t) == before.live(t)
    }

    /// Whether every task of `self` has the status it has in `before`.
    pub open spec fn same_status(&self, before: &Kernel) -> bool {
        forall|t: int| #[trigger] self.live(t) ==> self.status(t) == before.status(t)
    }

    /// Whether every task of `self` has the parent and the children it has in `before`.
    pub open spec fn same_family(&self, before: &Kernel) -> bool {
        &&& self.initproc == before.initproc
        &&& forall|t: int| #[trigger]
            self.live(t) ==> self.tcb(t).inner.children@ == before.tcb(t).inner.children@ && self.tcb(
                t,
            ).inner.parent == before.tcb(t).inner.parent
    }

    /// Whether every task of `self` has the devices it has in `before`, and
    /// the registry of claims is that of `before`.
    pub open spec fn same_claims(&self, before: &Kernel) -> bool {
        &&& self.ext_int_map@ == before.ext_int_map@
        &&& forall|t: int| #[trigger] self.live(t) ==> self.devices(t) == before.devices(t)
    }

    /// Whether every hart of `self` runs what it runs in `before`.
    pub open spec fn same_currents(&self, before: &Kernel) -> bool {
        &&& self.processors@.len() == before.processors@.len()
        &&& forall|h: int| 0 <= h < CPU_NUM ==> #[trigger] self.current(h) == before.current(h)
    }

    /// Whether the controller of `self` has the enable bits of that of `before`.
    pub open spec fn same_bits(&self, before: &Kernel) -> bool {
        forall|c: int, i: int| #[trigger] self.plic@.is_enabled(c, i) == before.plic@.is_enabled(c, i)
    }

    /// Whether every task of `self` is as well formed by itself as in `before`.
    pub open spec fn same_task_wf(&self, before: &Kernel) -> bool {
        forall|t: int| #[trigger] self.live(t) ==> (before.task_wf(t) ==> self.task_wf(t))
    }

    /// The agreement of harts and tasks carries over to a kernel with the
    /// same tasks, the same statuses and the same running tasks.
    pub proof fn lemma_frame_running(&self, before: &Kernel)
        requires
            before.wf_running(),
            self.same_live(before),
            self.same_status(before),
            self.same_currents(before),
        ensures
            self.wf_running(),
    {
        assert forall|h: int| 0 <= h < CPU_NUM && (#[trigger] self.current(h)).is_some() implies self.live(
            self.current(h).unwrap() as int,
        ) && self.status(self.current(h).unwrap() as int) == TaskStatus::Running(h as usize) by {
            assert(before.current(h).is_some());
            assert(before.live(before.current(h).unwrap() as int));
        }
        assert forall|t: int|
            self.live(t) && running_on(#[trigger] self.status(t)).is_some() implies running_on(
            self.status(t),
        ).unwrap() < CPU_NUM && self.current(running_on(self.status(t)).unwrap() as int) == Some(
            t as usize,
        ) by {
            assert(before.live(t));
            assert(running_on(before.status(t)).is_some());
        }
    }

    /// The agreement of ready queue and tasks carries over to a kernel with
    /// the same tasks, the same statuses and the same ready queue.
    pub proof fn lemma_frame_ready(&self, before: &Kernel)
        requires
            before.wf_ready(),
            self.same_live(before),
            self.same_status(before),
            self.queue() == before.queue(),
        ensures
            self.wf_ready(),
    {
        assert forall|j: int| 0 <= j < self.queue().len() implies self.live(#[trigger] self.queue()[j] as int)
            && self.status(self.queue()[j] as int) == TaskStatus::Ready by {
            assert(before.live(before.queue()[j] as int));
        }
        assert forall|t: int|
            self.live(t) && #[trigger] self.status(t) == TaskStatus::Ready implies self.queue().contains(
            t as usize,
        ) by {
            assert(before.live(t));
            assert(before.status(t) == TaskStatus::Ready);
        }
    }

    /// The family relations carry over to a kernel with the same tasks and
    /// the same parents and children, in which no further task has ended.
    pub proof fn lemma_frame_family(&self, before: &Kernel)
        requires
            before.wf_family(),
            self.same_live(before),
            self.same_family(before),
            forall|t: int|
                self.live(t) && #[trigger] self.status(t) == TaskStatus::Zombie ==> before.status(t)
                    == TaskStatus::Zombie,
        ensures
            self.wf_family(),
    {
        assert forall|t: int, i: int|
            self.live(t) && 0 <= i < self.tcb(t).inner.children@.len() implies self.live(
            #[trigger] self.tcb(t).inner.children@[i] as int,
        ) && self.tcb(self.tcb(t).inner.children@[i] as int).inner.parent == Some(t as usize)
            && self.tcb(t).inner.children@[i] > t by {
            assert(before.live(t));
            let c = before.tcb(t).inner.children@[i] as int;
            assert(before.live(c));
            assert(self.live(c));
        }
        assert forall|t: int| #[trigger] self.live(t) implies distinct(self.tcb(t).inner.children@) by {
            assert(before.live(t));
        }
        assert forall|t: int| #[trigger] self.live(t) implies self.initproc.is_some() by {
            assert(before.live(t));
        }
        if self.initproc.is_some() {
            assert(before.live(before.initproc.unwrap() as int));
            assert(self.live(self.initproc.unwrap() as int));
        }
        assert forall|t: int|
            self.live(t) && #[trigger] self.status(t) == TaskStatus::Zombie && Some(t as usize)
                != self.initproc implies self.tcb(t).inner.children@.len() == 0 by {
            assert(before.live(t));
            assert(before.status(t) == TaskStatus::Zombie);
        }
    }

    /// The agreement of registry and tasks carries over to a kernel with
    /// the same tasks, the same devices and the same registry, in which no
    /// further task has ended.
    pub proof fn lemma_frame_claims(&self, before: &Kernel)
        requires
            before.wf_claims(),
            self.same_live(before),
            self.same_claims(before),
            forall|t: int|
                self.live(t) && #[trigger] self.status(t) == TaskStatus::Zombie ==> before.status(t)
                    == TaskStatus::Zombie,
        ensures
            self.wf_claims(),
    {
        assert forall|irq: u16| #[trigger] self.ext_int_map@.contains_key(irq) implies self.live(
            self.ext_int_map@[irq] as int,
        ) && lists_device(self.devices(self.ext_int_map@[irq] as int), irq as int) by {
            assert(before.ext_int_map@.contains_key(irq));
            let o = before.ext_int_map@[irq] as int;
            assert(before.live(o));
            assert(self.live(o));
        }
        assert forall|t: int, i: int|
            self.live(t) && 0 <= i < self.devices(t).len() implies self.ext_int_map@.contains_key(
            (#[trigger] self.devices(t)[i]).0,
        ) && self.ext_int_map@[self.devices(t)[i].0] == t by {
            assert(before.live(t));
            assert(before.devices(t)[i] == self.devices(t)[i]);
        }
        assert forall|t: int| #[trigger] self.live(t) implies distinct_devices(self.devices(t)) by {
            assert(before.live(t));
        }
        assert forall|t: int|
            self.live(t) && #[trigger] self.status(t) == TaskStatus::Zombie implies self.devices(t).len()
            == 0 by {
            assert(before.live(t));
            assert(before.status(t) == TaskStatus::Zombie);
        }
    }

    /// The routing of interrupts carries over to a kernel with the same
    /// tasks, the same statuses, the same registry and the same enable bits.
    pub proof fn lemma_frame_routing(&self, before: &Kernel)
        requires
            before.wf_routing(),
            self.same_live(before),
            self.same_status(before),
            self.ext_int_map@ == before.ext_int_map@,
            self.same_bits(before),
        ensures
            self.wf_routing(),
    {
        self.lemma_frame_routing_fewer(before);
    }

    /// The routing of interrupts carries over to a kernel with the same
    /// tasks, the same statuses and the same registry, whose controller has
    /// the same bits for the user contexts and no further bit for a
    /// supervisor context.
    pub proof fn lemma_frame_routing_fewer(&self, before: &Kernel)
        requires
            before.wf_routing(),
            self.same_live(before),
            self.same_status(before),
            self.ext_int_map@ == before.ext_int_map@,
            forall|h: int, i: int|
                0 <= h < CPU_NUM ==> #[trigger] self.plic@.is_enabled(u_context(h), i) == before.plic@.is_enabled(
                    u_context(h),
                    i,
                ),
            forall|h: int, i: int|
                0 <= h < CPU_NUM && #[trigger] self.plic@.is_enabled(s_context(h), i)
                    ==> before.plic@.is_enabled(s_context(h), i),
        ensures
            self.wf_routing(),
    {
        assert forall|h: int, irq: int|
            0 <= h < CPU_NUM && 0 <= irq < IRQ_NUM && #[trigger] self.plic@.is_enabled(
                u_context(h),
                irq,
            ) implies {
            &&& self.ext_int_map@.contains_key(irq as u16)
            &&& self.live(self.ext_int_map@[irq as u16] as int)
            &&& self.status(self.ext_int_map@[irq as u16] as int) == TaskStatus::Running(h as usize)
            &&& self.plic@.no_supervisor_enable(irq)
        } by {
            assert(before.plic@.is_enabled(u_context(h), irq));
            let o = before.ext_int_map@[irq as u16] as int;
            assert(before.live(o));
            assert(self.live(o));
            assert forall|h2: int| 0 <= h2 < CPU_NUM implies !#[trigger] self.plic@.is_enabled(
                s_context(h2),
                irq,
            ) by {
                assert(!before.plic@.is_enabled(s_context(h2), irq));
            }
        }
    }

    /// The routing of interrupts holds in a kernel whose controller has no
    /// interrupt enabled for any user context.
    pub proof fn lemma_routing_without_user(&self)
        requires
            forall|h: int, i: int| 0 <= h < CPU_NUM ==> !#[trigger] self.plic@.is_enabled(u_context(h), i),
        ensures
            self.wf_routing(),
    {
    }

    /// The well-formedness of the parts carries over to a kernel whose
    /// parts are well formed and whose tasks are as well formed by
    /// themselves as before.
    pub proof fn lemma_frame_structure(&self, before: &Kernel)
        requires
            before.wf_structure(),
            self.pids.wf(),
            self.processors@.len() == CPU_NUM,
            self.timers@.len() == CPU_NUM,
            forall|h: int| 0 <= h < CPU_NUM ==> (#[trigger] self.timers@[h]).wf(),
            self.plic.wf(),
            serials_wf(self.serials@),
            self.pool.sleeping_tasks@ == Set::<usize>::empty(),
            self.same_live(before),
            self.same_task_wf(before),
        ensures
            self.wf_structure(),
    {
        assert forall|t: int| #[trigger] self.live(t) implies self.task_wf(t) by {
            assert(before.live(t));
        }
    }

    /// Whether `self` differs from `before` in nothing that the
    /// well-formedness of the kernel speaks of, but for what lies inside
    /// tasks, timers and serial ports and is well formed as before.
    pub open spec fn same_shape(&self, before: &Kernel) -> bool {
        &&& self.pids.wf()
        &&& self.processors@.len() == CPU_NUM
        &&& self.timers@.len() == CPU_NUM
        &&& forall|h: int| 0 <= h < CPU_NUM ==> (#[trigger] self.timers@[h]).wf()
        &&& self.plic.wf()
        &&& serials_wf(self.serials@)
        &&& self.pool.sleeping_tasks@ == Set::<usize>::empty()
        &&& self.queue() == before.queue()
        &&& self.same_live(before)
        &&& self.same_status(before)
        &&& self.same_family(before)
        &&& self.same_claims(before)
        &&& self.same_currents(before)
        &&& self.same_bits(before)
        &&& self.same_task_wf(before)
    }

    /// A kernel of the same shape as a well-formed one is well formed.
    pub proof fn lemma_same_shape(&self, before: &Kernel)
        requires
            before.wf(),
            self.same_shape(before),
        ensures
            self.wf(),
    {
        self.lemma_frame_structure(before);
        self.lemma_frame_running(before);
        self.lemma_frame_ready(before);
        self.lemma_frame_family(before);
        self.lemma_frame_claims(before);
        self.lemma_frame_routing(before);
    }

    /// Whether `self` is `before` but for what an attempt to deliver a trap
    /// record may touch without delivering, and but for the interrupt
    /// controller: every task has its pending trap records and its
    /// devices, and everything else is as before.
    pub open spec fn same_records(&self, before: &Kernel) -> bool {
        &&& self.same_setup(before)
        &&& self.pool == before.pool
        &&& self.processors == before.processors
        &&& self.timers == before.timers
        &&& self.serials == before.serials
        &&& self.ext_int_map == before.ext_int_map
        &&& self.pids.current == before.pids.current
        &&& self.pids.recycled@ == before.pids.recycled@
        &&& before.pids.bounded() ==> self.pids.bounded()
        &&& self.same_live(before)
        &&& forall|t: int| #[trigger]
            self.live(t) ==> {
                &&& self.tcb(t).pid == before.tcb(t).pid
                &&& self.tcb(t).kernel_stack == before.tcb(t).kernel_stack
                &&& self.tcb(t).inner == (crate::task::task::TaskControlBlockInner {
                    user_trap_info: self.tcb(t).inner.user_trap_info,
                    ..before.tcb(t).inner
                })
                &&& self.tcb(t).inner.user_trap_info.is_some() == before.tcb(t).inner.user_trap_info.is_some()
                &&& self.tcb(t).inner.user_trap_info.is_some() ==> {
                    &&& self.tcb(t).inner.user_trap_info.unwrap().devices == before.tcb(
                        t,
                    ).inner.user_trap_info.unwrap().devices
                    &&& self.tcb(t).inner.user_trap_info.unwrap().records() == before.tcb(
                        t,
                    ).inner.user_trap_info.unwrap().records()
                }
            }
    }

    /// Everything that holds of the kernel between any two of its operations.
    pub open spec fn wf(&self) -> bool {
        &&& self.wf_structure()
        &&& self.wf_running()
        &&& self.wf_ready()
        &&& self.wf_family()
        &&& self.wf_claims()
        &&& self.wf_routing()
    }

    /// A kernel for `board` without any task: no hart runs anything, no
    /// timer is set, no device is claimed, and the interrupt controller has
    /// nothing enabled.
    pub fn new(board: Board, entry: KernelEntry) -> (kernel: Kernel)
        ensures
            kernel.wf(),
            kernel.board == board,
            kernel.entry == entry,
            kernel.initproc.is_none(),
            kernel.pids.current == 1,
            forall|t: int| !kernel.live(t),
            kernel.queue() == Seq::<usize>::empty(),
            forall|h: int| 0 <= h < CPU_NUM ==> (#[trigger] kernel.processors@[h]).is_fresh(),
            forall|h: int|
                0 <= h < CPU_NUM ==> (#[trigger] kernel.timers@[h]).map@ == Map::<usize, usize>::empty()
                    && kernel.timers@[h].programmed.is_none(),
            forall|i: int|
                0 <= i < crate::uart::SERIAL_NUM ==> (#[trigger] kernel.serials@[i])@
                    == crate::uart::SerialState::fresh(),
            kernel.pool.sleeping_tasks@ == Set::<usize>::empty(),
            kernel.ext_int_map@ == Map::<u16, usize>::empty(),
            kernel.plic@.ops == Seq::<crate::plic::PlicOp>::empty(),
            forall|c: int, i: int| !kernel.plic@.is_enabled(c, i),
            forall|c: int| 0 <= c < crate::plic::CONTEXT_NUM ==> kernel.plic@.threshold[c] == 0,
            forall|i: int| 0 <= i < IRQ_NUM ==> kernel.plic@.priority[i] == 0,
            kernel.pipes@.len() == 0,
    {
        let mut processors: Vec<Processor> = Vec::new();
        let mut timers: Vec<TimerMap> = Vec::new();
        let mut h: usize = 0;
        while h < CPU_NUM
            invariant
                h <= CPU_NUM,
                processors@.len() == h,
                timers@.len() == h,
                forall|k: int| 0 <= k < h ==> (#[trigger] processors@[k]).is_fresh(),
                forall|k: int|
                    0 <= k < h ==> (#[trigger] timers@[k]).wf() && timers@[k].map@ == Map::<
                        usize,
                        usize,
                    >::empty() && timers@[k].programmed.is_none(),
            decreases CPU_NUM - h,
        {
            processors.push(Processor::new());
            timers.push(TimerMap::new());
            h += 1;
        }
        Kernel {
            board,
            entry,
            pids: PidAllocator::new(),
            pool: TaskPool::new(),
            processors,
            timers,
            ext_int_map: BTreeMap::new(),
            plic: Plic::new(),
            serials: new_serials(),
            pipes: Vec::new(),
            initproc: None,
        }
    }
}

} // verus!
