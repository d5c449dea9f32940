use vstd::prelude::*;
use std::collections::BTreeMap;
use crate::config::{KERNEL_STACK_SIZE, PAGE_SIZE, TRAMPOLINE};
use crate::kernel::Kernel;
use crate::task::task::{TaskControlBlock, TaskStatus};

verus! {

/// The largest task identifier: the last whose kernel stack lies within
/// the address space, below the trampoline.
pub const MAX_PID: usize = (TRAMPOLINE - KERNEL_STACK_SIZE) / (KERNEL_STACK_SIZE + PAGE_SIZE);

/// The identifiers up to `MAX_PID` are those whose kernel stack lies within
/// the address space.
pub proof fn lemma_stack_fits(app_id: usize)
    ensures
        app_id <= MAX_PID <==> app_id * (KERNEL_STACK_SIZE + PAGE_SIZE) + KERNEL_STACK_SIZE <= TRAMPOLINE,
{
    let stride: int = (KERNEL_STACK_SIZE + PAGE_SIZE) as int;
    let room: int = (TRAMPOLINE - KERNEL_STACK_SIZE) as int;
    assert(app_id <= room / stride <==> app_id * stride <= room) by (nonlinear_arith)
        requires
            stride > 0,
            room >= 0,
            app_id >= 0,
    ;
}

/// The identifier of a task. Identifiers are positive, and none is given out twice.
#[derive(Clone, Copy, Debug, PartialEq, Eq, Structural)]
pub struct PidHandle(pub usize);

/// The top of the kernel stack of the task `app_id`: the stacks lie below
/// the trampoline, one page apart from each other.
pub open spec fn spec_stack_top(app_id: usize) -> int {
    TRAMPOLINE - app_id * (KERNEL_STACK_SIZE + PAGE_SIZE)
}

/// There is a largest identifier, and every identifier fits a signed
/// number, also when it is shifted by four bits.
pub proof fn lemma_pid_range()
    ensures
        1 <= MAX_PID,
        MAX_PID * 16 <= usize::MAX,
        MAX_PID < isize::MAX,
{
    let room: int = (TRAMPOLINE - KERNEL_STACK_SIZE) as int;
    assert(usize::MAX >= 0xffff_ffff);
    assert(isize::MAX * 2 + 1 == usize::MAX);
    assert(1 <= room / 0x5000 && (room / 0x5000) * 16 <= room / 0x500) by (nonlinear_arith)
        requires
            room >= 0x5000,
    ;
}

/// The bottom and the top of the kernel stack of the task `app_id`.
pub fn kernel_stack_position(app_id: usize) -> (pos: (usize, usize))
    requires
        app_id <= MAX_PID,
    ensures
        pos.1 == spec_stack_top(app_id),
        pos.0 == spec_stack_top(app_id) - KERNEL_STACK_SIZE,
{
    let stride: usize = KERNEL_STACK_SIZE + PAGE_SIZE;
    proof {
        lemma_stack_fits(app_id);
    }
    let top = TRAMPOLINE - app_id * stride;
    let bottom = top - KERNEL_STACK_SIZE;
    (bottom, top)
}

/// The kernel stack of one task.
#[derive(Clone, Copy, Debug, PartialEq, Eq, Structural)]
pub struct KernelStack {
    pub pid: usize,
}

impl KernelStack {
    /// The kernel stack of the task that `pid_handle` names.
    pub fn new(pid_handle: &PidHandle) -> (stack: KernelStack)
        ensures
            stack.pid == pid_handle.0,
    {
        KernelStack { pid: pid_handle.0 }
    }

    /// The address just above the stack.
    pub fn get_top(&self) -> (top: usize)
        requires
            self.pid <= MAX_PID,
        ensures
            top == spec_stack_top(self.pid),
    {
        let (_, kernel_stack_top) = kernel_stack_position(self.pid);
        kernel_stack_top
    }
}

/// Calls `BTreeMap::get_mut`. Believed of it, not proved: it hands out the
/// value that the map holds for `key`, to be changed in place, and no other
/// entry changes; for a key without an entry it returns `None`.
#[verifier::external_body]
fn table_get_mut(table: &mut BTreeMap<usize, TaskControlBlock>, key: usize) -> (task: Option<
    &mut TaskControlBlock,
>)
    ensures
        !old(table)@.contains_key(key) ==> task.is_none() && final(table)@ == old(table)@,
        old(table)@.contains_key(key) ==> task.is_some() && *task.unwrap() == old(table)@[key] && final(table)@
            == old(table)@.insert(key, *final(task.unwrap())),
{
    table.get_mut(&key)
}

/// Hands out task identifiers and holds the table of the tasks by
/// identifier. A task is in the table from its creation until it is reaped.
pub struct PidAllocator {
    pub current: usize,
    pub recycled: Vec<usize>,
    pub task_table: BTreeMap<usize, TaskControlBlock>,
}

impl PidAllocator {
    /// The table by identifier: for each identifier below the next one to
    /// be given out, the task that has it, if there is one.
    pub open spec fn slots(&self) -> Seq<Option<TaskControlBlock>> {
        Seq::new(
            self.current as nat,
            |i: int|
                if self.task_table@.contains_key(i as usize) {
                    Some(self.task_table@[i as usize])
                } else {
                    None
                },
        )
    }

    /// Whether every task in the table has an identifier that has been
    /// given out, and none the identifier 0.
    pub open spec fn bounded(&self) -> bool {
        forall|key: usize| #[trigger] self.task_table@.contains_key(key) ==> 0 < key < self.current
    }

    /// Every task in the table has an identifier that has been given out;
    /// none has the identifier 0; a task stands under its own identifier;
    /// and no identifier waits to be given out again.
    pub open spec fn wf(&self) -> bool {
        &&& 1 <= self.current <= MAX_PID + 1
        &&& self.bounded()
        &&& self.recycled@.len() == 0
        &&& forall|i: int|
            0 <= i < self.slots().len() && (#[trigger] self.slots()[i]).is_some() ==> self.slots()[i].unwrap().pid.0
                == i
    }

    /// Whether a task with the identifier `pid` is in the table.
    pub open spec fn contains(&self, pid: int) -> bool {
        0 <= pid < self.slots().len() && self.slots()[pid].is_some()
    }

    /// The task with the identifier `pid`.
    pub open spec fn task(&self, pid: int) -> TaskControlBlock
        recommends
            self.contains(pid),
    {
        self.slots()[pid].unwrap()
    }

    /// An allocator that has given out nothing yet. The first identifier will be 1.
    pub fn new() -> (a: PidAllocator)
        ensures
            a.wf(),
            a.current == 1,
            forall|pid: int| !a.contains(pid),
    {
        PidAllocator { current: 1, recycled: Vec::new(), task_table: BTreeMap::new() }
    }

    /// The task with the identifier `pid`, if there is one, to be changed
    /// in place.
    pub fn slot_mut(&mut self, pid: usize) -> (task: Option<&mut TaskControlBlock>)
        ensures
            final(self).current == old(self).current,
            final(self).recycled == old(self).recycled,
            old(self).bounded() ==> final(self).bounded(),
            task.is_some() == old(self).task_table@.contains_key(pid),
            task.is_some() ==> *task.unwrap() == old(self).task_table@[pid] && final(self).task_table@ == old(
                self,
            ).task_table@.insert(pid, *final(task.unwrap())),
            task.is_none() ==> final(self).task_table@ == old(self).task_table@ && final(self).slots() =~= old(
                self,
            ).slots(),
            pid < old(self).current ==> match task {
                Some(tcb) => old(self).slots()[pid as int] == Some(*tcb) && final(self).slots() =~= old(
                    self,
                ).slots().update(pid as int, Some(*final(tcb))),
                None => old(self).slots()[pid as int].is_none(),
            },
    {
        table_get_mut(&mut self.task_table, pid)
    }

    /// The task with the identifier `pid`, if there is one.
    pub fn slot(&self, pid: usize) -> (task: Option<&TaskControlBlock>)
        ensures
            task.is_some() == self.task_table@.contains_key(pid),
            task.is_some() ==> *task.unwrap() == self.task_table@[pid],
            pid < self.current ==> match task {
                Some(tcb) => self.slots()[pid as int] == Some(*tcb),
                None => self.slots()[pid as int].is_none(),
            },
    {
        broadcast use vstd::std_specs::btree::group_btree_axioms;

        self.task_table.get(&pid)
    }

    /// Whether another identifier can be given out.
    pub fn has_free(&self) -> (r: bool)
        requires
            self.wf(),
        ensures
            r == (self.current <= MAX_PID),
    {
        self.current <= MAX_PID
    }

    /// Gives out the next identifier, one larger than the last.
    pub fn alloc_pid(&mut self) -> (handle: PidHandle)
        requires
            old(self).wf(),
            old(self).current <= MAX_PID,
        ensures
            final(self).wf(),
            handle.0 == old(self).current,
            final(self).current == old(self).current + 1,
            final(self).slots() == old(self).slots().push(None),
            final(self).task_table@ == old(self).task_table@,
            final(self).recycled@ == old(self).recycled@,
    {
        let pid = match self.recycled.pop() {
            Some(pid) => pid,
            None => {
                self.current += 1;
                self.current - 1
            },
        };
        assert(self.recycled@ =~= old(self).recycled@);
        assert(self.slots() =~= old(self).slots().push(None));
        PidHandle(pid)
    }

    /// Enters a task into the table under `pid`. The call fails, gives the
    /// task back with `pid`, and changes nothing, when `pid` has not been
    /// given out, is not the task's own identifier, or has a task already.
    pub fn add_task(&mut self, pid: usize, task: TaskControlBlock) -> (res: Result<(), (usize, TaskControlBlock)>)
        requires
            old(self).wf(),
        ensures
            final(self).wf(),
            final(self).current == old(self).current,
            final(self).recycled == old(self).recycled,
            (0 < pid < old(self).current && task.pid.0 == pid && !old(self).contains(pid as int)) ==> res.is_ok()
                && final(self).slots() == old(self).slots().update(pid as int, Some(task)),
            !(0 < pid < old(self).current && task.pid.0 == pid && !old(self).contains(pid as int)) ==> res
                == Err::<(), (usize, TaskControlBlock)>((pid, task)) && final(self).slots() == old(self).slots(),
    {
        broadcast use vstd::std_specs::btree::group_btree_axioms;

        if pid == 0 || pid >= self.current || task.pid.0 != pid {
            return Err((pid, task));
        }
        if self.task_table.contains_key(&pid) {
            return Err((pid, task));
        }
        self.put(task);
        Ok(())
    }

    /// Puts a task into the table under its own identifier, which has been
    /// given out, in place of the task that stood there, if any.
    pub fn put(&mut self, task: TaskControlBlock)
        requires
            0 < task.pid.0 < old(self).current,
        ensures
            final(self).current == old(self).current,
            final(self).recycled == old(self).recycled,
            final(self).task_table@ == old(self).task_table@.insert(task.pid.0, task),
            final(self).slots() == old(self).slots().update(task.pid.0 as int, Some(task)),
            old(self).bounded() ==> final(self).bounded(),
            old(self).wf() ==> final(self).wf(),
    {
        broadcast use vstd::std_specs::btree::group_btree_axioms;

        let pid = task.pid.0;
        self.task_table.insert(pid, task);
        assert(self.slots() =~= old(self).slots().update(pid as int, Some(task)));
    }

    /// Takes the task `pid` out of the table and returns it. Its identifier
    /// is not given out again.
    pub fn dealloc(&mut self, pid: usize) -> (task: TaskControlBlock)
        requires
            old(self).wf(),
            old(self).contains(pid as int),
        ensures
            final(self).wf(),
            final(self).current == old(self).current,
            final(self).recycled == old(self).recycled,
            task == old(self).task(pid as int),
            final(self).slots() == old(self).slots().update(pid as int, None),
    {
        broadcast use vstd::std_specs::btree::group_btree_axioms;

        let task = self.task_table.remove(&pid);
        assert(self.slots() =~= old(self).slots().update(pid as int, None));
        task.unwrap()
    }
}

/// Gives out the next task identifier.
pub fn pid_alloc(kernel: &mut Kernel) -> (handle: PidHandle)
    requires
        old(kernel).wf(),
        old(kernel).pids.current <= MAX_PID,
    ensures
        final(kernel).wf(),
        handle.0 == old(kernel).pids.current,
        final(kernel).pids.current == old(kernel).pids.current + 1,
        final(kernel).pids.slots() == old(kernel).pids.slots().push(None),
        final(kernel).pids.recycled@ == old(kernel).pids.recycled@,
        final(kernel).same_setup(old(kernel)),
        final(kernel).queue() == old(kernel).queue(),
        final(kernel).processors@ == old(kernel).processors@,
        final(kernel).timers@ == old(kernel).timers@,
        final(kernel).serials@ == old(kernel).serials@,
        final(kernel).ext_int_map@ == old(kernel).ext_int_map@,
        final(kernel).plic@ == old(kernel).plic@,
{
    let handle = kernel.pids.alloc_pid();
    proof {
        let old_k = *old(kernel);
        assert(kernel.same_live(&old_k)) by {
            assert forall|t: int| #[trigger] kernel.live(t) == old_k.live(t) by {
                if 0 <= t < old_k.pids.slots().len() {
                    assert(kernel.pids.slots()[t] == old_k.pids.slots()[t]);
                }
            }
        }
        assert forall|t: int| #[trigger] kernel.live(t) implies kernel.tcb(t) == old_k.tcb(t) by {
            assert(old_k.live(t));
        }
        assert(kernel.same_task_wf(&old_k));
        kernel.lemma_frame_structure(&old_k);
        assert(kernel.same_status(&old_k));
        assert(kernel.same_currents(&old_k));
        kernel.lemma_frame_running(&old_k);
        kernel.lemma_frame_ready(&old_k);
        assert(kernel.same_family(&old_k));
        kernel.lemma_frame_family(&old_k);
        assert(kernel.same_claims(&old_k));
        kernel.lemma_frame_claims(&old_k);
        assert(kernel.same_bits(&old_k));
        kernel.lemma_frame_routing(&old_k);
    }
    handle
}

/// Enters a task into the table of tasks under its identifier, which must
/// have been given out and have no task yet. Nothing else changes; it is
/// for the caller to queue the task.
pub fn add_task_2_map(kernel: &mut Kernel, pid: usize, task: TaskControlBlock)
    requires
        old(kernel).pids.wf(),
        0 < pid < old(kernel).pids.current,
        task.pid.0 == pid,
        !old(kernel).pids.contains(pid as int),
    ensures
        final(kernel).pids.wf(),
        final(kernel).pids.current == old(kernel).pids.current,
        final(kernel).pids.recycled == old(kernel).pids.recycled,
        final(kernel).pids.slots() == old(kernel).pids.slots().update(pid as int, Some(task)),
        final(kernel).same_setup(old(kernel)),
        final(kernel).pool == old(kernel).pool,
        final(kernel).processors == old(kernel).processors,
        final(kernel).timers == old(kernel).timers,
        final(kernel).serials == old(kernel).serials,
        final(kernel).ext_int_map == old(kernel).ext_int_map,
        final(kernel).plic == old(kernel).plic,
{
    let _ = kernel.pids.add_task(pid, task);
}

/// Looks a task up by its identifier, for delivery to it: the identifier
/// itself if a task has it and has not ended, otherwise `None`.
pub fn find_task(kernel: &Kernel, pid: usize) -> (task: Option<usize>)
    ensures
        task == (if kernel.live(pid as int) && kernel.status(pid as int) != TaskStatus::Zombie {
            Some(pid)
        } else {
            None
        }),
{
    if pid < kernel.pids.current {
        match kernel.pids.slot(pid) {
            Some(tcb) => {
                if tcb.inner.is_zombie() {
                    None
                } else {
                    Some(pid)
                }
            },
            None => None,
        }
    } else {
        None
    }
}

} // verus!
