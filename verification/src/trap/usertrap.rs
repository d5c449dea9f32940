use vstd::prelude::*;
use heapless::spsc::Queue;
use std::collections::BTreeMap;
use crate::config::CPU_NUM;
use crate::kernel::Kernel;
use crate::plic::{Plic, PlicState, IRQ_NUM};
use crate::task::processor::same_but_inner;
use crate::task::task::{TaskControlBlockInner, TaskStatus};
use crate::trap::handoff::{lemma_disable_handoff, lemma_enable_handoff, steered_to_supervisor, steered_to_user};

verus! {

/// Number of slots of a user-trap queue. One slot always stays empty, so a
/// queue holds one record less.
pub const MAX_USER_TRAP_NUM: usize = 128;

/// Number of records a user-trap queue can hold.
pub const USER_TRAP_CAPACITY: usize = 127;

/// Cause of a record that announces a virtual timer.
pub const CAUSE_USER_TIMER: usize = 4;

/// Cause of a record that announces an external interrupt.
pub const CAUSE_USER_EXTERNAL: usize = 8;

/// The queue of trap records of one task, as `(cause, message)` pairs.
pub type UserTrapQueue = Queue<(usize, usize), 128>;

/// `heapless::spsc::Queue`, taken as it is: what a queue holds is known
/// only through `queue_records`.
#[verifier::external_type_specification]
#[verifier::external_body]
#[verifier::reject_recursive_types(T)]
pub struct ExQueue<T, const N: usize>(Queue<T, N>);

/// The `(cause, message)` pairs that a queue holds, the oldest first.
pub uninterp spec fn queue_records(queue: Queue<(usize, usize), 128>) -> Seq<(usize, usize)>;

/// `heapless::spsc::Queue::new`: a queue that holds nothing.
#[verifier::external_body]
fn queue_new() -> (queue: Queue<(usize, usize), 128>)
    ensures
        queue_records(queue) == Seq::<(usize, usize)>::empty(),
{
    Queue::new()
}

/// `heapless::spsc::Queue::enqueue`: appends the pair behind the others and tells so, unless
/// the queue already holds one pair less than it has slots; then the queue
/// stays as it is.
#[verifier::external_body]
fn queue_enqueue(queue: &mut Queue<(usize, usize), 128>, item: (usize, usize)) -> (stored: bool)
    ensures
        stored == (queue_records(*old(queue)).len() < USER_TRAP_CAPACITY),
        stored ==> queue_records(*final(queue)) == queue_records(*old(queue)).push(item),
        !stored ==> queue_records(*final(queue)) == queue_records(*old(queue)),
{
    queue.enqueue(item).is_ok()
}

/// `heapless::spsc::Queue::dequeue`: takes the oldest pair out, or returns `None` and leaves
/// the queue alone when it is empty.
#[verifier::external_body]
fn queue_dequeue(queue: &mut Queue<(usize, usize), 128>) -> (item: Option<(usize, usize)>)
    ensures
        queue_records(*old(queue)).len() == 0 ==> item.is_none() && queue_records(*final(queue))
            == queue_records(*old(queue)),
        queue_records(*old(queue)).len() > 0 ==> item == Some(queue_records(*old(queue))[0])
            && queue_records(*final(queue)) == queue_records(*old(queue)).drop_first(),
{
    queue.dequeue()
}

/// `heapless::spsc::Queue::len`: the number of pairs in the queue, which never exceeds its
/// capacity.
#[verifier::external_body]
fn queue_len(queue: &Queue<(usize, usize), 128>) -> (len: usize)
    ensures
        len == queue_records(*queue).len(),
        len <= USER_TRAP_CAPACITY,
{
    queue.len()
}

/// `heapless::spsc::Queue::clone`: a second queue with the same pairs in the same order.
#[verifier::external_body]
fn queue_clone(queue: &Queue<(usize, usize), 128>) -> (copy: Queue<(usize, usize), 128>)
    ensures
        queue_records(copy) == queue_records(*queue),
{
    queue.clone()
}

/// One event for a task's user-mode trap handler.
///
/// A `cause` whose low four bits are zero is a message from the task
/// `cause >> 4`; `cause == 4` is a virtual timer, with the time in
/// `message`; `cause == 8` is an external interrupt, with its number in
/// `message`.
#[derive(Clone, Copy, Debug, PartialEq, Eq, Structural)]
pub struct UserTrapRecord {
    pub cause: usize,
    pub message: usize,
}

/// Why a trap record could not be delivered.
#[derive(Clone, Copy, Debug, PartialEq, Eq, Structural)]
pub enum UserTrapError {
    /// No live task has that identifier.
    TaskNotFound,
    /// The task has not asked for user-mode traps.
    TrapUninitialized,
    /// The task's queue is full; the record is dropped.
    TrapBufferFull,
}

/// The record that a queued pair stands for.
pub open spec fn record_of(pair: (usize, usize)) -> UserTrapRecord {
    UserTrapRecord { cause: pair.0, message: pair.1 }
}

/// What a task that handles traps in user mode owns for it: its trap queue,
/// which lies in a page of the task, and the devices it has claimed, each
/// with the flag that says whether the task wants its interrupts.
pub struct UserTrapInfo {
    pub queue: UserTrapQueue,
    pub devices: Vec<(u16, bool)>,
}

/// The controller after the hand-over to a task that starts to run on `hart`
/// and owns `devices`: taken in order, each device is disabled for every
/// supervisor context, then enabled or disabled for the user context of
/// `hart` as its flag says.
pub open spec fn enable_handoff(plic: PlicState, devices: Seq<(u16, bool)>, hart: usize) -> PlicState
    decreases devices.len(),
{
    if devices.len() == 0 {
        plic
    } else {
        let d = devices.last();
        let before = enable_handoff(plic, devices.drop_last(), hart).disable_s_upto(d.0, CPU_NUM as nat);
        if d.1 {
            before.enable((3 * hart + 2) as usize, d.0)
        } else {
            before.disable((3 * hart + 2) as usize, d.0)
        }
    }
}

/// The controller after the hand-over from a task that stops running on
/// `hart` and owns `devices`: taken in order, each device is disabled for
/// the user context of `hart`, and its flag is copied to the supervisor
/// context of `hart`.
pub open spec fn disable_handoff(plic: PlicState, devices: Seq<(u16, bool)>, hart: usize) -> PlicState
    decreases devices.len(),
{
    if devices.len() == 0 {
        plic
    } else {
        let d = devices.last();
        let before = disable_handoff(plic, devices.drop_last(), hart).disable((3 * hart + 2) as usize, d.0);
        if d.1 {
            before.enable((3 * hart + 1) as usize, d.0)
        } else {
            before.disable((3 * hart + 1) as usize, d.0)
        }
    }
}

/// The controller after the first `n` of `devices` are given back to the
/// kernel on one hart: each is disabled for the hart's user context, enabled
/// for its supervisor context, and completed there.
pub open spec fn release_on_hart(plic: PlicState, devices: Seq<(u16, bool)>, hart: usize, n: nat) -> PlicState
    decreases n,
{
    if n == 0 {
        plic
    } else {
        let irq = devices[n - 1].0;
        release_on_hart(plic, devices, hart, (n - 1) as nat).disable((3 * hart + 2) as usize, irq).enable(
            (3 * hart + 1) as usize,
            irq,
        ).complete((3 * hart + 1) as usize, irq)
    }
}

/// The controller after `devices` are given back to the kernel on each of
/// the first `harts` harts, in ascending order.
pub open spec fn release_devices(plic: PlicState, devices: Seq<(u16, bool)>, harts: nat) -> PlicState
    decreases harts,
{
    if harts == 0 {
        plic
    } else {
        release_on_hart(
            release_devices(plic, devices, (harts - 1) as nat),
            devices,
            (harts - 1) as usize,
            devices.len(),
        )
    }
}

/// The claim registry without the first `n` of `devices`.
pub open spec fn unregister_devices(map: Map<u16, usize>, devices: Seq<(u16, bool)>, n: nat) -> Map<u16, usize>
    decreases n,
{
    if n == 0 {
        map
    } else {
        unregister_devices(map, devices, (n - 1) as nat).remove(devices[n - 1].0)
    }
}

/// Every device number is one the controller knows.
pub open spec fn devices_in_range(devices: Seq<(u16, bool)>) -> bool {
    forall|i: int| 0 <= i < devices.len() ==> (#[trigger] devices[i]).0 < IRQ_NUM
}

impl UserTrapInfo {
    /// The records in the queue, the oldest first.
    pub open spec fn records(&self) -> Seq<UserTrapRecord> {
        queue_records(self.queue).map_values(|pair: (usize, usize)| record_of(pair))
    }

    /// The claimed devices are ones the controller knows.
    pub open spec fn wf(&self) -> bool {
        devices_in_range(self.devices@)
    }

    /// The trap information of a task that has just opted in: an empty queue
    /// and no device.
    pub fn new() -> (info: UserTrapInfo)
        ensures
            info.wf(),
            info.records() == Seq::<UserTrapRecord>::empty(),
            info.devices@ == Seq::<(u16, bool)>::empty(),
    {
        let info = UserTrapInfo { queue: queue_new(), devices: Vec::new() };
        assert(info.records() =~= Seq::<UserTrapRecord>::empty());
        info
    }

    /// The trap information a forked child starts with: a copy of the queue
    /// and no device, since a device belongs to the one task that claimed
    /// it.
    pub fn fork(&self) -> (info: UserTrapInfo)
        ensures
            info.wf(),
            info.records() == self.records(),
            info.devices@ == Seq::<(u16, bool)>::empty(),
    {
        UserTrapInfo { queue: queue_clone(&self.queue), devices: Vec::new() }
    }

    /// The task's trap queue.
    pub fn get_trap_queue(&self) -> (queue: &UserTrapQueue)
        ensures
            *queue == self.queue,
    {
        &self.queue
    }

    /// The task's trap queue, to put records in or to take them out.
    pub fn get_trap_queue_mut(&mut self) -> (queue: &mut UserTrapQueue)
        ensures
            *queue == old(self).queue,
            *final(self) == (UserTrapInfo { queue: *final(queue), devices: old(self).devices }),
    {
        &mut self.queue
    }

    /// Appends a record to the queue. A full queue stays as it is and the
    /// record is dropped.
    pub fn push_trap_record(&mut self, trap_record: UserTrapRecord) -> (res: Result<(), UserTrapError>)
        ensures
            final(self).devices == old(self).devices,
            old(self).records().len() < USER_TRAP_CAPACITY ==> res == Ok::<(), UserTrapError>(())
                && final(self).records() == old(self).records().push(trap_record),
            old(self).records().len() >= USER_TRAP_CAPACITY ==> res == Err::<(), UserTrapError>(
                UserTrapError::TrapBufferFull,
            ) && final(self).records() == old(self).records(),
    {
        let stored = queue_enqueue(&mut self.queue, (trap_record.cause, trap_record.message));
        if stored {
            assert(self.records() =~= old(self).records().push(trap_record));
            Ok(())
        } else {
            Err(UserTrapError::TrapBufferFull)
        }
    }

    /// Takes the oldest record out of the queue, as the task's handler does.
    pub fn pop_trap_record(&mut self) -> (res: Option<UserTrapRecord>)
        ensures
            final(self).devices == old(self).devices,
            old(self).records().len() == 0 ==> res.is_none() && final(self).records() == old(self).records(),
            old(self).records().len() > 0 ==> res == Some(old(self).records()[0]) && final(self).records() == old(self).records().drop_first(),
    {
        match queue_dequeue(&mut self.queue) {
            Some(pair) => {
                assert(self.records() =~= old(self).records().drop_first());
                Some(UserTrapRecord { cause: pair.0, message: pair.1 })
            },
            None => None,
        }
    }

    /// The number of records that wait in the queue.
    pub fn user_trap_record_num(&self) -> (num: usize)
        ensures
            num == self.records().len(),
            num <= USER_TRAP_CAPACITY,
    {
        queue_len(&self.queue)
    }

    /// Steers the interrupts of the claimed devices to the task as it starts
    /// to run on `hart`: none of them reaches a supervisor context any more,
    /// and each reaches the user context of `hart` if and only if the task
    /// has enabled it. The enable bits of every other interrupt stay.
    pub fn enable_user_ext_int(&self, plic: &mut Plic, hart: usize)
        requires
            old(plic).wf(),
            self.wf(),
            hart < CPU_NUM,
        ensures
            final(plic).wf(),
            final(plic)@ == enable_handoff(old(plic)@, self.devices@, hart),
            steered_to_user(final(plic)@, old(plic)@, self.devices@, hart),
    {
        let u_context = 3 * hart + 2;
        let mut i: usize = 0;
        while i < self.devices.len()
            invariant
                i <= self.devices@.len(),
                plic.wf(),
                self.wf(),
                hart < CPU_NUM,
                u_context == 3 * hart + 2,
                plic@ == enable_handoff(old(plic)@, self.devices@.take(i as int), hart),
            decreases self.devices@.len() - i,
        {
            let (device_id, is_enabled) = self.devices[i];
            let ghost start = plic@;
            let mut h: usize = 0;
            while h < CPU_NUM
                invariant
                    h <= CPU_NUM,
                    plic.wf(),
                    device_id < IRQ_NUM,
                    plic@ == start.disable_s_upto(device_id, h as nat),
                decreases CPU_NUM - h,
            {
                plic.disable(3 * h + 1, device_id);
                h += 1;
            }
            if is_enabled {
                plic.enable(u_context, device_id);
            } else {
                plic.disable(u_context, device_id);
            }
            proof {
                let next = self.devices@.take(i + 1);
                assert(next.drop_last() == self.devices@.take(i as int));
                assert(next.last() == self.devices@[i as int]);
            }
            i += 1;
        }
        assert(self.devices@.take(i as int) == self.devices@);
        proof {
            lemma_enable_handoff(old(plic)@, self.devices@, hart);
        }
    }

    /// Steers the interrupts of the claimed devices back as the task stops
    /// running on `hart`: none of them reaches the user context of `hart`,
    /// and each reaches the supervisor context of `hart` if and only if the
    /// task has enabled it. The enable bits of every other interrupt stay.
    pub fn disable_user_ext_int(&self, plic: &mut Plic, hart: usize)
        requires
            old(plic).wf(),
            self.wf(),
            hart < CPU_NUM,
        ensures
            final(plic).wf(),
            final(plic)@ == disable_handoff(old(plic)@, self.devices@, hart),
            steered_to_supervisor(final(plic)@, old(plic)@, self.devices@, hart),
    {
        let mut i: usize = 0;
        while i < self.devices.len()
            invariant
                i <= self.devices@.len(),
                plic.wf(),
                self.wf(),
                hart < CPU_NUM,
                plic@ == disable_handoff(old(plic)@, self.devices@.take(i as int), hart),
            decreases self.devices@.len() - i,
        {
            let (device_id, is_enabled) = self.devices[i];
            plic.disable(3 * hart + 2, device_id);
            if is_enabled {
                plic.enable(3 * hart + 1, device_id);
            } else {
                plic.disable(3 * hart + 1, device_id);
            }
            proof {
                let next = self.devices@.take(i + 1);
                assert(next.drop_last() == self.devices@.take(i as int));
                assert(next.last() == self.devices@[i as int]);
            }
            i += 1;
        }
        assert(self.devices@.take(i as int) == self.devices@);
        proof {
            lemma_disable_handoff(old(plic)@, self.devices@, hart);
        }
    }

    /// Gives the claimed devices back to the kernel when the task ends: on
    /// every hart each device is disabled for the user context, enabled for
    /// the supervisor context and completed there, and the registry of
    /// claims forgets the device.
    pub fn remove_user_ext_int_map(&self, plic: &mut Plic, int_map: &mut BTreeMap<u16, usize>)
        requires
            old(plic).wf(),
            self.wf(),
        ensures
            final(plic).wf(),
            final(plic)@ == release_devices(old(plic)@, self.devices@, CPU_NUM as nat),
            final(int_map)@ == unregister_devices(old(int_map)@, self.devices@, self.devices@.len()),
    {
        broadcast use vstd::std_specs::btree::group_btree_axioms;

        let mut hart_id: usize = 0;
        while hart_id < CPU_NUM
            invariant
                hart_id <= CPU_NUM,
                plic.wf(),
                self.wf(),
                plic@ == release_devices(old(plic)@, self.devices@, hart_id as nat),
            decreases CPU_NUM - hart_id,
        {
            let s_context = 3 * hart_id + 1;
            let u_context = 3 * hart_id + 2;
            let ghost start = plic@;
            let mut i: usize = 0;
            while i < self.devices.len()
                invariant
                    i <= self.devices@.len(),
                    hart_id < CPU_NUM,
                    s_context == 3 * hart_id + 1,
                    u_context == 3 * hart_id + 2,
                    plic.wf(),
                    self.wf(),
                    plic@ == release_on_hart(start, self.devices@, hart_id, i as nat),
                decreases self.devices@.len() - i,
            {
                let device_id = self.devices[i].0;
                plic.disable(u_context, device_id);
                plic.enable(s_context, device_id);
                plic.complete(s_context, device_id);
                i += 1;
            }
            hart_id += 1;
        }
        let mut i: usize = 0;
        while i < self.devices.len()
            invariant
                i <= self.devices@.len(),
                int_map@ == unregister_devices(old(int_map)@, self.devices@, i as nat),
            decreases self.devices@.len() - i,
        {
            let device_id = self.devices[i].0;
            int_map.remove(&device_id);
            i += 1;
        }
    }
}

/// What `push_trap_record` returns for the task `pid` of `kernel`.
pub open spec fn push_result(kernel: &Kernel, pid: usize) -> Result<(), UserTrapError> {
    if !kernel.live(pid as int) || kernel.status(pid as int) == TaskStatus::Zombie {
        Err(UserTrapError::TaskNotFound)
    } else if kernel.tcb(pid as int).inner.user_trap_info.is_none() {
        Err(UserTrapError::TrapUninitialized)
    } else if kernel.tcb(pid as int).inner.user_trap_info.unwrap().records().len() >= USER_TRAP_CAPACITY {
        Err(UserTrapError::TrapBufferFull)
    } else {
        Ok(())
    }
}

/// The effect of `push_trap_record`, which returns `res`, on the kernel.
pub open spec fn push_trap_record_post(before: &Kernel, after: &Kernel, pid: usize, trap_record: UserTrapRecord, res: Result<(), UserTrapError>) -> bool {
    &&& res == push_result(before, pid)
    &&& res.is_ok() ==> {
        &&& same_but_inner(after, before, pid as int)
        &&& after.tcb(pid as int).inner == (TaskControlBlockInner {
            user_trap_info: after.tcb(pid as int).inner.user_trap_info,
            ..before.tcb(pid as int).inner
        })
        &&& after.tcb(pid as int).inner.user_trap_info.is_some()
        &&& after.tcb(pid as int).inner.user_trap_info.unwrap().devices == before.tcb(
            pid as int,
        ).inner.user_trap_info.unwrap().devices
        &&& after.tcb(pid as int).inner.user_trap_info.unwrap().records() == before.tcb(
            pid as int,
        ).inner.user_trap_info.unwrap().records().push(trap_record)
    }
    &&& res.is_err() ==> after.same_records(before)
    &&& after.plic == before.plic
}

/// Delivers a trap record to the task `pid`: appends it to the task's
/// queue. The call fails, and changes nothing, when no task with that
/// identifier exists or the task has ended, when the task has not opted in
/// to user-mode traps, and when its queue is full.
pub fn push_trap_record(kernel: &mut Kernel, pid: usize, trap_record: UserTrapRecord) -> (res: Result<
    (),
    UserTrapError,
>)
    requires
        old(kernel).wf(),
    ensures
        final(kernel).wf(),
        push_trap_record_post(old(kernel), final(kernel), pid, trap_record, res),
{
    if crate::task::pid::find_task(kernel, pid).is_none() {
        return Err(UserTrapError::TaskNotFound);
    }
    let res = match kernel.pids.slot_mut(pid) {
        Some(tcb) => {
            match &mut tcb.inner.user_trap_info {
                Some(trap_info) => trap_info.push_trap_record(trap_record),
                None => Err(UserTrapError::TrapUninitialized),
            }
        },
        None => Err(UserTrapError::TaskNotFound),
    };
    proof {
        let old_k = *old(kernel);
        assert(kernel.same_shape(&old_k));
        kernel.lemma_same_shape(&old_k);
    }
    res
}

} // verus!
