use vstd::prelude::*;
use std::collections::BTreeSet;
use crate::kernel::Kernel;
use crate::task::manager::{index_in_queue, prioritized, TaskManager};

verus! {

/// The tasks that do not run: those that wait for a hart, in their queue,
/// and those that sleep until they are woken.
pub struct TaskPool {
    pub scheduler: TaskManager,
    pub sleeping_tasks: BTreeSet<usize>,
}

/// The queue without the first occurrence of `task`.
pub open spec fn queue_without(queue: Seq<usize>, task: usize) -> Seq<usize> {
    if index_in_queue(queue, task) < queue.len() {
        queue.remove(index_in_queue(queue, task))
    } else {
        queue
    }
}

impl TaskPool {
    /// The tasks that wait for a hart, in the order in which they will run.
    pub open spec fn queue(&self) -> Seq<usize> {
        self.scheduler.ready_queue@
    }

    /// A pool without tasks.
    pub fn new() -> (pool: TaskPool)
        ensures
            pool.queue() == Seq::<usize>::empty(),
            pool.sleeping_tasks@ == Set::<usize>::empty(),
    {
        TaskPool { scheduler: TaskManager::new(), sleeping_tasks: BTreeSet::new() }
    }

    /// Puts a task at the tail of the ready queue.
    pub fn add(&mut self, task: usize)
        ensures
            final(self).queue() == old(self).queue().push(task),
            final(self).sleeping_tasks@ == old(self).sleeping_tasks@,
    {
        self.scheduler.add(task);
    }

    /// Takes a task out of the ready queue.
    pub fn remove(&mut self, task: usize)
        ensures
            final(self).queue() == queue_without(old(self).queue(), task),
            final(self).sleeping_tasks@ == old(self).sleeping_tasks@,
    {
        self.scheduler.remove(task);
    }

    /// Wakes a task: it sleeps no longer and waits at the tail of the ready queue.
    pub fn wake(&mut self, task: usize)
        ensures
            final(self).queue() == old(self).queue().push(task),
            final(self).sleeping_tasks@ == old(self).sleeping_tasks@.remove(task),
    {
        broadcast use vstd::std_specs::btree::group_btree_axioms;

        self.sleeping_tasks.remove(&task);
        self.scheduler.add(task);
    }

    /// Puts a task to sleep: it leaves the ready queue and sleeps.
    pub fn sleep(&mut self, task: usize)
        ensures
            final(self).queue() == queue_without(old(self).queue(), task),
            final(self).sleeping_tasks@ == old(self).sleeping_tasks@.insert(task),
    {
        broadcast use vstd::std_specs::btree::group_btree_axioms;

        self.scheduler.remove(task);
        self.sleeping_tasks.insert(task);
    }

    /// Takes the task at the head of the ready queue, if there is one.
    pub fn fetch(&mut self) -> (task: Option<usize>)
        ensures
            old(self).queue().len() == 0 ==> task.is_none() && final(self).queue() == old(self).queue(),
            old(self).queue().len() > 0 ==> task == Some(old(self).queue()[0]) && final(self).queue() == old(self).queue().drop_first(),
            final(self).sleeping_tasks@ == old(self).sleeping_tasks@,
    {
        self.scheduler.fetch()
    }

    /// Rotates the ready queue so that the task `pid` heads it, if it is queued.
    pub fn prioritize(&mut self, pid: usize)
        ensures
            final(self).queue() == prioritized(old(self).queue(), pid),
            final(self).sleeping_tasks@ == old(self).sleeping_tasks@,
    {
        self.scheduler.prioritize(pid);
    }
}

/// Whether `after` is `before` but for its ready queue.
pub open spec fn same_but_queue(after: &Kernel, before: &Kernel) -> bool {
    &&& after.same_setup(before)
    &&& after.pids == before.pids
    &&& after.processors == before.processors
    &&& after.timers == before.timers
    &&& after.serials == before.serials
    &&& after.ext_int_map == before.ext_int_map
    &&& after.plic == before.plic
}

/// Puts a task at the tail of the ready queue. Nothing else changes; it is
/// for the caller to see that the task is ready and not queued already.
pub fn add_task(kernel: &mut Kernel, task: usize)
    ensures
        final(kernel).queue() == old(kernel).queue().push(task),
        same_but_queue(final(kernel), old(kernel)),
{
    kernel.pool.add(task);
}

/// Takes the task at the head of the ready queue, if there is one. Nothing
/// else changes; it is for the caller to run the task or to queue it again.
pub fn fetch_task(kernel: &mut Kernel) -> (task: Option<usize>)
    ensures
        old(kernel).queue().len() == 0 ==> task.is_none() && final(kernel).queue() == old(kernel).queue(),
        old(kernel).queue().len() > 0 ==> task == Some(old(kernel).queue()[0]) && final(kernel).queue() == old(kernel).queue().drop_first(),
        same_but_queue(final(kernel), old(kernel)),
{
    kernel.pool.fetch()
}

/// Rotates the ready queue so that the task `pid` heads it, if it is
/// queued. The queue keeps its tasks.
pub fn prioritize_task(kernel: &mut Kernel, pid: usize)
    ensures
        final(kernel).queue() == prioritized(old(kernel).queue(), pid),
        same_but_queue(final(kernel), old(kernel)),
{
    kernel.pool.prioritize(pid);
}

} // verus!
