use vstd::prelude::*;
use std::collections::VecDeque;

verus! {

/// The ready queue: the identifiers of the tasks that wait for a hart, in
/// the order in which they will run.
pub struct TaskManager {
    pub ready_queue: VecDeque<usize>,
}

/// The first index from `from` on at which `queue` holds `pid` or `front`,
/// or the length of `queue` if there is none.
pub open spec fn rotation_stop(queue: Seq<usize>, pid: usize, front: usize, from: int) -> int
    decreases queue.len() - from,
{
    if from >= queue.len() {
        queue.len() as int
    } else if queue[from] == pid || queue[from] == front {
        from
    } else {
        rotation_stop(queue, pid, front, from + 1)
    }
}

/// The queue after `prioritize(pid)`: a queue of fewer than two tasks, or
/// one that `pid` already heads, stays as it is; any other is rotated until
/// `pid` heads it, or until its old head does again.
pub open spec fn prioritized(queue: Seq<usize>, pid: usize) -> Seq<usize> {
    if queue.len() <= 1 || queue[0] == pid {
        queue
    } else {
        let k = rotation_stop(queue, pid, queue[0], 1);
        queue.skip(k) + queue.take(k)
    }
}

/// The index of the first occurrence of `tid` in `queue`, or the length of
/// `queue` if there is none.
pub open spec fn index_in_queue(queue: Seq<usize>, tid: usize) -> int {
    rotation_stop(queue, tid, tid, 0)
}

/// The stop lies between the start and the end, nothing before it matches,
/// and within the queue it is a match.
pub proof fn lemma_rotation_stop(queue: Seq<usize>, pid: usize, front: usize, from: int)
    requires
        0 <= from <= queue.len(),
    ensures
        from <= rotation_stop(queue, pid, front, from) <= queue.len(),
        forall|j: int|
            from <= j < rotation_stop(queue, pid, front, from) ==> queue[j] != pid && queue[j] != front,
        rotation_stop(queue, pid, front, from) < queue.len() ==> queue[rotation_stop(
            queue,
            pid,
            front,
            from,
        )] == pid || queue[rotation_stop(queue, pid, front, from)] == front,
    decreases queue.len() - from,
{
    if from < queue.len() && !(queue[from] == pid || queue[from] == front) {
        lemma_rotation_stop(queue, pid, front, from + 1);
    }
}

impl TaskManager {
    /// An empty ready queue.
    pub fn new() -> (m: TaskManager)
        ensures
            m.ready_queue@ == Seq::<usize>::empty(),
    {
        TaskManager { ready_queue: VecDeque::new() }
    }

    /// Puts a task at the tail of the queue.
    pub fn add(&mut self, task: usize)
        ensures
            final(self).ready_queue@ == old(self).ready_queue@.push(task),
    {
        self.ready_queue.push_back(task);
    }

    /// Takes the first occurrence of a task out of the queue, if there is one.
    pub fn remove(&mut self, task: usize)
        ensures
            index_in_queue(old(self).ready_queue@, task) < old(self).ready_queue@.len() ==> final(self).ready_queue@ == old(self).ready_queue@.remove(index_in_queue(old(self).ready_queue@, task)),
            index_in_queue(old(self).ready_queue@, task) >= old(self).ready_queue@.len() ==> final(self).ready_queue@ == old(self).ready_queue@,
    {
        let mut idx: usize = 0;
        while idx < self.ready_queue.len()
            invariant
                idx <= self.ready_queue@.len(),
                self.ready_queue@ == old(self).ready_queue@,
                rotation_stop(self.ready_queue@, task, task, idx as int) == index_in_queue(
                    self.ready_queue@,
                    task,
                ),
            decreases self.ready_queue@.len() - idx,
        {
            if self.ready_queue[idx] == task {
                self.ready_queue.remove(idx);
                return ;
            }
            idx += 1;
        }
    }

    /// Takes the task at the head of the queue, if there is one.
    pub fn fetch(&mut self) -> (task: Option<usize>)
        ensures
            old(self).ready_queue@.len() == 0 ==> task.is_none() && final(self).ready_queue@ == old(self).ready_queue@,
            old(self).ready_queue@.len() > 0 ==> task == Some(old(self).ready_queue@[0]) && final(self).ready_queue@ == old(self).ready_queue@.drop_first(),
    {
        self.ready_queue.pop_front()
    }

    /// Rotates the queue so that the task `pid` heads it, if it is queued.
    pub fn prioritize(&mut self, pid: usize)
        ensures
            final(self).ready_queue@ == prioritized(old(self).ready_queue@, pid),
    {
        let len = self.ready_queue.len();
        if len <= 1 {
            return ;
        }
        let front_pid = self.ready_queue[0];
        if front_pid == pid {
            return ;
        }
        let ghost q = old(self).ready_queue@;
        let mut k: usize = 0;
        self.rotate_left_one();
        k += 1;
        assert(self.ready_queue@ =~= q.skip(1) + q.take(1));
        while self.ready_queue[0] != pid && self.ready_queue[0] != front_pid
            invariant
                1 <= k < len,
                len == q.len(),
                q == old(self).ready_queue@,
                front_pid == q[0],
                self.ready_queue@ == q.skip(k as int) + q.take(k as int),
                rotation_stop(q, pid, front_pid, k as int) == rotation_stop(q, pid, front_pid, 1),
            decreases len - k,
        {
            assert(self.ready_queue@[0] == q[k as int]);
            proof {
                lemma_rotation_stop(q, pid, front_pid, k as int + 1);
            }
            self.rotate_left_one();
            k += 1;
            if k == len {
                assert(rotation_stop(q, pid, front_pid, len as int) == len);
                assert(self.ready_queue@ =~= q.skip(len as int) + q.take(len as int));
                assert(q.skip(len as int) + q.take(len as int) =~= q);
                assert(self.ready_queue@[0] == front_pid);
                return ;
            }
            assert(self.ready_queue@ =~= q.skip(k as int) + q.take(k as int));
        }
        assert(self.ready_queue@[0] == q[k as int]);
    }

    /// Moves the head of a queue that is not empty to its tail.
    fn rotate_left_one(&mut self)
        requires
            old(self).ready_queue@.len() > 0,
        ensures
            final(self).ready_queue@ == old(self).ready_queue@.drop_first().push(old(self).ready_queue@[0]),
    {
        match self.ready_queue.pop_front() {
            Some(t) => {
                self.ready_queue.push_back(t);
            },
            None => {},
        }
    }
}

} // verus!
