use vstd::prelude::*;
use crate::config::CPU_NUM;
use crate::kernel::{distinct, Kernel};
use crate::plic::{s_context, u_context, IRQ_NUM};
use crate::task::pid::{PidHandle, MAX_PID};
use crate::task::task::{LoadedImage, TaskControlBlock, TaskControlBlockInner, TaskStatus};
use crate::trap::handoff::lists_device;

verus! {

/// Whether `after` is `before` with one more task, `child`: the task has
/// the next identifier, sits in the table, and waits at the tail of the
/// ready queue; if it has a parent, the parent lists it as its last child.
/// Everything else is as before.
pub open spec fn born(after: &Kernel, before: &Kernel, child: TaskControlBlock, parent: Option<usize>) -> bool {
    let c = before.pids.current as int;
    &&& after.pids.current == c + 1
    &&& after.pids.recycled@ == before.pids.recycled@
    &&& before.pids.bounded() ==> after.pids.bounded()
    &&& after.pids.slots()[c] == Some(child)
    &&& child.pid.0 == c
    &&& child.inner.parent == parent
    &&& forall|x: int|
        0 <= x < c && Some(x as usize) != parent ==> #[trigger] after.pids.slots()[x]
            == before.pids.slots()[x]
    &&& parent.is_some() ==> {
        let p = parent.unwrap() as int;
        &&& after.live(p)
        &&& after.tcb(p).pid == before.tcb(p).pid
        &&& after.tcb(p).kernel_stack == before.tcb(p).kernel_stack
        &&& after.tcb(p).inner == (TaskControlBlockInner {
            children: after.tcb(p).inner.children,
            ..before.tcb(p).inner
        })
        &&& after.tcb(p).inner.children@ == before.tcb(p).inner.children@.push(c as usize)
    }
    &&& after.queue() == before.queue().push(c as usize)
    &&& after.board == before.board
    &&& after.entry == before.entry
    &&& after.initproc == (if parent.is_some() {
        before.initproc
    } else {
        Some(c as usize)
    })
    &&& after.pool.sleeping_tasks@ == before.pool.sleeping_tasks@
    &&& after.processors@ == before.processors@
    &&& after.timers@ == before.timers@
    &&& after.serials@ == before.serials@
    &&& after.pipes == before.pipes
    &&& after.ext_int_map@ == before.ext_int_map@
    &&& after.plic@ == before.plic@
}

/// Whether a task can join a kernel as a new task: it is ready, has no
/// children, owns no device, holds no more trap records than its queue
/// can, and has no mail.
pub open spec fn newborn(child: TaskControlBlock) -> bool {
    &&& child.kernel_stack.pid == child.pid.0
    &&& child.inner.task_status == TaskStatus::Ready
    &&& child.inner.children@.len() == 0
    &&& child.inner.user_trap_info.is_some() ==> child.inner.user_trap_info.unwrap().devices@.len() == 0
        && child.inner.user_trap_info.unwrap().records().len() <= crate::trap::usertrap::USER_TRAP_CAPACITY
    &&& child.inner.mail_box.inner.mails@.len() == 0
}

/// A well-formed kernel stays well formed when a new task joins it, as the
/// child of a task that exists or, if no task exists yet, as the first task.
pub proof fn lemma_wf_after_birth(old_k: Kernel, new_k: Kernel, child: TaskControlBlock, parent: Option<usize>)
    requires
        old_k.wf(),
        old_k.pids.current <= MAX_PID,
        born(&new_k, &old_k, child, parent),
        newborn(child),
        parent.is_some() ==> old_k.live(parent.unwrap() as int) && old_k.status(parent.unwrap() as int)
            != TaskStatus::Zombie,
        parent.is_none() ==> old_k.initproc.is_none() && old_k.pids.current == 1,
    ensures
        new_k.wf(),
{
    let c = old_k.pids.current as int;
    assert forall|x: int| #[trigger] new_k.live(x) == (old_k.live(x) || x == c) by {
        if 0 <= x < c {
            if Some(x as usize) != parent {
                assert(new_k.pids.slots()[x] == old_k.pids.slots()[x]);
            }
        }
    }
    assert forall|x: int| old_k.live(x) implies {
        &&& new_k.tcb(x).pid == old_k.tcb(x).pid
        &&& new_k.tcb(x).kernel_stack == old_k.tcb(x).kernel_stack
        &&& new_k.tcb(x).inner.mail_box == old_k.tcb(x).inner.mail_box
        &&& new_k.tcb(x).inner.parent == old_k.tcb(x).inner.parent
        &&& new_k.status(x) == old_k.status(x)
        &&& new_k.devices(x) == old_k.devices(x)
        &&& Some(x as usize) != parent ==> new_k.tcb(x).inner.children == old_k.tcb(x).inner.children
    } by {
        if Some(x as usize) != parent {
            assert(new_k.pids.slots()[x] == old_k.pids.slots()[x]);
        }
    }
    assert(new_k.wf_structure()) by {
        assert forall|i: int|
            0 <= i < new_k.pids.slots().len() && (#[trigger] new_k.pids.slots()[i]).is_some() implies new_k.pids.slots()[i].unwrap().pid.0
            == i by {
            if i < c {
                assert(new_k.live(i));
                assert(old_k.live(i));
                assert(old_k.pids.slots()[i].is_some());
            }
        }
        assert(new_k.live(0) == (old_k.live(0) || 0 == c));
        assert forall|x: int| #[trigger] new_k.live(x) implies new_k.task_wf(x) by {
            if x != c {
                assert(old_k.live(x));
                assert(old_k.task_wf(x));
            }
        }
    }
    assert(new_k.wf_running()) by {
        assert forall|h: int| 0 <= h < CPU_NUM && (#[trigger] new_k.current(h)).is_some() implies new_k.live(
            new_k.current(h).unwrap() as int,
        ) && new_k.status(new_k.current(h).unwrap() as int) == TaskStatus::Running(h as usize) by {
            assert(old_k.current(h).is_some());
            assert(old_k.live(old_k.current(h).unwrap() as int));
        }
        assert forall|t2: int|
            new_k.live(t2) && crate::kernel::running_on(#[trigger] new_k.status(t2)).is_some() implies crate::kernel::running_on(
            new_k.status(t2),
        ).unwrap() < CPU_NUM && new_k.current(crate::kernel::running_on(new_k.status(t2)).unwrap() as int)
            == Some(t2 as usize) by {
            assert(t2 != c);
            assert(old_k.live(t2));
            assert(crate::kernel::running_on(old_k.status(t2)).is_some());
        }
    }
    assert(new_k.wf_ready()) by {
        let q = old_k.queue();
        let nq = new_k.queue();
        assert forall|j: int| 0 <= j < nq.len() implies new_k.live(#[trigger] nq[j] as int) && new_k.status(
            nq[j] as int,
        ) == TaskStatus::Ready by {
            if j < q.len() {
                assert(nq[j] == q[j]);
                assert(old_k.live(q[j] as int));
            }
        }
        assert(distinct(nq)) by {
            assert forall|i: int, j: int| 0 <= i < nq.len() && 0 <= j < nq.len() && i != j implies nq[i]
                != nq[j] by {
                if i < q.len() {
                    assert(old_k.live(q[i] as int));
                }
                if j < q.len() {
                    assert(old_k.live(q[j] as int));
                }
            }
        }
        assert forall|t2: int|
            new_k.live(t2) && #[trigger] new_k.status(t2) == TaskStatus::Ready implies nq.contains(
            t2 as usize,
        ) by {
            if t2 == c {
                assert(nq[q.len() as int] == c as usize);
            } else {
                assert(old_k.live(t2));
                assert(old_k.status(t2) == TaskStatus::Ready);
                assert(q.contains(t2 as usize));
                let j = choose|j: int| 0 <= j < q.len() && q[j] == t2 as usize;
                assert(nq[j] == t2 as usize);
            }
        }
    }
    assert(new_k.wf_family()) by {
        assert forall|x: int, i: int|
            new_k.live(x) && 0 <= i < new_k.tcb(x).inner.children@.len() implies new_k.live(
            #[trigger] new_k.tcb(x).inner.children@[i] as int,
        ) && new_k.tcb(new_k.tcb(x).inner.children@[i] as int).inner.parent == Some(x as usize) && new_k.tcb(
            x,
        ).inner.children@[i] > x by {
            assert(x != c);
            assert(old_k.live(x));
            let kid = new_k.tcb(x).inner.children@[i] as int;
            if Some(x as usize) == parent && i == old_k.tcb(x).inner.children@.len() {
                assert(kid == c);
            } else {
                assert(kid == old_k.tcb(x).inner.children@[i]);
                assert(old_k.live(kid));
            }
        }
        assert forall|x: int| #[trigger] new_k.live(x) implies distinct(new_k.tcb(x).inner.children@) by {
            if x != c {
                assert(old_k.live(x));
                if Some(x as usize) == parent {
                    let own = old_k.tcb(x).inner.children@;
                    let all = new_k.tcb(x).inner.children@;
                    assert(distinct(own));
                    assert forall|i: int, j: int|
                        0 <= i < all.len() && 0 <= j < all.len() && i != j implies all[i] != all[j] by {
                        if i < own.len() {
                            assert(old_k.live(own[i] as int));
                        }
                        if j < own.len() {
                            assert(old_k.live(own[j] as int));
                        }
                    }
                }
            }
        }
        if parent.is_some() {
            assert(old_k.live(parent.unwrap() as int));
            assert(old_k.initproc.is_some());
            let init = old_k.initproc.unwrap() as int;
            assert(old_k.live(init));
        }
        assert forall|x: int|
            new_k.live(x) && #[trigger] new_k.status(x) == TaskStatus::Zombie && Some(x as usize)
                != new_k.initproc implies new_k.tcb(x).inner.children@.len() == 0 by {
            if x != c {
                assert(old_k.live(x));
                assert(old_k.status(x) == TaskStatus::Zombie);
                if Some(x as usize) == parent {
                    // a task that has ended bears no child
                    assert(old_k.live(x));
                }
            }
        }
    }
    assert(new_k.wf_claims()) by {
        assert forall|irq: u16| #[trigger] new_k.ext_int_map@.contains_key(irq) implies new_k.live(
            new_k.ext_int_map@[irq] as int,
        ) && lists_device(new_k.devices(new_k.ext_int_map@[irq] as int), irq as int) by {
            assert(old_k.ext_int_map@.contains_key(irq));
            let o = old_k.ext_int_map@[irq] as int;
            assert(old_k.live(o));
        }
        assert forall|x: int, i: int|
            new_k.live(x) && 0 <= i < new_k.devices(x).len() implies new_k.ext_int_map@.contains_key(
            (#[trigger] new_k.devices(x)[i]).0,
        ) && new_k.ext_int_map@[new_k.devices(x)[i].0] == x by {
            assert(x != c);
            assert(old_k.live(x));
            assert(new_k.devices(x)[i] == old_k.devices(x)[i]);
        }
        assert forall|x: int| #[trigger] new_k.live(x) implies crate::kernel::distinct_devices(
            new_k.devices(x),
        ) by {
            if x != c {
                assert(old_k.live(x));
            }
        }
        assert forall|x: int|
            new_k.live(x) && #[trigger] new_k.status(x) == TaskStatus::Zombie implies new_k.devices(x).len()
            == 0 by {
            assert(x != c);
            assert(old_k.live(x));
            assert(old_k.status(x) == TaskStatus::Zombie);
        }
    }
    assert(new_k.wf_routing()) by {
        assert forall|h: int, irq: int|
            0 <= h < CPU_NUM && 0 <= irq < IRQ_NUM && #[trigger] new_k.plic@.is_enabled(
                u_context(h),
                irq,
            ) implies {
            &&& new_k.ext_int_map@.contains_key(irq as u16)
            &&& new_k.live(new_k.ext_int_map@[irq as u16] as int)
            &&& new_k.status(new_k.ext_int_map@[irq as u16] as int) == TaskStatus::Running(h as usize)
            &&& new_k.plic@.no_supervisor_enable(irq)
        } by {
            assert(old_k.plic@.is_enabled(u_context(h), irq));
            let o = old_k.ext_int_map@[irq as u16] as int;
            assert(old_k.live(o));
        }
    }
}

/// Enters the new task `child` into the table and puts it at the tail of
/// the ready queue.
pub fn enroll(kernel: &mut Kernel, child: TaskControlBlock)
    requires
        old(kernel).pids.wf(),
        child.pid.0 + 1 == old(kernel).pids.current,
        child.pid.0 >= 1,
        old(kernel).pids.slots()[child.pid.0 as int].is_none(),
    ensures
        final(kernel).pids.current == old(kernel).pids.current,
        final(kernel).pids.recycled@ == old(kernel).pids.recycled@,
        final(kernel).pids.bounded(),
        final(kernel).pids.slots() == old(kernel).pids.slots().update(child.pid.0 as int, Some(child)),
        final(kernel).queue() == old(kernel).queue().push(child.pid.0),
        final(kernel).board == old(kernel).board,
        final(kernel).entry == old(kernel).entry,
        final(kernel).initproc == old(kernel).initproc,
        final(kernel).pool.sleeping_tasks@ == old(kernel).pool.sleeping_tasks@,
        final(kernel).processors == old(kernel).processors,
        final(kernel).timers == old(kernel).timers,
        final(kernel).serials == old(kernel).serials,
        final(kernel).pipes == old(kernel).pipes,
        final(kernel).ext_int_map == old(kernel).ext_int_map,
        final(kernel).plic == old(kernel).plic,
{
    let pid = child.pid.0;
    kernel.pids.put(child);
    kernel.pool.add(pid);
}

} // verus!
