use uintr_kernel::config::{Board, CPU_NUM};
use uintr_kernel::kernel::Kernel;
use uintr_kernel::mm::MemorySet;
use uintr_kernel::syscall::process::{sys_fork, sys_getpid, sys_set_priority, sys_spawn, sys_waitpid, sys_yield, sys_exit, sys_exec};
use uintr_kernel::task::manager::TaskManager;
use uintr_kernel::task::pid::{add_task_2_map, find_task, kernel_stack_position, pid_alloc, KernelStack, PidAllocator, PidHandle, MAX_PID};
use uintr_kernel::task::pool::{add_task, fetch_task, prioritize_task, TaskPool};
use uintr_kernel::task::processor::{schedule, current_task, current_tasks, current_trap_cx, run_tasks, set_current_priority, take_current_task, Processor};
use uintr_kernel::task::task::{KernelEntry, LoadedImage, TaskControlBlock, TaskStatus};
use uintr_kernel::task::context::TaskContext;
use uintr_kernel::task::{add_initproc, exit_current_and_run_next, suspend_current_and_run_next};
use uintr_kernel::config::{KERNEL_STACK_SIZE, PAGE_SIZE, TRAMPOLINE};

fn entry() -> KernelEntry {
    KernelEntry { kernel_satp: 0x8000_0000, trap_handler: 0x8020_0000, trap_return: 0x8020_1000 }
}

fn image(entry_point: usize) -> LoadedImage {
    LoadedImage { memory_set: MemorySet::new(), user_sp: 0x1_0000, entry_point }
}

fn boot() -> Kernel {
    let mut kernel = Kernel::new(Board::Qemu, entry());
    add_initproc(&mut kernel, image(0x1000));
    kernel
}

fn status(kernel: &Kernel, tid: usize) -> TaskStatus {
    kernel.pids.task_table[&tid].inner.task_status
}

fn queue(kernel: &Kernel) -> Vec<usize> {
    kernel.pool.scheduler.ready_queue.iter().copied().collect()
}

#[test]
fn new_kernel_is_empty() {
    let kernel = Kernel::new(Board::Lrv, entry());
    assert_eq!(kernel.pids.current, 1);
    assert!(kernel.initproc.is_none());
    assert!(queue(&kernel).is_empty());
    assert_eq!(kernel.processors.len(), CPU_NUM);
    assert_eq!(current_tasks(&kernel), vec![None, None, None, None]);
    assert!(find_task(&kernel, 0).is_none());
    assert!(find_task(&kernel, 1).is_none());
}

#[test]
fn first_task_gets_identifier_one() {
    let kernel = boot();
    assert_eq!(kernel.initproc, Some(1));
    assert_eq!(queue(&kernel), vec![1]);
    assert_eq!(status(&kernel, 1), TaskStatus::Ready);
    assert_eq!(find_task(&kernel, 1), Some(1));
    let tcb = &kernel.pids.task_table[&1];
    assert_eq!(tcb.getpid(), 1);
    assert_eq!(tcb.inner.priority, 16);
    assert_eq!(tcb.inner.parent, None);
    assert_eq!(tcb.inner.trap_cx.sepc, 0x1000);
    assert_eq!(tcb.inner.trap_cx.x[2], 0x1_0000);
    assert_eq!(tcb.inner.trap_cx.kernel_satp, 0x8000_0000);
    assert_eq!(tcb.inner.trap_cx.trap_handler, 0x8020_0000);
    assert_eq!(tcb.inner.task_cx.ra, 0x8020_1000);
    assert_eq!(tcb.inner.trap_cx.kernel_sp, TRAMPOLINE - (KERNEL_STACK_SIZE + PAGE_SIZE));
    assert_eq!(tcb.inner.task_cx.sp, tcb.inner.trap_cx.kernel_sp);
    assert_eq!(tcb.inner.fd_table.len(), 5);
    assert!(tcb.inner.user_trap_info.is_none());
}

#[test]
fn run_tasks_switches_to_the_head_of_the_queue() {
    let mut kernel = boot();
    assert_eq!(run_tasks(&mut kernel, 2), Some(1));
    assert_eq!(status(&kernel, 1), TaskStatus::Running(2));
    assert_eq!(current_task(&kernel, 2), Some(1));
    assert_eq!(current_task(&kernel, 0), None);
    assert!(queue(&kernel).is_empty());
    // the registers of the hart hold the task's context, the idle context the old registers
    assert_eq!(kernel.processors[2].registers.ra, 0x8020_1000);
    assert_eq!(kernel.processors[2].idle_task_cx.ra, 0xDEDEDEDE);
    // nothing left to run for another hart
    assert_eq!(run_tasks(&mut kernel, 0), None);
    assert_eq!(current_trap_cx(&kernel, 2).sepc, 0x1000);
}

#[test]
fn yield_puts_the_task_at_the_tail() {
    let mut kernel = boot();
    run_tasks(&mut kernel, 0);
    assert_eq!(sys_fork(&mut kernel, 0), 2);
    assert_eq!(sys_fork(&mut kernel, 0), 3);
    assert_eq!(queue(&kernel), vec![2, 3]);
    assert_eq!(sys_yield(&mut kernel, 0), 0);
    assert_eq!(queue(&kernel), vec![2, 3, 1]);
    assert_eq!(status(&kernel, 1), TaskStatus::Ready);
    assert_eq!(current_task(&kernel, 0), None);
    assert_eq!(kernel.pids.task_table[&1].inner.time_intr_count, 1);
    // first in, first out
    assert_eq!(run_tasks(&mut kernel, 0), Some(2));
    assert_eq!(run_tasks(&mut kernel, 1), Some(3));
    assert_eq!(run_tasks(&mut kernel, 2), Some(1));
    assert_eq!(status(&kernel, 1), TaskStatus::Running(2));
    assert_eq!(status(&kernel, 2), TaskStatus::Running(0));
    assert_eq!(status(&kernel, 3), TaskStatus::Running(1));
}

#[test]
fn suspended_task_keeps_its_registers() {
    let mut kernel = boot();
    run_tasks(&mut kernel, 1);
    kernel.processors[1].registers.s[3] = 0x1234;
    kernel.processors[1].registers.sp = 0x7777;
    suspend_current_and_run_next(&mut kernel, 1);
    let cx = &kernel.pids.task_table[&1].inner.task_cx;
    assert_eq!(cx.s[3], 0x1234);
    assert_eq!(cx.sp, 0x7777);
    assert_eq!(kernel.processors[1].registers.ra, 0xDEDEDEDE);
    run_tasks(&mut kernel, 3);
    assert_eq!(kernel.processors[3].registers.s[3], 0x1234);
    assert_eq!(kernel.processors[3].registers.sp, 0x7777);
}

#[test]
fn fork_makes_a_ready_child() {
    let mut kernel = boot();
    run_tasks(&mut kernel, 0);
    kernel.pids.task_table.get_mut(&1).unwrap().inner.trap_cx.x[10] = 99;
    kernel.pids.task_table.get_mut(&1).unwrap().inner.trap_cx.x[5] = 55;
    let child = sys_fork(&mut kernel, 0);
    assert_eq!(child, 2);
    assert_eq!(status(&kernel, 2), TaskStatus::Ready);
    assert_eq!(queue(&kernel), vec![2]);
    let parent = &kernel.pids.task_table[&1];
    let tcb = &kernel.pids.task_table[&2];
    assert_eq!(parent.inner.children, vec![2]);
    assert_eq!(tcb.inner.parent, Some(1));
    assert_eq!(tcb.inner.trap_cx.x[10], 0);
    assert_eq!(tcb.inner.trap_cx.x[5], 55);
    assert_eq!(parent.inner.trap_cx.x[10], 99);
    assert_eq!(tcb.inner.trap_cx.sepc, parent.inner.trap_cx.sepc);
    assert_eq!(tcb.inner.trap_cx.kernel_sp, TRAMPOLINE - 2 * (KERNEL_STACK_SIZE + PAGE_SIZE));
    assert_eq!(tcb.inner.fd_table, parent.inner.fd_table);
    assert_eq!(tcb.inner.priority, 16);
    assert_eq!(tcb.inner.exit_code, 0);
}

#[test]
fn identifiers_reach_as_far_as_the_kernel_stacks_fit() {
    let stride = KERNEL_STACK_SIZE + PAGE_SIZE;
    assert_eq!(MAX_PID, (TRAMPOLINE - KERNEL_STACK_SIZE) / stride);
    // the stack of the last identifier fits below the trampoline, the next would not
    assert!(MAX_PID.checked_mul(stride).and_then(|n| n.checked_add(KERNEL_STACK_SIZE)).unwrap() <= TRAMPOLINE);
    assert!((MAX_PID as u128 + 1) * stride as u128 + KERNEL_STACK_SIZE as u128 > TRAMPOLINE as u128);
    let mut kernel = boot();
    assert!(kernel.pids.has_free());
    for expected in 2..200usize {
        assert_eq!(pid_alloc(&mut kernel), PidHandle(expected));
    }
    assert!(kernel.pids.has_free());
}

#[test]
fn spawn_starts_a_fresh_program() {
    let mut kernel = boot();
    run_tasks(&mut kernel, 0);
    assert_eq!(sys_spawn(&mut kernel, 0, None), -1);
    assert_eq!(sys_spawn(&mut kernel, 0, Some(image(0x4000))), 2);
    let tcb = &kernel.pids.task_table[&2];
    assert_eq!(tcb.inner.trap_cx.sepc, 0x4000);
    assert_eq!(tcb.inner.parent, Some(1));
    assert_eq!(tcb.inner.trap_cx.x[10], 0);
    assert_eq!(queue(&kernel), vec![2]);
}

#[test]
fn exec_replaces_the_program() {
    let mut kernel = boot();
    run_tasks(&mut kernel, 0);
    assert_eq!(sys_exec(&mut kernel, 0, None), -1);
    assert_eq!(kernel.pids.task_table[&1].inner.trap_cx.sepc, 0x1000);
    assert_eq!(sys_exec(&mut kernel, 0, Some(image(0x9000))), 0);
    let tcb = &kernel.pids.task_table[&1];
    assert_eq!(tcb.inner.trap_cx.sepc, 0x9000);
    assert_eq!(tcb.inner.task_status, TaskStatus::Running(0));
    assert_eq!(tcb.getpid(), 1);
}

#[test]
fn exit_leaves_a_zombie_and_hands_children_to_the_first_task() {
    let mut kernel = boot();
    run_tasks(&mut kernel, 0);
    assert_eq!(sys_fork(&mut kernel, 0), 2);
    suspend_current_and_run_next(&mut kernel, 0);
    assert_eq!(run_tasks(&mut kernel, 0), Some(2));
    assert_eq!(sys_fork(&mut kernel, 0), 3);
    assert_eq!(sys_fork(&mut kernel, 0), 4);
    sys_exit(&mut kernel, 0, 7);
    assert_eq!(status(&kernel, 2), TaskStatus::Zombie);
    assert_eq!(current_task(&kernel, 0), None);
    let zombie = &kernel.pids.task_table[&2];
    assert_eq!(zombie.inner.exit_code, 7);
    assert!(zombie.inner.children.is_empty());
    assert!(zombie.inner.memory_set.areas.is_empty());
    let init = &kernel.pids.task_table[&1];
    assert_eq!(init.inner.children, vec![2, 3, 4]);
    assert_eq!(kernel.pids.task_table[&3].inner.parent, Some(1));
    assert_eq!(kernel.pids.task_table[&4].inner.parent, Some(1));
    // a zombie is not found any more, and is not queued
    assert_eq!(find_task(&kernel, 2), None);
    assert_eq!(queue(&kernel), vec![1, 3, 4]);
}

#[test]
fn waitpid_reaps_a_zombie_child() {
    let mut kernel = boot();
    run_tasks(&mut kernel, 0);
    let mut code: i32 = 0;
    // no child at all
    assert_eq!(sys_waitpid(&mut kernel, 0, -1, &mut code), -1);
    assert_eq!(sys_fork(&mut kernel, 0), 2);
    assert_eq!(sys_fork(&mut kernel, 0), 3);
    // children, but none has ended
    assert_eq!(sys_waitpid(&mut kernel, 0, -1, &mut code), -2);
    assert_eq!(sys_waitpid(&mut kernel, 0, 3, &mut code), -2);
    // not a child
    assert_eq!(sys_waitpid(&mut kernel, 0, 9, &mut code), -1);
    assert_eq!(code, 0);
    // let the second child run and end
    suspend_current_and_run_next(&mut kernel, 0);
    assert_eq!(run_tasks(&mut kernel, 1), Some(2));
    assert_eq!(run_tasks(&mut kernel, 2), Some(3));
    exit_current_and_run_next(&mut kernel, 2, -5);
    assert_eq!(run_tasks(&mut kernel, 0), Some(1));
    assert_eq!(sys_waitpid(&mut kernel, 0, 2, &mut code), -2);
    assert_eq!(sys_waitpid(&mut kernel, 0, -1, &mut code), 3);
    assert_eq!(code, -5);
    assert!(!kernel.pids.task_table.contains_key(&3));
    assert_eq!(kernel.pids.task_table[&1].inner.children, vec![2]);
    // its identifier is not given out again
    assert_eq!(sys_fork(&mut kernel, 0), 4);
    assert_eq!(sys_waitpid(&mut kernel, 0, 3, &mut code), -1);
}

#[test]
fn no_task_runs_on_two_harts() {
    let mut kernel = boot();
    run_tasks(&mut kernel, 0);
    for _ in 0..5 {
        sys_fork(&mut kernel, 0);
    }
    for hart in 1..CPU_NUM {
        run_tasks(&mut kernel, hart);
    }
    let running = current_tasks(&kernel);
    for (hart, task) in running.iter().enumerate() {
        let tid = task.unwrap();
        assert_eq!(status(&kernel, tid), TaskStatus::Running(hart));
        assert_eq!(running.iter().filter(|t| **t == Some(tid)).count(), 1);
    }
    // every table entry agrees with the ready queue
    let queued = queue(&kernel);
    for tid in 1..kernel.pids.current {
        let ready = status(&kernel, tid) == TaskStatus::Ready;
        assert_eq!(queued.iter().filter(|t| **t == tid).count(), if ready { 1 } else { 0 });
    }
}

#[test]
fn getpid_and_priority() {
    let mut kernel = boot();
    run_tasks(&mut kernel, 3);
    assert_eq!(sys_getpid(&kernel, 3), 1);
    assert_eq!(sys_set_priority(&mut kernel, 3, 2), 2);
    assert_eq!(kernel.pids.task_table[&1].inner.priority, 2);
    assert_eq!(sys_set_priority(&mut kernel, 3, 1), -1);
    assert_eq!(sys_set_priority(&mut kernel, 3, -4), -1);
    assert_eq!(kernel.pids.task_table[&1].inner.priority, 2);
    assert_eq!(sys_set_priority(&mut kernel, 3, 40), 40);
    // a hart without task
    assert_eq!(set_current_priority(&mut kernel, 0, 5), Err(-1));
    assert_eq!(set_current_priority(&mut kernel, 3, 5), Ok(5));
}

#[test]
fn take_current_task_empties_the_hart() {
    let mut kernel = boot();
    run_tasks(&mut kernel, 1);
    assert_eq!(take_current_task(&mut kernel, 1), Some(1));
    assert_eq!(take_current_task(&mut kernel, 1), None);
    assert_eq!(current_task(&kernel, 1), None);
    let mut hart = Processor::new();
    assert_eq!(hart.current(), None);
    assert_eq!(hart.take_current(), None);
    assert_eq!(Processor::default().uscratch, 0);
}

#[test]
fn ready_queue_is_first_in_first_out() {
    let mut manager = TaskManager::new();
    assert_eq!(manager.fetch(), None);
    manager.add(3);
    manager.add(1);
    manager.add(2);
    manager.remove(1);
    manager.remove(9);
    manager.add(4);
    assert_eq!(manager.fetch(), Some(3));
    assert_eq!(manager.fetch(), Some(2));
    assert_eq!(manager.fetch(), Some(4));
    assert_eq!(manager.fetch(), None);
}

#[test]
fn prioritize_rotates_a_task_to_the_front() {
    let mut manager = TaskManager::new();
    for tid in [5, 6, 7, 8] {
        manager.add(tid);
    }
    manager.prioritize(7);
    assert_eq!(manager.ready_queue.iter().copied().collect::<Vec<_>>(), vec![7, 8, 5, 6]);
    manager.prioritize(7);
    assert_eq!(manager.ready_queue.iter().copied().collect::<Vec<_>>(), vec![7, 8, 5, 6]);
    // a task that is not queued leaves the queue as it is
    manager.prioritize(42);
    assert_eq!(manager.ready_queue.iter().copied().collect::<Vec<_>>(), vec![7, 8, 5, 6]);
    let mut one = TaskManager::new();
    one.add(1);
    one.prioritize(2);
    assert_eq!(one.fetch(), Some(1));
}

#[test]
fn pool_sleep_and_wake() {
    let mut pool = TaskPool::new();
    pool.add(1);
    pool.add(2);
    pool.add(3);
    pool.sleep(2);
    assert!(pool.sleeping_tasks.contains(&2));
    assert_eq!(pool.fetch(), Some(1));
    pool.wake(2);
    assert!(!pool.sleeping_tasks.contains(&2));
    pool.remove(3);
    pool.prioritize(2);
    assert_eq!(pool.fetch(), Some(2));
    assert_eq!(pool.fetch(), None);
}

#[test]
fn queue_functions_of_the_kernel() {
    let mut kernel = Kernel::new(Board::Qemu, entry());
    add_task(&mut kernel, 8);
    add_task(&mut kernel, 9);
    prioritize_task(&mut kernel, 9);
    assert_eq!(fetch_task(&mut kernel), Some(9));
    assert_eq!(fetch_task(&mut kernel), Some(8));
    assert_eq!(fetch_task(&mut kernel), None);
}

#[test]
fn identifiers_grow_and_are_not_reused() {
    let mut pids = PidAllocator::new();
    assert!(pids.has_free());
    assert_eq!(pids.alloc_pid(), PidHandle(1));
    assert_eq!(pids.alloc_pid(), PidHandle(2));
    let task = TaskControlBlock::new(PidHandle(2), image(0x10), entry(), 0, 0);
    assert!(pids.add_task(2, task).is_ok());
    // the slot is taken
    let again = TaskControlBlock::new(PidHandle(2), image(0x10), entry(), 0, 0);
    assert_eq!(pids.add_task(2, again).err().map(|e| e.0), Some(2));
    // not given out yet
    let early = TaskControlBlock::new(PidHandle(5), image(0x10), entry(), 0, 0);
    assert_eq!(pids.add_task(5, early).err().map(|e| e.0), Some(5));
    let gone = pids.dealloc(2);
    assert_eq!(gone.getpid(), 2);
    assert_eq!(pids.alloc_pid(), PidHandle(3));
}

#[test]
fn tasks_are_found_and_changed_by_identifier() {
    let mut pids = PidAllocator::new();
    assert_eq!(pids.alloc_pid(), PidHandle(1));
    assert_eq!(pids.alloc_pid(), PidHandle(2));
    assert_eq!(pids.alloc_pid(), PidHandle(3));
    assert!(pids.slot(1).is_none());
    assert!(pids.slot_mut(1).is_none());
    pids.put(TaskControlBlock::new(PidHandle(1), image(0x10), entry(), 0, 0));
    pids.put(TaskControlBlock::new(PidHandle(3), image(0x30), entry(), 0, 0));
    assert_eq!(pids.slot(1).map(|task| task.getpid()), Some(1));
    assert!(pids.slot(2).is_none());
    assert_eq!(pids.slot(3).map(|task| task.inner.trap_cx.sepc), Some(0x30));
    assert!(pids.slot(0).is_none());
    assert!(pids.slot(4).is_none());
    // a change made through the table stays in the table, and only there
    match pids.slot_mut(3) {
        Some(task) => task.inner.priority = 7,
        None => panic!("task 3 is in the table"),
    }
    assert_eq!(pids.slot(3).map(|task| task.inner.priority), Some(7));
    assert_eq!(pids.slot(1).map(|task| task.inner.priority), Some(16));
    assert_eq!(pids.task_table.len(), 2);
    assert_eq!(pids.current, 4);
}

#[test]
fn kernel_stacks_lie_below_the_trampoline() {
    assert_eq!(kernel_stack_position(0), (TRAMPOLINE - 0x4000, TRAMPOLINE));
    assert_eq!(kernel_stack_position(1), (TRAMPOLINE - 0x9000, TRAMPOLINE - 0x5000));
    assert_eq!(kernel_stack_position(3), (TRAMPOLINE - 0x13000, TRAMPOLINE - 0xf000));
    let stack = KernelStack::new(&PidHandle(2));
    assert_eq!(stack.get_top(), TRAMPOLINE - 0xa000);
    let (bottom, top) = kernel_stack_position(MAX_PID);
    assert_eq!(top - bottom, KERNEL_STACK_SIZE);
    assert_eq!(top, TRAMPOLINE - MAX_PID * (KERNEL_STACK_SIZE + PAGE_SIZE));
    assert!(bottom < KERNEL_STACK_SIZE + PAGE_SIZE);
}

#[test]
fn task_context_switch_saves_and_loads() {
    let mut live = TaskContext::goto_trap_return(0x100, 0x200, 1, 2);
    let mut saved = TaskContext::default();
    let mut next = TaskContext::default();
    next.ra = 0x999;
    next.uie = 0x111;
    TaskContext::switch(&mut live, &mut saved, &next);
    assert_eq!(saved.ra, 0x200);
    assert_eq!(saved.sp, 0x100);
    assert_eq!(saved.uie, 1);
    assert_eq!(saved.uip, 2);
    assert_eq!(live.ra, 0x999);
    assert_eq!(live.uie, 0x111);
    let idle = TaskContext::default();
    assert_eq!(idle.ra, 0xDEDEDEDE);
    assert_eq!(idle.sp, 0xABABABAB);
    assert_eq!(idle.s, [0x23232323; 12]);
}

#[test]
fn trap_context_of_a_task_can_be_changed() {
    let mut kernel = boot();
    let inner = &mut kernel.pids.task_table.get_mut(&1).unwrap().inner;
    assert!(!inner.is_zombie());
    assert_eq!(inner.get_status(), TaskStatus::Ready);
    inner.get_trap_cx().sepc = 0x2468;
    inner.get_trap_cx().set_sp(0x9000);
    assert_eq!(inner.trap_cx.sepc, 0x2468);
    assert_eq!(inner.trap_cx.x[2], 0x9000);
    assert!(!inner.trap_cx.uie());
    assert_eq!(inner.alloc_fd(), 5);
    assert_eq!(inner.fd_table.len(), 6);
    inner.fd_table[2] = None;
    assert_eq!(inner.alloc_fd(), 2);
    assert!(inner.is_mailbox_empty());
    assert!(!inner.is_mailbox_full());
    assert_eq!(inner.user_trap_record_num(), 0);
}

#[test]
fn schedule_saves_the_registers_and_goes_idle() {
    let mut hart = Processor::new();
    hart.registers.ra = 0x1111;
    hart.registers.sp = 0x2222;
    hart.idle_task_cx.ra = 0x3333;
    hart.current = Some(4);
    let mut saved = TaskContext::default();
    schedule(&mut hart, &mut saved);
    assert_eq!(saved.ra, 0x1111);
    assert_eq!(saved.sp, 0x2222);
    assert_eq!(hart.registers.ra, 0x3333);
    assert_eq!(hart.idle_task_cx.ra, 0x3333);
    assert_eq!(hart.current, Some(4));
}

#[test]
fn scheduling_round_of_a_hart() {
    let mut kernel = boot();
    assert_eq!(Processor::run(&mut kernel, 1), Some(1));
    assert_eq!(status(&kernel, 1), TaskStatus::Running(1));
    assert_eq!(Processor::run(&mut kernel, 0), None);
}

#[test]
fn task_enters_the_table_under_its_identifier() {
    let mut kernel = Kernel::new(Board::Qemu, entry());
    let handle = pid_alloc(&mut kernel);
    assert_eq!(handle, PidHandle(1));
    let task = TaskControlBlock::new(handle, image(0x10), entry(), 0, 0);
    add_task_2_map(&mut kernel, 1, task);
    assert_eq!(find_task(&kernel, 1), Some(1));
    assert!(queue(&kernel).is_empty());
}

#[test]
fn first_task_keeps_its_children_when_it_ends() {
    let mut kernel = boot();
    run_tasks(&mut kernel, 0);
    assert_eq!(sys_fork(&mut kernel, 0), 2);
    assert_eq!(sys_fork(&mut kernel, 0), 3);
    exit_current_and_run_next(&mut kernel, 0, 1);
    let init = &kernel.pids.task_table[&1];
    assert_eq!(init.inner.task_status, TaskStatus::Zombie);
    assert_eq!(init.inner.children, vec![2, 3]);
    assert_eq!(kernel.pids.task_table[&2].inner.parent, Some(1));
    assert_eq!(queue(&kernel), vec![2, 3]);
}

#[test]
fn waitpid_takes_the_first_child_that_has_ended() {
    let mut kernel = boot();
    run_tasks(&mut kernel, 0);
    for child in 2..=4 {
        assert_eq!(sys_fork(&mut kernel, 0), child);
    }
    suspend_current_and_run_next(&mut kernel, 0);
    for hart in 1..=3 {
        run_tasks(&mut kernel, hart);
    }
    // the children 4 and 3 end, in this order
    exit_current_and_run_next(&mut kernel, 3, 40);
    exit_current_and_run_next(&mut kernel, 2, 30);
    assert_eq!(run_tasks(&mut kernel, 0), Some(1));
    let mut code = 0;
    // a negative number other than -1 names no child
    assert_eq!(sys_waitpid(&mut kernel, 0, -7, &mut code), -1);
    assert_eq!(sys_waitpid(&mut kernel, 0, -1, &mut code), 3);
    assert_eq!(code, 30);
    assert_eq!(sys_waitpid(&mut kernel, 0, -1, &mut code), 4);
    assert_eq!(code, 40);
    assert_eq!(sys_waitpid(&mut kernel, 0, -1, &mut code), -2);
    assert_eq!(kernel.pids.task_table[&1].inner.children, vec![2]);
}

#[test]
fn orphans_are_reaped_by_the_first_task() {
    let mut kernel = boot();
    run_tasks(&mut kernel, 0);
    assert_eq!(sys_fork(&mut kernel, 0), 2);
    suspend_current_and_run_next(&mut kernel, 0);
    assert_eq!(run_tasks(&mut kernel, 1), Some(2));
    assert_eq!(sys_fork(&mut kernel, 1), 3);
    // the parent ends before its child
    exit_current_and_run_next(&mut kernel, 1, 0);
    assert_eq!(run_tasks(&mut kernel, 0), Some(1));
    assert_eq!(run_tasks(&mut kernel, 1), Some(3));
    exit_current_and_run_next(&mut kernel, 1, 9);
    let mut code = 0;
    assert_eq!(sys_waitpid(&mut kernel, 0, 3, &mut code), 3);
    assert_eq!(code, 9);
    assert_eq!(sys_waitpid(&mut kernel, 0, 2, &mut code), 2);
    assert_eq!(code, 0);
    assert_eq!(sys_waitpid(&mut kernel, 0, -1, &mut code), -1);
}
