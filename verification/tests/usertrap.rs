use uintr_kernel::config::Board;
use uintr_kernel::kernel::Kernel;
use uintr_kernel::mm::MemorySet;
use uintr_kernel::plic::{Plic, PlicOp};
use uintr_kernel::syscall::process::{sys_fork, sys_init_user_trap, sys_send_msg};
use uintr_kernel::task::processor::run_tasks;
use uintr_kernel::task::task::{KernelEntry, LoadedImage};
use uintr_kernel::task::{add_initproc, exit_current_and_run_next, suspend_current_and_run_next};
use uintr_kernel::trap::usertrap::{push_trap_record, UserTrapError, UserTrapInfo, UserTrapRecord, USER_TRAP_CAPACITY};
use uintr_kernel::trap::trap_return;
use uintr_kernel::user::trap::{event_of, user_trap_handler, UserCause, UserEvent};
use uintr_kernel::config::USER_TRAP_BUFFER;

fn boot() -> Kernel {
    let entry = KernelEntry { kernel_satp: 1, trap_handler: 2, trap_return: 3 };
    let mut kernel = Kernel::new(Board::Qemu, entry);
    add_initproc(
        &mut kernel,
        LoadedImage { memory_set: MemorySet::new(), user_sp: 0x1_0000, entry_point: 0x1000 },
    );
    kernel
}

fn info(kernel: &mut Kernel, tid: usize) -> &mut UserTrapInfo {
    kernel.pids.task_table.get_mut(&tid).unwrap().inner.user_trap_info.as_mut().unwrap()
}

#[test]
fn queue_is_first_in_first_out() {
    let mut info = UserTrapInfo::new();
    assert_eq!(info.user_trap_record_num(), 0);
    assert_eq!(info.pop_trap_record(), None);
    for i in 0..5 {
        assert_eq!(info.push_trap_record(UserTrapRecord { cause: i << 4, message: 100 + i }), Ok(()));
    }
    assert_eq!(info.user_trap_record_num(), 5);
    for i in 0..5 {
        assert_eq!(info.pop_trap_record(), Some(UserTrapRecord { cause: i << 4, message: 100 + i }));
    }
    assert_eq!(info.pop_trap_record(), None);
    assert_eq!(info.user_trap_record_num(), 0);
}

#[test]
fn queue_holds_one_record_less_than_it_has_slots() {
    let mut info = UserTrapInfo::new();
    for i in 0..USER_TRAP_CAPACITY {
        assert_eq!(info.push_trap_record(UserTrapRecord { cause: 4, message: i }), Ok(()));
    }
    assert_eq!(USER_TRAP_CAPACITY, 127);
    assert_eq!(info.user_trap_record_num(), 127);
    assert_eq!(
        info.push_trap_record(UserTrapRecord { cause: 4, message: 999 }),
        Err(UserTrapError::TrapBufferFull)
    );
    assert_eq!(info.user_trap_record_num(), 127);
    assert_eq!(info.pop_trap_record(), Some(UserTrapRecord { cause: 4, message: 0 }));
    assert_eq!(info.push_trap_record(UserTrapRecord { cause: 4, message: 999 }), Ok(()));
    // the dropped record never arrives
    let mut last = None;
    while let Some(record) = info.pop_trap_record() {
        last = Some(record);
    }
    assert_eq!(last, Some(UserTrapRecord { cause: 4, message: 999 }));
}

#[test]
fn forked_queue_is_a_copy() {
    let mut info = UserTrapInfo::new();
    info.push_trap_record(UserTrapRecord { cause: 16, message: 1 }).unwrap();
    info.push_trap_record(UserTrapRecord { cause: 32, message: 2 }).unwrap();
    info.devices.push((13, true));
    let mut copy = info.fork();
    assert!(copy.devices.is_empty());
    assert_eq!(copy.user_trap_record_num(), 2);
    assert_eq!(copy.pop_trap_record(), Some(UserTrapRecord { cause: 16, message: 1 }));
    // the parent's queue is untouched
    assert_eq!(info.user_trap_record_num(), 2);
    assert_eq!(info.pop_trap_record(), Some(UserTrapRecord { cause: 16, message: 1 }));
    assert_eq!(copy.pop_trap_record(), Some(UserTrapRecord { cause: 32, message: 2 }));
}

#[test]
fn push_to_unknown_task_fails() {
    let mut kernel = boot();
    let record = UserTrapRecord { cause: 4, message: 0 };
    assert_eq!(push_trap_record(&mut kernel, 5, record), Err(UserTrapError::TaskNotFound));
    assert_eq!(push_trap_record(&mut kernel, 0, record), Err(UserTrapError::TaskNotFound));
    assert_eq!(push_trap_record(&mut kernel, usize::MAX, record), Err(UserTrapError::TaskNotFound));
}

#[test]
fn push_to_task_that_has_not_opted_in_fails() {
    let mut kernel = boot();
    let record = UserTrapRecord { cause: 4, message: 0 };
    assert_eq!(push_trap_record(&mut kernel, 1, record), Err(UserTrapError::TrapUninitialized));
}

#[test]
fn push_to_task_that_has_ended_fails() {
    let mut kernel = boot();
    run_tasks(&mut kernel, 0);
    assert_eq!(sys_fork(&mut kernel, 0), 2);
    suspend_current_and_run_next(&mut kernel, 0);
    run_tasks(&mut kernel, 0);
    assert_eq!(sys_init_user_trap(&mut kernel, 0), -0x3000);
    exit_current_and_run_next(&mut kernel, 0, 0);
    let record = UserTrapRecord { cause: 4, message: 0 };
    assert_eq!(push_trap_record(&mut kernel, 2, record), Err(UserTrapError::TaskNotFound));
}

#[test]
fn push_to_full_queue_fails() {
    let mut kernel = boot();
    run_tasks(&mut kernel, 0);
    sys_init_user_trap(&mut kernel, 0);
    for i in 0..127 {
        assert_eq!(push_trap_record(&mut kernel, 1, UserTrapRecord { cause: 4, message: i }), Ok(()));
    }
    assert_eq!(
        push_trap_record(&mut kernel, 1, UserTrapRecord { cause: 4, message: 127 }),
        Err(UserTrapError::TrapBufferFull)
    );
    assert_eq!(sys_send_msg(&mut kernel, 1, 5), -1);
    assert_eq!(info(&mut kernel, 1).user_trap_record_num(), 127);
}

#[test]
fn init_user_trap_opts_in_once() {
    let mut kernel = boot();
    run_tasks(&mut kernel, 0);
    assert_eq!(sys_init_user_trap(&mut kernel, 0), USER_TRAP_BUFFER as isize);
    let inner = &kernel.pids.task_table[&1].inner;
    assert!(inner.is_user_trap_enabled());
    assert_eq!(inner.trap_cx.sstatus & 1, 1);
    assert!(inner.memory_set.is_mapped(USER_TRAP_BUFFER, USER_TRAP_BUFFER + 0x1000, 3));
    assert_eq!(inner.memory_set.areas.len(), 1);
    // a second call changes nothing
    assert_eq!(sys_init_user_trap(&mut kernel, 0), -1);
    assert_eq!(kernel.pids.task_table[&1].inner.memory_set.areas.len(), 1);
}

#[test]
fn messages_arrive_in_the_order_sent() {
    let mut kernel = boot();
    run_tasks(&mut kernel, 0);
    assert_eq!(sys_fork(&mut kernel, 0), 2);
    // the receiver opts in
    suspend_current_and_run_next(&mut kernel, 0);
    assert_eq!(run_tasks(&mut kernel, 1), Some(2));
    sys_init_user_trap(&mut kernel, 1);
    suspend_current_and_run_next(&mut kernel, 1);
    // the sender sends one message per round
    assert_eq!(run_tasks(&mut kernel, 0), Some(1));
    for i in 1..=10usize {
        assert_eq!(sys_send_msg(&mut kernel, 2, 0xdeadbeef00 + i), 0);
        suspend_current_and_run_next(&mut kernel, 0);
        assert_eq!(run_tasks(&mut kernel, 0), Some(2));
        suspend_current_and_run_next(&mut kernel, 0);
        assert_eq!(run_tasks(&mut kernel, 0), Some(1));
    }
    suspend_current_and_run_next(&mut kernel, 0);
    assert_eq!(run_tasks(&mut kernel, 2), Some(2));
    // the return to user mode announces the ten records
    trap_return(&mut kernel, 2);
    assert_eq!(kernel.processors[2].uscratch, 10);
    assert_eq!(kernel.processors[2].registers.uip & 1, 1);
    let announced = kernel.processors[2].uscratch;
    let work = user_trap_handler(UserCause::UserSoft, announced, 0x111, info(&mut kernel, 2), &vec![]);
    assert_eq!(work.records, 10);
    assert_eq!(work.events.len(), 10);
    for (i, event) in work.events.iter().enumerate() {
        assert_eq!(*event, UserEvent::Soft { pid: 2, msg: 0xdeadbeef01 + i });
    }
    assert_eq!(info(&mut kernel, 2).user_trap_record_num(), 0);
}

#[test]
fn send_msg_cause_has_a_zero_low_nibble() {
    let mut kernel = boot();
    run_tasks(&mut kernel, 0);
    sys_init_user_trap(&mut kernel, 0);
    assert_eq!(sys_send_msg(&mut kernel, 1, 77), 0);
    let record = info(&mut kernel, 1).pop_trap_record().unwrap();
    assert_eq!(record, UserTrapRecord { cause: 16, message: 77 });
    assert_eq!(record.cause & 0xF, 0);
    assert_eq!(record.cause >> 4, 1);
    assert_eq!(sys_send_msg(&mut kernel, 3, 77), -1);
    assert_eq!(sys_send_msg(&mut kernel, usize::MAX, 77), -1);
}

#[test]
fn trap_return_without_records_changes_nothing() {
    let mut kernel = boot();
    run_tasks(&mut kernel, 0);
    trap_return(&mut kernel, 0);
    assert_eq!(kernel.processors[0].uscratch, 0);
    assert_eq!(kernel.processors[0].registers.uip & 1, 0);
    sys_init_user_trap(&mut kernel, 0);
    trap_return(&mut kernel, 0);
    assert_eq!(kernel.processors[0].uscratch, 0);
    sys_send_msg(&mut kernel, 1, 1);
    sys_send_msg(&mut kernel, 1, 2);
    trap_return(&mut kernel, 0);
    assert_eq!(kernel.processors[0].uscratch, 2);
    assert_eq!(kernel.processors[0].registers.uip & 1, 1);
}

#[test]
fn trap_return_counts_nothing_for_a_task_with_user_interrupts_off() {
    let mut kernel = boot();
    run_tasks(&mut kernel, 0);
    sys_init_user_trap(&mut kernel, 0);
    sys_send_msg(&mut kernel, 1, 1);
    kernel.pids.task_table.get_mut(&1).unwrap().inner.trap_cx.sstatus = 0;
    trap_return(&mut kernel, 0);
    assert_eq!(kernel.processors[0].uscratch, 0);
}

#[test]
fn records_decode_to_events() {
    assert_eq!(
        event_of(UserTrapRecord { cause: 0x30, message: 9 }),
        Some(UserEvent::Soft { pid: 3, msg: 9 })
    );
    assert_eq!(
        event_of(UserTrapRecord { cause: 8, message: 13 }),
        Some(UserEvent::External { irq: 13, is_from_kernel: true })
    );
    assert_eq!(event_of(UserTrapRecord { cause: 4, message: 555 }), Some(UserEvent::Timer { time_us: 555 }));
    assert_eq!(event_of(UserTrapRecord { cause: 5, message: 1 }), None);
}

#[test]
fn user_handler_by_cause() {
    let mut info = UserTrapInfo::new();
    info.push_trap_record(UserTrapRecord { cause: 8, message: 14 }).unwrap();
    info.push_trap_record(UserTrapRecord { cause: 3, message: 0 }).unwrap();
    info.push_trap_record(UserTrapRecord { cause: 4, message: 20 }).unwrap();
    let work = user_trap_handler(UserCause::UserExternal, 3, 0x111, &mut info, &vec![15, 13]);
    assert_eq!(work.records, 0);
    assert_eq!(work.uip, 0x111);
    assert_eq!(
        work.events,
        vec![
            UserEvent::External { irq: 15, is_from_kernel: false },
            UserEvent::External { irq: 13, is_from_kernel: false }
        ]
    );
    let work = user_trap_handler(UserCause::UserTimer, 3, 0x111, &mut info, &vec![]);
    assert_eq!(work.events, vec![UserEvent::Timer { time_us: 0 }]);
    assert_eq!(work.uip, 0x101);
    let work = user_trap_handler(UserCause::Unsupported, 3, 0x111, &mut info, &vec![1]);
    assert!(work.events.is_empty());
    assert_eq!(work.uip, 0x111);
    assert_eq!(info.user_trap_record_num(), 3);
    let work = user_trap_handler(UserCause::UserSoft, 3, 0x111, &mut info, &vec![1]);
    assert_eq!(work.records, 3);
    assert_eq!(work.uip, 0x110);
    assert_eq!(
        work.events,
        vec![UserEvent::External { irq: 14, is_from_kernel: true }, UserEvent::Timer { time_us: 20 }]
    );
    assert_eq!(info.user_trap_record_num(), 0);
}

#[test]
fn handoff_steers_the_devices_of_a_task() {
    let mut plic = Plic::new();
    let mut info = UserTrapInfo::new();
    info.devices.push((13, true));
    info.devices.push((14, false));
    for hart in 0..4 {
        plic.enable(3 * hart + 1, 13);
        plic.enable(3 * hart + 1, 14);
    }
    plic.take_ops();
    info.enable_user_ext_int(&mut plic, 2);
    for hart in 0..4 {
        assert!(!plic.is_enabled(3 * hart + 1, 13));
        assert!(!plic.is_enabled(3 * hart + 1, 14));
    }
    assert!(plic.is_enabled(8, 13));
    assert!(!plic.is_enabled(8, 14));
    let ops = plic.take_ops();
    assert_eq!(
        ops,
        vec![
            PlicOp::Disable { context: 1, irq: 13 },
            PlicOp::Disable { context: 4, irq: 13 },
            PlicOp::Disable { context: 7, irq: 13 },
            PlicOp::Disable { context: 10, irq: 13 },
            PlicOp::Enable { context: 8, irq: 13 },
            PlicOp::Disable { context: 1, irq: 14 },
            PlicOp::Disable { context: 4, irq: 14 },
            PlicOp::Disable { context: 7, irq: 14 },
            PlicOp::Disable { context: 10, irq: 14 },
            PlicOp::Disable { context: 8, irq: 14 },
        ]
    );
    info.disable_user_ext_int(&mut plic, 2);
    assert!(!plic.is_enabled(8, 13));
    assert!(plic.is_enabled(7, 13));
    assert!(!plic.is_enabled(7, 14));
    assert_eq!(
        plic.take_ops(),
        vec![
            PlicOp::Disable { context: 8, irq: 13 },
            PlicOp::Enable { context: 7, irq: 13 },
            PlicOp::Disable { context: 8, irq: 14 },
            PlicOp::Disable { context: 7, irq: 14 },
        ]
    );
}

#[test]
fn trap_queue_can_be_reached() {
    let mut info = UserTrapInfo::new();
    assert!(info.get_trap_queue_mut().enqueue((16, 5)).is_ok());
    assert_eq!(info.get_trap_queue().len(), 1);
    assert_eq!(info.user_trap_record_num(), 1);
    assert_eq!(info.pop_trap_record(), Some(UserTrapRecord { cause: 16, message: 5 }));
}

#[test]
fn handler_takes_only_the_announced_records() {
    let mut info = UserTrapInfo::new();
    for i in 0..5usize {
        info.push_trap_record(UserTrapRecord { cause: 0x20, message: i }).unwrap();
    }
    // three were announced; two more have arrived since
    let work = user_trap_handler(UserCause::UserSoft, 3, 0x111, &mut info, &vec![]);
    assert_eq!(work.records, 3);
    assert_eq!(
        work.events,
        vec![
            UserEvent::Soft { pid: 2, msg: 0 },
            UserEvent::Soft { pid: 2, msg: 1 },
            UserEvent::Soft { pid: 2, msg: 2 }
        ]
    );
    assert_eq!(info.user_trap_record_num(), 2);
    assert_eq!(info.pop_trap_record(), Some(UserTrapRecord { cause: 0x20, message: 3 }));
    assert_eq!(info.pop_trap_record(), Some(UserTrapRecord { cause: 0x20, message: 4 }));
}

#[test]
fn handler_takes_no_more_than_wait() {
    let mut info = UserTrapInfo::new();
    info.push_trap_record(UserTrapRecord { cause: 4, message: 9 }).unwrap();
    let work = user_trap_handler(UserCause::UserSoft, 7, 1, &mut info, &vec![]);
    assert_eq!(work.records, 1);
    assert_eq!(work.events, vec![UserEvent::Timer { time_us: 9 }]);
    assert_eq!(info.user_trap_record_num(), 0);
    let work = user_trap_handler(UserCause::UserSoft, 0, 0, &mut info, &vec![]);
    assert_eq!(work.records, 0);
    assert!(work.events.is_empty());
}

#[test]
fn trap_return_announces_what_the_handler_takes() {
    let mut kernel = boot();
    run_tasks(&mut kernel, 0);
    sys_init_user_trap(&mut kernel, 0);
    sys_send_msg(&mut kernel, 1, 1);
    sys_send_msg(&mut kernel, 1, 2);
    trap_return(&mut kernel, 0);
    let announced = kernel.processors[0].uscratch;
    assert_eq!(announced, 2);
    // a record that arrives after the return waits for the next entry
    sys_send_msg(&mut kernel, 1, 3);
    let work = user_trap_handler(UserCause::UserSoft, announced, 1, info(&mut kernel, 1), &vec![]);
    assert_eq!(work.records, 2);
    assert_eq!(work.uip, 0);
    assert_eq!(work.events, vec![UserEvent::Soft { pid: 1, msg: 1 }, UserEvent::Soft { pid: 1, msg: 2 }]);
    assert_eq!(info(&mut kernel, 1).user_trap_record_num(), 1);
}
