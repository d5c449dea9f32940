use uintr_kernel::config::Board;
use uintr_kernel::kernel::Kernel;
use uintr_kernel::mm::MemorySet;
use uintr_kernel::syscall::process::{sys_fork, sys_get_time, sys_init_user_trap, sys_set_timer};
use uintr_kernel::syscall::UserArea;
use uintr_kernel::task::processor::{current_task, run_tasks};
use uintr_kernel::task::task::{KernelEntry, LoadedImage, TaskStatus};
use uintr_kernel::task::{add_initproc, suspend_current_and_run_next};
use uintr_kernel::timer::{
    get_time, get_time_ms, get_time_us, set_next_trigger, set_virtual_timer, ticks_of_us, TimeVal, TimerMap,
};
use uintr_kernel::trap::usertrap::UserTrapRecord;
use uintr_kernel::trap::{handle_timer, trap_handler, TrapCause, TrapOutcome};

fn boot(board: Board) -> Kernel {
    let entry = KernelEntry { kernel_satp: 1, trap_handler: 2, trap_return: 3 };
    let mut kernel = Kernel::new(board, entry);
    add_initproc(
        &mut kernel,
        LoadedImage { memory_set: MemorySet::new(), user_sp: 0x1_0000, entry_point: 0x1000 },
    );
    kernel
}

fn user() -> UserArea {
    UserArea { valid: true, bytes: Vec::new(), time: TimeVal::new(), exit_code: 0, pipe: [0, 0], image: None }
}

#[test]
fn time_of_day_from_ticks() {
    assert_eq!(get_time(0, Board::Qemu), TimeVal { sec: 0, usec: 0 });
    assert_eq!(get_time(12_500_000, Board::Qemu), TimeVal { sec: 1, usec: 0 });
    assert_eq!(get_time(31_250_000, Board::Qemu), TimeVal { sec: 2, usec: 500_000 });
    assert_eq!(get_time(12_500_001, Board::Qemu), TimeVal { sec: 1, usec: 0 });
    assert_eq!(get_time(12_500_025, Board::Qemu), TimeVal { sec: 1, usec: 2 });
    assert_eq!(get_time(25_000_000, Board::Lrv), TimeVal { sec: 2, usec: 500_000 });
    assert_eq!(get_time(9_999_999, Board::Lrv), TimeVal { sec: 0, usec: 999_999 });
}

#[test]
fn time_in_milliseconds_and_microseconds() {
    assert_eq!(get_time_ms(12_500_000, Board::Qemu), 1000);
    assert_eq!(get_time_ms(12_499, Board::Qemu), 0);
    assert_eq!(get_time_ms(12_500, Board::Qemu), 1);
    assert_eq!(get_time_ms(35_000, Board::Lrv), 3);
    assert_eq!(get_time_us(12_500_000, Board::Qemu), 1_000_000);
    assert_eq!(get_time_us(25, Board::Qemu), 2);
    assert_eq!(get_time_us(24, Board::Qemu), 1);
    assert_eq!(get_time_us(10, Board::Lrv), 1);
    assert_eq!(get_time_us(usize::MAX, Board::Lrv), usize::MAX / 10);
}

#[test]
fn microseconds_to_ticks() {
    assert_eq!(ticks_of_us(1_000_000, Board::Qemu), 12_500_000);
    assert_eq!(ticks_of_us(1, Board::Qemu), 12);
    assert_eq!(ticks_of_us(2, Board::Qemu), 25);
    assert_eq!(ticks_of_us(1_000_000, Board::Lrv), 10_000_000);
    assert_eq!(ticks_of_us(0, Board::Lrv), 0);
}

#[test]
fn sys_get_time_stores_the_time() {
    let kernel = boot(Board::Qemu);
    let mut time = TimeVal::new();
    assert_eq!(sys_get_time(&kernel, 18_750_000, &mut time, 0), 0);
    assert_eq!(time, TimeVal { sec: 1, usec: 500_000 });
}

#[test]
fn hart_timer_follows_the_earliest_deadline() {
    let mut timers = TimerMap::new();
    assert_eq!(timers.programmed, None);
    timers.set_virtual_timer(500, 3, 100);
    assert_eq!(timers.programmed, Some(500));
    timers.set_virtual_timer(700, 4, 100);
    assert_eq!(timers.programmed, Some(500));
    timers.set_virtual_timer(300, 5, 100);
    assert_eq!(timers.programmed, Some(300));
    // a deadline in the past is dropped
    timers.set_virtual_timer(50, 6, 100);
    assert_eq!(timers.programmed, Some(300));
    assert_eq!(timers.map.len(), 3);
    // a deadline at the present is taken
    timers.set_virtual_timer(100, 7, 100);
    assert_eq!(timers.programmed, Some(100));
    assert_eq!(timers.pop_first(), Some((100, 7)));
    assert_eq!(timers.programmed, Some(300));
    assert_eq!(timers.pop_first(), Some((300, 5)));
    assert_eq!(timers.programmed, Some(500));
    assert_eq!(timers.pop_first(), Some((500, 3)));
    assert_eq!(timers.programmed, Some(700));
    assert_eq!(timers.pop_first(), Some((700, 4)));
    // nothing remains: the timer stays where it was
    assert_eq!(timers.programmed, Some(700));
    assert_eq!(timers.pop_first(), None);
    assert_eq!(timers.programmed, Some(700));
}

#[test]
fn same_deadline_replaces_the_task() {
    let mut timers = TimerMap::new();
    timers.set_virtual_timer(500, 3, 0);
    timers.set_virtual_timer(500, 4, 0);
    assert_eq!(timers.map.len(), 1);
    assert_eq!(timers.pop_first(), Some((500, 4)));
}

#[test]
fn deadlines_fire_in_ascending_order() {
    let mut timers = TimerMap::new();
    for (i, time) in [90usize, 10, 50, 70, 30, 20, 80, 60, 40].iter().enumerate() {
        timers.set_virtual_timer(*time, i + 1, 0);
        assert_eq!(timers.programmed, timers.map.keys().next().copied());
    }
    let mut last = 0;
    while let Some((time, _)) = timers.pop_first() {
        assert!(time >= last);
        last = time;
        if !timers.map.is_empty() {
            assert_eq!(timers.programmed, timers.map.keys().next().copied());
        }
    }
    assert_eq!(last, 90);
}

#[test]
fn next_tick_is_a_hundredth_of_a_second_later() {
    let mut timers = TimerMap::new();
    timers.set_next_trigger(1000, Board::Qemu);
    assert_eq!(timers.programmed, Some(1000 + 125_000));
    timers.set_next_trigger(2000, Board::Lrv);
    assert_eq!(timers.pop_first(), Some((102_000, 0)));
    assert_eq!(timers.pop_first(), Some((126_000, 0)));
    // a deadline that wraps around is dropped
    timers.set_next_trigger(usize::MAX - 5, Board::Qemu);
    assert_eq!(timers.map.len(), 0);
}

#[test]
fn kernel_timers_are_per_hart() {
    let mut kernel = boot(Board::Qemu);
    set_virtual_timer(&mut kernel, 1, 400, 9, 0);
    set_next_trigger(&mut kernel, 2, 1000);
    assert_eq!(kernel.timers[1].programmed, Some(400));
    assert_eq!(kernel.timers[2].programmed, Some(126_000));
    assert_eq!(kernel.timers[0].programmed, None);
    assert_eq!(kernel.timers[3].map.len(), 0);
}

#[test]
fn kernel_tick_suspends_the_running_task() {
    let mut kernel = boot(Board::Qemu);
    run_tasks(&mut kernel, 0);
    set_next_trigger(&mut kernel, 0, 0);
    assert_eq!(kernel.timers[0].programmed, Some(125_000));
    let report = trap_handler(&mut kernel, 0, TrapCause::SupervisorTimer, &vec![], &mut user(), 125_000);
    assert_eq!(report.outcome, TrapOutcome::Schedule);
    assert_eq!(current_task(&kernel, 0), None);
    assert_eq!(kernel.pids.task_table[&1].inner.task_status, TaskStatus::Ready);
    // the next tick is set
    assert_eq!(kernel.timers[0].programmed, Some(250_000));
    assert_eq!(kernel.timers[0].map.len(), 1);
}

#[test]
fn timer_of_the_running_task_raises_the_user_timer() {
    let mut kernel = boot(Board::Qemu);
    run_tasks(&mut kernel, 1);
    sys_init_user_trap(&mut kernel, 1);
    // one second, in microseconds
    assert_eq!(sys_set_timer(&mut kernel, 1, 1_000_000, 0), 0);
    assert_eq!(kernel.timers[1].programmed, Some(12_500_000));
    let report = trap_handler(&mut kernel, 1, TrapCause::SupervisorTimer, &vec![], &mut user(), 12_500_000);
    assert_eq!(report.outcome, TrapOutcome::Return);
    assert_eq!(kernel.processors[1].registers.uip & 0x10, 0x10);
    assert_eq!(kernel.timers[1].map.len(), 0);
    assert_eq!(current_task(&kernel, 1), Some(1));
}

#[test]
fn timer_of_another_task_is_delivered_as_a_record() {
    let mut kernel = boot(Board::Qemu);
    run_tasks(&mut kernel, 0);
    assert_eq!(sys_fork(&mut kernel, 0), 2);
    sys_init_user_trap(&mut kernel, 0);
    sys_set_timer(&mut kernel, 0, 2_000_000, 0);
    suspend_current_and_run_next(&mut kernel, 0);
    assert_eq!(run_tasks(&mut kernel, 0), Some(2));
    handle_timer(&mut kernel, 0, 25_000_000);
    assert_eq!(current_task(&kernel, 0), Some(2));
    assert_eq!(kernel.processors[0].registers.uip & 0x10, 0);
    let info = kernel.pids.task_table.get_mut(&1).unwrap().inner.user_trap_info.as_mut().unwrap();
    assert_eq!(info.pop_trap_record(), Some(UserTrapRecord { cause: 4, message: 2_000_000 }));
    assert_eq!(info.pop_trap_record(), None);
}

#[test]
fn timer_interrupt_without_timers_changes_nothing() {
    let mut kernel = boot(Board::Qemu);
    run_tasks(&mut kernel, 0);
    let report = trap_handler(&mut kernel, 0, TrapCause::SupervisorTimer, &vec![], &mut user(), 5);
    assert_eq!(report.outcome, TrapOutcome::Return);
    assert_eq!(current_task(&kernel, 0), Some(1));
    assert_eq!(kernel.timers[0].programmed, None);
}

#[test]
fn timer_in_the_past_is_not_set() {
    let mut kernel = boot(Board::Lrv);
    run_tasks(&mut kernel, 0);
    // 100 microseconds are 1000 ticks
    assert_eq!(sys_set_timer(&mut kernel, 0, 100, 1001), 0);
    assert_eq!(kernel.timers[0].map.len(), 0);
    assert_eq!(sys_set_timer(&mut kernel, 0, 100, 1000), 0);
    assert_eq!(kernel.timers[0].programmed, Some(1000));
}
