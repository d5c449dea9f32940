use uintr_kernel::config::{Board, CPU_NUM};
use uintr_kernel::kernel::Kernel;
use uintr_kernel::mm::{MapArea, MemorySet};
use uintr_kernel::plic::{
    context_address, get_context, handle_external_interrupt, init, init_hart, map_claim_pages, ExtIntAction, Plic,
    PlicOp,
};
use uintr_kernel::syscall::device::{claimable, device_number, sys_claim_ext_int, sys_set_ext_int_enable};
use uintr_kernel::syscall::process::{sys_exec, sys_fork, sys_init_user_trap};
use uintr_kernel::task::processor::run_tasks;
use uintr_kernel::task::task::{KernelEntry, LoadedImage};
use uintr_kernel::task::{add_initproc, exit_current_and_run_next, suspend_current_and_run_next};
use uintr_kernel::timer::TimeVal;
use uintr_kernel::syscall::UserArea;
use uintr_kernel::trap::usertrap::UserTrapRecord;
use uintr_kernel::trap::{handle_externals, trap_handler, TrapCause, TrapOutcome};
use uintr_kernel::uart::{
    get_base_addr_from_irq, handle_interrupt, irq_to_serial_id, new_serials, serial_getchar, serial_putchar,
    BufferedSerial, InterruptType, SerialWork,
};

fn boot(board: Board) -> Kernel {
    let entry = KernelEntry { kernel_satp: 1, trap_handler: 2, trap_return: 3 };
    let mut kernel = Kernel::new(board, entry);
    init(&mut kernel);
    for hart in 0..CPU_NUM {
        init_hart(&mut kernel, hart);
    }
    kernel.plic.take_ops();
    add_initproc(
        &mut kernel,
        LoadedImage { memory_set: MemorySet::new(), user_sp: 0x1_0000, entry_point: 0x1000 },
    );
    kernel
}

fn user() -> UserArea {
    UserArea { valid: true, bytes: Vec::new(), time: TimeVal::new(), exit_code: 0, pipe: [0, 0], image: None }
}

fn devices(kernel: &Kernel, tid: usize) -> Vec<(u16, bool)> {
    kernel.pids.task_table[&tid].inner.user_trap_info.as_ref().unwrap().devices.clone()
}

/// Never both: an interrupt that reaches a user context reaches no supervisor context.
fn routing_is_exclusive(kernel: &Kernel) {
    for irq in 0..32u16 {
        let user = (0..CPU_NUM).any(|h| kernel.plic.is_enabled(3 * h + 2, irq));
        let supervisor = (0..CPU_NUM).any(|h| kernel.plic.is_enabled(3 * h + 1, irq));
        assert!(!(user && supervisor), "irq {}", irq);
        if user {
            assert!(kernel.ext_int_map.contains_key(&irq));
        }
    }
}

#[test]
fn contexts_of_the_controller() {
    assert_eq!(get_context(0, 'M'), 0);
    assert_eq!(get_context(0, 'S'), 1);
    assert_eq!(get_context(0, 'U'), 2);
    assert_eq!(get_context(3, 'M'), 9);
    assert_eq!(get_context(3, 'S'), 10);
    assert_eq!(get_context(3, 'U'), 11);
    assert_eq!(uintr_kernel::user::trap::get_context(2, 'U'), 8);
    assert_eq!(context_address(0), 0xc20_0000);
    assert_eq!(context_address(2), 0xc20_2000);
    assert_eq!(context_address(11), 0xc20_b000);
}

#[test]
fn controller_starts_with_nothing_enabled() {
    let mut plic = Plic::new();
    assert!(!plic.is_enabled(1, 13));
    assert!(!plic.is_enabled(100, 13));
    assert!(!plic.is_enabled(1, 5000));
    plic.enable(1, 13);
    plic.set_threshold(1, 0);
    plic.set_priority(13, 1);
    plic.complete(1, 13);
    plic.disable(1, 13);
    assert!(!plic.is_enabled(1, 13));
    assert_eq!(
        plic.take_ops(),
        vec![
            PlicOp::Enable { context: 1, irq: 13 },
            PlicOp::SetThreshold { context: 1, threshold: 0 },
            PlicOp::SetPriority { irq: 13, priority: 1 },
            PlicOp::Complete { context: 1, irq: 13 },
            PlicOp::Disable { context: 1, irq: 13 },
        ]
    );
    assert!(plic.take_ops().is_empty());
    plic.enable_supervisors(7);
    assert!((0..4).all(|h| plic.is_enabled(3 * h + 1, 7)));
    plic.disable_supervisors(7);
    assert!((0..4).all(|h| !plic.is_enabled(3 * h + 1, 7)));
}

#[test]
fn boot_enables_the_serial_interrupts_for_the_kernel() {
    let mut kernel = Kernel::new(Board::Lrv, KernelEntry { kernel_satp: 1, trap_handler: 2, trap_return: 3 });
    init(&mut kernel);
    assert_eq!(
        kernel.plic.take_ops(),
        vec![
            PlicOp::SetPriority { irq: 4, priority: 1 },
            PlicOp::SetPriority { irq: 5, priority: 1 },
            PlicOp::SetPriority { irq: 6, priority: 1 },
            PlicOp::SetPriority { irq: 7, priority: 1 },
        ]
    );
    init_hart(&mut kernel, 1);
    assert_eq!(
        kernel.plic.take_ops(),
        vec![
            PlicOp::Enable { context: 4, irq: 4 },
            PlicOp::Enable { context: 4, irq: 5 },
            PlicOp::Enable { context: 4, irq: 6 },
            PlicOp::Enable { context: 4, irq: 7 },
            PlicOp::SetThreshold { context: 4, threshold: 0 },
            PlicOp::SetThreshold { context: 5, threshold: 0 },
            PlicOp::SetThreshold { context: 3, threshold: 7 },
        ]
    );
    assert!(kernel.plic.is_enabled(4, 6));
    assert!(!kernel.plic.is_enabled(1, 6));
    assert!(!kernel.plic.is_enabled(5, 6));
}

#[test]
fn which_devices_can_be_claimed() {
    assert!(!claimable(Board::Qemu, 12));
    assert!(claimable(Board::Qemu, 13));
    assert!(claimable(Board::Qemu, 15));
    assert!(!claimable(Board::Qemu, 16));
    assert!(!claimable(Board::Lrv, 4));
    assert!(claimable(Board::Lrv, 5));
    assert!(claimable(Board::Lrv, 7));
    assert!(!claimable(Board::Lrv, 13));
    assert_eq!(device_number(13), 13);
    assert_eq!(device_number(0x1_000d), 13);
    assert_eq!(device_number(0xffff), 0xffff);
}

#[test]
fn serial_ports_by_interrupt() {
    assert_eq!(irq_to_serial_id(Board::Qemu, 12), 0);
    assert_eq!(irq_to_serial_id(Board::Qemu, 13), 1);
    assert_eq!(irq_to_serial_id(Board::Qemu, 15), 3);
    assert_eq!(irq_to_serial_id(Board::Qemu, 16), 0);
    assert_eq!(irq_to_serial_id(Board::Qemu, 4), 0);
    assert_eq!(irq_to_serial_id(Board::Lrv, 4), 0);
    assert_eq!(irq_to_serial_id(Board::Lrv, 6), 2);
    assert_eq!(irq_to_serial_id(Board::Lrv, 7), 3);
    assert_eq!(irq_to_serial_id(Board::Lrv, 12), 0);
    assert_eq!(get_base_addr_from_irq(Board::Qemu, 12), 0x1000_2000);
    assert_eq!(get_base_addr_from_irq(Board::Qemu, 14), 0x1000_4000);
    assert_eq!(get_base_addr_from_irq(Board::Lrv, 7), 0x6000_4000);
    assert_eq!(get_base_addr_from_irq(Board::Lrv, 99), 0x6000_1000);
}

#[test]
fn claim_needs_a_task_that_has_opted_in() {
    let mut kernel = boot(Board::Qemu);
    run_tasks(&mut kernel, 0);
    // user-mode interrupts are off
    assert_eq!(sys_claim_ext_int(&mut kernel, 0, 13), -1);
    assert_eq!(sys_set_ext_int_enable(&mut kernel, 0, 13, 1), -1);
    // on, but not opted in
    kernel.pids.task_table.get_mut(&1).unwrap().inner.trap_cx.sstatus = 1;
    assert_eq!(sys_claim_ext_int(&mut kernel, 0, 13), -5);
    assert_eq!(sys_set_ext_int_enable(&mut kernel, 0, 13, 1), -5);
    assert!(kernel.ext_int_map.is_empty());
}

#[test]
fn claim_registers_the_owner_and_maps_the_registers() {
    let mut kernel = boot(Board::Qemu);
    run_tasks(&mut kernel, 2);
    sys_init_user_trap(&mut kernel, 2);
    // not a device for tasks
    assert_eq!(sys_claim_ext_int(&mut kernel, 2, 12), -4);
    assert_eq!(sys_claim_ext_int(&mut kernel, 2, 16), -4);
    assert!(kernel.ext_int_map.is_empty());
    assert_eq!(sys_claim_ext_int(&mut kernel, 2, 14), 0x1000_4000);
    assert_eq!(kernel.ext_int_map.get(&14), Some(&1));
    assert_eq!(devices(&kernel, 1), vec![(14, false)]);
    let areas = kernel.pids.task_table[&1].inner.memory_set.areas.clone();
    assert_eq!(
        areas[1..].to_vec(),
        vec![
            MapArea { start: 0xc20_2000, end: 0xc20_3000, perm: 3, mmio: true },
            MapArea { start: 0xc20_5000, end: 0xc20_6000, perm: 3, mmio: true },
            MapArea { start: 0xc20_8000, end: 0xc20_9000, perm: 3, mmio: true },
            MapArea { start: 0xc20_b000, end: 0xc20_c000, perm: 3, mmio: true },
            MapArea { start: 0x1000_4000, end: 0x1000_5000, perm: 3, mmio: true },
        ]
    );
    // the controller is not touched by a claim
    assert!(kernel.plic.take_ops().is_empty());
    // claiming again changes nothing
    assert_eq!(sys_claim_ext_int(&mut kernel, 2, 14), 0x1000_4000);
    assert_eq!(devices(&kernel, 1), vec![(14, false)]);
    assert_eq!(kernel.pids.task_table[&1].inner.memory_set.areas.len(), 6);
    // a second device
    assert_eq!(sys_claim_ext_int(&mut kernel, 2, 13), 0x1000_3000);
    assert_eq!(devices(&kernel, 1), vec![(14, false), (13, false)]);
    assert_eq!(kernel.ext_int_map.len(), 2);
    routing_is_exclusive(&kernel);
}

#[test]
fn claim_fails_when_the_registers_cannot_be_mapped() {
    let mut kernel = boot(Board::Qemu);
    run_tasks(&mut kernel, 0);
    sys_init_user_trap(&mut kernel, 0);
    // something of the task lies where a claim register would go
    {
        let space = &mut kernel.pids.task_table.get_mut(&1).unwrap().inner.memory_set;
        assert_eq!(space.mmap(0xc20_5000, 4096, 3), Ok(4096));
    }
    assert_eq!(sys_claim_ext_int(&mut kernel, 0, 13), -6);
    assert!(kernel.ext_int_map.is_empty());
    assert!(devices(&kernel, 1).is_empty());
    // the first page had been mapped before the second failed
    let areas = kernel.pids.task_table[&1].inner.memory_set.areas.clone();
    assert_eq!(areas.len(), 3);
    assert_eq!(areas[2], MapArea { start: 0xc20_2000, end: 0xc20_3000, perm: 3, mmio: true });
    // the registers of the device itself
    let mut kernel = boot(Board::Qemu);
    run_tasks(&mut kernel, 0);
    sys_init_user_trap(&mut kernel, 0);
    {
        let space = &mut kernel.pids.task_table.get_mut(&1).unwrap().inner.memory_set;
        assert_eq!(space.mmap(0x1000_3000, 4096, 3), Ok(4096));
    }
    assert_eq!(sys_claim_ext_int(&mut kernel, 0, 13), -2);
    assert!(kernel.ext_int_map.is_empty());
}

#[test]
fn claim_pages_of_every_hart() {
    let mut space = MemorySet::new();
    assert!(map_claim_pages(&mut space));
    assert_eq!(space.areas.len(), 4);
    assert!(map_claim_pages(&mut space));
    assert_eq!(space.areas.len(), 4);
}

#[test]
fn device_of_another_task_stays_with_its_owner() {
    let mut kernel = boot(Board::Qemu);
    run_tasks(&mut kernel, 0);
    sys_init_user_trap(&mut kernel, 0);
    assert_eq!(sys_fork(&mut kernel, 0), 2);
    assert_eq!(sys_claim_ext_int(&mut kernel, 0, 15), 0x1000_5000);
    run_tasks(&mut kernel, 1);
    // the child has opted in by the fork, but owns nothing
    assert!(devices(&kernel, 2).is_empty());
    assert_eq!(sys_claim_ext_int(&mut kernel, 1, 15), 0x1000_5000);
    assert_eq!(kernel.ext_int_map.get(&15), Some(&1));
    assert!(devices(&kernel, 2).is_empty());
    assert_eq!(sys_set_ext_int_enable(&mut kernel, 1, 15, 1), -1);
    assert_eq!(sys_set_ext_int_enable(&mut kernel, 1, 14, 1), -2);
    assert!(kernel.plic.take_ops().is_empty());
}

#[test]
fn enabled_device_interrupts_user_mode_only() {
    let mut kernel = boot(Board::Qemu);
    run_tasks(&mut kernel, 1);
    sys_init_user_trap(&mut kernel, 1);
    assert_eq!(sys_claim_ext_int(&mut kernel, 1, 13), 0x1000_3000);
    assert!(kernel.plic.is_enabled(1, 13));
    assert_eq!(sys_set_ext_int_enable(&mut kernel, 1, 13, 1), 0);
    assert_eq!(devices(&kernel, 1), vec![(13, true)]);
    // user context of hart 1 only
    assert!(kernel.plic.is_enabled(5, 13));
    for hart in 0..CPU_NUM {
        assert!(!kernel.plic.is_enabled(3 * hart + 1, 13));
        assert_eq!(kernel.plic.is_enabled(3 * hart + 2, 13), hart == 1);
    }
    assert_eq!(
        kernel.plic.take_ops(),
        vec![
            PlicOp::Disable { context: 1, irq: 13 },
            PlicOp::Disable { context: 4, irq: 13 },
            PlicOp::Disable { context: 7, irq: 13 },
            PlicOp::Disable { context: 10, irq: 13 },
            PlicOp::Enable { context: 5, irq: 13 },
        ]
    );
    routing_is_exclusive(&kernel);
    // doing it again changes nothing
    assert_eq!(sys_set_ext_int_enable(&mut kernel, 1, 13, 7), 0);
    assert!(kernel.plic.is_enabled(5, 13));
    assert_eq!(devices(&kernel, 1), vec![(13, true)]);
    routing_is_exclusive(&kernel);
    // off: back to the kernel
    assert_eq!(sys_set_ext_int_enable(&mut kernel, 1, 13, 0), 0);
    assert_eq!(devices(&kernel, 1), vec![(13, false)]);
    for hart in 0..CPU_NUM {
        assert!(kernel.plic.is_enabled(3 * hart + 1, 13));
        assert!(!kernel.plic.is_enabled(3 * hart + 2, 13));
    }
    routing_is_exclusive(&kernel);
}

#[test]
fn device_follows_its_task_across_harts() {
    let mut kernel = boot(Board::Qemu);
    run_tasks(&mut kernel, 0);
    sys_init_user_trap(&mut kernel, 0);
    sys_claim_ext_int(&mut kernel, 0, 13);
    sys_claim_ext_int(&mut kernel, 0, 14);
    sys_set_ext_int_enable(&mut kernel, 0, 13, 1);
    routing_is_exclusive(&kernel);
    suspend_current_and_run_next(&mut kernel, 0);
    // while the task waits, no user context has its devices
    for hart in 0..CPU_NUM {
        assert!(!kernel.plic.is_enabled(3 * hart + 2, 13));
        assert!(!kernel.plic.is_enabled(3 * hart + 2, 14));
    }
    assert!(kernel.plic.is_enabled(1, 13));
    routing_is_exclusive(&kernel);
    assert_eq!(run_tasks(&mut kernel, 3), Some(1));
    assert!(kernel.plic.is_enabled(11, 13));
    assert!(!kernel.plic.is_enabled(11, 14));
    for hart in 0..CPU_NUM {
        assert!(!kernel.plic.is_enabled(3 * hart + 1, 13));
        assert!(!kernel.plic.is_enabled(3 * hart + 1, 14));
    }
    routing_is_exclusive(&kernel);
}

#[test]
fn exit_gives_the_devices_back() {
    let mut kernel = boot(Board::Qemu);
    run_tasks(&mut kernel, 0);
    sys_init_user_trap(&mut kernel, 0);
    sys_claim_ext_int(&mut kernel, 0, 13);
    sys_set_ext_int_enable(&mut kernel, 0, 13, 1);
    kernel.plic.take_ops();
    exit_current_and_run_next(&mut kernel, 0, 0);
    assert!(kernel.ext_int_map.is_empty());
    assert!(kernel.pids.task_table[&1].inner.user_trap_info.is_none());
    for hart in 0..CPU_NUM {
        assert!(kernel.plic.is_enabled(3 * hart + 1, 13));
        assert!(!kernel.plic.is_enabled(3 * hart + 2, 13));
    }
    let ops = kernel.plic.take_ops();
    assert_eq!(ops.len(), 12);
    assert_eq!(
        ops[..3].to_vec(),
        vec![
            PlicOp::Disable { context: 2, irq: 13 },
            PlicOp::Enable { context: 1, irq: 13 },
            PlicOp::Complete { context: 1, irq: 13 },
        ]
    );
    routing_is_exclusive(&kernel);
}

#[test]
fn exec_gives_the_devices_back() {
    let mut kernel = boot(Board::Qemu);
    run_tasks(&mut kernel, 0);
    sys_init_user_trap(&mut kernel, 0);
    sys_claim_ext_int(&mut kernel, 0, 15);
    sys_set_ext_int_enable(&mut kernel, 0, 15, 1);
    let image = LoadedImage { memory_set: MemorySet::new(), user_sp: 0x2_0000, entry_point: 0x3000 };
    assert_eq!(sys_exec(&mut kernel, 0, Some(image)), 0);
    assert!(kernel.ext_int_map.is_empty());
    assert!(kernel.pids.task_table[&1].inner.user_trap_info.is_none());
    assert!(!kernel.plic.is_enabled(2, 15));
    assert!(kernel.plic.is_enabled(1, 15));
    routing_is_exclusive(&kernel);
}

#[test]
fn unclaimed_interrupt_stays_with_the_kernel() {
    let mut kernel = boot(Board::Qemu);
    run_tasks(&mut kernel, 0);
    assert_eq!(handle_external_interrupt(&mut kernel, 0, 12), ExtIntAction::KernelHandled);
    assert_eq!(handle_external_interrupt(&mut kernel, 0, 15), ExtIntAction::KernelHandled);
    assert_eq!(handle_external_interrupt(&mut kernel, 0, 3), ExtIntAction::Unsupported);
    assert_eq!(handle_external_interrupt(&mut kernel, 0, 16), ExtIntAction::Unsupported);
    assert_eq!(
        kernel.plic.take_ops(),
        vec![
            PlicOp::Complete { context: 1, irq: 12 },
            PlicOp::Complete { context: 1, irq: 15 },
            PlicOp::Complete { context: 1, irq: 3 },
            PlicOp::Complete { context: 1, irq: 16 },
        ]
    );
}

#[test]
fn claimed_interrupt_is_forwarded_to_its_owner() {
    let mut kernel = boot(Board::Qemu);
    run_tasks(&mut kernel, 0);
    sys_init_user_trap(&mut kernel, 0);
    sys_fork(&mut kernel, 0);
    sys_claim_ext_int(&mut kernel, 0, 14);
    kernel.plic.take_ops();
    // the owner runs on the hart that took the interrupt: the claim is left to it
    assert_eq!(handle_external_interrupt(&mut kernel, 0, 14), ExtIntAction::Forwarded);
    assert!(kernel.plic.take_ops().is_empty());
    // the owner waits, another task runs: completed and masked for the kernel on this hart
    suspend_current_and_run_next(&mut kernel, 0);
    assert_eq!(run_tasks(&mut kernel, 2), Some(2));
    kernel.plic.take_ops();
    let report = trap_handler(&mut kernel, 2, TrapCause::SupervisorExternal, &vec![14, 12], &mut user(), 0);
    assert_eq!(report.outcome, TrapOutcome::Return);
    assert_eq!(report.actions, vec![ExtIntAction::Forwarded, ExtIntAction::KernelHandled]);
    assert_eq!(
        kernel.plic.take_ops(),
        vec![
            PlicOp::Complete { context: 7, irq: 14 },
            PlicOp::Disable { context: 7, irq: 14 },
            PlicOp::Complete { context: 7, irq: 12 },
        ]
    );
    assert!(!kernel.plic.is_enabled(7, 14));
    let info = kernel.pids.task_table.get_mut(&1).unwrap().inner.user_trap_info.as_mut().unwrap();
    assert_eq!(info.pop_trap_record(), Some(UserTrapRecord { cause: 8, message: 14 }));
    assert_eq!(info.pop_trap_record(), Some(UserTrapRecord { cause: 8, message: 14 }));
    assert_eq!(info.pop_trap_record(), None);
    routing_is_exclusive(&kernel);
}

#[test]
fn interrupt_for_a_full_queue_falls_back_to_the_kernel() {
    let mut kernel = boot(Board::Qemu);
    run_tasks(&mut kernel, 0);
    sys_init_user_trap(&mut kernel, 0);
    sys_claim_ext_int(&mut kernel, 0, 13);
    for _ in 0..127 {
        assert_eq!(handle_external_interrupt(&mut kernel, 0, 13), ExtIntAction::Forwarded);
    }
    kernel.plic.take_ops();
    assert_eq!(handle_external_interrupt(&mut kernel, 0, 13), ExtIntAction::KernelHandled);
    assert_eq!(kernel.plic.take_ops(), vec![PlicOp::Complete { context: 1, irq: 13 }]);
    assert!(handle_externals(&mut kernel, 0, &vec![]).is_empty());
}

#[test]
fn serial_port_between_tasks_and_device() {
    let mut port = BufferedSerial::new();
    assert!(!port.rx_intr_enabled);
    port.hardware_init();
    assert!(port.rx_intr_enabled);
    assert_eq!(port.try_read(), None);
    assert!(port.try_write(b'x'));
    assert!(port.try_write(b'y'));
    assert!(port.tx_intr_enabled);
    assert_eq!(port.interrupt_handler(InterruptType::TransmitterHoldingRegisterEmpty), SerialWork::Transmit);
    assert_eq!(port.pop_to_send(), Some(b'x'));
    assert_eq!(port.pop_to_send(), Some(b'y'));
    assert_eq!(port.pop_to_send(), None);
    assert!(!port.tx_intr_enabled);
    assert_eq!(port.tx_count, 2);
    assert_eq!(port.interrupt_handler(InterruptType::ReceivedDataAvailable), SerialWork::Receive);
    assert_eq!(port.interrupt_handler(InterruptType::Timeout), SerialWork::Receive);
    assert_eq!(port.interrupt_handler(InterruptType::ModemStatus), SerialWork::Report);
    assert_eq!(port.interrupt_handler(InterruptType::ReceiverLineStatus), SerialWork::Unsupported);
    assert_eq!(port.interrupt_handler(InterruptType::Reserved), SerialWork::Unsupported);
    assert_eq!((port.intr_count, port.rx_intr_count, port.tx_intr_count), (6, 2, 1));
    for i in 0..1000u32 {
        assert!(port.push_received(i as u8));
    }
    assert!(!port.push_received(1));
    assert!(!port.rx_intr_enabled);
    assert_eq!(port.rx_count, 1000);
    assert_eq!(port.try_read(), Some(0));
    assert_eq!(port.try_read(), Some(1));
}

#[test]
fn serial_ports_of_the_board() {
    let mut serials = new_serials();
    assert_eq!(serials.len(), 4);
    uintr_kernel::uart::init(&mut serials);
    assert!(serials.iter().all(|s| s.rx_intr_enabled));
    assert!(serial_putchar(&mut serials, 2, b'q'));
    assert_eq!(serials[2].tx_buffer.len(), 1);
    assert_eq!(serial_getchar(&mut serials, 2), None);
    serials[3].push_received(5);
    assert_eq!(serial_getchar(&mut serials, 3), Some(5));
    assert_eq!(handle_interrupt(&mut serials, Board::Qemu, 14, InterruptType::Timeout), SerialWork::Receive);
    assert_eq!(serials[2].rx_intr_count, 1);
    assert_eq!(serials[0].intr_count, 0);
}

#[test]
fn claim_on_the_other_board() {
    let mut kernel = boot(Board::Lrv);
    run_tasks(&mut kernel, 0);
    sys_init_user_trap(&mut kernel, 0);
    assert_eq!(sys_claim_ext_int(&mut kernel, 0, 13), -4);
    assert_eq!(sys_claim_ext_int(&mut kernel, 0, 4), -4);
    assert_eq!(sys_claim_ext_int(&mut kernel, 0, 0x2_0006), 0x6000_3000);
    assert_eq!(kernel.ext_int_map.get(&6), Some(&1));
    assert_eq!(sys_set_ext_int_enable(&mut kernel, 0, 6, 1), 0);
    assert!(kernel.plic.is_enabled(2, 6));
    routing_is_exclusive(&kernel);
}

#[test]
fn interrupt_beyond_the_controller_is_only_completed() {
    let mut kernel = boot(Board::Qemu);
    run_tasks(&mut kernel, 3);
    assert_eq!(handle_external_interrupt(&mut kernel, 3, 2000), ExtIntAction::Unsupported);
    assert_eq!(kernel.plic.take_ops(), vec![PlicOp::Complete { context: 10, irq: 2000 }]);
}
