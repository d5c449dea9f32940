use vstd::prelude::*;
use crate::config::{Board, CPU_NUM, PAGE_SIZE};
use crate::kernel::{distinct_devices, Kernel};
use crate::mm::{after_mmio_map, mmio_map_ok, MapArea};
use crate::plic::{map_claim_pages, s_context, u_context, with_claim_pages, PlicState, IRQ_NUM};
use crate::task::processor::same_but_inner;
use crate::task::task::{TaskControlBlockInner, TaskStatus};
use crate::trap::handoff::{lemma_disable_s_upto, lemma_switch_bit, lists_device};
use crate::trap::usertrap::{devices_in_range, UserTrapInfo};
use crate::uart::{get_base_addr_from_irq, spec_get_base_addr_from_irq, SERIAL_ADDRESS_STRIDE};

verus! {

/// Whether a task may claim the interrupt `irq` on `board`: the interrupts
/// of the serial ports 1 to 3 can be claimed; port 0 stays with the kernel.
pub open spec fn spec_claimable(board: Board, irq: u16) -> bool {
    board.spec_first_serial_irq() < irq <= board.spec_first_serial_irq() + 3
}

/// Whether a task may claim the interrupt `irq` on `board`.
#[verifier::when_used_as_spec(spec_claimable)]
pub fn claimable(board: Board, irq: u16) -> (r: bool)
    ensures
        r == spec_claimable(board, irq),
        r ==> irq < IRQ_NUM,
{
    let first = board.first_serial_irq();
    first < irq && irq <= first + 3
}

/// The number of the device that the word `device_id` names: its low 16 bits.
pub open spec fn device_of(device_id: usize) -> u16 {
    (device_id & 0xffff) as u16
}

/// The number of the device that the word `device_id` names.
pub fn device_number(device_id: usize) -> (dev: u16)
    ensures
        dev == device_of(device_id),
{
    assert(device_id & 0xffff <= 0xffff) by (bit_vector);
    (device_id & 0xffff) as u16
}

/// What `sys_claim_ext_int` returns when the task `t` of `kernel` calls it
/// for the device `dev`.
///
/// - -1: the task does not take interrupts in user mode;
/// - -5: the task has not opted in to user-mode traps;
/// - -4: the device is not one that tasks may claim;
/// - -6: the device is unclaimed, and a claim register of the controller
///   cannot be mapped into the task;
/// - -2: the registers of the device cannot be mapped into the task;
/// - otherwise the address of the registers of the device.
pub open spec fn claim_result(kernel: &Kernel, t: int, dev: u16) -> isize {
    let inner = kernel.tcb(t).inner;
    let areas = claim_areas(kernel, t, dev);
    let base = spec_get_base_addr_from_irq(kernel.board, dev);
    if !inner.spec_is_user_trap_enabled() {
        -1isize
    } else if inner.user_trap_info.is_none() {
        -5isize
    } else if !spec_claimable(kernel.board, dev) {
        -4isize
    } else if !areas.1 {
        -6isize
    } else if !mmio_map_ok(areas.0, base, (base + SERIAL_ADDRESS_STRIDE) as usize, 3) {
        -2isize
    } else {
        base as isize
    }
}

/// The areas of the task `t` after the claim registers have been mapped
/// for a claim of `dev`, and whether that went well. A device that is
/// claimed already needs no mapping.
pub open spec fn claim_areas(kernel: &Kernel, t: int, dev: u16) -> (Seq<MapArea>, bool) {
    let areas = kernel.tcb(t).inner.memory_set.areas@;
    if kernel.ext_int_map@.contains_key(dev) {
        (areas, true)
    } else {
        with_claim_pages(areas, CPU_NUM as nat)
    }
}

/// Whether a call of `sys_claim_ext_int` gets as far as mapping anything.
pub open spec fn claim_admitted(kernel: &Kernel, t: int, dev: u16) -> bool {
    let inner = kernel.tcb(t).inner;
    inner.spec_is_user_trap_enabled() && inner.user_trap_info.is_some() && spec_claimable(kernel.board, dev)
}

/// The effect of `sys_claim_ext_int`, which returns `ret`, on the kernel.
pub open spec fn sys_claim_ext_int_post(before: &Kernel, after: &Kernel, hart: usize, device_id: usize, ret: isize) -> bool {
    &&& ({
        let t = before.current(hart as int).unwrap() as int;
        let dev = device_of(device_id);
        let inner = before.tcb(t).inner;
        let changed = after.tcb(t).inner;
        let areas = claim_areas(before, t, dev);
        let base = spec_get_base_addr_from_irq(before.board, dev);
        let fresh = ret >= 0 && !before.ext_int_map@.contains_key(dev);
        &&& ret == claim_result(before, t, dev)
        &&& !claim_admitted(before, t, dev) ==> *after == *before
        &&& claim_admitted(before, t, dev) ==> {
            &&& after.same_setup(before)
            &&& after.same_tasks_but(before, t)
            &&& after.live(t)
            &&& after.tcb(t).pid == before.tcb(t).pid
            &&& after.tcb(t).kernel_stack == before.tcb(t).kernel_stack
            &&& after.pool == before.pool
            &&& after.processors == before.processors
            &&& after.timers == before.timers
            &&& after.serials == before.serials
            &&& after.plic == before.plic
            &&& changed == (TaskControlBlockInner {
                memory_set: changed.memory_set,
                user_trap_info: changed.user_trap_info,
                ..inner
            })
            &&& changed.memory_set.areas@ == (if areas.1 {
                after_mmio_map(areas.0, base, (base + SERIAL_ADDRESS_STRIDE) as usize, 3)
            } else {
                areas.0
            })
            &&& changed.user_trap_info.is_some()
            &&& changed.user_trap_info.unwrap().records() == inner.user_trap_info.unwrap().records()
            &&& changed.user_trap_info.unwrap().devices@ == (if fresh {
                inner.user_trap_info.unwrap().devices@.push((dev, false))
            } else {
                inner.user_trap_info.unwrap().devices@
            })
            &&& after.ext_int_map@ == (if fresh {
                before.ext_int_map@.insert(dev, t as usize)
            } else {
                before.ext_int_map@
            })
        }
    })
}

/// Claims the device `device_id` for the calling task and returns the
/// address of the device's registers, which are then mapped into the task,
/// readable and writable. If nobody has claimed the device yet, the claim
/// registers of the controller are mapped into the task as well, the
/// registry of claims records the task as the owner, and the task lists
/// the device, with its interrupt not enabled. A device that is claimed
/// already stays with its owner. For the errors see `claim_result`: an
/// error leaves the registry and the devices of the task as they were, but
/// keeps what had been mapped before a mapping failed.
pub fn sys_claim_ext_int(kernel: &mut Kernel, hart: usize, device_id: usize) -> (ret: isize)
    requires
        old(kernel).wf(),
        hart < CPU_NUM,
        old(kernel).current(hart as int).is_some(),
    ensures
        final(kernel).wf(),
        sys_claim_ext_int_post(old(kernel), final(kernel), hart, device_id, ret),
{
    broadcast use vstd::std_specs::btree::group_btree_axioms;

    let device_id = device_number(device_id);
    let task = kernel.processors[hart].current.unwrap();
    let ghost t = task as int;
    assert(old(kernel).live(t));
    assert(old(kernel).task_wf(t));
    let board = kernel.board;
    let claimed = kernel.ext_int_map.contains_key(&device_id);
    let mut ret: isize = 0;
    let (enabled, opted_in) = match kernel.pids.slot(task) {
        Some(tcb) => (tcb.inner.is_user_trap_enabled(), tcb.inner.user_trap_info.is_some()),
        None => (false, false),
    };
    if !enabled {
        return -1;
    }
    if !opted_in {
        return -5;
    }
    if !claimable(board, device_id) {
        return -4;
    }
    match kernel.pids.slot_mut(task) {
        Some(tcb) => {
            let mut ok = true;
            if !claimed {
                ok = map_claim_pages(&mut tcb.inner.memory_set);
                if !ok {
                    ret = -6;
                }
            }
            if ok {
                let base_address = get_base_addr_from_irq(board, device_id);
                match tcb.inner.memory_set.mmio_map(base_address, base_address + SERIAL_ADDRESS_STRIDE, 3) {
                    Ok(_) => {
                        if !claimed {
                            kernel.ext_int_map.insert(device_id, task);
                            match &mut tcb.inner.user_trap_info {
                                Some(info) => {
                                    info.devices.push((device_id, false));
                                },
                                None => {},
                            }
                        }
                        ret = base_address as isize;
                    },
                    Err(_) => {
                        ret = -2;
                    },
                }
            }
        },
        None => {},
    }
    proof {
        let old_k = *old(kernel);
        if ret >= 0 && !claimed {
            lemma_wf_after_claim(old_k, *kernel, t, device_id);
        } else {
            assert(kernel.same_shape(&old_k));
            kernel.lemma_same_shape(&old_k);
        }
    }
    ret
}

/// A well-formed kernel stays well formed when a running task claims a
/// device that nobody had claimed.
pub proof fn lemma_wf_after_claim(old_k: Kernel, new_k: Kernel, t: int, dev: u16)
    requires
        old_k.wf(),
        old_k.live(t),
        old_k.status(t) != TaskStatus::Zombie,
        old_k.tcb(t).inner.user_trap_info.is_some(),
        !old_k.ext_int_map@.contains_key(dev),
        dev < IRQ_NUM,
        new_k.ext_int_map@ == old_k.ext_int_map@.insert(dev, t as usize),
        new_k.same_tasks_but(&old_k, t),
        new_k.live(t),
        new_k.devices(t) == old_k.devices(t).push((dev, false)),
        new_k.tcb(t).inner.user_trap_info.is_some(),
        new_k.tcb(t).inner.user_trap_info.unwrap().records() == old_k.tcb(
            t,
        ).inner.user_trap_info.unwrap().records(),
        new_k.tcb(t).pid == old_k.tcb(t).pid,
        new_k.tcb(t).kernel_stack == old_k.tcb(t).kernel_stack,
        new_k.tcb(t).inner.task_status == old_k.tcb(t).inner.task_status,
        new_k.tcb(t).inner.children == old_k.tcb(t).inner.children,
        new_k.tcb(t).inner.parent == old_k.tcb(t).inner.parent,
        new_k.tcb(t).inner.mail_box == old_k.tcb(t).inner.mail_box,
        new_k.same_setup(&old_k),
        new_k.pool == old_k.pool,
        new_k.processors == old_k.processors,
        new_k.timers == old_k.timers,
        new_k.serials == old_k.serials,
        new_k.plic == old_k.plic,
    ensures
        new_k.wf(),
{
    let devices = old_k.devices(t);
    assert(old_k.task_wf(t));
    assert(new_k.same_live(&old_k));
    assert(new_k.same_status(&old_k));
    assert(new_k.same_currents(&old_k));
    assert(new_k.same_family(&old_k));
    assert(new_k.same_bits(&old_k));
    assert(!lists_device(devices, dev as int)) by {
        if lists_device(devices, dev as int) {
            let k = choose|k: int| 0 <= k < devices.len() && (#[trigger] devices[k]).0 == dev as int;
            assert(old_k.ext_int_map@.contains_key(devices[k].0));
        }
    }
    assert(new_k.same_task_wf(&old_k)) by {
        assert forall|x: int| #[trigger] new_k.live(x) && old_k.task_wf(x) implies new_k.task_wf(x) by {
            if x == t {
                assert forall|i: int| 0 <= i < new_k.devices(t).len() implies (#[trigger] new_k.devices(
                    t,
                )[i]).0 < IRQ_NUM by {
                    if i < devices.len() {
                        assert(new_k.devices(t)[i] == devices[i]);
                    }
                }
            }
        }
    }
    new_k.lemma_frame_structure(&old_k);
    new_k.lemma_frame_running(&old_k);
    new_k.lemma_frame_ready(&old_k);
    new_k.lemma_frame_family(&old_k);
    assert(new_k.wf_claims()) by {
        assert forall|irq: u16| #[trigger] new_k.ext_int_map@.contains_key(irq) implies new_k.live(
            new_k.ext_int_map@[irq] as int,
        ) && lists_device(new_k.devices(new_k.ext_int_map@[irq] as int), irq as int) by {
            if irq == dev {
                assert(new_k.devices(t)[devices.len() as int].0 == dev);
            } else {
                assert(old_k.ext_int_map@.contains_key(irq));
                let o = old_k.ext_int_map@[irq] as int;
                assert(old_k.live(o));
                let k = choose|k: int|
                    0 <= k < old_k.devices(o).len() && (#[trigger] old_k.devices(o)[k]).0 == irq as int;
                if o == t {
                    assert(new_k.devices(t)[k] == devices[k]);
                } else {
                    assert(new_k.devices(o)[k].0 == irq);
                }
            }
        }
        assert forall|x: int, i: int|
            new_k.live(x) && 0 <= i < new_k.devices(x).len() implies new_k.ext_int_map@.contains_key(
            (#[trigger] new_k.devices(x)[i]).0,
        ) && new_k.ext_int_map@[new_k.devices(x)[i].0] == x by {
            assert(old_k.live(x));
            if x == t && i == devices.len() {
            } else {
                assert(new_k.devices(x)[i] == old_k.devices(x)[i]);
                assert(old_k.ext_int_map@.contains_key(old_k.devices(x)[i].0));
            }
        }
        assert forall|x: int| #[trigger] new_k.live(x) implies distinct_devices(new_k.devices(x)) by {
            assert(old_k.live(x));
            if x == t {
                let all = new_k.devices(t);
                assert forall|i: int, j: int| 0 <= i < all.len() && 0 <= j < all.len() && i != j implies all[i].0
                    != all[j].0 by {
                    if i < devices.len() {
                        assert(all[i] == devices[i]);
                    }
                    if j < devices.len() {
                        assert(all[j] == devices[j]);
                    }
                }
            }
        }
        assert forall|x: int|
            new_k.live(x) && #[trigger] new_k.status(x) == TaskStatus::Zombie implies new_k.devices(x).len()
            == 0 by {
            assert(old_k.live(x));
            assert(old_k.status(x) == TaskStatus::Zombie);
        }
    }
    assert(new_k.wf_routing()) by {
        assert forall|h: int, irq: int|
            0 <= h < CPU_NUM && 0 <= irq < IRQ_NUM && #[trigger] new_k.plic@.is_enabled(
                u_context(h),
                irq,
            ) implies {
            &&& new_k.ext_int_map@.contains_key(irq as u16)
            &&& new_k.live(new_k.ext_int_map@[irq as u16] as int)
            &&& new_k.status(new_k.ext_int_map@[irq as u16] as int) == TaskStatus::Running(h as usize)
            &&& new_k.plic@.no_supervisor_enable(irq)
        } by {
            assert(old_k.plic@.is_enabled(u_context(h), irq));
            assert(old_k.ext_int_map@.contains_key(irq as u16));
            let o = old_k.ext_int_map@[irq as u16] as int;
            assert(old_k.live(o));
        }
    }
}

/// The index of the first entry for the device `dev` among the first `n`
/// of `devices`, or `n` if there is none.
pub open spec fn device_index(devices: Seq<(u16, bool)>, dev: u16, n: int) -> int
    decreases n,
{
    if n <= 0 {
        0
    } else {
        let before = device_index(devices, dev, n - 1);
        if before < n - 1 {
            before
        } else if devices[n - 1].0 == dev {
            n - 1
        } else {
            n
        }
    }
}

/// The index found is within the bound and holds the device; before it
/// the device does not occur.
pub proof fn lemma_device_index(devices: Seq<(u16, bool)>, dev: u16, n: int)
    requires
        0 <= n <= devices.len(),
    ensures
        0 <= device_index(devices, dev, n) <= n,
        device_index(devices, dev, n) < n ==> devices[device_index(devices, dev, n)].0 == dev,
        forall|k: int| 0 <= k < device_index(devices, dev, n) ==> devices[k].0 != dev,
    decreases n,
{
    if n > 0 {
        lemma_device_index(devices, dev, n - 1);
    }
}

/// Once the device has been met, looking further does not change the index found.
pub proof fn lemma_device_index_stable(devices: Seq<(u16, bool)>, dev: u16, n: int, m: int)
    requires
        0 <= n <= m,
        device_index(devices, dev, n) < n,
    ensures
        device_index(devices, dev, m) == device_index(devices, dev, n),
    decreases m - n,
{
    if n < m {
        lemma_device_index_stable(devices, dev, n, m - 1);
    }
}

/// The controller after a task on `hart` has switched the interrupt `dev`
/// on or off for itself. On: the interrupt is disabled for every
/// supervisor context, then enabled for the user context of the hart. Off:
/// it is disabled for the user context of the hart, then enabled for every
/// supervisor context.
pub open spec fn switched(plic: PlicState, hart: usize, dev: u16, on: bool) -> PlicState {
    if on {
        plic.disable_s_upto(dev, CPU_NUM as nat).enable((3 * hart + 2) as usize, dev)
    } else {
        plic.disable((3 * hart + 2) as usize, dev).enable_s_upto(dev, CPU_NUM as nat)
    }
}

/// What `sys_set_ext_int_enable` returns when the task `t` of `kernel`
/// calls it for the device `dev`.
///
/// - -1: the task does not take interrupts in user mode, or another task
///   owns the device;
/// - -5: the task has not opted in to user-mode traps;
/// - -2: nobody has claimed the device;
/// - otherwise 0.
pub open spec fn switch_result(kernel: &Kernel, t: int, dev: u16) -> isize {
    let inner = kernel.tcb(t).inner;
    if !inner.spec_is_user_trap_enabled() {
        -1isize
    } else if inner.user_trap_info.is_none() {
        -5isize
    } else if !kernel.ext_int_map@.contains_key(dev) {
        -2isize
    } else if kernel.ext_int_map@[dev] != t {
        -1isize
    } else {
        0isize
    }
}

/// The effect of `sys_set_ext_int_enable`, which returns `ret`, on the kernel.
pub open spec fn sys_set_ext_int_enable_post(before: &Kernel, after: &Kernel, hart: usize, device_id: usize, enable: usize, ret: isize) -> bool {
    &&& ({
        let t = before.current(hart as int).unwrap() as int;
        let dev = device_of(device_id);
        let inner = before.tcb(t).inner;
        let changed = after.tcb(t).inner;
        &&& ret == switch_result(before, t, dev)
        &&& ret != 0 ==> *after == *before
        &&& ret == 0 ==> {
            let devices = inner.user_trap_info.unwrap().devices@;
            let k = device_index(devices, dev, devices.len() as int);
            &&& after.same_setup(before)
            &&& after.same_tasks_but(before, t)
            &&& after.live(t)
            &&& after.tcb(t).pid == before.tcb(t).pid
            &&& after.tcb(t).kernel_stack == before.tcb(t).kernel_stack
            &&& after.pool == before.pool
            &&& after.processors == before.processors
            &&& after.timers == before.timers
            &&& after.serials == before.serials
            &&& after.ext_int_map@ == before.ext_int_map@
            &&& after.plic@ == switched(before.plic@, hart, dev, enable > 0)
            &&& changed == (TaskControlBlockInner { user_trap_info: changed.user_trap_info, ..inner })
            &&& changed.user_trap_info.is_some()
            &&& changed.user_trap_info.unwrap().records() == inner.user_trap_info.unwrap().records()
            &&& 0 <= k < devices.len()
            &&& changed.user_trap_info.unwrap().devices@ == devices.update(k, (dev, enable > 0))
        }
    })
}

/// Switches the interrupt of the device `device_id`, which the calling
/// task owns, on or off for the task: on for any `enable` but 0. The task
/// records the choice, and the interrupt controller is set accordingly at
/// once: an interrupt that is on reaches the user context of `hart` and no
/// supervisor context; one that is off reaches the supervisor contexts and
/// not the user context. Doing so twice is the same as doing so once. For
/// the errors, which change nothing, see `switch_result`.
pub fn sys_set_ext_int_enable(kernel: &mut Kernel, hart: usize, device_id: usize, enable: usize) -> (ret:
    isize)
    requires
        old(kernel).wf(),
        hart < CPU_NUM,
        old(kernel).current(hart as int).is_some(),
    ensures
        final(kernel).wf(),
        sys_set_ext_int_enable_post(old(kernel), final(kernel), hart, device_id, enable, ret),
{
    broadcast use vstd::std_specs::btree::group_btree_axioms;

    let device_id = device_number(device_id);
    let is_enable = enable > 0;
    let task = kernel.processors[hart].current.unwrap();
    let ghost t = task as int;
    assert(old(kernel).live(t));
    assert(old(kernel).task_wf(t));
    let owner = match kernel.ext_int_map.get(&device_id) {
        Some(pid) => Some(*pid),
        None => None,
    };
    let (enabled, opted_in) = match kernel.pids.slot(task) {
        Some(tcb) => (tcb.inner.is_user_trap_enabled(), tcb.inner.user_trap_info.is_some()),
        None => (false, false),
    };
    if !enabled {
        return -1;
    }
    if !opted_in {
        return -5;
    }
    match owner {
        Some(pid) => {
            if pid != task {
                return -1;
            }
        },
        None => {
            return -2;
        },
    }
    let ghost devices = old(kernel).devices(t);
    proof {
        assert(lists_device(devices, device_id as int));
        lemma_device_index(devices, device_id, devices.len() as int);
        let j = choose|j: int| 0 <= j < devices.len() && (#[trigger] devices[j]).0 == device_id as int;
        assert(devices[j].0 == device_id);
    }
    let ghost index = device_index(devices, device_id, devices.len() as int);
    // where the task lists the device
    let mut found: usize = 0;
    match kernel.pids.slot(task) {
        Some(tcb) => {
            match &tcb.inner.user_trap_info {
                Some(info) => {
                    let mut i: usize = 0;
                    while i < info.devices.len() && info.devices[i].0 != device_id
                        invariant
                            i <= info.devices@.len(),
                            info.devices@ == devices,
                            device_index(devices, device_id, i as int) == i,
                        decreases info.devices@.len() - i,
                    {
                        i += 1;
                    }
                    proof {
                        if i < devices.len() {
                            lemma_device_index_stable(devices, device_id, i as int + 1, devices.len() as int);
                        }
                    }
                    found = i;
                },
                None => {},
            }
        },
        None => {},
    }
    assert(found == index);
    match kernel.pids.slot_mut(task) {
        Some(tcb) => {
            match &mut tcb.inner.user_trap_info {
                Some(info) => {
                    info.devices[found] = (device_id, is_enable);
                },
                None => {},
            }
        },
        None => {},
    }
    assert(kernel.live(t));
    assert(kernel.tcb(t).inner.user_trap_info.is_some());
    assert(kernel.devices(t) == devices.update(index, (device_id, is_enable)));
    assert(device_id < IRQ_NUM) by {
        assert(devices_in_range(devices));
        assert(devices[index].0 < IRQ_NUM);
    }
    if is_enable {
        kernel.plic.disable_supervisors(device_id);
        kernel.plic.enable(3 * hart + 2, device_id);
    } else {
        kernel.plic.disable(3 * hart + 2, device_id);
        kernel.plic.enable_supervisors(device_id);
    }
    proof {
        lemma_wf_after_switch(*old(kernel), *kernel, t, hart, device_id, is_enable, index);
    }
    0
}

/// Enabling an interrupt for the supervisor contexts of the first harts
/// sets exactly those bits.
pub proof fn lemma_enable_s_upto(p: PlicState, irq: u16, harts: nat)
    requires
        p.wf(),
        irq < IRQ_NUM,
        harts <= CPU_NUM,
    ensures
        p.enable_s_upto(irq, harts).wf(),
        forall|c2: int, i2: int| #[trigger]
            p.enable_s_upto(irq, harts).is_enabled(c2, i2) == (p.is_enabled(c2, i2) || (i2 == irq && c2 % 3 == 1
                && 0 <= c2 / 3 < harts)),
    decreases harts,
{
    if harts > 0 {
        let before = p.enable_s_upto(irq, (harts - 1) as nat);
        lemma_enable_s_upto(p, irq, (harts - 1) as nat);
        let c = (3 * (harts - 1) + 1) as usize;
        lemma_switch_bit(before, c, irq, true);
        assert(p.enable_s_upto(irq, harts) == before.enable(c, irq));
        assert forall|c2: int, i2: int| #[trigger]
            p.enable_s_upto(irq, harts).is_enabled(c2, i2) == (p.is_enabled(c2, i2) || (i2 == irq && c2 % 3 == 1
                && 0 <= c2 / 3 < harts)) by {
            assert(before.enable(c, irq).is_enabled(c2, i2) == (c2 == c && i2 == irq || before.is_enabled(c2, i2)));
            assert((c2 % 3 == 1 && 0 <= c2 / 3 < harts) == ((c2 % 3 == 1 && 0 <= c2 / 3 < harts - 1) || c2
                == c));
        }
    }
}

/// Switching an interrupt on or off twice leaves the controller's enable
/// bits as switching it once does.
pub proof fn lemma_switch_again(p: PlicState, hart: usize, dev: u16, on: bool)
    requires
        p.wf(),
        hart < CPU_NUM,
        dev < IRQ_NUM,
    ensures
        switched(p, hart, dev, on).wf(),
        forall|c: int, i: int| #[trigger]
            switched(switched(p, hart, dev, on), hart, dev, on).is_enabled(c, i) == switched(
                p,
                hart,
                dev,
                on,
            ).is_enabled(c, i),
{
    let u = (3 * hart + 2) as usize;
    let once = switched(p, hart, dev, on);
    if on {
        lemma_disable_s_upto(p, dev, CPU_NUM as nat);
        lemma_switch_bit(p.disable_s_upto(dev, CPU_NUM as nat), u, dev, true);
        lemma_disable_s_upto(once, dev, CPU_NUM as nat);
        lemma_switch_bit(once.disable_s_upto(dev, CPU_NUM as nat), u, dev, true);
    } else {
        lemma_switch_bit(p, u, dev, false);
        lemma_enable_s_upto(p.disable(u, dev), dev, CPU_NUM as nat);
        lemma_switch_bit(once, u, dev, false);
        lemma_enable_s_upto(once.disable(u, dev), dev, CPU_NUM as nat);
    }
}

/// A well-formed kernel stays well formed when the task that runs on
/// `hart` switches the interrupt of a device it owns on or off.
pub proof fn lemma_wf_after_switch(old_k: Kernel, new_k: Kernel, t: int, hart: usize, dev: u16, on: bool, k: int)
    requires
        old_k.wf(),
        hart < CPU_NUM,
        old_k.live(t),
        old_k.current(hart as int) == Some(t as usize),
        old_k.ext_int_map@.contains_key(dev),
        old_k.ext_int_map@[dev] == t,
        0 <= k < old_k.devices(t).len(),
        old_k.devices(t)[k].0 == dev,
        new_k.devices(t) == old_k.devices(t).update(k, (dev, on)),
        old_k.tcb(t).inner.user_trap_info.is_some(),
        new_k.tcb(t).inner.user_trap_info.is_some(),
        new_k.tcb(t).inner.user_trap_info.unwrap().records() == old_k.tcb(
            t,
        ).inner.user_trap_info.unwrap().records(),
        new_k.plic@ == switched(old_k.plic@, hart, dev, on),
        new_k.ext_int_map@ == old_k.ext_int_map@,
        new_k.same_tasks_but(&old_k, t),
        new_k.live(t),
        new_k.tcb(t).pid == old_k.tcb(t).pid,
        new_k.tcb(t).kernel_stack == old_k.tcb(t).kernel_stack,
        new_k.tcb(t).inner.task_status == old_k.tcb(t).inner.task_status,
        new_k.tcb(t).inner.children == old_k.tcb(t).inner.children,
        new_k.tcb(t).inner.parent == old_k.tcb(t).inner.parent,
        new_k.tcb(t).inner.mail_box == old_k.tcb(t).inner.mail_box,
        new_k.same_setup(&old_k),
        new_k.pool == old_k.pool,
        new_k.processors == old_k.processors,
        new_k.timers == old_k.timers,
        new_k.serials == old_k.serials,
    ensures
        new_k.wf(),
{
    let devices = old_k.devices(t);
    let p = old_k.plic@;
    let r = new_k.plic@;
    let u = (3 * hart + 2) as usize;
    assert(old_k.task_wf(t));
    assert(devices[k].0 < IRQ_NUM);
    assert(old_k.status(t) == TaskStatus::Running(hart));
    if on {
        lemma_disable_s_upto(p, dev, CPU_NUM as nat);
        lemma_switch_bit(p.disable_s_upto(dev, CPU_NUM as nat), u, dev, true);
    } else {
        lemma_switch_bit(p, u, dev, false);
        lemma_enable_s_upto(p.disable(u, dev), dev, CPU_NUM as nat);
    }
    assert(new_k.same_live(&old_k));
    assert(new_k.same_status(&old_k));
    assert(new_k.same_currents(&old_k));
    assert(new_k.same_family(&old_k));
    assert(new_k.same_task_wf(&old_k)) by {
        assert forall|x: int| #[trigger] new_k.live(x) && old_k.task_wf(x) implies new_k.task_wf(x) by {
            if x == t {
                assert forall|i: int| 0 <= i < new_k.devices(t).len() implies (#[trigger] new_k.devices(
                    t,
                )[i]).0 < IRQ_NUM by {
                    if i != k {
                        assert(new_k.devices(t)[i] == devices[i]);
                    }
                }
            }
        }
    }
    new_k.lemma_frame_structure(&old_k);
    new_k.lemma_frame_running(&old_k);
    new_k.lemma_frame_ready(&old_k);
    new_k.lemma_frame_family(&old_k);
    assert(new_k.wf_claims()) by {
        assert forall|x: int| #[trigger] new_k.live(x) implies new_k.devices(x).len() == old_k.devices(x).len()
            && forall|i: int|
            0 <= i < new_k.devices(x).len() ==> (#[trigger] new_k.devices(x)[i]).0 == old_k.devices(x)[i].0 by {
            assert(old_k.live(x));
        }
        assert forall|irq: u16| #[trigger] new_k.ext_int_map@.contains_key(irq) implies new_k.live(
            new_k.ext_int_map@[irq] as int,
        ) && lists_device(new_k.devices(new_k.ext_int_map@[irq] as int), irq as int) by {
            assert(old_k.ext_int_map@.contains_key(irq));
            let o = old_k.ext_int_map@[irq] as int;
            assert(old_k.live(o));
            let j = choose|j: int| 0 <= j < old_k.devices(o).len() && (#[trigger] old_k.devices(o)[j]).0 == irq as int;
            assert(new_k.devices(o)[j].0 == irq);
        }
        assert forall|x: int, i: int|
            new_k.live(x) && 0 <= i < new_k.devices(x).len() implies new_k.ext_int_map@.contains_key(
            (#[trigger] new_k.devices(x)[i]).0,
        ) && new_k.ext_int_map@[new_k.devices(x)[i].0] == x by {
            assert(old_k.live(x));
            assert(new_k.devices(x)[i].0 == old_k.devices(x)[i].0);
            assert(old_k.ext_int_map@.contains_key(old_k.devices(x)[i].0));
        }
        assert forall|x: int| #[trigger] new_k.live(x) implies distinct_devices(new_k.devices(x)) by {
            assert(old_k.live(x));
            assert(distinct_devices(old_k.devices(x)));
            assert forall|i: int, j: int|
                0 <= i < new_k.devices(x).len() && 0 <= j < new_k.devices(x).len() && i != j implies new_k.devices(
                x,
            )[i].0 != new_k.devices(x)[j].0 by {
                assert(new_k.devices(x)[i].0 == old_k.devices(x)[i].0);
                assert(new_k.devices(x)[j].0 == old_k.devices(x)[j].0);
            }
        }
        assert forall|x: int|
            new_k.live(x) && #[trigger] new_k.status(x) == TaskStatus::Zombie implies new_k.devices(x).len()
            == 0 by {
            assert(old_k.live(x));
            assert(old_k.status(x) == TaskStatus::Zombie);
        }
    }
    assert(new_k.wf_routing()) by {
        assert forall|h: int, irq: int|
            0 <= h < CPU_NUM && 0 <= irq < IRQ_NUM && #[trigger] r.is_enabled(u_context(h), irq) implies {
            &&& new_k.ext_int_map@.contains_key(irq as u16)
            &&& new_k.live(new_k.ext_int_map@[irq as u16] as int)
            &&& new_k.status(new_k.ext_int_map@[irq as u16] as int) == TaskStatus::Running(h as usize)
            &&& r.no_supervisor_enable(irq)
        } by {
            if irq == dev {
                if h != hart {
                    assert(p.is_enabled(u_context(h), irq));
                    assert(old_k.status(t) == TaskStatus::Running(h as usize));
                }
                assert(on);
                assert forall|h2: int| 0 <= h2 < CPU_NUM implies !#[trigger] r.is_enabled(s_context(h2), irq) by {}
            } else {
                assert(p.is_enabled(u_context(h), irq));
                assert(old_k.ext_int_map@.contains_key(irq as u16));
                let o = old_k.ext_int_map@[irq as u16] as int;
                assert(old_k.live(o));
                assert(p.no_supervisor_enable(irq));
                assert forall|h2: int| 0 <= h2 < CPU_NUM implies !#[trigger] r.is_enabled(s_context(h2), irq) by {
                    assert(r.is_enabled(s_context(h2), irq) == p.is_enabled(s_context(h2), irq));
                }
            }
        }
    }
}

} // verus!
