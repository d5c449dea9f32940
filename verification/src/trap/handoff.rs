use vstd::prelude::*;
use crate::config::CPU_NUM;
use crate::kernel::distinct_devices;
use crate::plic::{PlicState, CONTEXT_NUM, IRQ_NUM};
use crate::trap::usertrap::{
    devices_in_range, disable_handoff, enable_handoff, release_devices, release_on_hart, unregister_devices,
};

verus! {

/// Whether `devices` holds the device `irq`.
pub open spec fn lists_device(devices: Seq<(u16, bool)>, irq: int) -> bool {
    exists|k: int| 0 <= k < devices.len() && (#[trigger] devices[k]).0 == irq
}

/// The flag of the last entry of `devices` for the device `irq`.
pub open spec fn device_flag(devices: Seq<(u16, bool)>, irq: int) -> bool
    decreases devices.len(),
{
    if devices.len() == 0 {
        false
    } else if devices.last().0 == irq {
        devices.last().1
    } else {
        device_flag(devices.drop_last(), irq)
    }
}

/// In a list that names no device twice, the flag of a device is the flag
/// of its one entry.
pub proof fn lemma_device_flag(devices: Seq<(u16, bool)>, k: int)
    requires
        distinct_devices(devices),
        0 <= k < devices.len(),
    ensures
        device_flag(devices, devices[k].0 as int) == devices[k].1,
    decreases devices.len(),
{
    if k < devices.len() - 1 {
        let init = devices.drop_last();
        assert(devices.last() == devices[devices.len() - 1]);
        assert(init[k] == devices[k]);
        assert(distinct_devices(init)) by {
            assert forall|i: int, j: int| 0 <= i < init.len() && 0 <= j < init.len() && i != j implies init[i].0
                != init[j].0 by {
                assert(init[i] == devices[i]);
                assert(init[j] == devices[j]);
            }
        }
        lemma_device_flag(init, k);
    }
}

/// Whether the controller `after` is `before` once the interrupts of
/// `devices` have been steered to the user context of `hart`. An interrupt
/// that is not among them has all its enable bits as before. One that is
/// among them is disabled for every supervisor context, has its flag as
/// its bit for the user context of `hart`, and has its bits for every
/// other context as before.
pub open spec fn steered_to_user(after: PlicState, before: PlicState, devices: Seq<(u16, bool)>, hart: usize) -> bool {
    forall|c: int, i: int| #[trigger]
        after.is_enabled(c, i) == (if !lists_device(devices, i) {
            before.is_enabled(c, i)
        } else if c % 3 == 1 && 0 <= c / 3 < CPU_NUM {
            false
        } else if c == 3 * hart + 2 {
            device_flag(devices, i)
        } else {
            before.is_enabled(c, i)
        })
}

/// Whether the controller `after` is `before` once the interrupts of
/// `devices` have been steered back from the user context of `hart` to its
/// supervisor context. An interrupt that is not among them has all its
/// enable bits as before. One that is among them is disabled for the user
/// context of `hart`, has its flag as its bit for the supervisor context
/// of `hart`, and has its bits for every other context as before.
pub open spec fn steered_to_supervisor(
    after: PlicState,
    before: PlicState,
    devices: Seq<(u16, bool)>,
    hart: usize,
) -> bool {
    forall|c: int, i: int| #[trigger]
        after.is_enabled(c, i) == (if !lists_device(devices, i) {
            before.is_enabled(c, i)
        } else if c == 3 * hart + 2 {
            false
        } else if c == 3 * hart + 1 {
            device_flag(devices, i)
        } else {
            before.is_enabled(c, i)
        })
}

/// Setting one enable bit changes that bit and no other.
pub proof fn lemma_with_bit(p: PlicState, c: int, i: int, on: bool)
    requires
        p.wf(),
        0 <= c < CONTEXT_NUM,
        0 <= i < IRQ_NUM,
    ensures
        p.with_bit(c, i, on).wf(),
        forall|c2: int, i2: int| #[trigger]
            p.with_bit(c, i, on).is_enabled(c2, i2) == (if c2 == c && i2 == i {
                on
            } else {
                p.is_enabled(c2, i2)
            }),
{
    let q = p.with_bit(c, i, on);
    assert forall|c2: int| 0 <= c2 < CONTEXT_NUM implies (#[trigger] q.enabled[c2]).len() == IRQ_NUM by {
        if c2 == c {
        } else {
            assert(q.enabled[c2] == p.enabled[c2]);
        }
    }
}

/// Enabling or disabling an interrupt for a context changes that one
/// enable bit and no other.
pub proof fn lemma_switch_bit(p: PlicState, c: usize, irq: u16, on: bool)
    requires
        p.wf(),
        c < CONTEXT_NUM,
        irq < IRQ_NUM,
    ensures
        on ==> p.enable(c, irq).wf(),
        !on ==> p.disable(c, irq).wf(),
        on ==> forall|c2: int, i2: int| #[trigger]
            p.enable(c, irq).is_enabled(c2, i2) == (c2 == c && i2 == irq || p.is_enabled(c2, i2)),
        !on ==> forall|c2: int, i2: int| #[trigger]
            p.disable(c, irq).is_enabled(c2, i2) == (!(c2 == c && i2 == irq) && p.is_enabled(c2, i2)),
{
    lemma_with_bit(p, c as int, irq as int, on);
    let q = p.with_bit(c as int, irq as int, on);
    if on {
        assert forall|c2: int, i2: int| #[trigger]
            p.enable(c, irq).is_enabled(c2, i2) == (c2 == c && i2 == irq || p.is_enabled(c2, i2)) by {
            assert(p.enable(c, irq).is_enabled(c2, i2) == q.is_enabled(c2, i2));
        }
    } else {
        assert forall|c2: int, i2: int| #[trigger]
            p.disable(c, irq).is_enabled(c2, i2) == (!(c2 == c && i2 == irq) && p.is_enabled(c2, i2)) by {
            assert(p.disable(c, irq).is_enabled(c2, i2) == q.is_enabled(c2, i2));
        }
    }
}

/// Completing an interrupt changes no enable bit.
pub proof fn lemma_complete_bit(p: PlicState, c: usize, irq: u16)
    requires
        p.wf(),
    ensures
        p.complete(c, irq).wf(),
        forall|c2: int, i2: int| #[trigger] p.complete(c, irq).is_enabled(c2, i2) == p.is_enabled(c2, i2),
{
}

/// Disabling an interrupt for the supervisor contexts of the first harts
/// clears exactly those bits.
pub proof fn lemma_disable_s_upto(p: PlicState, irq: u16, harts: nat)
    requires
        p.wf(),
        irq < IRQ_NUM,
        harts <= CPU_NUM,
    ensures
        p.disable_s_upto(irq, harts).wf(),
        forall|c2: int, i2: int| #[trigger]
            p.disable_s_upto(irq, harts).is_enabled(c2, i2) == (p.is_enabled(c2, i2) && !(i2 == irq && c2 % 3
                == 1 && 0 <= c2 / 3 < harts)),
    decreases harts,
{
    if harts > 0 {
        let before = p.disable_s_upto(irq, (harts - 1) as nat);
        lemma_disable_s_upto(p, irq, (harts - 1) as nat);
        let c = (3 * (harts - 1) + 1) as usize;
        lemma_switch_bit(before, c, irq, false);
        assert(p.disable_s_upto(irq, harts) == before.disable(c, irq));
        assert forall|c2: int, i2: int| #[trigger]
            p.disable_s_upto(irq, harts).is_enabled(c2, i2) == (p.is_enabled(c2, i2) && !(i2 == irq && c2 % 3
                == 1 && 0 <= c2 / 3 < harts)) by {
            assert(before.disable(c, irq).is_enabled(c2, i2) == (!(c2 == c && i2 == irq) && before.is_enabled(
                c2,
                i2,
            )));
            assert((c2 % 3 == 1 && 0 <= c2 / 3 < harts) == ((c2 % 3 == 1 && 0 <= c2 / 3 < harts - 1) || c2
                == c));
        }
    }
}

/// What the hand-over to a starting task does to the controller. An
/// interrupt that the task does not own keeps all its enable bits. One that
/// it owns is disabled for every supervisor context, gets the task's flag
/// for the user context of the hart, and keeps its bits for every other
/// context.
pub proof fn lemma_enable_handoff(p: PlicState, devices: Seq<(u16, bool)>, hart: usize)
    requires
        p.wf(),
        devices_in_range(devices),
        hart < CPU_NUM,
    ensures
        enable_handoff(p, devices, hart).wf(),
        forall|c2: int, i2: int| #[trigger]
            enable_handoff(p, devices, hart).is_enabled(c2, i2) == (if !lists_device(devices, i2) {
                p.is_enabled(c2, i2)
            } else if c2 % 3 == 1 && 0 <= c2 / 3 < CPU_NUM {
                false
            } else if c2 == 3 * hart + 2 {
                device_flag(devices, i2)
            } else {
                p.is_enabled(c2, i2)
            }),
    decreases devices.len(),
{
    if devices.len() > 0 {
        let d = devices.last();
        let init = devices.drop_last();
        assert(devices_in_range(init)) by {
            assert forall|i: int| 0 <= i < init.len() implies (#[trigger] init[i]).0 < IRQ_NUM by {
                assert(init[i] == devices[i]);
            }
        }
        lemma_enable_handoff(p, init, hart);
        let a = enable_handoff(p, init, hart);
        lemma_disable_s_upto(a, d.0, CPU_NUM as nat);
        let b = a.disable_s_upto(d.0, CPU_NUM as nat);
        let u = (3 * hart + 2) as usize;
        lemma_switch_bit(b, u, d.0, d.1);
        let r = enable_handoff(p, devices, hart);
        assert(r == (if d.1 {
            b.enable(u, d.0)
        } else {
            b.disable(u, d.0)
        }));
        assert forall|c2: int, i2: int| #[trigger]
            r.is_enabled(c2, i2) == (if !lists_device(devices, i2) {
                p.is_enabled(c2, i2)
            } else if c2 % 3 == 1 && 0 <= c2 / 3 < CPU_NUM {
                false
            } else if c2 == 3 * hart + 2 {
                device_flag(devices, i2)
            } else {
                p.is_enabled(c2, i2)
            }) by {
            lemma_lists_device_step(devices, i2);
            assert(r.is_enabled(c2, i2) == (if d.1 {
                c2 == u && i2 == d.0 || b.is_enabled(c2, i2)
            } else {
                !(c2 == u && i2 == d.0) && b.is_enabled(c2, i2)
            }));
            assert(b.is_enabled(c2, i2) == (a.is_enabled(c2, i2) && !(i2 == d.0 && c2 % 3 == 1 && 0 <= c2 / 3
                < CPU_NUM)));
        }
    } else {
        assert forall|i2: int| !lists_device(devices, i2) by {}
    }
}

/// A list holds a device if its last entry is the device or the entries
/// before the last hold it.
pub proof fn lemma_lists_device_step(devices: Seq<(u16, bool)>, irq: int)
    requires
        devices.len() > 0,
    ensures
        lists_device(devices, irq) == (devices.last().0 == irq || lists_device(devices.drop_last(), irq)),
{
    let init = devices.drop_last();
    if lists_device(init, irq) {
        let k = choose|k: int| 0 <= k < init.len() && (#[trigger] init[k]).0 == irq;
        assert(devices[k] == init[k]);
    }
    if lists_device(devices, irq) && devices.last().0 != irq {
        let k = choose|k: int| 0 <= k < devices.len() && (#[trigger] devices[k]).0 == irq;
        assert(init[k] == devices[k]);
    }
    if devices.last().0 == irq {
        assert(devices[devices.len() - 1].0 == irq);
    }
}

/// What the hand-over from a stopping task does to the controller. An
/// interrupt that the task does not own keeps all its enable bits. One that
/// it owns is disabled for the user context of the hart, gets the task's
/// flag for the supervisor context of the hart, and keeps its bits for
/// every other context.
pub proof fn lemma_disable_handoff(p: PlicState, devices: Seq<(u16, bool)>, hart: usize)
    requires
        p.wf(),
        devices_in_range(devices),
        hart < CPU_NUM,
    ensures
        disable_handoff(p, devices, hart).wf(),
        forall|c2: int, i2: int| #[trigger]
            disable_handoff(p, devices, hart).is_enabled(c2, i2) == (if !lists_device(devices, i2) {
                p.is_enabled(c2, i2)
            } else if c2 == 3 * hart + 2 {
                false
            } else if c2 == 3 * hart + 1 {
                device_flag(devices, i2)
            } else {
                p.is_enabled(c2, i2)
            }),
    decreases devices.len(),
{
    if devices.len() > 0 {
        let d = devices.last();
        let init = devices.drop_last();
        assert(devices_in_range(init)) by {
            assert forall|i: int| 0 <= i < init.len() implies (#[trigger] init[i]).0 < IRQ_NUM by {
                assert(init[i] == devices[i]);
            }
        }
        lemma_disable_handoff(p, init, hart);
        let a = disable_handoff(p, init, hart);
        let u = (3 * hart + 2) as usize;
        let sc = (3 * hart + 1) as usize;
        lemma_switch_bit(a, u, d.0, false);
        let b = a.disable(u, d.0);
        lemma_switch_bit(b, sc, d.0, d.1);
        let r = disable_handoff(p, devices, hart);
        assert(r == (if d.1 {
            b.enable(sc, d.0)
        } else {
            b.disable(sc, d.0)
        }));
        assert forall|c2: int, i2: int| #[trigger]
            r.is_enabled(c2, i2) == (if !lists_device(devices, i2) {
                p.is_enabled(c2, i2)
            } else if c2 == 3 * hart + 2 {
                false
            } else if c2 == 3 * hart + 1 {
                device_flag(devices, i2)
            } else {
                p.is_enabled(c2, i2)
            }) by {
            lemma_lists_device_step(devices, i2);
            assert(r.is_enabled(c2, i2) == (if d.1 {
                c2 == sc && i2 == d.0 || b.is_enabled(c2, i2)
            } else {
                !(c2 == sc && i2 == d.0) && b.is_enabled(c2, i2)
            }));
            assert(b.is_enabled(c2, i2) == (!(c2 == u && i2 == d.0) && a.is_enabled(c2, i2)));
        }
    } else {
        assert forall|i2: int| !lists_device(devices, i2) by {}
    }
}

/// Whether `irq` is among the first `n` of `devices`.
pub open spec fn lists_device_upto(devices: Seq<(u16, bool)>, irq: int, n: nat) -> bool {
    exists|k: int| 0 <= k < n && k < devices.len() && (#[trigger] devices[k]).0 == irq
}

/// What giving devices back on one hart does to the controller: each of
/// them is disabled for the user context of the hart and enabled for its
/// supervisor context; every other bit stays.
pub proof fn lemma_release_on_hart(p: PlicState, devices: Seq<(u16, bool)>, hart: usize, n: nat)
    requires
        p.wf(),
        devices_in_range(devices),
        hart < CPU_NUM,
        n <= devices.len(),
    ensures
        release_on_hart(p, devices, hart, n).wf(),
        forall|c2: int, i2: int| #[trigger]
            release_on_hart(p, devices, hart, n).is_enabled(c2, i2) == (if !lists_device_upto(devices, i2, n) {
                p.is_enabled(c2, i2)
            } else if c2 == 3 * hart + 2 {
                false
            } else if c2 == 3 * hart + 1 {
                0 <= i2 < IRQ_NUM
            } else {
                p.is_enabled(c2, i2)
            }),
    decreases n,
{
    if n > 0 {
        let irq = devices[n - 1].0;
        lemma_release_on_hart(p, devices, hart, (n - 1) as nat);
        let a = release_on_hart(p, devices, hart, (n - 1) as nat);
        let u = (3 * hart + 2) as usize;
        let sc = (3 * hart + 1) as usize;
        lemma_switch_bit(a, u, irq, false);
        let b = a.disable(u, irq);
        lemma_switch_bit(b, sc, irq, true);
        let e = b.enable(sc, irq);
        lemma_complete_bit(e, sc, irq);
        let r = release_on_hart(p, devices, hart, n);
        assert(r == e.complete(sc, irq));
        assert forall|c2: int, i2: int| #[trigger]
            r.is_enabled(c2, i2) == (if !lists_device_upto(devices, i2, n) {
                p.is_enabled(c2, i2)
            } else if c2 == 3 * hart + 2 {
                false
            } else if c2 == 3 * hart + 1 {
                0 <= i2 < IRQ_NUM
            } else {
                p.is_enabled(c2, i2)
            }) by {
            assert(r.is_enabled(c2, i2) == e.is_enabled(c2, i2));
            assert(e.is_enabled(c2, i2) == (c2 == sc && i2 == irq || b.is_enabled(c2, i2)));
            assert(b.is_enabled(c2, i2) == (!(c2 == u && i2 == irq) && a.is_enabled(c2, i2)));
            if lists_device_upto(devices, i2, (n - 1) as nat) {
                let k = choose|k: int| 0 <= k < n - 1 && k < devices.len() && (#[trigger] devices[k]).0 == i2;
                assert(devices[k].0 == i2);
            }
            if lists_device_upto(devices, i2, n) && irq != i2 {
                let k = choose|k: int| 0 <= k < n && k < devices.len() && (#[trigger] devices[k]).0 == i2;
                assert(k < n - 1);
            }
            if irq == i2 {
                assert(devices[n - 1].0 == i2);
            }
        }
    } else {
        assert forall|i2: int| !lists_device_upto(devices, i2, 0) by {}
    }
}

/// What giving devices back on the first harts does to the controller:
/// each of them is disabled for the user contexts of these harts and
/// enabled for their supervisor contexts; every other bit stays.
pub proof fn lemma_release_devices(p: PlicState, devices: Seq<(u16, bool)>, harts: nat)
    requires
        p.wf(),
        devices_in_range(devices),
        harts <= CPU_NUM,
    ensures
        release_devices(p, devices, harts).wf(),
        forall|c2: int, i2: int| #[trigger]
            release_devices(p, devices, harts).is_enabled(c2, i2) == (if !lists_device(devices, i2) {
                p.is_enabled(c2, i2)
            } else if c2 % 3 == 2 && 0 <= c2 / 3 < harts {
                false
            } else if c2 % 3 == 1 && 0 <= c2 / 3 < harts {
                0 <= i2 < IRQ_NUM
            } else {
                p.is_enabled(c2, i2)
            }),
    decreases harts,
{
    if harts > 0 {
        lemma_release_devices(p, devices, (harts - 1) as nat);
        let a = release_devices(p, devices, (harts - 1) as nat);
        lemma_release_on_hart(a, devices, (harts - 1) as usize, devices.len());
        let r = release_devices(p, devices, harts);
        assert forall|c2: int, i2: int| #[trigger]
            r.is_enabled(c2, i2) == (if !lists_device(devices, i2) {
                p.is_enabled(c2, i2)
            } else if c2 % 3 == 2 && 0 <= c2 / 3 < harts {
                false
            } else if c2 % 3 == 1 && 0 <= c2 / 3 < harts {
                0 <= i2 < IRQ_NUM
            } else {
                p.is_enabled(c2, i2)
            }) by {
            assert(lists_device_upto(devices, i2, devices.len()) == lists_device(devices, i2)) by {
                if lists_device(devices, i2) {
                    let k = choose|k: int| 0 <= k < devices.len() && (#[trigger] devices[k]).0 == i2;
                    assert(devices[k].0 == i2);
                }
                if lists_device_upto(devices, i2, devices.len()) {
                    let k = choose|k: int|
                        0 <= k < devices.len() && k < devices.len() && (#[trigger] devices[k]).0 == i2;
                    assert(devices[k].0 == i2);
                }
            }
        }
    }
}

/// The registry without the first `n` of `devices` holds what it held
/// before, but for these devices.
pub proof fn lemma_unregister_devices(map: Map<u16, usize>, devices: Seq<(u16, bool)>, n: nat)
    requires
        n <= devices.len(),
    ensures
        forall|irq: u16| #[trigger]
            unregister_devices(map, devices, n).contains_key(irq) == (map.contains_key(irq)
                && !lists_device_upto(devices, irq as int, n)),
        forall|irq: u16| #[trigger]
            unregister_devices(map, devices, n).contains_key(irq) ==> unregister_devices(map, devices, n)[irq]
                == map[irq],
    decreases n,
{
    if n > 0 {
        lemma_unregister_devices(map, devices, (n - 1) as nat);
        let last = devices[n - 1].0;
        let before = unregister_devices(map, devices, (n - 1) as nat);
        assert(unregister_devices(map, devices, n) == before.remove(last));
        assert forall|irq: u16| #[trigger]
            unregister_devices(map, devices, n).contains_key(irq) implies unregister_devices(map, devices, n)[irq]
                == map[irq] by {
            assert(before.contains_key(irq));
        }
        assert forall|irq: u16| #[trigger]
            unregister_devices(map, devices, n).contains_key(irq) == (map.contains_key(irq)
                && !lists_device_upto(devices, irq as int, n)) by {
            assert(before.remove(last).contains_key(irq) == (before.contains_key(irq) && irq != last));
            assert(before.contains_key(irq) == (map.contains_key(irq) && !lists_device_upto(
                devices,
                irq as int,
                (n - 1) as nat,
            )));
            if lists_device_upto(devices, irq as int, (n - 1) as nat) {
                let k = choose|k: int|
                    0 <= k < n - 1 && k < devices.len() && (#[trigger] devices[k]).0 == irq as int;
                assert(devices[k].0 == irq);
            }
            if lists_device_upto(devices, irq as int, n) && last != irq {
                let k = choose|k: int| 0 <= k < n && k < devices.len() && (#[trigger] devices[k]).0 == irq as int;
                assert(k < n - 1);
            }
            if last == irq {
                assert(devices[n - 1].0 == irq);
            }
        }
    } else {
        assert forall|irq: u16| !lists_device_upto(devices, irq as int, 0) by {}
    }
}

} // verus!
