use vstd::prelude::*;
use std::collections::BTreeMap;
use crate::config::{Board, CPU_NUM};
use crate::kernel::Kernel;

verus! {

/// Number of scheduling ticks per second.
pub const TICKS_PER_SEC: usize = 100;

/// Milliseconds per second.
pub const MSEC_PER_SEC: usize = 1000;

/// Microseconds per second.
pub const USEC_PER_SEC: usize = 1000_000;

/// The identifier under which the kernel's own scheduling tick stands in a timer map.
pub const KERNEL_TICK: usize = 0;

/// A time in seconds and microseconds.
#[derive(Clone, Copy, Debug, PartialEq, Eq, Structural)]
pub struct TimeVal {
    pub sec: usize,
    pub usec: usize,
}

impl TimeVal {
    /// The time zero.
    pub fn new() -> (t: TimeVal)
        ensures
            t.sec == 0,
            t.usec == 0,
    {
        TimeVal { sec: 0, usec: 0 }
    }
}

/// The time of day that the reading `t` of the board's timer stands for:
/// whole seconds, and the microseconds of the second begun.
pub fn get_time(t: usize, board: Board) -> (tv: TimeVal)
    ensures
        tv.sec == t / board.spec_clock_freq(),
        tv.usec == (t % board.spec_clock_freq()) * 1000_000 / (board.spec_clock_freq() as int),
{
    let freq = board.clock_freq();
    let rest: u64 = (t % freq) as u64;
    assert(rest * 1000_000 <= 12_500_000 * 1000_000) by (nonlinear_arith)
        requires
            rest <= 12_500_000,
    ;
    let usec: u64 = rest * 1000_000 / (freq as u64);
    assert(usec <= rest * 1000_000 / 10_000_000) by (nonlinear_arith)
        requires
            usec == rest * 1000_000 / (freq as int),
            freq >= 10_000_000,
            rest >= 0,
    ;
    TimeVal { sec: t / freq, usec: usec as usize }
}

/// The reading `t` of the board's timer in milliseconds.
pub fn get_time_ms(t: usize, board: Board) -> (ms: usize)
    ensures
        ms == t / (board.spec_clock_freq() / MSEC_PER_SEC),
{
    t / (board.clock_freq() / MSEC_PER_SEC)
}

/// The reading `t` of the board's timer in microseconds.
pub fn get_time_us(t: usize, board: Board) -> (us: usize)
    ensures
        us == t * USEC_PER_SEC / (board.spec_clock_freq() as int),
{
    let freq = board.clock_freq();
    let wide: u128 = t as u128;
    assert(wide * 1000_000 <= 0xffff_ffff_ffff_ffff * 1000_000) by (nonlinear_arith)
        requires
            wide <= 0xffff_ffff_ffff_ffff,
    ;
    let us: u128 = wide * 1000_000 / (freq as u128);
    assert(us <= wide) by (nonlinear_arith)
        requires
            us == wide * 1000_000 / (freq as int),
            freq >= 10_000_000,
            wide >= 0,
    ;
    us as usize
}

/// The number of timer ticks of `time_us` microseconds, cut to the width of a word.
pub open spec fn us_to_ticks(time_us: usize, board: Board) -> usize {
    ((time_us * board.spec_clock_freq() / (USEC_PER_SEC as int)) % (usize::MAX + 1)) as usize
}

/// The number of timer ticks of `time_us` microseconds. A number that a
/// word cannot hold is cut to the word's width.
pub fn ticks_of_us(time_us: usize, board: Board) -> (ticks: usize)
    ensures
        ticks == us_to_ticks(time_us, board),
{
    let freq = board.clock_freq();
    let wide: u128 = time_us as u128;
    assert(wide * freq <= 0xffff_ffff_ffff_ffff * 12_500_000) by (nonlinear_arith)
        requires
            wide <= 0xffff_ffff_ffff_ffff,
            0 <= freq <= 12_500_000,
    ;
    let ticks: u128 = wide * (freq as u128) / 1000_000;
    let modulus: u128 = (usize::MAX as u128) + 1;
    (ticks % modulus) as usize
}

/// Whether `key` is the smallest key of `map`.
pub open spec fn is_min_key(map: Map<usize, usize>, key: usize) -> bool {
    map.contains_key(key) && forall|other: usize| map.contains_key(other) ==> key <= other
}

/// Calls `BTreeMap::first_key_value`. Believed of it, not proved: it
/// returns a copy of the entry whose key is the smallest in the map, or
/// `None` for a map without entries.
#[verifier::external_body]
fn map_first_key_value(map: &BTreeMap<usize, usize>) -> (first: Option<(usize, usize)>)
    ensures
        match first {
            Some((key, value)) => is_min_key(map@, key) && map@[key] == value,
            None => forall|key: usize| !map@.contains_key(key),
        },
{
    match map.first_key_value() {
        Some((key, value)) => Some((*key, *value)),
        None => None,
    }
}

/// Calls `BTreeMap::pop_first`. Believed of it, not proved: it takes the
/// entry whose key is the smallest out of the map and returns it, leaving
/// every other entry; for a map without entries it returns `None` and
/// leaves the map empty.
#[verifier::external_body]
fn map_pop_first(map: &mut BTreeMap<usize, usize>) -> (first: Option<(usize, usize)>)
    ensures
        match first {
            Some((key, value)) => is_min_key(old(map)@, key) && old(map)@[key] == value && final(map)@
                == old(map)@.remove(key),
            None => (forall|key: usize| !old(map)@.contains_key(key)) && final(map)@ == old(map)@,
        },
{
    map.pop_first()
}

/// The virtual timers of one hart: the deadlines, each with the task that
/// waits for it, and the deadline that the hart's one timer is set to.
pub struct TimerMap {
    pub map: BTreeMap<usize, usize>,
    pub programmed: Option<usize>,
}

impl TimerMap {
    /// While any deadline waits, the hart's timer is set to the earliest.
    pub open spec fn wf(&self) -> bool {
        forall|key: usize| is_min_key(self.map@, key) ==> self.programmed == Some(key)
    }

    /// Whether `self` is `before` after a timer for the task `pid` has been
    /// asked for at the time `time`, when the time was `now`: a deadline
    /// in the past changes nothing; any other is entered, and the hart's
    /// timer is set to it if it is the earliest, and else stays as it is.
    pub open spec fn is_set(&self, before: &TimerMap, time: usize, pid: usize, now: usize) -> bool {
        &&& time < now ==> self.map@ == before.map@ && self.programmed == before.programmed
        &&& time >= now ==> self.map@ == before.map@.insert(time, pid)
        &&& time >= now && is_min_key(self.map@, time) ==> self.programmed == Some(time)
        &&& time >= now && !is_min_key(self.map@, time) ==> self.programmed == before.programmed
    }

    /// Whether `self` is `before` after its earliest deadline, `first`, has
    /// been taken out: the deadline was the earliest and is gone, and the
    /// hart's timer is set to the earliest that remains or, if none does,
    /// stays as it is. Without any deadline nothing has changed.
    pub open spec fn is_popped(&self, before: &TimerMap, first: Option<(usize, usize)>) -> bool {
        match first {
            Some((time, pid)) => {
                &&& is_min_key(before.map@, time)
                &&& before.map@[time] == pid
                &&& self.map@ == before.map@.remove(time)
                &&& forall|key: usize| is_min_key(self.map@, key) ==> self.programmed == Some(key)
                &&& (forall|key: usize| !self.map@.contains_key(key)) ==> self.programmed == before.programmed
            },
            None => {
                &&& forall|key: usize| !before.map@.contains_key(key)
                &&& self.map@ == before.map@
                &&& self.programmed == before.programmed
            },
        }
    }

    /// No timers, and the hart's timer not set.
    pub fn new() -> (timers: TimerMap)
        ensures
            timers.wf(),
            timers.map@ == Map::<usize, usize>::empty(),
            timers.programmed.is_none(),
    {
        TimerMap { map: BTreeMap::new(), programmed: None }
    }

    /// Sets a timer for the task `pid` at the time `time`, when the time is
    /// now `now`. A deadline in the past is dropped. Otherwise the deadline
    /// is entered, in place of the task that waited for the same deadline
    /// if there was one, and the hart's timer is set to it if it is now the
    /// earliest.
    pub fn set_virtual_timer(&mut self, time: usize, pid: usize, now: usize)
        requires
            old(self).wf(),
        ensures
            final(self).wf(),
            final(self).is_set(old(self), time, pid, now),
    {
        broadcast use vstd::std_specs::btree::group_btree_axioms;

        if time < now {
            return ;
        }
        self.map.insert(time, pid);
        if let Some((timer_min, _)) = map_first_key_value(&self.map) {
            if time == timer_min {
                self.programmed = Some(time);
            } else {
                assert forall|other: usize| old(self).map@.contains_key(other) implies timer_min
                    <= other by {
                    assert(self.map@.contains_key(other));
                }
                assert(is_min_key(old(self).map@, timer_min));
            }
        }
    }

    /// Takes the earliest deadline out, with the task that waits for it,
    /// and sets the hart's timer to the earliest deadline that remains, if
    /// any does. Without any deadline nothing changes.
    pub fn pop_first(&mut self) -> (first: Option<(usize, usize)>)
        requires
            old(self).wf(),
        ensures
            final(self).wf(),
            final(self).is_popped(old(self), first),
    {
        let first = map_pop_first(&mut self.map);
        if first.is_some() {
            if let Some((next_time, _)) = map_first_key_value(&self.map) {
                self.programmed = Some(next_time);
            }
        }
        first
    }

    /// Sets the timer of the kernel's next scheduling tick, one hundredth of
    /// a second after `now`. A deadline that a word cannot hold wraps
    /// around, lies in the past, and is dropped.
    pub fn set_next_trigger(&mut self, now: usize, board: Board)
        requires
            old(self).wf(),
        ensures
            final(self).wf(),
            final(self).is_set(old(self), next_tick(now, board), KERNEL_TICK, now),
    {
        let time = now.wrapping_add(board.clock_freq() / TICKS_PER_SEC);
        self.set_virtual_timer(time, KERNEL_TICK, now);
    }
}

/// The time of the scheduling tick that follows `now`.
pub open spec fn next_tick(now: usize, board: Board) -> usize {
    now.wrapping_add((board.spec_clock_freq() / TICKS_PER_SEC) as usize)
}

/// Whether `after` is `before` but for the virtual timers of `hart`.
pub open spec fn only_timers_differ(after: &Kernel, before: &Kernel, hart: int) -> bool {
    &&& after.same_setup(before)
    &&& after.pids == before.pids
    &&& after.pool == before.pool
    &&& after.processors == before.processors
    &&& after.serials == before.serials
    &&& after.ext_int_map == before.ext_int_map
    &&& after.plic == before.plic
    &&& after.timers@.len() == before.timers@.len()
    &&& forall|h: int| 0 <= h < before.timers@.len() && h != hart ==> after.timers@[h] == before.timers@[h]
}

/// Sets a virtual timer of `hart` for the task `pid` at the time `time`,
/// when the timer reads `now`; see `TimerMap::set_virtual_timer`.
pub fn set_virtual_timer(kernel: &mut Kernel, hart: usize, time: usize, pid: usize, now: usize)
    requires
        old(kernel).wf(),
        hart < CPU_NUM,
    ensures
        final(kernel).wf(),
        only_timers_differ(final(kernel), old(kernel), hart as int),
        final(kernel).timers@[hart as int].is_set(&old(kernel).timers@[hart as int], time, pid, now),
{
    kernel.timers[hart].set_virtual_timer(time, pid, now);
    proof {
        let old_k = *old(kernel);
        assert(kernel.same_shape(&old_k)) by {
            assert forall|h: int| 0 <= h < CPU_NUM implies (#[trigger] kernel.timers@[h]).wf() by {
                if h != hart {
                    assert(kernel.timers@[h] == old_k.timers@[h]);
                }
            }
        }
        kernel.lemma_same_shape(&old_k);
    }
}

/// Sets the timer of the kernel's next scheduling tick on `hart`, when the
/// timer reads `now`; see `TimerMap::set_next_trigger`.
pub fn set_next_trigger(kernel: &mut Kernel, hart: usize, now: usize)
    requires
        old(kernel).wf(),
        hart < CPU_NUM,
    ensures
        final(kernel).wf(),
        only_timers_differ(final(kernel), old(kernel), hart as int),
        final(kernel).timers@[hart as int].is_set(
            &old(kernel).timers@[hart as int],
            next_tick(now, old(kernel).board),
            KERNEL_TICK,
            now,
        ),
{
    let board = kernel.board;
    kernel.timers[hart].set_next_trigger(now, board);
    proof {
        let old_k = *old(kernel);
        assert(kernel.same_shape(&old_k)) by {
            assert forall|h: int| 0 <= h < CPU_NUM implies (#[trigger] kernel.timers@[h]).wf() by {
                if h != hart {
                    assert(kernel.timers@[h] == old_k.timers@[h]);
                }
            }
        }
        kernel.lemma_same_shape(&old_k);
    }
}

} // verus!
