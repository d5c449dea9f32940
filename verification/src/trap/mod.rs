use vstd::prelude::*;
use crate::config::CPU_NUM;
use crate::kernel::Kernel;
use crate::plic::{handle_external_interrupt, handle_external_interrupt_post, ExtIntAction};
use crate::syscall::{
    blocks, is_supported, spec_is_supported, syscall, syscall_blocks, syscall_post, UserArea, SYSCALL_EXEC,
};
use crate::task::context::{TaskContext, UIP_UTIMER};
use crate::task::processor::{same_but_inner, Processor};
use crate::task::task::{TaskControlBlockInner, TaskStatus};
use crate::task::{
    exit_current_and_run_next, exit_current_and_run_next_post, suspend_current_and_run_next,
    suspend_current_and_run_next_post,
};
use crate::timer::{get_time_us, next_tick, TimerMap, KERNEL_TICK, USEC_PER_SEC};
use crate::trap::usertrap::{push_trap_record, push_trap_record_post, CAUSE_USER_TIMER};

pub mod context;
pub mod handoff;
pub mod usertrap;

pub use context::TrapContext;
pub use usertrap::{UserTrapError, UserTrapInfo, UserTrapQueue, UserTrapRecord};

verus! {

/// The exit code of a task that the kernel ends for a fault of memory access.
pub const EXIT_FAULT: i32 = -2;

/// The exit code of a task that the kernel ends for an illegal instruction.
pub const EXIT_ILLEGAL: i32 = -3;

/// Why a hart has trapped from user mode into the kernel.
#[derive(Clone, Copy, Debug, PartialEq, Eq, Structural)]
pub enum TrapCause {
    UserEnvCall,
    StoreFault,
    StorePageFault,
    InstructionFault,
    InstructionPageFault,
    LoadFault,
    LoadPageFault,
    IllegalInstruction,
    SupervisorTimer,
    SupervisorExternal,
    SupervisorSoft,
    /// Any other cause. The kernel handles no such trap: it stops.
    Unsupported,
}

/// The cause that the cause register of the supervisor stands for, given
/// whether it records an interrupt and which code it holds. Of the
/// exceptions, the code 8 is a system call, the codes 1, 5, 7, 12, 13 and
/// 15 are faults of memory access, and the code 2 is an illegal
/// instruction. Of the interrupts, the code 1 is the software interrupt,
/// the code 5 the timer and the code 9 an external interrupt. Everything
/// else is unsupported.
pub open spec fn spec_decode_cause(interrupt: bool, code: usize) -> TrapCause {
    if interrupt {
        if code == 1 {
            TrapCause::SupervisorSoft
        } else if code == 5 {
            TrapCause::SupervisorTimer
        } else if code == 9 {
            TrapCause::SupervisorExternal
        } else {
            TrapCause::Unsupported
        }
    } else if code == 8 {
        TrapCause::UserEnvCall
    } else if code == 1 {
        TrapCause::InstructionFault
    } else if code == 2 {
        TrapCause::IllegalInstruction
    } else if code == 5 {
        TrapCause::LoadFault
    } else if code == 7 {
        TrapCause::StoreFault
    } else if code == 12 {
        TrapCause::InstructionPageFault
    } else if code == 13 {
        TrapCause::LoadPageFault
    } else if code == 15 {
        TrapCause::StorePageFault
    } else {
        TrapCause::Unsupported
    }
}

/// The cause that the cause register of the supervisor stands for.
#[verifier::when_used_as_spec(spec_decode_cause)]
pub fn decode_cause(interrupt: bool, code: usize) -> (cause: TrapCause)
    ensures
        cause == spec_decode_cause(interrupt, code),
{
    if interrupt {
        if code == 1 {
            TrapCause::SupervisorSoft
        } else if code == 5 {
            TrapCause::SupervisorTimer
        } else if code == 9 {
            TrapCause::SupervisorExternal
        } else {
            TrapCause::Unsupported
        }
    } else if code == 8 {
        TrapCause::UserEnvCall
    } else if code == 1 {
        TrapCause::InstructionFault
    } else if code == 2 {
        TrapCause::IllegalInstruction
    } else if code == 5 {
        TrapCause::LoadFault
    } else if code == 7 {
        TrapCause::StoreFault
    } else if code == 12 {
        TrapCause::InstructionPageFault
    } else if code == 13 {
        TrapCause::LoadPageFault
    } else if code == 15 {
        TrapCause::StorePageFault
    } else {
        TrapCause::Unsupported
    }
}

/// What the hart is to do after the kernel has handled a trap.
#[derive(Clone, Copy, Debug, PartialEq, Eq, Structural)]
pub enum TrapOutcome {
    /// Return to the task that runs on the hart.
    Return,
    /// The hart runs no task any more: pick the next one.
    Schedule,
}

/// The outcome after a trap that the kernel has handled: back to the task
/// if the hart still runs one, otherwise on to the next task.
pub open spec fn outcome_of(kernel: &Kernel, hart: usize) -> TrapOutcome {
    if kernel.current(hart as int).is_some() {
        TrapOutcome::Return
    } else {
        TrapOutcome::Schedule
    }
}

/// Whether `after` is `before` but for the trap context of the task `t`,
/// which is `cx` in `after`.
pub open spec fn with_trap_cx(after: &Kernel, before: &Kernel, t: int, cx: TrapContext) -> bool {
    &&& same_but_inner(after, before, t)
    &&& after.tcb(t).inner == (TaskControlBlockInner { trap_cx: cx, ..before.tcb(t).inner })
}

/// Whether `after` is `before` once the result `ret` of the system call
/// `syscall_id` of the task `t` has been stored: the result stands in the
/// register `a0` of the task's trap context, unless the task has ended or
/// the call was an `exec` that succeeded, which leave everything as it is.
pub open spec fn result_stored(after: &Kernel, before: &Kernel, t: int, syscall_id: usize, ret: isize) -> bool {
    if before.live(t) && before.status(t) != TaskStatus::Zombie && (syscall_id != SYSCALL_EXEC || ret != 0) {
        with_trap_cx(
            after,
            before,
            t,
            TrapContext { x: after.tcb(t).inner.trap_cx.x, ..before.tcb(t).inner.trap_cx },
        ) && after.tcb(t).inner.trap_cx.x@ == before.tcb(t).inner.trap_cx.x@.update(10, ret as usize)
    } else {
        *after == *before
    }
}

/// The arguments of the system call of a task with the trap context `cx`:
/// its registers `a0` to `a2`.
pub open spec fn syscall_args(cx: TrapContext) -> [usize; 3] {
    [cx.x@[10], cx.x@[11], cx.x@[12]]
}

/// The effect of a system call trap of the task that runs on `hart`. The
/// number of the call stands in the register `a7` of the task, its
/// arguments in `a0` to `a2`. For a call that has to wait, the task is
/// suspended as it is, so that it makes the call again when it runs next.
/// Otherwise the task's program counter moves past the call, the call is
/// carried out, and its result is stored in `a0`.
pub open spec fn handle_syscall_post(
    before: &Kernel,
    after: &Kernel,
    hart: usize,
    user: UserArea,
    user_after: UserArea,
    now: usize,
    outcome: TrapOutcome,
) -> bool {
    let t = before.current(hart as int).unwrap() as int;
    let cx = before.tcb(t).inner.trap_cx;
    let syscall_id = cx.x@[17];
    if syscall_blocks(before, t, syscall_id, syscall_args(cx), user) {
        outcome == TrapOutcome::Schedule && suspend_current_and_run_next_post(before, after, hart)
            && user_after == user
    } else {
        &&& outcome == outcome_of(after, hart)
        &&& exists|advanced: Kernel, done: Kernel, ret: isize|
            {
                &&& with_trap_cx(&advanced, before, t, TrapContext { sepc: cx.sepc.wrapping_add(4), ..cx })
                &&& #[trigger] syscall_post(
                    &advanced,
                    &done,
                    hart,
                    syscall_id,
                    syscall_args(cx),
                    user,
                    user_after,
                    now,
                    ret,
                )
                &&& result_stored(after, &done, t, syscall_id, ret)
            }
    }
}

/// The number of the system call that the task on `hart` asks for: its
/// register `a7`.
pub open spec fn spec_syscall_number(kernel: &Kernel, hart: usize) -> usize {
    kernel.tcb(kernel.current(hart as int).unwrap() as int).inner.trap_cx.x@[17]
}

/// The number of the system call that the task on `hart` asks for.
#[verifier::when_used_as_spec(spec_syscall_number)]
pub fn syscall_number(kernel: &Kernel, hart: usize) -> (id: usize)
    requires
        kernel.wf(),
        hart < CPU_NUM,
        kernel.current(hart as int).is_some(),
    ensures
        id == spec_syscall_number(kernel, hart),
{
    crate::task::processor::current_trap_cx(kernel, hart).x[17]
}

/// Handles a system call of the task that runs on `hart`; see
/// `handle_syscall_post`. The kernel stops at a call that it does not
/// know, so the number of the call is one of those it knows.
pub fn handle_syscall(kernel: &mut Kernel, hart: usize, user: &mut UserArea, now: usize) -> (outcome:
    TrapOutcome)
    requires
        old(kernel).wf(),
        hart < CPU_NUM,
        old(kernel).current(hart as int).is_some(),
        spec_is_supported(spec_syscall_number(old(kernel), hart)),
    ensures
        final(kernel).wf(),
        handle_syscall_post(old(kernel), final(kernel), hart, *old(user), *final(user), now, outcome),
{
    let task = kernel.processors[hart].current.unwrap();
    let ghost t = task as int;
    assert(old(kernel).live(t));
    let (id, args) = match kernel.pids.slot(task) {
        Some(tcb) => {
            let cx = &tcb.inner.trap_cx;
            (cx.x[17], [cx.x[10], cx.x[11], cx.x[12]])
        },
        None => (0, [0, 0, 0]),
    };
    proof {
        let cx = old(kernel).tcb(t).inner.trap_cx;
        assert(args@ =~= syscall_args(cx)@);
        assert(args == syscall_args(cx));
    }
    if blocks(kernel, hart, id, args, user) {
        suspend_current_and_run_next(kernel, hart);
        return TrapOutcome::Schedule;
    }
    match kernel.pids.slot_mut(task) {
        Some(tcb) => {
            // the task goes on behind the call
            tcb.inner.trap_cx.sepc = tcb.inner.trap_cx.sepc.wrapping_add(4);
        },
        None => {},
    }
    let ghost advanced = *kernel;
    proof {
        let old_k = *old(kernel);
        assert(kernel.same_shape(&old_k));
        kernel.lemma_same_shape(&old_k);
    }
    let result = syscall(kernel, hart, id, args, user, now);
    let ghost done = *kernel;
    let alive = match kernel.pids.slot(task) {
        Some(tcb) => !tcb.inner.is_zombie(),
        None => false,
    };
    if alive && (id != SYSCALL_EXEC || result != 0) {
        match kernel.pids.slot_mut(task) {
            Some(tcb) => {
                tcb.inner.trap_cx.x[10] = #[verifier::truncate] (result as usize);
            },
            None => {},
        }
        proof {
            assert(kernel.same_shape(&done));
            kernel.lemma_same_shape(&done);
        }
    }
    proof {
        let old_k = *old(kernel);
        let cx = old_k.tcb(t).inner.trap_cx;
        assert(args@ =~= syscall_args(cx)@);
        assert(args == syscall_args(cx));
        assert(syscall_post(
            &advanced,
            &done,
            hart,
            id,
            syscall_args(cx),
            *old(user),
            *user,
            now,
            result,
        ));
    }
    if kernel.processors[hart].current.is_some() {
        TrapOutcome::Return
    } else {
        TrapOutcome::Schedule
    }
}

/// Whether `after` is `before` but for the virtual timers of `hart`.
pub open spec fn same_but_timers(after: &Kernel, before: &Kernel, hart: int) -> bool {
    &&& after.same_setup(before)
    &&& after.pids == before.pids
    &&& after.pool == before.pool
    &&& after.processors == before.processors
    &&& after.serials == before.serials
    &&& after.ext_int_map == before.ext_int_map
    &&& after.plic == before.plic
    &&& after.timers@.len() == before.timers@.len()
    &&& forall|h: int| 0 <= h < before.timers@.len() && h != hart ==> after.timers@[h] == before.timers@[h]
}

/// Whether `after` is `before` but for the user timer interrupt, which is
/// pending on `hart` in `after`.
pub open spec fn user_timer_pending(after: &Kernel, before: &Kernel, hart: int) -> bool {
    &&& after.same_setup(before)
    &&& after.pids == before.pids
    &&& after.pool == before.pool
    &&& after.timers == before.timers
    &&& after.serials == before.serials
    &&& after.ext_int_map == before.ext_int_map
    &&& after.plic == before.plic
    &&& after.same_harts_but(before, hart)
    &&& after.processors@[hart] == (Processor {
        registers: TaskContext {
            uip: before.processors@[hart].registers.uip | UIP_UTIMER,
            ..before.processors@[hart].registers
        },
        ..before.processors@[hart]
    })
}

/// The effect of a timer interrupt on `hart` when the timer reads `now`.
/// Without any virtual timer, nothing changes. Otherwise the earliest
/// deadline is taken out of the timers of the hart, and the hart's timer
/// is set to the earliest that remains. If the deadline was the kernel's
/// own tick, the next tick is set and the running task is suspended. If
/// it was the running task's, the user timer interrupt becomes pending for
/// it. If it was another task's, that task is sent a trap record with the
/// cause 4 and the time in microseconds as message; a record that cannot
/// be delivered is dropped.
pub open spec fn handle_timer_post(before: &Kernel, after: &Kernel, hart: usize, now: usize) -> bool {
    let timers = before.timers@[hart as int];
    if forall|key: usize| !timers.map@.contains_key(key) {
        same_but_timers(after, before, hart as int) && after.timers@[hart as int].is_popped(&timers, None)
    } else {
        exists|time: usize, popped: Kernel|
            {
                let pid = timers.map@[time];
                &&& same_but_timers(&popped, before, hart as int)
                &&& #[trigger] popped.timers@[hart as int].is_popped(&timers, Some((time, timers.map@[time])))
                &&& if pid == KERNEL_TICK {
                    exists|ticking: Kernel|
                        {
                            &&& same_but_timers(&ticking, &popped, hart as int)
                            &&& ticking.timers@[hart as int].is_set(
                                &popped.timers@[hart as int],
                                next_tick(now, before.board),
                                KERNEL_TICK,
                                now,
                            )
                            &&& #[trigger] suspend_current_and_run_next_post(&ticking, after, hart)
                        }
                } else if Some(pid) == before.current(hart as int) {
                    user_timer_pending(after, &popped, hart as int)
                } else {
                    exists|res: Result<(), usertrap::UserTrapError>| #[trigger]
                        push_trap_record_post(
                            &popped,
                            after,
                            pid,
                            UserTrapRecord {
                                cause: CAUSE_USER_TIMER,
                                message: (now * USEC_PER_SEC / (before.board.spec_clock_freq() as int)) as usize,
                            },
                            res,
                        )
                }
            }
    }
}

/// Handles a timer interrupt on `hart`; see `handle_timer_post`.
pub fn handle_timer(kernel: &mut Kernel, hart: usize, now: usize)
    requires
        old(kernel).wf(),
        hart < CPU_NUM,
        old(kernel).current(hart as int).is_some(),
    ensures
        final(kernel).wf(),
        handle_timer_post(old(kernel), final(kernel), hart, now),
{
    let current = kernel.processors[hart].current;
    let board = kernel.board;
    let first = kernel.timers[hart].pop_first();
    let ghost popped = *kernel;
    proof {
        let old_k = *old(kernel);
        assert(kernel.same_shape(&old_k)) by {
            assert forall|h: int| 0 <= h < CPU_NUM implies (#[trigger] kernel.timers@[h]).wf() by {
                if h != hart {
                    assert(kernel.timers@[h] == old_k.timers@[h]);
                }
            }
        }
        kernel.lemma_same_shape(&old_k);
    }
    match first {
        Some((time, pid)) => {
            if pid == KERNEL_TICK {
                kernel.timers[hart].set_next_trigger(now, board);
                let ghost ticking = *kernel;
                proof {
                    assert(kernel.same_shape(&popped)) by {
                        assert forall|h: int| 0 <= h < CPU_NUM implies (#[trigger] kernel.timers@[h]).wf() by {
                            if h != hart {
                                assert(kernel.timers@[h] == popped.timers@[h]);
                            }
                        }
                    }
                    kernel.lemma_same_shape(&popped);
                }
                suspend_current_and_run_next(kernel, hart);
                proof {
                    assert(suspend_current_and_run_next_post(&ticking, kernel, hart));
                }
            } else if Some(pid) == current {
                let p = &mut kernel.processors[hart];
                p.registers.uip = p.registers.uip | UIP_UTIMER;
                proof {
                    assert(kernel.same_shape(&popped));
                    kernel.lemma_same_shape(&popped);
                }
            } else {
                let res = push_trap_record(
                    kernel,
                    pid,
                    UserTrapRecord { cause: CAUSE_USER_TIMER, message: get_time_us(now, board) },
                );
                proof {
                    assert(push_trap_record_post(
                        &popped,
                        kernel,
                        pid,
                        UserTrapRecord {
                            cause: CAUSE_USER_TIMER,
                            message: (now * USEC_PER_SEC / (board.spec_clock_freq() as int)) as usize,
                        },
                        res,
                    ));
                }
            }
            proof {
                assert(popped.timers@[hart as int].is_popped(&old(kernel).timers@[hart as int], Some((time, pid))));
                assert(old(kernel).timers@[hart as int].map@.contains_key(time));
            }
        },
        None => {},
    }
}

/// The effect of the external interrupts `claimed`, claimed on `hart` in
/// this order: that of deciding about each in turn, with the decisions
/// `actions`; see `handle_external_interrupt_post`.
pub open spec fn handle_externals_post(
    before: &Kernel,
    after: &Kernel,
    hart: usize,
    claimed: Seq<u16>,
    actions: Seq<ExtIntAction>,
) -> bool
    decreases claimed.len(),
{
    if claimed.len() == 0 {
        *after == *before && actions.len() == 0
    } else {
        &&& actions.len() == claimed.len()
        &&& exists|mid: Kernel|
            {
                &&& handle_externals_post(before, &mid, hart, claimed.drop_last(), actions.drop_last())
                &&& #[trigger] handle_external_interrupt_post(&mid, after, hart, claimed.last(), actions.last())
            }
    }
}

/// Decides about each of the external interrupts that `hart` has claimed,
/// in the order of `claimed`, and returns the decisions in that order.
pub fn handle_externals(kernel: &mut Kernel, hart: usize, claimed: &Vec<u16>) -> (actions: Vec<ExtIntAction>)
    requires
        old(kernel).wf(),
        hart < CPU_NUM,
    ensures
        final(kernel).wf(),
        handle_externals_post(old(kernel), final(kernel), hart, claimed@, actions@),
{
    let mut actions: Vec<ExtIntAction> = Vec::new();
    let mut i: usize = 0;
    assert(claimed@.take(0).len() == 0);
    while i < claimed.len()
        invariant
            i <= claimed@.len(),
            hart < CPU_NUM,
            kernel.wf(),
            actions@.len() == i,
            handle_externals_post(old(kernel), kernel, hart, claimed@.take(i as int), actions@),
        decreases claimed@.len() - i,
    {
        let ghost mid = *kernel;
        let ghost so_far = actions@;
        let action = handle_external_interrupt(kernel, hart, claimed[i]);
        actions.push(action);
        proof {
            let next = claimed@.take(i + 1);
            assert(next.drop_last() == claimed@.take(i as int));
            assert(next.last() == claimed@[i as int]);
            assert(actions@.drop_last() == so_far);
            assert(handle_external_interrupt_post(&mid, kernel, hart, next.last(), actions@.last()));
        }
        i += 1;
    }
    assert(claimed@.take(i as int) == claimed@);
    actions
}

/// What the kernel reports after a trap: what the hart is to do next, and
/// for each external interrupt that was claimed, in order, what the kernel
/// has decided about it.
pub struct TrapReport {
    pub outcome: TrapOutcome,
    pub actions: Vec<ExtIntAction>,
}

/// The effect of a trap from user mode on `hart`, by its cause.
///
/// - A system call: see `handle_syscall_post`.
/// - A fault of memory access ends the running task with the exit code -2,
///   an illegal instruction with -3; see `exit_current_and_run_next_post`.
/// - A timer interrupt: see `handle_timer_post`.
/// - An external interrupt: see `handle_externals_post`.
/// - A software interrupt of the supervisor only wakes the hart; nothing
///   changes.
///
/// No other cause has an effect: the kernel stops there.
pub open spec fn trap_handler_post(
    before: &Kernel,
    after: &Kernel,
    hart: usize,
    cause: TrapCause,
    claimed: Seq<u16>,
    user: UserArea,
    user_after: UserArea,
    now: usize,
    outcome: TrapOutcome,
    actions: Seq<ExtIntAction>,
) -> bool {
    match cause {
        TrapCause::UserEnvCall => handle_syscall_post(before, after, hart, user, user_after, now, outcome)
            && actions.len() == 0,
        TrapCause::StoreFault
        | TrapCause::StorePageFault
        | TrapCause::InstructionFault
        | TrapCause::InstructionPageFault
        | TrapCause::LoadFault
        | TrapCause::LoadPageFault => exit_current_and_run_next_post(before, after, hart, EXIT_FAULT)
            && user_after == user && outcome == TrapOutcome::Schedule && actions.len() == 0,
        TrapCause::IllegalInstruction => exit_current_and_run_next_post(before, after, hart, EXIT_ILLEGAL)
            && user_after == user && outcome == TrapOutcome::Schedule && actions.len() == 0,
        TrapCause::SupervisorTimer => handle_timer_post(before, after, hart, now) && user_after == user
            && outcome == outcome_of(after, hart) && actions.len() == 0,
        TrapCause::SupervisorExternal => handle_externals_post(before, after, hart, claimed, actions)
            && user_after == user && outcome == outcome_of(after, hart),
        TrapCause::SupervisorSoft => *after == *before && user_after == user && outcome
            == TrapOutcome::Return && actions.len() == 0,
        TrapCause::Unsupported => false,
    }
}

/// Whether the kernel handles a trap with the cause `cause` from the task
/// that runs on `hart`: the cause is one it knows, and a system call is one
/// of those it knows.
pub open spec fn spec_can_handle(kernel: &Kernel, hart: usize, cause: TrapCause) -> bool {
    &&& cause != TrapCause::Unsupported
    &&& cause == TrapCause::UserEnvCall ==> spec_is_supported(spec_syscall_number(kernel, hart))
}

/// Whether the kernel handles a trap with the cause `cause` from the task
/// that runs on `hart`. Where it does not, the kernel is to stop.
#[verifier::when_used_as_spec(spec_can_handle)]
pub fn can_handle(kernel: &Kernel, hart: usize, cause: TrapCause) -> (known: bool)
    requires
        kernel.wf(),
        hart < CPU_NUM,
        kernel.current(hart as int).is_some(),
    ensures
        known == spec_can_handle(kernel, hart, cause),
{
    match cause {
        TrapCause::Unsupported => false,
        TrapCause::UserEnvCall => is_supported(syscall_number(kernel, hart)),
        _ => true,
    }
}

/// Handles a trap from user mode on `hart`, where a task runs, and reports
/// what the hart is to do next. The trap is one that the kernel handles;
/// see `can_handle`. `claimed` holds the external interrupts
/// that the hart has claimed, if the trap is an external interrupt; `user`
/// holds the part of the task's memory that a system call works on; `now`
/// is the reading of the timer. See `trap_handler_post`.
pub fn trap_handler(
    kernel: &mut Kernel,
    hart: usize,
    cause: TrapCause,
    claimed: &Vec<u16>,
    user: &mut UserArea,
    now: usize,
) -> (report: TrapReport)
    requires
        old(kernel).wf(),
        hart < CPU_NUM,
        old(kernel).current(hart as int).is_some(),
        spec_can_handle(old(kernel), hart, cause),
    ensures
        final(kernel).wf(),
        trap_handler_post(
            old(kernel),
            final(kernel),
            hart,
            cause,
            claimed@,
            *old(user),
            *final(user),
            now,
            report.outcome,
            report.actions@,
        ),
{
    match cause {
        TrapCause::UserEnvCall => {
            let outcome = handle_syscall(kernel, hart, user, now);
            TrapReport { outcome, actions: Vec::new() }
        },
        TrapCause::StoreFault
        | TrapCause::StorePageFault
        | TrapCause::InstructionFault
        | TrapCause::InstructionPageFault
        | TrapCause::LoadFault
        | TrapCause::LoadPageFault => {
            exit_current_and_run_next(kernel, hart, EXIT_FAULT);
            TrapReport { outcome: TrapOutcome::Schedule, actions: Vec::new() }
        },
        TrapCause::IllegalInstruction => {
            exit_current_and_run_next(kernel, hart, EXIT_ILLEGAL);
            TrapReport { outcome: TrapOutcome::Schedule, actions: Vec::new() }
        },
        TrapCause::SupervisorTimer => {
            handle_timer(kernel, hart, now);
            let outcome = if kernel.processors[hart].current.is_some() {
                TrapOutcome::Return
            } else {
                TrapOutcome::Schedule
            };
            TrapReport { outcome, actions: Vec::new() }
        },
        TrapCause::SupervisorExternal => {
            let actions = handle_externals(kernel, hart, claimed);
            let outcome = if kernel.processors[hart].current.is_some() {
                TrapOutcome::Return
            } else {
                TrapOutcome::Schedule
            };
            TrapReport { outcome, actions }
        },
        TrapCause::SupervisorSoft => TrapReport { outcome: TrapOutcome::Return, actions: Vec::new() },
        TrapCause::Unsupported => unreached(),
    }
}

/// The effect of the return to user mode on `hart`: if trap records wait
/// for the running task, the scratch register of the hart holds their
/// number and the user software interrupt is pending; otherwise nothing
/// changes.
pub open spec fn trap_return_post(before: &Kernel, after: &Kernel, hart: usize) -> bool {
    let t = before.current(hart as int).unwrap() as int;
    let pending = before.tcb(t).inner.pending_user_traps();
    if pending > 0 {
        &&& after.same_setup(before)
        &&& after.pids == before.pids
        &&& after.pool == before.pool
        &&& after.timers == before.timers
        &&& after.serials == before.serials
        &&& after.ext_int_map == before.ext_int_map
        &&& after.plic == before.plic
        &&& after.same_harts_but(before, hart as int)
        &&& after.processors@[hart as int] == (Processor {
            uscratch: pending as usize,
            registers: TaskContext {
                uip: before.processors@[hart as int].registers.uip | crate::task::context::UIP_USOFT,
                ..before.processors@[hart as int].registers
            },
            ..before.processors@[hart as int]
        })
    } else {
        *after == *before
    }
}

/// Prepares the return of `hart` to the task it runs; see
/// `trap_return_post`.
pub fn trap_return(kernel: &mut Kernel, hart: usize)
    requires
        old(kernel).wf(),
        hart < CPU_NUM,
        old(kernel).current(hart as int).is_some(),
    ensures
        final(kernel).wf(),
        trap_return_post(old(kernel), final(kernel), hart),
{
    let task = kernel.processors[hart].current.unwrap();
    assert(old(kernel).live(task as int));
    match kernel.pids.slot(task) {
        Some(tcb) => {
            if tcb.inner.user_trap_record_num() > 0 {
                tcb.inner.restore_user_trap_info(&mut kernel.processors[hart]);
                proof {
                    let old_k = *old(kernel);
                    assert(kernel.same_shape(&old_k));
                    kernel.lemma_same_shape(&old_k);
                }
            }
        },
        None => {},
    }
}

/// What the kernel does about a trap that hits it while it runs its own
/// code: a software interrupt of the supervisor is only noted, and the
/// kernel goes on. The kernel stops at any other trap, so none is handed
/// in here.
pub fn trap_from_kernel(cause: TrapCause) -> (outcome: TrapOutcome)
    requires
        cause == TrapCause::SupervisorSoft,
    ensures
        outcome == TrapOutcome::Return,
{
    TrapOutcome::Return
}

} // verus!
