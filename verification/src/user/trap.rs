use vstd::prelude::*;
use crate::task::context::{UIP_USOFT, UIP_UTIMER};
use crate::trap::usertrap::{UserTrapInfo, UserTrapRecord, CAUSE_USER_EXTERNAL, CAUSE_USER_TIMER};

verus! {

/// Size of one page of memory, in bytes.
pub const PAGE_SIZE: usize = 0x1000;

/// The last page of the virtual address space.
pub const TRAMPOLINE: usize = usize::MAX - PAGE_SIZE + 1;

/// The page of the task's trap context.
pub const TRAP_CONTEXT: usize = TRAMPOLINE - PAGE_SIZE;

/// The page of the task's trap queue.
pub const USER_TRAP_BUFFER: usize = TRAP_CONTEXT - PAGE_SIZE;

/// The number of the interrupt controller's context for a hart and a
/// privilege mode (`'M'`, `'S'` or `'U'`): three contexts per hart, in that
/// order.
pub fn get_context(hart_id: usize, mode: char) -> (context: usize)
    requires
        crate::plic::mode_offset(mode).is_some(),
        hart_id * 3 + 2 <= usize::MAX,
    ensures
        context == crate::plic::spec_get_context(hart_id, mode),
{
    crate::plic::get_context(hart_id, mode)
}

/// What a task's trap handler finds saved of the task: its registers and
/// its user-interrupt state.
#[derive(Clone, Copy, Debug)]
pub struct UserTrapContext {
    pub x: [usize; 32],
    pub ustatus: usize,
    pub uepc: usize,
    pub utvec: usize,
    pub uie: usize,
}

/// Why a task has trapped into its own handler.
#[derive(Clone, Copy, Debug, PartialEq, Eq, Structural)]
pub enum UserCause {
    /// Trap records wait in the task's queue.
    UserSoft,
    /// A device of the task has interrupted.
    UserExternal,
    /// The task's timer has expired.
    UserTimer,
    /// Any other cause.
    Unsupported,
}

/// What the handler of a task is to do for one event.
#[derive(Clone, Copy, Debug, PartialEq, Eq, Structural)]
pub enum UserEvent {
    /// A message `msg` that the task `pid` has sent.
    Soft { pid: usize, msg: usize },
    /// An interrupt of the device `irq`. It comes from the kernel where the
    /// kernel has taken it for the task, and not where the task has claimed
    /// it from the controller by itself.
    External { irq: u16, is_from_kernel: bool },
    /// A timer that expired at `time_us`.
    Timer { time_us: usize },
}

/// The event that a trap record stands for. A cause whose low four bits
/// are zero is a message from the task in the higher bits. The cause 8 is
/// an external interrupt, with its number in the low 16 bits of the
/// message. The cause 4 is a timer, with the time as message. Any other
/// record stands for no event.
pub open spec fn spec_event_of(record: UserTrapRecord) -> Option<UserEvent> {
    if record.cause & 0xF == 0 {
        Some(UserEvent::Soft { pid: record.cause >> 4, msg: record.message })
    } else if record.cause == CAUSE_USER_EXTERNAL {
        Some(UserEvent::External { irq: (record.message & 0xffff) as u16, is_from_kernel: true })
    } else if record.cause == CAUSE_USER_TIMER {
        Some(UserEvent::Timer { time_us: record.message })
    } else {
        None
    }
}

/// The event that a trap record stands for.
#[verifier::when_used_as_spec(spec_event_of)]
pub fn event_of(record: UserTrapRecord) -> (event: Option<UserEvent>)
    ensures
        event == spec_event_of(record),
{
    if record.cause & 0xF == 0 {
        Some(UserEvent::Soft { pid: record.cause >> 4, msg: record.message })
    } else if record.cause == CAUSE_USER_EXTERNAL {
        let message = record.message;
        assert(message & 0xffff <= 0xffff) by (bit_vector);
        Some(UserEvent::External { irq: (message & 0xffff) as u16, is_from_kernel: true })
    } else if record.cause == CAUSE_USER_TIMER {
        Some(UserEvent::Timer { time_us: record.message })
    } else {
        None
    }
}

/// The events that the trap records `records` stand for, in their order.
pub open spec fn events_of(records: Seq<UserTrapRecord>) -> Seq<UserEvent>
    decreases records.len(),
{
    if records.len() == 0 {
        Seq::empty()
    } else {
        let before = events_of(records.drop_last());
        match spec_event_of(records.last()) {
            Some(event) => before.push(event),
            None => before,
        }
    }
}

/// The events that the interrupts `claimed`, which the task has claimed
/// from the controller by itself, stand for, in their order.
pub open spec fn claimed_events(claimed: Seq<u16>) -> Seq<UserEvent> {
    Seq::new(claimed.len(), |i: int| UserEvent::External { irq: claimed[i], is_from_kernel: false })
}

/// What a task's trap handler finds at one entry: the number of trap
/// records it has taken out of the queue, the events to handle, and the
/// pending bits of the user interrupts as the handler leaves them.
pub struct UserTrapWork {
    pub records: usize,
    pub events: Vec<UserEvent>,
    pub uip: usize,
}

/// The pending bits `uip` after an entry of the handler for `cause`: a
/// software interrupt and a timer interrupt are no longer pending once they
/// have been handled; every other bit stays.
pub open spec fn pending_after(cause: UserCause, uip: usize) -> usize {
    match cause {
        UserCause::UserSoft => uip & !UIP_USOFT,
        UserCause::UserTimer => uip & !UIP_UTIMER,
        _ => uip,
    }
}

/// The number of records that a handler takes at an entry for which
/// `announced` records were announced, out of a queue that holds
/// `records`: the announced number, or all of them where fewer wait.
pub open spec fn taken(announced: usize, records: Seq<UserTrapRecord>) -> int {
    if announced <= records.len() {
        announced as int
    } else {
        records.len() as int
    }
}

/// The entry of a task's trap handler. For a software interrupt the handler
/// takes as many records out of the task's queue as the scratch register
/// has announced, oldest first, and turns each into its event; records
/// that have arrived since stay for the next entry. For an external
/// interrupt, the events are those of the interrupts `claimed`. For a timer
/// interrupt, the event is a timer without a time. Any other cause brings
/// no event. Of the pending bits `uip`, the handler clears the one of a
/// software or a timer interrupt that it has handled.
pub fn user_trap_handler(
    cause: UserCause,
    announced: usize,
    uip: usize,
    trap_queue: &mut UserTrapInfo,
    claimed: &Vec<u16>,
) -> (work: UserTrapWork)
    ensures
        final(trap_queue).devices == old(trap_queue).devices,
        work.uip == pending_after(cause, uip),
        cause == UserCause::UserSoft ==> {
            &&& work.records == taken(announced, old(trap_queue).records())
            &&& work.events@ == events_of(
                old(trap_queue).records().take(taken(announced, old(trap_queue).records())),
            )
            &&& final(trap_queue).records() == old(trap_queue).records().skip(
                taken(announced, old(trap_queue).records()),
            )
        },
        cause != UserCause::UserSoft ==> final(trap_queue).records() == old(trap_queue).records()
            && work.records == 0,
        cause == UserCause::UserExternal ==> work.events@ == claimed_events(claimed@),
        cause == UserCause::UserTimer ==> work.events@ == seq![UserEvent::Timer { time_us: 0 }],
        cause == UserCause::Unsupported ==> work.events@ == Seq::<UserEvent>::empty(),
{
    let mut events: Vec<UserEvent> = Vec::new();
    let mut records: usize = 0;
    match cause {
        UserCause::UserSoft => {
            let waiting = trap_queue.user_trap_record_num();
            let total = if announced <= waiting { announced } else { waiting };
            let ghost all = trap_queue.records();
            assert(all.take(0) =~= Seq::<UserTrapRecord>::empty());
            assert(all.skip(0) =~= all);
            while records < total
                invariant
                    records <= total,
                    total == taken(announced, all),
                    trap_queue.devices == old(trap_queue).devices,
                    trap_queue.records() == all.skip(records as int),
                    events@ == events_of(all.take(records as int)),
                decreases total - records,
            {
                let record = trap_queue.pop_trap_record();
                proof {
                    let next = all.take(records + 1);
                    assert(next.drop_last() == all.take(records as int));
                    assert(next.last() == all[records as int]);
                    assert(all.skip(records as int)[0] == all[records as int]);
                    assert(all.skip(records as int).drop_first() == all.skip(records + 1));
                }
                match record {
                    Some(trap_record) => {
                        match event_of(trap_record) {
                            Some(event) => {
                                events.push(event);
                            },
                            None => {},
                        }
                    },
                    None => {},
                }
                records += 1;
            }
        },
        UserCause::UserExternal => {
            let mut i: usize = 0;
            while i < claimed.len()
                invariant
                    i <= claimed@.len(),
                    events@ == claimed_events(claimed@.take(i as int)),
                decreases claimed@.len() - i,
            {
                events.push(UserEvent::External { irq: claimed[i], is_from_kernel: false });
                assert(events@ =~= claimed_events(claimed@.take(i + 1)));
                i += 1;
            }
            assert(claimed@.take(i as int) == claimed@);
        },
        UserCause::UserTimer => {
            events.push(UserEvent::Timer { time_us: 0 });
        },
        UserCause::Unsupported => {},
    }
    let uip = match cause {
        UserCause::UserSoft => uip & !UIP_USOFT,
        UserCause::UserTimer => uip & !UIP_UTIMER,
        _ => uip,
    };
    UserTrapWork { records, events, uip }
}

} // verus!
