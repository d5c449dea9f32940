use vstd::prelude::*;
use crate::config::{CPU_NUM, PAGE_SIZE};
use crate::config::Board;
use crate::kernel::Kernel;
use crate::mm::{after_mmio_map, mmio_map_ok, MapArea, MemorySet};
use crate::task::task::TaskControlBlockInner;
use crate::trap::handoff::lemma_switch_bit;
use crate::trap::usertrap::{push_result, push_trap_record, UserTrapRecord, CAUSE_USER_EXTERNAL};

verus! {

/// Base address of the interrupt controller's registers.
pub const PLIC_BASE: usize = 0xc00_0000;

/// Width, in bits, of an interrupt priority.
pub const PLIC_PRIORITY_BIT: usize = 3;

/// Number of privilege modes that have a context on each hart.
pub const MODE_PER_HART: usize = 3;

/// Number of contexts of the controller: one per hart and mode.
pub const CONTEXT_NUM: usize = 12;

/// Number of interrupt sources the controller distinguishes.
pub const IRQ_NUM: usize = 1024;

/// The offset of a privilege mode among the contexts of one hart, or `None`
/// for a character that names no mode.
pub open spec fn mode_offset(mode: char) -> Option<int> {
    if mode == 'M' {
        Some(0)
    } else if mode == 'S' {
        Some(1)
    } else if mode == 'U' {
        Some(2)
    } else {
        None
    }
}

/// The number of the context of `hart_id` in `mode`.
pub open spec fn spec_get_context(hart_id: usize, mode: char) -> int {
    hart_id * MODE_PER_HART + mode_offset(mode).unwrap()
}

/// The number of the controller's context for a hart and a privilege mode
/// (`'M'`, `'S'` or `'U'`): three contexts per hart, in that order.
pub fn get_context(hart_id: usize, mode: char) -> (context: usize)
    requires
        mode_offset(mode).is_some(),
        hart_id * MODE_PER_HART + 2 <= usize::MAX,
    ensures
        context == spec_get_context(hart_id, mode),
{
    let offset: usize = if mode == 'M' {
        0
    } else if mode == 'S' {
        1
    } else {
        2
    };
    hart_id * MODE_PER_HART + offset
}

/// The supervisor context of a hart.
pub open spec fn s_context(hart: int) -> int {
    hart * 3 + 1
}

/// The user context of a hart.
pub open spec fn u_context(hart: int) -> int {
    hart * 3 + 2
}

/// One write to the interrupt controller.
#[derive(Clone, Copy, Debug, PartialEq, Eq, Structural)]
pub enum PlicOp {
    /// Let `irq` interrupt `context`.
    Enable { context: usize, irq: u16 },
    /// Stop `irq` from interrupting `context`.
    Disable { context: usize, irq: u16 },
    /// Tell the controller that `context` has finished handling `irq`.
    Complete { context: usize, irq: u16 },
    /// Mask, for `context`, every interrupt whose priority is not above `threshold`.
    SetThreshold { context: usize, threshold: u32 },
    /// Give `irq` the priority `priority`.
    SetPriority { irq: u16, priority: u32 },
}

/// The state of the interrupt controller as the kernel knows it: which
/// interrupt is enabled for which context, and the writes that are still to
/// be carried out on the device, oldest first.
pub struct PlicState {
    pub enabled: Seq<Seq<bool>>,
    pub threshold: Seq<u32>,
    pub priority: Seq<u32>,
    pub ops: Seq<PlicOp>,
}

impl PlicState {
    /// Every table has its fixed size.
    pub open spec fn wf(self) -> bool {
        &&& self.enabled.len() == CONTEXT_NUM
        &&& forall|c: int| 0 <= c < CONTEXT_NUM ==> (#[trigger] self.enabled[c]).len() == IRQ_NUM
        &&& self.threshold.len() == CONTEXT_NUM
        &&& self.priority.len() == IRQ_NUM
    }

    /// Whether `irq` is enabled for `context`. Outside the tables nothing is enabled.
    pub open spec fn is_enabled(self, context: int, irq: int) -> bool {
        0 <= context < self.enabled.len() && 0 <= irq < self.enabled[context].len()
            && self.enabled[context][irq]
    }

    /// The state after the enable bit of (`context`, `irq`) is set to `on`.
    pub open spec fn with_bit(self, context: int, irq: int, on: bool) -> PlicState {
        PlicState { enabled: self.enabled.update(context, self.enabled[context].update(irq, on)), ..self }
    }

    /// The state after one more write is queued for the device.
    pub open spec fn with_op(self, op: PlicOp) -> PlicState {
        PlicState { ops: self.ops.push(op), ..self }
    }

    /// The state after `irq` is enabled for `context`.
    pub open spec fn enable(self, context: usize, irq: u16) -> PlicState {
        self.with_bit(context as int, irq as int, true).with_op(PlicOp::Enable { context, irq })
    }

    /// The state after `irq` is disabled for `context`.
    pub open spec fn disable(self, context: usize, irq: u16) -> PlicState {
        self.with_bit(context as int, irq as int, false).with_op(PlicOp::Disable { context, irq })
    }

    /// The state after `context` completes `irq`.
    pub open spec fn complete(self, context: usize, irq: u16) -> PlicState {
        self.with_op(PlicOp::Complete { context, irq })
    }

    /// The state after the threshold of `context` is set.
    pub open spec fn set_threshold(self, context: usize, threshold: u32) -> PlicState {
        PlicState { threshold: self.threshold.update(context as int, threshold), ..self }.with_op(
            PlicOp::SetThreshold { context, threshold },
        )
    }

    /// The state after the priority of `irq` is set.
    pub open spec fn set_priority(self, irq: u16, priority: u32) -> PlicState {
        PlicState { priority: self.priority.update(irq as int, priority), ..self }.with_op(
            PlicOp::SetPriority { irq, priority },
        )
    }

    /// The state after `irq` is disabled for the supervisor context of each of
    /// the first `harts` harts, in ascending order.
    pub open spec fn disable_s_upto(self, irq: u16, harts: nat) -> PlicState
        decreases harts,
    {
        if harts == 0 {
            self
        } else {
            self.disable_s_upto(irq, (harts - 1) as nat).disable((3 * (harts - 1) + 1) as usize, irq)
        }
    }

    /// The state after `irq` is enabled for the supervisor context of each of
    /// the first `harts` harts, in ascending order.
    pub open spec fn enable_s_upto(self, irq: u16, harts: nat) -> PlicState
        decreases harts,
    {
        if harts == 0 {
            self
        } else {
            self.enable_s_upto(irq, (harts - 1) as nat).enable((3 * (harts - 1) + 1) as usize, irq)
        }
    }

    /// No supervisor context has `irq` enabled.
    pub open spec fn no_supervisor_enable(self, irq: int) -> bool {
        forall|h: int| 0 <= h < CPU_NUM ==> !#[trigger] self.is_enabled(s_context(h), irq)
    }
}

/// The kernel's image of the interrupt controller. The kernel decides on this
/// image; whoever drives the device takes the queued writes with
/// [`Plic::take_ops`] and carries them out in order.
pub struct Plic {
    enabled: Vec<Vec<bool>>,
    threshold: Vec<u32>,
    priority: Vec<u32>,
    ops: Vec<PlicOp>,
}

impl View for Plic {
    type V = PlicState;

    closed spec fn view(&self) -> PlicState {
        PlicState {
            enabled: Seq::new(self.enabled@.len(), |c: int| self.enabled@[c]@),
            threshold: self.threshold@,
            priority: self.priority@,
            ops: self.ops@,
        }
    }
}

impl Plic {
    /// The image is well formed when its tables have their fixed sizes.
    pub open spec fn wf(&self) -> bool {
        self@.wf()
    }

    /// A controller with nothing enabled, every threshold and priority zero,
    /// and no write queued.
    pub fn new() -> (plic: Plic)
        ensures
            plic.wf(),
            plic@.ops == Seq::<PlicOp>::empty(),
            forall|c: int, i: int| !plic@.is_enabled(c, i),
            forall|c: int| 0 <= c < CONTEXT_NUM ==> plic@.threshold[c] == 0,
            forall|i: int| 0 <= i < IRQ_NUM ==> plic@.priority[i] == 0,
    {
        let mut enabled: Vec<Vec<bool>> = Vec::new();
        let mut c: usize = 0;
        while c < CONTEXT_NUM
            invariant
                c <= CONTEXT_NUM,
                enabled@.len() == c,
                forall|k: int| 0 <= k < c ==> (#[trigger] enabled@[k])@.len() == IRQ_NUM,
                forall|k: int, i: int| 0 <= k < c && 0 <= i < IRQ_NUM ==> !(#[trigger] enabled@[k]@[i]),
            decreases CONTEXT_NUM - c,
        {
            enabled.push(vec![false; IRQ_NUM]);
            c += 1;
        }
        Plic {
            enabled,
            threshold: vec![0u32; CONTEXT_NUM],
            priority: vec![0u32; IRQ_NUM],
            ops: Vec::new(),
        }
    }

    /// Whether `irq` is enabled for `context`.
    pub fn is_enabled(&self, context: usize, irq: u16) -> (on: bool)
        requires
            self.wf(),
        ensures
            on == self@.is_enabled(context as int, irq as int),
    {
        if context < CONTEXT_NUM && (irq as usize) < IRQ_NUM {
            assert(self@.enabled[context as int] == self.enabled@[context as int]@);
            self.enabled[context][irq as usize]
        } else {
            false
        }
    }

    /// Enables `irq` for `context`.
    pub fn enable(&mut self, context: usize, irq: u16)
        requires
            old(self).wf(),
            context < CONTEXT_NUM,
            irq < IRQ_NUM,
        ensures
            final(self).wf(),
            final(self)@ == old(self)@.enable(context, irq),
    {
        assert(self@.enabled[context as int] == self.enabled@[context as int]@);
        self.enabled[context][irq as usize] = true;
        self.ops.push(PlicOp::Enable { context, irq });
        assert(self@.enabled =~= old(self)@.enable(context, irq).enabled);
    }

    /// Disables `irq` for `context`.
    pub fn disable(&mut self, context: usize, irq: u16)
        requires
            old(self).wf(),
            context < CONTEXT_NUM,
            irq < IRQ_NUM,
        ensures
            final(self).wf(),
            final(self)@ == old(self)@.disable(context, irq),
    {
        assert(self@.enabled[context as int] == self.enabled@[context as int]@);
        self.enabled[context][irq as usize] = false;
        self.ops.push(PlicOp::Disable { context, irq });
        assert(self@.enabled =~= old(self)@.disable(context, irq).enabled);
    }

    /// Signals that `context` has finished handling `irq`.
    pub fn complete(&mut self, context: usize, irq: u16)
        requires
            old(self).wf(),
        ensures
            final(self).wf(),
            final(self)@ == old(self)@.complete(context, irq),
    {
        self.ops.push(PlicOp::Complete { context, irq });
        assert(self@.enabled =~= old(self)@.enabled);
    }

    /// Sets the priority threshold of `context`.
    pub fn set_threshold(&mut self, context: usize, threshold: u32)
        requires
            old(self).wf(),
            context < CONTEXT_NUM,
        ensures
            final(self).wf(),
            final(self)@ == old(self)@.set_threshold(context, threshold),
    {
        self.threshold[context] = threshold;
        self.ops.push(PlicOp::SetThreshold { context, threshold });
        assert(self@.enabled =~= old(self)@.enabled);
    }

    /// Sets the priority of `irq`.
    pub fn set_priority(&mut self, irq: u16, priority: u32)
        requires
            old(self).wf(),
            irq < IRQ_NUM,
        ensures
            final(self).wf(),
            final(self)@ == old(self)@.set_priority(irq, priority),
    {
        self.priority[irq as usize] = priority;
        self.ops.push(PlicOp::SetPriority { irq, priority });
        assert(self@.enabled =~= old(self)@.enabled);
    }

    /// Disables `irq` for the supervisor context of every hart, in ascending order.
    pub fn disable_supervisors(&mut self, irq: u16)
        requires
            old(self).wf(),
            irq < IRQ_NUM,
        ensures
            final(self).wf(),
            final(self)@ == old(self)@.disable_s_upto(irq, CPU_NUM as nat),
    {
        let mut h: usize = 0;
        while h < CPU_NUM
            invariant
                h <= CPU_NUM,
                self.wf(),
                irq < IRQ_NUM,
                self@ == old(self)@.disable_s_upto(irq, h as nat),
            decreases CPU_NUM - h,
        {
            self.disable(3 * h + 1, irq);
            h += 1;
        }
    }

    /// Enables `irq` for the supervisor context of every hart, in ascending order.
    pub fn enable_supervisors(&mut self, irq: u16)
        requires
            old(self).wf(),
            irq < IRQ_NUM,
        ensures
            final(self).wf(),
            final(self)@ == old(self)@.enable_s_upto(irq, CPU_NUM as nat),
    {
        let mut h: usize = 0;
        while h < CPU_NUM
            invariant
                h <= CPU_NUM,
                self.wf(),
                irq < IRQ_NUM,
                self@ == old(self)@.enable_s_upto(irq, h as nat),
            decreases CPU_NUM - h,
        {
            self.enable(3 * h + 1, irq);
            h += 1;
        }
    }

    /// Hands out the writes queued so far, oldest first, and empties the queue.
    pub fn take_ops(&mut self) -> (ops: Vec<PlicOp>)
        requires
            old(self).wf(),
        ensures
            final(self).wf(),
            ops@ == old(self)@.ops,
            final(self)@ == (PlicState { ops: Seq::<PlicOp>::empty(), ..old(self)@ }),
    {
        let mut out: Vec<PlicOp> = Vec::new();
        std::mem::swap(&mut out, &mut self.ops);
        assert(self@.enabled =~= old(self)@.enabled);
        out
    }
}

/// Offset of the registers of the first context from the base of the controller.
pub const CONTEXT_BASE: usize = 0x20_0000;

/// Distance between the registers of two consecutive contexts.
pub const CONTEXT_STRIDE: usize = 0x1000;

/// The address of the page with the threshold, claim and complete
/// registers of `context`.
pub open spec fn spec_context_address(context: usize) -> usize {
    (PLIC_BASE + CONTEXT_BASE + CONTEXT_STRIDE * context) as usize
}

/// The address of the page with the threshold, claim and complete
/// registers of `context`.
#[verifier::when_used_as_spec(spec_context_address)]
pub fn context_address(context: usize) -> (addr: usize)
    requires
        context < CONTEXT_NUM,
    ensures
        addr == spec_context_address(context),
        addr == 0xc20_0000 + 0x1000 * context,
{
    PLIC_BASE + CONTEXT_BASE + CONTEXT_STRIDE * context
}

/// The areas of an address space, and whether all went well, after the
/// claim registers of the user contexts of the first `harts` harts have
/// been mapped into it, one page each, readable and writable, in ascending
/// order and up to the first page that cannot be mapped.
pub open spec fn with_claim_pages(areas: Seq<MapArea>, harts: nat) -> (Seq<MapArea>, bool)
    decreases harts,
{
    if harts == 0 {
        (areas, true)
    } else {
        let (before, ok) = with_claim_pages(areas, (harts - 1) as nat);
        let start = spec_context_address((3 * (harts - 1) + 2) as usize);
        let end = (start + PAGE_SIZE) as usize;
        if !ok {
            (before, false)
        } else {
            (after_mmio_map(before, start, end, 3), mmio_map_ok(before, start, end, 3))
        }
    }
}

/// Maps the claim registers of the user context of every hart into an
/// address space, so that its task can claim and complete interrupts by
/// itself. Stops at the first page that cannot be mapped and returns
/// `false`.
pub fn map_claim_pages(memory_set: &mut MemorySet) -> (ok: bool)
    ensures
        final(memory_set).areas@ == with_claim_pages(old(memory_set).areas@, CPU_NUM as nat).0,
        ok == with_claim_pages(old(memory_set).areas@, CPU_NUM as nat).1,
{
    let mut hart_id: usize = 0;
    while hart_id < CPU_NUM
        invariant
            hart_id <= CPU_NUM,
            with_claim_pages(old(memory_set).areas@, hart_id as nat) == (memory_set.areas@, true),
        decreases CPU_NUM - hart_id,
    {
        let claim_addr = context_address(3 * hart_id + 2);
        if memory_set.mmio_map(claim_addr, claim_addr + PAGE_SIZE, 3).is_err() {
            proof {
                lemma_claim_pages_stuck(old(memory_set).areas@, hart_id as nat + 1, CPU_NUM as nat);
            }
            return false;
        }
        hart_id += 1;
    }
    true
}

/// Once a page could not be mapped, no further page is tried.
pub proof fn lemma_claim_pages_stuck(areas: Seq<MapArea>, n: nat, m: nat)
    requires
        n <= m,
        !with_claim_pages(areas, n).1,
    ensures
        with_claim_pages(areas, m) == with_claim_pages(areas, n),
    decreases m - n,
{
    if n < m {
        lemma_claim_pages_stuck(areas, n, (m - 1) as nat);
    }
}

/// The lowest priority at which an interrupt is delivered at all.
pub const PRIORITY_LOWEST: u32 = 1;

/// The threshold that masks no interrupt.
pub const THRESHOLD_ANY: u32 = 0;

/// The threshold that masks every interrupt.
pub const THRESHOLD_NEVER: u32 = 7;

/// What the kernel has decided about one claimed external interrupt.
#[derive(Clone, Copy, Debug, PartialEq, Eq, Structural)]
pub enum ExtIntAction {
    /// The interrupt was delivered to the task that owns the device, as a
    /// trap record.
    Forwarded,
    /// The kernel's own driver of the serial port is to serve the interrupt.
    KernelHandled,
    /// Nobody handles the interrupt; it is only completed.
    Unsupported,
}

/// Whether `irq` is the interrupt of one of the board's serial ports.
pub open spec fn is_serial_irq(board: Board, irq: u16) -> bool {
    board.spec_first_serial_irq() <= irq <= board.spec_first_serial_irq() + 3
}

/// Whether the interrupt `irq` is delivered to a task: somebody has claimed
/// it, and the owner can take one more trap record.
pub open spec fn is_forwarded(kernel: &Kernel, irq: u16) -> bool {
    kernel.ext_int_map@.contains_key(irq) && push_result(kernel, kernel.ext_int_map@[irq]).is_ok()
}

/// What the kernel decides about the claimed interrupt `irq`.
pub open spec fn ext_int_action(kernel: &Kernel, irq: u16) -> ExtIntAction {
    if is_forwarded(kernel, irq) {
        ExtIntAction::Forwarded
    } else if is_serial_irq(kernel.board, irq) {
        ExtIntAction::KernelHandled
    } else {
        ExtIntAction::Unsupported
    }
}

/// The controller after the kernel has decided about the interrupt `irq`,
/// claimed on `hart`. An interrupt that the kernel keeps is completed. One
/// that was delivered to its owner is completed and disabled for the
/// supervisor context of the hart, unless the owner runs on this very
/// hart: then it is left for the owner to complete.
pub open spec fn plic_after_ext_int(kernel: &Kernel, hart: usize, irq: u16) -> PlicState {
    let context = (3 * hart + 1) as usize;
    if is_forwarded(kernel, irq) {
        if kernel.current(hart as int) == Some(kernel.ext_int_map@[irq]) || irq >= IRQ_NUM {
            kernel.plic@
        } else {
            kernel.plic@.complete(context, irq).disable(context, irq)
        }
    } else {
        kernel.plic@.complete(context, irq)
    }
}

/// The effect of `handle_external_interrupt`, which returns `action`, on the kernel.
pub open spec fn handle_external_interrupt_post(before: &Kernel, after: &Kernel, hart_id: usize, irq: u16, action: ExtIntAction) -> bool {
    &&& action == ext_int_action(before, irq)
    &&& after.plic@ == plic_after_ext_int(before, hart_id, irq)
    &&& after.same_setup(before)
    &&& after.pool == before.pool
    &&& after.processors == before.processors
    &&& after.timers == before.timers
    &&& after.serials == before.serials
    &&& after.ext_int_map == before.ext_int_map
    &&& action != ExtIntAction::Forwarded ==> after.same_records(before)
    &&& action == ExtIntAction::Forwarded ==> {
        let pid = before.ext_int_map@[irq] as int;
        &&& after.same_tasks_but(before, pid)
        &&& after.live(pid)
        &&& after.tcb(pid).pid == before.tcb(pid).pid
        &&& after.tcb(pid).kernel_stack == before.tcb(pid).kernel_stack
        &&& after.tcb(pid).inner == (TaskControlBlockInner {
            user_trap_info: after.tcb(pid).inner.user_trap_info,
            ..before.tcb(pid).inner
        })
        &&& after.tcb(pid).inner.user_trap_info.is_some()
        &&& after.tcb(pid).inner.user_trap_info.unwrap().devices == before.tcb(
            pid,
        ).inner.user_trap_info.unwrap().devices
        &&& after.tcb(pid).inner.user_trap_info.unwrap().records() == before.tcb(
            pid,
        ).inner.user_trap_info.unwrap().records().push(
            UserTrapRecord { cause: CAUSE_USER_EXTERNAL, message: irq as usize },
        )
    }
}

/// Decides about the external interrupt `irq` that the supervisor context
/// of `hart` has claimed. If a task has claimed the device, the interrupt
/// is delivered to it as a trap record with the cause 8 and the number of
/// the interrupt as message. If the device is unclaimed or the record
/// cannot be delivered, the interrupt stays with the kernel: the driver of
/// the serial port is to serve it if it is a serial port's, and it is
/// completed. See `plic_after_ext_int` for what the controller is told.
pub fn handle_external_interrupt(kernel: &mut Kernel, hart_id: usize, irq: u16) -> (action: ExtIntAction)
    requires
        old(kernel).wf(),
        hart_id < CPU_NUM,
    ensures
        final(kernel).wf(),
        handle_external_interrupt_post(old(kernel), final(kernel), hart_id, irq, action),
{
    broadcast use vstd::std_specs::btree::group_btree_axioms;

    let context = 3 * hart_id + 1;
    let owner = match kernel.ext_int_map.get(&irq) {
        Some(pid) => Some(*pid),
        None => None,
    };
    let current = kernel.processors[hart_id].current;
    let mut can_user_handle = false;
    if let Some(pid) = owner {
        if push_trap_record(
            kernel,
            pid,
            UserTrapRecord { cause: CAUSE_USER_EXTERNAL, message: irq as usize },
        ).is_ok() {
            can_user_handle = true;
        }
    }
    let ghost mid = *kernel;
    let action = if can_user_handle {
        if current != owner && (irq as usize) < IRQ_NUM {
            kernel.plic.complete(context, irq);
            kernel.plic.disable(context, irq);
            proof {
                lemma_switch_bit(mid.plic@.complete(context, irq), context, irq, false);
            }
        }
        ExtIntAction::Forwarded
    } else {
        kernel.plic.complete(context, irq);
        let first = kernel.board.first_serial_irq();
        if first <= irq && irq <= first + 3 {
            ExtIntAction::KernelHandled
        } else {
            ExtIntAction::Unsupported
        }
    };
    proof {
        assert(kernel.same_live(&mid));
        assert(kernel.same_task_wf(&mid));
        kernel.lemma_frame_structure(&mid);
        assert(kernel.same_status(&mid));
        assert(kernel.same_currents(&mid));
        kernel.lemma_frame_running(&mid);
        kernel.lemma_frame_ready(&mid);
        assert(kernel.same_family(&mid));
        kernel.lemma_frame_family(&mid);
        assert(kernel.same_claims(&mid));
        kernel.lemma_frame_claims(&mid);
        kernel.lemma_frame_routing_fewer(&mid);
    }
    action
}

/// Gives the interrupts of the four serial ports the lowest priority that
/// is delivered.
pub fn init(kernel: &mut Kernel)
    requires
        old(kernel).wf(),
    ensures
        final(kernel).wf(),
        ({
            let first = old(kernel).board.spec_first_serial_irq();
            final(kernel).plic@ == old(kernel).plic@.set_priority(first, PRIORITY_LOWEST).set_priority(
                (first + 1) as u16,
                PRIORITY_LOWEST,
            ).set_priority((first + 2) as u16, PRIORITY_LOWEST).set_priority(
                (first + 3) as u16,
                PRIORITY_LOWEST,
            )
        }),
        final(kernel).same_setup(old(kernel)),
        final(kernel).pids == old(kernel).pids,
        final(kernel).pool == old(kernel).pool,
        final(kernel).processors == old(kernel).processors,
        final(kernel).timers == old(kernel).timers,
        final(kernel).serials == old(kernel).serials,
        final(kernel).ext_int_map == old(kernel).ext_int_map,
{
    let first = kernel.board.first_serial_irq();
    kernel.plic.set_priority(first, PRIORITY_LOWEST);
    kernel.plic.set_priority(first + 1, PRIORITY_LOWEST);
    kernel.plic.set_priority(first + 2, PRIORITY_LOWEST);
    kernel.plic.set_priority(first + 3, PRIORITY_LOWEST);
    proof {
        let old_k = *old(kernel);
        assert(kernel.same_shape(&old_k));
        kernel.lemma_same_shape(&old_k);
    }
}

/// The controller after a hart has been set up, before any device is
/// claimed: the interrupts of the four serial ports are enabled for the
/// supervisor context of the hart, and the thresholds of the hart's
/// supervisor and user contexts mask nothing, that of its machine context
/// everything.
pub open spec fn plic_after_init_hart(plic: PlicState, board: Board, hart: usize) -> PlicState {
    let first = board.spec_first_serial_irq();
    let context = (3 * hart + 1) as usize;
    plic.enable(context, first).enable(context, (first + 1) as u16).enable(context, (first + 2) as u16).enable(
        context,
        (first + 3) as u16,
    ).set_threshold(context, THRESHOLD_ANY).set_threshold((3 * hart + 2) as usize, THRESHOLD_ANY).set_threshold(
        (3 * hart) as usize,
        THRESHOLD_NEVER,
    )
}

/// Sets the interrupt controller up for the hart `hart_id`; see
/// `plic_after_init_hart`. This is done while no device is claimed.
pub fn init_hart(kernel: &mut Kernel, hart_id: usize)
    requires
        old(kernel).wf(),
        hart_id < CPU_NUM,
        old(kernel).ext_int_map@ == Map::<u16, usize>::empty(),
    ensures
        final(kernel).wf(),
        final(kernel).plic@ == plic_after_init_hart(old(kernel).plic@, old(kernel).board, hart_id),
        final(kernel).same_setup(old(kernel)),
        final(kernel).pids == old(kernel).pids,
        final(kernel).pool == old(kernel).pool,
        final(kernel).processors == old(kernel).processors,
        final(kernel).timers == old(kernel).timers,
        final(kernel).serials == old(kernel).serials,
        final(kernel).ext_int_map == old(kernel).ext_int_map,
{
    let first = kernel.board.first_serial_irq();
    let context = 3 * hart_id + 1;
    let ghost p0 = kernel.plic@;
    kernel.plic.enable(context, first);
    let ghost p1 = kernel.plic@;
    kernel.plic.enable(context, first + 1);
    let ghost p2 = kernel.plic@;
    kernel.plic.enable(context, first + 2);
    let ghost p3 = kernel.plic@;
    kernel.plic.enable(context, first + 3);
    let ghost p4 = kernel.plic@;
    kernel.plic.set_threshold(context, THRESHOLD_ANY);
    kernel.plic.set_threshold(3 * hart_id + 2, THRESHOLD_ANY);
    kernel.plic.set_threshold(3 * hart_id, THRESHOLD_NEVER);
    proof {
        let old_k = *old(kernel);
        lemma_switch_bit(p0, context, first, true);
        lemma_switch_bit(p1, context, (first + 1) as u16, true);
        lemma_switch_bit(p2, context, (first + 2) as u16, true);
        lemma_switch_bit(p3, context, (first + 3) as u16, true);
        assert forall|h: int, i: int| 0 <= h < CPU_NUM implies !#[trigger] kernel.plic@.is_enabled(
            u_context(h),
            i,
        ) by {
            assert(kernel.plic@.is_enabled(u_context(h), i) == p4.is_enabled(u_context(h), i));
            if 0 <= i < IRQ_NUM && old_k.plic@.is_enabled(u_context(h), i) {
                assert(old_k.ext_int_map@.contains_key(i as u16));
            }
        }
        kernel.lemma_routing_without_user();
        assert(kernel.same_live(&old_k));
        assert(kernel.same_task_wf(&old_k));
        kernel.lemma_frame_structure(&old_k);
        assert(kernel.same_status(&old_k));
        assert(kernel.same_currents(&old_k));
        kernel.lemma_frame_running(&old_k);
        kernel.lemma_frame_ready(&old_k);
        assert(kernel.same_family(&old_k));
        kernel.lemma_frame_family(&old_k);
        assert(kernel.same_claims(&old_k));
        kernel.lemma_frame_claims(&old_k);
    }
}

} // verus!
