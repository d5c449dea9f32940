use vstd::prelude::*;

verus! {

/// Bit of `sstatus` that enables user-mode interrupts.
pub const SSTATUS_UIE: usize = 1;

/// Bit of `sstatus` that holds the privilege mode the trap came from; clear
/// for user mode.
pub const SSTATUS_SPP: usize = 0x100;

/// What a task needs to get back to user mode: its registers and the
/// supervisor state saved at its last trap.
#[derive(Clone, Copy, Debug)]
pub struct TrapContext {
    /// The general registers; `x[10]` to `x[12]` carry the arguments of a
    /// system call, `x[17]` its number, and `x[10]` its result.
    pub x: [usize; 32],
    pub sstatus: usize,
    pub sepc: usize,
    pub kernel_satp: usize,
    pub kernel_sp: usize,
    pub trap_handler: usize,
}

impl TrapContext {
    /// Whether user-mode interrupts are enabled in the saved status.
    pub open spec fn spec_uie(&self) -> bool {
        self.sstatus & SSTATUS_UIE != 0
    }

    /// Whether user-mode interrupts are enabled in the saved status.
    #[verifier::when_used_as_spec(spec_uie)]
    pub fn uie(&self) -> (on: bool)
        ensures
            on == self.spec_uie(),
    {
        self.sstatus & SSTATUS_UIE != 0
    }

    /// Sets the stack pointer, register 2.
    pub fn set_sp(&mut self, sp: usize)
        ensures
            final(self).x@ == old(self).x@.update(2, sp),
            final(self).sstatus == old(self).sstatus,
            final(self).sepc == old(self).sepc,
            final(self).kernel_satp == old(self).kernel_satp,
            final(self).kernel_sp == old(self).kernel_sp,
            final(self).trap_handler == old(self).trap_handler,
    {
        self.x[2] = sp;
    }

    /// The trap context of a task that has not run yet: it enters user mode
    /// at `entry` with the stack pointer `sp`, every other register zero,
    /// and user-mode interrupts off; its traps run `trap_handler` on the
    /// kernel stack that ends at `kernel_sp`.
    pub fn app_init_context(
        entry: usize,
        sp: usize,
        kernel_satp: usize,
        kernel_sp: usize,
        trap_handler: usize,
    ) -> (cx: TrapContext)
        ensures
            cx.x@ == Seq::new(32, |i: int| 0usize).update(2, sp),
            cx.sstatus == 0,
            cx.sepc == entry,
            cx.kernel_satp == kernel_satp,
            cx.kernel_sp == kernel_sp,
            cx.trap_handler == trap_handler,
    {
        let mut cx = TrapContext {
            x: [0; 32],
            sstatus: 0,
            sepc: entry,
            kernel_satp,
            kernel_sp,
            trap_handler,
        };
        assert(cx.x@ =~= Seq::new(32, |i: int| 0usize));
        cx.set_sp(sp);
        cx
    }
}

} // verus!
