use vstd::prelude::*;

verus! {

/// Bit of `uie` and `uip` for the user software interrupt.
pub const UIP_USOFT: usize = 0x1;

/// Bit of `uie` and `uip` for the user timer interrupt.
pub const UIP_UTIMER: usize = 0x10;

/// Bit of `uie` and `uip` for the user external interrupt.
pub const UIP_UEXT: usize = 0x100;

/// What the context switch saves of a task and loads back: the return
/// address, the twelve callee-saved registers, the user-interrupt registers
/// and the stack pointer, in the order the switch routine expects.
#[derive(Clone, Copy, Debug)]
pub struct TaskContext {
    pub ra: usize,
    pub s: [usize; 12],
    pub uie: usize,
    pub uip: usize,
    pub uepc: usize,
    pub utvec: usize,
    pub utval: usize,
    pub ucause: usize,
    pub sp: usize,
}

impl TaskContext {
    /// Whether the context is that of a task that has not run yet: its
    /// first switch returns to `trap_return` on the kernel stack that ends
    /// at `kernel_stack_top`, with the user-interrupt enable and pending
    /// bits `uie` and `uip`, and every other register zero.
    pub open spec fn is_entry(self, kernel_stack_top: usize, trap_return: usize, uie: usize, uip: usize) -> bool {
        &&& self.ra == trap_return
        &&& self.s@ == Seq::new(12, |i: int| 0usize)
        &&& self.uie == uie
        &&& self.uip == uip
        &&& self.uepc == 0
        &&& self.utvec == 0
        &&& self.utval == 0
        &&& self.ucause == 0
        &&& self.sp == kernel_stack_top
    }

    /// Whether the context is one that no task runs on: its registers hold
    /// marker values, and its user-interrupt registers are zero.
    pub open spec fn is_marker(self) -> bool {
        &&& self.ra == 0xDEDEDEDE
        &&& self.s@ == Seq::new(12, |i: int| 0x23232323usize)
        &&& self.uie == 0
        &&& self.uip == 0
        &&& self.uepc == 0
        &&& self.utvec == 0
        &&& self.utval == 0
        &&& self.ucause == 0
        &&& self.sp == 0xABABABAB
    }

    /// The context of a task that has not run yet: the first switch to it
    /// returns to `trap_return` on the kernel stack that ends at
    /// `kernel_stack_top`, with the user-interrupt enable and pending bits
    /// `uie` and `uip` of the hart that creates it.
    pub fn goto_trap_return(kernel_stack_top: usize, trap_return: usize, uie: usize, uip: usize) -> (cx:
        TaskContext)
        ensures
            cx.is_entry(kernel_stack_top, trap_return, uie, uip),
    {
        let cx = TaskContext {
            ra: trap_return,
            s: [0; 12],
            uie,
            uip,
            uepc: 0,
            utvec: 0,
            utval: 0,
            ucause: 0,
            sp: kernel_stack_top,
        };
        assert(cx.s@ =~= Seq::new(12, |i: int| 0usize));
        cx
    }

    /// The context switch: saves the state of the running hart, `live`, into
    /// `current`, and loads `next` into the hart, which resumes at `next.ra`.
    pub fn switch(live: &mut TaskContext, current: &mut TaskContext, next: &TaskContext)
        ensures
            *final(current) == *old(live),
            *final(live) == *next,
    {
        *current = *live;
        *live = *next;
    }
}

impl Default for TaskContext {
    /// A context that no task runs on; its registers hold marker values.
    fn default() -> (cx: TaskContext)
        ensures
            cx.is_marker(),
    {
        let cx = TaskContext {
            ra: 0xDEDEDEDE,
            s: [0x23232323; 12],
            uie: 0,
            uip: 0,
            uepc: 0,
            utvec: 0,
            utval: 0,
            ucause: 0,
            sp: 0xABABABAB,
        };
        assert(cx.s@ =~= Seq::new(12, |i: int| 0x23232323usize));
        cx
    }
}

} // verus!
