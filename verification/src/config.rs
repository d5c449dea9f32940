use vstd::prelude::*;

verus! {

/// Size of a user stack, in bytes.
pub const USER_STACK_SIZE: usize = 0x4000;

/// Size of a kernel stack, in bytes.
pub const KERNEL_STACK_SIZE: usize = 0x4000;

/// Size of the kernel heap, in bytes.
pub const KERNEL_HEAP_SIZE: usize = 0x20_0000;

/// Size of one page of memory, in bytes.
pub const PAGE_SIZE: usize = 0x1000;

/// Number of address bits covered by one page.
pub const PAGE_SIZE_BITS: usize = 0xc;

/// Number of harts the kernel schedules on.
pub const CPU_NUM: usize = 4;

/// The last page of the virtual address space, shared by every address space;
/// it holds the trap vector that crosses between user and supervisor mode.
pub const TRAMPOLINE: usize = usize::MAX - PAGE_SIZE + 1;

/// The page just below the trampoline: the trap context of the task.
pub const TRAP_CONTEXT: usize = TRAMPOLINE - PAGE_SIZE;

/// The page just below the trap context: the user-trap buffer of the task.
pub const USER_TRAP_BUFFER: usize = TRAP_CONTEXT - PAGE_SIZE;

/// The boards the kernel runs on. They differ in their clock, in the end of
/// physical memory and in the interrupt lines of their serial ports.
#[derive(Clone, Copy, Debug, PartialEq, Eq, Structural)]
pub enum Board {
    Qemu,
    Lrv,
}

impl Board {
    /// Ticks of the machine timer per second.
    pub open spec fn spec_clock_freq(self) -> usize {
        match self {
            Board::Qemu => 12_500_000,
            Board::Lrv => 10_000_000,
        }
    }

    /// Ticks of the machine timer per second.
    #[verifier::when_used_as_spec(spec_clock_freq)]
    pub fn clock_freq(self) -> (f: usize)
        ensures
            f == self.spec_clock_freq(),
    {
        match self {
            Board::Qemu => 12_500_000,
            Board::Lrv => 10_000_000,
        }
    }

    /// First address past the end of physical memory. The address is a 64-bit
    /// one, whatever the width of `usize` on the machine that asks.
    pub fn memory_end(self) -> (end: u64)
        ensures
            end == (match self {
                Board::Qemu => 0x8080_0000u64,
                Board::Lrv => 0x1_0080_0000u64,
            }),
    {
        match self {
            Board::Qemu => 0x8080_0000,
            Board::Lrv => 0x1_0080_0000,
        }
    }

    /// The interrupt line of the first serial port. The four serial ports of a
    /// board use four consecutive lines.
    pub open spec fn spec_first_serial_irq(self) -> u16 {
        match self {
            Board::Qemu => 12,
            Board::Lrv => 4,
        }
    }

    /// The interrupt line of the first serial port.
    #[verifier::when_used_as_spec(spec_first_serial_irq)]
    pub fn first_serial_irq(self) -> (irq: u16)
        ensures
            irq == self.spec_first_serial_irq(),
    {
        match self {
            Board::Qemu => 12,
            Board::Lrv => 4,
        }
    }
}

} // verus!
