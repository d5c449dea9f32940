use vstd::prelude::*;
use crate::config::{PAGE_SIZE, USER_TRAP_BUFFER};
use crate::fs::{FileDescriptor, MailBox, Serial, Socket, Stdin, Stdout};
use crate::mm::{mmap_ok, MapArea, MemorySet};
use crate::task::context::{TaskContext, UIP_USOFT};
use crate::task::pid::{KernelStack, PidHandle, MAX_PID, spec_stack_top};
use crate::task::processor::Processor;
use crate::trap::context::{TrapContext, SSTATUS_UIE};
use crate::trap::usertrap::{UserTrapInfo, UserTrapRecord};

verus! {

/// The priority a task starts with.
pub const DEFAULT_PRIORITY: isize = 16;

/// Whether a task waits for a hart, runs on the hart named, or has ended
/// and waits to be reaped.
#[derive(Copy, Clone, Debug, PartialEq, Eq, Structural)]
pub enum TaskStatus {
    Ready,
    Running(usize),
    Zombie,
}

/// A program as the loader prepared it: its address space, the top of its
/// user stack and the address at which it starts.
pub struct LoadedImage {
    pub memory_set: MemorySet,
    pub user_sp: usize,
    pub entry_point: usize,
}

/// The addresses of the kernel that every new task is set up with.
#[derive(Clone, Copy, Debug, PartialEq, Eq, Structural)]
pub struct KernelEntry {
    pub kernel_satp: usize,
    pub trap_handler: usize,
    pub trap_return: usize,
}

/// A task: its identifier, its kernel stack, and its state.
pub struct TaskControlBlock {
    pub pid: PidHandle,
    pub kernel_stack: KernelStack,
    pub inner: TaskControlBlockInner,
}

/// The state of a task.
pub struct TaskControlBlockInner {
    pub trap_cx: TrapContext,
    pub base_size: usize,
    pub task_cx: TaskContext,
    pub user_trap_info: Option<UserTrapInfo>,
    pub task_status: TaskStatus,
    pub priority: isize,
    pub memory_set: MemorySet,
    pub parent: Option<usize>,
    pub children: Vec<usize>,
    pub exit_code: i32,
    pub fd_table: Vec<Option<FileDescriptor>>,
    pub mail_box: MailBox,
    pub time_intr_count: usize,
}

/// The files a task starts with: standard input, standard output, standard
/// error, and the serial ports 2 and 3.
pub open spec fn initial_fd_table() -> Seq<Option<FileDescriptor>> {
    seq![
        Some(FileDescriptor::Stdin(Stdin)),
        Some(FileDescriptor::Stdout(Stdout)),
        Some(FileDescriptor::Stdout(Stdout)),
        Some(FileDescriptor::Serial(Serial { port: 2 })),
        Some(FileDescriptor::Serial(Serial { port: 3 })),
    ]
}

/// The first index before `n` at which `table` has a free slot, or `n` if
/// there is none.
pub open spec fn first_free_fd(table: Seq<Option<FileDescriptor>>, n: int) -> int
    decreases n,
{
    if n <= 0 {
        0
    } else {
        let before = first_free_fd(table, n - 1);
        if before < n - 1 {
            before
        } else if table[n - 1].is_none() {
            n - 1
        } else {
            n
        }
    }
}

/// The free slot found lies within the bound, is free, and no slot before it is.
pub proof fn lemma_first_free_fd(table: Seq<Option<FileDescriptor>>, n: int)
    requires
        0 <= n <= table.len(),
    ensures
        0 <= first_free_fd(table, n) <= n,
        first_free_fd(table, n) < n ==> table[first_free_fd(table, n)].is_none(),
        forall|k: int| 0 <= k < first_free_fd(table, n) ==> table[k].is_some(),
    decreases n,
{
    if n > 0 {
        lemma_first_free_fd(table, n - 1);
    }
}

/// Once a free slot has been met, looking further does not change the slot found.
pub proof fn lemma_first_free_fd_stable(table: Seq<Option<FileDescriptor>>, n: int, m: int)
    requires
        0 <= n <= m,
        first_free_fd(table, n) < n,
    ensures
        first_free_fd(table, m) == first_free_fd(table, n),
    decreases m - n,
{
    if n < m {
        lemma_first_free_fd_stable(table, n, m - 1);
    }
}

impl TaskControlBlockInner {
    /// The status of the task.
    pub fn get_status(&self) -> (s: TaskStatus)
        ensures
            s == self.task_status,
    {
        self.task_status
    }

    /// Whether the task has ended.
    pub open spec fn spec_is_zombie(&self) -> bool {
        self.task_status == TaskStatus::Zombie
    }

    /// Whether the task has ended.
    #[verifier::when_used_as_spec(spec_is_zombie)]
    pub fn is_zombie(&self) -> (z: bool)
        ensures
            z == self.spec_is_zombie(),
    {
        self.get_status() == TaskStatus::Zombie
    }

    /// The task's trap context.
    pub fn get_trap_cx(&mut self) -> (cx: &mut TrapContext)
        ensures
            *cx == old(self).trap_cx,
            *final(self) == (TaskControlBlockInner { trap_cx: *final(cx), ..*old(self) }),
    {
        &mut self.trap_cx
    }

    /// Sets the priority of the task. A priority below 2 is refused with
    /// -1 and changes nothing.
    pub fn set_priority(&mut self, priority: isize) -> (res: Result<isize, isize>)
        ensures
            priority >= 2 ==> res == Ok::<isize, isize>(priority) && *final(self) == (
            TaskControlBlockInner { priority, ..*old(self) }),
            priority < 2 ==> res == Err::<isize, isize>(-1isize) && *final(self) == *old(self),
    {
        if priority < 2 {
            return Err(-1);
        }
        self.priority = priority;
        Ok(priority)
    }

    /// Maps memory into the task's address space; see `MemorySet::mmap`.
    pub fn mmap(&mut self, start: usize, len: usize, port: usize) -> (res: Result<isize, isize>)
        ensures
            *final(self) == (TaskControlBlockInner { memory_set: final(self).memory_set, ..*old(self) }),
            mmap_ok(old(self).memory_set.areas@, start, len, port) ==> res == Ok::<isize, isize>(
                crate::mm::page_round_up(len as int) as isize,
            ) && final(self).memory_set.areas@ == (if len == 0 {
                old(self).memory_set.areas@
            } else {
                old(self).memory_set.areas@.push(
                    MapArea {
                        start,
                        end: (start + crate::mm::page_round_up(len as int)) as usize,
                        perm: port,
                        mmio: false,
                    },
                )
            }),
            !mmap_ok(old(self).memory_set.areas@, start, len, port) ==> res == Err::<isize, isize>(-1isize)
                && final(self).memory_set.areas@ == old(self).memory_set.areas@,
    {
        self.memory_set.mmap(start, len, port)
    }

    /// Unmaps memory from the task's address space; see `MemorySet::munmap`.
    pub fn munmap(&mut self, start: usize, len: usize) -> (res: Result<isize, isize>)
        ensures
            *final(self) == (TaskControlBlockInner { memory_set: final(self).memory_set, ..*old(self) }),
            crate::mm::munmap_effect(old(self).memory_set.areas@, final(self).memory_set.areas@, start, len, res),
    {
        self.memory_set.munmap(start, len)
    }

    /// The lowest free file descriptor. When the table has no free slot,
    /// it gets one more.
    pub fn alloc_fd(&mut self) -> (fd: usize)
        ensures
            fd == first_free_fd(old(self).fd_table@, old(self).fd_table@.len() as int),
            *final(self) == (TaskControlBlockInner { fd_table: final(self).fd_table, ..*old(self) }),
            final(self).fd_table@ == (if fd < old(self).fd_table@.len() {
                old(self).fd_table@
            } else {
                old(self).fd_table@.push(None)
            }),
    {
        let mut fd: usize = 0;
        while fd < self.fd_table.len()
            invariant
                fd <= self.fd_table@.len(),
                *self == *old(self),
                first_free_fd(self.fd_table@, fd as int) == fd,
            decreases self.fd_table@.len() - fd,
        {
            if self.fd_table[fd].is_none() {
                proof {
                    lemma_first_free_fd_stable(self.fd_table@, fd as int + 1, self.fd_table@.len() as int);
                }
                return fd;
            }
            fd += 1;
        }
        self.fd_table.push(None);
        self.fd_table.len() - 1
    }

    /// Whether the task's mailbox can take no further mail.
    pub fn is_mailbox_full(&self) -> (r: bool)
        ensures
            r == (self.mail_box.inner.mails@.len() >= crate::fs::mail::MAILBOX_SIZE),
    {
        self.mail_box.is_full()
    }

    /// Whether the task's mailbox holds no mail.
    pub fn is_mailbox_empty(&self) -> (r: bool)
        ensures
            r == (self.mail_box.inner.mails@.len() == 0),
    {
        self.mail_box.is_empty()
    }

    /// Whether the task takes interrupts in user mode.
    pub open spec fn spec_is_user_trap_enabled(&self) -> bool {
        self.trap_cx.spec_uie()
    }

    /// Whether the task takes interrupts in user mode.
    #[verifier::when_used_as_spec(spec_is_user_trap_enabled)]
    pub fn is_user_trap_enabled(&self) -> (r: bool)
        ensures
            r == self.spec_is_user_trap_enabled(),
    {
        self.trap_cx.uie()
    }

    /// Whether `init_user_trap` can succeed: the task has not opted in yet,
    /// and the page of the trap queue can be mapped.
    pub open spec fn can_init_user_trap(&self) -> bool {
        self.user_trap_info.is_none() && mmap_ok(self.memory_set.areas@, USER_TRAP_BUFFER, PAGE_SIZE, 3)
    }

    /// Opts the task in to user-mode traps: maps the page of its trap queue,
    /// readable and writable, at `USER_TRAP_BUFFER`, gives the task an empty
    /// queue and no device, and enables user-mode interrupts in its saved
    /// status. Returns the address of the page as a signed word. A task that
    /// has opted in already, or whose page cannot be mapped, gets -1 and
    /// stays as it is.
    pub fn init_user_trap(&mut self) -> (res: Result<isize, isize>)
        ensures
            old(self).can_init_user_trap() ==> {
                &&& res == Ok::<isize, isize>(-0x3000isize)
                &&& final(self).user_trap_info.is_some()
                &&& final(self).user_trap_info.unwrap().records() == Seq::<UserTrapRecord>::empty()
                &&& final(self).user_trap_info.unwrap().devices@ == Seq::<(u16, bool)>::empty()
                &&& final(self).memory_set.areas@ == old(self).memory_set.areas@.push(
                    MapArea {
                        start: USER_TRAP_BUFFER,
                        end: (USER_TRAP_BUFFER + PAGE_SIZE) as usize,
                        perm: 3,
                        mmio: false,
                    },
                )
                &&& final(self).trap_cx == (TrapContext {
                    sstatus: old(self).trap_cx.sstatus | SSTATUS_UIE,
                    ..old(self).trap_cx
                })
                &&& final(self).spec_is_user_trap_enabled()
                &&& *final(self) == (TaskControlBlockInner {
                    user_trap_info: final(self).user_trap_info,
                    memory_set: final(self).memory_set,
                    trap_cx: final(self).trap_cx,
                    ..*old(self)
                })
            },
            !old(self).can_init_user_trap() ==> res == Err::<isize, isize>(-1isize) && *final(self) == (
            TaskControlBlockInner { memory_set: final(self).memory_set, ..*old(self) }) && final(self).memory_set.areas@ == old(self).memory_set.areas@,
    {
        if self.user_trap_info.is_none() {
            if self.mmap(USER_TRAP_BUFFER, PAGE_SIZE, 3).is_ok() {
                self.user_trap_info = Some(UserTrapInfo::new());
                let sstatus = self.trap_cx.sstatus;
                assert((sstatus | 1usize) & 1usize != 0) by (bit_vector);
                self.trap_cx.sstatus = sstatus | SSTATUS_UIE;
                return Ok(-0x3000);
            }
        }
        Err(-1)
    }

    /// The number of trap records that the task's handler will find at its
    /// next entry: the length of its queue if the task takes user-mode
    /// interrupts and has opted in, otherwise none.
    pub open spec fn pending_user_traps(&self) -> nat {
        if self.spec_is_user_trap_enabled() && self.user_trap_info.is_some() {
            self.user_trap_info.unwrap().records().len()
        } else {
            0
        }
    }

    /// The number of trap records that the task's handler will find at its
    /// next entry.
    pub fn user_trap_record_num(&self) -> (num: usize)
        ensures
            num == self.pending_user_traps(),
    {
        if self.is_user_trap_enabled() {
            match &self.user_trap_info {
                Some(trap_info) => trap_info.user_trap_record_num(),
                None => 0,
            }
        } else {
            0
        }
    }

    /// Prepares the hart for the task's return to user mode: if trap
    /// records wait for the task, their number goes to the scratch register
    /// and the user software interrupt is made pending; otherwise the hart
    /// stays as it is.
    pub fn restore_user_trap_info(&self, hart: &mut Processor)
        ensures
            self.pending_user_traps() > 0 ==> *final(hart) == (Processor {
                uscratch: self.pending_user_traps() as usize,
                registers: TaskContext {
                    uip: old(hart).registers.uip | UIP_USOFT,
                    ..old(hart).registers
                },
                ..*old(hart)
            }),
            self.pending_user_traps() == 0 ==> *final(hart) == *old(hart),
    {
        if self.is_user_trap_enabled() {
            if let Some(trap_info) = &self.user_trap_info {
                let num = trap_info.user_trap_record_num();
                if num > 0 {
                    hart.uscratch = num;
                    hart.registers.uip = hart.registers.uip | UIP_USOFT;
                }
            }
        }
    }
}

impl TaskControlBlock {
    /// The identifier of the task.
    pub open spec fn spec_getpid(&self) -> usize {
        self.pid.0
    }

    /// The identifier of the task.
    #[verifier::when_used_as_spec(spec_getpid)]
    pub fn getpid(&self) -> (pid: usize)
        ensures
            pid == self.spec_getpid(),
    {
        self.pid.0
    }

    /// Whether the task is one that `new` makes for `pid_handle` from a
    /// program with the given address space, stack top and entry point.
    pub open spec fn is_fresh(
        &self,
        pid_handle: PidHandle,
        areas: Seq<MapArea>,
        user_sp: usize,
        entry_point: usize,
        entry: KernelEntry,
        uie: usize,
        uip: usize,
        parent: Option<usize>,
    ) -> bool {
        &&& self.pid == pid_handle
        &&& self.kernel_stack.pid == pid_handle.0
        &&& self.inner.trap_cx.x@ == Seq::new(32, |i: int| 0usize).update(2, user_sp)
        &&& self.inner.trap_cx.sstatus == 0
        &&& self.inner.trap_cx.sepc == entry_point
        &&& self.inner.trap_cx.kernel_satp == entry.kernel_satp
        &&& self.inner.trap_cx.kernel_sp == spec_stack_top(pid_handle.0)
        &&& self.inner.trap_cx.trap_handler == entry.trap_handler
        &&& self.inner.base_size == user_sp
        &&& self.inner.task_cx.is_entry(spec_stack_top(pid_handle.0) as usize, entry.trap_return, uie, uip)
        &&& self.inner.user_trap_info.is_none()
        &&& self.inner.task_status == TaskStatus::Ready
        &&& self.inner.priority == DEFAULT_PRIORITY
        &&& self.inner.memory_set.areas@ == areas
        &&& self.inner.parent == parent
        &&& self.inner.children@ == Seq::<usize>::empty()
        &&& self.inner.exit_code == 0
        &&& self.inner.fd_table@ == initial_fd_table()
        &&& self.inner.mail_box.inner.mails@.len() == 0
        &&& self.inner.time_intr_count == 0
    }

    /// A task for the program `image`: ready to run, with the default
    /// priority, the files every task starts with, an empty mailbox, no
    /// parent and no children. It will enter user mode at the program's
    /// entry point, on the program's stack; its first switch returns to
    /// `entry.trap_return` on its own kernel stack.
    pub fn new(pid_handle: PidHandle, image: LoadedImage, entry: KernelEntry, uie: usize, uip: usize) -> (task:
        TaskControlBlock)
        requires
            pid_handle.0 <= MAX_PID,
        ensures
            task.is_fresh(
                pid_handle,
                image.memory_set.areas@,
                image.user_sp,
                image.entry_point,
                entry,
                uie,
                uip,
                None,
            ),
    {
        let kernel_stack = KernelStack::new(&pid_handle);
        let kernel_stack_top = kernel_stack.get_top();
        let task_cx = TaskContext::goto_trap_return(kernel_stack_top, entry.trap_return, uie, uip);
        let trap_cx = TrapContext::app_init_context(
            image.entry_point,
            image.user_sp,
            entry.kernel_satp,
            kernel_stack_top,
            entry.trap_handler,
        );
        let mut fd_table: Vec<Option<FileDescriptor>> = Vec::new();
        fd_table.push(Some(FileDescriptor::Stdin(Stdin)));
        fd_table.push(Some(FileDescriptor::Stdout(Stdout)));
        fd_table.push(Some(FileDescriptor::Stdout(Stdout)));
        fd_table.push(Some(FileDescriptor::Serial(Serial { port: 2 })));
        fd_table.push(Some(FileDescriptor::Serial(Serial { port: 3 })));
        assert(fd_table@ =~= initial_fd_table());
        TaskControlBlock {
            pid: pid_handle,
            kernel_stack,
            inner: TaskControlBlockInner {
                trap_cx,
                base_size: image.user_sp,
                task_cx,
                user_trap_info: None,
                task_status: TaskStatus::Ready,
                priority: DEFAULT_PRIORITY,
                memory_set: image.memory_set,
                parent: None,
                children: Vec::new(),
                exit_code: 0,
                fd_table,
                mail_box: MailBox::new(),
                time_intr_count: 0,
            },
        }
    }

    /// Replaces the program of the task by `image`: the task gets the new
    /// address space and a fresh trap context that enters the new program,
    /// and is no longer opted in to user-mode traps. Everything else stays.
    pub fn exec(&mut self, image: LoadedImage, entry: KernelEntry)
        requires
            old(self).kernel_stack.pid <= MAX_PID,
        ensures
            final(self).pid == old(self).pid,
            final(self).kernel_stack == old(self).kernel_stack,
            final(self).inner == (TaskControlBlockInner {
                user_trap_info: None,
                memory_set: final(self).inner.memory_set,
                trap_cx: final(self).inner.trap_cx,
                ..old(self).inner
            }),
            final(self).inner.memory_set.areas@ == image.memory_set.areas@,
            final(self).inner.trap_cx.x@ == Seq::new(32, |i: int| 0usize).update(2, image.user_sp),
            final(self).inner.trap_cx.sstatus == 0,
            final(self).inner.trap_cx.sepc == image.entry_point,
            final(self).inner.trap_cx.kernel_satp == entry.kernel_satp,
            final(self).inner.trap_cx.kernel_sp == spec_stack_top(old(self).kernel_stack.pid),
            final(self).inner.trap_cx.trap_handler == entry.trap_handler,
    {
        self.inner.user_trap_info = None;
        self.inner.memory_set = image.memory_set;
        self.inner.trap_cx = TrapContext::app_init_context(
            image.entry_point,
            image.user_sp,
            entry.kernel_satp,
            self.kernel_stack.get_top(),
            entry.trap_handler,
        );
    }

    /// Whether `child` is what `fork` makes of the task `parent` for `pid_handle`.
    pub open spec fn is_fork_of(
        &self,
        parent: TaskControlBlock,
        pid_handle: PidHandle,
        entry: KernelEntry,
        uie: usize,
        uip: usize,
    ) -> bool {
        &&& self.pid == pid_handle
        &&& self.kernel_stack.pid == pid_handle.0
        &&& self.inner.trap_cx == (TrapContext {
            kernel_sp: spec_stack_top(pid_handle.0) as usize,
            ..parent.inner.trap_cx
        })
        &&& self.inner.base_size == parent.inner.base_size
        &&& self.inner.task_cx.is_entry(spec_stack_top(pid_handle.0) as usize, entry.trap_return, uie, uip)
        &&& self.inner.user_trap_info.is_some() == parent.inner.user_trap_info.is_some()
        &&& self.inner.user_trap_info.is_some() ==> {
            &&& self.inner.user_trap_info.unwrap().records() == parent.inner.user_trap_info.unwrap().records()
            &&& self.inner.user_trap_info.unwrap().devices@ == Seq::<(u16, bool)>::empty()
        }
        &&& self.inner.task_status == TaskStatus::Ready
        &&& self.inner.priority == DEFAULT_PRIORITY
        &&& self.inner.memory_set.areas@ == parent.inner.memory_set.areas@
        &&& self.inner.parent == Some(parent.pid.0)
        &&& self.inner.children@ == Seq::<usize>::empty()
        &&& self.inner.exit_code == 0
        &&& self.inner.fd_table@ == parent.inner.fd_table@
        &&& self.inner.mail_box.inner.mails@.len() == 0
        &&& self.inner.time_intr_count == 0
    }

    /// Makes a child of the task: a copy of its address space, of its
    /// registers and of its open files, with the identifier `pid_handle`, a
    /// kernel stack and a mailbox of its own, ready to run. A child of a
    /// task that has opted in to user-mode traps has opted in too, with a
    /// copy of the parent's waiting trap records, but it owns no device.
    /// The task gets the child as its last child.
    pub fn fork(&mut self, pid_handle: PidHandle, entry: KernelEntry, uie: usize, uip: usize) -> (child:
        TaskControlBlock)
        requires
            pid_handle.0 <= MAX_PID,
        ensures
            child.is_fork_of(*old(self), pid_handle, entry, uie, uip),
            final(self).pid == old(self).pid,
            final(self).kernel_stack == old(self).kernel_stack,
            final(self).inner == (TaskControlBlockInner {
                children: final(self).inner.children,
                ..old(self).inner
            }),
            final(self).inner.children@ == old(self).inner.children@.push(pid_handle.0),
    {
        let memory_set = MemorySet::from_existed_user(&self.inner.memory_set);
        let kernel_stack = KernelStack::new(&pid_handle);
        let kernel_stack_top = kernel_stack.get_top();
        let task_cx = TaskContext::goto_trap_return(kernel_stack_top, entry.trap_return, uie, uip);
        let mut new_fd_table: Vec<Option<FileDescriptor>> = Vec::new();
        let mut i: usize = 0;
        while i < self.inner.fd_table.len()
            invariant
                i <= self.inner.fd_table@.len(),
                new_fd_table@ == self.inner.fd_table@.take(i as int),
            decreases self.inner.fd_table@.len() - i,
        {
            new_fd_table.push(self.inner.fd_table[i]);
            assert(self.inner.fd_table@.take(i + 1) == self.inner.fd_table@.take(i as int).push(
                self.inner.fd_table@[i as int],
            ));
            i += 1;
        }
        assert(self.inner.fd_table@.take(i as int) == self.inner.fd_table@);
        let user_trap_info = match &self.inner.user_trap_info {
            Some(trap_info) => Some(trap_info.fork()),
            None => None,
        };
        let mut trap_cx = self.inner.trap_cx;
        trap_cx.kernel_sp = kernel_stack_top;
        let child = TaskControlBlock {
            pid: pid_handle,
            kernel_stack,
            inner: TaskControlBlockInner {
                trap_cx,
                base_size: self.inner.base_size,
                task_cx,
                user_trap_info,
                task_status: TaskStatus::Ready,
                priority: DEFAULT_PRIORITY,
                memory_set,
                parent: Some(self.pid.0),
                children: Vec::new(),
                exit_code: 0,
                fd_table: new_fd_table,
                mail_box: MailBox::new(),
                time_intr_count: 0,
            },
        };
        self.inner.children.push(pid_handle.0);
        child
    }

    /// Starts the program `image` in a child of the task. The child has
    /// the task for its parent and is fresh in everything else. The task
    /// lists the child behind its other children.
    pub fn spawn(&mut self, pid_handle: PidHandle, image: LoadedImage, entry: KernelEntry, uie: usize, uip: usize) -> (child:
        TaskControlBlock)
        requires
            pid_handle.0 <= MAX_PID,
        ensures
            child.is_fresh(
                pid_handle,
                image.memory_set.areas@,
                image.user_sp,
                image.entry_point,
                entry,
                uie,
                uip,
                Some(old(self).pid.0),
            ),
            final(self).pid == old(self).pid,
            final(self).kernel_stack == old(self).kernel_stack,
            final(self).inner == (TaskControlBlockInner {
                children: final(self).inner.children,
                ..old(self).inner
            }),
            final(self).inner.children@ == old(self).inner.children@.push(pid_handle.0),
    {
        let mut child = TaskControlBlock::new(pid_handle, image, entry, uie, uip);
        child.inner.parent = Some(self.pid.0);
        self.inner.children.push(pid_handle.0);
        child
    }

    /// Puts a new, empty mail into the task's mailbox and returns its write end.
    pub fn create_socket(&mut self) -> (socket: Socket<'_>)
        ensures
            socket.writable,
            socket.mail@ == Seq::<u8>::empty(),
            socket.mail.write_end_open(),
            final(self).pid == old(self).pid,
            final(self).kernel_stack == old(self).kernel_stack,
            final(self).inner == (TaskControlBlockInner {
                mail_box: final(self).inner.mail_box,
                ..old(self).inner
            }),
            final(self).inner.mail_box.inner.mails@ == old(self).inner.mail_box.inner.mails@.push(
                *final(socket.mail),
            ),
    {
        self.inner.mail_box.create_socket()
    }
}

} // verus!
