//! System-call handling: decoding a call from the saved registers, and the
//! results of the system calls.
//!
//! Calls arrive through `int 0x80`: the number in `rax`, the arguments in
//! `rdi`, `rsi`, `rdx`, `r10`, `r8` and `r9`, the result back in `rax`.
use vstd::prelude::*;
use crate::consts::{CONTEXT_SWITCH_REGS, SYSCALL_LOG_INTERVAL};
use crate::ipc::syscall::numbers::{errno_value, syscall_number, Errno, FileDescriptor, SyscallNumber, SyscallResult};
use crate::kernel::id_allocator::{alloc_outcome, free_bits};
use crate::kernel::scheduler::{task_count, Scheduler};
use crate::kernel::task::{with_state, Task, TaskId, TaskState};
use crate::regs::PtRegs;

verus! {

/// Time slice, in ticks, of a forked task.
pub const FORK_TIME_SLICE: usize = 10;

/// A system call as decoded from the saved registers.
#[derive(Debug, Clone, Copy, PartialEq, Eq, Structural)]
pub struct SyscallArgs {
    pub num: usize,
    pub arg1: usize,
    pub arg2: usize,
    pub arg3: usize,
    pub arg4: usize,
    pub arg5: usize,
    pub arg6: usize,
}

/// The result of a call whose number is out of range or has no handler.
pub open spec fn unknown_syscall_result() -> int {
    -isize::MAX
}

/// Decodes the call number and arguments from the saved registers.
pub fn syscall_args(regs: &PtRegs) -> (r: SyscallArgs)
    ensures
        r == (SyscallArgs {
            num: regs.rax as usize,
            arg1: regs.rdi as usize,
            arg2: regs.rsi as usize,
            arg3: regs.rdx as usize,
            arg4: regs.r10 as usize,
            arg5: regs.r8 as usize,
            arg6: regs.r9 as usize,
        }),
{
    SyscallArgs {
        num: #[verifier::truncate] (regs.rax as usize),
        arg1: #[verifier::truncate] (regs.rdi as usize),
        arg2: #[verifier::truncate] (regs.rsi as usize),
        arg3: #[verifier::truncate] (regs.rdx as usize),
        arg4: #[verifier::truncate] (regs.r10 as usize),
        arg5: #[verifier::truncate] (regs.r8 as usize),
        arg6: #[verifier::truncate] (regs.r9 as usize),
    }
}

/// Whether the call came from user mode: the saved code segment has
/// privilege level 3.
pub fn from_user_mode(cs: u64) -> (r: bool)
    ensures
        r == (cs & 3 == 3),
{
    (cs & 3) == 3
}

/// Whether a user call is logged: every call but `write`, and `write` once
/// every `SYSCALL_LOG_INTERVAL` ticks.
pub fn should_log_syscall(num: usize, ticks: u64) -> (r: bool)
    ensures
        r == (num != syscall_number(SyscallNumber::SysWrite) || ticks % 100 == 0),
{
    num != SyscallNumber::SysWrite.number() || ticks % SYSCALL_LOG_INTERVAL == 0
}

/// The handler of call `num`, or `None` for a number out of range.
pub fn dispatch(num: usize) -> (r: Option<SyscallNumber>)
    ensures
        match r {
            Some(s) => syscall_number(s) == num,
            None => num >= 13,
        },
{
    SyscallNumber::from_usize(num)
}

/// The result of a call that has no handler.
pub fn unknown_syscall() -> (r: SyscallResult)
    ensures
        r == unknown_syscall_result(),
        r == -9223372036854775807 || r == -2147483647,
        r == -isize::MAX,
{
    -isize::MAX
}

/// The result of `write(fd, buf, count)`: `EINVAL` for a null buffer, the
/// byte count for standard output and standard error, else `EBADF`.
pub fn sys_write_result(fd: usize, buf_is_null: bool, count: usize) -> (r: SyscallResult)
    ensures
        r == if buf_is_null {
            errno_value(Errno::EINVAL)
        } else if fd == 1 || fd == 2 {
            count as isize
        } else {
            errno_value(Errno::EBADF)
        },
{
    if buf_is_null {
        return Errno::EINVAL.as_isize();
    }
    match FileDescriptor::from_usize(fd) {
        Some(FileDescriptor::Stdout) | Some(FileDescriptor::Stderr) => #[verifier::truncate] (count as isize),
        _ => Errno::EBADF.as_isize(),
    }
}

/// `read` returns 0: nothing is ever read.
pub fn sys_read(regs: &mut PtRegs, arg1: usize, arg2: usize, arg3: usize, arg4: usize, arg5: usize, arg6: usize) -> (r: SyscallResult)
    ensures
        r == 0,
        *final(regs) == *old(regs),
{
    Errno::Success.as_isize()
}

/// `getpid` returns the id of the running task, 0 when none runs.
pub fn sys_getpid(sched: &Scheduler, regs: &mut PtRegs, arg1: usize, arg2: usize, arg3: usize, arg4: usize, arg5: usize, arg6: usize) -> (r: SyscallResult)
    ensures
        r == match sched.current_view() {
            Some(t) => t.id as isize,
            None => 0isize,
        },
        *final(regs) == *old(regs),
{
    match sched.current_task() {
        Some(t) => #[verifier::truncate] (t.id as isize),
        None => Errno::Success.as_isize(),
    }
}

/// `getppid` returns the parent id of the running task, 0 when none runs.
pub fn sys_getppid(sched: &Scheduler, regs: &mut PtRegs, arg1: usize, arg2: usize, arg3: usize, arg4: usize, arg5: usize, arg6: usize) -> (r: SyscallResult)
    ensures
        r == match sched.current_view() {
            Some(t) => t.parent_id as isize,
            None => 0isize,
        },
        *final(regs) == *old(regs),
{
    match sched.current_task() {
        Some(t) => #[verifier::truncate] (t.parent_id as isize),
        None => Errno::Success.as_isize(),
    }
}

/// `execve` is not available: `ENOSYS`.
pub fn sys_execve(regs: &mut PtRegs, arg1: usize, arg2: usize, arg3: usize, arg4: usize, arg5: usize, arg6: usize) -> (r: SyscallResult)
    ensures
        r == errno_value(Errno::ENOSYS),
        *final(regs) == *old(regs),
{
    Errno::ENOSYS.as_isize()
}

/// `open` is not available: `ENOSYS`.
pub fn sys_open(regs: &mut PtRegs, arg1: usize, arg2: usize, arg3: usize, arg4: usize, arg5: usize, arg6: usize) -> (r: SyscallResult)
    ensures
        r == errno_value(Errno::ENOSYS),
        *final(regs) == *old(regs),
{
    Errno::ENOSYS.as_isize()
}

/// `close` succeeds without doing anything.
pub fn sys_close(regs: &mut PtRegs, arg1: usize, arg2: usize, arg3: usize, arg4: usize, arg5: usize, arg6: usize) -> (r: SyscallResult)
    ensures
        r == 0,
        *final(regs) == *old(regs),
{
    Errno::Success.as_isize()
}

/// `getuid` returns 0: everything runs as root.
pub fn sys_getuid(regs: &mut PtRegs, arg1: usize, arg2: usize, arg3: usize, arg4: usize, arg5: usize, arg6: usize) -> (r: SyscallResult)
    ensures
        r == 0,
        *final(regs) == *old(regs),
{
    Errno::Success.as_isize()
}

/// `getgid` returns 0: everything runs as root.
pub fn sys_getgid(regs: &mut PtRegs, arg1: usize, arg2: usize, arg3: usize, arg4: usize, arg5: usize, arg6: usize) -> (r: SyscallResult)
    ensures
        r == 0,
        *final(regs) == *old(regs),
{
    Errno::Success.as_isize()
}

/// `setuid` succeeds without doing anything.
pub fn sys_setuid(regs: &mut PtRegs, arg1: usize, arg2: usize, arg3: usize, arg4: usize, arg5: usize, arg6: usize) -> (r: SyscallResult)
    ensures
        r == 0,
        *final(regs) == *old(regs),
{
    Errno::Success.as_isize()
}

/// `setgid` succeeds without doing anything.
pub fn sys_setgid(regs: &mut PtRegs, arg1: usize, arg2: usize, arg3: usize, arg4: usize, arg5: usize, arg6: usize) -> (r: SyscallResult)
    ensures
        r == 0,
        *final(regs) == *old(regs),
{
    Errno::Success.as_isize()
}

/// The exit code passed to `exit`: the low 32 bits of its argument.
pub fn exit_code(arg1: usize) -> (r: i32)
    ensures
        r == arg1 as i32,
{
    #[verifier::truncate] (arg1 as i32)
}

/// Where a forked child resumes on its kernel stack. The parent's saved
/// registers lie `parent_stack_top - regs_addr` bytes below the top of its
/// stack; the child's copy lies as far below `child_stack_top`, and below it
/// go the return address and the registers that the context switch pops.
/// Returns the child's register address and its saved stack pointer.
pub fn fork_stack_layout(parent_stack_top: usize, regs_addr: usize, child_stack_top: usize) -> (r: (usize, usize))
    requires
        regs_addr <= parent_stack_top,
        parent_stack_top - regs_addr <= child_stack_top,
        child_stack_top - (parent_stack_top - regs_addr) >= 8 * (CONTEXT_SWITCH_REGS + 1),
    ensures
        r.0 == child_stack_top - (parent_stack_top - regs_addr),
        r.1 == r.0 - 8 * (CONTEXT_SWITCH_REGS + 1),
{
    let stack_used = parent_stack_top - regs_addr;
    let child_regs_ptr = child_stack_top - stack_used;
    let child_rsp = child_regs_ptr - 8 * (CONTEXT_SWITCH_REGS + 1);
    (child_regs_ptr, child_rsp)
}

/// The task of a forked child of `parent`: ready to run, with its own id,
/// kernel stack and address space, resuming at `rip` with a fresh time slice.
pub fn fork_child(
    parent: &Task,
    new_id: TaskId,
    child_rsp: usize,
    child_stack_top: usize,
    stack_size: usize,
    child_cr3: usize,
    rip: usize,
) -> (r: Task)
    ensures
        r.id == new_id,
        r.parent_id == parent.id,
        r.state == TaskState::Ready,
        r.kernel_stack == child_rsp,
        r.kernel_stack_top == child_stack_top,
        r.stack_size == stack_size,
        r.cr3 == child_cr3,
        r.instruction_pointer == rip,
        r.time_slice == FORK_TIME_SLICE,
        r.time_slice_max == FORK_TIME_SLICE,
        r.ticks_run == 0,
        r.name@ == "forked"@,
{
    Task {
        id: new_id,
        parent_id: parent.id,
        state: TaskState::Ready,
        kernel_stack: child_rsp,
        kernel_stack_top: child_stack_top,
        stack_size,
        cr3: child_cr3,
        instruction_pointer: rip,
        time_slice: FORK_TIME_SLICE,
        time_slice_max: FORK_TIME_SLICE,
        ticks_run: 0,
        name: "forked",
    }
}

/// What `fork` returns to the parent: the child's id.
pub fn fork_result(new_id: TaskId) -> (r: SyscallResult)
    ensures
        r == new_id as isize,
{
    #[verifier::truncate] (new_id as isize)
}

/// The value a forked child sees `fork` return: its saved registers are the
/// parent's, with 0 in `rax`.
pub fn child_registers(parent_regs: &PtRegs) -> (r: PtRegs)
    ensures
        r == (PtRegs { rax: 0, ..*parent_regs }),
{
    let mut r = *parent_regs;
    r.rax = 0;
    r
}

/// The first step of `fork`: `ENOMEM` when no task runs, `EAGAIN` when no
/// task identifier is free, else the identifier of the child, which is
/// taken.
pub fn fork_begin(sched: &mut Scheduler) -> (r: Result<TaskId, SyscallResult>)
    ensures
        final(sched).queue_view() == old(sched).queue_view(),
        final(sched).current_view() == old(sched).current_view(),
        final(sched).initialized_view() == old(sched).initialized_view(),
        old(sched).current_view() is None ==> r == Err::<TaskId, SyscallResult>(errno_value(Errno::ENOMEM))
            && final(sched).ids_view() == old(sched).ids_view(),
        old(sched).current_view() is Some ==> {
            &&& alloc_outcome(
                old(sched).ids_view(),
                final(sched).ids_view(),
                match r {
                    Ok(id) => Some(id),
                    Err(_) => None,
                },
            )
            &&& r is Err ==> r == Err::<TaskId, SyscallResult>(errno_value(Errno::EAGAIN))
        },
{
    if sched.current_task().is_none() {
        return Err(Errno::ENOMEM.as_isize());
    }
    match sched.alloc_task_id() {
        Some(id) => Ok(id),
        None => Err(Errno::EAGAIN.as_isize()),
    }
}

/// `fork` gives up after taking identifier `new_id` (no memory was left for
/// the child): the identifier is freed and the result is `EAGAIN`.
pub fn fork_abort(sched: &mut Scheduler, new_id: TaskId) -> (r: SyscallResult)
    ensures
        r == errno_value(Errno::EAGAIN),
        final(sched).ids_view() == free_bits(old(sched).ids_view(), new_id),
        final(sched).queue_view() == old(sched).queue_view(),
        final(sched).current_view() == old(sched).current_view(),
        final(sched).initialized_view() == old(sched).initialized_view(),
{
    sched.free_task_id(new_id);
    Errno::EAGAIN.as_isize()
}

/// The last step of `fork`: the child is added, ready, at the end of the
/// queue, and the parent is given the child's identifier.
pub fn fork_commit(sched: &mut Scheduler, child: Task) -> (r: SyscallResult)
    requires
        old(sched).wf(),
        task_count(old(sched).queue_view(), old(sched).current_view()) < usize::MAX,
    ensures
        r == child.id as isize,
        final(sched).wf(),
        final(sched).queue_view() == old(sched).queue_view().push(with_state(child, TaskState::Ready)),
        final(sched).current_view() == old(sched).current_view(),
        final(sched).ids_view() == old(sched).ids_view(),
        final(sched).initialized_view() == old(sched).initialized_view(),
{
    let id = child.id;
    sched.add_task(child);
    fork_result(id)
}

} // verus!
