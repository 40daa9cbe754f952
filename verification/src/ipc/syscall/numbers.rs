//! System-call numbers, error numbers and standard file descriptors.
use vstd::prelude::*;

verus! {

/// The value a system call returns in `rax`.
pub type SyscallResult = isize;

/// System calls, numbered in the order of the system-call table.
#[derive(Debug, Clone, Copy, PartialEq, Eq, Structural)]
pub enum SyscallNumber {
    SysExit,
    SysWrite,
    SysRead,
    SysOpen,
    SysClose,
    SysGetPid,
    SysGetPpid,
    SysFork,
    SysExecve,
    SysGetuid,
    SysGetgid,
    SysSetuid,
    SysSetgid,
}

/// Number of entries in the system-call table.
pub const NR_SYSCALLS: usize = 13;

/// The number of each system call.
pub open spec fn syscall_number(s: SyscallNumber) -> usize {
    match s {
        SyscallNumber::SysExit => 0,
        SyscallNumber::SysWrite => 1,
        SyscallNumber::SysRead => 2,
        SyscallNumber::SysOpen => 3,
        SyscallNumber::SysClose => 4,
        SyscallNumber::SysGetPid => 5,
        SyscallNumber::SysGetPpid => 6,
        SyscallNumber::SysFork => 7,
        SyscallNumber::SysExecve => 8,
        SyscallNumber::SysGetuid => 9,
        SyscallNumber::SysGetgid => 10,
        SyscallNumber::SysSetuid => 11,
        SyscallNumber::SysSetgid => 12,
    }
}

impl SyscallNumber {
    /// Returns the number of the system call.
    pub fn number(&self) -> (r: usize)
        ensures
            r == syscall_number(*self),
    {
        match self {
            SyscallNumber::SysExit => 0,
            SyscallNumber::SysWrite => 1,
            SyscallNumber::SysRead => 2,
            SyscallNumber::SysOpen => 3,
            SyscallNumber::SysClose => 4,
            SyscallNumber::SysGetPid => 5,
            SyscallNumber::SysGetPpid => 6,
            SyscallNumber::SysFork => 7,
            SyscallNumber::SysExecve => 8,
            SyscallNumber::SysGetuid => 9,
            SyscallNumber::SysGetgid => 10,
            SyscallNumber::SysSetuid => 11,
            SyscallNumber::SysSetgid => 12,
        }
    }

    /// The system call numbered `n`, if there is one.
    pub fn from_usize(n: usize) -> (r: Option<SyscallNumber>)
        ensures
            match r {
                Some(s) => syscall_number(s) == n,
                None => n >= NR_SYSCALLS,
            },
            n >= 13 ==> r is None,
    {
        match n {
            0 => Some(SyscallNumber::SysExit),
            1 => Some(SyscallNumber::SysWrite),
            2 => Some(SyscallNumber::SysRead),
            3 => Some(SyscallNumber::SysOpen),
            4 => Some(SyscallNumber::SysClose),
            5 => Some(SyscallNumber::SysGetPid),
            6 => Some(SyscallNumber::SysGetPpid),
            7 => Some(SyscallNumber::SysFork),
            8 => Some(SyscallNumber::SysExecve),
            9 => Some(SyscallNumber::SysGetuid),
            10 => Some(SyscallNumber::SysGetgid),
            11 => Some(SyscallNumber::SysSetuid),
            12 => Some(SyscallNumber::SysSetgid),
            _ => None,
        }
    }
}

/// Each system call has its own number, below the size of the table; so the
/// call that `from_usize` gives for the number of `s` is `s`.
pub proof fn lemma_syscall_numbers(s: SyscallNumber, t: SyscallNumber)
    ensures
        syscall_number(s) < NR_SYSCALLS,
        syscall_number(s) == syscall_number(t) ==> s == t,
{
}

/// The number of each system call is its position in the system-call
/// table: exit 0, write 1, read 2, open 3, close 4, getpid 5, getppid 6,
/// fork 7, execve 8, getuid 9, getgid 10, setuid 11, setgid 12.
pub proof fn lemma_syscall_table_positions()
    ensures
        syscall_number(SyscallNumber::SysExit) == 0,
        syscall_number(SyscallNumber::SysWrite) == 1,
        syscall_number(SyscallNumber::SysRead) == 2,
        syscall_number(SyscallNumber::SysOpen) == 3,
        syscall_number(SyscallNumber::SysClose) == 4,
        syscall_number(SyscallNumber::SysGetPid) == 5,
        syscall_number(SyscallNumber::SysGetPpid) == 6,
        syscall_number(SyscallNumber::SysFork) == 7,
        syscall_number(SyscallNumber::SysExecve) == 8,
        syscall_number(SyscallNumber::SysGetuid) == 9,
        syscall_number(SyscallNumber::SysGetgid) == 10,
        syscall_number(SyscallNumber::SysSetuid) == 11,
        syscall_number(SyscallNumber::SysSetgid) == 12,
{
}

/// Error numbers returned by system calls.
#[derive(Debug, Clone, Copy, PartialEq, Eq, Structural)]
pub enum Errno {
    Success,
    EBADF,
    EAGAIN,
    ENOMEM,
    EINVAL,
    ENOSYS,
}

/// The value a system call returns for each error: 0 for success, else the
/// negated error number.
pub open spec fn errno_value(e: Errno) -> isize {
    match e {
        Errno::Success => 0isize,
        Errno::EBADF => -9isize,
        Errno::EAGAIN => -11isize,
        Errno::ENOMEM => -12isize,
        Errno::EINVAL => -22isize,
        Errno::ENOSYS => -38isize,
    }
}

impl Errno {
    /// Returns the value a system call returns for this error.
    pub fn as_isize(&self) -> (r: isize)
        ensures
            r == errno_value(*self),
    {
        match self {
            Errno::Success => 0,
            Errno::EBADF => -9,
            Errno::EAGAIN => -11,
            Errno::ENOMEM => -12,
            Errno::EINVAL => -22,
            Errno::ENOSYS => -38,
        }
    }
}

/// The standard file descriptors.
#[derive(Debug, Clone, Copy, PartialEq, Eq, Structural)]
pub enum FileDescriptor {
    Stdin,
    Stdout,
    Stderr,
}

impl FileDescriptor {
    /// The standard descriptor numbered `fd` (0, 1 or 2), if it is one.
    pub fn from_usize(fd: usize) -> (r: Option<FileDescriptor>)
        ensures
            r == (if fd == 0 {
                Some(FileDescriptor::Stdin)
            } else if fd == 1 {
                Some(FileDescriptor::Stdout)
            } else if fd == 2 {
                Some(FileDescriptor::Stderr)
            } else {
                None
            }),
    {
        match fd {
            0 => Some(FileDescriptor::Stdin),
            1 => Some(FileDescriptor::Stdout),
            2 => Some(FileDescriptor::Stderr),
            _ => None,
        }
    }
}

/// The values that system calls return for each error: 0 for success and
/// the negated Linux error number otherwise (`EBADF` 9, `EAGAIN` 11,
/// `ENOMEM` 12, `EINVAL` 22, `ENOSYS` 38).
pub proof fn lemma_errno_values()
    ensures
        errno_value(Errno::Success) == 0,
        errno_value(Errno::EBADF) == -9,
        errno_value(Errno::EAGAIN) == -11,
        errno_value(Errno::ENOMEM) == -12,
        errno_value(Errno::EINVAL) == -22,
        errno_value(Errno::ENOSYS) == -38,
{
}

} // verus!
