//! Kernel error types.
//!
//! One error enum for the whole kernel: every subsystem reports its failures
//! as a `KernelError`, and file-system errors convert into it.
use vstd::prelude::*;
use vstd::string::StringExecFns;
use crate::fs::inode::VfsError;

verus! {

/// Unified error type for the entire kernel.
#[derive(Debug, Clone, Copy, PartialEq, Eq)]
pub enum KernelError {
    /// Out of memory - no more pages available
    OutOfMemory,
    /// Invalid memory address
    InvalidAddress,
    /// Page fault occurred
    PageFault,
    /// Invalid page alignment
    InvalidAlignment,
    /// Memory manager not initialized
    MemoryNotInitialized,
    /// File or directory not found
    NotFound,
    /// Permission denied
    PermissionDenied,
    /// File or directory already exists
    Exists,
    /// Directory not empty
    NotEmpty,
    /// Path component is a directory when a file was expected
    IsDirectory,
    /// Path component is a file when a directory was expected
    NotADirectory,
    /// File too large
    FileTooLarge,
    /// No space left on device
    NoSpaceLeft,
    /// Invalid filename
    InvalidFilename,
    /// Invalid seek position
    InvalidSeek,
    /// Operation not supported by this filesystem/inode
    OperationNotSupported,
    /// Generic I/O error
    IoError,
    /// Resource is busy
    Busy,
    /// Too many open files
    TooManyOpenFiles,
    /// Invalid file descriptor
    BadFileDescriptor,
    /// Task not found
    TaskNotFound,
    /// Task already running
    TaskAlreadyRunning,
    /// Task is in wrong state for operation
    InvalidTaskState,
    /// Scheduler is full
    SchedulerFull,
    /// Failed to allocate task stack
    StackAllocationFailed,
    /// Failed to create idle task
    IdleTaskCreationFailed,
    /// Invalid syscall number
    InvalidSyscall,
    /// Syscall not implemented
    SyscallNotImplemented,
    /// Argument out of range
    InvalidArgument,
    /// Initialization failed with a reason string
    InitFailed(&'static str),
    /// Driver initialization failed
    DriverFailed(&'static str),
    /// Memory initialization failed
    MemoryInitFailed(&'static str),
    /// Task initialization failed
    TaskInitFailed(&'static str),
    /// TSS initialization failed
    TssInitFailed,
    /// GDT initialization failed
    GdtInitFailed,
    /// IDT initialization failed
    IdtInitFailed,
    /// Interrupt handling error
    InterruptError,
    /// Operation not implemented yet
    NotImplemented,
    /// Invalid state - operation called at wrong time
    InvalidState,
    /// Something went wrong (generic fallback)
    Unknown,
    /// Device not found
    DeviceNotFound,
    /// Device error
    DeviceError(&'static str),
    /// Device not ready
    DeviceNotReady,
    /// Buffer too small
    BufferTooSmall,
}

/// Result type of kernel operations.
pub type KernelResult<T> = Result<T, KernelError>;

/// The name of the category of an error: the name of the variant.
pub open spec fn category_name(e: KernelError) -> Seq<char> {
    match e {
        KernelError::OutOfMemory => "OutOfMemory"@,
        KernelError::InvalidAddress => "InvalidAddress"@,
        KernelError::PageFault => "PageFault"@,
        KernelError::InvalidAlignment => "InvalidAlignment"@,
        KernelError::MemoryNotInitialized => "MemoryNotInitialized"@,
        KernelError::NotFound => "NotFound"@,
        KernelError::PermissionDenied => "PermissionDenied"@,
        KernelError::Exists => "Exists"@,
        KernelError::NotEmpty => "NotEmpty"@,
        KernelError::IsDirectory => "IsDirectory"@,
        KernelError::NotADirectory => "NotADirectory"@,
        KernelError::FileTooLarge => "FileTooLarge"@,
        KernelError::NoSpaceLeft => "NoSpaceLeft"@,
        KernelError::InvalidFilename => "InvalidFilename"@,
        KernelError::InvalidSeek => "InvalidSeek"@,
        KernelError::OperationNotSupported => "OperationNotSupported"@,
        KernelError::IoError => "IoError"@,
        KernelError::Busy => "Busy"@,
        KernelError::TooManyOpenFiles => "TooManyOpenFiles"@,
        KernelError::BadFileDescriptor => "BadFileDescriptor"@,
        KernelError::TaskNotFound => "TaskNotFound"@,
        KernelError::TaskAlreadyRunning => "TaskAlreadyRunning"@,
        KernelError::InvalidTaskState => "InvalidTaskState"@,
        KernelError::SchedulerFull => "SchedulerFull"@,
        KernelError::StackAllocationFailed => "StackAllocationFailed"@,
        KernelError::IdleTaskCreationFailed => "IdleTaskCreationFailed"@,
        KernelError::InvalidSyscall => "InvalidSyscall"@,
        KernelError::SyscallNotImplemented => "SyscallNotImplemented"@,
        KernelError::InvalidArgument => "InvalidArgument"@,
        KernelError::InitFailed(_) => "InitFailed"@,
        KernelError::DriverFailed(_) => "DriverFailed"@,
        KernelError::MemoryInitFailed(_) => "MemoryInitFailed"@,
        KernelError::TaskInitFailed(_) => "TaskInitFailed"@,
        KernelError::TssInitFailed => "TssInitFailed"@,
        KernelError::GdtInitFailed => "GdtInitFailed"@,
        KernelError::IdtInitFailed => "IdtInitFailed"@,
        KernelError::InterruptError => "InterruptError"@,
        KernelError::NotImplemented => "NotImplemented"@,
        KernelError::InvalidState => "InvalidState"@,
        KernelError::Unknown => "Unknown"@,
        KernelError::DeviceNotFound => "DeviceNotFound"@,
        KernelError::DeviceError(_) => "DeviceError"@,
        KernelError::DeviceNotReady => "DeviceNotReady"@,
        KernelError::BufferTooSmall => "BufferTooSmall"@,
    }
}

/// The position of each variant in the declaration of `KernelError`, the
/// payload left aside.
pub open spec fn variant_index(e: KernelError) -> int {
    match e {
        KernelError::OutOfMemory => 0,
        KernelError::InvalidAddress => 1,
        KernelError::PageFault => 2,
        KernelError::InvalidAlignment => 3,
        KernelError::MemoryNotInitialized => 4,
        KernelError::NotFound => 5,
        KernelError::PermissionDenied => 6,
        KernelError::Exists => 7,
        KernelError::NotEmpty => 8,
        KernelError::IsDirectory => 9,
        KernelError::NotADirectory => 10,
        KernelError::FileTooLarge => 11,
        KernelError::NoSpaceLeft => 12,
        KernelError::InvalidFilename => 13,
        KernelError::InvalidSeek => 14,
        KernelError::OperationNotSupported => 15,
        KernelError::IoError => 16,
        KernelError::Busy => 17,
        KernelError::TooManyOpenFiles => 18,
        KernelError::BadFileDescriptor => 19,
        KernelError::TaskNotFound => 20,
        KernelError::TaskAlreadyRunning => 21,
        KernelError::InvalidTaskState => 22,
        KernelError::SchedulerFull => 23,
        KernelError::StackAllocationFailed => 24,
        KernelError::IdleTaskCreationFailed => 25,
        KernelError::InvalidSyscall => 26,
        KernelError::SyscallNotImplemented => 27,
        KernelError::InvalidArgument => 28,
        KernelError::InitFailed(_) => 29,
        KernelError::DriverFailed(_) => 30,
        KernelError::MemoryInitFailed(_) => 31,
        KernelError::TaskInitFailed(_) => 32,
        KernelError::TssInitFailed => 33,
        KernelError::GdtInitFailed => 34,
        KernelError::IdtInitFailed => 35,
        KernelError::InterruptError => 36,
        KernelError::NotImplemented => 37,
        KernelError::InvalidState => 38,
        KernelError::Unknown => 39,
        KernelError::DeviceNotFound => 40,
        KernelError::DeviceError(_) => 41,
        KernelError::DeviceNotReady => 42,
        KernelError::BufferTooSmall => 43,
    }
}

/// Categories name the variants one to one: two errors have the same
/// category exactly when they are the same variant, whatever their payloads.
pub proof fn lemma_category_names_distinct(e1: KernelError, e2: KernelError)
    ensures
        category_name(e1) == category_name(e2) <==> variant_index(e1) == variant_index(e2),
{
    reveal_strlit("OutOfMemory");
    reveal_strlit("InvalidAddress");
    reveal_strlit("PageFault");
    reveal_strlit("InvalidAlignment");
    reveal_strlit("MemoryNotInitialized");
    reveal_strlit("NotFound");
    reveal_strlit("PermissionDenied");
    reveal_strlit("Exists");
    reveal_strlit("NotEmpty");
    reveal_strlit("IsDirectory");
    reveal_strlit("NotADirectory");
    reveal_strlit("FileTooLarge");
    reveal_strlit("NoSpaceLeft");
    reveal_strlit("InvalidFilename");
    reveal_strlit("InvalidSeek");
    reveal_strlit("OperationNotSupported");
    reveal_strlit("IoError");
    reveal_strlit("Busy");
    reveal_strlit("TooManyOpenFiles");
    reveal_strlit("BadFileDescriptor");
    reveal_strlit("TaskNotFound");
    reveal_strlit("TaskAlreadyRunning");
    reveal_strlit("InvalidTaskState");
    reveal_strlit("SchedulerFull");
    reveal_strlit("StackAllocationFailed");
    reveal_strlit("IdleTaskCreationFailed");
    reveal_strlit("InvalidSyscall");
    reveal_strlit("SyscallNotImplemented");
    reveal_strlit("InvalidArgument");
    reveal_strlit("InitFailed");
    reveal_strlit("DriverFailed");
    reveal_strlit("MemoryInitFailed");
    reveal_strlit("TaskInitFailed");
    reveal_strlit("TssInitFailed");
    reveal_strlit("GdtInitFailed");
    reveal_strlit("IdtInitFailed");
    reveal_strlit("InterruptError");
    reveal_strlit("NotImplemented");
    reveal_strlit("InvalidState");
    reveal_strlit("Unknown");
    reveal_strlit("DeviceNotFound");
    reveal_strlit("DeviceError");
    reveal_strlit("DeviceNotReady");
    reveal_strlit("BufferTooSmall");
    if variant_index(e1) != variant_index(e2) {
        let a = category_name(e1);
        let b = category_name(e2);
        if a.len() == b.len() {
            // Same length: the names differ at some position.
            assert(a[0] != b[0] || a[1] != b[1] || a[2] != b[2] || a[3] != b[3] || a[4] != b[4]
                || a[5] != b[5] || a[6] != b[6] || a[7] != b[7] || a[8] != b[8] || a[9] != b[9]
                || a[10] != b[10] || a[11] != b[11] || a[12] != b[12] || a[13] != b[13] || a[14] != b[14]
                || a[15] != b[15] || a[16] != b[16] || a[17] != b[17] || a[18] != b[18] || a[19] != b[19]
                || a[20] != b[20] || a[21] != b[21]);
        }
    }
}

/// The human-readable message of an error; a reason string carried by the
/// error is appended to its fixed prefix.
pub open spec fn message_text(e: KernelError) -> Seq<char> {
    match e {
        KernelError::OutOfMemory => "Out of memory"@,
        KernelError::InvalidAddress => "Invalid memory address"@,
        KernelError::PageFault => "Page fault occurred"@,
        KernelError::InvalidAlignment => "Invalid memory alignment"@,
        KernelError::MemoryNotInitialized => "Memory manager not initialized"@,
        KernelError::NotFound => "File or directory not found"@,
        KernelError::PermissionDenied => "Permission denied"@,
        KernelError::Exists => "File or directory already exists"@,
        KernelError::NotEmpty => "Directory not empty"@,
        KernelError::IsDirectory => "Is a directory"@,
        KernelError::NotADirectory => "Not a directory"@,
        KernelError::FileTooLarge => "File too large"@,
        KernelError::NoSpaceLeft => "No space left on device"@,
        KernelError::InvalidFilename => "Invalid filename"@,
        KernelError::InvalidSeek => "Invalid seek position"@,
        KernelError::OperationNotSupported => "Operation not supported"@,
        KernelError::IoError => "I/O error"@,
        KernelError::Busy => "Resource busy"@,
        KernelError::TooManyOpenFiles => "Too many open files"@,
        KernelError::BadFileDescriptor => "Bad file descriptor"@,
        KernelError::TaskNotFound => "Task not found"@,
        KernelError::TaskAlreadyRunning => "Task already running"@,
        KernelError::InvalidTaskState => "Invalid task state"@,
        KernelError::SchedulerFull => "Scheduler is full"@,
        KernelError::StackAllocationFailed => "Failed to allocate task stack"@,
        KernelError::IdleTaskCreationFailed => "Failed to create idle task"@,
        KernelError::InvalidSyscall => "Invalid syscall number"@,
        KernelError::SyscallNotImplemented => "Syscall not implemented"@,
        KernelError::InvalidArgument => "Invalid argument"@,
        KernelError::InitFailed(msg) => "Initialization failed: "@ + msg@,
        KernelError::DriverFailed(msg) => "Driver failed: "@ + msg@,
        KernelError::MemoryInitFailed(msg) => "Memory init failed: "@ + msg@,
        KernelError::TaskInitFailed(msg) => "Task init failed: "@ + msg@,
        KernelError::TssInitFailed => "TSS initialization failed"@,
        KernelError::GdtInitFailed => "GDT initialization failed"@,
        KernelError::IdtInitFailed => "IDT initialization failed"@,
        KernelError::InterruptError => "Interrupt handling error"@,
        KernelError::NotImplemented => "Operation not implemented"@,
        KernelError::InvalidState => "Invalid state"@,
        KernelError::Unknown => "Unknown error"@,
        KernelError::DeviceNotFound => "Device not found"@,
        KernelError::DeviceError(msg) => "Device error: "@ + msg@,
        KernelError::DeviceNotReady => "Device not ready"@,
        KernelError::BufferTooSmall => "Buffer too small"@,
    }
}

/// The short description used for error chaining.
pub open spec fn description_text(e: KernelError) -> Seq<char> {
    match e {
        KernelError::OutOfMemory => "out of memory"@,
        KernelError::NotFound => "not found"@,
        KernelError::PermissionDenied => "permission denied"@,
        _ => "kernel error"@,
    }
}

impl KernelError {
    /// Returns the name of the category of the error.
    pub fn category(&self) -> (r: &'static str)
        ensures
            r@ == category_name(*self),
    {
        match self {
            Self::OutOfMemory => "OutOfMemory",
            Self::InvalidAddress => "InvalidAddress",
            Self::PageFault => "PageFault",
            Self::InvalidAlignment => "InvalidAlignment",
            Self::MemoryNotInitialized => "MemoryNotInitialized",
            Self::NotFound => "NotFound",
            Self::PermissionDenied => "PermissionDenied",
            Self::Exists => "Exists",
            Self::NotEmpty => "NotEmpty",
            Self::IsDirectory => "IsDirectory",
            Self::NotADirectory => "NotADirectory",
            Self::FileTooLarge => "FileTooLarge",
            Self::NoSpaceLeft => "NoSpaceLeft",
            Self::InvalidFilename => "InvalidFilename",
            Self::InvalidSeek => "InvalidSeek",
            Self::OperationNotSupported => "OperationNotSupported",
            Self::IoError => "IoError",
            Self::Busy => "Busy",
            Self::TooManyOpenFiles => "TooManyOpenFiles",
            Self::BadFileDescriptor => "BadFileDescriptor",
            Self::TaskNotFound => "TaskNotFound",
            Self::TaskAlreadyRunning => "TaskAlreadyRunning",
            Self::InvalidTaskState => "InvalidTaskState",
            Self::SchedulerFull => "SchedulerFull",
            Self::StackAllocationFailed => "StackAllocationFailed",
            Self::IdleTaskCreationFailed => "IdleTaskCreationFailed",
            Self::InvalidSyscall => "InvalidSyscall",
            Self::SyscallNotImplemented => "SyscallNotImplemented",
            Self::InvalidArgument => "InvalidArgument",
            Self::InitFailed(_) => "InitFailed",
            Self::DriverFailed(_) => "DriverFailed",
            Self::MemoryInitFailed(_) => "MemoryInitFailed",
            Self::TaskInitFailed(_) => "TaskInitFailed",
            Self::TssInitFailed => "TssInitFailed",
            Self::GdtInitFailed => "GdtInitFailed",
            Self::IdtInitFailed => "IdtInitFailed",
            Self::InterruptError => "InterruptError",
            Self::NotImplemented => "NotImplemented",
            Self::InvalidState => "InvalidState",
            Self::Unknown => "Unknown",
            Self::DeviceNotFound => "DeviceNotFound",
            Self::DeviceError(_) => "DeviceError",
            Self::DeviceNotReady => "DeviceNotReady",
            Self::BufferTooSmall => "BufferTooSmall",
        }
    }

    /// Returns the human-readable message of the error.
    pub fn message(&self) -> (r: String)
        ensures
            r@ == message_text(*self),
    {
        match self {
            Self::OutOfMemory => String::from_str("Out of memory"),
            Self::InvalidAddress => String::from_str("Invalid memory address"),
            Self::PageFault => String::from_str("Page fault occurred"),
            Self::InvalidAlignment => String::from_str("Invalid memory alignment"),
            Self::MemoryNotInitialized => String::from_str("Memory manager not initialized"),
            Self::NotFound => String::from_str("File or directory not found"),
            Self::PermissionDenied => String::from_str("Permission denied"),
            Self::Exists => String::from_str("File or directory already exists"),
            Self::NotEmpty => String::from_str("Directory not empty"),
            Self::IsDirectory => String::from_str("Is a directory"),
            Self::NotADirectory => String::from_str("Not a directory"),
            Self::FileTooLarge => String::from_str("File too large"),
            Self::NoSpaceLeft => String::from_str("No space left on device"),
            Self::InvalidFilename => String::from_str("Invalid filename"),
            Self::InvalidSeek => String::from_str("Invalid seek position"),
            Self::OperationNotSupported => String::from_str("Operation not supported"),
            Self::IoError => String::from_str("I/O error"),
            Self::Busy => String::from_str("Resource busy"),
            Self::TooManyOpenFiles => String::from_str("Too many open files"),
            Self::BadFileDescriptor => String::from_str("Bad file descriptor"),
            Self::TaskNotFound => String::from_str("Task not found"),
            Self::TaskAlreadyRunning => String::from_str("Task already running"),
            Self::InvalidTaskState => String::from_str("Invalid task state"),
            Self::SchedulerFull => String::from_str("Scheduler is full"),
            Self::StackAllocationFailed => String::from_str("Failed to allocate task stack"),
            Self::IdleTaskCreationFailed => String::from_str("Failed to create idle task"),
            Self::InvalidSyscall => String::from_str("Invalid syscall number"),
            Self::SyscallNotImplemented => String::from_str("Syscall not implemented"),
            Self::InvalidArgument => String::from_str("Invalid argument"),
            Self::InitFailed(msg) => String::from_str("Initialization failed: ").concat(msg),
            Self::DriverFailed(msg) => String::from_str("Driver failed: ").concat(msg),
            Self::MemoryInitFailed(msg) => String::from_str("Memory init failed: ").concat(msg),
            Self::TaskInitFailed(msg) => String::from_str("Task init failed: ").concat(msg),
            Self::TssInitFailed => String::from_str("TSS initialization failed"),
            Self::GdtInitFailed => String::from_str("GDT initialization failed"),
            Self::IdtInitFailed => String::from_str("IDT initialization failed"),
            Self::InterruptError => String::from_str("Interrupt handling error"),
            Self::NotImplemented => String::from_str("Operation not implemented"),
            Self::InvalidState => String::from_str("Invalid state"),
            Self::Unknown => String::from_str("Unknown error"),
            Self::DeviceNotFound => String::from_str("Device not found"),
            Self::DeviceError(msg) => String::from_str("Device error: ").concat(msg),
            Self::DeviceNotReady => String::from_str("Device not ready"),
            Self::BufferTooSmall => String::from_str("Buffer too small"),
        }
    }

    /// Returns a short description of the error.
    pub fn description(&self) -> (r: &'static str)
        ensures
            r@ == description_text(*self),
    {
        match self {
            Self::OutOfMemory => "out of memory",
            Self::NotFound => "not found",
            Self::PermissionDenied => "permission denied",
            _ => "kernel error",
        }
    }
}

/// The category of each error is the name of its variant, whatever its
/// payload.
pub proof fn lemma_category_names(msg: &'static str)
    ensures
        category_name(KernelError::OutOfMemory) == "OutOfMemory"@,
        category_name(KernelError::InvalidAddress) == "InvalidAddress"@,
        category_name(KernelError::PageFault) == "PageFault"@,
        category_name(KernelError::InvalidAlignment) == "InvalidAlignment"@,
        category_name(KernelError::MemoryNotInitialized) == "MemoryNotInitialized"@,
        category_name(KernelError::NotFound) == "NotFound"@,
        category_name(KernelError::PermissionDenied) == "PermissionDenied"@,
        category_name(KernelError::Exists) == "Exists"@,
        category_name(KernelError::NotEmpty) == "NotEmpty"@,
        category_name(KernelError::IsDirectory) == "IsDirectory"@,
        category_name(KernelError::NotADirectory) == "NotADirectory"@,
        category_name(KernelError::FileTooLarge) == "FileTooLarge"@,
        category_name(KernelError::NoSpaceLeft) == "NoSpaceLeft"@,
        category_name(KernelError::InvalidFilename) == "InvalidFilename"@,
        category_name(KernelError::InvalidSeek) == "InvalidSeek"@,
        category_name(KernelError::OperationNotSupported) == "OperationNotSupported"@,
        category_name(KernelError::IoError) == "IoError"@,
        category_name(KernelError::Busy) == "Busy"@,
        category_name(KernelError::TooManyOpenFiles) == "TooManyOpenFiles"@,
        category_name(KernelError::BadFileDescriptor) == "BadFileDescriptor"@,
        category_name(KernelError::TaskNotFound) == "TaskNotFound"@,
        category_name(KernelError::TaskAlreadyRunning) == "TaskAlreadyRunning"@,
        category_name(KernelError::InvalidTaskState) == "InvalidTaskState"@,
        category_name(KernelError::SchedulerFull) == "SchedulerFull"@,
        category_name(KernelError::StackAllocationFailed) == "StackAllocationFailed"@,
        category_name(KernelError::IdleTaskCreationFailed) == "IdleTaskCreationFailed"@,
        category_name(KernelError::InvalidSyscall) == "InvalidSyscall"@,
        category_name(KernelError::SyscallNotImplemented) == "SyscallNotImplemented"@,
        category_name(KernelError::InvalidArgument) == "InvalidArgument"@,
        category_name(KernelError::InitFailed(msg)) == "InitFailed"@,
        category_name(KernelError::DriverFailed(msg)) == "DriverFailed"@,
        category_name(KernelError::MemoryInitFailed(msg)) == "MemoryInitFailed"@,
        category_name(KernelError::TaskInitFailed(msg)) == "TaskInitFailed"@,
        category_name(KernelError::TssInitFailed) == "TssInitFailed"@,
        category_name(KernelError::GdtInitFailed) == "GdtInitFailed"@,
        category_name(KernelError::IdtInitFailed) == "IdtInitFailed"@,
        category_name(KernelError::InterruptError) == "InterruptError"@,
        category_name(KernelError::NotImplemented) == "NotImplemented"@,
        category_name(KernelError::InvalidState) == "InvalidState"@,
        category_name(KernelError::Unknown) == "Unknown"@,
        category_name(KernelError::DeviceNotFound) == "DeviceNotFound"@,
        category_name(KernelError::DeviceError(msg)) == "DeviceError"@,
        category_name(KernelError::DeviceNotReady) == "DeviceNotReady"@,
        category_name(KernelError::BufferTooSmall) == "BufferTooSmall"@,
{
}

/// The message of each error: a fixed text, followed by the reason for the
/// errors that carry one.
pub proof fn lemma_messages(msg: &'static str)
    ensures
        message_text(KernelError::OutOfMemory) == "Out of memory"@,
        message_text(KernelError::InvalidAddress) == "Invalid memory address"@,
        message_text(KernelError::PageFault) == "Page fault occurred"@,
        message_text(KernelError::InvalidAlignment) == "Invalid memory alignment"@,
        message_text(KernelError::MemoryNotInitialized) == "Memory manager not initialized"@,
        message_text(KernelError::NotFound) == "File or directory not found"@,
        message_text(KernelError::PermissionDenied) == "Permission denied"@,
        message_text(KernelError::Exists) == "File or directory already exists"@,
        message_text(KernelError::NotEmpty) == "Directory not empty"@,
        message_text(KernelError::IsDirectory) == "Is a directory"@,
        message_text(KernelError::NotADirectory) == "Not a directory"@,
        message_text(KernelError::FileTooLarge) == "File too large"@,
        message_text(KernelError::NoSpaceLeft) == "No space left on device"@,
        message_text(KernelError::InvalidFilename) == "Invalid filename"@,
        message_text(KernelError::InvalidSeek) == "Invalid seek position"@,
        message_text(KernelError::OperationNotSupported) == "Operation not supported"@,
        message_text(KernelError::IoError) == "I/O error"@,
        message_text(KernelError::Busy) == "Resource busy"@,
        message_text(KernelError::TooManyOpenFiles) == "Too many open files"@,
        message_text(KernelError::BadFileDescriptor) == "Bad file descriptor"@,
        message_text(KernelError::TaskNotFound) == "Task not found"@,
        message_text(KernelError::TaskAlreadyRunning) == "Task already running"@,
        message_text(KernelError::InvalidTaskState) == "Invalid task state"@,
        message_text(KernelError::SchedulerFull) == "Scheduler is full"@,
        message_text(KernelError::StackAllocationFailed) == "Failed to allocate task stack"@,
        message_text(KernelError::IdleTaskCreationFailed) == "Failed to create idle task"@,
        message_text(KernelError::InvalidSyscall) == "Invalid syscall number"@,
        message_text(KernelError::SyscallNotImplemented) == "Syscall not implemented"@,
        message_text(KernelError::InvalidArgument) == "Invalid argument"@,
        message_text(KernelError::InitFailed(msg)) == "Initialization failed: "@ + msg@,
        message_text(KernelError::DriverFailed(msg)) == "Driver failed: "@ + msg@,
        message_text(KernelError::MemoryInitFailed(msg)) == "Memory init failed: "@ + msg@,
        message_text(KernelError::TaskInitFailed(msg)) == "Task init failed: "@ + msg@,
        message_text(KernelError::TssInitFailed) == "TSS initialization failed"@,
        message_text(KernelError::GdtInitFailed) == "GDT initialization failed"@,
        message_text(KernelError::IdtInitFailed) == "IDT initialization failed"@,
        message_text(KernelError::InterruptError) == "Interrupt handling error"@,
        message_text(KernelError::NotImplemented) == "Operation not implemented"@,
        message_text(KernelError::InvalidState) == "Invalid state"@,
        message_text(KernelError::Unknown) == "Unknown error"@,
        message_text(KernelError::DeviceNotFound) == "Device not found"@,
        message_text(KernelError::DeviceError(msg)) == "Device error: "@ + msg@,
        message_text(KernelError::DeviceNotReady) == "Device not ready"@,
        message_text(KernelError::BufferTooSmall) == "Buffer too small"@,
{
}

/// The short description: "out of memory", "not found" and "permission
/// denied" for those three errors, "kernel error" for every other.
pub proof fn lemma_descriptions(e: KernelError)
    ensures
        description_text(e) == if e == KernelError::OutOfMemory {
            "out of memory"@
        } else if e == KernelError::NotFound {
            "not found"@
        } else if e == KernelError::PermissionDenied {
            "permission denied"@
        } else {
            "kernel error"@
        },
{
}

/// File-system error kinds, each of which maps to the kernel error of the same name.
#[derive(Debug, Clone, Copy, PartialEq, Eq, Structural)]
pub enum VfsErrorKind {
    NotFound,
    PermissionDenied,
    Exists,
    NotEmpty,
    IsDirectory,
    NotADirectory,
    FileTooLarge,
    NoSpaceLeft,
    InvalidFilename,
    InvalidSeek,
    OperationNotSupported,
    IoError,
    Busy,
}

/// The kernel error that a file-system error kind stands for.
pub open spec fn kind_to_kernel(k: VfsErrorKind) -> KernelError {
    match k {
        VfsErrorKind::NotFound => KernelError::NotFound,
        VfsErrorKind::PermissionDenied => KernelError::PermissionDenied,
        VfsErrorKind::Exists => KernelError::Exists,
        VfsErrorKind::NotEmpty => KernelError::NotEmpty,
        VfsErrorKind::IsDirectory => KernelError::IsDirectory,
        VfsErrorKind::NotADirectory => KernelError::NotADirectory,
        VfsErrorKind::FileTooLarge => KernelError::FileTooLarge,
        VfsErrorKind::NoSpaceLeft => KernelError::NoSpaceLeft,
        VfsErrorKind::InvalidFilename => KernelError::InvalidFilename,
        VfsErrorKind::InvalidSeek => KernelError::InvalidSeek,
        VfsErrorKind::OperationNotSupported => KernelError::OperationNotSupported,
        VfsErrorKind::IoError => KernelError::IoError,
        VfsErrorKind::Busy => KernelError::Busy,
    }
}

/// The kernel error that a file-system error stands for.
pub open spec fn vfs_error_to_kernel(e: VfsError) -> KernelError {
    match e {
        VfsError::NotFound => KernelError::NotFound,
        VfsError::PermissionDenied => KernelError::PermissionDenied,
        VfsError::Exists => KernelError::Exists,
        VfsError::NotEmpty => KernelError::NotEmpty,
        VfsError::IsDirectory => KernelError::IsDirectory,
        VfsError::NotADirectory => KernelError::NotADirectory,
        VfsError::FileTooLarge => KernelError::FileTooLarge,
        VfsError::NoSpaceLeft => KernelError::NoSpaceLeft,
        VfsError::InvalidFilename => KernelError::InvalidFilename,
        VfsError::InvalidSeek => KernelError::InvalidSeek,
        VfsError::OperationNotSupported => KernelError::OperationNotSupported,
        VfsError::IoError => KernelError::IoError,
        VfsError::Busy => KernelError::Busy,
    }
}

impl From<VfsErrorKind> for KernelError {
    fn from(err: VfsErrorKind) -> (r: Self) {
        match err {
            VfsErrorKind::NotFound => KernelError::NotFound,
            VfsErrorKind::PermissionDenied => KernelError::PermissionDenied,
            VfsErrorKind::Exists => KernelError::Exists,
            VfsErrorKind::NotEmpty => KernelError::NotEmpty,
            VfsErrorKind::IsDirectory => KernelError::IsDirectory,
            VfsErrorKind::NotADirectory => KernelError::NotADirectory,
            VfsErrorKind::FileTooLarge => KernelError::FileTooLarge,
            VfsErrorKind::NoSpaceLeft => KernelError::NoSpaceLeft,
            VfsErrorKind::InvalidFilename => KernelError::InvalidFilename,
            VfsErrorKind::InvalidSeek => KernelError::InvalidSeek,
            VfsErrorKind::OperationNotSupported => KernelError::OperationNotSupported,
            VfsErrorKind::IoError => KernelError::IoError,
            VfsErrorKind::Busy => KernelError::Busy,
        }
    }
}

impl vstd::std_specs::convert::FromSpecImpl<VfsErrorKind> for KernelError {
    open spec fn obeys_from_spec() -> bool {
        true
    }

    open spec fn from_spec(v: VfsErrorKind) -> KernelError {
        kind_to_kernel(v)
    }
}

/// Converts a result with a file-system error into a kernel result.
pub fn vfs_err_to_kernel<T>(res: Result<T, VfsError>) -> (r: KernelResult<T>)
    ensures
        match res {
            Ok(v) => r == Ok::<T, KernelError>(v),
            Err(e) => r == Err::<T, KernelError>(vfs_error_to_kernel(e)),
        },
{
    match res {
        Ok(v) => Ok(v),
        Err(e) => Err(
            match e {
                VfsError::NotFound => KernelError::NotFound,
                VfsError::PermissionDenied => KernelError::PermissionDenied,
                VfsError::Exists => KernelError::Exists,
                VfsError::NotEmpty => KernelError::NotEmpty,
                VfsError::IsDirectory => KernelError::IsDirectory,
                VfsError::NotADirectory => KernelError::NotADirectory,
                VfsError::FileTooLarge => KernelError::FileTooLarge,
                VfsError::NoSpaceLeft => KernelError::NoSpaceLeft,
                VfsError::InvalidFilename => KernelError::InvalidFilename,
                VfsError::InvalidSeek => KernelError::InvalidSeek,
                VfsError::OperationNotSupported => KernelError::OperationNotSupported,
                VfsError::IoError => KernelError::IoError,
                VfsError::Busy => KernelError::Busy,
            },
        ),
    }
}

/// Every file-system error, given as a kind or as a `VfsError`, becomes the
/// kernel error of the same name.
pub proof fn lemma_vfs_errors_keep_their_name()
    ensures
        kind_to_kernel(VfsErrorKind::NotFound) == KernelError::NotFound,
        vfs_error_to_kernel(VfsError::NotFound) == KernelError::NotFound,
        kind_to_kernel(VfsErrorKind::PermissionDenied) == KernelError::PermissionDenied,
        vfs_error_to_kernel(VfsError::PermissionDenied) == KernelError::PermissionDenied,
        kind_to_kernel(VfsErrorKind::Exists) == KernelError::Exists,
        vfs_error_to_kernel(VfsError::Exists) == KernelError::Exists,
        kind_to_kernel(VfsErrorKind::NotEmpty) == KernelError::NotEmpty,
        vfs_error_to_kernel(VfsError::NotEmpty) == KernelError::NotEmpty,
        kind_to_kernel(VfsErrorKind::IsDirectory) == KernelError::IsDirectory,
        vfs_error_to_kernel(VfsError::IsDirectory) == KernelError::IsDirectory,
        kind_to_kernel(VfsErrorKind::NotADirectory) == KernelError::NotADirectory,
        vfs_error_to_kernel(VfsError::NotADirectory) == KernelError::NotADirectory,
        kind_to_kernel(VfsErrorKind::FileTooLarge) == KernelError::FileTooLarge,
        vfs_error_to_kernel(VfsError::FileTooLarge) == KernelError::FileTooLarge,
        kind_to_kernel(VfsErrorKind::NoSpaceLeft) == KernelError::NoSpaceLeft,
        vfs_error_to_kernel(VfsError::NoSpaceLeft) == KernelError::NoSpaceLeft,
        kind_to_kernel(VfsErrorKind::InvalidFilename) == KernelError::InvalidFilename,
        vfs_error_to_kernel(VfsError::InvalidFilename) == KernelError::InvalidFilename,
        kind_to_kernel(VfsErrorKind::InvalidSeek) == KernelError::InvalidSeek,
        vfs_error_to_kernel(VfsError::InvalidSeek) == KernelError::InvalidSeek,
        kind_to_kernel(VfsErrorKind::OperationNotSupported) == KernelError::OperationNotSupported,
        vfs_error_to_kernel(VfsError::OperationNotSupported) == KernelError::OperationNotSupported,
        kind_to_kernel(VfsErrorKind::IoError) == KernelError::IoError,
        vfs_error_to_kernel(VfsError::IoError) == KernelError::IoError,
        kind_to_kernel(VfsErrorKind::Busy) == KernelError::Busy,
        vfs_error_to_kernel(VfsError::Busy) == KernelError::Busy,
{
}

} // verus!
