use rust_kernel::arch::userspace::{needs_cr3_switch, user_entry_frame, UserEntryFrame};
use rust_kernel::consts::USER_STACK_TOP;
use rust_kernel::drivers::block::BlockDevice;
use rust_kernel::error::{KernelError, KernelResult, VfsErrorKind};
use rust_kernel::fs::block_dev::{complete, sector_request, BlockDeviceInode};
use rust_kernel::fs::inode::{FileType, VfsError};
use rust_kernel::ipc::syscall::handler::{
    child_registers, dispatch, exit_code, fork_child, fork_result, fork_stack_layout, from_user_mode,
    should_log_syscall, sys_close, sys_execve, sys_getgid, sys_getpid, sys_getppid, sys_getuid, sys_open, sys_read,
    sys_setgid, sys_setuid, sys_write_result, syscall_args, unknown_syscall, SyscallArgs, FORK_TIME_SLICE,
};
use rust_kernel::ipc::syscall::numbers::{Errno, FileDescriptor, SyscallNumber, NR_SYSCALLS};
use rust_kernel::kernel::exec::elf::{parse_header, program_header, Elf64Phdr, PT_LOAD};
use rust_kernel::kernel::exec::loader::{enter_program, page_copy, segment_pages, user_stack_page, PageCopy};
use rust_kernel::kernel::scheduler::Scheduler;
use rust_kernel::kernel::task::{Task, TaskState};
use rust_kernel::mm::page_tables::{
    addr_of, address_space_copy_plan, flags_of, is_copied_on_fork, new_entry, process_l3_table, process_l4_table,
    table_copy_plan, CopyKind, CopyStep,
};
use rust_kernel::mm::vmm::{
    classify_fault, decode_fault, demand_page_wants_frame, handle_demand_page, should_report, DemandOutcome,
    FaultAction, FaultInfo, VmmState,
};
use rust_kernel::regs::PtRegs;

fn put(buf: &mut [u8], off: usize, bytes: &[u8]) {
    buf[off..off + bytes.len()].copy_from_slice(bytes);
}

fn sample_elf() -> Vec<u8> {
    let mut d = vec![0u8; 120];
    put(&mut d, 0, &[0x7f, b'E', b'L', b'F']);
    put(&mut d, 16, &2u16.to_le_bytes());
    put(&mut d, 18, &0x3Eu16.to_le_bytes());
    put(&mut d, 20, &1u32.to_le_bytes());
    put(&mut d, 24, &0x401000u64.to_le_bytes());
    put(&mut d, 32, &64u64.to_le_bytes());
    put(&mut d, 54, &56u16.to_le_bytes());
    put(&mut d, 56, &1u16.to_le_bytes());
    put(&mut d, 64, &1u32.to_le_bytes());
    put(&mut d, 68, &5u32.to_le_bytes());
    put(&mut d, 72, &0x1000u64.to_le_bytes());
    put(&mut d, 80, &0x400000u64.to_le_bytes());
    put(&mut d, 88, &0x400000u64.to_le_bytes());
    put(&mut d, 96, &0x1800u64.to_le_bytes());
    put(&mut d, 104, &0x2000u64.to_le_bytes());
    put(&mut d, 112, &0x1000u64.to_le_bytes());
    d
}

fn segment(vaddr: u64, offset: u64, filesz: u64, memsz: u64) -> Elf64Phdr {
    Elf64Phdr {
        p_type: PT_LOAD,
        p_flags: 5,
        p_offset: offset,
        p_vaddr: vaddr,
        p_paddr: vaddr,
        p_filesz: filesz,
        p_memsz: memsz,
        p_align: 0x1000,
    }
}

fn task(id: usize, parent: usize) -> Task {
    Task {
        id,
        parent_id: parent,
        state: TaskState::New,
        kernel_stack: 0x9000,
        kernel_stack_top: 0xA000,
        stack_size: 0x1000,
        cr3: 0x5000,
        instruction_pointer: 0x400000,
        time_slice: 5,
        time_slice_max: 5,
        ticks_run: 0,
        name: "init",
    }
}

#[test]
fn test_error_category_message_description() {
    assert_eq!(KernelError::NotFound.category(), "NotFound");
    assert_eq!(KernelError::DeviceError("x").category(), "DeviceError");
    assert_eq!(KernelError::OutOfMemory.message(), "Out of memory");
    assert_eq!(KernelError::DeviceError("ATA busy").message(), "Device error: ATA busy");
    assert_eq!(KernelError::InitFailed("gdt").message(), "Initialization failed: gdt");
    assert_eq!(KernelError::BufferTooSmall.message(), "Buffer too small");
    assert_eq!(KernelError::OutOfMemory.description(), "out of memory");
    assert_eq!(KernelError::NotFound.description(), "not found");
    assert_eq!(KernelError::PermissionDenied.description(), "permission denied");
    assert_eq!(KernelError::IoError.description(), "kernel error");
}

#[test]
fn test_error_from_vfs_kind() {
    assert_eq!(KernelError::from(VfsErrorKind::Busy), KernelError::Busy);
    assert_eq!(KernelError::from(VfsErrorKind::NotFound), KernelError::NotFound);
    let e: KernelError = VfsErrorKind::InvalidSeek.into();
    assert_eq!(e, KernelError::InvalidSeek);
}

#[test]
fn test_decode_and_classify_fault() {
    assert_eq!(
        decode_fault(0b10110),
        FaultInfo { present: false, write: true, user: true, reserved: false, instruction: true }
    );
    assert_eq!(classify_fault(8 | 1), FaultAction::ReservedBitViolation);
    assert_eq!(classify_fault(1 | 2), FaultAction::ProtectionViolation);
    assert_eq!(classify_fault(2), FaultAction::DemandPage);
    assert_eq!(classify_fault(0), FaultAction::DemandPage);
}

#[test]
fn test_fault_reporting_schedule() {
    assert!(should_report(1));
    assert!(should_report(10));
    assert!(!should_report(11));
    assert!(should_report(2000));
    assert!(!demand_page_wants_frame(0x2000, true));
    assert!(!demand_page_wants_frame(0x10, false));
    assert!(demand_page_wants_frame(0x2000, false));
}

#[test]
fn test_vmm_record_fault() {
    let mut s = VmmState::new();
    assert_eq!(s.get_stats(), (0, 0));
    assert_eq!(s.record_fault(2), (FaultAction::DemandPage, true));
    assert_eq!(s.get_stats(), (1, 0));
    s.count_page_alloc();
    assert_eq!(s.get_stats(), (1, 1));
}

#[test]
fn test_handle_demand_page() {
    let mut s = VmmState::new();
    assert_eq!(handle_demand_page(&mut s, 0x2000, false, true, Some(0x9000)), DemandOutcome::UserFault);
    assert_eq!(handle_demand_page(&mut s, 0x500, true, false, Some(0x9000)), DemandOutcome::NullPointer);
    assert_eq!(handle_demand_page(&mut s, 0x2000, true, false, None), DemandOutcome::OutOfMemory);
    assert_eq!(s.get_stats(), (0, 0));
    assert_eq!(
        handle_demand_page(&mut s, 0x2000, false, false, Some(0x9000)),
        DemandOutcome::Allocated { phys: 0x9000, log: true }
    );
    assert_eq!(s.get_stats(), (0, 1));
}

#[test]
fn test_page_table_entries() {
    assert_eq!(flags_of(0x8000_0000_0012_3067), 0x8000_0000_0000_0067);
    assert_eq!(addr_of(0x8000_0000_0012_3067), 0x123000);
    assert_eq!(new_entry(0x5000, 7), 0x5007);
    assert!(is_copied_on_fork(0x5007));
    assert!(!is_copied_on_fork(0x5003));
    assert!(!is_copied_on_fork(0));
}

#[test]
fn test_process_page_tables() {
    let mut active = vec![0u64; 512];
    active[0] = 0x1003;
    active[2] = 0x2007;
    active[3] = 0x3003;
    active[511] = 0x4003;
    let l4 = process_l4_table(&active, 0x9000);
    assert_eq!(l4.len(), 512);
    assert_eq!(l4[0], 0x9007);
    assert_eq!(l4[1], 0);
    assert_eq!(l4[2], 0);
    assert_eq!(l4[3], 0x3003);
    assert_eq!(l4[511], 0x4003);
    let empty = process_l4_table(&vec![0u64; 512], 0x9000);
    assert_eq!(empty[0], 0);

    let l3_active: Vec<u64> = (1..=512).collect();
    let l3 = process_l3_table(&l3_active);
    assert_eq!(&l3[..5], &[1, 2, 3, 4, 0]);
    assert_eq!(l3[511], 0);
}

#[test]
fn test_copy_plans() {
    let mut t = vec![0u64; 512];
    t[2] = 0x5007;
    t[5] = 0x6007;
    t[6] = 0x7087;
    t[7] = 0x8003;
    assert_eq!(
        table_copy_plan(&t, 3),
        vec![
            CopyStep { index: 5, addr: 0x6000, flags: 0x7, kind: CopyKind::Subtable },
            CopyStep { index: 6, addr: 0x7000, flags: 0x87, kind: CopyKind::Leaf },
        ]
    );
    let plan2 = table_copy_plan(&t, 2);
    assert_eq!(plan2.len(), 3);
    assert_eq!(plan2[0], CopyStep { index: 2, addr: 0x5000, flags: 0x7, kind: CopyKind::Subtable });
    let plan1 = table_copy_plan(&t, 1);
    assert!(plan1.iter().all(|s| s.kind == CopyKind::Leaf));
    let mut top = vec![0u64; 512];
    top[0] = 0x1007;
    top[3] = 0x2007;
    top[4] = 0x3003;
    assert_eq!(
        address_space_copy_plan(&top),
        vec![
            CopyStep { index: 0, addr: 0x1000, flags: 0x7, kind: CopyKind::IntoExisting },
            CopyStep { index: 3, addr: 0x2000, flags: 0x7, kind: CopyKind::Subtable },
        ]
    );
}

#[test]
fn test_elf_parse_header() {
    let d = sample_elf();
    let h = parse_header(&d).unwrap();
    assert_eq!(h.e_type, 2);
    assert_eq!(h.e_machine, 0x3E);
    assert_eq!(h.e_entry, 0x401000);
    assert_eq!(h.e_phoff, 64);
    assert_eq!(h.e_phnum, 1);
    assert_eq!(h.e_phentsize, 56);
    assert_eq!(parse_header(&d[..63]), Err(KernelError::InvalidAddress));
    let mut bad_magic = d.clone();
    bad_magic[1] = b'X';
    assert_eq!(parse_header(&bad_magic), Err(KernelError::InvalidAddress));
    let mut bad_machine = d.clone();
    bad_machine[18] = 0x28;
    assert_eq!(parse_header(&bad_machine), Err(KernelError::InvalidAddress));
    let mut not_exec = d.clone();
    not_exec[16] = 3;
    assert_eq!(parse_header(&not_exec), Err(KernelError::InvalidAddress));
}

#[test]
fn test_elf_program_header() {
    let d = sample_elf();
    let h = parse_header(&d).unwrap();
    let ph = program_header(&d, &h, 0).unwrap();
    assert_eq!(ph, segment(0x400000, 0x1000, 0x1800, 0x2000));
    assert_eq!(program_header(&d, &h, 1), Err(KernelError::InvalidAddress));
    let mut far = h;
    far.e_phoff = u64::MAX;
    assert_eq!(program_header(&d, &far, 0), Err(KernelError::InvalidAddress));
}

#[test]
fn test_segment_pages() {
    assert_eq!(segment_pages(&segment(0x400123, 0, 0x10, 0x2000)), (0x400000, 0x402000));
    assert_eq!(segment_pages(&segment(0x400000, 0, 0x10, 0x1000)), (0x400000, 0x400000));
}

#[test]
fn test_page_copy() {
    let ph = segment(0x400100, 0x1000, 0x1800, 0x3000);
    assert_eq!(page_copy(0x400000, &ph), Some(PageCopy { file_offset: 0x1000, page_offset: 0x100, len: 0xF00 }));
    assert_eq!(page_copy(0x401000, &ph), Some(PageCopy { file_offset: 0x1F00, page_offset: 0, len: 0x900 }));
    assert_eq!(page_copy(0x402000, &ph), None);
}

#[test]
fn test_user_stack_and_entry() {
    assert_eq!(user_stack_page(0), USER_STACK_TOP - 4096);
    assert_eq!(user_stack_page(15), 0x6FFF_FFFF_0000);
    let mut regs = PtRegs::new();
    regs.rbx = 9;
    regs.rax = 4;
    enter_program(&mut regs, 0x401000);
    assert_eq!(regs.rip, 0x401000);
    assert_eq!(regs.rsp, USER_STACK_TOP);
    assert_eq!(regs.rax, 0);
    assert_eq!(regs.rbx, 9);
}

#[test]
fn test_pt_regs_new_is_zero() {
    let r = PtRegs::new();
    assert_eq!(r.rax, 0);
    assert_eq!(r.rip, 0);
    assert_eq!(r.ss, 0);
    assert_eq!(r.r15, 0);
}

#[test]
fn test_syscall_numbers() {
    assert_eq!(NR_SYSCALLS, 13);
    assert_eq!(SyscallNumber::SysWrite.number(), 1);
    assert_eq!(SyscallNumber::SysFork.number(), 7);
    assert_eq!(SyscallNumber::from_usize(0), Some(SyscallNumber::SysExit));
    assert_eq!(SyscallNumber::from_usize(12), Some(SyscallNumber::SysSetgid));
    assert_eq!(SyscallNumber::from_usize(13), None);
    for n in 0..13 {
        assert_eq!(SyscallNumber::from_usize(n).unwrap().number(), n);
    }
    assert_eq!(Errno::Success.as_isize(), 0);
    assert_eq!(Errno::EBADF.as_isize(), -9);
    assert_eq!(Errno::EAGAIN.as_isize(), -11);
    assert_eq!(Errno::ENOMEM.as_isize(), -12);
    assert_eq!(Errno::EINVAL.as_isize(), -22);
    assert_eq!(Errno::ENOSYS.as_isize(), -38);
    assert_eq!(FileDescriptor::from_usize(0), Some(FileDescriptor::Stdin));
    assert_eq!(FileDescriptor::from_usize(2), Some(FileDescriptor::Stderr));
    assert_eq!(FileDescriptor::from_usize(3), None);
}

#[test]
fn test_syscall_decoding() {
    let mut regs = PtRegs::new();
    regs.rax = 1;
    regs.rdi = 2;
    regs.rsi = 3;
    regs.rdx = 4;
    regs.r10 = 5;
    regs.r8 = 6;
    regs.r9 = 7;
    assert_eq!(
        syscall_args(&regs),
        SyscallArgs { num: 1, arg1: 2, arg2: 3, arg3: 4, arg4: 5, arg5: 6, arg6: 7 }
    );
    assert!(from_user_mode(0x1B));
    assert!(!from_user_mode(0x08));
    assert!(should_log_syscall(1, 100));
    assert!(!should_log_syscall(1, 101));
    assert!(should_log_syscall(0, 101));
    assert_eq!(dispatch(7), Some(SyscallNumber::SysFork));
    assert_eq!(dispatch(13), None);
    assert_eq!(unknown_syscall(), -isize::MAX);
}

#[test]
fn test_sys_write_result() {
    assert_eq!(sys_write_result(1, false, 5), 5);
    assert_eq!(sys_write_result(2, false, 11), 11);
    assert_eq!(sys_write_result(0, false, 5), -9);
    assert_eq!(sys_write_result(7, false, 5), -9);
    assert_eq!(sys_write_result(1, true, 5), -22);
}

#[test]
fn test_simple_syscalls() {
    let mut regs = PtRegs::new();
    regs.rbx = 3;
    assert_eq!(sys_read(&mut regs, 0, 0, 0, 0, 0, 0), 0);
    assert_eq!(sys_execve(&mut regs, 0, 0, 0, 0, 0, 0), -38);
    assert_eq!(sys_open(&mut regs, 0, 0, 0, 0, 0, 0), -38);
    assert_eq!(sys_close(&mut regs, 3, 0, 0, 0, 0, 0), 0);
    assert_eq!(sys_getuid(&mut regs, 0, 0, 0, 0, 0, 0), 0);
    assert_eq!(sys_getgid(&mut regs, 0, 0, 0, 0, 0, 0), 0);
    assert_eq!(sys_setuid(&mut regs, 1000, 0, 0, 0, 0, 0), 0);
    assert_eq!(sys_setgid(&mut regs, 1000, 0, 0, 0, 0, 0), 0);
    assert_eq!(regs.rbx, 3);
    assert_eq!(exit_code(0x1_0000_0005), 5);
    assert_eq!(exit_code(usize::MAX), -1);
}

#[test]
fn test_getpid_getppid() {
    let mut regs = PtRegs::new();
    let mut s = Scheduler::new();
    assert_eq!(sys_getpid(&s, &mut regs, 0, 0, 0, 0, 0, 0), 0);
    assert_eq!(sys_getppid(&s, &mut regs, 0, 0, 0, 0, 0, 0), 0);
    s.add_task(task(7, 3));
    s.schedule();
    assert_eq!(sys_getpid(&s, &mut regs, 0, 0, 0, 0, 0, 0), 7);
    assert_eq!(sys_getppid(&s, &mut regs, 0, 0, 0, 0, 0, 0), 3);
}

#[test]
fn test_fork_pieces() {
    assert_eq!(fork_stack_layout(0x10000, 0xFF00, 0x20000), (0x1FF00, 0x1FEC8));
    let parent = task(4, 1);
    let child = fork_child(&parent, 9, 0x1FEC8, 0x20000, 0x1000, 0x7000, 0x401234);
    assert_eq!(child.id, 9);
    assert_eq!(child.parent_id, 4);
    assert_eq!(child.state, TaskState::Ready);
    assert_eq!(child.kernel_stack, 0x1FEC8);
    assert_eq!(child.kernel_stack_top, 0x20000);
    assert_eq!(child.cr3, 0x7000);
    assert_eq!(child.instruction_pointer, 0x401234);
    assert_eq!(child.time_slice, FORK_TIME_SLICE);
    assert_eq!(child.ticks_run, 0);
    assert_eq!(child.name, "forked");
    assert_eq!(fork_result(9), 9);
    let mut regs = PtRegs::new();
    regs.rax = 7;
    regs.rip = 0x401234;
    let c = child_registers(&regs);
    assert_eq!(c.rax, 0);
    assert_eq!(c.rip, 0x401234);
}

#[test]
fn test_user_entry_frame() {
    assert_eq!(
        user_entry_frame(0x18, 0x20, 0x400000, 0x7000),
        UserEntryFrame { ds: 0x1B, ss: 0x1B, rsp: 0x7000, rflags: 0x202, cs: 0x23, rip: 0x400000 }
    );
    assert!(!needs_cr3_switch(0x1000, 0x1000));
    assert!(needs_cr3_switch(0x1000, 0x2000));
}

#[test]
fn test_block_device_inode() {
    let disk = RamDisk { data: std::sync::Mutex::new(vec![0u8; 100 * 512]), fail: false };
    let inode = BlockDeviceInode::new("hda", disk);
    assert_eq!(inode.inode_type(), FileType::BlockDevice);
    assert_eq!(inode.name(), "hda");
    let st = inode.stat();
    assert_eq!(st.st_mode, 0o060644);
    assert_eq!(st.st_size, 51200);
    assert_eq!(st.st_blksize, 512);
    assert_eq!(st.st_blocks, 100);
    assert_eq!(inode.permissions().mode, 0o644);
    assert!(inode.parent().is_none());
}

#[test]
fn test_sector_request() {
    assert_eq!(sector_request(1024, 1000, 512), Ok((2, 2)));
    assert_eq!(sector_request(1024, 1024, 512), Ok((2, 2)));
    assert_eq!(sector_request(0, 0, 512), Ok((0, 0)));
    assert_eq!(sector_request(100, 10, 512), Err(VfsError::OperationNotSupported));
    assert_eq!(complete(Ok(5)), Ok(5));
    assert_eq!(complete(Err(KernelError::DeviceNotReady)), Err(VfsError::IoError));
}

struct RamDisk {
    data: std::sync::Mutex<Vec<u8>>,
    fail: bool,
}

impl BlockDevice for RamDisk {
    fn answers_read(&self, _sector: u64, count: usize, _buf_len: usize, r: KernelResult<usize>) -> bool {
        self.fail || r == Ok(count * 512)
    }

    fn answers_write(&self, _sector: u64, count: usize, _data: &[u8], r: KernelResult<usize>) -> bool {
        self.fail || r == Ok(count * 512)
    }

    fn read_sectors(&self, sector: u64, count: usize, buf: &mut [u8]) -> KernelResult<usize> {
        if self.fail {
            return Err(KernelError::DeviceNotReady);
        }
        let data = self.data.lock().unwrap();
        let start = sector as usize * 512;
        let n = (count * 512).min(buf.len());
        buf[..n].copy_from_slice(&data[start..start + n]);
        Ok(count * 512)
    }

    fn write_sectors(&self, sector: u64, count: usize, buf: &[u8]) -> KernelResult<usize> {
        if self.fail {
            return Err(KernelError::IoError);
        }
        let mut data = self.data.lock().unwrap();
        let start = sector as usize * 512;
        let n = (count * 512).min(buf.len());
        data[start..start + n].copy_from_slice(&buf[..n]);
        Ok(count * 512)
    }

    fn sector_count(&self) -> u64 {
        (self.data.lock().unwrap().len() / 512) as u64
    }

    fn num_sectors(&self) -> u64 {
        (self.data.lock().unwrap().len() / 512) as u64
    }

    fn sector_bytes(&self) -> usize {
        512
    }

    fn sector_size(&self) -> usize {
        512
    }

    fn is_present(&self) -> bool {
        true
    }

    fn device_name(&self) -> &str {
        "ram0"
    }
}

#[test]
fn test_block_device_inode_read_write() {
    let disk = RamDisk { data: std::sync::Mutex::new(vec![0u8; 4096]), fail: false };
    let mut inode = BlockDeviceInode::new("ram0", disk);
    assert_eq!(inode.write(512, b"hello"), Ok(512));
    let mut buf = [0u8; 5];
    assert_eq!(inode.read(512, &mut buf), Ok(512));
    assert_eq!(&buf, b"hello");
    assert_eq!(inode.read(100, &mut buf), Err(VfsError::OperationNotSupported));
    assert_eq!(&buf, b"hello");
    assert_eq!(inode.write(7, b"x"), Err(VfsError::OperationNotSupported));
    assert_eq!(inode.device.device_name(), "ram0");
}

#[test]
fn test_block_device_inode_errors_become_io_errors() {
    let disk = RamDisk { data: std::sync::Mutex::new(vec![0u8; 1024]), fail: true };
    let mut inode = BlockDeviceInode::new("bad", disk);
    let mut buf = [0u8; 16];
    assert_eq!(inode.read(0, &mut buf), Err(VfsError::IoError));
    assert_eq!(inode.write(512, &buf), Err(VfsError::IoError));
}

#[test]
fn test_error_categories_are_distinct() {
    let all = [
        KernelError::OutOfMemory,
        KernelError::NotFound,
        KernelError::Exists,
        KernelError::NotEmpty,
        KernelError::IoError,
        KernelError::InitFailed("a"),
        KernelError::DriverFailed("b"),
        KernelError::DeviceError("c"),
        KernelError::DeviceNotFound,
        KernelError::DeviceNotReady,
    ];
    for (i, a) in all.iter().enumerate() {
        for (j, b) in all.iter().enumerate() {
            assert_eq!(a.category() == b.category(), i == j);
        }
    }
    assert_eq!(KernelError::DeviceError("x").category(), KernelError::DeviceError("y").category());
}
