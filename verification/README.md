# rust_kernel

The logic of a small x86_64 kernel, written in Verus and proved against its
contracts.

- `src/` is the verified library: the in-memory file systems (tmpfs and
  initramfs), open files and descriptor tables, directory entries, block
  device inodes, the round-robin scheduler, the system-call decoding and
  results, ELF decoding and the segment layout of a program, page-table
  construction and fork copy plans, page-fault classification, the ATA PIO
  protocol (register values, status polling, IDENTIFY parsing, sector
  packing) and the kernel error type.
- `app/` boots the kernel around it: port and memory I/O, interrupts, the
  assembly that enters user mode, and the global state.
- `tests/` runs the library on concrete values.
