use rust_kernel::error::{vfs_err_to_kernel, KernelError};
use rust_kernel::fs::dentry::{Dentry, DentryFlags};
use rust_kernel::fs::file::{File, FileFlags, FileRef, FileTable};
use rust_kernel::fs::initramfs::{create_initramfs_root, InitramfsInode};
use rust_kernel::fs::inode::{FilePermissions, FileType, Inode, InodeCounter, SeekFrom, VfsError};
use rust_kernel::fs::tmpfs::{create_tmpfs_root, TmpfsInode};

fn file_with(data: &[u8], counter: &mut InodeCounter) -> TmpfsInode {
    let mut inode = TmpfsInode::new("test.txt", FileType::RegularFile, counter);
    inode.set_data(data.to_vec());
    inode
}

#[test]
fn test_vfs_inode_creation() {
    let mut c = InodeCounter::new();
    let inode = TmpfsInode::new("test.txt", FileType::RegularFile, &mut c);
    assert!(inode.stat().st_ino > 0);
    assert_eq!(inode.name(), "test.txt");
    assert_eq!(inode.stat().st_mode, 0o100000);
    assert_eq!(inode.stat().st_nlink, 1);
    assert_eq!(inode.stat().st_blksize, 4096);
    assert_eq!(inode.permissions(), FilePermissions::default_file());
}

#[test]
fn test_inode_numbers_count_up() {
    let mut c = InodeCounter::new();
    let a = TmpfsInode::new("a", FileType::RegularFile, &mut c);
    let b = TmpfsInode::new("b", FileType::Directory, &mut c);
    assert_eq!(a.stat().st_ino, 1);
    assert_eq!(b.stat().st_ino, 2);
    assert_eq!(c.peek(), 3);
    let d = TmpfsInode::new("d", FileType::RegularFile, &mut c);
    assert_eq!(d.stat().st_ino, 3);
    assert!(d.stat().st_ino > b.stat().st_ino && b.stat().st_ino > a.stat().st_ino);
    assert_eq!(b.stat().st_mode, 0o040000);
    assert_eq!(b.stat().st_nlink, 2);
    assert_eq!(b.permissions().mode, 0o755);
}

#[test]
fn test_vfs_directory_inode() {
    let mut c = InodeCounter::new();
    let inode = TmpfsInode::new("test_dir", FileType::Directory, &mut c);
    assert_eq!(inode.inode_type(), FileType::Directory);
    assert!(inode.parent().is_none());
    assert!(inode.lookup("test").is_none());
}

#[test]
fn test_vfs_inode_mkdir() {
    let mut c = InodeCounter::new();
    let mut dir = TmpfsInode::new("parent", FileType::Directory, &mut c);
    let child = dir.mkdir("child", FilePermissions::default_directory(), &mut c);
    assert_eq!(child, Some(0));
    assert_eq!(dir.lookup("child"), Some(0));
    assert_eq!(dir.child(0).inode_type(), FileType::Directory);
}

#[test]
fn test_mkdir_existing_name_fails() {
    let mut c = InodeCounter::new();
    let mut dir = TmpfsInode::new("parent", FileType::Directory, &mut c);
    assert_eq!(dir.mkdir("x", FilePermissions::default_directory(), &mut c), Some(0));
    assert_eq!(dir.mkdir("x", FilePermissions::default_directory(), &mut c), None);
    assert_eq!(dir.create("x", FilePermissions::default_file(), &mut c), None);
    assert_eq!(dir.num_children(), 1);
}

#[test]
fn test_mkdir_in_file_fails() {
    let mut c = InodeCounter::new();
    let mut f = TmpfsInode::new("f", FileType::RegularFile, &mut c);
    assert_eq!(f.mkdir("x", FilePermissions::default_directory(), &mut c), None);
    assert!(f.lookup("x").is_none());
}

#[test]
fn test_vfs_inode_create_file() {
    let mut c = InodeCounter::new();
    let mut dir = TmpfsInode::new("parent", FileType::Directory, &mut c);
    let perms = FilePermissions { mode: 0o600 };
    let file = dir.create("file.txt", perms, &mut c);
    assert!(file.is_some());
    let idx = dir.lookup("file.txt").unwrap();
    assert_eq!(dir.child(idx).permissions(), perms);
    assert_eq!(dir.child(idx).inode_type(), FileType::RegularFile);
}

#[test]
fn test_vfs_inode_read_write() {
    let mut c = InodeCounter::new();
    let inode = file_with(b"Hello, VFS!", &mut c);
    let mut buf = [0u8; 64];
    let n = inode.read(0, &mut buf).unwrap();
    assert_eq!(n, 11);
    assert_eq!(&buf[..n], b"Hello, VFS!");
    assert_eq!(inode.stat().st_size, 11);
    assert_eq!(inode.stat().st_blocks, 1);
}

#[test]
fn test_read_at_and_past_end() {
    let mut c = InodeCounter::new();
    let inode = file_with(b"0123456789", &mut c);
    let mut buf = [9u8; 4];
    assert_eq!(inode.read(8, &mut buf), Ok(2));
    assert_eq!(buf, [b'8', b'9', 9, 9]);
    assert_eq!(inode.read(10, &mut buf), Ok(0));
    assert_eq!(inode.read(100, &mut buf), Ok(0));
}

#[test]
fn test_read_directory_fails() {
    let mut c = InodeCounter::new();
    let mut dir = TmpfsInode::new("d", FileType::Directory, &mut c);
    let mut buf = [0u8; 4];
    assert_eq!(dir.read(0, &mut buf), Err(VfsError::IsDirectory));
    assert_eq!(dir.write(0, b"x"), Err(VfsError::IsDirectory));
}

#[test]
fn test_write_past_end_zero_fills() {
    let mut c = InodeCounter::new();
    let mut inode = file_with(b"ab", &mut c);
    assert_eq!(inode.write(4, b"cd"), Ok(2));
    let mut buf = [7u8; 8];
    assert_eq!(inode.read(0, &mut buf), Ok(6));
    assert_eq!(&buf[..6], b"ab\0\0cd");
    assert_eq!(inode.stat().st_size, 6);
}

#[test]
fn test_read_after_write_law() {
    let mut c = InodeCounter::new();
    let mut inode = file_with(b"0123456789", &mut c);
    assert_eq!(inode.write(3, b"xyz"), Ok(3));
    let mut buf = [0u8; 3];
    assert_eq!(inode.read(3, &mut buf), Ok(3));
    assert_eq!(&buf, b"xyz");
}

#[test]
fn test_block_count_rounds_up() {
    let mut c = InodeCounter::new();
    let mut inode = TmpfsInode::new("f", FileType::RegularFile, &mut c);
    inode.set_data(vec![0u8; 513]);
    assert_eq!(inode.stat().st_blocks, 2);
    inode.set_data(vec![0u8; 512]);
    assert_eq!(inode.stat().st_blocks, 1);
    inode.set_data(Vec::new());
    assert_eq!(inode.stat().st_blocks, 0);
}

#[test]
fn test_vfs_inode_unlink() {
    let mut c = InodeCounter::new();
    let mut dir = TmpfsInode::new("parent", FileType::Directory, &mut c);
    let _ = dir.create("file.txt", FilePermissions::default_file(), &mut c);
    assert!(dir.unlink("file.txt").is_ok());
    assert!(dir.lookup("file.txt").is_none());
}

#[test]
fn test_unlink_errors() {
    let mut c = InodeCounter::new();
    let mut dir = TmpfsInode::new("parent", FileType::Directory, &mut c);
    let _ = dir.mkdir("sub", FilePermissions::default_directory(), &mut c);
    assert_eq!(dir.unlink("missing"), Err(VfsError::NotFound));
    assert_eq!(dir.unlink("sub"), Err(VfsError::IsDirectory));
    assert!(dir.lookup("sub").is_some());
    let mut f = TmpfsInode::new("f", FileType::RegularFile, &mut c);
    assert_eq!(f.unlink("x"), Err(VfsError::NotADirectory));
}

#[test]
fn test_vfs_inode_rmdir() {
    let mut c = InodeCounter::new();
    let mut dir = TmpfsInode::new("parent", FileType::Directory, &mut c);
    let _ = dir.mkdir("child_dir", FilePermissions::default_directory(), &mut c);
    assert!(dir.rmdir("child_dir").is_ok());
    assert!(dir.lookup("child_dir").is_none());
}

#[test]
fn test_rmdir_errors() {
    let mut c = InodeCounter::new();
    let mut dir = TmpfsInode::new("parent", FileType::Directory, &mut c);
    let _ = dir.create("file", FilePermissions::default_file(), &mut c);
    let sub = dir.mkdir("sub", FilePermissions::default_directory(), &mut c).unwrap();
    let _ = dir.child_mut(sub).create("inner", FilePermissions::default_file(), &mut c);
    assert_eq!(dir.rmdir("missing"), Err(VfsError::NotFound));
    assert_eq!(dir.rmdir("file"), Err(VfsError::NotADirectory));
    assert_eq!(dir.rmdir("sub"), Err(VfsError::NotEmpty));
    assert_eq!(dir.child_mut(sub).unlink("inner"), Ok(()));
    assert_eq!(dir.rmdir("sub"), Ok(()));
    assert_eq!(dir.num_children(), 1);
}

#[test]
fn test_vfs_readdir() {
    let mut c = InodeCounter::new();
    let mut dir = TmpfsInode::new("test_dir", FileType::Directory, &mut c);
    let _ = dir.mkdir("subdir1", FilePermissions::default_directory(), &mut c);
    let _ = dir.create("file1.txt", FilePermissions::default_file(), &mut c);
    let e0 = dir.readdir(0).unwrap();
    let e1 = dir.readdir(1).unwrap();
    assert!(dir.readdir(2).is_none());
    assert_eq!(e0.name, "subdir1");
    assert_eq!(e0.offset, 1);
    assert_eq!(e0.file_type, FileType::Directory);
    assert_eq!(e0.inode, 2);
    assert_eq!(e1.name, "file1.txt");
    assert_eq!(e1.offset, 2);
    assert_eq!(e1.file_type, FileType::RegularFile);
}

#[test]
fn test_vfs_symlink() {
    let mut c = InodeCounter::new();
    let mut dir = TmpfsInode::new("parent", FileType::Directory, &mut c);
    assert!(dir.symlink("target_file", "link_name", &mut c).is_ok());
    let idx = dir.lookup("link_name").unwrap();
    let link = dir.child(idx);
    assert_eq!(link.inode_type(), FileType::Symlink);
    assert_eq!(link.stat().st_mode, 0o120000);
    assert_eq!(link.stat().st_size, 11);
    assert_eq!(dir.symlink("other", "link_name", &mut c), Err(VfsError::Exists));
}

#[test]
fn test_vfs_readlink() {
    let mut c = InodeCounter::new();
    let mut inode = TmpfsInode::new("link", FileType::Symlink, &mut c);
    inode.set_data(b"target_path".to_vec());
    assert_eq!(inode.readlink().as_deref(), Some("target_path"));
}

#[test]
fn test_readlink_invalid_utf8_and_non_link() {
    let mut c = InodeCounter::new();
    let mut inode = TmpfsInode::new("link", FileType::Symlink, &mut c);
    inode.set_data(vec![0xff, 0xfe]);
    assert_eq!(inode.readlink(), None);
    let f = file_with(b"abc", &mut c);
    assert_eq!(f.readlink(), None);
}

#[test]
fn test_tmpfs_root_creation() {
    let mut c = InodeCounter::new();
    let root = create_tmpfs_root(&mut c);
    assert_eq!(root.name(), "/");
    assert_eq!(root.inode_type(), FileType::Directory);
    assert!(root.stat().st_ino > 0);
}

#[test]
fn test_tmpfs_children() {
    let mut c = InodeCounter::new();
    let root = create_tmpfs_root(&mut c);
    assert_eq!(root.lookup("tmp"), Some(0));
    assert_eq!(root.lookup("var"), Some(1));
    assert_eq!(root.lookup("dev"), Some(2));
    assert_eq!(root.lookup("proc"), Some(3));
}

#[test]
fn test_tmpfs_mkdir() {
    let mut c = InodeCounter::new();
    let mut root = create_tmpfs_root(&mut c);
    let result = root.mkdir("testdir", FilePermissions::default_directory(), &mut c);
    assert!(result.is_some());
    assert!(root.lookup("testdir").is_some());
}

#[test]
fn test_tmpfs_create_file() {
    let mut c = InodeCounter::new();
    let mut root = create_tmpfs_root(&mut c);
    let result = root.create("testfile.txt", FilePermissions::default_file(), &mut c);
    assert!(result.is_some());
    assert!(root.lookup("testfile.txt").is_some());
}

#[test]
fn test_tmpfs_read_write() {
    let mut c = InodeCounter::new();
    let mut root = create_tmpfs_root(&mut c);
    let idx = root.create("test.txt", FilePermissions::default_file(), &mut c).unwrap();
    let file = root.child_mut(idx);
    assert_eq!(file.write(0, b"Hello, tmpfs!"), Ok(13));
    let mut buf = [0u8; 64];
    assert_eq!(root.child(idx).read(0, &mut buf), Ok(13));
    assert_eq!(&buf[..13], b"Hello, tmpfs!");
}

#[test]
fn test_tmpfs_unlink() {
    let mut c = InodeCounter::new();
    let mut root = create_tmpfs_root(&mut c);
    let _ = root.create("file.txt", FilePermissions::default_file(), &mut c);
    assert!(root.unlink("file.txt").is_ok());
    assert!(root.lookup("file.txt").is_none());
}

#[test]
fn test_tmpfs_rmdir() {
    let mut c = InodeCounter::new();
    let mut root = create_tmpfs_root(&mut c);
    let _ = root.mkdir("subdir", FilePermissions::default_directory(), &mut c);
    assert!(root.rmdir("subdir").is_ok());
    assert!(root.lookup("subdir").is_none());
}

#[test]
fn test_tmpfs_readdir() {
    let mut c = InodeCounter::new();
    let root = create_tmpfs_root(&mut c);
    for i in 0..4 {
        assert!(root.readdir(i).is_some());
    }
    assert!(root.readdir(4).is_none());
}

#[test]
fn test_tmpfs_truncate() {
    let mut c = InodeCounter::new();
    let mut root = create_tmpfs_root(&mut c);
    let idx = root.create("test.txt", FilePermissions::default_file(), &mut c).unwrap();
    let file = root.child_mut(idx);
    let _ = file.write(0, b"0123456789");
    assert!(file.truncate(5).is_ok());
    assert_eq!(file.stat().st_size, 5);
    assert!(file.truncate(8).is_ok());
    let mut buf = [9u8; 8];
    assert_eq!(file.read(0, &mut buf), Ok(8));
    assert_eq!(&buf, b"01234\0\0\0");
}

#[test]
fn test_tmpfs_symlink() {
    let mut c = InodeCounter::new();
    let mut root = create_tmpfs_root(&mut c);
    assert!(root.symlink("target_file", "link_name", &mut c).is_ok());
    assert!(root.lookup("link_name").is_some());
}

#[test]
fn test_tmpfs_readlink() {
    let mut c = InodeCounter::new();
    let mut root = create_tmpfs_root(&mut c);
    let _ = root.symlink("target_path", "link_name", &mut c);
    let idx = root.lookup("link_name").unwrap();
    assert_eq!(root.child(idx).readlink().as_deref(), Some("target_path"));
}

#[test]
fn test_set_owner_and_size() {
    let mut c = InodeCounter::new();
    let mut f = file_with(b"abc", &mut c);
    f.set_owner(1000, 100);
    f.set_size(42);
    f.set_parent(Some(7));
    assert_eq!(f.stat().st_uid, 1000);
    assert_eq!(f.stat().st_gid, 100);
    assert_eq!(f.stat().st_size, 42);
    assert_eq!(f.parent(), Some(7));
    assert!(f.sync().is_ok());
}

#[test]
fn test_initramfs_root_creation() {
    let mut c = InodeCounter::new();
    let root = create_initramfs_root(&mut c);
    assert_eq!(root.name(), "/");
    assert_eq!(root.inode_type(), FileType::Directory);
    assert!(root.stat().st_ino > 0);
}

#[test]
fn test_initramfs_children() {
    let mut c = InodeCounter::new();
    let root = create_initramfs_root(&mut c);
    assert!(root.lookup("init").is_some());
    assert!(root.lookup("hello.txt").is_some());
    assert!(root.lookup("bin").is_some());
    assert!(root.lookup("etc").is_some());
    let bin = root.child(root.lookup("bin").unwrap());
    assert!(bin.lookup("sh").is_some());
    let etc = root.child(root.lookup("etc").unwrap());
    let host = etc.child(etc.lookup("hostname").unwrap());
    let mut buf = [0u8; 32];
    let n = host.read(0, &mut buf).unwrap();
    assert_eq!(&buf[..n], b"rustkernel\n");
}

#[test]
fn test_initramfs_file_read() {
    let mut c = InodeCounter::new();
    let root = create_initramfs_root(&mut c);
    let hello = root.child(root.lookup("hello.txt").unwrap());
    let mut buf = [0u8; 64];
    let n = hello.read(0, &mut buf).unwrap();
    let content = std::str::from_utf8(&buf[..n]).unwrap();
    assert!(content.contains("Hello from Rust Kernel"));
}

#[test]
fn test_initramfs_readdir() {
    let mut c = InodeCounter::new();
    let root = create_initramfs_root(&mut c);
    for i in 0..5 {
        assert!(root.readdir(i).is_some());
    }
    assert!(root.readdir(5).is_none());
    assert_eq!(root.readdir(0).unwrap().name, "init");
    assert_eq!(root.readdir(3).unwrap().name, "etc");
    let dev = root.readdir(4).unwrap();
    assert_eq!(dev.name, "dev");
    assert_eq!(dev.file_type, FileType::Directory);
    assert_eq!(dev.inode, 8);
}

#[test]
fn test_initramfs_is_read_only() {
    let mut c = InodeCounter::new();
    let mut root = create_initramfs_root(&mut c);
    assert_eq!(root.mkdir("x", FilePermissions::default_directory()), None);
    assert_eq!(root.create("x", FilePermissions::default_file()), None);
    assert_eq!(root.unlink("init"), Err(VfsError::OperationNotSupported));
    assert_eq!(root.rmdir("bin"), Err(VfsError::OperationNotSupported));
    let mut f = InitramfsInode::new("f", FileType::RegularFile, &mut c);
    assert_eq!(f.write(0, b"x"), Err(VfsError::OperationNotSupported));
    assert_eq!(f.truncate(0), Err(VfsError::OperationNotSupported));
}

#[test]
fn test_vfs_file_read_write() {
    let mut c = InodeCounter::new();
    let inode = file_with(b"Test data", &mut c);
    let mut file = File::new(inode, FileFlags::read_write());
    let write_result = file.write(b"Hello").unwrap();
    let _ = file.seek(SeekFrom::Start(0));
    let mut buf = [0u8; 64];
    let read_result = file.read(&mut buf);
    assert_eq!(write_result, 5);
    assert_eq!(read_result, Ok(9));
    assert_eq!(&buf[..9], b"Hellodata");
    assert_eq!(file.offset, 9);
}

#[test]
fn test_file_permissions_enforced() {
    let mut c = InodeCounter::new();
    let mut ro = File::new(file_with(b"abc", &mut c), FileFlags::read_only());
    assert_eq!(ro.write(b"x"), Err(VfsError::PermissionDenied));
    assert_eq!(ro.truncate(), Err(VfsError::PermissionDenied));
    let mut wo = File::new(file_with(b"abc", &mut c), FileFlags::write_only());
    let mut buf = [0u8; 4];
    assert_eq!(wo.read(&mut buf), Err(VfsError::PermissionDenied));
    let dir = TmpfsInode::new("d", FileType::Directory, &mut c);
    let mut df = File::new(dir, FileFlags::read_write());
    assert!(df.is_directory());
    assert_eq!(df.read(&mut buf), Err(VfsError::IsDirectory));
    assert_eq!(df.write(b"x"), Err(VfsError::IsDirectory));
}

#[test]
fn test_file_append_writes_at_end() {
    let mut c = InodeCounter::new();
    let mut f = File::new(file_with(b"abc", &mut c), FileFlags::append());
    assert!(f.is_append());
    assert_eq!(f.write(b"de"), Ok(2));
    assert_eq!(f.offset, 2);
    assert_eq!(f.stat().st_size, 5);
    let _ = f.seek(SeekFrom::Start(0));
    let mut buf = [0u8; 8];
    assert_eq!(f.read(&mut buf), Ok(5));
    assert_eq!(&buf[..5], b"abcde");
}

#[test]
fn test_vfs_file_seek() {
    let mut c = InodeCounter::new();
    let mut file = File::new(file_with(b"0123456789", &mut c), FileFlags::read_write());
    let _ = file.seek(SeekFrom::Start(5));
    assert_eq!(file.offset, 5);
    assert_eq!(file.seek(SeekFrom::Current(2)), Ok(7));
    assert_eq!(file.seek(SeekFrom::Current(-3)), Ok(4));
    assert_eq!(file.seek(SeekFrom::Current(-5)), Err(VfsError::InvalidSeek));
    assert_eq!(file.offset, 4);
    assert_eq!(file.seek(SeekFrom::End(-2)), Ok(8));
    assert_eq!(file.seek(SeekFrom::End(-11)), Err(VfsError::InvalidSeek));
    assert_eq!(file.seek(SeekFrom::End(3)), Ok(13));
    assert_eq!(file.seek(SeekFrom::End(i64::MAX)), Ok(10 + i64::MAX as u64));
    assert_eq!(file.seek(SeekFrom::Current(0)), Ok(10 + i64::MAX as u64));
}

#[test]
fn test_seek_end_saturates() {
    let mut c = InodeCounter::new();
    let mut inode = file_with(b"", &mut c);
    inode.set_size(u64::MAX - 1);
    let mut file = File::new(inode, FileFlags::read_only());
    assert_eq!(file.seek(SeekFrom::End(5)), Ok(u64::MAX));
}

#[test]
fn test_vfs_file_truncate() {
    let mut c = InodeCounter::new();
    let mut file = File::new(file_with(b"0123456789", &mut c), FileFlags::read_write());
    let _ = file.seek(SeekFrom::Start(3));
    let _ = file.truncate();
    assert_eq!(file.stat().st_size, 3);
    assert!(file.sync().is_ok());
    assert!(file.is_readable() && file.is_writable() && !file.is_append());
}

#[test]
fn test_file_flags() {
    let e = FileFlags::empty();
    assert!(!e.read && !e.write && !e.append && !e.sync && !e.create);
    assert!(FileFlags::read_only().read && !FileFlags::read_only().write);
    assert!(!FileFlags::write_only().read && FileFlags::write_only().write);
    assert!(FileFlags::read_write().read && FileFlags::read_write().write);
    let a = FileFlags::append();
    assert!(a.read && a.write && a.append && !a.truncate);
}

#[test]
fn test_vfs_file_table() {
    let mut table = FileTable::new();
    let fd = table.allocate_fd(FileRef { id: 1 });
    assert_eq!(fd, Some(0));
    assert_eq!(table.get(0), Some(FileRef { id: 1 }));
}

#[test]
fn test_vfs_file_dup() {
    let mut table = FileTable::new();
    let fd1 = table.allocate_fd(FileRef { id: 1 });
    let fd2 = table.dup(fd1.unwrap());
    assert!(fd2.is_some());
    assert_ne!(fd2, fd1);
    assert_eq!(table.get(fd2.unwrap()), table.get(fd1.unwrap()));
    assert_eq!(table.dup(40), None);
}

#[test]
fn test_file_table_reuses_lowest_free() {
    let mut table = FileTable::new();
    for i in 0..4 {
        assert_eq!(table.allocate_fd(FileRef { id: i }), Some(i as usize));
    }
    assert_eq!(table.close(1), Some(FileRef { id: 1 }));
    assert_eq!(table.close(1), None);
    assert_eq!(table.get(1), None);
    assert_eq!(table.put(99), None);
    assert_eq!(table.allocate_fd(FileRef { id: 9 }), Some(1));
    assert_eq!(table.get(1), Some(FileRef { id: 9 }));
}

#[test]
fn test_file_table_limit() {
    let mut table = FileTable::with_capacity(2);
    assert_eq!(table.allocate_fd(FileRef { id: 0 }), Some(0));
    assert_eq!(table.allocate_fd(FileRef { id: 1 }), Some(1));
    assert_eq!(table.allocate_fd(FileRef { id: 2 }), None);
    assert_eq!(table.dup2(0, 5), Some(5));
    assert_eq!(table.get(5), Some(FileRef { id: 0 }));
    assert_eq!(table.get(3), None);
    assert_eq!(table.dup2(3, 6), None);
    assert_eq!(table.dup2(9, 6), None);
    assert_eq!(table.fcntl(0, 1, 2), Err(VfsError::OperationNotSupported));
    let d = FileTable::default();
    assert_eq!(d.get(0), None);
}

#[test]
fn test_vfs_dentry() {
    let dentry = Dentry::new("child", Some(5), None);
    assert!(dentry.d_is_positive() && !dentry.d_is_negative());
    let neg = Dentry::new("gone", None, None);
    assert!(!neg.d_is_positive() && neg.d_is_negative());
    assert!(!neg.d_mountpoint());
}

#[test]
fn test_vfs_dentry_lookup() {
    let dentry = Dentry::new("test", Some(1), None);
    assert!(dentry.lookup("nonexistent").is_none());
}

#[test]
fn test_dentry_children() {
    let mut d = Dentry::new("dir", Some(1), Some(7));
    assert_eq!(d.d_parent, Some(7));
    d.add_child(Dentry::new("a", Some(2), None));
    d.add_child(Dentry::new("b", Some(3), None));
    assert_eq!(d.lookup("b"), Some(1));
    d.remove_child("a");
    assert_eq!(d.lookup("a"), None);
    assert_eq!(d.lookup("b"), Some(0));
    d.remove_child("zzz");
    assert_eq!(d.d_child.len(), 1);
    d.d_invalidate();
    assert!(!d.d_is_positive());
    assert_eq!(d.d_parent, Some(7));
    assert_eq!(d.d_flags, DentryFlags::Negative);
}

#[test]
fn test_vfs_err_to_kernel() {
    assert_eq!(vfs_err_to_kernel::<u8>(Ok(3)), Ok(3));
    assert_eq!(vfs_err_to_kernel::<u8>(Err(VfsError::NotFound)), Err(KernelError::NotFound));
    assert_eq!(vfs_err_to_kernel::<u8>(Err(VfsError::Busy)), Err(KernelError::Busy));
    assert_eq!(vfs_err_to_kernel::<()>(Err(VfsError::InvalidSeek)), Err(KernelError::InvalidSeek));
}
