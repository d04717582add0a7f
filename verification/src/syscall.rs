use vstd::prelude::*;
use crate::consts::{
    LKL_AT_FDCWD,
    LKL_AT_REMOVEDIR,
    __lkl__NR_setxattr,
    __lkl__NR_getxattr,
    __lkl__NR_listxattr,
    __lkl__NR_llistxattr,
    __lkl__NR_removexattr,
    __lkl__NR_mkdirat,
    __lkl__NR_unlinkat,
    __lkl__NR_symlinkat,
    __lkl__NR_linkat,
    __lkl__NR_renameat,
    __lkl__NR_truncate,
    __lkl__NR_ftruncate,
    __lkl__NR_fallocate,
    __lkl__NR_faccessat,
    __lkl__NR_chdir,
    __lkl__NR_fchmod,
    __lkl__NR_fchmodat,
    __lkl__NR_fchownat,
    __lkl__NR_fchown,
    __lkl__NR_openat,
    __lkl__NR_close,
    __lkl__NR_getdents64,
    __lkl__NR_lseek,
    __lkl__NR_read,
    __lkl__NR_write,
    __lkl__NR_pread64,
    __lkl__NR_pwrite64,
    __lkl__NR_sendfile,
    __lkl__NR_readlinkat,
    __lkl__NR_fstat,
    __lkl__NR_fsync,
    __lkl__NR_fdatasync,
    __lkl__NR_getresuid,
    __lkl__NR_getresgid,
    __lkl__NR_munmap,
    __lkl__NR_mmap,
    __lkl__NR_syncfs,
};

verus! {

/// One request to LKL's system call entry: the call number and the six
/// argument slots, each argument converted to a `long` as the C ABI
/// expects. Slots that a call does not use hold zero.
pub struct SyscallFrame {
    pub nr: i64,
    pub params: [i64; 6],
}

impl SyscallFrame {
    /// The `openat` call: open the file at `file` relative to the directory `dfd`. Addresses are passed as plain integers.
    pub fn openat(dfd: i32, file: usize, flags: u32, mode: u32) -> (f: SyscallFrame)
        ensures
            f.nr == __lkl__NR_openat as i64,
            f.params@ == seq![dfd as i64, file as i64, flags as i64, mode as i64, 0i64, 0i64],
    {
        SyscallFrame { nr: __lkl__NR_openat as i64, params: [dfd as i64, file as i64, flags as i64, mode as i64, 0, 0] }
    }

    /// The `read` call: read `count` bytes from `fd` into the buffer at `buf`. Addresses are passed as plain integers.
    pub fn read(fd: i32, buf: usize, count: usize) -> (f: SyscallFrame)
        ensures
            f.nr == __lkl__NR_read as i64,
            f.params@ == seq![fd as i64, buf as i64, count as i64, 0i64, 0i64, 0i64],
    {
        SyscallFrame { nr: __lkl__NR_read as i64, params: [fd as i64, buf as i64, count as i64, 0, 0, 0] }
    }

    /// The `write` call: write `count` bytes from the buffer at `buf` to `fd`. Addresses are passed as plain integers.
    pub fn write(fd: i32, buf: usize, count: usize) -> (f: SyscallFrame)
        ensures
            f.nr == __lkl__NR_write as i64,
            f.params@ == seq![fd as i64, buf as i64, count as i64, 0i64, 0i64, 0i64],
    {
        SyscallFrame { nr: __lkl__NR_write as i64, params: [fd as i64, buf as i64, count as i64, 0, 0, 0] }
    }

    /// The `close` call: close `fd`. Addresses are passed as plain integers.
    pub fn close(fd: i32) -> (f: SyscallFrame)
        ensures
            f.nr == __lkl__NR_close as i64,
            f.params@ == seq![fd as i64, 0i64, 0i64, 0i64, 0i64, 0i64],
    {
        SyscallFrame { nr: __lkl__NR_close as i64, params: [fd as i64, 0, 0, 0, 0, 0] }
    }

    /// The `fstat` call: fill the `stat` record at `stat` for `fd`. Addresses are passed as plain integers.
    pub fn fstat(fd: i32, stat: usize) -> (f: SyscallFrame)
        ensures
            f.nr == __lkl__NR_fstat as i64,
            f.params@ == seq![fd as i64, stat as i64, 0i64, 0i64, 0i64, 0i64],
    {
        SyscallFrame { nr: __lkl__NR_fstat as i64, params: [fd as i64, stat as i64, 0, 0, 0, 0] }
    }

    /// The `lseek` call: move the offset of `fd`. Addresses are passed as plain integers.
    pub fn lseek(fd: i32, offset: u32, origin: u32) -> (f: SyscallFrame)
        ensures
            f.nr == __lkl__NR_lseek as i64,
            f.params@ == seq![fd as i64, offset as i64, origin as i64, 0i64, 0i64, 0i64],
    {
        SyscallFrame { nr: __lkl__NR_lseek as i64, params: [fd as i64, offset as i64, origin as i64, 0, 0, 0] }
    }

    /// The `mmap` call: map memory. Addresses are passed as plain integers.
    pub fn mmap(addr: u64, length: usize, prot: i32, flags: i32, fd: i32, offset: u32) -> (f: SyscallFrame)
        ensures
            f.nr == __lkl__NR_mmap as i64,
            f.params@ == seq![addr as i64, length as i64, prot as i64, flags as i64, fd as i64, offset as i64],
    {
        SyscallFrame { nr: __lkl__NR_mmap as i64, params: [addr as i64, length as i64, prot as i64, flags as i64, fd as i64, offset as i64] }
    }

    /// The `munmap` call: unmap the memory at `addr`. Addresses are passed as plain integers.
    pub fn munmap(addr: usize, length: usize) -> (f: SyscallFrame)
        ensures
            f.nr == __lkl__NR_munmap as i64,
            f.params@ == seq![addr as i64, length as i64, 0i64, 0i64, 0i64, 0i64],
    {
        SyscallFrame { nr: __lkl__NR_munmap as i64, params: [addr as i64, length as i64, 0, 0, 0, 0] }
    }

    /// The `getdents64` call: read directory entries of `fd` into the record at `dirent`. Addresses are passed as plain integers.
    pub fn getdents64(fd: i32, dirent: usize, count: usize) -> (f: SyscallFrame)
        ensures
            f.nr == __lkl__NR_getdents64 as i64,
            f.params@ == seq![fd as i64, dirent as i64, count as i64, 0i64, 0i64, 0i64],
    {
        SyscallFrame { nr: __lkl__NR_getdents64 as i64, params: [fd as i64, dirent as i64, count as i64, 0, 0, 0] }
    }

    /// The `pread64` call: read at offset `off`. Addresses are passed as plain integers.
    pub fn pread64(fd: i32, buf: usize, count: usize, off: u64) -> (f: SyscallFrame)
        ensures
            f.nr == __lkl__NR_pread64 as i64,
            f.params@ == seq![fd as i64, buf as i64, count as i64, off as i64, 0i64, 0i64],
    {
        SyscallFrame { nr: __lkl__NR_pread64 as i64, params: [fd as i64, buf as i64, count as i64, off as i64, 0, 0] }
    }

    /// The `pwrite64` call: write at offset `off`. Addresses are passed as plain integers.
    pub fn pwrite64(fd: i32, buf: usize, count: usize, off: u64) -> (f: SyscallFrame)
        ensures
            f.nr == __lkl__NR_pwrite64 as i64,
            f.params@ == seq![fd as i64, buf as i64, count as i64, off as i64, 0i64, 0i64],
    {
        SyscallFrame { nr: __lkl__NR_pwrite64 as i64, params: [fd as i64, buf as i64, count as i64, off as i64, 0, 0] }
    }

    /// The `renameat` call: rename `oldname` (relative to `oldfd`) to `newname` (relative to `newfd`). Addresses are passed as plain integers.
    pub fn renameat(oldfd: i32, oldname: usize, newfd: i32, newname: usize) -> (f: SyscallFrame)
        ensures
            f.nr == __lkl__NR_renameat as i64,
            f.params@ == seq![oldfd as i64, oldname as i64, newfd as i64, newname as i64, 0i64, 0i64],
    {
        SyscallFrame { nr: __lkl__NR_renameat as i64, params: [oldfd as i64, oldname as i64, newfd as i64, newname as i64, 0, 0] }
    }

    /// The `fsync` call: flush `fd` to its device. Addresses are passed as plain integers.
    pub fn fsync(fd: i32) -> (f: SyscallFrame)
        ensures
            f.nr == __lkl__NR_fsync as i64,
            f.params@ == seq![fd as i64, 0i64, 0i64, 0i64, 0i64, 0i64],
    {
        SyscallFrame { nr: __lkl__NR_fsync as i64, params: [fd as i64, 0, 0, 0, 0, 0] }
    }

    /// The `fdatasync` call: flush the data of `fd` to its device. Addresses are passed as plain integers.
    pub fn fdatasync(fd: i32) -> (f: SyscallFrame)
        ensures
            f.nr == __lkl__NR_fdatasync as i64,
            f.params@ == seq![fd as i64, 0i64, 0i64, 0i64, 0i64, 0i64],
    {
        SyscallFrame { nr: __lkl__NR_fdatasync as i64, params: [fd as i64, 0, 0, 0, 0, 0] }
    }

    /// The `syncfs` call: flush the file system that holds `fd`. Addresses are passed as plain integers.
    pub fn syncfs(fd: i32) -> (f: SyscallFrame)
        ensures
            f.nr == __lkl__NR_syncfs as i64,
            f.params@ == seq![fd as i64, 0i64, 0i64, 0i64, 0i64, 0i64],
    {
        SyscallFrame { nr: __lkl__NR_syncfs as i64, params: [fd as i64, 0, 0, 0, 0, 0] }
    }

    /// The `sendfile` call: copy `count` bytes from `in_fd` to `out_fd`. Addresses are passed as plain integers.
    pub fn sendfile(out_fd: i32, in_fd: i32, offset: usize, count: usize) -> (f: SyscallFrame)
        ensures
            f.nr == __lkl__NR_sendfile as i64,
            f.params@ == seq![out_fd as i64, in_fd as i64, offset as i64, count as i64, 0i64, 0i64],
    {
        SyscallFrame { nr: __lkl__NR_sendfile as i64, params: [out_fd as i64, in_fd as i64, offset as i64, count as i64, 0, 0] }
    }

    /// The `faccessat` call: check the permissions of `filename` relative to `dfd`. Addresses are passed as plain integers.
    pub fn faccessat(dfd: i32, filename: usize, mode: i32) -> (f: SyscallFrame)
        ensures
            f.nr == __lkl__NR_faccessat as i64,
            f.params@ == seq![dfd as i64, filename as i64, mode as i64, 0i64, 0i64, 0i64],
    {
        SyscallFrame { nr: __lkl__NR_faccessat as i64, params: [dfd as i64, filename as i64, mode as i64, 0, 0, 0] }
    }

    /// The `ftruncate` call: set the length of `fd`. Addresses are passed as plain integers.
    pub fn ftruncate(fd: i32, length: u64) -> (f: SyscallFrame)
        ensures
            f.nr == __lkl__NR_ftruncate as i64,
            f.params@ == seq![fd as i64, length as i64, 0i64, 0i64, 0i64, 0i64],
    {
        SyscallFrame { nr: __lkl__NR_ftruncate as i64, params: [fd as i64, length as i64, 0, 0, 0, 0] }
    }

    /// The `truncate` call: set the length of the file at `filename`. Addresses are passed as plain integers.
    pub fn truncate(filename: usize, length: i64) -> (f: SyscallFrame)
        ensures
            f.nr == __lkl__NR_truncate as i64,
            f.params@ == seq![filename as i64, length, 0i64, 0i64, 0i64, 0i64],
    {
        SyscallFrame { nr: __lkl__NR_truncate as i64, params: [filename as i64, length, 0, 0, 0, 0] }
    }

    /// The `mkdirat` call: create the directory `pathname` relative to `dfd`. Addresses are passed as plain integers.
    pub fn mkdirat(dfd: i32, pathname: usize, mode: u32) -> (f: SyscallFrame)
        ensures
            f.nr == __lkl__NR_mkdirat as i64,
            f.params@ == seq![dfd as i64, pathname as i64, mode as i64, 0i64, 0i64, 0i64],
    {
        SyscallFrame { nr: __lkl__NR_mkdirat as i64, params: [dfd as i64, pathname as i64, mode as i64, 0, 0, 0] }
    }

    /// The `unlinkat` call: remove `oldname` relative to `oldfd`; the last argument holds the flags. Addresses are passed as plain integers.
    pub fn unlinkat(oldfd: i32, oldname: usize, newfd: u32) -> (f: SyscallFrame)
        ensures
            f.nr == __lkl__NR_unlinkat as i64,
            f.params@ == seq![oldfd as i64, oldname as i64, newfd as i64, 0i64, 0i64, 0i64],
    {
        SyscallFrame { nr: __lkl__NR_unlinkat as i64, params: [oldfd as i64, oldname as i64, newfd as i64, 0, 0, 0] }
    }

    /// The `linkat` call: make `newname` a hard link to `oldname`. Addresses are passed as plain integers.
    pub fn linkat(oldfd: i32, oldname: usize, newfd: i32, newname: usize, flags: u32) -> (f: SyscallFrame)
        ensures
            f.nr == __lkl__NR_linkat as i64,
            f.params@ == seq![oldfd as i64, oldname as i64, newfd as i64, newname as i64, flags as i64, 0i64],
    {
        SyscallFrame { nr: __lkl__NR_linkat as i64, params: [oldfd as i64, oldname as i64, newfd as i64, newname as i64, flags as i64, 0] }
    }

    /// The `symlinkat` call: make `newname` (relative to `newfd`) a symbolic link to `oldname`. Addresses are passed as plain integers.
    pub fn symlinkat(oldname: usize, newfd: i32, newname: usize) -> (f: SyscallFrame)
        ensures
            f.nr == __lkl__NR_symlinkat as i64,
            f.params@ == seq![oldname as i64, newfd as i64, newname as i64, 0i64, 0i64, 0i64],
    {
        SyscallFrame { nr: __lkl__NR_symlinkat as i64, params: [oldname as i64, newfd as i64, newname as i64, 0, 0, 0] }
    }

    /// The `readlinkat` call: read the target of the link `pathname` into `buf`. Addresses are passed as plain integers.
    pub fn readlinkat(dfd: i32, pathname: usize, buf: usize, bufsize: i32) -> (f: SyscallFrame)
        ensures
            f.nr == __lkl__NR_readlinkat as i64,
            f.params@ == seq![dfd as i64, pathname as i64, buf as i64, bufsize as i64, 0i64, 0i64],
    {
        SyscallFrame { nr: __lkl__NR_readlinkat as i64, params: [dfd as i64, pathname as i64, buf as i64, bufsize as i64, 0, 0] }
    }

    /// The `fchmodat` call: change the mode of `pathname` relative to `dirfd`. Addresses are passed as plain integers.
    pub fn fchmodat(dirfd: i32, pathname: usize, mode: u32) -> (f: SyscallFrame)
        ensures
            f.nr == __lkl__NR_fchmodat as i64,
            f.params@ == seq![dirfd as i64, pathname as i64, mode as i64, 0i64, 0i64, 0i64],
    {
        SyscallFrame { nr: __lkl__NR_fchmodat as i64, params: [dirfd as i64, pathname as i64, mode as i64, 0, 0, 0] }
    }

    /// The `fchmod` call: change the mode of `fd`. Addresses are passed as plain integers.
    pub fn fchmod(fd: i32, mode: u32) -> (f: SyscallFrame)
        ensures
            f.nr == __lkl__NR_fchmod as i64,
            f.params@ == seq![fd as i64, mode as i64, 0i64, 0i64, 0i64, 0i64],
    {
        SyscallFrame { nr: __lkl__NR_fchmod as i64, params: [fd as i64, mode as i64, 0, 0, 0, 0] }
    }

    /// The `fchownat` call: change the owner of `pathname` relative to `dfd`. Addresses are passed as plain integers.
    pub fn fchownat(dfd: i32, pathname: usize, uid: u32, gid: u32, flags: u32) -> (f: SyscallFrame)
        ensures
            f.nr == __lkl__NR_fchownat as i64,
            f.params@ == seq![dfd as i64, pathname as i64, uid as i64, gid as i64, flags as i64, 0i64],
    {
        SyscallFrame { nr: __lkl__NR_fchownat as i64, params: [dfd as i64, pathname as i64, uid as i64, gid as i64, flags as i64, 0] }
    }

    /// The `fchown` call: change the owner of `fd`. Addresses are passed as plain integers.
    pub fn fchown(fd: i32, user: u32, group: u32) -> (f: SyscallFrame)
        ensures
            f.nr == __lkl__NR_fchown as i64,
            f.params@ == seq![fd as i64, user as i64, group as i64, 0i64, 0i64, 0i64],
    {
        SyscallFrame { nr: __lkl__NR_fchown as i64, params: [fd as i64, user as i64, group as i64, 0, 0, 0] }
    }

    /// The `setxattr` call: set the extended attribute `strname` of `pathname`. Addresses are passed as plain integers.
    pub fn setxattr(pathname: usize, strname: usize, value: usize, size: usize, flags: u32) -> (f: SyscallFrame)
        ensures
            f.nr == __lkl__NR_setxattr as i64,
            f.params@ == seq![pathname as i64, strname as i64, value as i64, size as i64, flags as i64, 0i64],
    {
        SyscallFrame { nr: __lkl__NR_setxattr as i64, params: [pathname as i64, strname as i64, value as i64, size as i64, flags as i64, 0] }
    }

    /// The `listxattr` call: list the extended attributes of `pathname` into `list`. Addresses are passed as plain integers.
    pub fn listxattr(pathname: usize, list: usize) -> (f: SyscallFrame)
        ensures
            f.nr == __lkl__NR_listxattr as i64,
            f.params@ == seq![pathname as i64, list as i64, 0i64, 0i64, 0i64, 0i64],
    {
        SyscallFrame { nr: __lkl__NR_listxattr as i64, params: [pathname as i64, list as i64, 0, 0, 0, 0] }
    }

    /// The `llistxattr` call: list the extended attributes of the link `pathname` into `list`. Addresses are passed as plain integers.
    pub fn llistxattr(pathname: usize, list: usize, size: usize) -> (f: SyscallFrame)
        ensures
            f.nr == __lkl__NR_llistxattr as i64,
            f.params@ == seq![pathname as i64, list as i64, size as i64, 0i64, 0i64, 0i64],
    {
        SyscallFrame { nr: __lkl__NR_llistxattr as i64, params: [pathname as i64, list as i64, size as i64, 0, 0, 0] }
    }

    /// The `removexattr` call: remove the extended attribute `removename` of `pathname`. Addresses are passed as plain integers.
    pub fn removexattr(pathname: usize, removename: usize) -> (f: SyscallFrame)
        ensures
            f.nr == __lkl__NR_removexattr as i64,
            f.params@ == seq![pathname as i64, removename as i64, 0i64, 0i64, 0i64, 0i64],
    {
        SyscallFrame { nr: __lkl__NR_removexattr as i64, params: [pathname as i64, removename as i64, 0, 0, 0, 0] }
    }

    /// The `getxattr` call: read the extended attribute `pairname` of `pathname` into `value`. Addresses are passed as plain integers.
    pub fn getxattr(pathname: usize, pairname: usize, value: usize, size: usize) -> (f: SyscallFrame)
        ensures
            f.nr == __lkl__NR_getxattr as i64,
            f.params@ == seq![pathname as i64, pairname as i64, value as i64, size as i64, 0i64, 0i64],
    {
        SyscallFrame { nr: __lkl__NR_getxattr as i64, params: [pathname as i64, pairname as i64, value as i64, size as i64, 0, 0] }
    }

    /// The `fallocate` call: reserve space in `fd`. Addresses are passed as plain integers.
    pub fn fallocate(fd: i64, mode: i64, offset: i64, len: i64) -> (f: SyscallFrame)
        ensures
            f.nr == __lkl__NR_fallocate as i64,
            f.params@ == seq![fd, mode, offset, len, 0i64, 0i64],
    {
        SyscallFrame { nr: __lkl__NR_fallocate as i64, params: [fd, mode, offset, len, 0, 0] }
    }

    /// The `getresuid` call: store the real, effective and saved user ids at the three addresses. Addresses are passed as plain integers.
    pub fn getresuid(ruid: usize, euid: usize, suid: usize) -> (f: SyscallFrame)
        ensures
            f.nr == __lkl__NR_getresuid as i64,
            f.params@ == seq![ruid as i64, euid as i64, suid as i64, 0i64, 0i64, 0i64],
    {
        SyscallFrame { nr: __lkl__NR_getresuid as i64, params: [ruid as i64, euid as i64, suid as i64, 0, 0, 0] }
    }

    /// The `getresgid` call: store the real, effective and saved group ids at the three addresses. Addresses are passed as plain integers.
    pub fn getresgid(ruid: usize, euid: usize, suid: usize) -> (f: SyscallFrame)
        ensures
            f.nr == __lkl__NR_getresgid as i64,
            f.params@ == seq![ruid as i64, euid as i64, suid as i64, 0i64, 0i64, 0i64],
    {
        SyscallFrame { nr: __lkl__NR_getresgid as i64, params: [ruid as i64, euid as i64, suid as i64, 0, 0, 0] }
    }

    /// The `chdir` call: change the working directory to `path`. Addresses are passed as plain integers.
    pub fn chdir(path: usize) -> (f: SyscallFrame)
        ensures
            f.nr == __lkl__NR_chdir as i64,
            f.params@ == seq![path as i64, 0i64, 0i64, 0i64, 0i64, 0i64],
    {
        SyscallFrame { nr: __lkl__NR_chdir as i64, params: [path as i64, 0, 0, 0, 0, 0] }
    }

    /// `open`: `openat` relative to the current working directory.
    pub fn open(file: usize, flags: u32, mode: u32) -> (f: SyscallFrame)
        ensures
            f.nr == __lkl__NR_openat as i64,
            f.params@ == seq![LKL_AT_FDCWD as i64, file as i64, flags as i64, mode as i64, 0i64, 0i64],
    {
        Self::openat(LKL_AT_FDCWD, file, flags, mode)
    }

    /// `rename`: `renameat` with both names relative to the current working directory.
    pub fn rename(old: usize, new: usize) -> (f: SyscallFrame)
        ensures
            f.nr == __lkl__NR_renameat as i64,
            f.params@ == seq![LKL_AT_FDCWD as i64, old as i64, LKL_AT_FDCWD as i64, new as i64, 0i64, 0i64],
    {
        Self::renameat(LKL_AT_FDCWD, old, LKL_AT_FDCWD, new)
    }

    /// `access`: `faccessat` relative to the current working directory.
    pub fn access(file: usize, mode: i32) -> (f: SyscallFrame)
        ensures
            f.nr == __lkl__NR_faccessat as i64,
            f.params@ == seq![LKL_AT_FDCWD as i64, file as i64, mode as i64, 0i64, 0i64, 0i64],
    {
        Self::faccessat(LKL_AT_FDCWD, file, mode)
    }

    /// `mkdir`: `mkdirat` relative to the current working directory.
    pub fn mkdir(path: usize, mode: u32) -> (f: SyscallFrame)
        ensures
            f.nr == __lkl__NR_mkdirat as i64,
            f.params@ == seq![LKL_AT_FDCWD as i64, path as i64, mode as i64, 0i64, 0i64, 0i64],
    {
        Self::mkdirat(LKL_AT_FDCWD, path, mode)
    }

    /// `rmdir`: `unlinkat` relative to the current working directory with the
    /// directory-removal flag.
    pub fn rmdir(path: usize) -> (f: SyscallFrame)
        ensures
            f.nr == __lkl__NR_unlinkat as i64,
            f.params@ == seq![LKL_AT_FDCWD as i64, path as i64, LKL_AT_REMOVEDIR as i64, 0i64, 0i64, 0i64],
    {
        Self::unlinkat(LKL_AT_FDCWD, path, LKL_AT_REMOVEDIR)
    }

    /// `link`: `linkat` with both names relative to the current working
    /// directory and no flags.
    pub fn link(existing: usize, new: usize) -> (f: SyscallFrame)
        ensures
            f.nr == __lkl__NR_linkat as i64,
            f.params@ == seq![LKL_AT_FDCWD as i64, existing as i64, LKL_AT_FDCWD as i64, new as i64, 0i64, 0i64],
    {
        Self::linkat(LKL_AT_FDCWD, existing, LKL_AT_FDCWD, new, 0)
    }

    /// `unlink`: `unlinkat` whose directory argument is the value of the
    /// directory-removal flag, with no flags.
    pub fn unlink(existing: usize) -> (f: SyscallFrame)
        ensures
            f.nr == __lkl__NR_unlinkat as i64,
            f.params@ == seq![LKL_AT_REMOVEDIR as i64, existing as i64, 0i64, 0i64, 0i64, 0i64],
    {
        Self::unlinkat(LKL_AT_REMOVEDIR as i32, existing, 0)
    }

    /// `symlink`: `symlinkat` with the link name relative to the current
    /// working directory.
    pub fn symlink(existing: usize, new: usize) -> (f: SyscallFrame)
        ensures
            f.nr == __lkl__NR_symlinkat as i64,
            f.params@ == seq![existing as i64, LKL_AT_FDCWD as i64, new as i64, 0i64, 0i64, 0i64],
    {
        Self::symlinkat(existing, LKL_AT_FDCWD, new)
    }

    /// `readlink`: `readlinkat` relative to the current working directory.
    pub fn readlink(pathname: usize, buf: usize, bufsize: i32) -> (f: SyscallFrame)
        ensures
            f.nr == __lkl__NR_readlinkat as i64,
            f.params@ == seq![LKL_AT_FDCWD as i64, pathname as i64, buf as i64, bufsize as i64, 0i64, 0i64],
    {
        Self::readlinkat(LKL_AT_FDCWD, pathname, buf, bufsize)
    }

    /// `chmod`: `fchmodat` relative to the current working directory.
    pub fn chmod(path: usize, mode: u32) -> (f: SyscallFrame)
        ensures
            f.nr == __lkl__NR_fchmodat as i64,
            f.params@ == seq![LKL_AT_FDCWD as i64, path as i64, mode as i64, 0i64, 0i64, 0i64],
    {
        Self::fchmodat(LKL_AT_FDCWD, path, mode)
    }

    /// `chown`: `fchownat` relative to the current working directory with no
    /// flags.
    pub fn chown(path: usize, uid: u32, gid: u32) -> (f: SyscallFrame)
        ensures
            f.nr == __lkl__NR_fchownat as i64,
            f.params@ == seq![LKL_AT_FDCWD as i64, path as i64, uid as i64, gid as i64, 0i64, 0i64],
    {
        Self::fchownat(LKL_AT_FDCWD, path, uid, gid, 0)
    }
}

} // verus!
