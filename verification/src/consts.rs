use vstd::prelude::*;

verus! {

// Values of the generic Linux ABI that LKL builds on.

/// `dirfd` value that makes a path relative to the current working directory.
pub const LKL_AT_FDCWD: i32 = -100;

/// `unlinkat` flag that removes a directory instead of a file.
pub const LKL_AT_REMOVEDIR: u32 = 0x200;

/// Open for reading only.
pub const LKL_O_RDONLY: u32 = 0;

/// Open for writing only.
pub const LKL_O_WRONLY: u32 = 1;

/// Open for reading and writing.
pub const LKL_O_RDWR: u32 = 2;

/// Create the file if it does not exist.
pub const LKL_O_CREAT: u32 = 0o100;

pub const __lkl__NR_setxattr: u32 = 5;

pub const __lkl__NR_getxattr: u32 = 8;

pub const __lkl__NR_listxattr: u32 = 11;

pub const __lkl__NR_llistxattr: u32 = 12;

pub const __lkl__NR_removexattr: u32 = 14;

pub const __lkl__NR_mkdirat: u32 = 34;

pub const __lkl__NR_unlinkat: u32 = 35;

pub const __lkl__NR_symlinkat: u32 = 36;

pub const __lkl__NR_linkat: u32 = 37;

pub const __lkl__NR_renameat: u32 = 38;

pub const __lkl__NR_truncate: u32 = 45;

pub const __lkl__NR_ftruncate: u32 = 46;

pub const __lkl__NR_fallocate: u32 = 47;

pub const __lkl__NR_faccessat: u32 = 48;

pub const __lkl__NR_chdir: u32 = 49;

pub const __lkl__NR_fchmod: u32 = 52;

pub const __lkl__NR_fchmodat: u32 = 53;

pub const __lkl__NR_fchownat: u32 = 54;

pub const __lkl__NR_fchown: u32 = 55;

pub const __lkl__NR_openat: u32 = 56;

pub const __lkl__NR_close: u32 = 57;

pub const __lkl__NR_getdents64: u32 = 61;

pub const __lkl__NR_lseek: u32 = 62;

pub const __lkl__NR_read: u32 = 63;

pub const __lkl__NR_write: u32 = 64;

pub const __lkl__NR_pread64: u32 = 67;

pub const __lkl__NR_pwrite64: u32 = 68;

pub const __lkl__NR_sendfile: u32 = 71;

pub const __lkl__NR_readlinkat: u32 = 78;

pub const __lkl__NR_fstat: u32 = 80;

pub const __lkl__NR_fsync: u32 = 82;

pub const __lkl__NR_fdatasync: u32 = 83;

pub const __lkl__NR_getresuid: u32 = 148;

pub const __lkl__NR_getresgid: u32 = 150;

pub const __lkl__NR_munmap: u32 = 215;

pub const __lkl__NR_mmap: u32 = 222;

pub const __lkl__NR_syncfs: u32 = 267;

} // verus!
