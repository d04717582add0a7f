//! Verified core of a wrapper for the Linux Kernel Library (LKL): the
//! argument layout of its system calls, the rules for strings handed to C,
//! and the protocol that brings a kernel up on a disk image and mounts it.
#![allow(non_upper_case_globals)]
#![allow(non_snake_case)]

pub mod consts;
pub mod cstr;
pub mod setup;
pub mod syscall;
pub mod text;

pub use consts::{
    LKL_AT_FDCWD,
    LKL_AT_REMOVEDIR,
    LKL_O_RDONLY,
    LKL_O_WRONLY,
    LKL_O_RDWR,
    LKL_O_CREAT,
    __lkl__NR_setxattr,
    __lkl__NR_getxattr,
    __lkl__NR_listxattr,
    __lkl__NR_llistxattr,
    __lkl__NR_removexattr,
    __lkl__NR_mkdirat,
    __lkl__NR_unlinkat,
    __lkl__NR_symlinkat,
    __lkl__NR_linkat,
    __lkl__NR_renameat,
    __lkl__NR_truncate,
    __lkl__NR_ftruncate,
    __lkl__NR_fallocate,
    __lkl__NR_faccessat,
    __lkl__NR_chdir,
    __lkl__NR_fchmod,
    __lkl__NR_fchmodat,
    __lkl__NR_fchownat,
    __lkl__NR_fchown,
    __lkl__NR_openat,
    __lkl__NR_close,
    __lkl__NR_getdents64,
    __lkl__NR_lseek,
    __lkl__NR_read,
    __lkl__NR_write,
    __lkl__NR_pread64,
    __lkl__NR_pwrite64,
    __lkl__NR_sendfile,
    __lkl__NR_readlinkat,
    __lkl__NR_fstat,
    __lkl__NR_fsync,
    __lkl__NR_fdatasync,
    __lkl__NR_getresuid,
    __lkl__NR_getresgid,
    __lkl__NR_munmap,
    __lkl__NR_mmap,
    __lkl__NR_syncfs,
};
pub use cstr::{from_cstr, to_cstr};
pub use setup::LklSetupArgs;
pub use syscall::SyscallFrame;
