use penguincrab::{
    SyscallFrame, LKL_AT_FDCWD, LKL_AT_REMOVEDIR, LKL_O_CREAT, LKL_O_RDONLY, LKL_O_RDWR,
    LKL_O_WRONLY,
};

#[test]
fn open_flags_have_their_abi_values() {
    assert_eq!(LKL_O_RDONLY, 0);
    assert_eq!(LKL_O_WRONLY, 1);
    assert_eq!(LKL_O_RDWR, 2);
    assert_eq!(LKL_O_CREAT, 64);
    assert_eq!(LKL_O_RDWR | LKL_O_CREAT, 66);
    assert_eq!(LKL_AT_FDCWD, -100);
    assert_eq!(LKL_AT_REMOVEDIR, 512);
}

#[test]
fn open_is_openat_from_the_working_directory() {
    let f = SyscallFrame::open(0x1000, LKL_O_RDWR | LKL_O_CREAT, 0o644);
    assert_eq!(f.nr, 56);
    assert_eq!(f.params, [-100, 0x1000, 66, 0o644, 0, 0]);
    let g = SyscallFrame::openat(LKL_AT_FDCWD, 0x1000, LKL_O_RDWR | LKL_O_CREAT, 0o644);
    assert_eq!(f.nr, g.nr);
    assert_eq!(f.params, g.params);
}

#[test]
fn read_write_and_close_frames() {
    let r = SyscallFrame::read(3, 0x2000, 26);
    assert_eq!((r.nr, r.params), (63, [3, 0x2000, 26, 0, 0, 0]));
    let w = SyscallFrame::write(3, 0x2000, 26);
    assert_eq!((w.nr, w.params), (64, [3, 0x2000, 26, 0, 0, 0]));
    let c = SyscallFrame::close(3);
    assert_eq!((c.nr, c.params), (57, [3, 0, 0, 0, 0, 0]));
}

#[test]
fn negative_descriptors_are_sign_extended() {
    let f = SyscallFrame::fsync(-1);
    assert_eq!(f.params[0], -1);
    let g = SyscallFrame::lseek(-9, 3, 0);
    assert_eq!((g.nr, g.params), (62, [-9, 3, 0, 0, 0, 0]));
}

#[test]
fn large_unsigned_arguments_wrap_like_c_longs() {
    let f = SyscallFrame::pread64(4, 0x3000, 10, u64::MAX);
    assert_eq!((f.nr, f.params), (67, [4, 0x3000, 10, -1, 0, 0]));
    let m = SyscallFrame::mmap(0x5b0000, 0x1000, 3, 0x32, -1, 0);
    assert_eq!((m.nr, m.params), (222, [0x5b0000, 0x1000, 3, 0x32, -1, 0]));
}

#[test]
fn rmdir_removes_a_directory_from_the_working_directory() {
    let f = SyscallFrame::rmdir(0x4000);
    assert_eq!((f.nr, f.params), (35, [-100, 0x4000, 512, 0, 0, 0]));
}

#[test]
fn unlink_passes_the_removal_flag_as_the_directory() {
    let f = SyscallFrame::unlink(0x4000);
    assert_eq!((f.nr, f.params), (35, [512, 0x4000, 0, 0, 0, 0]));
}

#[test]
fn path_wrappers_use_the_working_directory() {
    let f = SyscallFrame::rename(1, 2);
    assert_eq!((f.nr, f.params), (38, [-100, 1, -100, 2, 0, 0]));
    let f = SyscallFrame::access(1, 4);
    assert_eq!((f.nr, f.params), (48, [-100, 1, 4, 0, 0, 0]));
    let f = SyscallFrame::mkdir(1, 0o755);
    assert_eq!((f.nr, f.params), (34, [-100, 1, 0o755, 0, 0, 0]));
    let f = SyscallFrame::link(1, 2);
    assert_eq!((f.nr, f.params), (37, [-100, 1, -100, 2, 0, 0]));
    let f = SyscallFrame::symlink(1, 2);
    assert_eq!((f.nr, f.params), (36, [1, -100, 2, 0, 0, 0]));
    let f = SyscallFrame::readlink(1, 2, 64);
    assert_eq!((f.nr, f.params), (78, [-100, 1, 2, 64, 0, 0]));
    let f = SyscallFrame::chmod(1, 0o600);
    assert_eq!((f.nr, f.params), (53, [-100, 1, 0o600, 0, 0, 0]));
    let f = SyscallFrame::chown(1, 1000, 100);
    assert_eq!((f.nr, f.params), (54, [-100, 1, 1000, 100, 0, 0]));
}

#[test]
fn remaining_frames() {
    assert_eq!(SyscallFrame::fstat(3, 8).params, [3, 8, 0, 0, 0, 0]);
    assert_eq!(SyscallFrame::fstat(3, 8).nr, 80);
    assert_eq!(SyscallFrame::munmap(8, 4096).nr, 215);
    assert_eq!(SyscallFrame::getdents64(3, 8, 280).nr, 61);
    assert_eq!(SyscallFrame::pwrite64(3, 8, 1, 2).params, [3, 8, 1, 2, 0, 0]);
    assert_eq!(SyscallFrame::pwrite64(3, 8, 1, 2).nr, 68);
    assert_eq!(SyscallFrame::renameat(1, 2, 3, 4).params, [1, 2, 3, 4, 0, 0]);
    assert_eq!(SyscallFrame::fdatasync(3).nr, 83);
    assert_eq!(SyscallFrame::syncfs(3).nr, 267);
    assert_eq!(SyscallFrame::sendfile(1, 2, 3, 4).params, [1, 2, 3, 4, 0, 0]);
    assert_eq!(SyscallFrame::sendfile(1, 2, 3, 4).nr, 71);
    assert_eq!(SyscallFrame::ftruncate(3, 10).nr, 46);
    assert_eq!(SyscallFrame::truncate(8, -1).params, [8, -1, 0, 0, 0, 0]);
    assert_eq!(SyscallFrame::truncate(8, -1).nr, 45);
    assert_eq!(SyscallFrame::fchmod(3, 0o600).nr, 52);
    assert_eq!(SyscallFrame::fchown(3, 1, 2).params, [3, 1, 2, 0, 0, 0]);
    assert_eq!(SyscallFrame::fchown(3, 1, 2).nr, 55);
    assert_eq!(SyscallFrame::setxattr(1, 2, 3, 4, 5).params, [1, 2, 3, 4, 5, 0]);
    assert_eq!(SyscallFrame::setxattr(1, 2, 3, 4, 5).nr, 5);
    assert_eq!(SyscallFrame::getxattr(1, 2, 3, 4).nr, 8);
    assert_eq!(SyscallFrame::listxattr(1, 2).params, [1, 2, 0, 0, 0, 0]);
    assert_eq!(SyscallFrame::listxattr(1, 2).nr, 11);
    assert_eq!(SyscallFrame::llistxattr(1, 2, 3).nr, 12);
    assert_eq!(SyscallFrame::removexattr(1, 2).nr, 14);
    assert_eq!(SyscallFrame::fallocate(1, 2, 3, 4).params, [1, 2, 3, 4, 0, 0]);
    assert_eq!(SyscallFrame::fallocate(1, 2, 3, 4).nr, 47);
    assert_eq!(SyscallFrame::getresuid(1, 2, 3).nr, 148);
    assert_eq!(SyscallFrame::getresgid(1, 2, 3).nr, 150);
    assert_eq!(SyscallFrame::chdir(9).params, [9, 0, 0, 0, 0, 0]);
    assert_eq!(SyscallFrame::chdir(9).nr, 49);
    assert_eq!(SyscallFrame::faccessat(5, 6, 7).params, [5, 6, 7, 0, 0, 0]);
    assert_eq!(SyscallFrame::mkdirat(5, 6, 7).nr, 34);
    assert_eq!(SyscallFrame::unlinkat(5, 6, 7).params, [5, 6, 7, 0, 0, 0]);
    assert_eq!(SyscallFrame::linkat(1, 2, 3, 4, 5).params, [1, 2, 3, 4, 5, 0]);
    assert_eq!(SyscallFrame::symlinkat(1, 2, 3).params, [1, 2, 3, 0, 0, 0]);
    assert_eq!(SyscallFrame::readlinkat(1, 2, 3, 4).params, [1, 2, 3, 4, 0, 0]);
    assert_eq!(SyscallFrame::fchmodat(1, 2, 3).params, [1, 2, 3, 0, 0, 0]);
    assert_eq!(SyscallFrame::fchownat(1, 2, 3, 4, 5).params, [1, 2, 3, 4, 5, 0]);
}
