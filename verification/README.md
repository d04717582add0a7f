# penguincrab

A wrapper for the [Linux Kernel Library](https://github.com/lkl/linux.git)
(LKL), with its logic verified by Verus.

- `src/` is the verified library:
  - `consts.rs`: the flags and system call numbers of the LKL ABI;
  - `syscall.rs`: `SyscallFrame`, the argument layout of each system call;
  - `cstr.rs`: the rules for strings handed to C (`to_cstr`, `from_cstr`);
  - `setup.rs`: `LklSetupArgs` and the protocol that opens a disk image,
    starts the kernel, mounts the disk and changes into the mount point;
  - `text.rs`: facts about NUL and UTF-8, and the calls into std.
- `app/` holds what talks to liblkl itself: the C declarations, the
  `lkl_sys_*` functions, `LklSetup` (which runs the setup protocol and tears
  the kernel down when dropped) and a small program that writes and reads a
  file on a mounted image.
- `tests/` runs the library on concrete values.
