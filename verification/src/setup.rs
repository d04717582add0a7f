use vstd::prelude::*;
use vstd::string::StringSliceAdditionalSpecFns;
use vstd::utf8::{
    decode_utf8, decode_utf8_encode_utf8, encode_utf8, encode_utf8_decode_utf8,
    encode_utf8_valid_utf8, encode_scalar, is_char_boundary, is_leading_byte_width_1, partial_valid_utf8_extend_ascii_block,
    valid_utf8,
};
use crate::cstr::{check_cstr, is_c_string, CStrCheck};
use crate::text::{
    count_nul, find_zero, first_zero, lemma_count_nul_push, lemma_count_nul_zero,
    lemma_encode_concat, lemma_encode_nul, lemma_first_zero, lemma_nul_gives_zero,
    lemma_zero_is_nul, lemma_ascii_lead, lemma_char_boundary, str_eq, utf8_failure_of, str_from_utf8, Utf8Failure,
};

verus! {

// ---------------------------------------------------------------------------
// The mount point that LKL writes into its buffer.
// ---------------------------------------------------------------------------

/// Of a valid UTF-8 buffer whose first zero byte stands at `z`: the bytes
/// before `z`, and those up to and including it, are valid UTF-8; the first
/// decode to a text without NUL, and the second to that text followed by
/// NUL, which `to_cstr` accepts.
pub proof fn lemma_mount_point(buf: Seq<u8>, z: int)
    requires
        valid_utf8(buf),
        first_zero(buf) == Some(z),
    ensures
        0 <= z < buf.len(),
        valid_utf8(buf.subrange(0, z)),
        valid_utf8(buf.subrange(0, z + 1)),
        encode_utf8(decode_utf8(buf.subrange(0, z))) == buf.subrange(0, z),
        count_nul(decode_utf8(buf.subrange(0, z))) == 0,
        decode_utf8(buf.subrange(0, z + 1)) == decode_utf8(buf.subrange(0, z)).push('\0'),
        is_c_string(decode_utf8(buf.subrange(0, z + 1))),
        is_char_boundary(buf, z),
        is_char_boundary(buf, z + 1),
{
    lemma_first_zero(buf);
    let d = decode_utf8(buf);
    decode_utf8_encode_utf8(buf);
    assert(encode_utf8(d) == buf);
    let k = lemma_zero_is_nul(d, z);
    let pre = d.take(k);
    let with_nul = d.take(k + 1);
    assert(d =~= pre + d.skip(k));
    lemma_encode_concat(pre, d.skip(k));
    assert(buf.subrange(0, z) =~= encode_utf8(pre));
    assert(with_nul =~= pre + seq!['\0']);
    lemma_encode_concat(pre, seq!['\0']);
    lemma_encode_nul();
    assert(buf.subrange(0, z + 1) =~= encode_utf8(with_nul));
    encode_utf8_valid_utf8(pre);
    encode_utf8_valid_utf8(with_nul);
    encode_utf8_decode_utf8(pre);
    encode_utf8_decode_utf8(with_nul);
    // No NUL before the first zero byte.
    assert forall|i: int| 0 <= i < pre.len() implies pre[i] != '\0' by {
        if pre[i] == '\0' {
            lemma_nul_gives_zero(pre, i);
            let j = encode_utf8(pre.take(i)).len() as int;
            assert(buf[j] == encode_utf8(pre)[j]);
        }
    }
    lemma_count_nul_zero(pre);
    assert(with_nul == pre.push('\0'));
    lemma_count_nul_push(pre, '\0');
    lemma_char_boundary(d, k);
    lemma_char_boundary(d, k + 1);
}

/// Of a valid UTF-8 buffer without a zero byte whose first byte is ASCII:
/// that byte alone is valid UTF-8, and the one-character text it decodes to
/// is not a C string.
pub proof fn lemma_first_character(buf: Seq<u8>)
    requires
        valid_utf8(buf),
        first_zero(buf) is None,
        buf.len() > 0,
        buf[0] < 0x80,
    ensures
        valid_utf8(buf.subrange(0, 1)),
        !is_c_string(decode_utf8(buf.subrange(0, 1))),
        is_char_boundary(buf, 1),
{
    lemma_first_zero(buf);
    assert(buf.subrange(0, 0) =~= Seq::<u8>::empty());
    assert(valid_utf8(buf.subrange(0, 0)));
    assert(is_leading_byte_width_1(buf[0]));
    partial_valid_utf8_extend_ascii_block(buf, 0, 1);
    let one = buf.subrange(0, 1);
    let d = decode_utf8(one);
    decode_utf8_encode_utf8(one);
    assert forall|i: int| 0 <= i < d.len() implies d[i] != '\0' by {
        if d[i] == '\0' {
            lemma_nul_gives_zero(d, i);
            let j = encode_utf8(d.take(i)).len() as int;
            assert(one[j] == buf[j]);
        }
    }
    lemma_count_nul_zero(d);
    if d.len() > 0 {
        assert(d.last() == d[d.len() - 1]);
    }
    // The first character is the one ASCII byte.
    let all = decode_utf8(buf);
    decode_utf8_encode_utf8(buf);
    assert(all.len() > 0);
    assert(encode_utf8(all) == encode_scalar(all[0] as u32) + encode_utf8(all.drop_first()));
    assert(encode_scalar(all[0] as u32)[0] == buf[0]);
    lemma_ascii_lead(all[0]);
    assert(all.take(1) =~= seq![all[0]]);
    assert(seq![all[0]].drop_first() =~= Seq::<char>::empty());
    assert(encode_utf8(seq![all[0]]) =~= encode_scalar(all[0] as u32) + encode_utf8(
        Seq::<char>::empty(),
    ));
    lemma_char_boundary(all, 1);
}

/// Why setting up LKL stops with a panic, each with its message.
#[derive(PartialEq, Eq, Structural, Debug, Clone, Copy)]
pub enum SetupPanic {
    /// The disk image could not be opened.
    ImageOpen,
    /// The boot settings are not a C string.
    BootSettingsNul,
    /// The file system type is not a C string.
    FilesystemTypeNul,
    /// The mount options are not a C string.
    MountOptionsNul,
    /// The mount point buffer is not valid UTF-8.
    MountPointNotUtf8,
    /// The mount point buffer holds no NUL and cannot be cut after its first
    /// byte (it is empty, or its first character takes more than one byte).
    /// The panic is std's own, raised by that cut of the announced text; its
    /// message names the text and, for a character, shows it escaped, so
    /// `message` gives only its opening words.
    MountPointCut,
    /// The mount point buffer holds no NUL.
    MountPointNoNul,
}

impl SetupPanic {
    /// The message that goes with the panic.
    pub fn message(&self) -> (r: &'static str)
        ensures
            *self == SetupPanic::ImageOpen ==> r@ == "Error opening"@,
            *self == SetupPanic::BootSettingsNul ==> r@ == "boot_settings formats null bytes wrong"@,
            *self == SetupPanic::FilesystemTypeNul ==> r@ == "filesystem has incorrect nulls"@,
            *self == SetupPanic::MountOptionsNul ==> r@ == "mount options has incorrect nulls"@,
            *self == SetupPanic::MountPointNotUtf8
                ==> r@ == "called `Result::unwrap()` on an `Err` value"@,
            *self == SetupPanic::MountPointCut ==> r@ == "byte index 1 is"@,
            *self == SetupPanic::MountPointNoNul ==> r@ == "mount point has null"@,
    {
        match self {
            SetupPanic::ImageOpen => "Error opening",
            SetupPanic::BootSettingsNul => "boot_settings formats null bytes wrong",
            SetupPanic::FilesystemTypeNul => "filesystem has incorrect nulls",
            SetupPanic::MountOptionsNul => "mount options has incorrect nulls",
            SetupPanic::MountPointNotUtf8 => "called `Result::unwrap()` on an `Err` value",
            SetupPanic::MountPointCut => "byte index 1 is",
            SetupPanic::MountPointNoNul => "mount point has null",
        }
    }
}

/// A panic of the setup, with what is printed before it.
pub struct SetupAbort {
    pub reason: SetupPanic,
    /// A text announced as the mount point before the panic.
    pub announce: Option<String>,
    /// A string that `to_cstr` refused just before the panic; its complaint
    /// is printed.
    pub refused: Option<String>,
    /// The UTF-8 error that the panic reports.
    pub utf8_error: Option<Utf8Failure>,
}

/// A panic with nothing printed before it.
pub open spec fn simple_abort(a: SetupAbort, reason: SetupPanic) -> bool {
    &&& a.reason == reason
    &&& a.announce is None
    &&& a.refused is None
    &&& a.utf8_error is None
}

/// A panic after `to_cstr` refused `text`.
pub open spec fn refused_abort(a: SetupAbort, reason: SetupPanic, text: Seq<char>) -> bool {
    &&& a.reason == reason
    &&& a.announce is None
    &&& a.refused matches Some(s) && s@ == text
    &&& a.utf8_error is None
}

/// The panic on a mount point buffer that is not valid UTF-8 or holds no
/// NUL. An invalid buffer panics at once, with its UTF-8 error. Otherwise the
/// whole buffer is announced as the mount point, and its first character is
/// cut off to be handed to `to_cstr`: the cut panics when the buffer is
/// empty or starts with a character of more than one byte; else `to_cstr`
/// refuses that character, which is not NUL.
pub open spec fn mount_point_abort(buffer: Seq<u8>, a: SetupAbort) -> bool {
    if !valid_utf8(buffer) {
        &&& a.reason == SetupPanic::MountPointNotUtf8
        &&& a.announce is None
        &&& a.refused is None
        &&& a.utf8_error matches Some(f) && utf8_failure_of(buffer, f)
    } else if buffer.len() == 0 || buffer[0] >= 0x80 {
        &&& a.reason == SetupPanic::MountPointCut
        &&& a.announce matches Some(t) && t@ == decode_utf8(buffer)
        &&& a.refused is None
        &&& a.utf8_error is None
    } else {
        &&& a.reason == SetupPanic::MountPointNoNul
        &&& a.announce matches Some(t) && t@ == decode_utf8(buffer)
        &&& a.refused matches Some(s) && s@ == decode_utf8(buffer.subrange(0, 1))
        &&& a.utf8_error is None
    }
}

/// The three texts drawn from the mount point buffer.
pub struct MountPointText {
    /// The whole buffer, as it is announced.
    pub announce: String,
    /// The mount point with its closing NUL, handed to `chdir`.
    pub path: String,
    /// The mount point without NUL.
    pub mount_point: String,
}

/// The texts drawn from a valid buffer whose first NUL stands at `z`.
pub open spec fn mount_point_text(buffer: Seq<u8>, t: MountPointText) -> bool {
    let z = first_zero(buffer)->0;
    &&& t.announce@ == decode_utf8(buffer)
    &&& t.path@ == decode_utf8(buffer.subrange(0, z + 1))
    &&& t.mount_point@ == decode_utf8(buffer.subrange(0, z))
}

/// Reads the mount point out of the buffer that LKL filled: the buffer must
/// be valid UTF-8 and hold a NUL; the mount point is the text before the
/// first NUL.
pub fn mount_point_from_buffer(buffer: &[u8]) -> (r: Result<MountPointText, SetupAbort>)
    ensures
        r is Ok <==> valid_utf8(buffer@) && first_zero(buffer@) is Some,
        r matches Ok(t) ==> mount_point_text(buffer@, t),
        r matches Err(a) ==> mount_point_abort(buffer@, a),
{
    let full = match str_from_utf8(buffer) {
        Ok(s) => s,
        Err(f) => {
            return Err(
                SetupAbort {
                    reason: SetupPanic::MountPointNotUtf8,
                    announce: None,
                    refused: None,
                    utf8_error: Some(f),
                },
            );
        },
    };
    proof {
        // The text holds exactly the bytes of the buffer.
        decode_utf8_encode_utf8(buffer@);
        assert(full.spec_bytes() == buffer@);
    }
    let n = buffer.len();
    let z = match find_zero(buffer) {
        Some(z) => z,
        None => {
            if n == 0 || buffer[0] >= 0x80 {
                return Err(
                    SetupAbort {
                        reason: SetupPanic::MountPointCut,
                        announce: Some(full.to_owned()),
                        refused: None,
                        utf8_error: None,
                    },
                );
            }
            proof {
                lemma_first_character(buffer@);
            }
            let (first, _) = full.split_at(1);
            proof {
                encode_utf8_decode_utf8(first@);
            }
            return Err(
                SetupAbort {
                    reason: SetupPanic::MountPointNoNul,
                    announce: Some(full.to_owned()),
                    refused: Some(first.to_owned()),
                    utf8_error: None,
                },
            );
        },
    };
    proof {
        lemma_mount_point(buffer@, z as int);
    }
    assert(z < n);
    let (with_nul, _) = full.split_at(z + 1);
    let (without_nul, _) = full.split_at(z);
    proof {
        encode_utf8_decode_utf8(with_nul@);
        encode_utf8_decode_utf8(without_nul@);
    }
    Ok(
        MountPointText {
            announce: full.to_owned(),
            path: with_nul.to_owned(),
            mount_point: without_nul.to_owned(),
        },
    )
}

// ---------------------------------------------------------------------------
// The settings.
// ---------------------------------------------------------------------------

/// The settings of an LKL instance. The disk image is opened by name; the
/// boot settings set the memory and log level of the kernel (for example
/// `mem=128M loglevel=8`); `on_panic` runs when the kernel panics and
/// `print` takes the place of `printk`. Strings handed to the kernel must end
/// in NUL. `F` is the type of the two callbacks (a function pointer, `fn()`).
pub struct LklSetupArgs<F> {
    pub filename: String,
    pub boot_settings: Option<String>,
    pub partition_num: Option<u32>,
    pub filesystem_type: Option<String>,
    pub filesystem_options: Option<String>,
    pub on_panic: Option<F>,
    pub print: Option<F>,
}

/// The boot settings used when none are given.
pub open spec fn default_boot_settings() -> Seq<char> {
    "mem=128M loglevel=8\0"@
}

/// The file system type used when none is given.
pub open spec fn default_filesystem_type() -> Seq<char> {
    "ext4\0"@
}

/// The size of the buffer into which LKL writes the mount point.
pub const MOUNT_POINT_BUFFER_LEN: u32 = 100;

/// The mount options used for a file system type when none are given.
/// The type is compared as it is given, so a type written with its closing
/// NUL, as the default one is, gets the empty options.
pub open spec fn default_mount_options(fs_type: Seq<char>) -> Seq<char> {
    if fs_type == "ext4"@ {
        "errors=remount-ro\0"@
    } else if fs_type == "btrfs"@ {
        "thread_pool=1\0"@
    } else if fs_type == "gfs2"@ {
        "acl\0"@
    } else if fs_type == "reiserfs"@ {
        "acl,user_xattr\0"@
    } else {
        "\0"@
    }
}

/// The defaults are C strings, so that a setup without settings never stops
/// on them; and since the default file system type carries its NUL, it gets
/// the empty mount options.
pub proof fn lemma_defaults()
    ensures
        is_c_string(default_boot_settings()),
        is_c_string(default_filesystem_type()),
        default_mount_options(default_filesystem_type()) == "\0"@,
        is_c_string("\0"@),
{
    reveal_strlit("mem=128M loglevel=8\0");
    reveal_strlit("ext4\0");
    reveal_strlit("ext4");
    reveal_strlit("btrfs");
    reveal_strlit("gfs2");
    reveal_strlit("reiserfs");
    reveal_strlit("\0");
    let boot = default_boot_settings();
    let fs = default_filesystem_type();
    assert(fs.len() == 5);
    assert(fs != "ext4"@);
    assert(fs[0] != "btrfs"@[0]);
    assert(fs != "btrfs"@);
    assert(fs != "gfs2"@);
    assert(fs != "reiserfs"@);
    lemma_count_nul_zero(boot.drop_last());
    assert(count_nul(boot.drop_last()) == 0);
    lemma_count_nul_zero(fs.drop_last());
    assert(count_nul(fs.drop_last()) == 0);
    lemma_count_nul_zero("\0"@.drop_last());
}

/// The four file system types with options of their own are distinct.
pub proof fn lemma_type_names_differ()
    ensures
        "ext4"@ != "btrfs"@,
        "ext4"@ != "gfs2"@,
        "ext4"@ != "reiserfs"@,
        "btrfs"@ != "gfs2"@,
        "btrfs"@ != "reiserfs"@,
        "gfs2"@ != "reiserfs"@,
{
    reveal_strlit("ext4");
    reveal_strlit("btrfs");
    reveal_strlit("gfs2");
    reveal_strlit("reiserfs");
    assert("ext4"@.len() == 4);
    assert("btrfs"@.len() == 5);
    assert("gfs2"@.len() == 4);
    assert("reiserfs"@.len() == 8);
    assert("ext4"@[0] != "gfs2"@[0]);
}

/// The mount options used for `fs_type` when none are given.
pub fn mount_options_for(fs_type: &str) -> (r: &'static str)
    ensures
        r@ == default_mount_options(fs_type@),
        fs_type@ == "ext4"@ ==> r@ == "errors=remount-ro\0"@,
        fs_type@ == "btrfs"@ ==> r@ == "thread_pool=1\0"@,
        fs_type@ == "gfs2"@ ==> r@ == "acl\0"@,
        fs_type@ == "reiserfs"@ ==> r@ == "acl,user_xattr\0"@,
        fs_type@ != "ext4"@ && fs_type@ != "btrfs"@ && fs_type@ != "gfs2"@ && fs_type@
            != "reiserfs"@ ==> r@ == "\0"@,
{
    proof {
        lemma_type_names_differ();
    }
    if str_eq(fs_type, "ext4") {
        "errors=remount-ro\0"
    } else if str_eq(fs_type, "btrfs") {
        "thread_pool=1\0"
    } else if str_eq(fs_type, "gfs2") {
        "acl\0"
    } else if str_eq(fs_type, "reiserfs") {
        "acl,user_xattr\0"
    } else {
        "\0"
    }
}

/// The settings with their defaults filled in.
pub struct SetupPlan {
    pub filename: String,
    pub boot_settings: Option<String>,
    pub partition: u32,
    pub filesystem_type: String,
    pub mount_options: String,
    pub custom_panic: bool,
    pub custom_print: bool,
}

/// The boot argument handed to the kernel.
pub open spec fn boot_argument(plan: SetupPlan) -> Seq<char> {
    match plan.boot_settings {
        Some(k) => k@,
        None => default_boot_settings(),
    }
}

/// `plan` is `args` with the defaults filled in.
pub open spec fn plan_of<F>(args: LklSetupArgs<F>, plan: SetupPlan) -> bool {
    &&& plan.filename@ == args.filename@
    &&& (plan.boot_settings is Some <==> args.boot_settings is Some)
    &&& (plan.boot_settings matches Some(k) ==> k@ == args.boot_settings->0@)
    &&& plan.partition == match args.partition_num {
        Some(p) => p,
        None => 0u32,
    }
    &&& plan.filesystem_type@ == match args.filesystem_type {
        Some(t) => t@,
        None => default_filesystem_type(),
    }
    &&& plan.mount_options@ == match args.filesystem_options {
        Some(o) => o@,
        None => default_mount_options(plan.filesystem_type@),
    }
    &&& plan.custom_panic == args.on_panic is Some
    &&& plan.custom_print == args.print is Some
}

impl SetupPlan {
    /// Fills in the defaults: partition 0, file system type `ext4\0`, the
    /// mount options of that type, and the default boot settings when none
    /// are given.
    pub fn from_args<F>(args: &LklSetupArgs<F>) -> (plan: SetupPlan)
        ensures
            plan_of(*args, plan),
            plan.filename@ == args.filename@,
            args.boot_settings matches Some(k) ==> plan.boot_settings matches Some(p) && p@ == k@,
            args.boot_settings is None ==> plan.boot_settings is None,
            args.partition_num matches Some(p) ==> plan.partition == p,
            args.partition_num is None ==> plan.partition == 0,
            args.filesystem_type matches Some(t) ==> plan.filesystem_type@ == t@,
            args.filesystem_type is None ==> plan.filesystem_type@ == "ext4\0"@,
            args.filesystem_options matches Some(o) ==> plan.mount_options@ == o@,
            plan.custom_panic <==> args.on_panic is Some,
            plan.custom_print <==> args.print is Some,
    {
        let boot_settings = match &args.boot_settings {
            Some(k) => Some(k.clone()),
            None => None,
        };
        let partition = match args.partition_num {
            Some(p) => p,
            None => 0,
        };
        let filesystem_type = match &args.filesystem_type {
            Some(t) => t.clone(),
            None => "ext4\0".to_owned(),
        };
        let mount_options = match &args.filesystem_options {
            Some(o) => o.clone(),
            None => mount_options_for(filesystem_type.as_str()).to_owned(),
        };
        SetupPlan {
            filename: args.filename.clone(),
            boot_settings,
            partition,
            filesystem_type,
            mount_options,
            custom_panic: args.on_panic.is_some(),
            custom_print: args.print.is_some(),
        }
    }
}

// ---------------------------------------------------------------------------
// The setup protocol.
// ---------------------------------------------------------------------------

/// Where the setup stands.
#[derive(PartialEq, Eq, Structural, Debug, Clone, Copy)]
pub enum SetupPhase {
    /// Nothing done yet.
    Start,
    /// Waiting for the disk image to be opened.
    AwaitImage,
    /// Waiting for the disk to be added and the kernel to start.
    AwaitKernel { image_fd: i32 },
    /// Waiting for the disk to be mounted.
    AwaitMount { image_fd: i32, disk_id: u32 },
    /// Waiting for the change into the mount point.
    AwaitChdir { image_fd: i32, disk_id: u32 },
    /// Finished, one way or another.
    Done,
}

/// What the outside world reports back.
pub enum SetupEvent {
    /// Start the setup.
    Begin,
    /// The disk image is open, as the raw descriptor `fd`.
    ImageOpened { fd: i32 },
    /// The disk image could not be opened.
    ImageOpenFailed,
    /// `lkl_disk_add` returned `disk_id` (its result taken as `u32`) and the
    /// kernel was started.
    KernelStarted { disk_id: u32 },
    /// `lkl_mount_dev` returned `ret` (taken as `i32`) and left `buffer`.
    MountFinished { ret: i32, buffer: Vec<u8> },
    /// The `chdir` system call returned `result`.
    ChdirFinished { result: i64 },
}

/// Why the setup fails with an error.
#[derive(PartialEq, Eq, Structural, Debug, Clone, Copy)]
pub enum SetupError {
    /// `lkl_disk_add` returned the negative `code`.
    DiskAdd { code: i32 },
    /// `lkl_mount_dev` returned the negative `code`.
    Mount { code: i32 },
    /// The change into the mount point failed.
    Chdir,
}

impl SetupError {
    /// The error returned to the caller.
    pub fn message(&self) -> (r: &'static str)
        ensures
            *self is DiskAdd ==> r@ == "Couldn't add disk"@,
            *self is Mount ==> r@ == "lkl_mount_dev failed"@,
            *self is Chdir ==> r@ == "Can't chdir to moint point corrupted filesystem"@,
    {
        match self {
            SetupError::DiskAdd { .. } => "Couldn't add disk",
            SetupError::Mount { .. } => "lkl_mount_dev failed",
            SetupError::Chdir => "Can't chdir to moint point corrupted filesystem",
        }
    }

    /// Whether the kernel is halted before the error is returned: after a
    /// failed disk add or mount it is, after a failed `chdir` it is left
    /// running.
    pub fn halts_kernel(&self) -> (r: bool)
        ensures
            r == !(*self is Chdir),
    {
        match self {
            SetupError::Chdir => false,
            _ => true,
        }
    }
}

/// The outcome of a successful setup.
pub struct MountedDisk {
    pub image_fd: i32,
    pub partition: u32,
    pub disk_id: u32,
    /// Where the disk is mounted, without a closing NUL.
    pub mount_point: String,
}

/// What the outside world is asked to do next.
pub enum SetupAction {
    /// Open the disk image for reading and writing.
    OpenImage { filename: String },
    /// Install the panic handler (the given one or the default) and the
    /// print handler (if one is given), add the disk backed by `image_fd`,
    /// and start the kernel with `boot_arg`.
    StartKernel { image_fd: i32, boot_arg: String, custom_panic: bool, custom_print: bool },
    /// Mount the disk into a buffer of `buffer_len` bytes.
    MountDevice {
        disk_id: u32,
        partition: u32,
        filesystem_type: String,
        mount_options: String,
        buffer_len: u32,
    },
    /// Announce `announce` as the mount point, then change into `path`.
    ChangeDirectory { announce: String, path: String },
    /// Print what the abort says, then stop with a panic.
    Abort { abort: SetupAbort },
    /// Return the error, after halting the kernel where it says so.
    Fail { error: SetupError },
    /// Return the mounted disk.
    Finish { setup: MountedDisk },
    /// The event does not answer the last action; nothing changes.
    Unexpected,
}

/// The state of one setup.
pub struct LklSetupMachine {
    pub plan: SetupPlan,
    pub phase: SetupPhase,
    /// The mount point, once the mount succeeded.
    pub mount_point: String,
}

/// An event that does not fit the phase changes nothing.
pub open spec fn unexpected(
    pre: LklSetupMachine,
    post: LklSetupMachine,
    action: SetupAction,
) -> bool {
    &&& action is Unexpected
    &&& post.phase == pre.phase
    &&& post.mount_point@ == pre.mount_point@
}

/// A step that ends the setup keeps the mount point.
pub open spec fn ends(
    pre: LklSetupMachine,
    post: LklSetupMachine,
) -> bool {
    &&& post.phase == SetupPhase::Done
    &&& post.mount_point@ == pre.mount_point@
}

/// The setup protocol: from the state `pre` and the `event`, the state
/// `post` and the `action`.
pub open spec fn setup_step(
    pre: LklSetupMachine,
    event: SetupEvent,
    post: LklSetupMachine,
    action: SetupAction,
) -> bool {
    &&& post.plan == pre.plan
    &&& match pre.phase {
        SetupPhase::Start => match event {
            SetupEvent::Begin => {
                &&& action matches SetupAction::OpenImage { filename }
                &&& filename@ == pre.plan.filename@
                &&& post.phase == SetupPhase::AwaitImage
                &&& post.mount_point@ == pre.mount_point@
            },
            _ => unexpected(pre, post, action),
        },
        SetupPhase::AwaitImage => match event {
            SetupEvent::ImageOpenFailed => {
                &&& action matches SetupAction::Abort { abort }
                &&& simple_abort(abort, SetupPanic::ImageOpen)
                &&& ends(pre, post)
            },
            SetupEvent::ImageOpened { fd } => {
                if pre.plan.boot_settings matches Some(k) && !is_c_string(k@) {
                    &&& action matches SetupAction::Abort { abort }
                    &&& refused_abort(abort, SetupPanic::BootSettingsNul, pre.plan.boot_settings->0@)
                    &&& ends(pre, post)
                } else {
                    &&& action matches SetupAction::StartKernel {
                        image_fd,
                        boot_arg,
                        custom_panic,
                        custom_print,
                    }
                    &&& image_fd == fd
                    &&& boot_arg@ == boot_argument(pre.plan)
                    &&& custom_panic == pre.plan.custom_panic
                    &&& custom_print == pre.plan.custom_print
                    &&& post.phase == SetupPhase::AwaitKernel { image_fd: fd }
                    &&& post.mount_point@ == pre.mount_point@
                }
            },
            _ => unexpected(pre, post, action),
        },
        SetupPhase::AwaitKernel { image_fd } => match event {
            SetupEvent::KernelStarted { disk_id } => {
                if (disk_id as i32) < 0 {
                    &&& action == SetupAction::Fail {
                        error: SetupError::DiskAdd { code: disk_id as i32 },
                    }
                    &&& ends(pre, post)
                } else if !is_c_string(pre.plan.filesystem_type@) {
                    &&& action matches SetupAction::Abort { abort }
                    &&& refused_abort(
                        abort,
                        SetupPanic::FilesystemTypeNul,
                        pre.plan.filesystem_type@,
                    )
                    &&& ends(pre, post)
                } else if !is_c_string(pre.plan.mount_options@) {
                    &&& action matches SetupAction::Abort { abort }
                    &&& refused_abort(abort, SetupPanic::MountOptionsNul, pre.plan.mount_options@)
                    &&& ends(pre, post)
                } else {
                    &&& action matches SetupAction::MountDevice {
                        disk_id: d,
                        partition,
                        filesystem_type,
                        mount_options,
                        buffer_len,
                    }
                    &&& d == disk_id
                    &&& partition == pre.plan.partition
                    &&& filesystem_type@ == pre.plan.filesystem_type@
                    &&& mount_options@ == pre.plan.mount_options@
                    &&& buffer_len == MOUNT_POINT_BUFFER_LEN
                    &&& post.phase == SetupPhase::AwaitMount { image_fd, disk_id }
                    &&& post.mount_point@ == pre.mount_point@
                }
            },
            _ => unexpected(pre, post, action),
        },
        SetupPhase::AwaitMount { image_fd, disk_id } => match event {
            SetupEvent::MountFinished { ret, buffer } => {
                if ret < 0 {
                    &&& action == SetupAction::Fail { error: SetupError::Mount { code: ret } }
                    &&& ends(pre, post)
                } else if !valid_utf8(buffer@) || first_zero(buffer@) is None {
                    &&& action matches SetupAction::Abort { abort }
                    &&& mount_point_abort(buffer@, abort)
                    &&& ends(pre, post)
                } else {
                    let z = first_zero(buffer@)->0;
                    &&& action matches SetupAction::ChangeDirectory { announce, path }
                    &&& announce@ == decode_utf8(buffer@)
                    &&& path@ == decode_utf8(buffer@.subrange(0, z + 1))
                    &&& post.phase == SetupPhase::AwaitChdir { image_fd, disk_id }
                    &&& post.mount_point@ == decode_utf8(buffer@.subrange(0, z))
                }
            },
            _ => unexpected(pre, post, action),
        },
        SetupPhase::AwaitChdir { image_fd, disk_id } => match event {
            SetupEvent::ChdirFinished { result } => {
                &&& ends(pre, post)
                &&& if result < 0 {
                    action == SetupAction::Fail { error: SetupError::Chdir }
                } else {
                    &&& action matches SetupAction::Finish { setup }
                    &&& setup.image_fd == image_fd
                    &&& setup.disk_id == disk_id
                    &&& setup.partition == pre.plan.partition
                    &&& setup.mount_point@ == pre.mount_point@
                }
            },
            _ => unexpected(pre, post, action),
        },
        SetupPhase::Done => unexpected(pre, post, action),
    }
}

impl LklSetupMachine {
    /// A setup of `args`, not yet begun.
    pub fn new<F>(args: &LklSetupArgs<F>) -> (m: LklSetupMachine)
        ensures
            plan_of(*args, m.plan),
            m.phase == SetupPhase::Start,
            m.mount_point@ == Seq::<char>::empty(),
    {
        LklSetupMachine {
            plan: SetupPlan::from_args(args),
            phase: SetupPhase::Start,
            mount_point: String::new(),
        }
    }

    /// Takes the next step of the setup: the answer `event` to the last
    /// action gives the next action, as `setup_step` says.
    pub fn step(&mut self, event: SetupEvent) -> (action: SetupAction)
        ensures
            setup_step(*old(self), event, *final(self), action),
            final(self).plan == old(self).plan,
            action matches SetupAction::StartKernel { boot_arg, custom_panic, custom_print, .. }
                ==> {
                &&& old(self).plan.boot_settings matches Some(k) ==> boot_arg@ == k@
                &&& old(self).plan.boot_settings is None ==> boot_arg@
                    == "mem=128M loglevel=8\0"@
                &&& custom_panic == old(self).plan.custom_panic
                &&& custom_print == old(self).plan.custom_print
            },
            action matches SetupAction::MountDevice {
                partition,
                filesystem_type,
                mount_options,
                buffer_len,
                ..
            } ==> {
                &&& partition == old(self).plan.partition
                &&& filesystem_type@ == old(self).plan.filesystem_type@
                &&& mount_options@ == old(self).plan.mount_options@
                &&& buffer_len == 100
            },
    {
        match self.phase {
            SetupPhase::Start => match event {
                SetupEvent::Begin => {
                    self.phase = SetupPhase::AwaitImage;
                    SetupAction::OpenImage { filename: self.plan.filename.clone() }
                },
                _ => SetupAction::Unexpected,
            },
            SetupPhase::AwaitImage => match event {
                SetupEvent::ImageOpenFailed => {
                    self.phase = SetupPhase::Done;
                    SetupAction::Abort {
                        abort: SetupAbort {
                            reason: SetupPanic::ImageOpen,
                            announce: None,
                            refused: None,
                            utf8_error: None,
                        },
                    }
                },
                SetupEvent::ImageOpened { fd } => {
                    let boot_arg = match &self.plan.boot_settings {
                        Some(k) => {
                            if check_cstr(k.as_str()) != CStrCheck::Valid {
                                self.phase = SetupPhase::Done;
                                return SetupAction::Abort {
                                    abort: SetupAbort {
                                        reason: SetupPanic::BootSettingsNul,
                                        announce: None,
                                        refused: Some(k.clone()),
                                        utf8_error: None,
                                    },
                                };
                            }
                            k.clone()
                        },
                        None => "mem=128M loglevel=8\0".to_owned(),
                    };
                    self.phase = SetupPhase::AwaitKernel { image_fd: fd };
                    SetupAction::StartKernel {
                        image_fd: fd,
                        boot_arg,
                        custom_panic: self.plan.custom_panic,
                        custom_print: self.plan.custom_print,
                    }
                },
                _ => SetupAction::Unexpected,
            },
            SetupPhase::AwaitKernel { image_fd } => match event {
                SetupEvent::KernelStarted { disk_id } => {
                    if (disk_id as i32) < 0 {
                        self.phase = SetupPhase::Done;
                        return SetupAction::Fail { error: SetupError::DiskAdd { code: disk_id as i32 } };
                    }
                    if check_cstr(self.plan.filesystem_type.as_str()) != CStrCheck::Valid {
                        self.phase = SetupPhase::Done;
                        return SetupAction::Abort {
                            abort: SetupAbort {
                                reason: SetupPanic::FilesystemTypeNul,
                                announce: None,
                                refused: Some(self.plan.filesystem_type.clone()),
                                utf8_error: None,
                            },
                        };
                    }
                    if check_cstr(self.plan.mount_options.as_str()) != CStrCheck::Valid {
                        self.phase = SetupPhase::Done;
                        return SetupAction::Abort {
                            abort: SetupAbort {
                                reason: SetupPanic::MountOptionsNul,
                                announce: None,
                                refused: Some(self.plan.mount_options.clone()),
                                utf8_error: None,
                            },
                        };
                    }
                    self.phase = SetupPhase::AwaitMount { image_fd, disk_id };
                    SetupAction::MountDevice {
                        disk_id,
                        partition: self.plan.partition,
                        filesystem_type: self.plan.filesystem_type.clone(),
                        mount_options: self.plan.mount_options.clone(),
                        buffer_len: MOUNT_POINT_BUFFER_LEN,
                    }
                },
                _ => SetupAction::Unexpected,
            },
            SetupPhase::AwaitMount { image_fd, disk_id } => match event {
                SetupEvent::MountFinished { ret, buffer } => {
                    if ret < 0 {
                        self.phase = SetupPhase::Done;
                        return SetupAction::Fail { error: SetupError::Mount { code: ret } };
                    }
                    match mount_point_from_buffer(buffer.as_slice()) {
                        Err(abort) => {
                            self.phase = SetupPhase::Done;
                            SetupAction::Abort { abort }
                        },
                        Ok(text) => {
                            self.phase = SetupPhase::AwaitChdir { image_fd, disk_id };
                            self.mount_point = text.mount_point;
                            SetupAction::ChangeDirectory { announce: text.announce, path: text.path }
                        },
                    }
                },
                _ => SetupAction::Unexpected,
            },
            SetupPhase::AwaitChdir { image_fd, disk_id } => match event {
                SetupEvent::ChdirFinished { result } => {
                    self.phase = SetupPhase::Done;
                    if result < 0 {
                        SetupAction::Fail { error: SetupError::Chdir }
                    } else {
                        SetupAction::Finish {
                            setup: MountedDisk {
                                image_fd,
                                partition: self.plan.partition,
                                disk_id,
                                mount_point: self.mount_point.clone(),
                            },
                        }
                    }
                },
                _ => SetupAction::Unexpected,
            },
            SetupPhase::Done => SetupAction::Unexpected,
        }
    }
}

/// A finished setup takes no further step: every event is unexpected and
/// leaves it finished.
pub proof fn lemma_done_is_final(
    pre: LklSetupMachine,
    event: SetupEvent,
    post: LklSetupMachine,
    action: SetupAction,
)
    requires
        pre.phase == SetupPhase::Done,
        setup_step(pre, event, post, action),
    ensures
        action is Unexpected,
        post.phase == SetupPhase::Done,
{
}

/// Every string that the setup hands to the kernel is a C string: the boot
/// argument, the file system type, the mount options and the path of the
/// mount point. And every string whose refusal by `to_cstr` precedes a panic
/// is indeed refused.
pub proof fn lemma_kernel_gets_c_strings(
    pre: LklSetupMachine,
    event: SetupEvent,
    post: LklSetupMachine,
    action: SetupAction,
)
    requires
        setup_step(pre, event, post, action),
    ensures
        action matches SetupAction::StartKernel { boot_arg, .. } ==> is_c_string(boot_arg@),
        action matches SetupAction::MountDevice { filesystem_type, mount_options, .. } ==> {
            &&& is_c_string(filesystem_type@)
            &&& is_c_string(mount_options@)
        },
        action matches SetupAction::ChangeDirectory { path, .. } ==> is_c_string(path@),
        action matches SetupAction::Abort { abort } ==> (abort.refused matches Some(s)
            ==> !is_c_string(s@)),
{
    lemma_defaults();
    if let SetupEvent::MountFinished { ret, buffer } = event {
        if pre.phase is AwaitMount && ret >= 0 && valid_utf8(buffer@) {
            if first_zero(buffer@) is Some {
                lemma_mount_point(buffer@, first_zero(buffer@)->0);
            } else if buffer@.len() > 0 && buffer@[0] < 0x80 {
                lemma_first_character(buffer@);
            }
        }
    }
}

/// The mount point of a finished setup is the text before the first NUL of
/// the buffer that the mount filled: it encodes to exactly those bytes and
/// holds no NUL, and the path handed to `chdir` was that text followed by
/// NUL.
pub proof fn lemma_mount_point_of_finish(
    m0: LklSetupMachine,
    ret: i32,
    buffer: Vec<u8>,
    m1: LklSetupMachine,
    a1: SetupAction,
    chdir_ret: i64,
    m2: LklSetupMachine,
    a2: SetupAction,
)
    requires
        m0.phase is AwaitMount,
        setup_step(m0, SetupEvent::MountFinished { ret, buffer }, m1, a1),
        setup_step(m1, SetupEvent::ChdirFinished { result: chdir_ret }, m2, a2),
        a2 is Finish,
    ensures
        first_zero(buffer@) is Some,
        ({
            let z = first_zero(buffer@)->0;
            let mount_point = a2->Finish_setup.mount_point@;
            &&& encode_utf8(mount_point) == buffer@.subrange(0, z)
            &&& count_nul(mount_point) == 0
            &&& a1 matches SetupAction::ChangeDirectory { path, .. } && path@ == mount_point.push(
                '\0',
            )
        }),
{
    lemma_mount_point(buffer@, first_zero(buffer@)->0);
}

/// The handlers installed follow the callbacks given: the panic handler is
/// the given one exactly when `on_panic` is given, and the print handler is
/// replaced exactly when `print` is given.
pub proof fn law_callbacks<F>(args: LklSetupArgs<F>, plan: SetupPlan)
    requires
        plan_of(args, plan),
    ensures
        plan.custom_panic <==> args.on_panic is Some,
        plan.custom_print <==> args.print is Some,
{
}

/// The defaults of the mount options: ext4, btrfs, gfs2 and reiserfs each
/// get their own options, and every other type gets the empty ones; the
/// btrfs thread pool goes to btrfs only.
pub proof fn law_default_mount_options(fs_type: Seq<char>)
    ensures
        fs_type == "ext4"@ ==> default_mount_options(fs_type) == "errors=remount-ro\0"@,
        fs_type == "btrfs"@ ==> default_mount_options(fs_type) == "thread_pool=1\0"@,
        fs_type == "gfs2"@ ==> default_mount_options(fs_type) == "acl\0"@,
        fs_type == "reiserfs"@ ==> default_mount_options(fs_type) == "acl,user_xattr\0"@,
        fs_type != "ext4"@ && fs_type != "btrfs"@ && fs_type != "gfs2"@ && fs_type
            != "reiserfs"@ ==> default_mount_options(fs_type) == "\0"@,
        default_mount_options(fs_type) == "thread_pool=1\0"@ ==> fs_type == "btrfs"@,
{
    lemma_type_names_differ();
    reveal_strlit("errors=remount-ro\0");
    reveal_strlit("thread_pool=1\0");
    reveal_strlit("acl\0");
    reveal_strlit("acl,user_xattr\0");
    reveal_strlit("\0");
    assert("thread_pool=1\0"@.len() == 14);
    assert("errors=remount-ro\0"@.len() == 18);
    assert("acl\0"@.len() == 4);
    assert("acl,user_xattr\0"@.len() == 15);
    assert("\0"@.len() == 1);
}

/// Starting the kernel uses the settings: the image just opened, the boot
/// settings given (the default `mem=128M loglevel=8` only when none are
/// given), and the callbacks given. Given boot settings that are a C string,
/// or none, the kernel is always started.
pub proof fn law_kernel_start<F>(
    args: LklSetupArgs<F>,
    pre: LklSetupMachine,
    fd: i32,
    post: LklSetupMachine,
    action: SetupAction,
)
    requires
        plan_of(args, pre.plan),
        pre.phase == SetupPhase::AwaitImage,
        setup_step(pre, SetupEvent::ImageOpened { fd }, post, action),
    ensures
        (args.boot_settings matches Some(k) ==> is_c_string(k@)) ==> action is StartKernel,
        action matches SetupAction::StartKernel { image_fd, boot_arg, custom_panic, custom_print }
            ==> {
            &&& image_fd == fd
            &&& args.boot_settings matches Some(k) ==> boot_arg@ == k@
            &&& args.boot_settings is None ==> boot_arg@ == "mem=128M loglevel=8\0"@
            &&& custom_panic <==> args.on_panic is Some
            &&& custom_print <==> args.print is Some
        },
{
}

/// The mount request uses the settings: the disk just added, the partition
/// given (0 when none is), the file system type given (`ext4\0` when none
/// is), and the mount options given. Without type and options, the options
/// are the empty ones.
pub proof fn law_mount_request<F>(
    args: LklSetupArgs<F>,
    pre: LklSetupMachine,
    disk_id: u32,
    post: LklSetupMachine,
    action: SetupAction,
)
    requires
        plan_of(args, pre.plan),
        pre.phase is AwaitKernel,
        setup_step(pre, SetupEvent::KernelStarted { disk_id }, post, action),
    ensures
        action matches SetupAction::MountDevice {
            disk_id: d,
            partition,
            filesystem_type,
            mount_options,
            buffer_len,
        } ==> {
            &&& d == disk_id
            &&& args.partition_num matches Some(p) ==> partition == p
            &&& args.partition_num is None ==> partition == 0
            &&& args.filesystem_type matches Some(t) ==> filesystem_type@ == t@
            &&& args.filesystem_type is None ==> filesystem_type@ == "ext4\0"@
            &&& args.filesystem_options matches Some(o) ==> mount_options@ == o@
            &&& args.filesystem_type is None && args.filesystem_options is None
                ==> mount_options@ == "\0"@
            &&& buffer_len == 100
        },
{
    lemma_defaults();
}

/// A setup fails only on a failure that LKL reported, and the error carries
/// LKL's code: a negative result of adding the disk, a negative result of the
/// mount, or a negative result of `chdir`.
pub proof fn law_failures(
    pre: LklSetupMachine,
    event: SetupEvent,
    post: LklSetupMachine,
    action: SetupAction,
)
    requires
        setup_step(pre, event, post, action),
    ensures
        action matches SetupAction::Fail { error } ==> match error {
            SetupError::DiskAdd { code } => {
                &&& event matches SetupEvent::KernelStarted { disk_id }
                &&& code == disk_id as i32
                &&& code < 0
            },
            SetupError::Mount { code } => {
                &&& event matches SetupEvent::MountFinished { ret, .. }
                &&& code == ret
                &&& code < 0
            },
            SetupError::Chdir => event matches SetupEvent::ChdirFinished { result } && result < 0,
        },
{
}

/// A setup that finishes returns the image that was opened, the disk that
/// was added and the partition that was asked for (0 when none was), after
/// LKL reported success at every step.
pub proof fn law_finished_setup<F>(
    args: LklSetupArgs<F>,
    m0: LklSetupMachine,
    fd: i32,
    m1: LklSetupMachine,
    a1: SetupAction,
    disk_id: u32,
    m2: LklSetupMachine,
    a2: SetupAction,
    ret: i32,
    buffer: Vec<u8>,
    m3: LklSetupMachine,
    a3: SetupAction,
    result: i64,
    m4: LklSetupMachine,
    a4: SetupAction,
)
    requires
        plan_of(args, m0.plan),
        m0.phase == SetupPhase::AwaitImage,
        setup_step(m0, SetupEvent::ImageOpened { fd }, m1, a1),
        setup_step(m1, SetupEvent::KernelStarted { disk_id }, m2, a2),
        setup_step(m2, SetupEvent::MountFinished { ret, buffer }, m3, a3),
        setup_step(m3, SetupEvent::ChdirFinished { result }, m4, a4),
        a4 is Finish,
    ensures
        a4->Finish_setup.image_fd == fd,
        a4->Finish_setup.disk_id == disk_id,
        args.partition_num matches Some(p) ==> a4->Finish_setup.partition == p,
        args.partition_num is None ==> a4->Finish_setup.partition == 0,
        disk_id as i32 >= 0,
        ret >= 0,
        result >= 0,
{
}

} // verus!

