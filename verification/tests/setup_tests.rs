use penguincrab::cstr::to_cstr;
use penguincrab::setup::{
    mount_options_for, mount_point_from_buffer, LklSetupArgs, LklSetupMachine, SetupAction,
    SetupError, SetupEvent, SetupPanic, SetupPhase, SetupPlan, MOUNT_POINT_BUFFER_LEN,
};

fn default_args() -> LklSetupArgs<fn()> {
    LklSetupArgs {
        filename: String::from("ext4-00.image"),
        boot_settings: None,
        partition_num: None,
        filesystem_type: None,
        filesystem_options: None,
        on_panic: None,
        print: None,
    }
}

fn hook() {}

fn mount_buffer(text: &str) -> Vec<u8> {
    let mut buffer = vec![0u8; MOUNT_POINT_BUFFER_LEN as usize];
    buffer[..text.len()].copy_from_slice(text.as_bytes());
    buffer
}

/// Runs a machine up to the mount request.
fn machine_at_mount(args: &LklSetupArgs<fn()>) -> LklSetupMachine {
    let mut m = LklSetupMachine::new(args);
    assert!(matches!(m.step(SetupEvent::Begin), SetupAction::OpenImage { .. }));
    assert!(matches!(m.step(SetupEvent::ImageOpened { fd: 7 }), SetupAction::StartKernel { .. }));
    assert!(matches!(
        m.step(SetupEvent::KernelStarted { disk_id: 0 }),
        SetupAction::MountDevice { .. }
    ));
    m
}

#[test]
fn mount_options_depend_on_the_type() {
    assert_eq!(mount_options_for("ext4"), "errors=remount-ro\0");
    assert_eq!(mount_options_for("btrfs"), "thread_pool=1\0");
    assert_eq!(mount_options_for("gfs2"), "acl\0");
    assert_eq!(mount_options_for("reiserfs"), "acl,user_xattr\0");
    assert_eq!(mount_options_for("xfs"), "\0");
    // The default type carries its NUL and so gets the empty options.
    assert_eq!(mount_options_for("ext4\0"), "\0");
}

#[test]
fn plan_fills_in_the_defaults() {
    let plan = SetupPlan::from_args(&default_args());
    assert_eq!(plan.filename, "ext4-00.image");
    assert_eq!(plan.boot_settings, None);
    assert_eq!(plan.partition, 0);
    assert_eq!(plan.filesystem_type, "ext4\0");
    assert_eq!(plan.mount_options, "\0");
    assert!(!plan.custom_panic);
    assert!(!plan.custom_print);
}

#[test]
fn plan_keeps_given_settings() {
    let args = LklSetupArgs::<fn()> {
        filename: String::from("disk.img"),
        boot_settings: Some(String::from("mem=64M\0")),
        partition_num: Some(2),
        filesystem_type: Some(String::from("btrfs")),
        filesystem_options: None,
        on_panic: Some(hook),
        print: Some(hook),
    };
    let plan = SetupPlan::from_args(&args);
    assert_eq!(plan.boot_settings, Some(String::from("mem=64M\0")));
    assert_eq!(plan.partition, 2);
    assert_eq!(plan.filesystem_type, "btrfs");
    assert_eq!(plan.mount_options, "thread_pool=1\0");
    assert!(plan.custom_panic);
    assert!(plan.custom_print);
}

#[test]
fn mount_point_is_the_text_before_the_first_nul() {
    let t = mount_point_from_buffer(&mount_buffer("/mnt/0000fe00")).ok().unwrap();
    assert_eq!(t.mount_point, "/mnt/0000fe00");
    assert_eq!(t.path, "/mnt/0000fe00\0");
    assert_eq!(t.announce.len(), MOUNT_POINT_BUFFER_LEN as usize);
    assert!(t.announce.starts_with("/mnt/0000fe00\0"));
}

#[test]
fn mount_point_needs_valid_utf8() {
    let mut buffer = mount_buffer("/mnt/x");
    buffer[1] = 0xff;
    match mount_point_from_buffer(&buffer) {
        Err(a) => {
            assert_eq!(a.reason, SetupPanic::MountPointNotUtf8);
            assert!(a.announce.is_none());
            assert!(a.refused.is_none());
            assert_eq!(a.utf8_error.unwrap().valid_up_to, 1);
        }
        Ok(_) => panic!("expected Err"),
    }
}

#[test]
fn mount_point_needs_a_nul() {
    let buffer = vec![b'a'; 10];
    match mount_point_from_buffer(&buffer) {
        Err(a) => {
            assert_eq!(a.reason, SetupPanic::MountPointNoNul);
            // The whole buffer is announced first, then its first character
            // is refused by to_cstr.
            assert_eq!(a.announce, Some(String::from("aaaaaaaaaa")));
            assert_eq!(a.refused, Some(String::from("a")));
            assert!(to_cstr(a.refused.as_ref().unwrap()).is_none());
            assert!(a.utf8_error.is_none());
        }
        Ok(_) => panic!("expected Err"),
    }
}

#[test]
fn a_mount_buffer_without_nul_that_cannot_be_cut_panics_on_the_cut() {
    let buffer = "ééé".as_bytes().to_vec();
    match mount_point_from_buffer(&buffer) {
        Err(a) => {
            assert_eq!(a.reason, SetupPanic::MountPointCut);
            assert_eq!(a.reason.message(), "byte index 1 is");
            assert_eq!(a.announce, Some(String::from("ééé")));
            assert!(a.refused.is_none());
        }
        Ok(_) => panic!("expected Err"),
    }
    match mount_point_from_buffer(&[]) {
        Err(a) => {
            assert_eq!(a.reason, SetupPanic::MountPointCut);
            assert_eq!(a.announce, Some(String::new()));
        }
        Ok(_) => panic!("expected Err"),
    }
}

#[test]
fn a_full_setup_mounts_and_changes_directory() {
    let mut m = LklSetupMachine::new(&default_args());
    match m.step(SetupEvent::Begin) {
        SetupAction::OpenImage { filename } => assert_eq!(filename, "ext4-00.image"),
        _ => panic!("expected OpenImage"),
    }
    match m.step(SetupEvent::ImageOpened { fd: 7 }) {
        SetupAction::StartKernel { image_fd, boot_arg, custom_panic, custom_print } => {
            assert_eq!(image_fd, 7);
            assert_eq!(boot_arg, "mem=128M loglevel=8\0");
            assert!(!custom_panic);
            assert!(!custom_print);
        }
        _ => panic!("expected StartKernel"),
    }
    match m.step(SetupEvent::KernelStarted { disk_id: 0 }) {
        SetupAction::MountDevice { disk_id, partition, filesystem_type, mount_options, buffer_len } => {
            assert_eq!(disk_id, 0);
            assert_eq!(partition, 0);
            assert_eq!(filesystem_type, "ext4\0");
            assert_eq!(mount_options, "\0");
            assert_eq!(buffer_len, 100);
        }
        _ => panic!("expected MountDevice"),
    }
    match m.step(SetupEvent::MountFinished { ret: 0, buffer: mount_buffer("/mnt/0000fe00") }) {
        SetupAction::ChangeDirectory { announce, path } => {
            assert!(announce.starts_with("/mnt/0000fe00"));
            assert_eq!(path, "/mnt/0000fe00\0");
        }
        _ => panic!("expected ChangeDirectory"),
    }
    match m.step(SetupEvent::ChdirFinished { result: 0 }) {
        SetupAction::Finish { setup } => {
            assert_eq!(setup.image_fd, 7);
            assert_eq!(setup.disk_id, 0);
            assert_eq!(setup.partition, 0);
            assert_eq!(setup.mount_point, "/mnt/0000fe00");
            // A file path built from it is a C string.
            let mut file = setup.mount_point.clone();
            file.push_str("/test591\0");
            assert!(to_cstr(&file).is_some());
        }
        _ => panic!("expected Finish"),
    }
    assert_eq!(m.phase, SetupPhase::Done);
}

#[test]
fn an_image_that_does_not_open_panics() {
    let mut m = LklSetupMachine::new(&default_args());
    m.step(SetupEvent::Begin);
    match m.step(SetupEvent::ImageOpenFailed) {
        SetupAction::Abort { abort } => {
            assert_eq!(abort.reason, SetupPanic::ImageOpen);
            assert_eq!(abort.reason.message(), "Error opening");
            assert!(abort.refused.is_none() && abort.announce.is_none());
        }
        _ => panic!("expected Abort"),
    }
}

#[test]
fn boot_settings_without_nul_panic() {
    let mut args = default_args();
    args.boot_settings = Some(String::from("mem=128M"));
    let mut m = LklSetupMachine::new(&args);
    m.step(SetupEvent::Begin);
    match m.step(SetupEvent::ImageOpened { fd: 3 }) {
        SetupAction::Abort { abort } => {
            assert_eq!(abort.reason, SetupPanic::BootSettingsNul);
            assert_eq!(abort.reason.message(), "boot_settings formats null bytes wrong");
            assert_eq!(abort.refused, Some(String::from("mem=128M")));
        }
        _ => panic!("expected Abort"),
    }
}

#[test]
fn a_failed_disk_add_halts_and_fails() {
    let mut m = LklSetupMachine::new(&default_args());
    m.step(SetupEvent::Begin);
    m.step(SetupEvent::ImageOpened { fd: 3 });
    // -2 as returned by lkl_disk_add, taken as u32.
    match m.step(SetupEvent::KernelStarted { disk_id: (-2i32) as u32 }) {
        SetupAction::Fail { error } => {
            assert_eq!(error, SetupError::DiskAdd { code: -2 });
            assert!(error.halts_kernel());
            assert_eq!(error.message(), "Couldn't add disk");
        }
        _ => panic!("expected Fail"),
    }
    assert_eq!(m.phase, SetupPhase::Done);
}

#[test]
fn a_file_system_type_without_nul_panics() {
    let mut args = default_args();
    args.filesystem_type = Some(String::from("ext4"));
    let mut m = LklSetupMachine::new(&args);
    m.step(SetupEvent::Begin);
    m.step(SetupEvent::ImageOpened { fd: 3 });
    match m.step(SetupEvent::KernelStarted { disk_id: 0 }) {
        SetupAction::Abort { abort } => {
            assert_eq!(abort.reason, SetupPanic::FilesystemTypeNul);
            assert_eq!(abort.reason.message(), "filesystem has incorrect nulls");
            assert_eq!(abort.refused, Some(String::from("ext4")));
        }
        _ => panic!("expected Abort"),
    }
}

#[test]
fn mount_options_without_nul_panic() {
    let mut args = default_args();
    args.filesystem_options = Some(String::from("ro"));
    let mut m = LklSetupMachine::new(&args);
    m.step(SetupEvent::Begin);
    m.step(SetupEvent::ImageOpened { fd: 3 });
    match m.step(SetupEvent::KernelStarted { disk_id: 1 }) {
        SetupAction::Abort { abort } => {
            assert_eq!(abort.reason, SetupPanic::MountOptionsNul);
            assert_eq!(abort.reason.message(), "mount options has incorrect nulls");
            assert_eq!(abort.refused, Some(String::from("ro")));
        }
        _ => panic!("expected Abort"),
    }
}

#[test]
fn a_failed_mount_halts_and_fails() {
    let mut m = machine_at_mount(&default_args());
    match m.step(SetupEvent::MountFinished { ret: -22, buffer: mount_buffer("") }) {
        SetupAction::Fail { error } => {
            assert_eq!(error, SetupError::Mount { code: -22 });
            assert!(error.halts_kernel());
            assert_eq!(error.message(), "lkl_mount_dev failed");
        }
        _ => panic!("expected Fail"),
    }
}

#[test]
fn a_mount_buffer_without_nul_panics() {
    let mut m = machine_at_mount(&default_args());
    match m.step(SetupEvent::MountFinished { ret: 0, buffer: vec![b'x'; 100] }) {
        SetupAction::Abort { abort } => {
            assert_eq!(abort.reason.message(), "mount point has null");
            assert_eq!(abort.announce.unwrap().len(), 100);
            assert_eq!(abort.refused, Some(String::from("x")));
        }
        _ => panic!("expected Abort"),
    }
}

#[test]
fn a_failed_chdir_fails_without_halting() {
    let mut m = machine_at_mount(&default_args());
    m.step(SetupEvent::MountFinished { ret: 0, buffer: mount_buffer("/mnt/0000fe00") });
    match m.step(SetupEvent::ChdirFinished { result: -2 }) {
        SetupAction::Fail { error } => {
            assert_eq!(error, SetupError::Chdir);
            assert!(!error.halts_kernel());
            assert_eq!(error.message(), "Can't chdir to moint point corrupted filesystem");
        }
        _ => panic!("expected Fail"),
    }
}

#[test]
fn events_out_of_order_change_nothing() {
    let mut m = LklSetupMachine::new(&default_args());
    assert!(matches!(m.step(SetupEvent::ChdirFinished { result: 0 }), SetupAction::Unexpected));
    assert_eq!(m.phase, SetupPhase::Start);
    m.step(SetupEvent::Begin);
    assert!(matches!(m.step(SetupEvent::Begin), SetupAction::Unexpected));
    assert_eq!(m.phase, SetupPhase::AwaitImage);
}

#[test]
fn a_finished_setup_stays_finished() {
    let mut m = LklSetupMachine::new(&default_args());
    m.step(SetupEvent::Begin);
    m.step(SetupEvent::ImageOpenFailed);
    assert_eq!(m.phase, SetupPhase::Done);
    assert!(matches!(m.step(SetupEvent::Begin), SetupAction::Unexpected));
    assert!(matches!(m.step(SetupEvent::ImageOpened { fd: 1 }), SetupAction::Unexpected));
    assert_eq!(m.phase, SetupPhase::Done);
}
