use deploykit::command::{SystemOp, ToolCommand};
use deploykit::disks::Partition;
use deploykit::error::InstallError;
use deploykit::install::{
    auto_mount_root_path, dive_into_guest, escape_chroot, is_acceptable_username,
    is_valid_hostname, mount_root_path, remove_bind_mounts, setup_bind_mounts, swapoff,
    umount_all, umount_root_path, RootContext,
};

fn unmount(t: &str) -> SystemOp {
    SystemOp::Unmount { target: t.to_string() }
}

fn bind(s: &str, t: &str) -> Vec<SystemOp> {
    vec![
        SystemOp::MakeDir { path: t.to_string() },
        SystemOp::Bind { source: s.to_string(), target: t.to_string() },
    ]
}

#[test]
fn test_hostname_validation() {
    assert!(is_valid_hostname("foo"));
    assert!(is_valid_hostname("foo-2e10"));
    assert!(is_valid_hostname("jeffbai-device"));
    assert!(!is_valid_hostname("invalid_host"));
    assert!(!is_valid_hostname("-invalid"));
    assert!(!is_valid_hostname("+invalid"));
    assert!(is_valid_hostname("JellyDimension"));
    assert!(!is_valid_hostname("Jelly_Dimension"));
}

#[test]
fn test_username_validation() {
    assert!(is_acceptable_username("foo"));
    assert!(is_acceptable_username("cth451"));
    assert!(!is_acceptable_username("老白"));
    assert!(!is_acceptable_username("BAIMINGCONG"));
    assert!(!is_acceptable_username("root"));
    assert!(!is_acceptable_username("/root"));
    assert!(!is_acceptable_username("root:root"));
    assert!(!is_acceptable_username("root\n"));
    assert!(!is_acceptable_username("root\t"));
    assert!(!is_acceptable_username("ro ot"));
}

#[test]
fn empty_names_rejected() {
    assert!(!is_valid_hostname(""));
    assert!(!is_acceptable_username(""));
    assert!(!is_acceptable_username("1abc"));
    assert!(is_acceptable_username("rootless"));
    assert!(!is_valid_hostname("host name"));
    assert!(!is_acceptable_username("Root"));
    assert!(!is_acceptable_username("ROOT"));
    assert!(!is_acceptable_username("foo/bar"));
    assert!(!is_acceptable_username("a:b"));
    assert!(!is_acceptable_username("a b"));
}

fn target(fs: Option<&str>, path: Option<&str>) -> Partition {
    Partition {
        path: path.map(|p| p.to_string()),
        parent_path: None,
        fs_type: fs.map(|f| f.to_string()),
        size: 1,
    }
}

#[test]
fn mount_normalizes_fat() {
    let op = mount_root_path(&target(Some("fat32"), Some("/dev/sda1")), "/mnt/efi").unwrap();
    assert_eq!(
        op,
        SystemOp::Mount {
            source: "/dev/sda1".to_string(),
            target: "/mnt/efi".to_string(),
            fs_type: "vfat".to_string(),
        }
    );
    let op = auto_mount_root_path("/tmp/.dkmountX", &target(Some("btrfs"), Some("/dev/sda2")))
        .unwrap();
    assert_eq!(
        op,
        SystemOp::Mount {
            source: "/dev/sda2".to_string(),
            target: "/tmp/.dkmountX".to_string(),
            fs_type: "btrfs".to_string(),
        }
    );
}

#[test]
fn mount_needs_complete_target() {
    assert_eq!(
        mount_root_path(&target(None, Some("/dev/sda1")), "/mnt"),
        Err(InstallError::IncompleteTarget)
    );
    assert_eq!(
        mount_root_path(&target(Some("ext4"), None), "/mnt"),
        Err(InstallError::IncompleteTarget)
    );
}

#[test]
fn bind_mounts_and_removal_match() {
    let setup = setup_bind_mounts("/tmp/root", true);
    let mut expected = Vec::new();
    expected.extend(bind("/dev", "/tmp/root/dev"));
    expected.extend(bind("/proc", "/tmp/root/proc"));
    expected.extend(bind("/sys", "/tmp/root/sys"));
    expected.extend(bind("/run/udev", "/tmp/root/run/udev"));
    expected.extend(bind("/sys/firmware/efi/efivars", "/tmp/root/sys/firmware/efi/efivars"));
    assert_eq!(setup, expected);
    let removal = remove_bind_mounts("/tmp/root", true);
    for op in &setup {
        if let SystemOp::Bind { target, .. } = op {
            assert!(removal.contains(&unmount(target)));
        }
    }
    assert_eq!(setup_bind_mounts("/tmp/root/", false).len(), 8);
    assert_eq!(remove_bind_mounts("/tmp/root/", false)[0], unmount("/tmp/root/dev"));
}

#[test]
fn dive_then_escape() {
    let dive = dive_into_guest("/tmp/r", false);
    assert_eq!(dive.len(), 10);
    assert_eq!(dive[8], SystemOp::ChangeRoot { path: "/tmp/r".to_string() });
    assert_eq!(dive[9], SystemOp::ChangeDir { path: "/".to_string() });
    assert_eq!(
        escape_chroot(7),
        vec![
            SystemOp::EnterAnchor { fd: 7 },
            SystemOp::ChangeRoot { path: ".".to_string() },
            SystemOp::ChangeDir { path: "/".to_string() },
        ]
    );
}

#[test]
fn cleanup_order() {
    let swap = SystemOp::TryRun {
        command: ToolCommand {
            program: "swapoff".to_string(),
            args: vec!["/tmp/m/swapfile".to_string()],
            input: None,
        },
    };
    assert_eq!(swapoff("/tmp/m"), swap);
    let mut expected = escape_chroot(3);
    expected.extend(umount_root_path("/tmp/m/efi"));
    expected.push(swap.clone());
    expected.push(unmount("/tmp/m"));
    expected.push(SystemOp::Sync);
    assert_eq!(umount_all("/tmp/m", 3, true), expected);
    let bios = umount_all("/tmp/m", 3, false);
    assert_eq!(bios.len(), 6);
    assert_eq!(bios[3], swap);
}

#[test]
fn root_context_transitions() {
    let mut ctx = RootContext::capture("/tmp/g", 9, false);
    assert!(!ctx.in_guest());
    let dive = ctx.dive();
    assert_eq!(dive, dive_into_guest("/tmp/g", false));
    assert!(ctx.in_guest());
    assert!(ctx.dive().is_empty());
    assert_eq!(ctx.escape(), escape_chroot(9));
    assert!(!ctx.in_guest());
    ctx.dive();
    assert_eq!(ctx.cleanup(), umount_all("/tmp/g", 9, false));
    assert!(!ctx.in_guest());
}
