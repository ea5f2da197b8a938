use deploykit::command::{SystemOp, ToolCommand};
use deploykit::disks::{Arch, Firmware, Partition, PartitionTable, Platform, ProbedPartition};
use deploykit::error::InstallError;
use deploykit::guest::{add_new_user, create_swapfile, execute_grub_install};
use deploykit::pipeline::{Directive, InstallRequest, Mirror, Stage, SwapConfig, Variant};
use deploykit::stages::{
    bootloader_plan, check_before_install, configure_guest_plan, settle_swap, start_installation,
    swap_stage_plan,
};
use deploykit::swap::GIB;

fn request(size: u64, install_size: u64) -> InstallRequest {
    InstallRequest {
        partition: Partition {
            path: Some("/dev/sda2".to_string()),
            parent_path: Some("/dev/sda".to_string()),
            fs_type: Some("ext4".to_string()),
            size,
        },
        variant: Variant {
            name: "Base".to_string(),
            url: "https://example.org/base.tar.xz".to_string(),
            size: 1000,
            install_size,
        },
        mirror: Mirror { name: "origin".to_string(), url: "https://example.org/".to_string() },
        user: "foo".to_string(),
        password: "bar".to_string(),
        hostname: "foo-pc".to_string(),
        locale: "C.UTF-8".to_string(),
        timezone: "UTC".to_string(),
        rtc_utc: true,
        swap: SwapConfig { size: 0, enabled: false, hibernation: false },
    }
}

fn entry(path: &str, kind: &str) -> ProbedPartition {
    ProbedPartition {
        num: 1,
        path: Some(path.to_string()),
        length: 1,
        fs_type: None,
        esp: false,
        kind: kind.to_string(),
    }
}

fn cmd(program: &str, args: &[&str]) -> ToolCommand {
    ToolCommand {
        program: program.to_string(),
        args: args.iter().map(|a| a.to_string()).collect(),
        input: None,
    }
}

#[test]
fn checks_run_in_order() {
    let bios = Platform { firmware: Firmware::Bios, arch: Arch::Amd64 };
    let efi = Platform { firmware: Firmware::Efi, arch: Arch::Amd64 };
    let extended = vec![entry("/dev/sda2", "extended")];
    let primary = vec![entry("/dev/sda2", "primary")];
    let small = request(10, 20);
    assert!(matches!(
        check_before_install(&small, &PartitionTable::Msdos, efi, &extended),
        Err(InstallError::FirmwareTableMismatch { .. })
    ));
    assert_eq!(
        check_before_install(&small, &PartitionTable::Msdos, bios, &extended),
        Err(InstallError::NonPrimaryPartition)
    );
    assert_eq!(
        check_before_install(&small, &PartitionTable::Msdos, bios, &primary),
        Err(InstallError::InsufficientSpace { available: 10, required: 20 })
    );
    assert_eq!(
        check_before_install(&request(20, 20), &PartitionTable::Msdos, bios, &primary),
        Ok(())
    );
    assert_eq!(
        check_before_install(&request(20, 20), &PartitionTable::Gpt, efi, &Vec::new()),
        Ok(())
    );
}

#[test]
fn swap_settlement() {
    let total = 8 * GIB;
    let want = |size| SwapConfig { size, enabled: true, hibernation: false };
    assert_eq!(
        settle_swap(want(11 * GIB), total, 10 * GIB, 100 * GIB, 0),
        Ok(SwapConfig { size: 11 * GIB, enabled: true, hibernation: true })
    );
    assert_eq!(
        settle_swap(want(4 * GIB), total, 10 * GIB, 100 * GIB, 0),
        Ok(SwapConfig { size: 4 * GIB, enabled: true, hibernation: false })
    );
    assert_eq!(
        settle_swap(want(GIB), total, 10 * GIB, 100 * GIB, 0),
        Err(InstallError::TooSmall { recommended_gib: 11 })
    );
    assert_eq!(
        settle_swap(want(11 * GIB), total, 10 * GIB, 20 * GIB, 0),
        Err(InstallError::NoRoomForSwap)
    );
    let off = SwapConfig { size: 5, enabled: false, hibernation: true };
    assert_eq!(
        settle_swap(off, total, 10 * GIB, 20 * GIB, 0),
        Ok(SwapConfig { size: 0, enabled: false, hibernation: false })
    );
}

#[test]
fn guest_configuration_order() {
    let r = request(10, 1);
    let local = Some("0\n0\nLOCAL\n".to_string());
    let plan = configure_guest_plan(&r, &local, false);
    let mut expected = vec![
        SystemOp::WriteFile { path: "/etc/hostname".to_string(), content: "foo-pc".to_string() },
        SystemOp::WriteFile {
            path: "/etc/locale.conf".to_string(),
            content: "LANG=C.UTF-8".to_string(),
        },
        SystemOp::Symlink {
            target: "/usr/share/zoneinfo/UTC".to_string(),
            link: "/etc/localtime".to_string(),
        },
        SystemOp::Run { command: cmd("hwclock", &["-wu"]) },
    ];
    for c in add_new_user("foo", "bar") {
        expected.push(SystemOp::Run { command: c });
    }
    expected.push(SystemOp::Run { command: cmd("/usr/bin/update-initramfs", &[]) });
    assert_eq!(plan, expected);
    let retro = configure_guest_plan(&r, &None, true);
    assert_eq!(retro.len(), 7);
    assert_eq!(retro[6], SystemOp::Run { command: cmd("ssh-keygen", &["-A"]) });
}

#[test]
fn swap_stage_contents() {
    let on = SwapConfig { size: 4096, enabled: true, hibernation: false };
    let mut expected = create_swapfile(4096, true, "/");
    expected.push(SystemOp::AppendFile {
        path: "/etc/fstab".to_string(),
        content: "/swapfile none swap defaults,nofail 0 0\n".to_string(),
    });
    expected.push(SystemOp::Symlink {
        target: "/dev/null".to_string(),
        link: "/etc/systemd/system/hibernate.target".to_string(),
    });
    assert_eq!(swap_stage_plan(on), expected);
    let hib = SwapConfig { size: 4096, enabled: true, hibernation: true };
    assert_eq!(swap_stage_plan(hib).len(), 4);
}

#[test]
fn bootloader_target_by_firmware() {
    let r = request(10, 1);
    assert_eq!(bootloader_plan(&r, true, Arch::Arm64), execute_grub_install(&None, Arch::Arm64));
    assert_eq!(
        bootloader_plan(&r, false, Arch::Amd64)[0],
        cmd("grub-install", &["--target=i386-pc", "/dev/sda"])
    );
}

#[test]
fn start_only_after_all_checks() {
    let bios = Platform { firmware: Firmware::Bios, arch: Arch::Amd64 };
    let efi = Platform { firmware: Firmware::Efi, arch: Arch::Amd64 };
    let primary = vec![entry("/dev/sda2", "primary")];
    let extended = vec![entry("/dev/sda2", "extended")];
    assert_eq!(
        start_installation(&request(20, 20), &PartitionTable::Msdos, bios, &extended).err(),
        Some(InstallError::NonPrimaryPartition)
    );
    assert!(matches!(
        start_installation(&request(20, 20), &PartitionTable::Gpt, bios, &primary).err(),
        Some(InstallError::FirmwareTableMismatch { .. })
    ));
    let mut orphan = request(0, 0);
    orphan.partition.parent_path = None;
    assert_eq!(
        start_installation(&orphan, &PartitionTable::Gpt, efi, &primary).err(),
        Some(InstallError::IncompleteTarget)
    );
    let (mut p, first) =
        start_installation(&request(20, 20), &PartitionTable::Gpt, efi, &Vec::new()).unwrap();
    assert_eq!(first, Directive::Perform { stage: Stage::Formatting, percent: 0 });
    p.advance(deploykit::pipeline::Event::Succeeded);
    assert_eq!(
        p.advance(deploykit::pipeline::Event::Succeeded),
        Directive::Perform { stage: Stage::BootPartitionMount, percent: 8 }
    );
}
