use deploykit::command::{SystemOp, ToolCommand};
use deploykit::disks::Arch;
use deploykit::error::InstallError;
use deploykit::guest::{
    add_new_user, adjtime_is_local, create_swapfile, disable_hibernate, execute_dracut,
    execute_grub_install, gen_ssh_key, get_zoneinfo_list, prepare_try_umount, set_hostname,
    set_hwclock_tc, set_locale, set_zoneinfo, write_swap_entry_to_fstab,
};

fn cmd(program: &str, args: &[&str]) -> ToolCommand {
    ToolCommand {
        program: program.to_string(),
        args: args.iter().map(|a| a.to_string()).collect(),
        input: None,
    }
}

#[test]
fn hwclock_follows_adjtime() {
    let local = Some("0.0 0 0.0\n0\nLOCAL\n".to_string());
    let utc = Some("0.0 0 0.0\n0\nUTC\n".to_string());
    assert!(adjtime_is_local("a\nb\nLOCAL"));
    assert!(!adjtime_is_local("a\nb\nLOCALX"));
    assert!(!adjtime_is_local("LOCAL\nLOCAL"));
    assert_eq!(set_hwclock_tc(true, &utc), None);
    assert_eq!(set_hwclock_tc(true, &None), None);
    assert_eq!(set_hwclock_tc(true, &local), Some(cmd("hwclock", &["-wu"])));
    assert_eq!(set_hwclock_tc(false, &local), None);
    assert_eq!(set_hwclock_tc(false, &utc), Some(cmd("hwclock", &["-wl"])));
}

#[test]
fn user_commands() {
    let cmds = add_new_user("foo", "bar");
    assert_eq!(cmds[0], cmd("useradd", &["-m", "-s", "/bin/bash", "foo"]));
    assert_eq!(cmds[1], cmd("usermod", &["-aG", "audio,cdrom,video,wheel,plugdev", "foo"]));
    assert_eq!(cmds[2].program, "chpasswd");
    assert_eq!(cmds[2].input.as_deref(), Some("foo:bar\n"));
}

#[test]
fn grub_commands() {
    let mkconfig = cmd("grub-mkconfig", &["-o", "/boot/grub/grub.cfg"]);
    assert_eq!(
        execute_grub_install(&Some("/dev/sda".to_string()), Arch::Amd64),
        vec![cmd("grub-install", &["--target=i386-pc", "/dev/sda"]), mkconfig.clone()]
    );
    assert_eq!(
        execute_grub_install(&None, Arch::Amd64),
        vec![
            cmd(
                "grub-install",
                &["--bootloader-id=AOSC OS", "--target=x86_64-efi", "--efi-directory=/efi"]
            ),
            mkconfig.clone()
        ]
    );
    assert_eq!(
        execute_grub_install(&None, Arch::Ppc64el)[0],
        cmd("grub-install", &["--bootloader-id=AOSC OS", "--target=powerpc-ieee1275"])
    );
    assert!(execute_grub_install(&None, Arch::Other).is_empty());
}

#[test]
fn initramfs_and_ssh_keys_by_flavour() {
    assert_eq!(execute_dracut(false), Some(cmd("/usr/bin/update-initramfs", &[])));
    assert_eq!(execute_dracut(true), None);
    assert_eq!(gen_ssh_key(true), Some(cmd("ssh-keygen", &["-A"])));
    assert_eq!(gen_ssh_key(false), None);
}

#[test]
fn guest_files() {
    assert_eq!(
        set_hostname("foo"),
        SystemOp::WriteFile { path: "/etc/hostname".to_string(), content: "foo".to_string() }
    );
    assert_eq!(
        set_locale("en_US.UTF-8"),
        SystemOp::WriteFile {
            path: "/etc/locale.conf".to_string(),
            content: "LANG=en_US.UTF-8".to_string()
        }
    );
    assert_eq!(
        set_zoneinfo("Asia/Shanghai"),
        SystemOp::Symlink {
            target: "/usr/share/zoneinfo/Asia/Shanghai".to_string(),
            link: "/etc/localtime".to_string()
        }
    );
    assert_eq!(
        write_swap_entry_to_fstab(),
        SystemOp::AppendFile {
            path: "/etc/fstab".to_string(),
            content: "/swapfile none swap defaults,nofail 0 0\n".to_string()
        }
    );
    assert_eq!(
        disable_hibernate(),
        SystemOp::Symlink {
            target: "/dev/null".to_string(),
            link: "/etc/systemd/system/hibernate.target".to_string()
        }
    );
}

#[test]
fn swapfile_plan() {
    assert!(create_swapfile(1024, false, "/tmp/m").is_empty());
    let plan = create_swapfile(1024, true, "/tmp/m");
    assert_eq!(
        plan,
        vec![
            SystemOp::Allocate { path: "/tmp/m/swapfile".to_string(), size: 1024 },
            SystemOp::Run { command: cmd("mkswap", &["/tmp/m/swapfile"]) },
            SystemOp::TryRun { command: cmd("swapon", &["/tmp/m/swapfile"]) },
        ]
    );
}

#[test]
fn stale_mounts_unmounted() {
    let mounts = vec![
        "/".to_string(),
        "/tmp/.dkmountabc".to_string(),
        "/tmp/other".to_string(),
    ];
    assert_eq!(
        prepare_try_umount(&mounts),
        vec![
            SystemOp::Unmount { target: "/tmp/.dkmountabc".to_string() },
            SystemOp::Sync
        ]
    );
}

#[test]
fn zone_list_sorted_with_utc_first() {
    let zones = vec![
        "Europe/Berlin".to_string(),
        "America/New_York".to_string(),
        "Asia/Shanghai".to_string(),
    ];
    assert_eq!(
        get_zoneinfo_list(zones).unwrap(),
        vec!["UTC", "America/New_York", "Asia/Shanghai", "Europe/Berlin"]
    );
    assert_eq!(get_zoneinfo_list(Vec::new()), Err(InstallError::EmptyZoneList));
}
