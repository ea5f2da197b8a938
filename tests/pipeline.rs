use deploykit::disks::Partition;
use deploykit::error::InstallError;
use deploykit::pipeline::{
    Directive, Event, InstallRequest, Mirror, Pipeline, Stage, SwapConfig, Variant,
};

fn request(size: u64, install_size: u64) -> InstallRequest {
    InstallRequest {
        partition: Partition {
            path: Some("/dev/sda2".to_string()),
            parent_path: Some("/dev/sda".to_string()),
            fs_type: Some("ext4".to_string()),
            size,
        },
        variant: Variant {
            name: "Base".to_string(),
            url: "https://example.org/base.tar.xz".to_string(),
            size: 1000,
            install_size,
        },
        mirror: Mirror { name: "origin".to_string(), url: "https://example.org/".to_string() },
        user: "foo".to_string(),
        password: "secret".to_string(),
        hostname: "foo-pc".to_string(),
        locale: "C.UTF-8".to_string(),
        timezone: "UTC".to_string(),
        rtc_utc: true,
        swap: SwapConfig { size: 0, enabled: false, hibernation: false },
    }
}

#[test]
fn undersized_partition_rejected_before_formatting() {
    assert_eq!(
        Pipeline::new(&request(10, 11), false).err(),
        Some(InstallError::InsufficientSpace { available: 10, required: 11 })
    );
}

#[test]
fn pathless_partition_rejected() {
    let mut r = request(100, 10);
    r.partition.path = None;
    assert_eq!(Pipeline::new(&r, true).err(), Some(InstallError::IncompleteTarget));
}

#[test]
fn stages_run_in_order_on_efi() {
    let (mut p, first) = Pipeline::new(&request(100, 100), true).unwrap();
    assert_eq!(first, Directive::Perform { stage: Stage::Formatting, percent: 0 });
    let expected = [
        Stage::Mounting,
        Stage::BootPartitionMount,
        Stage::Fetching,
        Stage::Extracting,
        Stage::ConfiguringGuest,
        Stage::SwapSetup,
        Stage::BootloaderInstall,
        Stage::Unmounting,
    ];
    let mut last = 0u8;
    for s in expected {
        match p.advance(Event::Succeeded) {
            Directive::Perform { stage, percent } => {
                assert_eq!(stage, s);
                assert!(percent >= last && percent <= 100);
                last = percent;
            }
            other => panic!("unexpected {other:?}"),
        }
    }
    assert_eq!(p.advance(Event::Succeeded), Directive::Finish);
    assert_eq!(p.stage(), Stage::Done);
    assert_eq!(p.advance(Event::Succeeded), Directive::Halt);
    assert_eq!(p.advance(Event::Cancelled), Directive::Halt);
}

#[test]
fn bios_run_skips_boot_partition() {
    let (mut p, _) = Pipeline::new(&request(100, 100), false).unwrap();
    p.advance(Event::Succeeded);
    assert_eq!(
        p.advance(Event::Succeeded),
        Directive::Perform { stage: Stage::Fetching, percent: 10 }
    );
}

#[test]
fn cancel_while_fetching_cleans_up_once() {
    let (mut p, _) = Pipeline::new(&request(100, 100), false).unwrap();
    p.advance(Event::Succeeded);
    p.advance(Event::Succeeded);
    assert_eq!(p.stage(), Stage::Fetching);
    assert_eq!(p.advance(Event::Cancelled), Directive::Cleanup);
    assert_eq!(p.stage(), Stage::Aborted);
    for e in [Event::Succeeded, Event::Succeeded, Event::Cancelled, Event::Failed] {
        assert_eq!(p.advance(e), Directive::Halt);
    }
    assert_eq!(p.stage(), Stage::Aborted);
}

#[test]
fn failure_aborts_with_cleanup() {
    let (mut p, _) = Pipeline::new(&request(100, 100), true).unwrap();
    assert_eq!(p.advance(Event::Failed), Directive::Cleanup);
    assert_eq!(p.advance(Event::Succeeded), Directive::Halt);
}

#[test]
fn filesystem_kind_must_be_usable() {
    let mut r = request(100, 10);
    r.partition.fs_type = None;
    assert_eq!(Pipeline::new(&r, false).err(), Some(InstallError::IncompleteTarget));
    r.partition.fs_type = Some("ntfs".to_string());
    assert_eq!(Pipeline::new(&r, false).err(), Some(InstallError::UnsupportedFilesystem));
    r.partition.fs_type = Some("xfs".to_string());
    assert!(Pipeline::new(&r, false).is_ok());
}

#[test]
fn target_needs_parent_disk_and_size() {
    let mut r = request(0, 0);
    assert_eq!(Pipeline::new(&r, false).err(), Some(InstallError::IncompleteTarget));
    r.partition.size = 100;
    r.partition.parent_path = None;
    assert_eq!(Pipeline::new(&r, false).err(), Some(InstallError::IncompleteTarget));
    r.partition.parent_path = Some("/dev/sda".to_string());
    assert!(Pipeline::new(&r, false).is_ok());
}
