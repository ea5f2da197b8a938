use deploykit::error::InstallError;
use deploykit::fstab::{fstab_entries, fstab_fs, fstab_id_source, FstabEntry, FstabFs, IdSource};

fn dev() -> Option<String> {
    Some("/dev/sda1".to_string())
}

#[test]
fn entry_for_root() {
    let e = fstab_entries(&dev(), "ext4", "/", Some("abcd".to_string())).unwrap();
    assert_eq!(
        e,
        FstabEntry {
            source: IdSource::Uuid,
            id: "abcd".to_string(),
            mount: "/".to_string(),
            fs: FstabFs::Ext4,
            options: "defaults".to_string(),
        }
    );
}

#[test]
fn entry_for_fat_and_swap() {
    let e = fstab_entries(&dev(), "fat16", "/efi", Some("efi-id".to_string())).unwrap();
    assert_eq!(e.source, IdSource::PartUuid);
    assert_eq!(e.fs, FstabFs::Fat32);
    let s = fstab_entries(&dev(), "swap", "none", Some("s1".to_string())).unwrap();
    assert_eq!(s.options, "sw");
    assert_eq!(s.fs, FstabFs::Swap);
    assert_eq!(fstab_id_source("vfat"), Some(IdSource::PartUuid));
    assert_eq!(fstab_id_source("xfs"), Some(IdSource::Uuid));
    assert_eq!(fstab_id_source("ntfs"), None);
    assert_eq!(fstab_fs("f2fs"), Some(FstabFs::F2fs));
}

#[test]
fn entry_errors() {
    assert_eq!(
        fstab_entries(&None, "ext4", "/", Some("a".to_string())),
        Err(InstallError::IncompleteTarget)
    );
    assert_eq!(
        fstab_entries(&dev(), "ntfs", "/", Some("a".to_string())),
        Err(InstallError::UnsupportedFilesystem)
    );
    assert_eq!(
        fstab_entries(&dev(), "ext4", "/", None),
        Err(InstallError::NoUuid)
    );
}

#[test]
fn entry_is_deterministic() {
    let a = fstab_entries(&dev(), "btrfs", "/", Some("u".to_string()));
    let b = fstab_entries(&dev(), "btrfs", "/", Some("u".to_string()));
    assert_eq!(a, b);
}
