use vstd::prelude::*;

use crate::error::InstallError;
use crate::text::{opt_view, owned, text_eq};

verus! {

/// The filesystem kinds that have an fstab entry form.
#[derive(Debug, Clone, Copy, PartialEq, Eq, Structural)]
pub enum FstabFs {
    Fat32,
    Ext4,
    Btrfs,
    Xfs,
    F2fs,
    Swap,
}

/// Which persistent identifier names a partition in fstab.
#[derive(Debug, Clone, Copy, PartialEq, Eq, Structural)]
pub enum IdSource {
    Uuid,
    /// FAT filesystems are prone to UUID collisions, so they are named by
    /// their partition's UUID instead.
    PartUuid,
}

/// One fstab entry: the partition's identifier and where it comes from,
/// the mount point, the filesystem and the mount options.
#[derive(Debug, Clone, PartialEq, Eq)]
pub struct FstabEntry {
    pub source: IdSource,
    pub id: String,
    pub mount: String,
    pub fs: FstabFs,
    pub options: String,
}

/// The fstab filesystem for the filesystem kind `t`, if it has one.
pub open spec fn fstab_kind(t: Seq<char>) -> Option<FstabFs> {
    if t == "vfat"@ || t == "fat16"@ || t == "fat32"@ {
        Some(FstabFs::Fat32)
    } else if t == "ext4"@ {
        Some(FstabFs::Ext4)
    } else if t == "btrfs"@ {
        Some(FstabFs::Btrfs)
    } else if t == "xfs"@ {
        Some(FstabFs::Xfs)
    } else if t == "f2fs"@ {
        Some(FstabFs::F2fs)
    } else if t == "swap"@ {
        Some(FstabFs::Swap)
    } else {
        None
    }
}

/// The mount options of an entry: `sw` for swap, `defaults` otherwise.
pub open spec fn fstab_options(k: FstabFs) -> Seq<char> {
    if k == FstabFs::Swap {
        "sw"@
    } else {
        "defaults"@
    }
}

/// The identifier that names a partition of filesystem `k`.
pub open spec fn id_source(k: FstabFs) -> IdSource {
    if k == FstabFs::Fat32 {
        IdSource::PartUuid
    } else {
        IdSource::Uuid
    }
}

/// What building an entry gives: for a device path, a filesystem kind, a
/// mount point and the looked-up identifier.
pub open spec fn entry_outcome(
    device: Option<Seq<char>>,
    fs_type: Seq<char>,
    mount: Seq<char>,
    id: Option<Seq<char>>,
) -> Result<(IdSource, Seq<char>, Seq<char>, FstabFs, Seq<char>), InstallError> {
    if device is None {
        Err(InstallError::IncompleteTarget)
    } else if fstab_kind(fs_type) is None {
        Err(InstallError::UnsupportedFilesystem)
    } else if id is None {
        Err(InstallError::NoUuid)
    } else {
        let k = fstab_kind(fs_type)->0;
        Ok((id_source(k), id->0, mount, k, fstab_options(k)))
    }
}

/// The parts of `e` as plain values.
pub open spec fn entry_parts(e: FstabEntry) -> (IdSource, Seq<char>, Seq<char>, FstabFs, Seq<char>) {
    (e.source, e.id@, e.mount@, e.fs, e.options@)
}

/// The fstab filesystem for the filesystem kind `fs_type`, if it has one.
pub fn fstab_fs(fs_type: &str) -> (r: Option<FstabFs>)
    ensures
        r == fstab_kind(fs_type@),
{
    proof {
        reveal_strlit("vfat");
        reveal_strlit("fat16");
        reveal_strlit("fat32");
        reveal_strlit("ext4");
        reveal_strlit("btrfs");
        reveal_strlit("xfs");
        reveal_strlit("f2fs");
        reveal_strlit("swap");
        assert("vfat"@[0] != "ext4"@[0] && "vfat"@[0] != "f2fs"@[0] && "vfat"@[0] != "swap"@[0]);
        assert("ext4"@[0] != "f2fs"@[0] && "ext4"@[0] != "swap"@[0] && "f2fs"@[0] != "swap"@[0]);
        assert("fat16"@[0] != "btrfs"@[0] && "fat32"@[0] != "btrfs"@[0]);
        assert("fat16"@.len() != "ext4"@.len() && "fat16"@.len() != "xfs"@.len());
    }
    if text_eq(fs_type, "vfat") || text_eq(fs_type, "fat16") || text_eq(fs_type, "fat32") {
        Some(FstabFs::Fat32)
    } else if text_eq(fs_type, "ext4") {
        Some(FstabFs::Ext4)
    } else if text_eq(fs_type, "btrfs") {
        Some(FstabFs::Btrfs)
    } else if text_eq(fs_type, "xfs") {
        Some(FstabFs::Xfs)
    } else if text_eq(fs_type, "f2fs") {
        Some(FstabFs::F2fs)
    } else if text_eq(fs_type, "swap") {
        Some(FstabFs::Swap)
    } else {
        None
    }
}

/// Which identifier to look up for a partition of filesystem `fs_type`, or
/// `None` when the kind has no fstab entry form.
pub fn fstab_id_source(fs_type: &str) -> (r: Option<IdSource>)
    ensures
        r is None <==> fstab_kind(fs_type@) is None,
        r is Some ==> r->0 == id_source(fstab_kind(fs_type@)->0),
{
    match fstab_fs(fs_type) {
        Some(FstabFs::Fat32) => Some(IdSource::PartUuid),
        Some(_) => Some(IdSource::Uuid),
        None => None,
    }
}

/// The fstab entry that mounts `device_path`, formatted as `fs_type`, at
/// `mount_path`, given `id`, the identifier looked up for it. Fails with
/// `IncompleteTarget` without a device path, `UnsupportedFilesystem` for a
/// kind with no entry form, and `NoUuid` when no identifier was found.
pub fn fstab_entries(
    device_path: &Option<String>,
    fs_type: &str,
    mount_path: &str,
    id: Option<String>,
) -> (r: Result<FstabEntry, InstallError>)
    ensures
        match entry_outcome(opt_view(*device_path), fs_type@, mount_path@, opt_view(id)) {
            Ok(parts) => r is Ok && entry_parts(r->Ok_0) == parts,
            Err(e) => r == Err::<FstabEntry, InstallError>(e),
        },
{
    if device_path.is_none() {
        return Err(InstallError::IncompleteTarget);
    }
    let fs = match fstab_fs(fs_type) {
        Some(k) => k,
        None => {
            return Err(InstallError::UnsupportedFilesystem);
        },
    };
    let id = match id {
        Some(i) => i,
        None => {
            return Err(InstallError::NoUuid);
        },
    };
    let (source, options) = match fs {
        FstabFs::Fat32 => (IdSource::PartUuid, owned("defaults")),
        FstabFs::Swap => (IdSource::Uuid, owned("sw")),
        _ => (IdSource::Uuid, owned("defaults")),
    };
    Ok(FstabEntry { source, id, mount: owned(mount_path), fs, options })
}

/// Building an entry is deterministic: the same device, filesystem kind,
/// mount point and identifier always give the same entry.
pub proof fn lemma_entry_deterministic(
    device: Option<Seq<char>>,
    fs_type: Seq<char>,
    mount: Seq<char>,
    id: Option<Seq<char>>,
    e1: FstabEntry,
    e2: FstabEntry,
)
    requires
        entry_outcome(device, fs_type, mount, id) is Ok,
        entry_parts(e1) == entry_outcome(device, fs_type, mount, id)->Ok_0,
        entry_parts(e2) == entry_outcome(device, fs_type, mount, id)->Ok_0,
    ensures
        entry_parts(e1) == entry_parts(e2),
        e1.id@ == e2.id@ && e1.mount@ == e2.mount@ && e1.options@ == e2.options@,
        e1.source == e2.source && e1.fs == e2.fs,
{
}

} // verus!
