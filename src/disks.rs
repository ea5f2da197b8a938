use vstd::prelude::*;

use crate::command::{call, two_args, views, ToolCommand};
use crate::error::InstallError;
use crate::text::{text_eq, owned};

verus! {

/// Whether `t` names a filesystem the installer can install onto.
pub open spec fn is_supported_fs(t: Seq<char>) -> bool {
    t == "ext4"@ || t == "xfs"@ || t == "btrfs"@ || t == "f2fs"@
}

/// The filesystem used when `t` is asked for: `t` itself when supported,
/// else the default, ext4.
pub open spec fn recommended_fs(t: Seq<char>) -> Seq<char> {
    if is_supported_fs(t) {
        t
    } else {
        "ext4"@
    }
}

/// The filesystem kind a partition gets when prepared for installation.
pub open spec fn normalized_fs(fs: Option<String>, use_ext4: bool) -> Seq<char> {
    if fs is Some && !use_ext4 {
        recommended_fs(fs->0@)
    } else {
        "ext4"@
    }
}

/// Whether `t` names a filesystem the installer can install onto.
pub fn is_supported_fs_type(t: &str) -> (r: bool)
    ensures
        r == is_supported_fs(t@),
{
    text_eq(t, "ext4") || text_eq(t, "xfs") || text_eq(t, "btrfs") || text_eq(t, "f2fs")
}

/// Returns `type_` when it is a supported filesystem, else the default.
pub fn get_recommended_fs_type(type_: &str) -> (r: &str)
    ensures
        r@ == recommended_fs(type_@),
{
    if is_supported_fs_type(type_) {
        type_
    } else {
        "ext4"
    }
}

/// A partition as probed from a block device.
///
/// A partition usable as an install target has a device path and a size
/// above zero; no filesystem kind means unformatted or unrecognized.
#[derive(Debug, Clone, PartialEq, Eq)]
pub struct Partition {
    pub path: Option<String>,
    pub parent_path: Option<String>,
    pub fs_type: Option<String>,
    pub size: u64,
}

/// A copy of an optional string.
pub fn copy_opt(o: &Option<String>) -> (r: Option<String>)
    ensures
        r == *o,
{
    match o {
        Some(s) => Some(s.clone()),
        None => None,
    }
}

/// A copy of `part` whose filesystem kind is the recommended one for its
/// current kind, or the default when it has none or `use_ext4` is set.
pub fn fill_fs_type(part: &Partition, use_ext4: bool) -> (r: Partition)
    ensures
        r.path == part.path,
        r.parent_path == part.parent_path,
        r.size == part.size,
        r.fs_type is Some,
        r.fs_type->0@ == normalized_fs(part.fs_type, use_ext4),
{
    let new_fs_type: String = match &part.fs_type {
        Some(fs) => {
            if !use_ext4 {
                owned(get_recommended_fs_type(fs.as_str()))
            } else {
                owned("ext4")
            }
        },
        None => owned("ext4"),
    };
    Partition {
        path: copy_opt(&part.path),
        parent_path: copy_opt(&part.parent_path),
        fs_type: Some(new_fs_type),
        size: part.size,
    }
}

/// The formatter flags for filesystem `fs`: quiet and forced for ext4, FAT32
/// for vfat, forced for the rest.
pub open spec fn mkfs_flag(fs: Seq<char>) -> Seq<char> {
    if fs == "ext4"@ {
        "-Fq"@
    } else if fs == "vfat"@ {
        "-F32"@
    } else {
        "-f"@
    }
}

/// The filesystem a partition is formatted as: its kind, or ext4 if none.
pub open spec fn format_fs(part: Partition) -> Seq<char> {
    if part.fs_type is Some {
        part.fs_type->0@
    } else {
        "ext4"@
    }
}

/// The formatter invocation for `partition`: `mkfs.<fs> <flag> <device>`.
pub fn format_partition(partition: &Partition) -> (r: Result<ToolCommand, InstallError>)
    ensures
        partition.path is None <==> r matches Err(InstallError::MissingTarget),
        partition.path is Some ==> r is Ok && r->Ok_0@ == call(
            "mkfs."@ + format_fs(*partition),
            seq![mkfs_flag(format_fs(*partition)), partition.path->0@],
        ),
{
    let path = match &partition.path {
        Some(p) => p,
        None => {
            return Err(InstallError::MissingTarget);
        },
    };
    let fs: &str = match &partition.fs_type {
        Some(f) => f.as_str(),
        None => "ext4",
    };
    let flag: &str = if text_eq(fs, "ext4") {
        "-Fq"
    } else if text_eq(fs, "vfat") {
        "-F32"
    } else {
        "-f"
    };
    let mut program = owned("mkfs.");
    program.append(fs);
    let args = two_args(flag, path.as_str());
    let cmd = ToolCommand { program, args, input: None };
    assert(views(cmd.args@) == seq![mkfs_flag(format_fs(*partition)), partition.path->0@]);
    Ok(cmd)
}

/// The kind of partition table on a disk.
#[derive(Debug, Clone, PartialEq, Eq)]
pub enum PartitionTable {
    Gpt,
    /// The legacy MBR table.
    Msdos,
    Other(String),
}

impl PartitionTable {
    /// The table kind named `name`, as the partitioning library names them.
    pub fn from_name(name: &str) -> (r: PartitionTable)
        ensures
            name@ == "gpt"@ <==> r is Gpt,
            name@ == "msdos"@ <==> r is Msdos,
            r is Other ==> r->Other_0@ == name@,
    {
        proof {
            reveal_strlit("gpt");
            reveal_strlit("msdos");
            assert("gpt"@.len() != "msdos"@.len());
        }
        if text_eq(name, "gpt") {
            PartitionTable::Gpt
        } else if text_eq(name, "msdos") {
            PartitionTable::Msdos
        } else {
            PartitionTable::Other(owned(name))
        }
    }
}

/// How the machine's firmware booted it.
#[derive(Debug, Clone, Copy, PartialEq, Eq, Structural)]
pub enum Firmware {
    Efi,
    Bios,
}

/// The processor architecture of the machine, by its distribution name.
#[derive(Debug, Clone, Copy, PartialEq, Eq, Structural)]
pub enum Arch {
    Amd64,
    Arm64,
    Ppc64el,
    Ppc64,
    PowerPc,
    Riscv64,
    Other,
}

impl Arch {
    /// The architecture called `name` ("amd64", "arm64", "ppc64el", ...).
    pub fn from_name(name: &str) -> (r: Arch)
        ensures
            name@ == "amd64"@ <==> r == Arch::Amd64,
            name@ == "arm64"@ <==> r == Arch::Arm64,
            name@ == "ppc64el"@ <==> r == Arch::Ppc64el,
            name@ == "ppc64"@ <==> r == Arch::Ppc64,
            name@ == "powerpc"@ <==> r == Arch::PowerPc,
            name@ == "riscv64"@ <==> r == Arch::Riscv64,
    {
        proof {
            reveal_strlit("amd64");
            reveal_strlit("arm64");
            reveal_strlit("ppc64el");
            reveal_strlit("ppc64");
            reveal_strlit("powerpc");
            reveal_strlit("riscv64");
            assert("amd64"@.len() == 5 && "arm64"@.len() == 5 && "ppc64"@.len() == 5);
            assert("ppc64el"@.len() == 7 && "powerpc"@.len() == 7 && "riscv64"@.len() == 7);
            assert("amd64"@[1] != "arm64"@[1] && "amd64"@[1] != "ppc64"@[1] && "arm64"@[1]
                != "ppc64"@[1]);
            assert("ppc64el"@[1] != "powerpc"@[1] && "ppc64el"@[1] != "riscv64"@[1]
                && "powerpc"@[1] != "riscv64"@[1]);
        }
        if text_eq(name, "amd64") {
            Arch::Amd64
        } else if text_eq(name, "arm64") {
            Arch::Arm64
        } else if text_eq(name, "ppc64el") {
            Arch::Ppc64el
        } else if text_eq(name, "ppc64") {
            Arch::Ppc64
        } else if text_eq(name, "powerpc") {
            Arch::PowerPc
        } else if text_eq(name, "riscv64") {
            Arch::Riscv64
        } else {
            Arch::Other
        }
    }
}

/// The machine an installation runs on: its firmware and architecture.
#[derive(Debug, Clone, Copy, PartialEq, Eq, Structural)]
pub struct Platform {
    pub firmware: Firmware,
    pub arch: Arch,
}

/// Whether the 64-bit POWER rule governs the partition table on `p`.
pub open spec fn is_power64(p: Platform) -> bool {
    p.arch == Arch::Ppc64el || p.arch == Arch::Ppc64
}

/// Whether a disk with table `t` can boot on `p`: on 64-bit POWER only
/// little-endian machines insist on GPT; elsewhere GPT goes with EFI and MBR
/// with BIOS.
pub open spec fn table_fits(t: PartitionTable, p: Platform) -> bool {
    if is_power64(p) {
        p.arch == Arch::Ppc64el ==> t is Gpt
    } else {
        (t is Gpt && p.firmware == Firmware::Efi) || (t is Msdos && p.firmware == Firmware::Bios)
    }
}

/// The error the firmware/table check gives for `t` on `p`.
pub open spec fn firmware_error(t: PartitionTable, p: Platform) -> InstallError {
    InstallError::FirmwareTableMismatch { detected: t, firmware: p.firmware, required: required_table(p) }
}

/// The table kind that `p` asks for.
pub open spec fn required_table(p: Platform) -> PartitionTable {
    if is_power64(p) || p.firmware == Firmware::Efi {
        PartitionTable::Gpt
    } else {
        PartitionTable::Msdos
    }
}

/// Checks that a disk with partition table `table` can boot on `platform`;
/// if not, the error names the table found, the firmware mode and the table
/// to use instead.
pub fn right_combine(table: &PartitionTable, platform: Platform) -> (r: Result<(), InstallError>)
    ensures
        r is Ok <==> table_fits(*table, platform),
        r is Err ==> r->Err_0 == (InstallError::FirmwareTableMismatch {
            detected: *table,
            firmware: platform.firmware,
            required: required_table(platform),
        }),
{
    let power64 = match platform.arch {
        Arch::Ppc64el | Arch::Ppc64 => true,
        _ => false,
    };
    let fits = if power64 {
        match platform.arch {
            Arch::Ppc64el => matches!(table, PartitionTable::Gpt),
            _ => true,
        }
    } else {
        match (table, platform.firmware) {
            (PartitionTable::Gpt, Firmware::Efi) => true,
            (PartitionTable::Msdos, Firmware::Bios) => true,
            _ => false,
        }
    };
    if fits {
        Ok(())
    } else {
        let required = if power64 {
            PartitionTable::Gpt
        } else {
            match platform.firmware {
                Firmware::Efi => PartitionTable::Gpt,
                Firmware::Bios => PartitionTable::Msdos,
            }
        };
        Err(
            InstallError::FirmwareTableMismatch {
                detected: copy_table(table),
                firmware: platform.firmware,
                required,
            },
        )
    }
}

/// A copy of a table kind.
pub fn copy_table(t: &PartitionTable) -> (r: PartitionTable)
    ensures
        r == *t,
{
    match t {
        PartitionTable::Gpt => PartitionTable::Gpt,
        PartitionTable::Msdos => PartitionTable::Msdos,
        PartitionTable::Other(s) => PartitionTable::Other(s.clone()),
    }
}

/// One entry of a disk's partition table, as the partitioning library reports
/// it. Table metadata entries have a negative number.
#[derive(Debug, Clone, PartialEq, Eq)]
pub struct ProbedPartition {
    pub num: i32,
    pub path: Option<String>,
    /// Length in sectors; negative when the library cannot tell.
    pub length: i64,
    /// Filesystem found by signature probing, if any.
    pub fs_type: Option<String>,
    /// Whether the EFI system partition flag is set.
    pub esp: bool,
    /// The entry's type name: "primary", "logical", "extended", ...
    pub kind: String,
}

/// A block device and what could be read of its partition table; `None`
/// when the device could not be read.
#[derive(Debug, Clone, PartialEq, Eq)]
pub struct ProbedDevice {
    pub path: String,
    pub sector_size: u64,
    pub partitions: Option<Vec<ProbedPartition>>,
}

/// Whether `p` is a real partition rather than table metadata.
pub open spec fn is_real(p: ProbedPartition) -> bool {
    p.num >= 0
}

/// The length of `p` in sectors, zero when unknown.
pub open spec fn sectors(p: ProbedPartition) -> int {
    if p.length < 0 {
        0
    } else {
        p.length as int
    }
}

/// Whether every real partition's size in bytes fits in 64 bits.
pub open spec fn sizes_fit(ds: Seq<ProbedDevice>) -> bool {
    forall|i: int, j: int|
        0 <= i < ds.len() && ds[i].partitions is Some && 0 <= j < ds[i].partitions->0@.len()
            ==> ds[i].sector_size * #[trigger] sectors(ds[i].partitions->0@[j]) <= u64::MAX
}

/// The partition that entry `p` of device `d` describes.
pub open spec fn partition_of(d: ProbedDevice, p: ProbedPartition) -> Partition {
    Partition {
        path: p.path,
        parent_path: Some(d.path),
        fs_type: p.fs_type,
        size: (d.sector_size * sectors(p)) as u64,
    }
}

/// The partitions that entries `ps` of device `d` describe, in order,
/// metadata entries left out.
pub open spec fn partitions_of(d: ProbedDevice, ps: Seq<ProbedPartition>) -> Seq<Partition>
    decreases ps.len(),
{
    if ps.len() == 0 {
        Seq::empty()
    } else {
        partitions_of(d, ps.drop_last()) + if is_real(ps.last()) {
            seq![partition_of(d, ps.last())]
        } else {
            Seq::empty()
        }
    }
}

/// All partitions of the readable devices among `ds`, device by device.
pub open spec fn all_partitions(ds: Seq<ProbedDevice>) -> Seq<Partition>
    decreases ds.len(),
{
    if ds.len() == 0 {
        Seq::empty()
    } else {
        all_partitions(ds.drop_last()) + if ds.last().partitions is Some {
            partitions_of(ds.last(), ds.last().partitions->0@)
        } else {
            Seq::empty()
        }
    }
}

/// A copy of a probed device's path and the partitions it describes.
fn device_partitions(d: &ProbedDevice, ps: &Vec<ProbedPartition>, out: &mut Vec<Partition>)
    requires
        forall|j: int|
            0 <= j < ps@.len() ==> d.sector_size * #[trigger] sectors(ps@[j]) <= u64::MAX,
    ensures
        final(out)@ == old(out)@ + partitions_of(*d, ps@),
{
    let mut j: usize = 0;
    while j < ps.len()
        invariant
            j <= ps@.len(),
            forall|k: int|
                0 <= k < ps@.len() ==> d.sector_size * #[trigger] sectors(ps@[k]) <= u64::MAX,
            out@ == old(out)@ + partitions_of(*d, ps@.subrange(0, j as int)),
        decreases ps@.len() - j,
    {
        let p = &ps[j];
        assert(ps@.subrange(0, j as int + 1).drop_last() =~= ps@.subrange(0, j as int));
        if p.num >= 0 {
            let len: u64 = if p.length < 0 {
                0
            } else {
                p.length as u64
            };
            assert(d.sector_size * sectors(ps@[j as int]) <= u64::MAX);
            let part = Partition {
                path: copy_opt(&p.path),
                parent_path: Some(d.path.clone()),
                fs_type: copy_opt(&p.fs_type),
                size: d.sector_size * len,
            };
            assert(part == partition_of(*d, ps@[j as int]));
            out.push(part);
        }
        j = j + 1;
        assert(out@ =~= old(out)@ + partitions_of(*d, ps@.subrange(0, j as int)));
    }
    assert(ps@.subrange(0, ps@.len() as int) =~= ps@);
}

/// The partitions of all readable devices, device by device and in table
/// order, each with its device as parent and its size in bytes; metadata
/// entries and unreadable devices give none.
pub fn list_partitions(devices: &Vec<ProbedDevice>) -> (r: Vec<Partition>)
    requires
        sizes_fit(devices@),
    ensures
        r@ == all_partitions(devices@),
{
    let mut out: Vec<Partition> = Vec::new();
    let mut i: usize = 0;
    while i < devices.len()
        invariant
            i <= devices@.len(),
            sizes_fit(devices@),
            out@ == all_partitions(devices@.subrange(0, i as int)),
        decreases devices@.len() - i,
    {
        let d = &devices[i];
        assert(devices@.subrange(0, i as int + 1).drop_last() =~= devices@.subrange(0, i as int));
        match &d.partitions {
            Some(ps) => {
                assert forall|j: int| 0 <= j < ps@.len() implies d.sector_size * #[trigger] sectors(
                    ps@[j],
                ) <= u64::MAX by {
                    assert(devices@[i as int].sector_size * sectors(
                        devices@[i as int].partitions->0@[j],
                    ) <= u64::MAX);
                }
                device_partitions(d, ps, &mut out);
            },
            None => {},
        }
        i = i + 1;
        assert(out@ =~= all_partitions(devices@.subrange(0, i as int)));
    }
    assert(devices@.subrange(0, devices@.len() as int) =~= devices@);
    out
}

/// The first real entry of `ps` flagged as the EFI system partition.
pub open spec fn first_esp(ps: Seq<ProbedPartition>) -> Option<ProbedPartition>
    decreases ps.len(),
{
    if ps.len() == 0 {
        None
    } else if is_real(ps[0]) && ps[0].esp {
        Some(ps[0])
    } else {
        first_esp(ps.drop_first())
    }
}

/// The EFI system partition among a device's entries `parts`: the first
/// real entry with the flag, with its path and probed filesystem. Fails with
/// `NotFound` when no entry has the flag or the flagged one has no path.
pub fn find_esp_partition(parts: &Vec<ProbedPartition>) -> (r: Result<Partition, InstallError>)
    ensures
        match first_esp(parts@) {
            Some(p) => if p.path is Some {
                r == Ok::<Partition, InstallError>(
                    Partition { path: p.path, parent_path: None, fs_type: p.fs_type, size: 0 },
                )
            } else {
                r matches Err(InstallError::NotFound)
            },
            None => r matches Err(InstallError::NotFound),
        },
{
    let mut i: usize = 0;
    assert(parts@.subrange(0, parts@.len() as int) =~= parts@);
    while i < parts.len()
        invariant
            i <= parts@.len(),
            first_esp(parts@) == first_esp(parts@.subrange(i as int, parts@.len() as int)),
        decreases parts@.len() - i,
    {
        let p = &parts[i];
        let ghost rest = parts@.subrange(i as int, parts@.len() as int);
        assert(rest[0] == parts@[i as int]);
        if p.num >= 0 && p.esp {
            return match &p.path {
                Some(path) => Ok(
                    Partition {
                        path: Some(path.clone()),
                        parent_path: None,
                        fs_type: copy_opt(&p.fs_type),
                        size: 0,
                    },
                ),
                None => Err(InstallError::NotFound),
            };
        }
        assert(rest.drop_first() =~= parts@.subrange(i as int + 1, parts@.len() as int));
        i = i + 1;
    }
    Err(InstallError::NotFound)
}

/// Whether entry `p` is the partition at `path`.
pub open spec fn is_at(p: ProbedPartition, path: Seq<char>) -> bool {
    p.path is Some && p.path->0@ == path
}

/// The type name of the first entry of `ps` at `path`.
pub open spec fn kind_at(ps: Seq<ProbedPartition>, path: Seq<char>) -> Option<Seq<char>>
    decreases ps.len(),
{
    if ps.len() == 0 {
        None
    } else if is_at(ps[0], path) {
        Some(ps[0].kind@)
    } else {
        kind_at(ps.drop_first(), path)
    }
}

/// The error the MBR primary-partition check gives, if any.
pub open spec fn mbr_error(
    table: PartitionTable,
    selected: Option<String>,
    children: Seq<ProbedPartition>,
) -> Option<InstallError> {
    if !(table is Msdos) {
        None
    } else if selected is None {
        Some(InstallError::NotFound)
    } else if kind_at(children, selected->0@) is None {
        Some(InstallError::NotFound)
    } else if kind_at(children, selected->0@)->0 == "primary"@ {
        None
    } else {
        Some(InstallError::NonPrimaryPartition)
    }
}

/// On an MBR (msdos) disk, checks that the selected partition at
/// `selected` is a primary partition among the disk's entries `children`:
/// `NonPrimaryPartition` if it is not, `NotFound` if no entry is at that
/// path or nothing was selected. Any other table passes.
pub fn mbr_is_primary_partition(
    table: &PartitionTable,
    selected: &Option<String>,
    children: &Vec<ProbedPartition>,
) -> (r: Result<(), InstallError>)
    ensures
        !(table is Msdos) ==> r is Ok,
        table is Msdos ==> match selected {
            None => r matches Err(InstallError::NotFound),
            Some(s) => match kind_at(children@, s@) {
                None => r matches Err(InstallError::NotFound),
                Some(k) => if k == "primary"@ {
                    r is Ok
                } else {
                    r matches Err(InstallError::NonPrimaryPartition)
                },
            },
        },
        match mbr_error(*table, *selected, children@) {
            None => r is Ok,
            Some(e) => r == Err::<(), InstallError>(e),
        },
{
    match table {
        PartitionTable::Msdos => {},
        _ => {
            return Ok(());
        },
    }
    let sel = match selected {
        Some(s) => s,
        None => {
            return Err(InstallError::NotFound);
        },
    };
    let mut i: usize = 0;
    assert(children@.subrange(0, children@.len() as int) =~= children@);
    while i < children.len()
        invariant
            i <= children@.len(),
            table is Msdos,
            selected is Some && selected->0 == *sel,
            kind_at(children@, sel@) == kind_at(
                children@.subrange(i as int, children@.len() as int),
                sel@,
            ),
        decreases children@.len() - i,
    {
        let c = &children[i];
        let ghost rest = children@.subrange(i as int, children@.len() as int);
        assert(rest[0] == children@[i as int]);
        let here = match &c.path {
            Some(p) => text_eq(p.as_str(), sel.as_str()),
            None => false,
        };
        if here {
            if text_eq(c.kind.as_str(), "primary") {
                return Ok(());
            } else {
                return Err(InstallError::NonPrimaryPartition);
            }
        }
        assert(rest.drop_first() =~= children@.subrange(i as int + 1, children@.len() as int));
        i = i + 1;
    }
    Err(InstallError::NotFound)
}

} // verus!
