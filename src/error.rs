use vstd::prelude::*;

use crate::disks::{Firmware, PartitionTable};

verus! {

/// What went wrong in an installation step.
///
/// Each kind carries structured data only; turning it into text for the
/// operator is left to the presentation layer.
#[derive(Debug, Clone, PartialEq, Eq)]
pub enum InstallError {
    /// The target partition lacks a device path or a filesystem kind.
    IncompleteTarget,
    /// The partition to format has no device path.
    MissingTarget,
    /// An external tool exited unsuccessfully; what it wrote to stderr.
    ToolFailure { stderr: String },
    /// An expected partition, device or flag is absent.
    NotFound,
    /// The selected partition of an MBR disk is not a primary partition.
    NonPrimaryPartition,
    /// The partition table does not suit the way the machine boots.
    FirmwareTableMismatch { detected: PartitionTable, firmware: Firmware, required: PartitionTable },
    /// The swap size asked for is below what the machine needs.
    TooSmall { recommended_gib: u64 },
    /// The filesystem kind has no fstab entry form.
    UnsupportedFilesystem,
    /// The partition's persistent identifier could not be obtained.
    NoUuid,
    /// A native mount or unmount call failed.
    MountFailure,
    /// A native change-root call failed.
    ChrootFailure,
    /// The target partition is smaller than the release needs.
    InsufficientSpace { available: u64, required: u64 },
    /// The partition has no room for the swapfile beside the system.
    NoRoomForSwap,
    /// The timezone database lists no zone.
    EmptyZoneList,
    /// Reading or writing the file or directory `path` failed.
    FileFailure { path: String },
}

} // verus!
