//! Disks as the sled agent sees them: device paths, partition layouts, and
//! the step from an observed ("unparsed") disk to one conforming to the
//! expected partition layout.

use vstd::prelude::*;

use crate::ids::generate_v4_id;
use vstd::string::StringExecFns;

verus! {

/// Information from the underlying hardware about updates which may
/// require action on behalf of the sled agent.  These are deliberately
/// non-opinionated: higher layers decide whether to act on them.
#[derive(Clone, Debug)]
pub enum HardwareUpdate {
    TofinoDeviceChange,
    TofinoLoaded,
    TofinoUnloaded,
    DiskAdded(UnparsedDisk),
    DiskRemoved(UnparsedDisk),
}

/// A partition (or "slice") of a disk.
#[derive(Clone, Copy, Debug, PartialEq, Eq, Structural, Hash)]
pub enum Partition {
    /// The partition may be used to boot an OS image.
    BootImage,
    /// Reserved for future use.
    Reserved,
    /// The partition may be used as a dump device.
    DumpDevice,
    /// The partition may contain a ZFS pool.
    ZfsPool,
}

/// Why a disk could not be brought to the expected layout.
#[derive(Debug)]
pub enum DiskError {
    IoError { path: String, message: String },
    Gpt { path: String, message: String },
    BadPartitionLayout { path: String, why: String },
    NotFound { path: String, partition: Partition },
    ZpoolCreate { message: String },
    CannotFormatMissingDevPath { path: String },
}

/// The kind of a disk.
#[derive(Clone, Copy, Debug, PartialEq, Eq, Structural, Hash)]
pub enum DiskVariant {
    U2,
    M2,
}

/// The name of a ZFS pool, carried as the stable identifier it embeds.
#[derive(Clone, Copy, Debug, PartialEq, Eq, Structural, Hash)]
pub struct ZpoolName {
    pub id: u128,
}

/// The letter-indexed suffix a partition index maps to (meaningful for
/// indices up to five).
pub open spec fn partition_suffix(i: int) -> Seq<char> {
    if i == 0 {
        ":a"@
    } else if i == 1 {
        ":b"@
    } else if i == 2 {
        ":c"@
    } else if i == 3 {
        ":d"@
    } else if i == 4 {
        ":e"@
    } else {
        ":f"@
    }
}

/// Where a disk lives: its full path under the devices tree (never ending
/// in a partition letter), and optionally its path under the dev tree.
#[derive(Debug, PartialEq, Eq, Hash)]
pub struct DiskPaths {
    pub devfs_path: String,
    pub dev_path: Option<String>,
}

impl DiskPaths {
    /// The "letter-indexed path" of one partition of the device: the
    /// devices-tree path with `:a` through `:f` appended, for indices zero
    /// through five; no path exists beyond the sixth slot.
    pub fn partition_path(&self, index: usize) -> (r: Option<String>)
        ensures
            index <= 5 ==> (r matches Some(p) && p@ == self.devfs_path@ + partition_suffix(
                index as int,
            )),
            index > 5 ==> r is None,
    {
        let suffix: &str = match index {
            0 => ":a",
            1 => ":b",
            2 => ":c",
            3 => ":d",
            4 => ":e",
            5 => ":f",
            _ => {
                return None;
            },
        };
        Some(self.devfs_path.clone().concat(suffix))
    }

    /// The path to the whole disk, raw or block-addressed.
    pub fn whole_disk(&self, raw: bool) -> (r: String)
        ensures
            raw ==> r@ == self.devfs_path@ + ":wd,raw"@,
            !raw ==> r@ == self.devfs_path@ + ":wd"@,
    {
        if raw {
            self.devfs_path.clone().concat(":wd,raw")
        } else {
            self.devfs_path.clone().concat(":wd")
        }
    }

    /// The path of the first partition of the expected kind, or a
    /// not-found error naming the device and the kind when no partition of
    /// that kind exists in the first six slots.
    pub fn partition_device_path(
        &self,
        partitions: &Vec<Partition>,
        expected_partition: Partition,
    ) -> (r: Result<String, DiskError>)
        ensures
            (r matches Ok(p) ==> exists|i: int|
                0 <= i <= 5 && i < partitions@.len() && partitions@[i] == expected_partition && (
                forall|j: int| 0 <= j < i ==> partitions@[j] != expected_partition) && p@
                    == self.devfs_path@ + partition_suffix(i)),
            (r matches Err(e) ==> (e matches DiskError::NotFound { path, partition } && path@
                == self.devfs_path@ && partition == expected_partition && !(exists|i: int|
                0 <= i <= 5 && i < partitions@.len() && partitions@[i] == expected_partition))),
    {
        let n = partitions.len();
        let mut index: usize = 0;
        while index < n
            invariant
                n == partitions@.len(),
                index <= n,
                forall|j: int| 0 <= j < index ==> partitions@[j] != expected_partition,
            decreases n - index,
        {
            if partitions[index] == expected_partition {
                match self.partition_path(index) {
                    Some(p) => {
                        return Ok(p);
                    },
                    None => {
                        return Err(
                            DiskError::NotFound {
                                path: self.devfs_path.clone(),
                                partition: expected_partition,
                            },
                        );
                    },
                }
            }
            index = index + 1;
        }
        Err(DiskError::NotFound { path: self.devfs_path.clone(), partition: expected_partition })
    }
}

impl Clone for DiskPaths {
    fn clone(&self) -> (r: Self)
        ensures
            r == *self,
    {
        DiskPaths {
            devfs_path: self.devfs_path.clone(),
            dev_path: match &self.dev_path {
                Some(p) => Some(p.clone()),
                None => None,
            },
        }
    }
}

/// A disk which has been observed by monitoring hardware.  No guarantees
/// are made about the partitions within it; it is distinct from [`Disk`]
/// because hardware may be monitored in one context and disks conformed to
/// partition layouts in another.
#[derive(Debug, Clone, PartialEq, Eq, Hash)]
pub struct UnparsedDisk {
    pub paths: DiskPaths,
    pub slot: i64,
    pub variant: DiskVariant,
    pub device_id: String,
}

impl UnparsedDisk {
    /// Records an observed disk.
    pub fn new(
        devfs_path: String,
        dev_path: Option<String>,
        slot: i64,
        variant: DiskVariant,
        device_id: String,
    ) -> (r: Self)
        ensures
            r.paths.devfs_path == devfs_path,
            r.paths.dev_path == dev_path,
            r.slot == slot,
            r.variant == variant,
            r.device_id == device_id,
    {
        UnparsedDisk { paths: DiskPaths { devfs_path, dev_path }, slot, variant, device_id }
    }

    /// The disk's path under the devices tree.
    pub fn devfs_path(&self) -> (r: &String)
        ensures
            r == self.paths.devfs_path,
    {
        &self.paths.devfs_path
    }
}

/// A physical disk conforming to the expected partition layout, with the
/// one ZFS pool it carries.
#[derive(Debug, Clone, PartialEq, Eq, Hash)]
pub struct Disk {
    pub paths: DiskPaths,
    pub slot: i64,
    pub variant: DiskVariant,
    pub device_id: String,
    pub partitions: Vec<Partition>,
    pub zpool_name: ZpoolName,
}

impl Disk {
    /// Conforms an observed disk whose partition layout has already been
    /// read: checks that one of the first six slots holds a ZFS pool
    /// partition, and assembles the disk around the pool's name.  Reading
    /// the layout and creating a missing pool are the storage layer's work
    /// and happen before this step.
    pub fn new(
        unparsed_disk: UnparsedDisk,
        partitions: Vec<Partition>,
        zpool_name: ZpoolName,
    ) -> (r: Result<Self, DiskError>)
        ensures
            (r matches Ok(d) ==> d.paths == unparsed_disk.paths && d.slot == unparsed_disk.slot
                && d.variant == unparsed_disk.variant && d.device_id == unparsed_disk.device_id
                && d.partitions == partitions && d.zpool_name == zpool_name && (exists|i: int|
                0 <= i <= 5 && i < partitions@.len() && partitions@[i] == Partition::ZfsPool)),
            (r matches Err(e) ==> (e matches DiskError::NotFound { path, partition } && path@
                == unparsed_disk.paths.devfs_path@ && partition == Partition::ZfsPool && !(
            exists|i: int|
                0 <= i <= 5 && i < partitions@.len() && partitions@[i] == Partition::ZfsPool))),
    {
        let paths = &unparsed_disk.paths;
        match paths.partition_device_path(&partitions, Partition::ZfsPool) {
            Err(e) => Err(e),
            Ok(_zpool_path) => Ok(
                Disk {
                    paths: unparsed_disk.paths,
                    slot: unparsed_disk.slot,
                    variant: unparsed_disk.variant,
                    device_id: unparsed_disk.device_id,
                    partitions,
                    zpool_name,
                },
            ),
        }
    }

    /// The disk's path under the devices tree.
    pub fn devfs_path(&self) -> (r: &String)
        ensures
            r == self.paths.devfs_path,
    {
        &self.paths.devfs_path
    }

    /// The name of the one ZFS pool on this disk.
    pub fn zpool_name(&self) -> (r: &ZpoolName)
        ensures
            r == self.zpool_name,
    {
        &self.zpool_name
    }
}

/// Picks the pool name a disk will use: the pool already found on it, or a
/// freshly named one that the storage layer must then create (the second
/// component says whether creation is required).
pub fn resolve_zpool(existing: Option<ZpoolName>) -> (r: (ZpoolName, bool))
    ensures
        (existing matches Some(z) ==> r == (z, false)),
        existing is None ==> r.1 == true && (r.0.id >> 76) & 0xf == 4 && (r.0.id >> 62) & 0x3
            == 2,
{
    match existing {
        Some(z) => (z, false),
        None => (ZpoolName { id: generate_v4_id() }, true),
    }
}

/// The kind of a physical disk, as the control plane records it.
#[derive(Clone, Copy, Debug, PartialEq, Eq, Structural)]
pub enum PhysicalDiskKind {
    U2,
    M2,
}

/// A physical disk attached to a sled, as the control plane's inventory
/// records it: a freshly assigned stable identifier, soft-delete state, a
/// child-collection generation, and the disk's observed identity.
#[derive(Debug)]
pub struct PhysicalDisk {
    pub id: u128,
    pub time_deleted: Option<i64>,
    pub rcgen: u64,
    pub vendor: String,
    pub serial: String,
    pub model: String,
    pub variant: PhysicalDiskKind,
    pub sled_id: u128,
    pub total_size: i64,
}

impl PhysicalDisk {
    /// Records a newly observed physical disk: not deleted, at the first
    /// generation, under a freshly generated identifier.
    pub fn new(
        vendor: String,
        serial: String,
        model: String,
        variant: PhysicalDiskKind,
        sled_id: u128,
        total_size: i64,
    ) -> (r: Self)
        ensures
            (r.id >> 76) & 0xf == 4,
            (r.id >> 62) & 0x3 == 2,
            r.time_deleted is None,
            r.rcgen == 1,
            r.vendor == vendor,
            r.serial == serial,
            r.model == model,
            r.variant == variant,
            r.sled_id == sled_id,
            r.total_size == total_size,
    {
        PhysicalDisk {
            id: generate_v4_id(),
            time_deleted: None,
            rcgen: 1,
            vendor,
            serial,
            model,
            variant,
            sled_id,
            total_size,
        }
    }
}

} // verus!
