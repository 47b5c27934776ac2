//! Block drives: their kind, icon and display name, and mounted partitions.

use vstd::prelude::*;
use vstd::string::*;
use std::collections::HashMap;
use crate::text::{chars_of, contains_chars, occurs_in, starts_with};
use crate::apps::last_segment;
use crate::sensor::Sensor;

verus! {

#[derive(Debug, Clone, Copy, Default, PartialEq, Eq, Hash, Structural)]
pub enum DriveType {
    CdDvdBluray,
    Emmc,
    Flash,
    Floppy,
    Hdd,
    LoopDevice,
    MappedDevice,
    Nvme,
    Raid,
    RamDisk,
    Ssd,
    ZfsVolume,
    Zram,
    #[default]
    Unknown,
}

/// A block drive as found under the block-device directory of sysfs.
#[derive(Debug, Clone, Default)]
pub struct Drive {
    pub model: Option<String>,
    pub drive_type: DriveType,
    pub block_device: String,
    pub sysfs_path: String,
}

/// What was read about a drive in one sampling pass.
#[derive(Debug)]
pub struct DriveData {
    pub inner: Drive,
    pub is_virtual: bool,
    pub writable: Result<bool, anyhow::Error>,
    pub removable: Result<bool, anyhow::Error>,
    pub disk_stats: HashMap<String, usize>,
    pub capacity: Result<u64, anyhow::Error>,
}

/// The kind of a drive: by the prefix of its block-device name, else by
/// whether it rotates and whether it is removable. `None` stands for a
/// value that could not be read.
pub open spec fn drive_type_of(block_device: Seq<char>, rotational: Option<bool>, removable: Option<bool>) -> DriveType {
    if "nvme"@.is_prefix_of(block_device) {
        DriveType::Nvme
    } else if "mmc"@.is_prefix_of(block_device) {
        DriveType::Emmc
    } else if "fd"@.is_prefix_of(block_device) {
        DriveType::Floppy
    } else if "sr"@.is_prefix_of(block_device) {
        DriveType::CdDvdBluray
    } else if "zram"@.is_prefix_of(block_device) {
        DriveType::Zram
    } else if "md"@.is_prefix_of(block_device) {
        DriveType::Raid
    } else if "loop"@.is_prefix_of(block_device) {
        DriveType::LoopDevice
    } else if "dm"@.is_prefix_of(block_device) {
        DriveType::MappedDevice
    } else if "ram"@.is_prefix_of(block_device) {
        DriveType::RamDisk
    } else if "zd"@.is_prefix_of(block_device) {
        DriveType::ZfsVolume
    } else {
        match rotational {
            None => DriveType::Unknown,
            Some(true) => DriveType::Hdd,
            Some(false) => match removable {
                None => DriveType::Unknown,
                Some(true) => DriveType::Flash,
                Some(false) => DriveType::Ssd,
            },
        }
    }
}

/// Kinds that are virtual whatever their size.
pub open spec fn virtual_kind(t: DriveType) -> bool {
    t == DriveType::LoopDevice || t == DriveType::MappedDevice || t == DriveType::Raid || t
        == DriveType::RamDisk || t == DriveType::ZfsVolume || t == DriveType::Zram
}

pub open spec fn icon_of(t: DriveType) -> Seq<char> {
    match t {
        DriveType::CdDvdBluray => "cd-dvd-bluray-symbolic"@,
        DriveType::Emmc => "emmc-symbolic"@,
        DriveType::Flash => "flash-storage-symbolic"@,
        DriveType::Floppy => "floppy-symbolic"@,
        DriveType::Hdd => "hdd-symbolic"@,
        DriveType::LoopDevice => "loop-device-symbolic"@,
        DriveType::MappedDevice => "mapped-device-symbolic"@,
        DriveType::Nvme => "nvme-symbolic"@,
        DriveType::Raid => "raid-symbolic"@,
        DriveType::RamDisk => "ram-disk-symbolic"@,
        DriveType::Ssd => "ssd-symbolic"@,
        DriveType::ZfsVolume => "zfs-symbolic"@,
        DriveType::Zram => "zram-symbolic"@,
        DriveType::Unknown => "unknown-drive-type-symbolic"@,
    }
}

/// A drive's display name given its capacity already formatted.
pub open spec fn display_name_of(t: DriveType, capacity: Seq<char>) -> Seq<char> {
    match t {
        DriveType::CdDvdBluray => "CD/DVD/Blu-ray Drive"@,
        DriveType::Floppy => "Floppy Drive"@,
        DriveType::LoopDevice => capacity + " Loop Device"@,
        DriveType::MappedDevice => capacity + " Mapped Device"@,
        DriveType::Raid => capacity + " RAID"@,
        DriveType::RamDisk => capacity + " RAM Disk"@,
        DriveType::Zram => capacity + " zram Device"@,
        DriveType::ZfsVolume => capacity + " ZFS Volume"@,
        _ => capacity + " Drive"@,
    }
}

pub open spec fn drive_type_name(t: DriveType) -> Seq<char> {
    match t {
        DriveType::CdDvdBluray => "CD/DVD/Blu-ray Drive"@,
        DriveType::Emmc => "eMMC Storage"@,
        DriveType::Flash => "Flash Storage"@,
        DriveType::Floppy => "Floppy Drive"@,
        DriveType::Hdd => "Hard Disk Drive"@,
        DriveType::LoopDevice => "Loop Device"@,
        DriveType::MappedDevice => "Mapped Device"@,
        DriveType::Nvme => "NVMe Drive"@,
        DriveType::Unknown => "N/A"@,
        DriveType::Raid => "Software Raid"@,
        DriveType::RamDisk => "RAM Disk"@,
        DriveType::Ssd => "Solid State Drive"@,
        DriveType::ZfsVolume => "ZFS Volume"@,
        DriveType::Zram => "Compressed RAM Disk (zram)"@,
    }
}

impl DriveType {
    /// The text shown for the kind.
    pub fn name(&self) -> (r: &'static str)
        ensures
            r@ == drive_type_name(*self),
    {
        match self {
            DriveType::CdDvdBluray => "CD/DVD/Blu-ray Drive",
            DriveType::Emmc => "eMMC Storage",
            DriveType::Flash => "Flash Storage",
            DriveType::Floppy => "Floppy Drive",
            DriveType::Hdd => "Hard Disk Drive",
            DriveType::LoopDevice => "Loop Device",
            DriveType::MappedDevice => "Mapped Device",
            DriveType::Nvme => "NVMe Drive",
            DriveType::Unknown => "N/A",
            DriveType::Raid => "Software Raid",
            DriveType::RamDisk => "RAM Disk",
            DriveType::Ssd => "Solid State Drive",
            DriveType::ZfsVolume => "ZFS Volume",
            DriveType::Zram => "Compressed RAM Disk (zram)",
        }
    }
}

/// Classifies a drive; see `drive_type_of`.
pub fn classify_drive(block_device: &str, rotational: Option<bool>, removable: Option<bool>) -> (r: DriveType)
    ensures
        r == drive_type_of(block_device@, rotational, removable),
{
    let name = chars_of(block_device);
    if starts_with(&name, "nvme") {
        DriveType::Nvme
    } else if starts_with(&name, "mmc") {
        DriveType::Emmc
    } else if starts_with(&name, "fd") {
        DriveType::Floppy
    } else if starts_with(&name, "sr") {
        DriveType::CdDvdBluray
    } else if starts_with(&name, "zram") {
        DriveType::Zram
    } else if starts_with(&name, "md") {
        DriveType::Raid
    } else if starts_with(&name, "loop") {
        DriveType::LoopDevice
    } else if starts_with(&name, "dm") {
        DriveType::MappedDevice
    } else if starts_with(&name, "ram") {
        DriveType::RamDisk
    } else if starts_with(&name, "zd") {
        DriveType::ZfsVolume
    } else {
        match rotational {
            None => DriveType::Unknown,
            Some(true) => DriveType::Hdd,
            Some(false) => match removable {
                None => DriveType::Unknown,
                Some(true) => DriveType::Flash,
                Some(false) => DriveType::Ssd,
            },
        }
    }
}

impl Drive {
    /// The name shown for the drive, given its capacity already formatted.
    pub fn display_name(&self, capacity_formatted: &str) -> (r: String)
        ensures
            r@ == display_name_of(self.drive_type, capacity_formatted@),
    {
        match self.drive_type {
            DriveType::CdDvdBluray => "CD/DVD/Blu-ray Drive".to_owned(),
            DriveType::Floppy => "Floppy Drive".to_owned(),
            DriveType::LoopDevice => capacity_formatted.to_owned().concat(" Loop Device"),
            DriveType::MappedDevice => capacity_formatted.to_owned().concat(" Mapped Device"),
            DriveType::Raid => capacity_formatted.to_owned().concat(" RAID"),
            DriveType::RamDisk => capacity_formatted.to_owned().concat(" RAM Disk"),
            DriveType::Zram => capacity_formatted.to_owned().concat(" zram Device"),
            DriveType::ZfsVolume => capacity_formatted.to_owned().concat(" ZFS Volume"),
            _ => capacity_formatted.to_owned().concat(" Drive"),
        }
    }

    /// The icon name for the drive's kind.
    pub fn icon(&self) -> (r: String)
        ensures
            r@ == icon_of(self.drive_type),
    {
        match self.drive_type {
            DriveType::CdDvdBluray => "cd-dvd-bluray-symbolic".to_owned(),
            DriveType::Emmc => "emmc-symbolic".to_owned(),
            DriveType::Flash => "flash-storage-symbolic".to_owned(),
            DriveType::Floppy => "floppy-symbolic".to_owned(),
            DriveType::Hdd => "hdd-symbolic".to_owned(),
            DriveType::LoopDevice => "loop-device-symbolic".to_owned(),
            DriveType::MappedDevice => "mapped-device-symbolic".to_owned(),
            DriveType::Nvme => "nvme-symbolic".to_owned(),
            DriveType::Raid => "raid-symbolic".to_owned(),
            DriveType::RamDisk => "ram-disk-symbolic".to_owned(),
            DriveType::Ssd => "ssd-symbolic".to_owned(),
            DriveType::ZfsVolume => "zfs-symbolic".to_owned(),
            DriveType::Zram => "zram-symbolic".to_owned(),
            DriveType::Unknown => Self::default_icon(),
        }
    }

    /// Whether the drive is virtual: by its kind, or because its capacity
    /// is zero or could not be read (`None`).
    pub fn is_virtual(&self, capacity: Option<u64>) -> (r: bool)
        ensures
            r == (virtual_kind(self.drive_type) || match capacity {
                Some(c) => c == 0,
                None => true,
            }),
    {
        match self.drive_type {
            DriveType::LoopDevice | DriveType::MappedDevice | DriveType::Raid | DriveType::RamDisk
            | DriveType::ZfsVolume | DriveType::Zram => true,
            _ => match capacity {
                Some(c) => c == 0,
                None => true,
            },
        }
    }

    pub fn default_icon() -> (r: String)
        ensures
            r@ == "unknown-drive-type-symbolic"@,
    {
        "unknown-drive-type-symbolic".to_owned()
    }
}

#[derive(Debug, Clone)]
pub struct Partition {
    pub total_bytes: u64,
    pub free_bytes: u64,
    pub mount_point: String,
    pub fs_type: String,
    pub device: String,
}

impl Partition {
    /// Whether `key` occurs in the partition's device name.
    pub fn contains(&self, key: &str) -> (r: bool)
        ensures
            r == occurs_in(key@, self.device@),
    {
        let dev = chars_of(self.device.as_str());
        let k = chars_of(key);
        contains_chars(&dev, &k)
    }

    pub fn used_bytes(&self) -> (r: u64)
        requires
            self.free_bytes <= self.total_bytes,
        ensures
            r == self.total_bytes - self.free_bytes,
    {
        self.total_bytes - self.free_bytes
    }
}

/// A drive's sampled data and the partitions that belong to it.
#[derive(Debug)]
pub struct ResDriveRsp {
    pub data: DriveData,
    partitions: Option<Vec<Partition>>,
}

impl ResDriveRsp {
    pub closed spec fn spec_data(&self) -> DriveData {
        self.data
    }

    pub closed spec fn spec_partitions(&self) -> Option<Seq<Partition>> {
        match self.partitions {
            Some(v) => Some(v@),
            None => None,
        }
    }

    pub fn new(data: DriveData, partitions: Option<Vec<Partition>>) -> (r: Self)
        ensures
            r.spec_data() == data,
            r.spec_partitions() == match partitions {
                Some(v) => Some(v@),
                None => None,
            },
    {
        ResDriveRsp { data, partitions }
    }

    pub fn partitions(&self) -> (r: &Option<Vec<Partition>>)
        ensures
            match r {
                Some(v) => self.spec_partitions() == Some(v@),
                None => self.spec_partitions() is None,
            },
    {
        &self.partitions
    }
}

/// The partitions whose device name contains `block_device`, in order.
pub fn update_partition(partitions: &Vec<Partition>, block_device: &str) -> (r: Vec<Partition>)
    ensures
        r@ == partitions@.filter(|p: Partition| occurs_in(block_device@, p.device@)),
{
    let mut out: Vec<Partition> = Vec::new();
    let mut i: usize = 0;
    while i < partitions.len()
        invariant
            i <= partitions.len(),
            out@ == partitions@.take(i as int).filter(|p: Partition| occurs_in(block_device@, p.device@)),
        decreases partitions.len() - i,
    {
        proof {
            reveal(Seq::filter);
            assert(partitions@.take(i + 1).drop_last() =~= partitions@.take(i as int));
        }
        if partitions[i].contains(block_device) {
            let p = Partition {
                total_bytes: partitions[i].total_bytes,
                free_bytes: partitions[i].free_bytes,
                mount_point: partitions[i].mount_point.clone(),
                fs_type: partitions[i].fs_type.clone(),
                device: partitions[i].device.clone(),
            };
            assert(p == partitions@[i as int]);
            out.push(p);
        }
        i = i + 1;
    }
    assert(partitions@.take(i as int) =~= partitions@);
    out
}

impl Sensor for Drive {
    open spec fn type_name_view(&self) -> Seq<char> {
        "Drive"@
    }

    open spec fn id_view(&self) -> Seq<char> {
        self.sysfs_path@
    }

    open spec fn name_view(&self) -> Seq<char> {
        last_segment(self.sysfs_path@)
    }

    fn get_type_name(&self) -> (r: &'static str) {
        "Drive"
    }

    fn get_id(&self) -> (r: String) {
        self.sysfs_path.clone()
    }

    fn get_name(&self) -> (r: String) {
        crate::apps::file_name(self.sysfs_path.as_str())
    }
}

} // verus!
