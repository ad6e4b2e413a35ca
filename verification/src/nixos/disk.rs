//! Disks: their kinds, which of them can take an installation, and how a
//! block-device listing becomes the list of disks offered to the user.

use vstd::prelude::*;
use vstd::string::*;
use crate::error::{DiskError, InstallerError};
use crate::text::{begins_with, chars_of, starts_with_chars, string_of};

verus! {

/// Kind of disk.
#[derive(Debug, Clone, Copy, PartialEq, Eq, Structural)]
pub enum DiskType {
    /// Hard disk (also used for SATA, virtio and IDE devices)
    Disk,
    /// Solid state drive
    Ssd,
    /// NVMe drive
    Nvme,
    /// Loop device
    Loop,
    /// Optical drive
    Rom,
    /// Anything else
    Unknown,
}

impl Default for DiskType {
    fn default() -> (t: Self)
        ensures
            t == DiskType::Unknown,
    {
        DiskType::Unknown
    }
}

/// Display name of a disk kind.
pub open spec fn disk_type_name(t: DiskType) -> Seq<char> {
    match t {
        DiskType::Disk => "HDD"@,
        DiskType::Ssd => "SSD"@,
        DiskType::Nvme => "NVMe"@,
        DiskType::Loop => "Loop"@,
        DiskType::Rom => "ROM"@,
        DiskType::Unknown => "Unknown"@,
    }
}

/// Physical disks (hard disks, SSDs, NVMe drives) can take an installation.
pub open spec fn type_installable(t: DiskType) -> bool {
    t == DiskType::Disk || t == DiskType::Ssd || t == DiskType::Nvme
}

impl DiskType {
    /// Display name.
    pub fn as_str(&self) -> (r: &'static str)
        ensures
            r@ == disk_type_name(*self),
    {
        match self {
            DiskType::Disk => "HDD",
            DiskType::Ssd => "SSD",
            DiskType::Nvme => "NVMe",
            DiskType::Loop => "Loop",
            DiskType::Rom => "ROM",
            DiskType::Unknown => "Unknown",
        }
    }

    /// Whether a disk of this kind can take an installation.
    pub fn is_installable(&self) -> (r: bool)
        ensures
            r == type_installable(*self),
    {
        match self {
            DiskType::Disk | DiskType::Ssd | DiskType::Nvme => true,
            _ => false,
        }
    }
}

/// A partition on a disk.
#[derive(Debug, Clone)]
pub struct PartitionInfo {
    /// Partition name, such as `sda1`
    pub name: String,
    /// Size in bytes
    pub size: u64,
    /// Size for display
    pub size_human: String,
    /// File system type
    pub fstype: Option<String>,
    /// Mount point, if mounted
    pub mountpoint: Option<String>,
    /// Label, if any
    pub label: Option<String>,
}

/// A disk.
#[derive(Debug, Clone)]
pub struct Disk {
    /// Device name, such as `sda`
    pub name: String,
    /// Device path, such as `/dev/sda`
    pub path: String,
    /// Size in bytes
    pub size: u64,
    /// Size for display
    pub size_human: String,
    /// Kind of disk
    pub disk_type: DiskType,
    /// Model name
    pub model: Option<String>,
    /// Whether the disk is removable
    pub removable: bool,
    /// Whether the disk is read-only
    pub readonly: bool,
    /// Mount point, if mounted
    pub mountpoint: Option<String>,
    /// Existing partitions
    pub partitions: Vec<PartitionInfo>,
}

/// Smallest disk that can take an installation: 8 GB.
pub const MIN_INSTALL_BYTES: u64 = 8_000_000_000;

/// A disk can take an installation when it is writable, fixed, not mounted,
/// physical and at least 8 GB.
pub open spec fn disk_installable(d: Disk) -> bool {
    &&& !d.readonly
    &&& !d.removable
    &&& d.mountpoint.is_none()
    &&& type_installable(d.disk_type)
    &&& d.size >= 8_000_000_000
}

/// How a disk is named to the user: name, model in brackets when known, size.
pub open spec fn disk_display_name(d: Disk) -> Seq<char> {
    match d.model {
        Some(m) => d.name@ + " ("@ + m@ + ") - "@ + d.size_human@,
        None => d.name@ + " - "@ + d.size_human@,
    }
}

impl Disk {
    /// Whether the disk can take an installation.
    pub fn is_installable(&self) -> (r: bool)
        ensures
            r == disk_installable(*self),
            self.mountpoint is Some ==> !r,
            self.readonly ==> !r,
            self.removable ==> !r,
            self.size < 8_000_000_000 ==> !r,
    {
        !self.readonly && !self.removable && self.mountpoint.is_none() && self.disk_type.is_installable()
            && self.size >= MIN_INSTALL_BYTES
    }

    /// How the disk is named to the user.
    pub fn display_name(&self) -> (r: String)
        ensures
            r@ == disk_display_name(*self),
    {
        match &self.model {
            Some(m) => String::from_str(self.name.as_str()).concat(" (").concat(m.as_str()).concat(") - ").concat(
                self.size_human.as_str(),
            ),
            None => String::from_str(self.name.as_str()).concat(" - ").concat(self.size_human.as_str()),
        }
    }
}

/// Kind of disk told by its device name: `nvme…` is NVMe; `sd…`, `vd…` and
/// `hd…` are disks; `loop…` is a loop device; `sr…` is an optical drive.
pub open spec fn classify(name: Seq<char>) -> DiskType {
    if begins_with(name, "nvme"@) {
        DiskType::Nvme
    } else if begins_with(name, "sd"@) || begins_with(name, "vd"@) || begins_with(name, "hd"@) {
        DiskType::Disk
    } else if begins_with(name, "loop"@) {
        DiskType::Loop
    } else if begins_with(name, "sr"@) {
        DiskType::Rom
    } else {
        DiskType::Unknown
    }
}

/// Whether `name` begins with the literal `prefix`.
fn name_starts_with(name: &Vec<char>, prefix: &str) -> (r: bool)
    ensures
        r == begins_with(name@, prefix@),
{
    let p = chars_of(prefix);
    starts_with_chars(name, &p)
}

/// Kind of disk told by its device name.
pub fn classify_disk_type(name: &str) -> (t: DiskType)
    ensures
        t == classify(name@),
{
    let n = chars_of(name);
    if name_starts_with(&n, "nvme") {
        DiskType::Nvme
    } else if name_starts_with(&n, "sd") || name_starts_with(&n, "vd") || name_starts_with(&n, "hd") {
        DiskType::Disk
    } else if name_starts_with(&n, "loop") {
        DiskType::Loop
    } else if name_starts_with(&n, "sr") {
        DiskType::Rom
    } else {
        DiskType::Unknown
    }
}


/// One entry of a block-device listing (as `lsblk` gives it), with its size
/// already written for display.
#[derive(Debug)]
pub struct BlockDevice {
    /// Device name
    pub name: String,
    /// Device kind, such as `disk` or `part`
    pub device_type: String,
    /// Size in bytes
    pub size: u64,
    /// Size for display
    pub size_human: String,
    /// Model name
    pub model: Option<String>,
    /// Whether the device is removable
    pub removable: bool,
    /// Whether the device is read-only
    pub readonly: bool,
    /// Mount point, if mounted
    pub mountpoint: Option<String>,
    /// File system type
    pub fstype: Option<String>,
    /// Label
    pub label: Option<String>,
    /// Devices inside this one, such as its partitions
    pub children: Option<Vec<BlockDevice>>,
}

/// A listed device is offered as a disk when it is of kind `disk` and is
/// not a compressed-RAM (`zram…`) or RAM (`ram…`) device.
pub open spec fn offered(b: BlockDevice) -> bool {
    &&& b.device_type@ == "disk"@
    &&& !begins_with(b.name@, "zram"@)
    &&& !begins_with(b.name@, "ram"@)
}

/// The first `n` devices that are offered, in order.
pub open spec fn offered_prefix(devs: Seq<BlockDevice>, n: int) -> Seq<BlockDevice>
    decreases n,
{
    if n <= 0 {
        Seq::empty()
    } else if offered(devs[n - 1]) {
        offered_prefix(devs, n - 1).push(devs[n - 1])
    } else {
        offered_prefix(devs, n - 1)
    }
}

/// The first `n` children that are partitions, in order.
pub open spec fn partition_prefix(children: Seq<BlockDevice>, n: int) -> Seq<BlockDevice>
    decreases n,
{
    if n <= 0 {
        Seq::empty()
    } else if children[n - 1].device_type@ == "part"@ {
        partition_prefix(children, n - 1).push(children[n - 1])
    } else {
        partition_prefix(children, n - 1)
    }
}

/// The partitions among a device's children.
pub open spec fn partitions_of(b: BlockDevice) -> Seq<BlockDevice> {
    match b.children {
        Some(c) => partition_prefix(c@, c@.len() as int),
        None => Seq::empty(),
    }
}

/// `p` describes the partition device `c`.
pub open spec fn partition_from(p: PartitionInfo, c: BlockDevice) -> bool {
    &&& p.name == c.name
    &&& p.size == c.size
    &&& p.size_human == c.size_human
    &&& p.fstype == c.fstype
    &&& p.mountpoint == c.mountpoint
    &&& p.label == c.label
}

/// `d` describes the listed device `b`: same name and facts, path `/dev/`
/// followed by the name, kind told by the name, and its partitions in order.
pub open spec fn disk_from(d: Disk, b: BlockDevice) -> bool {
    &&& d.name == b.name
    &&& d.path@ == "/dev/"@ + b.name@
    &&& d.size == b.size
    &&& d.size_human == b.size_human
    &&& d.disk_type == classify(b.name@)
    &&& d.model == b.model
    &&& d.removable == b.removable
    &&& d.readonly == b.readonly
    &&& d.mountpoint == b.mountpoint
    &&& d.partitions@.len() == partitions_of(b).len()
    &&& forall|k: int| 0 <= k < d.partitions@.len() ==> partition_from(#[trigger] d.partitions@[k], partitions_of(b)[k])
}

/// A copy of an optional string.
fn copy_opt(o: &Option<String>) -> (r: Option<String>)
    ensures
        r == *o,
{
    match o {
        Some(s) => Some(s.clone()),
        None => None,
    }
}

/// The partitions among a device's children, described for display.
fn partitions_from(b: &BlockDevice) -> (r: Vec<PartitionInfo>)
    ensures
        r@.len() == partitions_of(*b).len(),
        forall|k: int| 0 <= k < r@.len() ==> partition_from(#[trigger] r@[k], partitions_of(*b)[k]),
{
    let mut r: Vec<PartitionInfo> = Vec::new();
    match &b.children {
        None => r,
        Some(children) => {
            let part = String::from_str("part");
            let mut i: usize = 0;
            while i < children.len()
                invariant
                    b.children == Some(*children),
                    part@ == "part"@,
                    i <= children@.len(),
                    r@.len() == partition_prefix(children@, i as int).len(),
                    forall|k: int| 0 <= k < r@.len() ==> partition_from(#[trigger] r@[k], partition_prefix(children@, i as int)[k]),
                decreases children@.len() - i,
            {
                let c = &children[i];
                if c.device_type == part {
                    r.push(PartitionInfo {
                        name: c.name.clone(),
                        size: c.size,
                        size_human: c.size_human.clone(),
                        fstype: copy_opt(&c.fstype),
                        mountpoint: copy_opt(&c.mountpoint),
                        label: copy_opt(&c.label),
                    });
                }
                i = i + 1;
            }
            r
        },
    }
}

/// Whether a listed device is offered as a disk.
pub fn is_offered(b: &BlockDevice) -> (r: bool)
    ensures
        r == offered(*b),
{
    let disk = String::from_str("disk");
    let n = chars_of(b.name.as_str());
    b.device_type == disk && !name_starts_with(&n, "zram") && !name_starts_with(&n, "ram")
}

/// The disks offered from a block-device listing: the devices of kind
/// `disk` that are not RAM devices, in order, each with its partitions.
pub fn disks_from_devices(devices: &Vec<BlockDevice>) -> (r: Vec<Disk>)
    ensures
        r@.len() == offered_prefix(devices@, devices@.len() as int).len(),
        forall|k: int| 0 <= k < r@.len() ==> disk_from(#[trigger] r@[k], offered_prefix(devices@, devices@.len() as int)[k]),
{
    let mut r: Vec<Disk> = Vec::new();
    let mut i: usize = 0;
    while i < devices.len()
        invariant
            i <= devices@.len(),
            r@.len() == offered_prefix(devices@, i as int).len(),
            forall|k: int| 0 <= k < r@.len() ==> disk_from(#[trigger] r@[k], offered_prefix(devices@, i as int)[k]),
        decreases devices@.len() - i,
    {
        let b = &devices[i];
        if is_offered(b) {
            let disk = Disk {
                name: b.name.clone(),
                path: String::from_str("/dev/").concat(b.name.as_str()),
                size: b.size,
                size_human: b.size_human.clone(),
                disk_type: classify_disk_type(b.name.as_str()),
                model: copy_opt(&b.model),
                removable: b.removable,
                readonly: b.readonly,
                mountpoint: copy_opt(&b.mountpoint),
                partitions: partitions_from(b),
            };
            r.push(disk);
        }
        i = i + 1;
    }
    r
}

/// The two simulated disks: a 500 GB SATA disk `sda` with an EFI and a
/// root partition, and an empty 1 TB NVMe disk `nvme0n1`.
pub open spec fn simulated_disks(r: Seq<Disk>) -> bool {
    &&& r.len() == 2
    &&& r[0].name@ == "sda"@
    &&& r[0].path@ == "/dev/sda"@
    &&& r[0].size == 500_000_000_000
    &&& r[0].disk_type == DiskType::Disk
    &&& r[0].partitions@.len() == 2
    &&& r[1].name@ == "nvme0n1"@
    &&& r[1].path@ == "/dev/nvme0n1"@
    &&& r[1].size == 1_000_000_000_000
    &&& r[1].disk_type == DiskType::Nvme
    &&& r[1].partitions@.len() == 0
    &&& r[0].size_human@ == "500.0 GB"@
    &&& r[0].model matches Some(m) && m@ == "Samsung SSD 860 EVO 500GB"@
    &&& !r[0].removable && !r[0].readonly && r[0].mountpoint is None
    &&& r[0].partitions@[0].name@ == "sda1"@
    &&& r[0].partitions@[0].size == 512_000_000
    &&& r[0].partitions@[0].size_human@ == "512.0 MB"@
    &&& r[0].partitions@[0].fstype matches Some(f) && f@ == "vfat"@
    &&& r[0].partitions@[0].mountpoint is None
    &&& r[0].partitions@[0].label matches Some(l) && l@ == "EFI"@
    &&& r[0].partitions@[1].name@ == "sda2"@
    &&& r[0].partitions@[1].size == 491_488_000_000
    &&& r[0].partitions@[1].size_human@ == "491.5 GB"@
    &&& r[0].partitions@[1].fstype matches Some(f) && f@ == "ext4"@
    &&& r[0].partitions@[1].mountpoint is None
    &&& r[0].partitions@[1].label matches Some(l) && l@ == "nixos"@
    &&& r[1].size_human@ == "1.0 TB"@
    &&& r[1].model matches Some(m) && m@ == "Samsung SSD 970 EVO Plus 1TB"@
    &&& !r[1].removable && !r[1].readonly && r[1].mountpoint is None
    &&& disk_installable(r[0])
    &&& disk_installable(r[1])
}

/// The two disks shown when the installer runs as a simulation.
pub fn mock_disks() -> (r: Vec<Disk>)
    ensures
        simulated_disks(r@),
{
    let mut sda_parts: Vec<PartitionInfo> = Vec::new();
    sda_parts.push(PartitionInfo {
        name: String::from_str("sda1"),
        size: 512_000_000,
        size_human: String::from_str("512.0 MB"),
        fstype: Some(String::from_str("vfat")),
        mountpoint: None,
        label: Some(String::from_str("EFI")),
    });
    sda_parts.push(PartitionInfo {
        name: String::from_str("sda2"),
        size: 491_488_000_000,
        size_human: String::from_str("491.5 GB"),
        fstype: Some(String::from_str("ext4")),
        mountpoint: None,
        label: Some(String::from_str("nixos")),
    });
    let mut r: Vec<Disk> = Vec::new();
    r.push(Disk {
        name: String::from_str("sda"),
        path: String::from_str("/dev/sda"),
        size: 500_000_000_000,
        size_human: String::from_str("500.0 GB"),
        disk_type: DiskType::Disk,
        model: Some(String::from_str("Samsung SSD 860 EVO 500GB")),
        removable: false,
        readonly: false,
        mountpoint: None,
        partitions: sda_parts,
    });
    r.push(Disk {
        name: String::from_str("nvme0n1"),
        path: String::from_str("/dev/nvme0n1"),
        size: 1_000_000_000_000,
        size_human: String::from_str("1.0 TB"),
        disk_type: DiskType::Nvme,
        model: Some(String::from_str("Samsung SSD 970 EVO Plus 1TB")),
        removable: false,
        readonly: false,
        mountpoint: None,
        partitions: Vec::new(),
    });
    r
}

/// The disks to offer: the simulated ones in mock mode, else those from the
/// block-device listing; a listing that could not be had gives a
/// detection error carrying its reason.
pub fn detect_disks_from(mock: bool, listing: Result<Vec<BlockDevice>, String>) -> (r: Result<Vec<Disk>, InstallerError>)
    ensures
        mock ==> (r matches Ok(d) && simulated_disks(d@)),
        !mock ==> match listing {
            Ok(devs) => r is Ok
                && r->Ok_0@.len() == offered_prefix(devs@, devs@.len() as int).len()
                && forall|k: int| 0 <= k < r->Ok_0@.len()
                    ==> disk_from(#[trigger] r->Ok_0@[k], offered_prefix(devs@, devs@.len() as int)[k]),
            Err(m) => r matches Err(InstallerError::Disk(DiskError::DetectionFailed(e))) && e == m,
        },
{
    if mock {
        return Ok(mock_disks());
    }
    match listing {
        Ok(devs) => Ok(disks_from_devices(&devs)),
        Err(m) => Err(InstallerError::Disk(DiskError::DetectionFailed(m))),
    }
}

/// A disk can take the installation exactly when it is not read-only, not
/// removable, not mounted, a hard disk, SSD or NVMe drive, and at least
/// 8 GB; in particular a mounted disk never can.
pub proof fn lemma_installable_disk(d: Disk)
    ensures
        disk_installable(d) <==> (!d.readonly && !d.removable && d.mountpoint is None
            && (d.disk_type == DiskType::Disk || d.disk_type == DiskType::Ssd || d.disk_type == DiskType::Nvme)
            && d.size >= 8_000_000_000),
        d.mountpoint is Some ==> !disk_installable(d),
{
}

} // verus!
