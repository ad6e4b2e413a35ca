use ekaos_install::error::{DiskError, InstallerError};
use ekaos_install::nixos::disk::{classify_disk_type, detect_disks_from, disks_from_devices, mock_disks, BlockDevice};
use ekaos_install::nixos::{Disk, DiskType};

fn sample_disk() -> Disk {
    Disk {
        name: "sda".to_string(),
        path: "/dev/sda".to_string(),
        size: 500_000_000_000,
        size_human: "500 GB".to_string(),
        disk_type: DiskType::Disk,
        model: None,
        removable: false,
        readonly: false,
        mountpoint: None,
        partitions: Vec::new(),
    }
}

fn device(name: &str, kind: &str, size: u64, children: Option<Vec<BlockDevice>>) -> BlockDevice {
    BlockDevice {
        name: name.to_string(),
        device_type: kind.to_string(),
        size,
        size_human: format!("{} B", size),
        model: None,
        removable: false,
        readonly: false,
        mountpoint: None,
        fstype: None,
        label: None,
        children,
    }
}

#[test]
fn test_disk_type_display() {
    assert_eq!(DiskType::Disk.as_str(), "HDD");
    assert_eq!(DiskType::Ssd.as_str(), "SSD");
    assert_eq!(DiskType::Nvme.as_str(), "NVMe");
}

#[test]
fn test_disk_type_installable() {
    assert!(DiskType::Disk.is_installable());
    assert!(DiskType::Ssd.is_installable());
    assert!(DiskType::Nvme.is_installable());
    assert!(!DiskType::Loop.is_installable());
    assert!(!DiskType::Rom.is_installable());
}

#[test]
fn test_disk_is_installable() {
    let disk = sample_disk();
    assert!(disk.is_installable());

    let small_disk = Disk { size: 4_000_000_000, ..disk.clone() };
    assert!(!small_disk.is_installable());

    let readonly_disk = Disk { readonly: true, ..disk.clone() };
    assert!(!readonly_disk.is_installable());

    let removable_disk = Disk { removable: true, ..disk.clone() };
    assert!(!removable_disk.is_installable());
}

#[test]
fn test_classify_disk_type() {
    assert_eq!(classify_disk_type("nvme0n1"), DiskType::Nvme);
    assert_eq!(classify_disk_type("sda"), DiskType::Disk);
    assert_eq!(classify_disk_type("vda"), DiskType::Disk);
    assert_eq!(classify_disk_type("loop0"), DiskType::Loop);
    assert_eq!(classify_disk_type("sr0"), DiskType::Rom);
}

#[test]
fn disk_test_mock_detection() {
    let disks = detect_disks_from(true, Err("not used".to_string())).unwrap();
    assert_eq!(disks.len(), 2);
    assert_eq!(disks[0].name, "sda");
    assert_eq!(disks[1].name, "nvme0n1");
}

#[test]
fn disk_test_real_detection() {
    let listing = vec![
        device("sda", "disk", 256_000_000_000, Some(vec![device("sda1", "part", 512_000_000, None)])),
        device("zram0", "disk", 8_000_000_000, None),
        device("ram0", "disk", 8_000_000, None),
        device("sr0", "rom", 1_000_000, None),
    ];
    let disks = detect_disks_from(false, Ok(listing)).unwrap();
    for disk in &disks {
        assert!(!disk.name.starts_with("zram"), "zram device should be filtered out: {}", disk.name);
        assert!(!disk.name.starts_with("ram"), "ram device should be filtered out: {}", disk.name);
    }
    assert_eq!(disks.len(), 1);
    assert_eq!(disks[0].path, "/dev/sda");
    assert_eq!(disks[0].partitions.len(), 1);
    assert_eq!(disks[0].partitions[0].name, "sda1");
}

#[test]
fn test_disk_display_name() {
    let disk = Disk { model: Some("Samsung SSD".to_string()), ..sample_disk() };
    assert!(disk.display_name().contains("sda"));
    assert!(disk.display_name().contains("Samsung SSD"));
    assert!(disk.display_name().contains("500 GB"));
    assert_eq!(disk.display_name(), "sda (Samsung SSD) - 500 GB");
    assert_eq!(sample_disk().display_name(), "sda - 500 GB");
}

#[test]
fn failed_listing_is_a_detection_error() {
    let r = detect_disks_from(false, Err("lsblk missing".to_string()));
    match r {
        Err(InstallerError::Disk(DiskError::DetectionFailed(m))) => assert_eq!(m, "lsblk missing"),
        _ => panic!("expected a detection error"),
    }
}

#[test]
fn listed_disks_keep_partitions_only() {
    let listing = vec![device(
        "nvme0n1",
        "disk",
        1_000_000_000_000,
        Some(vec![device("nvme0n1p1", "part", 1, None), device("crypt", "crypt", 2, None)]),
    )];
    let disks = disks_from_devices(&listing);
    assert_eq!(disks.len(), 1);
    assert_eq!(disks[0].disk_type, DiskType::Nvme);
    assert_eq!(disks[0].partitions.len(), 1);
}

#[test]
fn mock_disks_are_installable() {
    let disks = mock_disks();
    assert!(disks.iter().all(|d| d.is_installable()));
    assert_eq!(disks[0].partitions.len(), 2);
}
