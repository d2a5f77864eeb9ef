use aegis::drives::{DiskItem, DiskLabel};
use aegis::lsblk::{check_sectors, disk_from_lsblk, is_safe_device, partition_from_lsblk, usable_disks, BlockDevice, LsblkError};

fn dev(name: &str, ty: &str, size: u64) -> BlockDevice {
    BlockDevice {
        name: Some(name.to_string()),
        size: Some(size),
        dev_type: Some(ty.to_string()),
        mountpoint: None,
        fstype: None,
        label: None,
        start: None,
        log_sec: Some(512),
        pttype: None,
        children: None,
    }
}

fn part(name: &str, start: u64, bytes: u64, mount: Option<&str>) -> BlockDevice {
    BlockDevice {
        start: Some(start),
        mountpoint: mount.map(|m| m.to_string()),
        fstype: Some("ext4".to_string()),
        ..dev(name, "part", bytes)
    }
}

#[test]
fn live_system_devices_are_unsafe() {
    let mut sda = dev("sda", "disk", 1 << 30);
    assert!(is_safe_device(&sda));
    sda.children = Some(vec![part("sda1", 2048, 1 << 20, Some("/home"))]);
    assert!(is_safe_device(&sda));
    sda.children = Some(vec![part("sda1", 2048, 1 << 20, None), part("sda2", 4096, 1 << 20, Some("/"))]);
    assert!(!is_safe_device(&sda));
    let mut iso = dev("sr0", "rom", 1 << 20);
    iso.mountpoint = Some("/iso".to_string());
    assert!(!is_safe_device(&iso));
}

#[test]
fn partitions_are_read_in_sectors() {
    match partition_from_lsblk(&part("sda1", 2048, 1_048_576, Some("/boot")), 512, 7) {
        Ok(DiskItem::Partition(p)) => {
            assert_eq!(p.id(), 7);
            assert_eq!(p.start(), 2048);
            assert_eq!(p.size(), 2048);
            assert_eq!(p.sector_size(), 512);
            assert_eq!(p.name(), Some("sda1"));
            assert_eq!(p.fs_type(), Some("ext4"));
            assert_eq!(p.mount_point(), Some("/boot"));
        },
        _ => panic!("expected a partition"),
    }
    let mut no_start = part("x", 0, 10, None);
    no_start.start = None;
    assert_eq!(partition_from_lsblk(&no_start, 512, 1).err(), Some(LsblkError::MissingStart));
    let mut no_size = part("x", 0, 10, None);
    no_size.size = None;
    assert_eq!(partition_from_lsblk(&no_size, 512, 1).err(), Some(LsblkError::MissingPartitionSize));
    assert_eq!(LsblkError::MissingStart.message(), "Partition entry missing or invalid START");
}

#[test]
fn disks_are_read_with_their_partitions() {
    let mut sda = dev("sda", "disk", 10_737_418_240);
    sda.pttype = Some("gpt".to_string());
    sda.children = Some(vec![part("sda1", 2048, 536_870_912, None)]);
    let d = disk_from_lsblk(&sda).unwrap();
    assert_eq!(d.name(), "sda");
    assert_eq!(d.size(), 20_971_520);
    assert_eq!(d.sector_size(), 512);
    assert!(matches!(d.label(), DiskLabel::Gpt));
    assert_eq!(d.partitions().len(), 1);
    assert!(!d.free_spaces().is_empty());
    let mut no_name = dev("x", "disk", 1);
    no_name.name = None;
    assert_eq!(disk_from_lsblk(&no_name).err(), Some(LsblkError::MissingName));
    let mut no_size = dev("x", "disk", 1);
    no_size.size = None;
    assert_eq!(disk_from_lsblk(&no_size).err(), Some(LsblkError::MissingSize));
    let mut bad_part = dev("sdb", "disk", 1 << 30);
    let mut p = part("sdb1", 0, 10, None);
    p.start = None;
    bad_part.children = Some(vec![p]);
    assert_eq!(disk_from_lsblk(&bad_part).err(), Some(LsblkError::MissingStart));
    // no sector size given: 512 bytes
    let mut plain = dev("sdc", "disk", 1 << 30);
    plain.log_sec = None;
    plain.pttype = Some("dos".to_string());
    let d = disk_from_lsblk(&plain).unwrap();
    assert_eq!(d.sector_size(), 512);
    assert!(matches!(d.label(), DiskLabel::Msdos));
}

#[test]
fn only_safe_disks_are_offered() {
    let mut live = dev("sda", "disk", 1 << 30);
    live.children = Some(vec![part("sda1", 2048, 1 << 20, Some("/"))]);
    let free = dev("nvme0n1", "disk", 1 << 31);
    let rom = dev("sr0", "rom", 1 << 20);
    let disks = usable_disks(&vec![live, rom, free]).unwrap();
    assert_eq!(disks.len(), 1);
    assert_eq!(disks[0].name(), "nvme0n1");
}

#[test]
fn a_safe_device_without_type_is_an_error() {
    let mut untyped = dev("sdz", "disk", 1);
    untyped.dev_type = None;
    assert_eq!(usable_disks(&vec![dev("sda", "disk", 1 << 30), untyped]).err(), Some(LsblkError::MissingType));
    assert_eq!(LsblkError::MissingType.message(), "Device entry missing TYPE");
    // an unsafe device is left out before its type is looked at
    let mut hidden = dev("sdz", "disk", 1);
    hidden.dev_type = None;
    hidden.mountpoint = Some("/".to_string());
    assert_eq!(usable_disks(&vec![hidden]).unwrap().len(), 0);
}

#[test]
fn only_disks_read_need_a_sector_size() {
    let mut rom = dev("sr0", "rom", 1 << 20);
    rom.log_sec = Some(0);
    let mut live = dev("sdb", "disk", 1 << 30);
    live.log_sec = Some(0);
    live.mountpoint = Some("/".to_string());
    let devices = vec![rom, live, dev("sda", "disk", 1 << 30)];
    assert!(check_sectors(&devices));
    let disks = usable_disks(&devices).ok().unwrap();
    assert_eq!(disks.len(), 1);
    assert_eq!(disks[0].name(), "sda");
    let mut broken = dev("sdc", "disk", 1 << 30);
    broken.log_sec = Some(0);
    assert!(!check_sectors(&vec![dev("sda", "disk", 1 << 30), broken]));
    let unnamed = || BlockDevice { name: None, log_sec: Some(0), ..dev("sdd", "disk", 1 << 30) };
    assert!(check_sectors(&vec![unnamed()]));
    assert!(matches!(usable_disks(&vec![unnamed()]), Err(LsblkError::MissingName)));
}
