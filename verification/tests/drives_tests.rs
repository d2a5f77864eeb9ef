use aegis::drives::{
    bytes_disko_cfg, bytes_readable, bytes_readable_floor, get_entry_id, mb_to_sectors, one_mib_in_sectors,
    parse_sectors, BuildError, Disk, DiskError, DiskItem, DiskLabel, DiskTableHeader, PartStatus, Partition,
    PartitionBuilder, PartitionEdit,
};

fn part(id: u64, start: u64, size: u64, status: PartStatus, name: Option<&str>, fs: Option<&str>) -> Partition {
    Partition::new(
        id,
        start,
        size,
        512,
        status,
        name.map(|s| s.to_string()),
        fs.map(|s| s.to_string()),
        None,
        None,
        false,
        vec![],
    )
}

fn sample_disk() -> Disk {
    let layout = vec![DiskItem::Partition(part(1, 2048, 1_000_000, PartStatus::Exists, Some("sda1"), Some("ext4")))];
    Disk::new("sda".to_string(), 10_000_000, 512, layout, DiskLabel::Gpt)
}

#[test]
fn readable_sizes_match_two_decimal_formatting() {
    for &b in &[0u64, 1, 1023, 1024, 1536, 1_048_576, 5_000_000, 1_073_741_824, 3_221_225_472, 1_099_511_627_776, 123_456_789_012] {
        let expected = if b >= 1 << 40 {
            format!("{:.2} TiB", b as f64 / (1u64 << 40) as f64)
        } else if b >= 1 << 30 {
            format!("{:.2} GiB", b as f64 / (1u64 << 30) as f64)
        } else if b >= 1 << 20 {
            format!("{:.2} MiB", b as f64 / (1u64 << 20) as f64)
        } else if b >= 1 << 10 {
            format!("{:.2} KiB", b as f64 / (1u64 << 10) as f64)
        } else {
            b.to_string()
        };
        assert_eq!(bytes_readable(b), expected, "bytes {b}");
    }
}

#[test]
fn readable_size_exact_values() {
    assert_eq!(bytes_readable(512), "512");
    assert_eq!(bytes_readable(1536), "1.50 KiB");
    assert_eq!(bytes_readable(1 << 30), "1.00 GiB");
}

#[test]
fn readable_floor_sizes() {
    assert_eq!(bytes_readable_floor(0), "0 B");
    assert_eq!(bytes_readable_floor(1023), "1023 B");
    assert_eq!(bytes_readable_floor(1024), "1 KiB");
    assert_eq!(bytes_readable_floor(2047), "1.99 KiB");
    assert_eq!(bytes_readable_floor(1_610_612_736), "1.50 GiB");
}

#[test]
fn disko_sizes() {
    // the rest of the disk
    assert_eq!(bytes_disko_cfg(1_000_000_000, 0, 512, 1_000_000), "100%");
    // decimal units, rounded
    assert_eq!(bytes_disko_cfg(500_000_000, 0, 512, 100_000_000), "500M");
    assert_eq!(bytes_disko_cfg(1_500_000_000, 0, 512, 100_000_000), "2G");
    assert_eq!(bytes_disko_cfg(999, 0, 512, 100_000_000), "999B");
    assert_eq!(bytes_disko_cfg(2_500, 0, 512, 100_000_000), "2K");
    for &b in &[1_234u64, 987_654, 5_555_555_555, 2_000_000_000_000] {
        let bf = b as f64;
        let expected = if bf >= 1e12 {
            format!("{:.0}T", bf / 1e12)
        } else if bf >= 1e9 {
            format!("{:.0}G", bf / 1e9)
        } else if bf >= 1e6 {
            format!("{:.0}M", bf / 1e6)
        } else {
            format!("{:.0}K", bf / 1e3)
        };
        assert_eq!(bytes_disko_cfg(b, 0, 512, u64::MAX), expected);
    }
}

#[test]
fn sector_conversions() {
    assert_eq!(one_mib_in_sectors(512), 2048);
    assert_eq!(one_mib_in_sectors(4096), 256);
    assert_eq!(one_mib_in_sectors(1000), 1049);
    assert_eq!(mb_to_sectors(500, 512), 1_024_000);
    assert_eq!(mb_to_sectors(1, 3000), 350);
}

#[test]
fn parse_sector_texts() {
    assert_eq!(parse_sectors("50 MiB", 512, 0), Some(102_400));
    assert_eq!(parse_sectors("500MB", 512, 0), Some(976_563));
    assert_eq!(parse_sectors("25%", 512, 1000), Some(250));
    assert_eq!(parse_sectors("1024B", 512, 0), Some(2));
    assert_eq!(parse_sectors("  2048  ", 512, 0), Some(2048));
    assert_eq!(parse_sectors("1.5 GiB", 512, 0), Some(3_145_728));
    assert_eq!(parse_sectors("1 GB", 4096, 0), Some(244_141));
    assert_eq!(parse_sectors("abc", 512, 0), None);
    assert_eq!(parse_sectors("x MiB", 512, 0), None);
    assert_eq!(parse_sectors("", 512, 0), None);
}

#[test]
fn disk_labels() {
    assert!(matches!(DiskLabel::from_lsblk("gpt"), DiskLabel::Gpt));
    assert!(matches!(DiskLabel::from_lsblk("dos"), DiskLabel::Msdos));
    assert!(matches!(DiskLabel::from_lsblk("msdos"), DiskLabel::Msdos));
    assert!(matches!(DiskLabel::from_lsblk("weird"), DiskLabel::NoLabel));
    assert_eq!(DiskLabel::Gpt.as_str(), "gpt");
    assert_eq!(DiskLabel::Msdos.as_str(), "msdos");
    assert_eq!(DiskLabel::NoLabel.as_str(), "none");
}

#[test]
fn entry_ids_count_up() {
    let mut counter = 7u64;
    assert_eq!(get_entry_id(&mut counter), 7);
    assert_eq!(get_entry_id(&mut counter), 8);
    assert_eq!(counter, 9);
    let mut top = u64::MAX;
    assert_eq!(get_entry_id(&mut top), u64::MAX);
    assert_eq!(top, 0);
}

#[test]
fn builder_errors_and_defaults() {
    let mut counter = 10u64;
    let missing_start = PartitionBuilder::new().size(10).mount_point("/".to_string()).build(&mut counter);
    assert!(matches!(missing_start, Err(BuildError::MissingStart)));
    let missing_size = PartitionBuilder::new().start(1).mount_point("/".to_string()).build(&mut counter);
    assert!(matches!(missing_size, Err(BuildError::MissingSize)));
    let missing_mount = PartitionBuilder::new().start(1).size(10).build(&mut counter);
    assert!(matches!(missing_mount, Err(BuildError::MissingMountPoint)));
    let zero = PartitionBuilder::new().start(1).size(0).mount_point("/".to_string()).build(&mut counter);
    assert!(matches!(zero, Err(BuildError::ZeroSize)));
    assert_eq!(counter, 10);
    assert_eq!(BuildError::ZeroSize.message(), "size must be greater than zero");
    let p = PartitionBuilder::new()
        .start(2048)
        .size(4096)
        .status(PartStatus::Create)
        .fs_type("ext4".to_string())
        .mount_point("/home".to_string())
        .label("HOME".to_string())
        .add_flag("boot".to_string())
        .add_flag("boot".to_string())
        .build(&mut counter)
        .unwrap();
    assert_eq!(counter, 11);
    assert_eq!(p.id(), 10);
    assert_eq!(p.sector_size(), 512);
    assert!(!p.read_only());
    assert_eq!(p.mount_point(), Some("/home"));
    assert_eq!(p.label(), Some("HOME"));
    assert_eq!(p.flags().clone(), vec!["boot".to_string()]);
}

#[test]
fn partition_flags() {
    let mut p = part(1, 0, 10, PartStatus::Create, None, Some("fat32"));
    p.add_flags(&vec!["boot".to_string(), "esp".to_string(), "boot".to_string()]);
    assert_eq!(p.flags().clone(), vec!["boot".to_string(), "esp".to_string()]);
    p.remove_flags(&vec!["esp".to_string(), "other".to_string()]);
    assert_eq!(p.flags().clone(), vec!["boot".to_string()]);
    p.remove_flag("boot");
    assert!(p.flags().is_empty());
    assert_eq!(p.fs_gpt_code(true), Some("EF00"));
    assert_eq!(p.fs_gpt_code(false), Some("0700"));
    assert_eq!(p.disko_fs_type(), Some("vfat"));
    assert!(!p.is_swap());
}

#[test]
fn new_partition_refuses_overlap() {
    let mut d = sample_disk();
    let overlapping = part(0, 3000, 100, PartStatus::Create, None, Some("ext4"));
    assert_eq!(d.new_partition(overlapping), Err(DiskError::Overlap));
    assert_eq!(DiskError::Overlap.message(), "New partition overlaps with existing partition");
    let fine = part(0, 2_000_000, 100_000, PartStatus::Create, None, Some("ext4"));
    assert_eq!(d.new_partition(fine), Ok(()));
    let parts = d.partitions();
    assert_eq!(parts.len(), 2);
}

#[test]
fn remove_and_modify_partitions() {
    let mut d = sample_disk();
    assert_eq!(d.remove_partition(999), Err(DiskError::NoItem(999)));
    assert_eq!(DiskError::NoItem(5).message(), "No item with id 5");
    assert_eq!(DiskError::NotAPartition(3).message(), "Item with id 3 is not a partition");
    assert!(d.modify_partition(1, PartitionEdit::SetLabel("ROOT".to_string())));
    assert_eq!(d.partition_by_id(1).unwrap().label(), Some("ROOT"));
    assert!(!d.modify_partition(4242, PartitionEdit::SetLabel("X".to_string())));
    assert_eq!(d.remove_partition(1), Ok(()));
    assert!(d.partitions().is_empty());
}

#[test]
fn free_space_is_found() {
    let d = sample_disk();
    let free = d.free_spaces();
    assert!(!free.is_empty());
    for (start, size) in free {
        assert!(size > 0);
        assert!(start + size <= 10_000_000);
    }
}

#[test]
fn default_layout_has_boot_and_root() {
    let mut d = Disk::new("nvme0n1".to_string(), 10_000_000, 512, vec![], DiskLabel::Gpt);
    d.use_default_layout(Some("ext4".to_string()));
    let parts = d.partitions();
    assert_eq!(parts.len(), 2);
    match &parts[0] {
        DiskItem::Partition(p) => {
            assert_eq!(p.mount_point(), Some("/boot/efi"));
            assert_eq!(p.name(), Some("nvme0n1p1"));
        },
        _ => panic!("expected a partition"),
    }
    match &parts[1] {
        DiskItem::Partition(p) => {
            assert_eq!(p.mount_point(), Some("/"));
            assert_eq!(p.name(), Some("nvme0n1p2"));
        },
        _ => panic!("expected a partition"),
    }
}

#[test]
fn default_layout_boots_from_an_esp_on_any_label() {
    let mut d = Disk::new("sda".to_string(), 10_000_000, 512, vec![], DiskLabel::Msdos);
    d.use_default_layout(None);
    let parts = d.partitions();
    assert_eq!(parts.len(), 2);
    match &parts[0] {
        DiskItem::Partition(p) => {
            assert_eq!(p.fs_type(), Some("fat32"));
            assert_eq!(p.mount_point(), Some("/boot/efi"));
            assert_eq!(p.flags(), &vec!["boot".to_string(), "esp".to_string()]);
            assert!(p.size() * 512 >= 500 * 1024 * 1024);
        },
        _ => panic!("expected a partition"),
    }
    match &parts[1] {
        DiskItem::Partition(p) => assert_eq!(p.fs_type(), Some("ext4")),
        _ => panic!("expected a partition"),
    }
}

#[test]
fn disko_config_lists_touched_partitions() {
    let mut d = sample_disk();
    let new_part = Partition::new(
        0,
        2_000_000,
        2_048_000,
        512,
        PartStatus::Create,
        None,
        Some("ext4".to_string()),
        Some("/home".to_string()),
        Some("HOME".to_string()),
        false,
        vec![],
    );
    assert_eq!(d.new_partition(new_part), Ok(()));
    let cfg = d.as_disko_cfg();
    assert_eq!(cfg.device, "/dev/sda");
    assert_eq!(cfg.label, "gpt");
    assert_eq!(cfg.partitions.len(), 1);
    let p = &cfg.partitions[0];
    assert_eq!(p.action, "create");
    assert_eq!(p.blockdevice.as_deref(), Some("/dev/sda2"));
    assert_eq!(p.start, "2000000");
    assert_eq!(p.end, "4047999");
    assert_eq!(p.sectors, 2_048_000);
    assert_eq!(p.size, "1G");
    assert_eq!(p.part_type, "8300");
    assert_eq!(p.filesystem.as_deref(), Some("ext4"));
    assert_eq!(p.mountpoint.as_deref(), Some("/home"));
    assert_eq!(p.label.as_deref(), Some("HOME"));
}

#[test]
fn table_headers() {
    let all = DiskTableHeader::all_headers();
    assert_eq!(all.len(), 10);
    assert!(DiskTableHeader::partition_table_headers().len() <= all.len());
    let disk_headers = DiskTableHeader::disk_table_headers();
    let d = sample_disk();
    let row = d.as_table_row(&disk_headers);
    assert_eq!(row.len(), disk_headers.len());
    assert!(row.contains(&"sda".to_string()));
    assert!(row.contains(&"4.77 GiB".to_string()));
}

fn kept_spans(d: &Disk) -> Vec<(u64, u64)> {
    d.partitions()
        .iter()
        .filter_map(|item| match item {
            DiskItem::Partition(p) if !matches!(p.status(), PartStatus::Delete) => Some((p.start(), p.size())),
            _ => None,
        })
        .collect()
}

#[test]
fn added_partitions_never_overlap() {
    let mut d = sample_disk();
    let attempts = [(500_000u64, 2_000_000u64), (1_500_000, 1_000_000), (3_000_000, 1_000), (3_000_500, 10), (2_000, 1)];
    for (start, size) in attempts {
        let _ = d.new_partition(part(0, start, size, PartStatus::Create, None, Some("ext4")));
        let spans = kept_spans(&d);
        for i in 0..spans.len() {
            for j in i + 1..spans.len() {
                let (a, x) = spans[i];
                let (b, y) = spans[j];
                assert!(a + x <= b || b + y <= a, "{:?} and {:?} overlap", spans[i], spans[j]);
            }
        }
    }
    assert_eq!(kept_spans(&d).len(), 4);
}

fn shape(d: &Disk) -> Vec<(bool, u64, u64, Option<u64>, bool)> {
    d.layout()
        .iter()
        .map(|item| match item {
            DiskItem::Partition(p) => (true, p.start(), p.size(), Some(p.id()), matches!(p.status(), PartStatus::Delete)),
            DiskItem::FreeSpace { start, size, .. } => (false, *start, *size, None, false),
        })
        .collect()
}

#[test]
fn tidying_twice_changes_nothing_but_free_ids() {
    let layout = vec![
        DiskItem::Partition(part(1, 2048, 1000, PartStatus::Exists, Some("sda1"), None)),
        DiskItem::Partition(part(2, 100_000, 1000, PartStatus::Delete, Some("sda2"), None)),
        DiskItem::Partition(part(3, 500_000, 1000, PartStatus::Exists, Some("sda3"), None)),
    ];
    let mut d = Disk::new("sda".to_string(), 1_000_000, 512, layout, DiskLabel::Gpt);
    let built = shape(&d);
    assert_eq!(built[0], (true, 100_000, 1000, Some(2), true));
    for w in built.windows(2) {
        assert!(w[0].0 || w[1].0, "two free entries side by side: {built:?}");
    }
    d.normalize_layout();
    assert_eq!(shape(&d), built);
    d.normalize_layout();
    assert_eq!(shape(&d), built);
}

#[test]
fn reset_gives_back_the_layout_built_at_start() {
    let mut d = sample_disk();
    let built = shape(&d);
    assert!(d.remove_partition(1).is_ok());
    let extra = part(0, 3_000_000, 2048, PartStatus::Create, None, Some("ext4"));
    assert!(d.new_partition(extra).is_ok());
    d.assign_device_numbers();
    assert_ne!(shape(&d), built);
    d.reset_layout();
    assert_eq!(shape(&d), built);
}
