use aegis::drivepages::{
    compute_max_fit, dry_run_accepts, finalize_new_partition, plan_new_partition, set_mount_point,
    set_partition_label, EditRefused, SetLabel, SetMountPoint,
};
use aegis::drives::{Disk, DiskError, DiskItem, DiskLabel, PartStatus, Partition};
use aegis::installer::PageSignal;
use aegis::widgets::Key;

fn part(id: u64, start: u64, size: u64, mount: Option<&str>) -> Partition {
    Partition::new(
        id,
        start,
        size,
        512,
        PartStatus::Exists,
        None,
        Some("ext4".to_string()),
        mount.map(|s| s.to_string()),
        None,
        false,
        vec![],
    )
}

fn disk() -> Disk {
    let layout = vec![
        DiskItem::Partition(part(1, 2048, 100_000, Some("/boot"))),
        DiskItem::Partition(part(2, 200_000, 100_000, None)),
    ];
    Disk::new("sda".to_string(), 1_000_000, 512, layout, DiskLabel::Gpt)
}

#[test]
fn mount_point_rules() {
    let taken = vec!["/home".to_string()];
    assert_eq!(SetMountPoint::validate_mount_point("", &taken), Err("Mount point cannot be empty.".to_string()));
    assert_eq!(
        SetMountPoint::validate_mount_point("home", &taken),
        Err("Mount point must be an absolute path starting with '/'.".to_string())
    );
    assert_eq!(
        SetMountPoint::validate_mount_point("/var/", &taken),
        Err("Mount point cannot end with '/' unless it is root '/'.".to_string())
    );
    assert_eq!(
        SetMountPoint::validate_mount_point("/home", &taken),
        Err("Mount point '/home' is already taken by another partition.".to_string())
    );
    assert_eq!(SetMountPoint::validate_mount_point("/", &taken), Ok(()));
    assert_eq!(SetMountPoint::validate_mount_point("/srv", &taken), Ok(()));
}

#[test]
fn setting_a_mount_point_sets_the_matching_label() {
    let mut d = disk();
    assert_eq!(set_mount_point(&mut d, 2, "/"), Ok(()));
    let p = d.partition_by_id(2).unwrap();
    assert_eq!(p.mount_point(), Some("/"));
    assert_eq!(p.label(), Some("ROOT"));
    // another partition holds /boot
    assert_eq!(
        set_mount_point(&mut d, 2, "/boot"),
        Err("Mount point '/boot' is already taken by another partition.".to_string())
    );
    // its own mount point is not in the way
    assert_eq!(set_mount_point(&mut d, 1, "/boot"), Ok(()));
    assert_eq!(d.partition_by_id(1).unwrap().label(), Some("BOOT"));
}

#[test]
fn label_rules() {
    let mut d = disk();
    assert!(matches!(set_partition_label(&mut d, 2, ""), Err(EditRefused::Invalid(m)) if m == "Label cannot be empty."));
    assert!(matches!(
        set_partition_label(&mut d, 2, "a b"),
        Err(EditRefused::Invalid(m)) if m == "Label cannot contain spaces."
    ));
    let long = "x".repeat(37);
    assert!(matches!(
        set_partition_label(&mut d, 2, &long),
        Err(EditRefused::Invalid(m)) if m == "Label cannot exceed 36 characters."
    ));
    assert!(matches!(
        set_partition_label(&mut d, 77, "DATA"),
        Err(EditRefused::NoPartition(m)) if m == "No partition found with id 77"
    ));
    assert!(set_partition_label(&mut d, 2, "DATA").is_ok());
    assert_eq!(d.partition_by_id(2).unwrap().label(), Some("DATA"));
}

#[test]
fn mount_point_page() {
    let mut d = disk();
    let mut page = SetMountPoint::new(2);
    assert_eq!(page.editor().title, "Mount Point");
    for c in "/data ".chars() {
        assert!(matches!(page.handle_key(&mut d, Key::Char(c)), PageSignal::Wait));
    }
    assert!(matches!(page.handle_key(&mut d, Key::Enter), PageSignal::Pop));
    assert_eq!(d.partition_by_id(2).unwrap().mount_point(), Some("/data"));
    let mut bad = SetMountPoint::new(2);
    bad.handle_key(&mut d, Key::Char('x'));
    assert!(matches!(bad.handle_key(&mut d, Key::Enter), PageSignal::Wait));
    assert_eq!(bad.editor().value, "");
    assert_eq!(
        bad.editor().error.as_deref(),
        Some("Mount point must be an absolute path starting with '/'.")
    );
    assert!(matches!(bad.handle_key(&mut d, Key::Esc), PageSignal::Pop));
}

#[test]
fn label_page_reports_missing_partition() {
    let mut d = disk();
    let mut page = SetLabel::new(99);
    page.handle_key(&mut d, Key::Char('A'));
    assert!(matches!(page.handle_key(&mut d, Key::Enter), PageSignal::Error(m) if m == "No partition found with id 99"));
    let mut ok = SetLabel::new(1);
    ok.handle_key(&mut d, Key::Char('E'));
    ok.handle_key(&mut d, Key::Char('F'));
    assert!(matches!(ok.handle_key(&mut d, Key::Enter), PageSignal::Pop));
    assert_eq!(d.partition_by_id(1).unwrap().label(), Some("EF"));
}

#[test]
fn planned_partitions() {
    let esp = plan_new_partition(2048, 1000, 512, &Some("fat32".to_string()), &Some("/boot/efi".to_string()), None);
    assert_eq!(esp.flags().clone(), vec!["boot".to_string(), "esp".to_string()]);
    assert_eq!(esp.label(), Some("BOOT"));
    assert_eq!(esp.mount_point(), Some("/boot/efi"));
    let swap = plan_new_partition(0, 10, 512, &Some("swap".to_string()), &Some("/".to_string()), Some(true));
    assert_eq!(swap.label(), Some("SWAP"));
    assert_eq!(swap.mount_point(), None);
    assert_eq!(swap.flags().clone(), vec!["encrypt".to_string()]);
    let root = plan_new_partition(0, 10, 512, &Some("ext4".to_string()), &Some("/".to_string()), Some(false));
    assert_eq!(root.label(), Some("ROOT"));
    assert!(root.flags().is_empty());
    assert!(matches!(root.status(), PartStatus::Create));
}

#[test]
fn finalizing_adds_or_refuses() {
    let mut d = disk();
    let fs = Some("ext4".to_string());
    assert_eq!(
        finalize_new_partition(&mut d, 250_000, 10, 512, &fs, &Some("/home".to_string()), None),
        Err(DiskError::Overlap)
    );
    assert_eq!(finalize_new_partition(&mut d, 400_000, 100_000, 512, &fs, &Some("/home".to_string()), None), Ok(()));
    assert_eq!(d.partitions().len(), 3);
}

#[test]
fn largest_fit_is_found_by_bisection() {
    let d = disk();
    let fs = Some("ext4".to_string());
    // free run between the two partitions: sectors 102048 .. 200000
    let mut cache = None;
    let best = compute_max_fit(&mut cache, &d, 102_048, 512, 500_000, &fs);
    assert_eq!(best, 200_000 - 102_048);
    assert_eq!(cache, Some(best));
    assert!(dry_run_accepts(&d, 102_048, 512, best, &fs));
    assert!(!dry_run_accepts(&d, 102_048, 512, best + 1, &fs));
    // a cached size is returned as it is
    let mut stale = Some(5);
    assert_eq!(compute_max_fit(&mut stale, &d, 102_048, 512, 500_000, &fs), 5);
    // nothing fits inside a partition
    let mut none = None;
    assert_eq!(compute_max_fit(&mut none, &d, 3000, 512, 500_000, &fs), 0);
}
