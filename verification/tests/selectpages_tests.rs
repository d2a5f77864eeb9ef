use aegis::drives::{Disk, DiskItem, DiskLabel, PartStatus, Partition};
use aegis::selectpages::{
    root_partition_id, AskEncryptRoot, DriveSignal, Drives, SelectDrive, SelectFilesystem, SelectSwap,
    SuggestPartition,
};
use aegis::widgets::{ButtonMenu, Key};

fn part(id: u64, start: u64, size: u64, mount: Option<&str>, flags: &[&str]) -> Partition {
    Partition::new(
        id,
        start,
        size,
        512,
        PartStatus::Exists,
        Some(format!("sda{id}")),
        Some("ext4".to_string()),
        mount.map(|m| m.to_string()),
        None,
        false,
        flags.iter().map(|f| f.to_string()).collect(),
    )
}

fn disk(parts: Vec<Partition>) -> Disk {
    Disk::new("sda".to_string(), 2_000_000, 512, parts.into_iter().map(DiskItem::Partition).collect(), DiskLabel::Gpt)
}

fn find(d: &Disk, id: u64) -> Partition {
    d.partition_by_id(id).unwrap()
}

#[test]
fn button_menu_moves_within_its_buttons() {
    let mut m = ButtonMenu::button_menu(vec!["a".to_string(), "b".to_string()]);
    assert_eq!(m.selected_child(), Some(0));
    assert!(!m.prev_child());
    assert!(m.next_child());
    assert!(!m.next_child());
    assert_eq!(m.selected_child(), Some(1));
    assert!(!m.select_child(2));
    m.first_child();
    assert_eq!(m.selected_child(), Some(0));
    m.last_child();
    assert_eq!(m.selected_child(), Some(1));
    m.focused_child = Some(7);
    m.focus();
    assert!(m.is_focused());
    assert_eq!(m.selected_child(), Some(0));
    let empty = ButtonMenu::button_menu(Vec::new());
    assert_eq!(empty.selected_child(), None);
}

#[test]
fn drives_menu_asks_for_the_disks() {
    let mut page = Drives::new();
    assert_eq!(page.buttons.labels[0], "Use a best-effort default partition layout");
    assert!(matches!(page.handle_key(Key::Down), DriveSignal::Wait));
    assert!(matches!(page.handle_key(Key::Enter), DriveSignal::ListDisks(1)));
    assert!(matches!(page.handle_key(Key::Left), DriveSignal::Pop));
}

#[test]
fn listing_the_disks_opens_the_disk_choice() {
    let mut drives = Vec::new();
    let mut auto = false;
    let r = Drives::after_listing(0, Ok(vec![disk(vec![])]), &mut drives, &mut auto);
    match r {
        DriveSignal::SelectDrive(p) => {
            assert_eq!(p.table.rows.len(), 1);
            assert_eq!(p.table.selected_row, Some(0));
        }
        _ => panic!("expected the disk choice"),
    }
    assert!(auto);
    assert_eq!(drives.len(), 1);
    let r = Drives::after_listing(1, Ok(vec![]), &mut drives, &mut auto);
    assert!(matches!(r, DriveSignal::SelectDrive(_)));
    assert!(!auto);
    assert!(matches!(Drives::after_listing(2, Ok(vec![]), &mut drives, &mut auto), DriveSignal::Pop));
    match Drives::after_listing(0, Err("no lsblk".to_string()), &mut drives, &mut auto) {
        DriveSignal::Error(m) => assert_eq!(m, "Failed to list block devices: no lsblk"),
        _ => panic!("expected an error"),
    }
}

fn select_drive(n: usize) -> SelectDrive {
    let disks: Vec<Disk> = (0..n).map(|_| disk(vec![part(1, 2048, 100_000, Some("/"), &[])])).collect();
    let mut drives = Vec::new();
    let mut auto = false;
    match Drives::after_listing(0, Ok(disks), &mut drives, &mut auto) {
        DriveSignal::SelectDrive(p) => p,
        _ => panic!("expected the disk choice"),
    }
}

#[test]
fn choosing_a_drive() {
    let drives = vec![disk(vec![part(1, 2048, 100_000, Some("/"), &[])])];
    let mut page = select_drive(1);
    let mut cfg = None;
    assert!(matches!(page.handle_key(&drives, &mut cfg, true, Key::Enter), DriveSignal::SelectSwap(_)));
    assert!(cfg.is_some());
    let mut cfg2 = None;
    match page.handle_key(&drives, &mut cfg2, false, Key::Char('l')) {
        DriveSignal::Manual(m) => assert_eq!(m.table.rows.len(), cfg2.as_ref().unwrap().layout().len()),
        _ => panic!("expected manual partitioning"),
    }
    let mut cfg3 = None;
    match page.handle_key(&Vec::new(), &mut cfg3, true, Key::Enter) {
        DriveSignal::Error(m) => assert_eq!(m, "Failed to find drive info"),
        _ => panic!("expected an error"),
    }
    assert!(cfg3.is_none());
}

#[test]
fn swap_sizes() {
    let expected = [None, Some(1), Some(2), Some(4), Some(8)];
    for (i, want) in expected.iter().enumerate() {
        let mut page = SelectSwap::new();
        for _ in 0..i {
            page.handle_key(&mut Some(3), Key::Down);
        }
        let mut swap = Some(99);
        match page.handle_key(&mut swap, Key::Enter) {
            DriveSignal::SelectFilesystem(fs) => assert_eq!(fs.dev_id, None),
            _ => panic!("expected the filesystem choice"),
        }
        assert_eq!(swap, *want);
    }
    let mut page = SelectSwap::new();
    for _ in 0..9 {
        page.handle_key(&mut None, Key::Char('j'));
    }
    let mut swap = Some(4);
    assert!(matches!(page.handle_key(&mut swap, Key::Enter), DriveSignal::Pop));
    assert_eq!(swap, Some(4));
}

#[test]
fn filesystem_for_a_chosen_partition() {
    let mut cfg = Some(disk(vec![part(1, 2048, 100_000, Some("/boot"), &["boot", "esp", "x"])]));
    let mut page = SelectFilesystem::new(Some(1));
    let mut swap = None;
    assert!(matches!(page.handle_key(&mut cfg, &mut swap, false, Key::Enter), DriveSignal::Pop));
    assert_eq!(find(cfg.as_ref().unwrap(), 1).fs_type(), Some("ext4"));
    for _ in 0..9 {
        page.handle_key(&mut cfg, &mut swap, false, Key::Down);
    }
    assert!(matches!(page.handle_key(&mut cfg, &mut swap, false, Key::Enter), DriveSignal::Pop));
    let p = find(cfg.as_ref().unwrap(), 1);
    assert_eq!(p.fs_type(), Some("swap"));
    assert_eq!(p.flags(), &vec!["x".to_string()]);
    assert_eq!(p.mount_point(), None);
    assert_eq!(p.label(), Some("SWAP"));
}

#[test]
fn filesystem_errors() {
    let mut page = SelectFilesystem::new(Some(9));
    let mut none = None;
    match page.handle_key(&mut none, &mut None, false, Key::Enter) {
        DriveSignal::Error(m) => assert_eq!(m, "No drive config available"),
        _ => panic!("expected an error"),
    }
    let mut cfg = Some(disk(vec![part(1, 2048, 100_000, None, &[])]));
    match page.handle_key(&mut cfg, &mut None, false, Key::Enter) {
        DriveSignal::Error(m) => assert_eq!(m, "No partition found with id 9"),
        _ => panic!("expected an error"),
    }
    let mut no_id = SelectFilesystem::new(None);
    match no_id.handle_key(&mut cfg, &mut None, false, Key::Enter) {
        DriveSignal::Error(m) => assert_eq!(m, "No device id specified for filesystem selection"),
        _ => panic!("expected an error"),
    }
}

#[test]
fn automatic_layout_offers_root_encryption() {
    let mut cfg = Some(disk(vec![]));
    let mut swap = Some(2);
    let mut page = SelectFilesystem::new(None);
    page.handle_key(&mut cfg, &mut swap, true, Key::Down);
    match page.handle_key(&mut cfg, &mut swap, true, Key::Enter) {
        DriveSignal::AskEncryptRoot(ask) => {
            let root = find(cfg.as_ref().unwrap(), ask.root_id);
            assert_eq!(root.mount_point(), Some("/"));
            assert_eq!(root.fs_type(), Some("ext3"));
            assert_eq!(root_partition_id(cfg.as_ref().unwrap()), Some(ask.root_id));
        }
        _ => panic!("expected the encryption offer"),
    }
    assert_eq!(swap, None);
    let mut none = None;
    let mut swap2 = Some(1);
    assert!(matches!(page.handle_key(&mut none, &mut swap2, true, Key::Enter), DriveSignal::PopCount(4)));
    assert_eq!(swap2, Some(1));
}

#[test]
fn encrypting_root() {
    let mut cfg = Some(disk(vec![part(1, 2048, 100_000, Some("/"), &[])]));
    let mut page = AskEncryptRoot::new(1);
    assert!(matches!(page.handle_key(&mut cfg, Key::Down), DriveSignal::Wait));
    assert!(matches!(page.handle_key(&mut cfg, Key::Enter), DriveSignal::PopCount(5)));
    page.handle_key(&mut cfg, Key::Up);
    page.handle_key(&mut cfg, Key::Char(' '));
    assert!(page.encrypt.checked);
    page.handle_key(&mut cfg, Key::Char('j'));
    match page.handle_key(&mut cfg, Key::Enter) {
        DriveSignal::PromptLuks(p) => {
            assert_eq!(p.dev_id, 1);
            assert_eq!(p.pop_count_on_success, 6);
        }
        _ => panic!("expected the passphrase prompt"),
    }
    assert_eq!(find(cfg.as_ref().unwrap(), 1).flags(), &vec!["encrypt".to_string()]);
    assert!(matches!(page.handle_key(&mut cfg, Key::Esc), DriveSignal::Pop));
}

#[test]
fn suggested_layout() {
    let mut cfg = Some(disk(vec![]));
    let mut page = SuggestPartition::new();
    assert!(matches!(page.handle_key(&mut cfg, Key::Enter), DriveSignal::Pop));
    assert_eq!(root_partition_id(cfg.as_ref().unwrap()).map(|id| find(cfg.as_ref().unwrap(), id).fs_type().map(|s| s.to_string())), Some(Some("ext4".to_string())));
    let mut none = None;
    match page.handle_key(&mut none, Key::Enter) {
        DriveSignal::Error(m) => assert_eq!(m, "No drive config available for suggested partition layout"),
        _ => panic!("expected an error"),
    }
    page.handle_key(&mut none, Key::Down);
    assert!(matches!(page.handle_key(&mut none, Key::Enter), DriveSignal::Pop));
}

#[test]
fn root_id_takes_the_first_root() {
    let d = disk(vec![part(3, 2048, 1000, Some("/home"), &[]), part(4, 10_000, 1000, Some("/"), &[])]);
    assert_eq!(root_partition_id(&d), Some(4));
    assert_eq!(root_partition_id(&disk(vec![])), None);
}
