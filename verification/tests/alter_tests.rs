use aegis::alter::{AlterItem, AlterPartition, AlterSignal};
use aegis::drives::{Disk, DiskItem, DiskLabel, PartStatus, Partition};
use aegis::widgets::Key;

fn part(id: u64, start: u64, status: PartStatus, fs: &str, flags: &[&str]) -> Partition {
    Partition::new(
        id,
        start,
        100_000,
        512,
        status,
        Some(format!("sda{id}")),
        Some(fs.to_string()),
        None,
        None,
        false,
        flags.iter().map(|f| f.to_string()).collect(),
    )
}

fn disk(parts: Vec<Partition>) -> Option<Disk> {
    Some(Disk::new("sda".to_string(), 2_000_000, 512, parts.into_iter().map(DiskItem::Partition).collect(), DiskLabel::Gpt))
}

fn labels(p: &AlterPartition) -> Vec<&'static str> {
    p.items
        .iter()
        .map(|i| match i {
            AlterItem::Button(l) => *l,
            AlterItem::CheckBox(l, _) => *l,
        })
        .collect()
}

fn status_of(d: &Option<Disk>, id: u64) -> Option<PartStatus> {
    d.as_ref().unwrap().partition_by_id(id).map(|p| p.status())
}

#[test]
fn entries_follow_status_and_kind() {
    let existing = AlterPartition::new(&part(1, 2048, PartStatus::Exists, "ext4", &[]));
    assert_eq!(labels(&existing), vec![
        "Set Mount Point",
        "Mark For Modification (data will be wiped on install)",
        "Delete Partition",
        "Back"
    ]);
    let swap = AlterPartition::new(&part(1, 2048, PartStatus::Modify, "swap", &["encrypt"]));
    assert!(swap.is_swap);
    assert!(matches!(swap.items[0], AlterItem::CheckBox("Encryption (LUKS)", true)));
    assert_eq!(swap.items.len(), 6);
    let created = AlterPartition::new(&part(1, 2048, PartStatus::Create, "ext4", &["esp"]));
    assert_eq!(created.items.len(), 9);
    assert!(matches!(created.items[1], AlterItem::CheckBox(_, false)));
    assert!(matches!(created.items[2], AlterItem::CheckBox("Mark as ESP partition", true)));
    let deleted = AlterPartition::new(&part(1, 2048, PartStatus::Delete, "ext4", &[]));
    assert_eq!(labels(&deleted), vec!["Back"]);
}

#[test]
fn mark_for_modification_and_back() {
    let mut d = disk(vec![part(1, 2048, PartStatus::Exists, "ext4", &[])]);
    let mut page = AlterPartition::new(&d.as_ref().unwrap().partition_by_id(1).unwrap());
    page.handle_key(&mut d, Key::Down);
    assert_eq!(page.selected, 1);
    assert!(matches!(page.handle_key(&mut d, Key::Enter), AlterSignal::Wait));
    assert_eq!(status_of(&d, 1), Some(PartStatus::Modify));
    assert_eq!(page.part_status, PartStatus::Modify);
    assert_eq!(page.items.len(), 10);
    assert_eq!(page.selected, 0);
    // unmark: entry 7
    for _ in 0..7 {
        page.handle_key(&mut d, Key::Char('j'));
    }
    assert!(matches!(page.handle_key(&mut d, Key::Char('l')), AlterSignal::Wait));
    assert_eq!(status_of(&d, 1), Some(PartStatus::Exists));
    assert_eq!(page.items.len(), 4);
}

#[test]
fn flags_follow_the_check_boxes() {
    let mut d = disk(vec![part(3, 2048, PartStatus::Create, "fat32", &[])]);
    let mut page = AlterPartition::new(&d.as_ref().unwrap().partition_by_id(3).unwrap());
    page.handle_key(&mut d, Key::Down);
    assert!(matches!(page.handle_key(&mut d, Key::Char(' ')), AlterSignal::Wait));
    assert_eq!(d.as_ref().unwrap().partition_by_id(3).unwrap().flags().clone(), vec!["boot".to_string()]);
    assert!(matches!(page.items[1], AlterItem::CheckBox(_, true)));
    page.handle_key(&mut d, Key::Char(' '));
    assert!(d.as_ref().unwrap().partition_by_id(3).unwrap().flags().is_empty());
    // the encryption box asks for a password
    for _ in 0..3 {
        page.handle_key(&mut d, Key::Down);
    }
    assert!(matches!(page.handle_key(&mut d, Key::Enter), AlterSignal::PromptLuksPassword(3)));
    assert_eq!(d.as_ref().unwrap().partition_by_id(3).unwrap().flags().clone(), vec!["encrypt".to_string()]);
}

#[test]
fn deleting_partitions() {
    let mut d = disk(vec![
        part(1, 2048, PartStatus::Exists, "ext4", &[]),
        part(2, 400_000, PartStatus::Create, "ext4", &[]),
    ]);
    let mut existing = AlterPartition::new(&d.as_ref().unwrap().partition_by_id(1).unwrap());
    existing.selected = 2;
    assert!(matches!(existing.handle_key(&mut d, Key::Enter), AlterSignal::Pop));
    assert_eq!(status_of(&d, 1), Some(PartStatus::Delete));
    let mut created = AlterPartition::new(&d.as_ref().unwrap().partition_by_id(2).unwrap());
    created.selected = 7;
    assert!(matches!(created.handle_key(&mut d, Key::Enter), AlterSignal::Pop));
    assert_eq!(status_of(&d, 2), None);
}

#[test]
fn other_entries_and_errors() {
    let mut d = disk(vec![part(1, 2048, PartStatus::Exists, "ext4", &[])]);
    let mut page = AlterPartition::new(&d.as_ref().unwrap().partition_by_id(1).unwrap());
    assert!(matches!(page.handle_key(&mut d, Key::Enter), AlterSignal::SetMountPoint(1)));
    assert!(matches!(page.handle_key(&mut d, Key::Esc), AlterSignal::Pop));
    let mut none: Option<Disk> = None;
    assert!(matches!(
        page.handle_key(&mut none, Key::Enter),
        AlterSignal::Error(m) if m == "No drive config available for altering partition"
    ));
    assert!(matches!(page.handle_key(&mut none, Key::Char(' ')), AlterSignal::Wait));
    let mut gone = AlterPartition::new(&part(9, 0, PartStatus::Exists, "ext4", &[]));
    assert!(matches!(
        gone.handle_key(&mut d, Key::Enter),
        AlterSignal::Error(m) if m == "No partition found with id 9"
    ));
    let mut created = AlterPartition::new(&part(9, 0, PartStatus::Create, "ext4", &[]));
    created.selected = 7;
    assert!(matches!(created.handle_key(&mut d, Key::Enter), AlterSignal::Error(m) if m == "No item with id 9"));
    created.selected = 5;
    assert!(matches!(created.handle_key(&mut d, Key::Enter), AlterSignal::SelectFilesystem(9)));
    created.selected = 6;
    assert!(matches!(created.handle_key(&mut d, Key::Enter), AlterSignal::SetLabel(9)));
}
