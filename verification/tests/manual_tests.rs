use aegis::drives::{disk_table, part_table, Disk, DiskItem, DiskLabel, PartStatus, Partition};
use aegis::manual::{ManualPartition, ManualSignal};
use aegis::widgets::Key;

fn part(id: u64, start: u64, size: u64) -> Partition {
    Partition::new(
        id,
        start,
        size,
        512,
        PartStatus::Exists,
        Some(format!("sda{id}")),
        Some("ext4".to_string()),
        None,
        None,
        false,
        vec![],
    )
}

fn disk() -> Disk {
    Disk::new("sda".to_string(), 2_000_000, 512, vec![DiskItem::Partition(part(1, 2048, 100_000))], DiskLabel::Gpt)
}

fn page(d: &Disk) -> ManualPartition {
    ManualPartition::new(part_table(d.layout(), d.sector_size()))
}

#[test]
fn tables_of_disks_and_layouts() {
    let d = disk();
    let t = part_table(d.layout(), d.sector_size());
    assert_eq!(t.title, "Partitions");
    assert_eq!(t.headers.len(), 9);
    assert_eq!(t.headers[3], "Start");
    assert_eq!(t.rows.len(), d.layout().len());
    assert_eq!(t.rows[0][3], "2048");
    let dt = disk_table(&vec![d]);
    assert_eq!(dt.title, "Disks");
    assert_eq!(dt.rows[0][0], "sda");
    assert_eq!(dt.widths.len(), dt.headers.len());
}

#[test]
fn rows_open_the_matching_page() {
    let d = disk();
    let mut cfg = Some(disk());
    let mut p = page(&d);
    assert_eq!(p.table.selected_row, Some(0));
    match p.handle_key(&mut cfg, Key::Enter) {
        ManualSignal::Alter(part) => assert_eq!(part.id(), 1),
        other => panic!("unexpected {other:?}"),
    }
    assert!(matches!(p.handle_key(&mut cfg, Key::Down), ManualSignal::Wait));
    match p.handle_key(&mut cfg, Key::Enter) {
        ManualSignal::NewPartition { start, sector_size, size, .. } => {
            assert!(start > 100_000);
            assert_eq!(sector_size, 512);
            assert!(size > 0);
        },
        other => panic!("unexpected {other:?}"),
    }
    let mut none: Option<Disk> = None;
    assert!(matches!(p.handle_key(&mut none, Key::Enter), ManualSignal::Error(m) if m == "No drive config available"));
    assert!(matches!(p.handle_key(&mut cfg, Key::Esc), ManualSignal::PopCount(2)));
}

#[test]
fn moving_between_table_and_buttons() {
    let d = disk();
    let mut cfg = Some(disk());
    let mut p = page(&d);
    // up from the first row goes to the last button
    p.handle_key(&mut cfg, Key::Up);
    assert!(p.buttons_focused && !p.table.focused);
    assert_eq!(p.button, 3);
    assert!(matches!(p.handle_key(&mut cfg, Key::Enter), ManualSignal::PopCount(2)));
    p.handle_key(&mut cfg, Key::Char('k'));
    p.handle_key(&mut cfg, Key::Char('k'));
    assert_eq!(p.button, 1);
    assert!(matches!(p.handle_key(&mut cfg, Key::Enter), ManualSignal::Unwind));
    p.handle_key(&mut cfg, Key::Up);
    assert!(matches!(p.handle_key(&mut cfg, Key::Enter), ManualSignal::Suggest));
    // up from the first button goes back to the last row
    p.handle_key(&mut cfg, Key::Up);
    assert!(p.table.focused && !p.buttons_focused);
    assert_eq!(p.table.selected_row, Some(p.table.rows.len() - 1));
}

#[test]
fn reset_asks_first() {
    let d = disk();
    let mut cfg = Some(disk());
    cfg.as_mut().unwrap().remove_partition(1).unwrap();
    assert!(cfg.as_ref().unwrap().partitions().is_empty());
    let mut p = page(&d);
    p.buttons_focused = true;
    p.table.focused = false;
    p.button = 2;
    assert_eq!(p.button_labels()[2], "Reset Partition Layout");
    assert!(matches!(p.handle_key(&mut cfg, Key::Enter), ManualSignal::Wait));
    assert!(p.confirming_reset);
    assert_eq!(p.button_labels()[2], "Really?");
    // any other key drops the question
    p.handle_key(&mut cfg, Key::Char('x'));
    assert!(!p.confirming_reset);
    p.handle_key(&mut cfg, Key::Enter);
    assert!(matches!(p.handle_key(&mut cfg, Key::Enter), ManualSignal::Wait));
    assert!(!p.confirming_reset);
    assert!(p.table.focused);
    assert_eq!(cfg.as_ref().unwrap().partitions().len(), 1);
}

#[test]
fn help_takes_the_keys() {
    let d = disk();
    let mut cfg = Some(disk());
    let mut p = page(&d);
    p.handle_key(&mut cfg, Key::Char('?'));
    assert!(p.help_visible);
    assert!(matches!(p.handle_key(&mut cfg, Key::Esc), ManualSignal::Wait));
    assert!(!p.help_visible);
}
