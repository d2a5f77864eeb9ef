use aegis::drives::{Disk, DiskItem, DiskLabel, PartStatus, Partition};
use aegis::newpartition::{NewPartSignal, NewPartition};
use aegis::widgets::Key;

fn empty_disk() -> Disk {
    Disk::new("sda".to_string(), 2_000_000, 512, vec![], DiskLabel::Gpt)
}

fn free_space(d: &Disk) -> (u64, u64, u64) {
    for item in d.layout() {
        if let DiskItem::FreeSpace { id, start, size } = item {
            return (*id, *start, *size);
        }
    }
    panic!("no free space");
}

fn form(d: &Disk) -> NewPartition {
    let (id, start, size) = free_space(d);
    NewPartition::new(id, start, 512, size)
}

fn type_into(p: &mut NewPartition, cfg: &mut Option<Disk>, text: &str) {
    for c in text.chars() {
        assert!(matches!(p.handle_key(cfg, Key::Char(c)), NewPartSignal::Wait));
    }
}

fn partitions(d: &Disk) -> Vec<Partition> {
    d.layout()
        .iter()
        .filter_map(|i| match i {
            DiskItem::Partition(p) => Some(p.clone()),
            _ => None,
        })
        .collect()
}

#[test]
fn new_form_starts_at_the_size() {
    let d = empty_disk();
    let p = form(&d);
    assert_eq!(p.size_input.title, "New Partition Size");
    assert!(p.size_input.focused);
    assert_eq!(p.fs_buttons.labels.len(), 11);
    assert_eq!(p.enc_buttons.labels, vec!["Encryption (LUKS)", "Continue", "Back"]);
    assert_eq!(p.part_end, p.part_start + p.total_size - 1);
}

#[test]
fn size_errors() {
    let d = empty_disk();
    let mut cfg = Some(d.clone());
    let mut p = form(&d);
    type_into(&mut p, &mut cfg, "abc");
    p.handle_key(&mut cfg, Key::Enter);
    assert_eq!(p.size_input.error.as_deref(), Some("Invalid size input"));
    type_into(&mut p, &mut cfg, "0");
    p.handle_key(&mut cfg, Key::Enter);
    assert_eq!(p.size_input.error.as_deref(), Some("Invalid size (must be > 0)"));
    let mut none = None;
    match p.handle_key(&mut none, Key::Enter) {
        NewPartSignal::Error(m) => assert_eq!(m, "No drive config available for new partition size input"),
        _ => panic!("expected an error"),
    }
    assert!(matches!(p.handle_key(&mut cfg, Key::Esc), NewPartSignal::Pop));
}

#[test]
fn whole_space_ext4_at_root() {
    let d = empty_disk();
    let mut cfg = Some(d.clone());
    let mut p = form(&d);
    p.handle_key(&mut cfg, Key::Enter);
    assert_eq!(p.new_part_size, Some(p.total_size));
    assert!(p.fs_buttons.focused);
    p.handle_key(&mut cfg, Key::Enter);
    assert_eq!(p.new_part_fs.as_deref(), Some("ext4"));
    assert!(p.mount_input.focused);
    type_into(&mut p, &mut cfg, "home");
    p.handle_key(&mut cfg, Key::Enter);
    assert_eq!(p.mount_input.error.as_deref(), Some("Mount point must be an absolute path starting with '/'."));
    type_into(&mut p, &mut cfg, "/");
    p.handle_key(&mut cfg, Key::Enter);
    assert_eq!(p.new_part_mount_point.as_deref(), Some("/"));
    assert!(p.enc_buttons.focused);
    p.handle_key(&mut cfg, Key::Down);
    assert!(matches!(p.handle_key(&mut cfg, Key::Enter), NewPartSignal::Pop));
    let parts = partitions(cfg.as_ref().unwrap());
    assert_eq!(parts.len(), 1);
    assert_eq!(parts[0].mount_point(), Some("/"));
    assert_eq!(parts[0].label(), Some("ROOT"));
    assert_eq!(parts[0].status(), PartStatus::Create);
    assert!(matches!(p.handle_key(&mut cfg, Key::Char('x')), NewPartSignal::Pop));
}

#[test]
fn boot_partition_skips_encryption() {
    let d = empty_disk();
    let mut cfg = Some(d.clone());
    let mut p = form(&d);
    type_into(&mut p, &mut cfg, "512MiB");
    p.handle_key(&mut cfg, Key::Enter);
    assert_eq!(p.new_part_size, Some(1_048_576));
    for _ in 0..7 {
        p.handle_key(&mut cfg, Key::Down);
    }
    p.handle_key(&mut cfg, Key::Enter);
    assert_eq!(p.new_part_fs.as_deref(), Some("fat32"));
    type_into(&mut p, &mut cfg, "/boot/efi");
    assert!(matches!(p.handle_key(&mut cfg, Key::Enter), NewPartSignal::Pop));
    let parts = partitions(cfg.as_ref().unwrap());
    assert_eq!(parts[0].flags(), &vec!["boot".to_string(), "esp".to_string()]);
    assert_eq!(parts[0].label(), Some("BOOT"));
}

#[test]
fn swap_goes_to_encryption_then_back() {
    let d = empty_disk();
    let mut cfg = Some(d.clone());
    let mut p = form(&d);
    type_into(&mut p, &mut cfg, "256MiB");
    p.handle_key(&mut cfg, Key::Enter);
    for _ in 0..9 {
        p.handle_key(&mut cfg, Key::Char('j'));
    }
    p.handle_key(&mut cfg, Key::Enter);
    assert_eq!(p.new_part_fs.as_deref(), Some("swap"));
    assert!(p.enc_buttons.focused);
    p.handle_key(&mut cfg, Key::Esc);
    assert_eq!(p.new_part_fs, None);
    assert!(p.fs_buttons.focused);
    assert_eq!(p.fs_buttons.selected_child(), Some(0));
}

#[test]
fn encrypted_partition_asks_for_passphrase_and_key_file() {
    let d = empty_disk();
    let mut cfg = Some(d.clone());
    let mut p = form(&d);
    p.handle_key(&mut cfg, Key::Enter);
    p.handle_key(&mut cfg, Key::Enter);
    type_into(&mut p, &mut cfg, "/home");
    p.handle_key(&mut cfg, Key::Enter);
    p.handle_key(&mut cfg, Key::Char(' '));
    assert!(p.enc_selected && p.enc_box.checked);
    p.handle_key(&mut cfg, Key::Down);
    p.handle_key(&mut cfg, Key::Enter);
    assert!(p.collecting_pass && p.pass1.focused);
    type_into(&mut p, &mut cfg, "short");
    p.handle_key(&mut cfg, Key::Enter);
    assert_eq!(p.pass1.error.as_deref(), Some("Passphrase must be at least 8 characters."));
    type_into(&mut p, &mut cfg, "longenough");
    p.handle_key(&mut cfg, Key::Enter);
    assert_eq!(p.pass2.error.as_deref(), Some("Passphrases do not match."));
    p.pass2.value = "longenough".to_string();
    match p.handle_key(&mut cfg, Key::Enter) {
        NewPartSignal::WriteKey(k) => assert_eq!(k, "longenough"),
        _ => panic!("expected the key file"),
    }
    assert!(partitions(cfg.as_ref().unwrap()).is_empty());
    match p.key_written(&mut cfg, Err("denied".to_string())) {
        NewPartSignal::Error(m) => assert_eq!(m, "Failed to write /tmp/luks: denied"),
        _ => panic!("expected an error"),
    }
    assert!(matches!(p.key_written(&mut cfg, Ok(())), NewPartSignal::Pop));
    let parts = partitions(cfg.as_ref().unwrap());
    assert_eq!(parts[0].flags(), &vec!["encrypt".to_string()]);
}

#[test]
fn overlapping_size_is_refused() {
    let used = Partition::new(1, 2048, 100_000, 512, PartStatus::Exists, None, Some("ext4".to_string()), None, None, false, vec![]);
    let d = Disk::new("sda".to_string(), 2_000_000, 512, vec![DiskItem::Partition(used)], DiskLabel::Gpt);
    let (id, start, size) = free_space(&d);
    let mut cfg = Some(d.clone());
    let mut p = NewPartition::new(id, start, 512, size);
    type_into(&mut p, &mut cfg, "5000000");
    p.handle_key(&mut cfg, Key::Enter);
    let msg = p.size_input.error.clone().unwrap();
    assert!(msg.starts_with("Too large. Max allocatable here is "), "{msg}");
    assert!(msg.ends_with(&format!("({} sectors).", p.max_fit.unwrap())));
}
