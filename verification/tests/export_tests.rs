use aegis::drives::{Disk, DiskItem, DiskLabel, PartStatus, Partition};
use aegis::export::{installer_config, system_choices};
use aegis::users::User;

fn some(s: &str) -> Option<String> {
    Some(s.to_string())
}

fn choices() -> aegis::export::SystemChoices {
    system_choices(
        some("Athena Arch"),
        some("athena"),
        some("us"),
        some("en_US.UTF-8 UTF-8"),
        some("Europe/Berlin"),
        some("$6$hash"),
        some("KDE Plasma"),
        some("HackTheBox"),
        None,
        vec![User {
            username: "alice".to_string(),
            password_hash: "h".to_string(),
            groups: vec!["wheel".to_string()],
            shell: "fish".to_string(),
        }],
        vec!["htop".to_string()],
    )
}

#[test]
fn choices_are_lower_cased_where_the_backend_matches_them() {
    let c = choices();
    assert_eq!(c.desktop_environment.as_deref(), Some("kde plasma"));
    assert_eq!(c.design.as_deref(), Some("hackthebox"));
    assert_eq!(c.display_manager, None);
    assert_eq!(c.base.as_deref(), Some("Athena Arch"));
    assert_eq!(c.hostname.as_deref(), Some("athena"));
    assert_eq!(c.users.len(), 1);
    assert_eq!(c.extra_packages, vec!["htop"]);
}

#[test]
fn no_disk_means_no_disk_plan() {
    let mut drive = None;
    let cfg = installer_config(choices(), &mut drive);
    assert!(cfg.drives.is_none());
    assert!(drive.is_none());
}

#[test]
fn the_configured_disk_is_described_for_disko() {
    let layout = vec![DiskItem::Partition(Partition::new(
        1,
        2048,
        1_000_000,
        512,
        PartStatus::Exists,
        Some("sda1".to_string()),
        Some("ext4".to_string()),
        None,
        None,
        false,
        vec![],
    ))];
    let mut d = Disk::new("sda".to_string(), 10_000_000, 512, layout, DiskLabel::Gpt);
    let new_part = Partition::new(
        0,
        2_000_000,
        2_048_000,
        512,
        PartStatus::Create,
        None,
        Some("ext4".to_string()),
        Some("/home".to_string()),
        None,
        false,
        vec![],
    );
    assert!(d.new_partition(new_part).is_ok());
    let mut drive = Some(d);
    let cfg = installer_config(choices(), &mut drive);
    let disko = cfg.drives.unwrap();
    assert_eq!(disko.device, "/dev/sda");
    assert_eq!(disko.label, "gpt");
    assert_eq!(disko.partitions.len(), 1);
    assert!(drive.is_some());
}
