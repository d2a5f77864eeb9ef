use aegis::arch::config::{
    check_config, install_steps, package_set, parse_partition_entry, BootloaderConfig, InstallConfig, LocaleConfig,
    NetworkingConfig, PartitionConfig, UserConfig,
};
use aegis::arch::steps::{disable_wsession, disable_xsession, edit_file, SystemStep};
use aegis::backend::PartitionMode;

fn config() -> InstallConfig {
    InstallConfig {
        partition: PartitionConfig {
            device: "sda".to_string(),
            mode: PartitionMode::Manual,
            encrypt_check: false,
            efi: true,
            swap: false,
            swap_size: "4G".to_string(),
            partitions: vec!["/:/dev/sda2:ext4:false".to_string(), "/boot/efi:/dev/sda1:vfat:false".to_string()],
        },
        bootloader: BootloaderConfig { kind: "grub-efi".to_string(), location: "/boot/efi".to_string() },
        locale: LocaleConfig {
            locale: vec!["en_US.UTF-8 UTF-8".to_string(), "de_DE.UTF-8 UTF-8".to_string()],
            virtkeymap: "us".to_string(),
            x11keymap: "us".to_string(),
            timezone: "Europe/Berlin".to_string(),
        },
        networking: NetworkingConfig { hostname: "athena".to_string(), ipv6: true },
        users: vec![
            UserConfig { name: "alice".to_string(), password: "h1".to_string(), hasroot: true, shell: "Fish".to_string() },
            UserConfig { name: "bob".to_string(), password: "h2".to_string(), hasroot: false, shell: "zsh".to_string() },
        ],
        rootpass: "r".to_string(),
        desktop: "GNOME".to_string(),
        theme: "sweet".to_string(),
        displaymanager: "gdm".to_string(),
        browser: "firefox".to_string(),
        terminal: "kitty".to_string(),
        flatpak: true,
        zramd: true,
        extra_packages: vec!["htop".to_string()],
        kernel: "linux".to_string(),
    }
}

#[test]
fn partition_entries() {
    let p = parse_partition_entry("/home:/dev/sdb1:btrfs:true:extra").unwrap();
    assert_eq!(p.mountpoint, "/home");
    assert_eq!(p.blockdevice, "/dev/sdb1");
    assert_eq!(p.filesystem, "btrfs");
    assert!(p.encrypt);
    assert!(parse_partition_entry("/home:/dev/sdb1:btrfs").is_none());
    assert!(parse_partition_entry("/home:/dev/sdb1:btrfs:yes").is_none());
}

#[test]
fn configurations_are_checked() {
    let mut c = config();
    assert!(check_config(&c));
    c.partition.partitions.push("broken".to_string());
    assert!(!check_config(&c));
    let mut no_users = config();
    no_users.users.clear();
    assert!(!check_config(&no_users));
}

#[test]
fn package_set_collects_the_choices() {
    let c = config();
    let p = package_set(&c);
    assert_eq!(p[0], "linux-firmware");
    assert!(p.contains(&"grub"));
    assert!(p.contains(&"efibootmgr"));
    assert!(p.contains(&"zram-generator"));
    assert!(p.contains(&"flatpak"));
    let mut legacy = config();
    legacy.bootloader.kind = "grub-legacy".to_string();
    legacy.zramd = false;
    legacy.flatpak = false;
    let q = package_set(&legacy);
    assert!(!q.contains(&"efibootmgr"));
    assert!(!q.contains(&"zram-generator"));
    assert!(!q.contains(&"flatpak"));
    assert_eq!(p.len(), q.len() + 3);
}

#[test]
fn install_plan_order() {
    let c = config();
    let steps = install_steps(&c);
    match &steps[0] {
        SystemStep::Partition { device, mode, efi, partitions, .. } => {
            assert_eq!(device, "/dev/sda");
            assert_eq!(*mode, PartitionMode::Manual);
            assert!(*efi);
            assert_eq!(partitions.len(), 2);
            assert_eq!(partitions[1].mountpoint, "/boot/efi");
        },
        other => panic!("unexpected first step {other:?}"),
    }
    assert!(matches!(&steps[1], SystemStep::InstallBase { kernel, .. } if kernel == "linux"));
    assert!(matches!(steps[2], SystemStep::GenFstab));
    assert!(matches!(&steps[3], SystemStep::BootloaderEfi { location, encrypt: false } if location == "/boot/efi"));
    assert!(matches!(&steps[4], SystemStep::SetLocale(l) if l == "en_US.UTF-8 UTF-8 de_DE.UTF-8 UTF-8"));
    assert!(matches!(&steps[6], SystemStep::SetTimezone(t) if t == "Europe/Berlin"));
    assert!(matches!(&steps[8], SystemStep::SetHostname(h) if h == "athena"));
    assert!(matches!(steps[10], SystemStep::EnableIpv6));
    assert!(matches!(steps[11], SystemStep::ConfigureZram));
    let n = steps.len();
    assert!(matches!(steps[n - 1], SystemStep::Umount("/mnt")));
    assert!(matches!(steps[n - 2], SystemStep::Umount("/mnt/home")));
    assert!(matches!(steps[n - 3], SystemStep::Umount("/mnt/boot")));
    assert!(matches!(steps[n - 4], SystemStep::CopyLog));
    assert!(matches!(&steps[n - 5], SystemStep::RootPass(p) if p == "r"));
    assert!(matches!(&steps[n - 7], SystemStep::NewUser { name, hasroot: true, .. } if name == "alice"));
    assert!(matches!(&steps[n - 6], SystemStep::NewUser { name, hasroot: false, .. } if name == "bob"));
    // the first user's shell (named in any case) becomes the default
    assert!(steps.iter().any(|s| matches!(s, SystemStep::EditFile { description: "Apply FISH shell", .. })));
    // the terminal is wired into the launcher
    assert!(steps.iter().any(|s| matches!(
        s,
        SystemStep::Run { program: "sed", args, .. } if args[2] == "s/^TERMINAL_EXEC=.*/TERMINAL_EXEC=\"kitty -e\"/g"
    )));
    assert!(steps.iter().any(|s| matches!(s, SystemStep::ConfigureFlatpak)));
    assert!(steps.iter().any(|s| matches!(s, SystemStep::InstallExtra(v) if v == &vec!["htop".to_string()])));
    assert!(steps.iter().any(|s| matches!(s, SystemStep::EnableService("NetworkManager"))));
}

#[test]
fn legacy_boot_has_no_boot_unmount() {
    let mut c = config();
    c.bootloader.kind = "grub-legacy".to_string();
    c.bootloader.location = "/dev/sda".to_string();
    c.partition.device = "/dev/vda".to_string();
    let steps = install_steps(&c);
    assert!(matches!(&steps[0], SystemStep::Partition { device, .. } if device == "/dev/vda"));
    assert!(matches!(&steps[3], SystemStep::BootloaderLegacy { location, .. } if location == "/dev/sda"));
    assert!(!steps.iter().any(|s| matches!(s, SystemStep::Umount("/mnt/boot"))));
}

#[test]
fn step_helpers() {
    assert!(matches!(
        edit_file("/mnt/etc/x", "a", "b", "why"),
        SystemStep::EditFile { file: "/mnt/etc/x", pattern: "a", replacement, description: "why" } if replacement == "b"
    ));
    assert!(matches!(
        disable_xsession("gnome.desktop"),
        SystemStep::Rename { from, to }
            if from == "/mnt/usr/share/xsessions/gnome.desktop" && to == "/mnt/usr/share/xsessions/gnome.desktop.disable"
    ));
    assert!(matches!(
        disable_wsession("gnome.desktop"),
        SystemStep::Rename { from, .. } if from == "/mnt/usr/share/wayland-sessions/gnome.desktop"
    ));
}
