use aegis::arch::config::{
    BootloaderConfig, InstallConfig, LocaleConfig, NetworkingConfig, PartitionConfig, UserConfig,
};
use aegis::arch::shells::ShellSetup;
use aegis::backend::PartitionMode;
use aegis::nix_plan::{
    check_nix_config, nix_install_plan, parse_nix_entry, NixAction, NixBrowser, NixDesktop, NixDisplayManager,
    NixTerminal, NixTheme,
};

fn nix_config() -> InstallConfig {
    InstallConfig {
        partition: PartitionConfig {
            device: "sda".to_string(),
            mode: PartitionMode::Manual,
            encrypt_check: false,
            efi: true,
            swap: false,
            swap_size: "4G".to_string(),
            partitions: vec!["/:/dev/sda2:ext4:root:true".to_string(), "/boot/efi:/dev/sda1:vfat:boot:false".to_string()],
        },
        bootloader: BootloaderConfig { kind: "grub-efi".to_string(), location: "/boot/efi".to_string() },
        locale: LocaleConfig {
            locale: vec!["en_US.UTF-8 UTF-8".to_string(), "de_DE.UTF-8 UTF-8".to_string()],
            virtkeymap: "us".to_string(),
            x11keymap: "us".to_string(),
            timezone: "Europe/Berlin".to_string(),
        },
        networking: NetworkingConfig { hostname: "athena".to_string(), ipv6: true },
        users: vec![
            UserConfig { name: "alice".to_string(), password: "h1".to_string(), hasroot: true, shell: "Fish".to_string() },
            UserConfig { name: "bob".to_string(), password: "h2".to_string(), hasroot: false, shell: "zsh".to_string() },
        ],
        rootpass: "r".to_string(),
        desktop: "GNOME".to_string(),
        theme: "sweet".to_string(),
        displaymanager: "gdm".to_string(),
        browser: "firefox".to_string(),
        terminal: "kitty".to_string(),
        flatpak: true,
        zramd: true,
        extra_packages: vec!["htop".to_string()],
        kernel: "linux".to_string(),
    }
}

fn described(plan: &[NixAction]) -> Vec<String> {
    plan.iter().map(|a| format!("{a:?}")).collect()
}

#[test]
fn nix_entries_need_five_fields_and_a_boolean() {
    let e = parse_nix_entry("/:/dev/sda2:ext4:root:true").unwrap();
    assert_eq!(e.fields, vec!["/", "/dev/sda2", "ext4", "root"]);
    assert!(e.encrypt);
    assert!(parse_nix_entry("/:/dev/sda2:ext4:true").is_none());
    assert!(parse_nix_entry("/:/dev/sda2:ext4:root:yes").is_none());
    let mut c = nix_config();
    assert!(check_nix_config(&c));
    c.partition.partitions.push("/home:/dev/sda3:ext4:true".to_string());
    assert!(!check_nix_config(&c));
}

#[test]
fn nix_plan_follows_the_configuration() {
    let plan = nix_install_plan(&nix_config());
    let d = described(&plan);
    assert!(matches!(&plan[0], NixAction::Partition { device, entries, .. } if device == "/dev/sda" && entries.len() == 2));
    assert!(matches!(plan[1], NixAction::InstallNixConfig));
    assert!(matches!(&plan[2], NixAction::BootloaderEfi(l) if l == "/boot/efi"));
    assert!(matches!(&plan[3], NixAction::SetLocale(l) if l == "en_US.UTF-8 UTF-8 de_DE.UTF-8 UTF-8"));
    assert!(matches!(&plan[4], NixAction::SetKeyboard(v, x) if v == "us" && x == "us"));
    assert!(matches!(&plan[5], NixAction::SetTimezone(t) if t == "Europe/Berlin"));
    assert!(matches!(&plan[6], NixAction::SetHostname(h) if h == "athena"));
    assert!(matches!(plan[7], NixAction::EnableIpv6));
    assert!(matches!(plan[8], NixAction::InstallZram));
    assert!(matches!(plan[9], NixAction::Desktop(NixDesktop::Gnome)));
    assert!(matches!(plan[10], NixAction::Theme(NixTheme::Sweet)));
    assert!(matches!(plan[11], NixAction::DisplayManager(NixDisplayManager::Gdm)));
    assert!(matches!(plan[12], NixAction::Browser(NixBrowser::Firefox)));
    assert!(matches!(plan[13], NixAction::Terminal(NixTerminal::Kitty)));
    assert!(matches!(plan[14], NixAction::Flatpak));
    assert!(matches!(plan[15], NixAction::Shell(ShellSetup::Fish)));
    assert!(matches!(&plan[16], NixAction::NewUser(n, p) if n == "alice" && p == "h1"));
    assert!(matches!(plan[17], NixAction::Shell(ShellSetup::Zsh)));
    assert!(matches!(&plan[18], NixAction::NewUser(n, _) if n == "bob"));
    assert!(matches!(&plan[19], NixAction::RootPass(p) if p == "r"));
    assert!(matches!(plan[20], NixAction::Install));
    assert!(matches!(plan[21], NixAction::CopyConnections));
    assert!(matches!(plan[22], NixAction::CreateLogDir));
    assert!(matches!(plan[23], NixAction::CopyLog));
    assert!(matches!(plan[24], NixAction::Unmount("/mnt/boot/efi")));
    assert!(matches!(plan[25], NixAction::Unmount("/mnt/home")));
    assert!(matches!(plan[26], NixAction::Unmount("/mnt")));
    assert_eq!(d.len(), 27);
}

#[test]
fn unknown_names_choose_no_setup() {
    let mut c = nix_config();
    c.desktop = "KDE Plasma".to_string();
    c.theme = "unknown".to_string();
    c.displaymanager = "sddm".to_string();
    c.browser = "brave".to_string();
    c.terminal = "xterm".to_string();
    c.flatpak = false;
    c.networking.ipv6 = false;
    c.zramd = false;
    c.bootloader.kind = "grub-legacy".to_string();
    c.bootloader.location = "/dev/sda".to_string();
    c.users[0].shell = "nu".to_string();
    let plan = nix_install_plan(&c);
    assert!(matches!(&plan[2], NixAction::BootloaderLegacy(l) if l == "/dev/sda"));
    assert!(matches!(&plan[7], NixAction::NewUser(n, _) if n == "alice"));
    assert!(matches!(plan[8], NixAction::Shell(ShellSetup::Zsh)));
    assert!(matches!(plan[plan.len() - 3], NixAction::Unmount("/mnt/boot")));
    assert_eq!(plan.len(), 18);
}
