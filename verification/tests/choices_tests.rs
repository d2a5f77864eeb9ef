use aegis::arch::browsers::{install_browser_setup, BrowserSetup};
use aegis::arch::desktops::{configure_gnome, install_desktop_setup, DesktopSetup};
use aegis::arch::displaymanagers::{configure_gdm, configure_lightdm_neon, install_dm_setup, DMSetup};
use aegis::arch::shells::{install_shell_setup, ShellSetup};
use aegis::arch::steps::SystemStep;
use aegis::arch::terminals::{install_terminal_setup, TerminalSetup};
use aegis::arch::themes::{configure_theme, install_theme_setup, ThemeSetup};
use aegis::backend::{self, parse_partitions};
use aegis::fedora;
use aegis::installer_desktops::{enable_dm, install_desktop_setup as generic_desktop, install_networkmanager};

#[test]
fn arch_packages_per_choice() {
    assert_eq!(install_desktop_setup(DesktopSetup::Gnome), vec!["athena-gnome-config"]);
    assert_eq!(install_desktop_setup(DesktopSetup::Hyprland), vec!["athena-hyprland-config"]);
    assert!(install_desktop_setup(DesktopSetup::NoneSelected).is_empty());
    assert_eq!(install_dm_setup(DMSetup::Gdm).len() > 0, true);
    assert!(install_dm_setup(DMSetup::NoneSelected).is_empty());
    assert!(install_browser_setup(BrowserSetup::NoneSelected).is_empty());
    assert!(!install_browser_setup(BrowserSetup::Firefox).is_empty());
    assert!(install_shell_setup(ShellSetup::NoneSelected).is_empty());
    assert!(!install_terminal_setup(TerminalSetup::Kitty).is_empty());
    assert!(install_theme_setup(ThemeSetup::NoneSelected).is_empty());
    assert_eq!(install_theme_setup(ThemeSetup::Temple), vec!["athena-temple-theme"]);
}

#[test]
fn gnome_hides_its_stock_sessions() {
    let steps = configure_gnome();
    assert_eq!(steps.len(), 7);
    assert!(matches!(&steps[0], SystemStep::Rename { from, .. } if from == "/mnt/usr/share/xsessions/gnome.desktop"));
    assert!(matches!(
        &steps[6],
        SystemStep::Rename { to, .. } if to == "/mnt/usr/share/wayland-sessions/gnome-classic-wayland.desktop.disable"
    ));
}

#[test]
fn gdm_depends_on_the_desktop() {
    let with_gnome = configure_gdm("gnome");
    assert_eq!(with_gnome.len(), 2);
    assert!(matches!(&with_gnome[0], SystemStep::EditFile { replacement, .. } if replacement == "WaylandEnable=false"));
    assert!(matches!(with_gnome[1], SystemStep::EnableService("gdm")));
    let other = configure_gdm("kde plasma");
    assert_eq!(other.len(), 6);
    assert!(matches!(&other[0], SystemStep::Rename { to, .. } if to == "/mnt/usr/lib/udev/rules.d/61-gdm.rules.bak"));
    assert!(matches!(other[5], SystemStep::EnableService("gdm")));
}

#[test]
fn lightdm_sessions() {
    let xfce = configure_lightdm_neon("xfce picom");
    assert_eq!(xfce.len(), 2);
    assert!(matches!(&xfce[0], SystemStep::EditFile { replacement, .. } if replacement == "user-session=xfce"));
    let hypr = configure_lightdm_neon("hyprland");
    assert!(matches!(&hypr[0], SystemStep::EditFile { replacement, .. } if replacement == "user-session=Hyprland"));
    let plain = configure_lightdm_neon("i3");
    assert_eq!(plain.len(), 1);
    assert!(matches!(plain[0], SystemStep::EnableService("lightdm")));
}

#[test]
fn theme_edits() {
    let steps = configure_theme(ThemeSetup::Sweet);
    assert_eq!(steps.len(), 2);
    assert!(matches!(&steps[0], SystemStep::EditFile { replacement, .. } if replacement == "\"workbench.colorTheme\": \"Radical\","));
    assert!(matches!(&steps[1], SystemStep::EditFile { replacement, .. } if replacement == "set -g @tmux_power_theme 'violet'"));
    assert!(configure_theme(ThemeSetup::NoneSelected).is_empty());
}

#[test]
fn fedora_base_and_services() {
    let r = fedora::base::base_package_list(vec!["vim"], "btrfs\n");
    assert_eq!(r[0], "vim");
    assert_eq!(r[1], "kernel");
    assert_eq!(*r.last().unwrap(), "btrfs-progs");
    assert_eq!(r.len(), 10);
    let plain = fedora::base::base_package_list(vec![], "ext4");
    assert_eq!(plain.len(), 8);
    assert_eq!(fedora::base::enable_system_services(), vec!["auditd", "bluetooth", "crond", "irqbalance", "NetworkManager", "vnstat"]);
}

#[test]
fn fedora_hardware() {
    let (p, s, e) = fedora::hardware::virt_check("microsoft\n");
    assert_eq!(p, vec!["hyperv-tools"]);
    assert!(s.is_empty());
    assert_eq!(e.len(), 1);
    let (p, s, _) = fedora::hardware::virt_check("vmware\n");
    assert_eq!(p, vec!["open-vm-tools", "xorg-x11-drv-vmware"]);
    assert_eq!(s, vec!["vmtoolsd"]);
    assert_eq!(fedora::hardware::cpu_gpu_check("AuthenticAMD", "NVIDIA"), vec![
        "amd-ucode-firmware",
        "nvidia-gpu-firmware",
        "gwe",
        "nvtop"
    ]);
    assert_eq!(fedora::hardware::cpu_gpu_check("GenuineIntel", "ATI"), vec!["intel-compute-runtime", "mesa-libOpenCL"]);
}

#[test]
fn fedora_browsers() {
    assert!(fedora::browsers::install_browser_setup(BrowserSetup::NoneSelected).is_empty());
    assert_eq!(fedora::browsers::install_browser_setup(BrowserSetup::Firefox), fedora::browsers::install_firefox());
    assert_eq!(fedora::browsers::install_browser_setup(BrowserSetup::Brave), fedora::browsers::install_brave());
}

#[test]
fn generic_desktops() {
    let kde = generic_desktop(backend::DesktopSetup::Kde);
    assert_eq!(kde.display_manager, Some("sddm"));
    assert!(kde.packages.contains(&"plasma"));
    assert!(kde.appends.is_empty());
    let i3 = generic_desktop(backend::DesktopSetup::I3);
    assert_eq!(i3.display_manager, Some("lightdm"));
    assert_eq!(i3.appends.len(), 3);
    assert_eq!(i3.appends[1].0, "/mnt/etc/i3/config");
    let none = generic_desktop(backend::DesktopSetup::NoneSelected);
    assert!(none.packages.is_empty() && none.appends.is_empty() && none.display_manager.is_none());
    assert_eq!(none.network, (vec!["networkmanager"], "NetworkManager"));
    assert_eq!(kde.network, (vec!["networkmanager"], "NetworkManager"));
    assert_eq!(install_networkmanager(), (vec!["networkmanager"], "NetworkManager"));
    assert_eq!(enable_dm("gdm"), vec!["enable", "gdm"]);
}

#[test]
fn backend_partition_argument() {
    let p = parse_partitions("/boot:/dev/sda1:vfat:ignored").unwrap();
    assert_eq!(p.mountpoint, "/boot");
    assert_eq!(p.blockdevice, "/dev/sda1");
    assert_eq!(p.filesystem, "vfat");
}
