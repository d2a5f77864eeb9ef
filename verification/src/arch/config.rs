//! The unattended installation that a configuration file describes: the
//! packages it installs and the steps that set up the system, in order.
use vstd::prelude::*;
use crate::arch::browsers::{browser_packages, install_browser_setup, BrowserSetup};
use crate::arch::desktops::{desktop_packages, install_desktop_setup, DesktopSetup};
use crate::arch::displaymanagers::{dm_packages, install_dm_setup, DMSetup};
use crate::arch::shells::{install_shell_setup, shell_packages, ShellSetup};
use crate::arch::steps::{
    append_steps, disable_step, disable_wsession, disable_xsession, edit_file, specs_view, steps_view,
    PartitionSpec, PartitionSpecView, StepView, SystemStep,
};
use crate::arch::terminals::{install_terminal_setup, terminal_packages, TerminalSetup};
use crate::arch::themes::{install_theme_setup, theme_packages, ThemeSetup};
use crate::arch::base::{system_services, enable_system_services};
use crate::arch::desktops::{configure_gnome, gnome_disable_steps};
use crate::arch::displaymanagers::{configure_gdm, configure_lightdm_neon, gdm_steps, lightdm_session_steps};
use crate::arch::steps::{edit_view, strings_of};
use crate::arch::themes::{configure_theme, theme_steps};
use crate::backend::PartitionMode;
use crate::text::{
    contains, contains_seq, join, owned, seq_join, split_char, split_seq, str_eq, strings_view, to_lowercase,
    unicode_lowercase,
};

verus! {

// ---------------------------------------------------------------------------
// The configuration
// ---------------------------------------------------------------------------

/// Target disk and how to partition it.
#[derive(Debug)]
pub struct PartitionConfig {
    pub device: String,
    pub mode: PartitionMode,
    pub encrypt_check: bool,
    pub efi: bool,
    pub swap: bool,
    pub swap_size: String,
    /// Entries `mountpoint:blockdevice:filesystem:encrypt`.
    pub partitions: Vec<String>,
}

/// Bootloader kind (`grub-efi` or `grub-legacy`) and where it goes.
#[derive(Debug)]
pub struct BootloaderConfig {
    pub kind: String,
    pub location: String,
}

#[derive(Debug)]
pub struct LocaleConfig {
    pub locale: Vec<String>,
    pub virtkeymap: String,
    pub x11keymap: String,
    pub timezone: String,
}

#[derive(Debug)]
pub struct NetworkingConfig {
    pub hostname: String,
    pub ipv6: bool,
}

#[derive(Debug)]
pub struct UserConfig {
    pub name: String,
    pub password: String,
    pub hasroot: bool,
    pub shell: String,
}

/// An installation as the configuration file describes it.
#[derive(Debug)]
pub struct InstallConfig {
    pub partition: PartitionConfig,
    pub bootloader: BootloaderConfig,
    pub locale: LocaleConfig,
    pub networking: NetworkingConfig,
    pub users: Vec<UserConfig>,
    pub rootpass: String,
    pub desktop: String,
    pub theme: String,
    pub displaymanager: String,
    pub browser: String,
    pub terminal: String,
    pub flatpak: bool,
    pub zramd: bool,
    pub extra_packages: Vec<String>,
    pub kernel: String,
}

// ---------------------------------------------------------------------------
// Partition entries
// ---------------------------------------------------------------------------

/// The boolean that `bool::from_str` reads.
pub open spec fn bool_text(s: Seq<char>) -> Option<bool> {
    if s == "true"@ {
        Some(true)
    } else if s == "false"@ {
        Some(false)
    } else {
        None
    }
}

/// An entry `mountpoint:blockdevice:filesystem:encrypt`; later fields are
/// ignored, and there is none without four fields and a boolean fourth.
pub open spec fn partition_entry(s: Seq<char>) -> Option<PartitionSpecView> {
    let f = split_seq(s, ':');
    if f.len() < 4 {
        None
    } else {
        match bool_text(f[3]) {
            Some(b) => Some(PartitionSpecView { mountpoint: f[0], blockdevice: f[1], filesystem: f[2], encrypt: b }),
            None => None,
        }
    }
}

/// Reads a partition entry of the configuration.
pub fn parse_partition_entry(s: &str) -> (r: Option<PartitionSpec>)
    ensures
        match r {
            Some(p) => partition_entry(s@) == Some(p@),
            None => partition_entry(s@) is None,
        },
{
    let f = split_char(s, ':');
    if f.len() < 4 {
        return None;
    }
    assert(strings_view(f@)[3] == f@[3]@);
    let encrypt = if str_eq(f[3].as_str(), "true") {
        true
    } else if str_eq(f[3].as_str(), "false") {
        false
    } else {
        return None;
    };
    assert(strings_view(f@)[0] == f@[0]@);
    assert(strings_view(f@)[1] == f@[1]@);
    assert(strings_view(f@)[2] == f@[2]@);
    Some(PartitionSpec {
        mountpoint: f[0].clone(),
        blockdevice: f[1].clone(),
        filesystem: f[2].clone(),
        encrypt,
    })
}

/// Every partition entry reads, and there is a first user.
pub open spec fn config_ok(c: InstallConfig) -> bool {
    &&& forall|i: int| 0 <= i < c.partition.partitions@.len() ==> (#[trigger] partition_entry(
        c.partition.partitions@[i]@,
    )) is Some
    &&& c.users@.len() > 0
}

/// Tells whether the configuration can be installed: its partition entries
/// read and it names a user.
pub fn check_config(c: &InstallConfig) -> (r: bool)
    ensures
        r == config_ok(*c),
{
    let mut i: usize = 0;
    while i < c.partition.partitions.len()
        invariant
            i <= c.partition.partitions@.len(),
            forall|k: int| 0 <= k < i ==> (#[trigger] partition_entry(c.partition.partitions@[k]@)) is Some,
        decreases c.partition.partitions@.len() - i,
    {
        match parse_partition_entry(c.partition.partitions[i].as_str()) {
            Some(_) => {},
            None => {
                return false;
            },
        }
        i = i + 1;
    }
    c.users.len() > 0
}

/// The partition entries read.
pub open spec fn parsed_partitions(c: InstallConfig) -> Seq<PartitionSpecView> {
    c.partition.partitions@.map_values(|s: String| partition_entry(s@)->0)
}

fn parse_all(entries: &Vec<String>) -> (r: Vec<PartitionSpec>)
    requires
        forall|i: int| 0 <= i < entries@.len() ==> (#[trigger] partition_entry(entries@[i]@)) is Some,
    ensures
        specs_view(r@) == entries@.map_values(|s: String| partition_entry(s@)->0),
{
    let mut r: Vec<PartitionSpec> = Vec::new();
    let mut i: usize = 0;
    while i < entries.len()
        invariant
            i <= entries@.len(),
            forall|i: int| 0 <= i < entries@.len() ==> (#[trigger] partition_entry(entries@[i]@)) is Some,
            specs_view(r@) == entries@.take(i as int).map_values(|s: String| partition_entry(s@)->0),
        decreases entries@.len() - i,
    {
        assert(partition_entry(entries@[i as int]@) is Some);
        match parse_partition_entry(entries[i].as_str()) {
            Some(p) => {
                let ghost before = r@;
                r.push(p);
                assert(specs_view(r@) =~= specs_view(before).push(p@));
            },
            None => {},
        }
        assert(entries@.take(i + 1) =~= entries@.take(i as int).push(entries@[i as int]));
        assert(specs_view(r@) =~= entries@.take(i + 1).map_values(|s: String| partition_entry(s@)->0));
        i = i + 1;
    }
    assert(entries@.take(entries@.len() as int) =~= entries@);
    r
}

// ---------------------------------------------------------------------------
// Choices by name
// ---------------------------------------------------------------------------

/// The desktop that a (lower-cased) name chooses.
pub open spec fn desktop_of(d: Seq<char>) -> Option<DesktopSetup> {
    if d == "onyx"@ {
        Some(DesktopSetup::Onyx)
    } else if d == "kde plasma"@ {
        Some(DesktopSetup::Kde)
    } else if d == "mate"@ {
        Some(DesktopSetup::Mate)
    } else if d == "gnome"@ {
        Some(DesktopSetup::Gnome)
    } else if d == "cinnamon"@ {
        Some(DesktopSetup::Cinnamon)
    } else if d == "xfce refined"@ {
        Some(DesktopSetup::XfceRefined)
    } else if d == "xfce picom"@ {
        Some(DesktopSetup::XfcePicom)
    } else if d == "budgie"@ {
        Some(DesktopSetup::Budgie)
    } else if d == "enlightenment"@ {
        Some(DesktopSetup::Enlightenment)
    } else if d == "lxqt"@ {
        Some(DesktopSetup::Lxqt)
    } else if d == "sway"@ {
        Some(DesktopSetup::Sway)
    } else if d == "i3"@ {
        Some(DesktopSetup::I3)
    } else if d == "herbstluftwm"@ {
        Some(DesktopSetup::Herbstluftwm)
    } else if d == "awesome"@ {
        Some(DesktopSetup::Awesome)
    } else if d == "bspwm"@ {
        Some(DesktopSetup::Bspwm)
    } else if d == "hyprland"@ {
        Some(DesktopSetup::Hyprland)
    } else if d == "none"@ {
        Some(DesktopSetup::NoneSelected)
    } else {
        None
    }
}

fn desktop_by_name(d: &str) -> (r: Option<DesktopSetup>)
    ensures
        r == desktop_of(d@),
{
    if str_eq(d, "onyx") {
        Some(DesktopSetup::Onyx)
    } else if str_eq(d, "kde plasma") {
        Some(DesktopSetup::Kde)
    } else if str_eq(d, "mate") {
        Some(DesktopSetup::Mate)
    } else if str_eq(d, "gnome") {
        Some(DesktopSetup::Gnome)
    } else if str_eq(d, "cinnamon") {
        Some(DesktopSetup::Cinnamon)
    } else if str_eq(d, "xfce refined") {
        Some(DesktopSetup::XfceRefined)
    } else if str_eq(d, "xfce picom") {
        Some(DesktopSetup::XfcePicom)
    } else if str_eq(d, "budgie") {
        Some(DesktopSetup::Budgie)
    } else if str_eq(d, "enlightenment") {
        Some(DesktopSetup::Enlightenment)
    } else if str_eq(d, "lxqt") {
        Some(DesktopSetup::Lxqt)
    } else if str_eq(d, "sway") {
        Some(DesktopSetup::Sway)
    } else if str_eq(d, "i3") {
        Some(DesktopSetup::I3)
    } else if str_eq(d, "herbstluftwm") {
        Some(DesktopSetup::Herbstluftwm)
    } else if str_eq(d, "awesome") {
        Some(DesktopSetup::Awesome)
    } else if str_eq(d, "bspwm") {
        Some(DesktopSetup::Bspwm)
    } else if str_eq(d, "hyprland") {
        Some(DesktopSetup::Hyprland)
    } else if str_eq(d, "none") {
        Some(DesktopSetup::NoneSelected)
    } else {
        None
    }
}

/// The display manager that a (lower-cased) name chooses.
pub open spec fn dm_of(d: Seq<char>) -> Option<DMSetup> {
    if d == "gdm"@ {
        Some(DMSetup::Gdm)
    } else if d == "lightdm neon"@ {
        Some(DMSetup::LightDMNeon)
    } else if d == "sddm"@ {
        Some(DMSetup::Sddm)
    } else {
        None
    }
}

fn dm_by_name(d: &str) -> (r: Option<DMSetup>)
    ensures
        r == dm_of(d@),
{
    if str_eq(d, "gdm") {
        Some(DMSetup::Gdm)
    } else if str_eq(d, "lightdm neon") {
        Some(DMSetup::LightDMNeon)
    } else if str_eq(d, "sddm") {
        Some(DMSetup::Sddm)
    } else {
        None
    }
}

/// The browser that a (lower-cased) name chooses.
pub open spec fn browser_of(b: Seq<char>) -> Option<BrowserSetup> {
    if b == "firefox"@ {
        Some(BrowserSetup::Firefox)
    } else if b == "brave"@ {
        Some(BrowserSetup::Brave)
    } else {
        None
    }
}

fn browser_by_name(b: &str) -> (r: Option<BrowserSetup>)
    ensures
        r == browser_of(b@),
{
    if str_eq(b, "firefox") {
        Some(BrowserSetup::Firefox)
    } else if str_eq(b, "brave") {
        Some(BrowserSetup::Brave)
    } else {
        None
    }
}

/// The terminal that a (lower-cased) name chooses, with the command that starts it.
pub open spec fn terminal_of(t: Seq<char>) -> Option<(TerminalSetup, Seq<char>)> {
    if t == "alacritty"@ {
        Some((TerminalSetup::Alacritty, "alacritty"@))
    } else if t == "cool retro term"@ {
        Some((TerminalSetup::CoolRetroTerm, "cool-retro-term"@))
    } else if t == "foot"@ {
        Some((TerminalSetup::Foot, "foot"@))
    } else if t == "gnome terminal"@ {
        Some((TerminalSetup::GnomeTerminal, "gnome-terminal"@))
    } else if t == "kitty"@ {
        Some((TerminalSetup::Kitty, "kitty"@))
    } else if t == "konsole"@ {
        Some((TerminalSetup::Konsole, "konsole"@))
    } else if t == "terminator"@ {
        Some((TerminalSetup::Terminator, "terminator"@))
    } else if t == "terminology"@ {
        Some((TerminalSetup::Terminology, "terminology"@))
    } else if t == "urxvt"@ {
        Some((TerminalSetup::Urxvt, "urxvt"@))
    } else if t == "xfce"@ {
        Some((TerminalSetup::Xfce, "xfce4-terminal"@))
    } else if t == "xterm"@ {
        Some((TerminalSetup::Xterm, "xterm"@))
    } else {
        None
    }
}

fn terminal_by_name(t: &str) -> (r: Option<(TerminalSetup, &'static str)>)
    ensures
        match r {
            Some((s, c)) => terminal_of(t@) == Some((s, c@)),
            None => terminal_of(t@) is None,
        },
{
    if str_eq(t, "alacritty") {
        Some((TerminalSetup::Alacritty, "alacritty"))
    } else if str_eq(t, "cool retro term") {
        Some((TerminalSetup::CoolRetroTerm, "cool-retro-term"))
    } else if str_eq(t, "foot") {
        Some((TerminalSetup::Foot, "foot"))
    } else if str_eq(t, "gnome terminal") {
        Some((TerminalSetup::GnomeTerminal, "gnome-terminal"))
    } else if str_eq(t, "kitty") {
        Some((TerminalSetup::Kitty, "kitty"))
    } else if str_eq(t, "konsole") {
        Some((TerminalSetup::Konsole, "konsole"))
    } else if str_eq(t, "terminator") {
        Some((TerminalSetup::Terminator, "terminator"))
    } else if str_eq(t, "terminology") {
        Some((TerminalSetup::Terminology, "terminology"))
    } else if str_eq(t, "urxvt") {
        Some((TerminalSetup::Urxvt, "urxvt"))
    } else if str_eq(t, "xfce") {
        Some((TerminalSetup::Xfce, "xfce4-terminal"))
    } else if str_eq(t, "xterm") {
        Some((TerminalSetup::Xterm, "xterm"))
    } else {
        None
    }
}

/// The theme that a (lower-cased) name chooses.
pub open spec fn theme_of(t: Seq<char>) -> Option<ThemeSetup> {
    if t == "cyborg"@ {
        Some(ThemeSetup::Cyborg)
    } else if t == "graphite"@ {
        Some(ThemeSetup::Graphite)
    } else if t == "hackthebox"@ {
        Some(ThemeSetup::HackTheBox)
    } else if t == "samurai"@ {
        Some(ThemeSetup::Samurai)
    } else if t == "sweet"@ {
        Some(ThemeSetup::Sweet)
    } else if t == "temple"@ {
        Some(ThemeSetup::Temple)
    } else {
        None
    }
}

fn theme_by_name(t: &str) -> (r: Option<ThemeSetup>)
    ensures
        r == theme_of(t@),
{
    if str_eq(t, "cyborg") {
        Some(ThemeSetup::Cyborg)
    } else if str_eq(t, "graphite") {
        Some(ThemeSetup::Graphite)
    } else if str_eq(t, "hackthebox") {
        Some(ThemeSetup::HackTheBox)
    } else if str_eq(t, "samurai") {
        Some(ThemeSetup::Samurai)
    } else if str_eq(t, "sweet") {
        Some(ThemeSetup::Sweet)
    } else if str_eq(t, "temple") {
        Some(ThemeSetup::Temple)
    } else {
        None
    }
}

/// The shell that a (lower-cased) name chooses.
pub open spec fn shell_of(s: Seq<char>) -> Option<ShellSetup> {
    if s == "bash"@ {
        Some(ShellSetup::Bash)
    } else if s == "fish"@ {
        Some(ShellSetup::Fish)
    } else if s == "zsh"@ {
        Some(ShellSetup::Zsh)
    } else {
        None
    }
}

fn shell_by_name(s: &str) -> (r: Option<ShellSetup>)
    ensures
        r == shell_of(s@),
{
    if str_eq(s, "bash") {
        Some(ShellSetup::Bash)
    } else if str_eq(s, "fish") {
        Some(ShellSetup::Fish)
    } else if str_eq(s, "zsh") {
        Some(ShellSetup::Zsh)
    } else {
        None
    }
}

// ---------------------------------------------------------------------------
// Packages
// ---------------------------------------------------------------------------

/// The packages that every installation gets.
pub open spec fn base_set() -> Seq<&'static str> {
    seq![
        "linux-firmware",
        "systemd-sysvcompat",
        "networkmanager",
        "network-manager-applet",
        "man-db",
        "man-pages",
        "texinfo",
        "nano",
        "sudo",
        "curl",
        "accountsservice",
        "alacritty",
        "alsa-utils",
        "arch-install-scripts",
        "broadcom-wl-dkms",
        "dhcpcd",
        "dialog",
        "dosfstools",
        "edk2-shell",
        "inetutils",
        "irqbalance",
        "lvm2",
        "memtest86+",
        "mesa",
        "mesa-utils",
        "mkinitcpio-nfs-utils",
        "mkinitcpio-openswap",
        "most",
        "mtools",
        "nbd",
        "net-tools",
        "netctl",
        "nfs-utils",
        "nohang",
        "nss-mdns",
        "ntfsprogs",
        "ntp",
        "pavucontrol",
        "profile-sync-daemon",
        "pv",
        "rsync",
        "rtl8821cu-morrownr-dkms-git",
        "sof-firmware",
        "squashfs-tools",
        "syslinux",
        "testdisk",
        "timelineproject-hg",
        "usbutils",
        "wireless_tools",
        "wpa_supplicant",
        "xfsprogs",
        "noto-fonts",
        "noto-fonts-emoji",
        "noto-fonts-cjk",
        "pipewire",
        "pipewire-pulse",
        "pipewire-alsa",
        "pipewire-jack",
        "wireplumber",
        "ntfs-3g",
        "vi",
        "eza",
        "pocl",
        "ananicy",
        "goofcord-bin",
        "asciinema",
        "bashtop",
        "bat",
        "bc",
        "bless",
        "chatgpt-desktop-bin",
        "cmatrix",
        "cowsay",
        "cron",
        "cyberchef-electron",
        "downgrade",
        "eog",
        "espeakup",
        "figlet",
        "figlet-fonts",
        "file-roller",
        "fortune-mod",
        "git",
        "gparted",
        "grub-customizer",
        "gtk-engine-murrine",
        "gvfs-gphoto2",
        "gvfs-mtp",
        "hexedit",
        "imagemagick",
        "jq",
        "lib32-glibc",
        "lolcat",
        "lsd",
        "mtpfs",
        "nano-syntax-highlighting",
        "nautilus",
        "ncdu",
        "networkmanager-openvpn",
        "nyancat",
        "octopi",
        "onionshare",
        "openbsd-netcat",
        "openvpn",
        "orca",
        "p7zip",
        "paru",
        "pfetch",
        "polkit",
        "python-pywhat",
        "reflector",
        "sl",
        "superbfetch-git",
        "textart",
        "tidy",
        "tk",
        "toilet-fonts",
        "torbrowser-launcher",
        "tree",
        "ufw",
        "unzip",
        "vnstat",
        "wget",
        "which",
        "xclip",
        "xmlstarlet",
        "zoxide",
        "athena-cyber-hub",
        "athena-neofetch-config",
        "athena-nvim-config",
        "athena-powershell-config",
        "athena-config",
        "athena-theme-tweak",
        "athena-tmux-config",
        "athena-vim-config",
        "athena-vscodium-themes",
        "athena-welcome",
        "htb-toolkit",
        "nist-feed",
    ]
}

/// Packages of the users' shells, user by user.
pub open spec fn shells_packages(users: Seq<UserConfig>) -> Seq<&'static str>
    decreases users.len(),
{
    if users.len() == 0 {
        Seq::empty()
    } else {
        shells_packages(users.drop_last()) + match shell_of(unicode_lowercase(users.last().shell@)) {
            Some(s) => shell_packages(s),
            None => Seq::empty(),
        }
    }
}

/// The packages of the choices of a configuration (names compared lower-cased).
pub open spec fn choice_packages(c: InstallConfig) -> Seq<&'static str> {
    (match desktop_of(unicode_lowercase(c.desktop@)) {
        Some(d) => desktop_packages(d),
        None => Seq::empty(),
    }) + (match dm_of(unicode_lowercase(c.displaymanager@)) {
        Some(d) => dm_packages(d),
        None => Seq::empty(),
    }) + (match browser_of(unicode_lowercase(c.browser@)) {
        Some(b) => browser_packages(b),
        None => Seq::empty(),
    }) + (match terminal_of(unicode_lowercase(c.terminal@)) {
        Some(t) => terminal_packages(t.0),
        None => Seq::empty(),
    }) + (match theme_of(unicode_lowercase(c.theme@)) {
        Some(t) => theme_packages(t),
        None => Seq::empty(),
    })
}

/// Everything that the installation puts on the system before configuring it.
pub open spec fn package_set_spec(c: InstallConfig) -> Seq<&'static str> {
    base_set() + seq!["grub", "os-prober", "athena-grub-theme"] + (if c.bootloader.kind@ == "grub-efi"@ {
        seq!["efibootmgr"]
    } else {
        Seq::empty()
    }) + choice_packages(c) + (if c.zramd {
        seq!["zram-generator"]
    } else {
        Seq::empty()
    }) + (if c.flatpak {
        seq!["flatpak"]
    } else {
        Seq::empty()
    }) + shells_packages(c.users@)
}

fn push_all(v: &mut Vec<&'static str>, items: Vec<&'static str>)
    ensures
        final(v)@ == old(v)@ + items@,
{
    let mut items = items;
    let ghost it = items@;
    v.append(&mut items);
}

fn base_set_exec() -> (r: Vec<&'static str>)
    ensures
        r@ == base_set(),
{
    let r = vec![
        "linux-firmware",
        "systemd-sysvcompat",
        "networkmanager",
        "network-manager-applet",
        "man-db",
        "man-pages",
        "texinfo",
        "nano",
        "sudo",
        "curl",
        "accountsservice",
        "alacritty",
        "alsa-utils",
        "arch-install-scripts",
        "broadcom-wl-dkms",
        "dhcpcd",
        "dialog",
        "dosfstools",
        "edk2-shell",
        "inetutils",
        "irqbalance",
        "lvm2",
        "memtest86+",
        "mesa",
        "mesa-utils",
        "mkinitcpio-nfs-utils",
        "mkinitcpio-openswap",
        "most",
        "mtools",
        "nbd",
        "net-tools",
        "netctl",
        "nfs-utils",
        "nohang",
        "nss-mdns",
        "ntfsprogs",
        "ntp",
        "pavucontrol",
        "profile-sync-daemon",
        "pv",
        "rsync",
        "rtl8821cu-morrownr-dkms-git",
        "sof-firmware",
        "squashfs-tools",
        "syslinux",
        "testdisk",
        "timelineproject-hg",
        "usbutils",
        "wireless_tools",
        "wpa_supplicant",
        "xfsprogs",
        "noto-fonts",
        "noto-fonts-emoji",
        "noto-fonts-cjk",
        "pipewire",
        "pipewire-pulse",
        "pipewire-alsa",
        "pipewire-jack",
        "wireplumber",
        "ntfs-3g",
        "vi",
        "eza",
        "pocl",
        "ananicy",
        "goofcord-bin",
        "asciinema",
        "bashtop",
        "bat",
        "bc",
        "bless",
        "chatgpt-desktop-bin",
        "cmatrix",
        "cowsay",
        "cron",
        "cyberchef-electron",
        "downgrade",
        "eog",
        "espeakup",
        "figlet",
        "figlet-fonts",
        "file-roller",
        "fortune-mod",
        "git",
        "gparted",
        "grub-customizer",
        "gtk-engine-murrine",
        "gvfs-gphoto2",
        "gvfs-mtp",
        "hexedit",
        "imagemagick",
        "jq",
        "lib32-glibc",
        "lolcat",
        "lsd",
        "mtpfs",
        "nano-syntax-highlighting",
        "nautilus",
        "ncdu",
        "networkmanager-openvpn",
        "nyancat",
        "octopi",
        "onionshare",
        "openbsd-netcat",
        "openvpn",
        "orca",
        "p7zip",
        "paru",
        "pfetch",
        "polkit",
        "python-pywhat",
        "reflector",
        "sl",
        "superbfetch-git",
        "textart",
        "tidy",
        "tk",
        "toilet-fonts",
        "torbrowser-launcher",
        "tree",
        "ufw",
        "unzip",
        "vnstat",
        "wget",
        "which",
        "xclip",
        "xmlstarlet",
        "zoxide",
        "athena-cyber-hub",
        "athena-neofetch-config",
        "athena-nvim-config",
        "athena-powershell-config",
        "athena-config",
        "athena-theme-tweak",
        "athena-tmux-config",
        "athena-vim-config",
        "athena-vscodium-themes",
        "athena-welcome",
        "htb-toolkit",
        "nist-feed",
    ];
    assert(r@ =~= base_set());
    r
}

fn choice_packages_exec(c: &InstallConfig) -> (r: Vec<&'static str>)
    ensures
        r@ == choice_packages(*c),
{
    let mut r: Vec<&'static str> = Vec::new();
    let d = to_lowercase(c.desktop.as_str());
    match desktop_by_name(d.as_str()) {
        Some(s) => push_all(&mut r, install_desktop_setup(s)),
        None => {},
    }
    let dm = to_lowercase(c.displaymanager.as_str());
    match dm_by_name(dm.as_str()) {
        Some(s) => push_all(&mut r, install_dm_setup(s)),
        None => {},
    }
    let b = to_lowercase(c.browser.as_str());
    match browser_by_name(b.as_str()) {
        Some(s) => push_all(&mut r, install_browser_setup(s)),
        None => {},
    }
    let t = to_lowercase(c.terminal.as_str());
    match terminal_by_name(t.as_str()) {
        Some((s, _)) => push_all(&mut r, install_terminal_setup(s)),
        None => {},
    }
    let th = to_lowercase(c.theme.as_str());
    match theme_by_name(th.as_str()) {
        Some(s) => push_all(&mut r, install_theme_setup(s)),
        None => {},
    }
    assert(r@ =~= choice_packages(*c));
    r
}

/// The packages that an installation puts on the system: the base set,
/// bootloader, the chosen desktop, display manager, browser, terminal and
/// theme, zram and flatpak when asked for, and each user's shell.
pub fn package_set(c: &InstallConfig) -> (r: Vec<&'static str>)
    ensures
        r@ == package_set_spec(*c),
{
    let mut r = base_set_exec();
    push_all(&mut r, vec!["grub", "os-prober", "athena-grub-theme"]);
    if str_eq(c.bootloader.kind.as_str(), "grub-efi") {
        r.push("efibootmgr");
    }
    push_all(&mut r, choice_packages_exec(c));
    if c.zramd {
        r.push("zram-generator");
    }
    if c.flatpak {
        r.push("flatpak");
    }
    let ghost before_shells = r@;
    let mut i: usize = 0;
    while i < c.users.len()
        invariant
            i <= c.users@.len(),
            r@ == before_shells + shells_packages(c.users@.take(i as int)),
        decreases c.users@.len() - i,
    {
        assert(c.users@.take(i + 1).drop_last() =~= c.users@.take(i as int));
        let s = to_lowercase(c.users[i].shell.as_str());
        match shell_by_name(s.as_str()) {
            Some(sh) => push_all(&mut r, install_shell_setup(sh)),
            None => {},
        }
        assert(r@ =~= before_shells + shells_packages(c.users@.take(i + 1)));
        i = i + 1;
    }
    assert(c.users@.take(c.users@.len() as int) =~= c.users@);
    assert(r@ =~= package_set_spec(*c));
    r
}


// ---------------------------------------------------------------------------
// Configuration steps
// ---------------------------------------------------------------------------

/// The device path for a disk name: names under `/dev/` unless absolute.
pub open spec fn device_path(d: Seq<char>) -> Seq<char> {
    if d.len() > 0 && d[0] == '/' {
        d
    } else {
        "/dev/"@ + d
    }
}

/// The dconf edit that puts a browser in the GNOME shell menu.
pub open spec fn browser_dconf_step(b: BrowserSetup) -> Seq<StepView> {
    match b {
        BrowserSetup::Firefox => seq![
            edit_view(
                "/mnt/usr/share/athena-gnome-config/dconf-shell.ini"@,
                "\\{\\\\\"name\\\\\":\\\\\"Brave\\\\\",\\\\\"icon\\\\\":\\\\\"/usr/share/icons/hicolor/scalable/apps/brave.svg\\\\\",\\\\\"type\\\\\":\\\\\"Command\\\\\",\\\\\"data\\\\\":\\{\\\\\"command\\\\\":\\\\\"brave\\\\\"\\},\\\\\"angle\\\\\":-1\\}"@,
                "{\\\"name\\\":\\\"Firefox ESR\\\",\\\"icon\\\":\\\"/usr/share/icons/hicolor/scalable/apps/firefox-logo.svg\\\",\\\"type\\\":\\\"Command\\\",\\\"data\\\":{\\\"command\\\":\\\"firefox-esr\\\"},\\\"angle\\\":-1}"@,
                "Apply Browser info on dconf shell"@,
            ),
        ],
        BrowserSetup::Brave => seq![
            edit_view(
                "/mnt/usr/share/athena-gnome-config/dconf-shell.ini"@,
                "\\{\\\\\"name\\\\\":\\\\\"Firefox ESR\\\\\",\\\\\"icon\\\\\":\\\\\"/usr/share/icons/hicolor/scalable/apps/firefox-logo.svg\\\\\",\\\\\"type\\\\\":\\\\\"Command\\\\\",\\\\\"data\\\\\":\\{\\\\\"command\\\\\":\\\\\"firefox-esr\\\\\"\\},\\\\\"angle\\\\\":-1\\}"@,
                "{\\\"name\\\":\\\"Brave\\\",\\\"icon\\\":\\\"/usr/share/icons/hicolor/scalable/apps/brave.svg\\\",\\\"type\\\":\\\"Command\\\",\\\"data\\\":{\\\"command\\\":\\\"brave\\\"},\\\"angle\\\":-1}"@,
                "Apply Browser info on dconf shell"@,
            ),
        ],
        BrowserSetup::NoneSelected => seq![],
    }
}

/// The command that opens a program in the terminal: the terminal and its
/// execute flag (`--` for GNOME Terminal, `-e` otherwise).
pub open spec fn terminal_exec(choice: Seq<char>) -> Seq<char> {
    choice + " "@ + (if choice == "gnome-terminal"@ {
        "--"@
    } else {
        "-e"@
    })
}

/// The steps that make the chosen terminal the one the launchers open.
pub open spec fn terminal_steps(choice: Seq<char>, gnome: bool) -> Seq<StepView> {
    seq![
        StepView::Run {
            program: "sed"@,
            args: seq![
                "-i"@,
                "-e"@,
                "s/^TERMINAL_EXEC=.*/TERMINAL_EXEC=\""@ + terminal_exec(choice) + "\"/g"@,
                "/mnt/usr/bin/shell-rocket"@,
            ],
            description: "Set terminal on shell rocket"@,
        },
        edit_view(
            "/mnt/usr/share/applications/shell.desktop"@,
            "alacritty"@,
            choice,
            "Set terminal call on shell.desktop file"@,
        ),
    ] + (if gnome {
        seq![
            edit_view(
                "/mnt/usr/share/athena-gnome-config/dconf-shell.ini"@,
                "alacritty"@,
                choice,
                "Set terminal call on dconf file"@,
            ),
        ]
    } else {
        seq![]
    })
}

/// The edits that make the first user's shell the default one.
pub open spec fn shell_steps(shell: Seq<char>) -> Seq<StepView> {
    if shell == "fish"@ {
        seq![
            edit_view(
                "/mnt/usr/share/applications/shell.desktop"@,
                "Bash"@,
                "Fish"@,
                "Apply FISH shell on .desktop shell file"@,
            ),
            edit_view("/mnt/etc/skel/.bashrc"@, "export SHELL=.*"@, "export SHELL=$(which fish)"@, "Apply FISH shell"@),
        ]
    } else if shell == "zsh"@ {
        seq![
            edit_view(
                "/mnt/usr/share/applications/shell.desktop"@,
                "Bash"@,
                "Zsh"@,
                "Apply ZSH shell on .desktop shell file"@,
            ),
            edit_view("/mnt/etc/skel/.bashrc"@, "export SHELL=.*"@, "export SHELL=$(which zsh)"@, "Apply ZSH shell"@),
        ]
    } else {
        seq![]
    }
}

/// Account creation for each user, in order.
pub open spec fn user_steps(users: Seq<UserConfig>) -> Seq<StepView>
    decreases users.len(),
{
    if users.len() == 0 {
        Seq::empty()
    } else {
        user_steps(users.drop_last()).push(
            StepView::NewUser {
                name: users.last().name@,
                hasroot: users.last().hasroot,
                password: users.last().password@,
            },
        )
    }
}

/// The display manager's configuration for the chosen desktop.
pub open spec fn dm_steps(c: InstallConfig) -> Seq<StepView> {
    match dm_of(unicode_lowercase(c.displaymanager@)) {
        Some(DMSetup::Gdm) => gdm_steps(c.desktop@),
        Some(DMSetup::LightDMNeon) => lightdm_session_steps(c.desktop@).push(StepView::EnableService("lightdm"@)),
        Some(DMSetup::Sddm) => seq![StepView::EnableService("sddm"@)],
        _ => seq![],
    }
}

/// The services of the base system, enabled one by one.
pub open spec fn service_steps() -> Seq<StepView> {
    system_services().map_values(|s: &'static str| StepView::EnableService(s@))
}

/// The first steps: partitioning, the base install, the bootloader,
/// locale and host name.
pub open spec fn plan_head(c: InstallConfig) -> Seq<StepView> {
    seq![
        StepView::Partition {
            device: device_path(c.partition.device@),
            mode: c.partition.mode,
            encrypt: c.partition.encrypt_check,
            efi: c.partition.efi,
            swap: c.partition.swap,
            swap_size: c.partition.swap_size@,
            partitions: parsed_partitions(c),
        },
        StepView::InstallBase { kernel: c.kernel@, packages: package_set_spec(c) },
        StepView::GenFstab,
    ] + (if c.bootloader.kind@ == "grub-efi"@ {
        seq![StepView::BootloaderEfi { location: c.bootloader.location@, encrypt: c.partition.encrypt_check }]
    } else if c.bootloader.kind@ == "grub-legacy"@ {
        seq![StepView::BootloaderLegacy { location: c.bootloader.location@, encrypt: c.partition.encrypt_check }]
    } else {
        seq![]
    }) + seq![
        StepView::SetLocale(seq_join(strings_view(c.locale.locale@), " "@)),
        StepView::SetKeyboard { virtkeymap: c.locale.virtkeymap@, x11keymap: c.locale.x11keymap@ },
        StepView::SetTimezone(c.locale.timezone@),
        StepView::PresetProcess,
        StepView::SetHostname(c.networking.hostname@),
        StepView::CreateHosts,
    ]
}

/// The terminal that the configuration chooses, as a command (empty when unknown).
pub open spec fn terminal_choice_spec(c: InstallConfig) -> Seq<char> {
    match terminal_of(unicode_lowercase(c.terminal@)) {
        Some(t) => t.1,
        None => Seq::empty(),
    }
}

/// IPv6, zram, desktop and display manager settings.
pub open spec fn plan_system(c: InstallConfig) -> Seq<StepView> {
    (if c.networking.ipv6 {
        seq![StepView::EnableIpv6]
    } else {
        seq![]
    }) + (if c.zramd {
        seq![StepView::ConfigureZram]
    } else {
        seq![]
    }) + (if unicode_lowercase(c.desktop@) == "gnome"@ {
        gnome_disable_steps()
    } else {
        seq![]
    }) + dm_steps(c)
}

/// Browser, theme and terminal settings.
pub open spec fn plan_apps(c: InstallConfig) -> Seq<StepView> {
    let gnome = contains_seq(c.desktop@, "gnome"@);
    (match browser_of(unicode_lowercase(c.browser@)) {
        Some(b) => if gnome {
            browser_dconf_step(b)
        } else {
            seq![]
        },
        None => seq![],
    }) + (match theme_of(unicode_lowercase(c.theme@)) {
        Some(t) => theme_steps(t),
        None => seq![],
    }) + terminal_steps(terminal_choice_spec(c), gnome)
}

/// The middle steps: IPv6, zram, desktop, display manager, browser, theme
/// and terminal settings.
pub open spec fn plan_middle(c: InstallConfig) -> Seq<StepView> {
    plan_system(c) + plan_apps(c)
}

/// The last steps: flatpak, extra packages, services, the first user's
/// shell, the users, the root password and the log, then unmounting.
pub open spec fn plan_tail(c: InstallConfig) -> Seq<StepView> {
    let efi = c.bootloader.kind@ == "grub-efi"@;
    (if c.flatpak {
        seq![StepView::ConfigureFlatpak]
    } else {
        seq![]
    }) + seq![StepView::InstallExtra(strings_view(c.extra_packages@))] + service_steps() + shell_steps(
        unicode_lowercase(c.users@[0].shell@),
    ) + user_steps(c.users@) + seq![StepView::RootPass(c.rootpass@), StepView::CopyLog] + (if efi {
        seq![StepView::Umount("/mnt/boot"@)]
    } else {
        seq![]
    }) + seq![StepView::Umount("/mnt/home"@), StepView::Umount("/mnt"@)]
}

/// Everything the installation does, in order: partitioning, the base
/// install, the bootloader, locale, network, desktop, display manager,
/// browser, theme and terminal settings, extra packages, services, shells,
/// users, the root password and the log, then unmounting.
pub open spec fn install_plan(c: InstallConfig) -> Seq<StepView> {
    plan_head(c) + plan_middle(c) + plan_tail(c)
}

pub(crate) fn device_path_exec(d: &str) -> (r: String)
    ensures
        r@ == device_path(d@),
{
    let chars = crate::text::to_chars(d);
    if chars.len() > 0 && chars[0] == '/' {
        owned(d)
    } else {
        let mut r = owned("/dev/");
        r.append(d);
        r
    }
}

fn browser_dconf_exec(b: BrowserSetup) -> (r: Vec<SystemStep>)
    ensures
        steps_view(r@) == browser_dconf_step(b),
{
    let r = match b {
        BrowserSetup::Firefox => vec![
            edit_file(
                "/mnt/usr/share/athena-gnome-config/dconf-shell.ini",
                "\\{\\\\\"name\\\\\":\\\\\"Brave\\\\\",\\\\\"icon\\\\\":\\\\\"/usr/share/icons/hicolor/scalable/apps/brave.svg\\\\\",\\\\\"type\\\\\":\\\\\"Command\\\\\",\\\\\"data\\\\\":\\{\\\\\"command\\\\\":\\\\\"brave\\\\\"\\},\\\\\"angle\\\\\":-1\\}",
                "{\\\"name\\\":\\\"Firefox ESR\\\",\\\"icon\\\":\\\"/usr/share/icons/hicolor/scalable/apps/firefox-logo.svg\\\",\\\"type\\\":\\\"Command\\\",\\\"data\\\":{\\\"command\\\":\\\"firefox-esr\\\"},\\\"angle\\\":-1}",
                "Apply Browser info on dconf shell",
            ),
        ],
        BrowserSetup::Brave => vec![
            edit_file(
                "/mnt/usr/share/athena-gnome-config/dconf-shell.ini",
                "\\{\\\\\"name\\\\\":\\\\\"Firefox ESR\\\\\",\\\\\"icon\\\\\":\\\\\"/usr/share/icons/hicolor/scalable/apps/firefox-logo.svg\\\\\",\\\\\"type\\\\\":\\\\\"Command\\\\\",\\\\\"data\\\\\":\\{\\\\\"command\\\\\":\\\\\"firefox-esr\\\\\"\\},\\\\\"angle\\\\\":-1\\}",
                "{\\\"name\\\":\\\"Brave\\\",\\\"icon\\\":\\\"/usr/share/icons/hicolor/scalable/apps/brave.svg\\\",\\\"type\\\":\\\"Command\\\",\\\"data\\\":{\\\"command\\\":\\\"brave\\\"},\\\"angle\\\":-1}",
                "Apply Browser info on dconf shell",
            ),
        ],
        BrowserSetup::NoneSelected => Vec::new(),
    };
    assert(steps_view(r@) =~= browser_dconf_step(b));
    r
}

/// The `sed` expression that sets the terminal of the shell launcher.
fn terminal_exec_expr(choice: &str) -> (r: String)
    ensures
        r@ == "s/^TERMINAL_EXEC=.*/TERMINAL_EXEC=\""@ + terminal_exec(choice@) + "\"/g"@,
{
    let mut r = owned("s/^TERMINAL_EXEC=.*/TERMINAL_EXEC=\"");
    r.append(choice);
    r.append(" ");
    if str_eq(choice, "gnome-terminal") {
        r.append("--");
    } else {
        r.append("-e");
    }
    r.append("\"/g");
    r
}

fn terminal_steps_exec(choice: &str, gnome: bool) -> (r: Vec<SystemStep>)
    ensures
        steps_view(r@) == terminal_steps(choice@, gnome),
{
    let args = vec![owned("-i"), owned("-e"), terminal_exec_expr(choice), owned("/mnt/usr/bin/shell-rocket")];
    assert(strings_of(args@) =~= seq![
        "-i"@,
        "-e"@,
        "s/^TERMINAL_EXEC=.*/TERMINAL_EXEC=\""@ + terminal_exec(choice@) + "\"/g"@,
        "/mnt/usr/bin/shell-rocket"@,
    ]);
    let mut r = vec![
        SystemStep::Run { program: "sed", args, description: "Set terminal on shell rocket" },
        edit_file(
            "/mnt/usr/share/applications/shell.desktop",
            "alacritty",
            choice,
            "Set terminal call on shell.desktop file",
        ),
    ];
    if gnome {
        r.push(
            edit_file(
                "/mnt/usr/share/athena-gnome-config/dconf-shell.ini",
                "alacritty",
                choice,
                "Set terminal call on dconf file",
            ),
        );
    }
    assert(steps_view(r@) =~= terminal_steps(choice@, gnome));
    r
}

fn shell_steps_exec(shell: &str) -> (r: Vec<SystemStep>)
    ensures
        steps_view(r@) == shell_steps(shell@),
{
    let r = if str_eq(shell, "fish") {
        vec![
            edit_file(
                "/mnt/usr/share/applications/shell.desktop",
                "Bash",
                "Fish",
                "Apply FISH shell on .desktop shell file",
            ),
            edit_file("/mnt/etc/skel/.bashrc", "export SHELL=.*", "export SHELL=$(which fish)", "Apply FISH shell"),
        ]
    } else if str_eq(shell, "zsh") {
        vec![
            edit_file(
                "/mnt/usr/share/applications/shell.desktop",
                "Bash",
                "Zsh",
                "Apply ZSH shell on .desktop shell file",
            ),
            edit_file("/mnt/etc/skel/.bashrc", "export SHELL=.*", "export SHELL=$(which zsh)", "Apply ZSH shell"),
        ]
    } else {
        Vec::new()
    };
    assert(steps_view(r@) =~= shell_steps(shell@));
    r
}

fn user_steps_exec(users: &Vec<UserConfig>) -> (r: Vec<SystemStep>)
    ensures
        steps_view(r@) == user_steps(users@),
{
    let mut r: Vec<SystemStep> = Vec::new();
    let mut i: usize = 0;
    while i < users.len()
        invariant
            i <= users@.len(),
            steps_view(r@) == user_steps(users@.take(i as int)),
        decreases users@.len() - i,
    {
        assert(users@.take(i + 1).drop_last() =~= users@.take(i as int));
        let ghost before = r@;
        let u = &users[i];
        let step = SystemStep::NewUser { name: u.name.clone(), hasroot: u.hasroot, password: u.password.clone() };
        r.push(step);
        assert(steps_view(r@) =~= steps_view(before).push(step@));
        i = i + 1;
    }
    assert(users@.take(users@.len() as int) =~= users@);
    r
}

fn service_steps_exec() -> (r: Vec<SystemStep>)
    ensures
        steps_view(r@) == service_steps(),
{
    let services = enable_system_services();
    let mut r: Vec<SystemStep> = Vec::new();
    let mut i: usize = 0;
    while i < services.len()
        invariant
            i <= services@.len(),
            services@ == system_services(),
            steps_view(r@) == services@.take(i as int).map_values(|s: &'static str| StepView::EnableService(s@)),
        decreases services@.len() - i,
    {
        let ghost before = r@;
        let step = SystemStep::EnableService(services[i]);
        r.push(step);
        assert(steps_view(r@) =~= steps_view(before).push(step@));
        assert(services@.take(i + 1) =~= services@.take(i as int).push(services@[i as int]));
        assert(steps_view(r@) =~= services@.take(i + 1).map_values(|s: &'static str| StepView::EnableService(s@)));
        i = i + 1;
    }
    assert(services@.take(services@.len() as int) =~= services@);
    r
}

fn clone_all(v: &Vec<String>) -> (r: Vec<String>)
    ensures
        strings_view(r@) == strings_view(v@),
{
    let mut r: Vec<String> = Vec::new();
    let mut i: usize = 0;
    while i < v.len()
        invariant
            i <= v@.len(),
            strings_view(r@) == strings_view(v@.take(i as int)),
        decreases v@.len() - i,
    {
        let ghost before = r@;
        let x = v[i].clone();
        r.push(x);
        assert(strings_view(r@) =~= strings_view(before).push(x@));
        assert(v@.take(i + 1) =~= v@.take(i as int).push(v@[i as int]));
        i = i + 1;
    }
    assert(v@.take(v@.len() as int) =~= v@);
    r
}

fn push_step(steps: &mut Vec<SystemStep>, s: SystemStep)
    ensures
        steps_view(final(steps)@) == steps_view(old(steps)@).push(s@),
{
    steps.push(s);
    assert(steps_view(steps@) =~= steps_view(old(steps)@).push(s@));
}

fn head_steps(c: &InstallConfig) -> (r: Vec<SystemStep>)
    requires
        config_ok(*c),
    ensures
        steps_view(r@) == plan_head(*c),
{
    let mut r: Vec<SystemStep> = Vec::new();
    push_step(
        &mut r,
        SystemStep::Partition {
            device: device_path_exec(c.partition.device.as_str()),
            mode: c.partition.mode,
            encrypt: c.partition.encrypt_check,
            efi: c.partition.efi,
            swap: c.partition.swap,
            swap_size: c.partition.swap_size.clone(),
            partitions: parse_all(&c.partition.partitions),
        },
    );
    push_step(&mut r, SystemStep::InstallBase { kernel: c.kernel.clone(), packages: package_set(c) });
    push_step(&mut r, SystemStep::GenFstab);
    if str_eq(c.bootloader.kind.as_str(), "grub-efi") {
        push_step(
            &mut r,
            SystemStep::BootloaderEfi { location: c.bootloader.location.clone(), encrypt: c.partition.encrypt_check },
        );
    } else if str_eq(c.bootloader.kind.as_str(), "grub-legacy") {
        push_step(
            &mut r,
            SystemStep::BootloaderLegacy {
                location: c.bootloader.location.clone(),
                encrypt: c.partition.encrypt_check,
            },
        );
    }
    push_step(&mut r, SystemStep::SetLocale(join(&c.locale.locale, " ")));
    push_step(
        &mut r,
        SystemStep::SetKeyboard { virtkeymap: c.locale.virtkeymap.clone(), x11keymap: c.locale.x11keymap.clone() },
    );
    push_step(&mut r, SystemStep::SetTimezone(c.locale.timezone.clone()));
    push_step(&mut r, SystemStep::PresetProcess);
    push_step(&mut r, SystemStep::SetHostname(c.networking.hostname.clone()));
    push_step(&mut r, SystemStep::CreateHosts);
    assert(steps_view(r@) =~= plan_head(*c));
    r
}

fn system_steps(c: &InstallConfig) -> (r: Vec<SystemStep>)
    ensures
        steps_view(r@) == plan_system(*c),
{
    let mut r: Vec<SystemStep> = Vec::new();
    if c.networking.ipv6 {
        push_step(&mut r, SystemStep::EnableIpv6);
    }
    if c.zramd {
        push_step(&mut r, SystemStep::ConfigureZram);
    }
    let lower_desktop = to_lowercase(c.desktop.as_str());
    if str_eq(lower_desktop.as_str(), "gnome") {
        append_steps(&mut r, configure_gnome());
    }
    let ghost before_dm = steps_view(r@);
    let lower_dm = to_lowercase(c.displaymanager.as_str());
    match dm_by_name(lower_dm.as_str()) {
        Some(DMSetup::Gdm) => append_steps(&mut r, configure_gdm(c.desktop.as_str())),
        Some(DMSetup::LightDMNeon) => append_steps(&mut r, configure_lightdm_neon(c.desktop.as_str())),
        Some(DMSetup::Sddm) => push_step(&mut r, SystemStep::EnableService("sddm")),
        _ => {},
    }
    assert(steps_view(r@) =~= before_dm + dm_steps(*c));
    assert(steps_view(r@) =~= plan_system(*c));
    r
}

fn app_steps(c: &InstallConfig) -> (r: Vec<SystemStep>)
    ensures
        steps_view(r@) == plan_apps(*c),
{
    let gnome = contains(c.desktop.as_str(), "gnome");
    let mut r: Vec<SystemStep> = Vec::new();
    let lower_browser = to_lowercase(c.browser.as_str());
    match browser_by_name(lower_browser.as_str()) {
        Some(b) => {
            if gnome {
                append_steps(&mut r, browser_dconf_exec(b));
            }
        },
        None => {},
    }
    let ghost after_browser = steps_view(r@);
    let lower_theme = to_lowercase(c.theme.as_str());
    match theme_by_name(lower_theme.as_str()) {
        Some(t) => append_steps(&mut r, configure_theme(t)),
        None => {},
    }
    let ghost after_theme = steps_view(r@);
    let lower_terminal = to_lowercase(c.terminal.as_str());
    let choice = match terminal_by_name(lower_terminal.as_str()) {
        Some((_, ch)) => ch,
        None => "",
    };
    proof {
        reveal_strlit("");
    }
    assert(choice@ == terminal_choice_spec(*c));
    append_steps(&mut r, terminal_steps_exec(choice, gnome));
    assert(steps_view(r@) =~= plan_apps(*c));
    r
}

fn middle_steps(c: &InstallConfig) -> (r: Vec<SystemStep>)
    ensures
        steps_view(r@) == plan_middle(*c),
{
    let mut r = system_steps(c);
    append_steps(&mut r, app_steps(c));
    r
}

fn tail_steps(c: &InstallConfig) -> (r: Vec<SystemStep>)
    requires
        config_ok(*c),
    ensures
        steps_view(r@) == plan_tail(*c),
{
    let mut r: Vec<SystemStep> = Vec::new();
    if c.flatpak {
        push_step(&mut r, SystemStep::ConfigureFlatpak);
    }
    push_step(&mut r, SystemStep::InstallExtra(clone_all(&c.extra_packages)));
    append_steps(&mut r, service_steps_exec());
    let first_shell = to_lowercase(c.users[0].shell.as_str());
    append_steps(&mut r, shell_steps_exec(first_shell.as_str()));
    append_steps(&mut r, user_steps_exec(&c.users));
    push_step(&mut r, SystemStep::RootPass(c.rootpass.clone()));
    push_step(&mut r, SystemStep::CopyLog);
    if str_eq(c.bootloader.kind.as_str(), "grub-efi") {
        push_step(&mut r, SystemStep::Umount("/mnt/boot"));
    }
    push_step(&mut r, SystemStep::Umount("/mnt/home"));
    push_step(&mut r, SystemStep::Umount("/mnt"));
    assert(steps_view(r@) =~= plan_tail(*c));
    r
}

/// The steps of the installation that the configuration describes, in order.
pub fn install_steps(c: &InstallConfig) -> (r: Vec<SystemStep>)
    requires
        config_ok(*c),
    ensures
        steps_view(r@) == install_plan(*c),
{
    let mut r = head_steps(c);
    append_steps(&mut r, middle_steps(c));
    append_steps(&mut r, tail_steps(c));
    r
}

} // verus!
