//! What the NixOS backend does with a configuration file, in order: the
//! partitioning, the system settings, the setups that the configured names
//! choose, the users, and the steps that close the installation.
use vstd::prelude::*;
use crate::arch::config::{bool_text, device_path, device_path_exec, InstallConfig};
use crate::arch::shells::ShellSetup;
use crate::backend::PartitionMode;
use crate::text::{join, owned, seq_join, split_char, split_seq, str_eq, strings_view, to_lowercase, unicode_lowercase};

verus! {

/// Desktop setups of the NixOS backend.
#[derive(Clone, Copy, Debug, PartialEq, Eq, Structural)]
pub enum NixDesktop {
    Gnome,
    Cinnamon,
    Mate,
    XfceRefined,
    XfcePicom,
    NoneSelected,
}

/// Designs of the NixOS backend.
#[derive(Clone, Copy, Debug, PartialEq, Eq, Structural)]
pub enum NixTheme {
    Cyborg,
    Graphite,
    HackTheBox,
    RedMoon,
    Samurai,
    Sweet,
    Temple,
}

/// Display manager setups of the NixOS backend.
#[derive(Clone, Copy, Debug, PartialEq, Eq, Structural)]
pub enum NixDisplayManager {
    Gdm,
    LightDMNeon,
}

/// Browser setups of the NixOS backend.
#[derive(Clone, Copy, Debug, PartialEq, Eq, Structural)]
pub enum NixBrowser {
    Firefox,
}

/// Terminal setups of the NixOS backend.
#[derive(Clone, Copy, Debug, PartialEq, Eq, Structural)]
pub enum NixTerminal {
    Alacritty,
    Kitty,
}

/// A partition entry of the configuration: its first four fields and whether
/// it is encrypted (its fifth field).
#[derive(Debug)]
pub struct NixPartitionEntry {
    pub fields: Vec<String>,
    pub encrypt: bool,
}

pub struct NixPartitionEntryView {
    pub fields: Seq<Seq<char>>,
    pub encrypt: bool,
}

impl View for NixPartitionEntry {
    type V = NixPartitionEntryView;

    open spec fn view(&self) -> NixPartitionEntryView {
        NixPartitionEntryView { fields: strings_view(self.fields@), encrypt: self.encrypt }
    }
}

/// One action of a NixOS installation.
#[derive(Debug)]
pub enum NixAction {
    Partition {
        device: String,
        mode: PartitionMode,
        encrypt_check: bool,
        efi: bool,
        swap: bool,
        swap_size: String,
        entries: Vec<NixPartitionEntry>,
    },
    InstallNixConfig,
    BootloaderEfi(String),
    BootloaderLegacy(String),
    SetLocale(String),
    SetKeyboard(String, String),
    SetTimezone(String),
    SetHostname(String),
    EnableIpv6,
    InstallZram,
    Desktop(NixDesktop),
    Theme(NixTheme),
    DisplayManager(NixDisplayManager),
    Browser(NixBrowser),
    Terminal(NixTerminal),
    Flatpak,
    Shell(ShellSetup),
    NewUser(String, String),
    RootPass(String),
    Install,
    CopyConnections,
    CreateLogDir,
    CopyLog,
    Unmount(&'static str),
}

pub enum NixActionView {
    Partition {
        device: Seq<char>,
        mode: PartitionMode,
        encrypt_check: bool,
        efi: bool,
        swap: bool,
        swap_size: Seq<char>,
        entries: Seq<NixPartitionEntryView>,
    },
    InstallNixConfig,
    BootloaderEfi(Seq<char>),
    BootloaderLegacy(Seq<char>),
    SetLocale(Seq<char>),
    SetKeyboard(Seq<char>, Seq<char>),
    SetTimezone(Seq<char>),
    SetHostname(Seq<char>),
    EnableIpv6,
    InstallZram,
    Desktop(NixDesktop),
    Theme(NixTheme),
    DisplayManager(NixDisplayManager),
    Browser(NixBrowser),
    Terminal(NixTerminal),
    Flatpak,
    Shell(ShellSetup),
    NewUser(Seq<char>, Seq<char>),
    RootPass(Seq<char>),
    Install,
    CopyConnections,
    CreateLogDir,
    CopyLog,
    Unmount(Seq<char>),
}

impl View for NixAction {
    type V = NixActionView;

    open spec fn view(&self) -> NixActionView {
        match self {
            NixAction::Partition { device, mode, encrypt_check, efi, swap, swap_size, entries } => {
                NixActionView::Partition {
                    device: device@,
                    mode: *mode,
                    encrypt_check: *encrypt_check,
                    efi: *efi,
                    swap: *swap,
                    swap_size: swap_size@,
                    entries: entries@.map_values(|e: NixPartitionEntry| e@),
                }
            },
            NixAction::InstallNixConfig => NixActionView::InstallNixConfig,
            NixAction::BootloaderEfi(l) => NixActionView::BootloaderEfi(l@),
            NixAction::BootloaderLegacy(l) => NixActionView::BootloaderLegacy(l@),
            NixAction::SetLocale(l) => NixActionView::SetLocale(l@),
            NixAction::SetKeyboard(v, x) => NixActionView::SetKeyboard(v@, x@),
            NixAction::SetTimezone(t) => NixActionView::SetTimezone(t@),
            NixAction::SetHostname(h) => NixActionView::SetHostname(h@),
            NixAction::EnableIpv6 => NixActionView::EnableIpv6,
            NixAction::InstallZram => NixActionView::InstallZram,
            NixAction::Desktop(d) => NixActionView::Desktop(*d),
            NixAction::Theme(t) => NixActionView::Theme(*t),
            NixAction::DisplayManager(d) => NixActionView::DisplayManager(*d),
            NixAction::Browser(b) => NixActionView::Browser(*b),
            NixAction::Terminal(t) => NixActionView::Terminal(*t),
            NixAction::Flatpak => NixActionView::Flatpak,
            NixAction::Shell(s) => NixActionView::Shell(*s),
            NixAction::NewUser(n, p) => NixActionView::NewUser(n@, p@),
            NixAction::RootPass(p) => NixActionView::RootPass(p@),
            NixAction::Install => NixActionView::Install,
            NixAction::CopyConnections => NixActionView::CopyConnections,
            NixAction::CreateLogDir => NixActionView::CreateLogDir,
            NixAction::CopyLog => NixActionView::CopyLog,
            NixAction::Unmount(m) => NixActionView::Unmount(m@),
        }
    }
}

/// The views of a list of actions.
pub open spec fn actions_view(v: Seq<NixAction>) -> Seq<NixActionView> {
    v.map_values(|a: NixAction| a@)
}

// ---------------------------------------------------------------------------
// Reading the configuration
// ---------------------------------------------------------------------------

/// A partition entry: at least five fields between colons, the fifth `true`
/// or `false`.
pub open spec fn nix_entry(s: Seq<char>) -> Option<NixPartitionEntryView> {
    let f = split_seq(s, ':');
    if f.len() < 5 {
        None
    } else {
        match bool_text(f[4]) {
            Some(b) => Some(NixPartitionEntryView { fields: f.take(4), encrypt: b }),
            None => None,
        }
    }
}

/// Every partition entry of the configuration reads.
pub open spec fn nix_config_ok(c: InstallConfig) -> bool {
    forall|i: int| 0 <= i < c.partition.partitions@.len() ==> (#[trigger] nix_entry(c.partition.partitions@[i]@)) is Some
}

/// Reads a partition entry (see `nix_entry`).
pub fn parse_nix_entry(s: &str) -> (r: Option<NixPartitionEntry>)
    ensures
        match r {
            Some(e) => nix_entry(s@) == Some(e@),
            None => nix_entry(s@) is None,
        },
{
    let f = split_char(s, ':');
    if f.len() < 5 {
        return None;
    }
    assert(strings_view(f@)[4] == f@[4]@);
    let encrypt = if str_eq(f[4].as_str(), "true") {
        true
    } else if str_eq(f[4].as_str(), "false") {
        false
    } else {
        return None;
    };
    let mut fields: Vec<String> = Vec::new();
    let mut i: usize = 0;
    while i < 4
        invariant
            i <= 4,
            f@.len() >= 5,
            strings_view(fields@) == strings_view(f@).take(i as int),
        decreases 4 - i,
    {
        let ghost before = strings_view(fields@);
        fields.push(f[i].clone());
        assert(strings_view(fields@) =~= before.push(f@[i as int]@));
        assert(strings_view(f@).take(i + 1) =~= strings_view(f@).take(i as int).push(f@[i as int]@));
        i = i + 1;
    }
    Some(NixPartitionEntry { fields, encrypt })
}

/// Tells whether every partition entry of the configuration reads.
pub fn check_nix_config(c: &InstallConfig) -> (r: bool)
    ensures
        r == nix_config_ok(*c),
{
    let mut i: usize = 0;
    while i < c.partition.partitions.len()
        invariant
            i <= c.partition.partitions@.len(),
            forall|k: int| 0 <= k < i ==> (#[trigger] nix_entry(c.partition.partitions@[k]@)) is Some,
        decreases c.partition.partitions@.len() - i,
    {
        match parse_nix_entry(c.partition.partitions[i].as_str()) {
            Some(_) => {},
            None => {
                return false;
            },
        }
        i = i + 1;
    }
    true
}

// ---------------------------------------------------------------------------
// The setups that names choose
// ---------------------------------------------------------------------------

/// The desktop setup that a (lower-cased) name chooses.
pub open spec fn nix_desktop_of(d: Seq<char>) -> Option<NixDesktop> {
    if d == "gnome"@ {
        Some(NixDesktop::Gnome)
    } else if d == "cinnamon"@ {
        Some(NixDesktop::Cinnamon)
    } else if d == "mate"@ {
        Some(NixDesktop::Mate)
    } else if d == "xfce refined"@ {
        Some(NixDesktop::XfceRefined)
    } else if d == "xfce picom"@ {
        Some(NixDesktop::XfcePicom)
    } else if d == "none"@ {
        Some(NixDesktop::NoneSelected)
    } else {
        None
    }
}

fn nix_desktop_by_name(d: &str) -> (r: Option<NixDesktop>)
    ensures
        r == nix_desktop_of(d@),
{
    if str_eq(d, "gnome") {
        Some(NixDesktop::Gnome)
    } else if str_eq(d, "cinnamon") {
        Some(NixDesktop::Cinnamon)
    } else if str_eq(d, "mate") {
        Some(NixDesktop::Mate)
    } else if str_eq(d, "xfce refined") {
        Some(NixDesktop::XfceRefined)
    } else if str_eq(d, "xfce picom") {
        Some(NixDesktop::XfcePicom)
    } else if str_eq(d, "none") {
        Some(NixDesktop::NoneSelected)
    } else {
        None
    }
}

/// The design that a (lower-cased) name chooses.
pub open spec fn nix_theme_of(t: Seq<char>) -> Option<NixTheme> {
    if t == "cyborg"@ {
        Some(NixTheme::Cyborg)
    } else if t == "graphite"@ {
        Some(NixTheme::Graphite)
    } else if t == "hackthebox"@ {
        Some(NixTheme::HackTheBox)
    } else if t == "redmoon"@ {
        Some(NixTheme::RedMoon)
    } else if t == "samurai"@ {
        Some(NixTheme::Samurai)
    } else if t == "sweet"@ {
        Some(NixTheme::Sweet)
    } else if t == "temple"@ {
        Some(NixTheme::Temple)
    } else {
        None
    }
}

fn nix_theme_by_name(t: &str) -> (r: Option<NixTheme>)
    ensures
        r == nix_theme_of(t@),
{
    if str_eq(t, "cyborg") {
        Some(NixTheme::Cyborg)
    } else if str_eq(t, "graphite") {
        Some(NixTheme::Graphite)
    } else if str_eq(t, "hackthebox") {
        Some(NixTheme::HackTheBox)
    } else if str_eq(t, "redmoon") {
        Some(NixTheme::RedMoon)
    } else if str_eq(t, "samurai") {
        Some(NixTheme::Samurai)
    } else if str_eq(t, "sweet") {
        Some(NixTheme::Sweet)
    } else if str_eq(t, "temple") {
        Some(NixTheme::Temple)
    } else {
        None
    }
}

/// The display manager setup that a (lower-cased) name chooses.
pub open spec fn nix_dm_of(d: Seq<char>) -> Option<NixDisplayManager> {
    if d == "gdm"@ {
        Some(NixDisplayManager::Gdm)
    } else if d == "lightdm neon"@ {
        Some(NixDisplayManager::LightDMNeon)
    } else {
        None
    }
}

/// The browser setup that a (lower-cased) name chooses.
pub open spec fn nix_browser_of(b: Seq<char>) -> Option<NixBrowser> {
    if b == "firefox"@ {
        Some(NixBrowser::Firefox)
    } else {
        None
    }
}

/// The terminal setup that a (lower-cased) name chooses.
pub open spec fn nix_terminal_of(t: Seq<char>) -> Option<NixTerminal> {
    if t == "alacritty"@ {
        Some(NixTerminal::Alacritty)
    } else if t == "kitty"@ {
        Some(NixTerminal::Kitty)
    } else {
        None
    }
}

/// The shell setup that a (lower-cased) name chooses.
pub open spec fn nix_shell_of(s: Seq<char>) -> Option<ShellSetup> {
    if s == "bash"@ {
        Some(ShellSetup::Bash)
    } else if s == "fish"@ {
        Some(ShellSetup::Fish)
    } else if s == "zsh"@ {
        Some(ShellSetup::Zsh)
    } else {
        None
    }
}

// ---------------------------------------------------------------------------
// The plan
// ---------------------------------------------------------------------------

/// The mount point of the boot partition that a bootloader kind uses.
pub open spec fn boot_mount(kind: Seq<char>) -> Seq<char> {
    if kind == "grub-efi"@ {
        "/mnt/boot/efi"@
    } else {
        "/mnt/boot"@
    }
}

/// Partitioning, the Nix configuration, the bootloader and the system settings.
pub open spec fn nix_head(c: InstallConfig) -> Seq<NixActionView> {
    seq![
        NixActionView::Partition {
            device: device_path(c.partition.device@),
            mode: c.partition.mode,
            encrypt_check: c.partition.encrypt_check,
            efi: c.partition.efi,
            swap: c.partition.swap,
            swap_size: c.partition.swap_size@,
            entries: c.partition.partitions@.map_values(|s: String| nix_entry(s@)->0),
        },
        NixActionView::InstallNixConfig,
    ] + (if c.bootloader.kind@ == "grub-efi"@ {
        seq![NixActionView::BootloaderEfi(c.bootloader.location@)]
    } else if c.bootloader.kind@ == "grub-legacy"@ {
        seq![NixActionView::BootloaderLegacy(c.bootloader.location@)]
    } else {
        Seq::empty()
    }) + seq![
        NixActionView::SetLocale(seq_join(strings_view(c.locale.locale@), " "@)),
        NixActionView::SetKeyboard(c.locale.virtkeymap@, c.locale.x11keymap@),
        NixActionView::SetTimezone(c.locale.timezone@),
        NixActionView::SetHostname(c.networking.hostname@),
    ] + (if c.networking.ipv6 {
        seq![NixActionView::EnableIpv6]
    } else {
        Seq::empty()
    }) + (if c.zramd {
        seq![NixActionView::InstallZram]
    } else {
        Seq::empty()
    })
}

/// The desktop setup that the configured desktop chooses, if any.
pub open spec fn choice_desktop(c: InstallConfig) -> Seq<NixActionView> {
    match nix_desktop_of(unicode_lowercase(c.desktop@)) {
        Some(d) => seq![NixActionView::Desktop(d)],
        None => Seq::empty(),
    }
}

/// The design that the configured design chooses, if any.
pub open spec fn choice_theme(c: InstallConfig) -> Seq<NixActionView> {
    match nix_theme_of(unicode_lowercase(c.theme@)) {
        Some(t) => seq![NixActionView::Theme(t)],
        None => Seq::empty(),
    }
}

/// The display manager setup that the configured one chooses, if any.
pub open spec fn choice_dm(c: InstallConfig) -> Seq<NixActionView> {
    match nix_dm_of(unicode_lowercase(c.displaymanager@)) {
        Some(d) => seq![NixActionView::DisplayManager(d)],
        None => Seq::empty(),
    }
}

/// The browser setup that the configured browser chooses, if any.
pub open spec fn choice_browser(c: InstallConfig) -> Seq<NixActionView> {
    match nix_browser_of(unicode_lowercase(c.browser@)) {
        Some(b) => seq![NixActionView::Browser(b)],
        None => Seq::empty(),
    }
}

/// The terminal setup that the configured terminal chooses, if any.
pub open spec fn choice_terminal(c: InstallConfig) -> Seq<NixActionView> {
    match nix_terminal_of(unicode_lowercase(c.terminal@)) {
        Some(t) => seq![NixActionView::Terminal(t)],
        None => Seq::empty(),
    }
}

/// The setups that the configured names choose (a name that chooses none
/// adds nothing), then flatpak when asked for.
pub open spec fn nix_choices(c: InstallConfig) -> Seq<NixActionView> {
    choice_desktop(c) + choice_theme(c) + choice_dm(c) + choice_browser(c) + choice_terminal(c) + (
    if c.flatpak {
        seq![NixActionView::Flatpak]
    } else {
        Seq::empty()
    })
}

/// For each user in order: the shell setup its shell chooses, if any, then
/// the user itself.
pub open spec fn nix_user_actions(users: Seq<crate::arch::config::UserConfig>) -> Seq<NixActionView>
    decreases users.len(),
{
    if users.len() == 0 {
        Seq::empty()
    } else {
        let u = users.last();
        nix_user_actions(users.drop_last()) + (match nix_shell_of(unicode_lowercase(u.shell@)) {
            Some(s) => seq![NixActionView::Shell(s)],
            None => Seq::empty(),
        }) + seq![NixActionView::NewUser(u.name@, u.password@)]
    }
}

/// The root password, the installation, and what follows it: the network
/// connections and the log copied over, and the partitions unmounted.
pub open spec fn nix_tail(c: InstallConfig) -> Seq<NixActionView> {
    seq![
        NixActionView::RootPass(c.rootpass@),
        NixActionView::Install,
        NixActionView::CopyConnections,
        NixActionView::CreateLogDir,
        NixActionView::CopyLog,
        NixActionView::Unmount(boot_mount(c.bootloader.kind@)),
        NixActionView::Unmount("/mnt/home"@),
        NixActionView::Unmount("/mnt"@),
    ]
}

/// Everything the NixOS backend does with a configuration, in order.
pub open spec fn nix_plan(c: InstallConfig) -> Seq<NixActionView> {
    nix_head(c) + nix_choices(c) + nix_user_actions(c.users@) + nix_tail(c)
}

fn push_action(v: &mut Vec<NixAction>, a: NixAction)
    ensures
        actions_view(final(v)@) == actions_view(old(v)@).push(a@),
{
    let ghost before = v@;
    v.push(a);
    assert(actions_view(v@) =~= actions_view(before).push(a@));
}

fn nix_head_exec(c: &InstallConfig) -> (r: Vec<NixAction>)
    requires
        nix_config_ok(*c),
    ensures
        actions_view(r@) == nix_head(*c),
{
    let ghost parts = c.partition.partitions@;
    let mut entries: Vec<NixPartitionEntry> = Vec::new();
    let mut i: usize = 0;
    while i < c.partition.partitions.len()
        invariant
            parts == c.partition.partitions@,
            nix_config_ok(*c),
            i <= parts.len(),
            entries@.map_values(|e: NixPartitionEntry| e@) == parts.take(i as int).map_values(
                |s: String| nix_entry(s@)->0,
            ),
        decreases parts.len() - i,
    {
        assert(nix_entry(parts[i as int]@) is Some);
        match parse_nix_entry(c.partition.partitions[i].as_str()) {
            Some(e) => {
                let ghost before = entries@;
                entries.push(e);
                assert(entries@.map_values(|e: NixPartitionEntry| e@) =~= before.map_values(
                    |e: NixPartitionEntry| e@,
                ).push(nix_entry(parts[i as int]@)->0));
                assert(parts.take(i + 1) =~= parts.take(i as int).push(parts[i as int]));
                assert(parts.take(i + 1).map_values(|s: String| nix_entry(s@)->0) =~= parts.take(
                    i as int,
                ).map_values(|s: String| nix_entry(s@)->0).push(nix_entry(parts[i as int]@)->0));
            },
            None => {},
        }
        i = i + 1;
    }
    assert(parts.take(parts.len() as int) =~= parts);
    let mut r: Vec<NixAction> = Vec::new();
    push_action(
        &mut r,
        NixAction::Partition {
            device: device_path_exec(c.partition.device.as_str()),
            mode: c.partition.mode,
            encrypt_check: c.partition.encrypt_check,
            efi: c.partition.efi,
            swap: c.partition.swap,
            swap_size: c.partition.swap_size.clone(),
            entries,
        },
    );
    push_action(&mut r, NixAction::InstallNixConfig);
    let ghost after_config = actions_view(r@);
    if str_eq(c.bootloader.kind.as_str(), "grub-efi") {
        push_action(&mut r, NixAction::BootloaderEfi(c.bootloader.location.clone()));
    } else if str_eq(c.bootloader.kind.as_str(), "grub-legacy") {
        push_action(&mut r, NixAction::BootloaderLegacy(c.bootloader.location.clone()));
    }
    let ghost after_boot = actions_view(r@);
    push_action(&mut r, NixAction::SetLocale(join(&c.locale.locale, " ")));
    push_action(&mut r, NixAction::SetKeyboard(c.locale.virtkeymap.clone(), c.locale.x11keymap.clone()));
    push_action(&mut r, NixAction::SetTimezone(c.locale.timezone.clone()));
    push_action(&mut r, NixAction::SetHostname(c.networking.hostname.clone()));
    let ghost after_settings = actions_view(r@);
    if c.networking.ipv6 {
        push_action(&mut r, NixAction::EnableIpv6);
    }
    let ghost after_ipv6 = actions_view(r@);
    if c.zramd {
        push_action(&mut r, NixAction::InstallZram);
    }
    assert(actions_view(r@) =~= nix_head(*c));
    r
}

fn one_action(a: NixAction) -> (r: Vec<NixAction>)
    ensures
        actions_view(r@) == seq![a@],
{
    let mut r: Vec<NixAction> = Vec::new();
    push_action(&mut r, a);
    assert(actions_view(r@) =~= seq![a@]);
    r
}

fn no_action() -> (r: Vec<NixAction>)
    ensures
        actions_view(r@) == Seq::<NixActionView>::empty(),
{
    let r: Vec<NixAction> = Vec::new();
    assert(actions_view(r@) =~= Seq::<NixActionView>::empty());
    r
}

fn choice_desktop_exec(c: &InstallConfig) -> (r: Vec<NixAction>)
    ensures
        actions_view(r@) == choice_desktop(*c),
{
    match nix_desktop_by_name(to_lowercase(c.desktop.as_str()).as_str()) {
        Some(d) => one_action(NixAction::Desktop(d)),
        None => no_action(),
    }
}

fn choice_theme_exec(c: &InstallConfig) -> (r: Vec<NixAction>)
    ensures
        actions_view(r@) == choice_theme(*c),
{
    match nix_theme_by_name(to_lowercase(c.theme.as_str()).as_str()) {
        Some(t) => one_action(NixAction::Theme(t)),
        None => no_action(),
    }
}

fn choice_dm_exec(c: &InstallConfig) -> (r: Vec<NixAction>)
    ensures
        actions_view(r@) == choice_dm(*c),
{
    let dm = to_lowercase(c.displaymanager.as_str());
    if str_eq(dm.as_str(), "gdm") {
        one_action(NixAction::DisplayManager(NixDisplayManager::Gdm))
    } else if str_eq(dm.as_str(), "lightdm neon") {
        one_action(NixAction::DisplayManager(NixDisplayManager::LightDMNeon))
    } else {
        no_action()
    }
}

fn choice_browser_exec(c: &InstallConfig) -> (r: Vec<NixAction>)
    ensures
        actions_view(r@) == choice_browser(*c),
{
    if str_eq(to_lowercase(c.browser.as_str()).as_str(), "firefox") {
        one_action(NixAction::Browser(NixBrowser::Firefox))
    } else {
        no_action()
    }
}

fn choice_terminal_exec(c: &InstallConfig) -> (r: Vec<NixAction>)
    ensures
        actions_view(r@) == choice_terminal(*c),
{
    let term = to_lowercase(c.terminal.as_str());
    if str_eq(term.as_str(), "alacritty") {
        one_action(NixAction::Terminal(NixTerminal::Alacritty))
    } else if str_eq(term.as_str(), "kitty") {
        one_action(NixAction::Terminal(NixTerminal::Kitty))
    } else {
        no_action()
    }
}

fn nix_choices_exec(c: &InstallConfig) -> (r: Vec<NixAction>)
    ensures
        actions_view(r@) == nix_choices(*c),
{
    let mut r = choice_desktop_exec(c);
    append_actions(&mut r, choice_theme_exec(c));
    append_actions(&mut r, choice_dm_exec(c));
    append_actions(&mut r, choice_browser_exec(c));
    append_actions(&mut r, choice_terminal_exec(c));
    if c.flatpak {
        append_actions(&mut r, one_action(NixAction::Flatpak));
    } else {
        append_actions(&mut r, no_action());
    }
    r
}

fn nix_users_exec(c: &InstallConfig) -> (r: Vec<NixAction>)
    ensures
        actions_view(r@) == nix_user_actions(c.users@),
{
    let ghost users = c.users@;
    let mut r: Vec<NixAction> = Vec::new();
    let mut i: usize = 0;
    assert(users.take(0) =~= Seq::<crate::arch::config::UserConfig>::empty());
    while i < c.users.len()
        invariant
            users == c.users@,
            i <= users.len(),
            actions_view(r@) == nix_user_actions(users.take(i as int)),
        decreases users.len() - i,
    {
        let u = &c.users[i];
        let ghost before = actions_view(r@);
        let sh = to_lowercase(u.shell.as_str());
        if str_eq(sh.as_str(), "bash") {
            push_action(&mut r, NixAction::Shell(ShellSetup::Bash));
        } else if str_eq(sh.as_str(), "fish") {
            push_action(&mut r, NixAction::Shell(ShellSetup::Fish));
        } else if str_eq(sh.as_str(), "zsh") {
            push_action(&mut r, NixAction::Shell(ShellSetup::Zsh));
        }
        let ghost mid = actions_view(r@);
        push_action(&mut r, NixAction::NewUser(u.name.clone(), u.password.clone()));
        assert(users.take(i + 1).drop_last() =~= users.take(i as int));
        assert(users.take(i + 1).last() == users[i as int]);
        assert(actions_view(r@) =~= nix_user_actions(users.take(i + 1)));
        i = i + 1;
    }
    assert(users.take(users.len() as int) =~= users);
    r
}

fn nix_tail_exec(c: &InstallConfig) -> (r: Vec<NixAction>)
    ensures
        actions_view(r@) == nix_tail(*c),
{
    let mut r: Vec<NixAction> = Vec::new();
    push_action(&mut r, NixAction::RootPass(c.rootpass.clone()));
    push_action(&mut r, NixAction::Install);
    push_action(&mut r, NixAction::CopyConnections);
    push_action(&mut r, NixAction::CreateLogDir);
    push_action(&mut r, NixAction::CopyLog);
    if str_eq(c.bootloader.kind.as_str(), "grub-efi") {
        push_action(&mut r, NixAction::Unmount("/mnt/boot/efi"));
    } else {
        push_action(&mut r, NixAction::Unmount("/mnt/boot"));
    }
    push_action(&mut r, NixAction::Unmount("/mnt/home"));
    push_action(&mut r, NixAction::Unmount("/mnt"));
    assert(actions_view(r@) =~= nix_tail(*c));
    r
}

fn append_actions(v: &mut Vec<NixAction>, more: Vec<NixAction>)
    ensures
        actions_view(final(v)@) == actions_view(old(v)@) + actions_view(more@),
{
    let mut more = more;
    let ghost m = more@;
    v.append(&mut more);
    assert(actions_view(v@) =~= actions_view(old(v)@) + actions_view(m));
}

/// Everything the NixOS backend does with the configuration `c`, in order
/// (see `nix_plan`); every partition entry must read, as the backend stops
/// on one that does not.
pub fn nix_install_plan(c: &InstallConfig) -> (r: Vec<NixAction>)
    requires
        nix_config_ok(*c),
    ensures
        actions_view(r@) == nix_plan(*c),
{
    let mut r = nix_head_exec(c);
    append_actions(&mut r, nix_choices_exec(c));
    append_actions(&mut r, nix_users_exec(c));
    append_actions(&mut r, nix_tail_exec(c));
    r
}

} // verus!
