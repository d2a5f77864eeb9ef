//! The steps that set up the installed system, as plain values: the
//! installer decides them here and carries them out elsewhere.
use vstd::prelude::*;
use crate::backend::PartitionMode;
use crate::text::owned;

verus! {

/// A partition given on the command line or in the configuration file.
#[derive(Debug)]
pub struct PartitionSpec {
    pub mountpoint: String,
    pub blockdevice: String,
    pub filesystem: String,
    pub encrypt: bool,
}

/// Abstract value of a partition spec.
pub struct PartitionSpecView {
    pub mountpoint: Seq<char>,
    pub blockdevice: Seq<char>,
    pub filesystem: Seq<char>,
    pub encrypt: bool,
}

impl PartitionSpec {
    pub open spec fn view(&self) -> PartitionSpecView {
        PartitionSpecView {
            mountpoint: self.mountpoint@,
            blockdevice: self.blockdevice@,
            filesystem: self.filesystem@,
            encrypt: self.encrypt,
        }
    }
}

/// The views of a list of partition specs.
pub open spec fn specs_view(v: Seq<PartitionSpec>) -> Seq<PartitionSpecView> {
    v.map_values(|p: PartitionSpec| p@)
}

/// One step of setting up the installed system.
#[derive(Debug)]
pub enum SystemStep {
    /// Partition and mount the target disk.
    Partition {
        device: String,
        mode: PartitionMode,
        encrypt: bool,
        efi: bool,
        swap: bool,
        swap_size: String,
        partitions: Vec<PartitionSpec>,
    },
    /// Install the kernel, base system and these packages.
    InstallBase { kernel: String, packages: Vec<&'static str> },
    GenFstab,
    BootloaderEfi { location: String, encrypt: bool },
    BootloaderLegacy { location: String, encrypt: bool },
    /// Generate these locales (space separated).
    SetLocale(String),
    SetKeyboard { virtkeymap: String, x11keymap: String },
    SetTimezone(String),
    /// Rebuild the initramfs presets.
    PresetProcess,
    SetHostname(String),
    CreateHosts,
    EnableIpv6,
    ConfigureZram,
    /// Rename a file of the installed system.
    Rename { from: String, to: String },
    /// Replace what matches `pattern` in `file` by `replacement`.
    EditFile { file: &'static str, pattern: &'static str, replacement: String, description: &'static str },
    /// Run a program of the live system.
    Run { program: &'static str, args: Vec<String>, description: &'static str },
    EnableService(&'static str),
    /// Add the Flathub remote to flatpak.
    ConfigureFlatpak,
    /// Install these packages with pacman.
    InstallExtra(Vec<String>),
    NewUser { name: String, hasroot: bool, password: String },
    RootPass(String),
    /// Copy the installation log to the installed system.
    CopyLog,
    Umount(&'static str),
}

/// Abstract value of a step.
pub enum StepView {
    Partition {
        device: Seq<char>,
        mode: PartitionMode,
        encrypt: bool,
        efi: bool,
        swap: bool,
        swap_size: Seq<char>,
        partitions: Seq<PartitionSpecView>,
    },
    InstallBase { kernel: Seq<char>, packages: Seq<&'static str> },
    GenFstab,
    BootloaderEfi { location: Seq<char>, encrypt: bool },
    BootloaderLegacy { location: Seq<char>, encrypt: bool },
    SetLocale(Seq<char>),
    SetKeyboard { virtkeymap: Seq<char>, x11keymap: Seq<char> },
    SetTimezone(Seq<char>),
    PresetProcess,
    SetHostname(Seq<char>),
    CreateHosts,
    EnableIpv6,
    ConfigureZram,
    Rename { from: Seq<char>, to: Seq<char> },
    EditFile { file: Seq<char>, pattern: Seq<char>, replacement: Seq<char>, description: Seq<char> },
    Run { program: Seq<char>, args: Seq<Seq<char>>, description: Seq<char> },
    EnableService(Seq<char>),
    ConfigureFlatpak,
    InstallExtra(Seq<Seq<char>>),
    NewUser { name: Seq<char>, hasroot: bool, password: Seq<char> },
    RootPass(Seq<char>),
    CopyLog,
    Umount(Seq<char>),
}

/// The views of a list of strings.
pub open spec fn strings_of(v: Seq<String>) -> Seq<Seq<char>> {
    v.map_values(|s: String| s@)
}

impl SystemStep {
    pub open spec fn view(&self) -> StepView {
        match self {
            SystemStep::Partition { device, mode, encrypt, efi, swap, swap_size, partitions } => StepView::Partition {
                device: device@,
                mode: *mode,
                encrypt: *encrypt,
                efi: *efi,
                swap: *swap,
                swap_size: swap_size@,
                partitions: specs_view(partitions@),
            },
            SystemStep::InstallBase { kernel, packages } => StepView::InstallBase {
                kernel: kernel@,
                packages: packages@,
            },
            SystemStep::GenFstab => StepView::GenFstab,
            SystemStep::BootloaderEfi { location, encrypt } => StepView::BootloaderEfi {
                location: location@,
                encrypt: *encrypt,
            },
            SystemStep::BootloaderLegacy { location, encrypt } => StepView::BootloaderLegacy {
                location: location@,
                encrypt: *encrypt,
            },
            SystemStep::SetLocale(s) => StepView::SetLocale(s@),
            SystemStep::SetKeyboard { virtkeymap, x11keymap } => StepView::SetKeyboard {
                virtkeymap: virtkeymap@,
                x11keymap: x11keymap@,
            },
            SystemStep::SetTimezone(s) => StepView::SetTimezone(s@),
            SystemStep::PresetProcess => StepView::PresetProcess,
            SystemStep::SetHostname(s) => StepView::SetHostname(s@),
            SystemStep::CreateHosts => StepView::CreateHosts,
            SystemStep::EnableIpv6 => StepView::EnableIpv6,
            SystemStep::ConfigureZram => StepView::ConfigureZram,
            SystemStep::Rename { from, to } => StepView::Rename { from: from@, to: to@ },
            SystemStep::EditFile { file, pattern, replacement, description } => StepView::EditFile {
                file: file@,
                pattern: pattern@,
                replacement: replacement@,
                description: description@,
            },
            SystemStep::Run { program, args, description } => StepView::Run {
                program: program@,
                args: strings_of(args@),
                description: description@,
            },
            SystemStep::EnableService(s) => StepView::EnableService(s@),
            SystemStep::ConfigureFlatpak => StepView::ConfigureFlatpak,
            SystemStep::InstallExtra(v) => StepView::InstallExtra(strings_of(v@)),
            SystemStep::NewUser { name, hasroot, password } => StepView::NewUser {
                name: name@,
                hasroot: *hasroot,
                password: password@,
            },
            SystemStep::RootPass(s) => StepView::RootPass(s@),
            SystemStep::CopyLog => StepView::CopyLog,
            SystemStep::Umount(s) => StepView::Umount(s@),
        }
    }
}

/// The views of a list of steps.
pub open spec fn steps_view(v: Seq<SystemStep>) -> Seq<StepView> {
    v.map_values(|s: SystemStep| s@)
}

/// Appends the steps of `more` to `steps`.
pub fn append_steps(steps: &mut Vec<SystemStep>, more: Vec<SystemStep>)
    ensures
        steps_view(final(steps)@) == steps_view(old(steps)@) + steps_view(more@),
{
    let mut more = more;
    let ghost m = more@;
    steps.append(&mut more);
    assert(steps_view(steps@) =~= steps_view(old(steps)@) + steps_view(m));
}

/// An edit of a file of the installed system.
pub fn edit_file(file: &'static str, pattern: &'static str, replacement: &str, description: &'static str) -> (r:
    SystemStep)
    ensures
        r@ == (StepView::EditFile {
            file: file@,
            pattern: pattern@,
            replacement: replacement@,
            description: description@,
        }),
{
    SystemStep::EditFile { file, pattern, replacement: owned(replacement), description }
}

/// The view of an edit of a file.
pub open spec fn edit_view(file: Seq<char>, pattern: Seq<char>, replacement: Seq<char>, description: Seq<char>) -> StepView {
    StepView::EditFile { file, pattern, replacement, description }
}

/// Renaming `dir` + `name` to the same name with `.disable` appended.
pub open spec fn disable_step(dir: Seq<char>, name: Seq<char>) -> StepView {
    StepView::Rename { from: dir + name, to: dir + name + ".disable"@ }
}

/// Hides an X session from the display manager by renaming its file.
pub fn disable_xsession(session: &str) -> (r: SystemStep)
    ensures
        r@ == disable_step("/mnt/usr/share/xsessions/"@, session@),
{
    let mut from = owned("/mnt/usr/share/xsessions/");
    from.append(session);
    let mut to = owned("/mnt/usr/share/xsessions/");
    to.append(session);
    to.append(".disable");
    SystemStep::Rename { from, to }
}

/// Hides a Wayland session from the display manager by renaming its file.
pub fn disable_wsession(session: &str) -> (r: SystemStep)
    ensures
        r@ == disable_step("/mnt/usr/share/wayland-sessions/"@, session@),
{
    let mut from = owned("/mnt/usr/share/wayland-sessions/");
    from.append(session);
    let mut to = owned("/mnt/usr/share/wayland-sessions/");
    to.append(session);
    to.append(".disable");
    SystemStep::Rename { from, to }
}

} // verus!
