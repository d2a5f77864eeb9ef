//! The values that the installer backend's command line carries.
use vstd::prelude::*;
use crate::text::{split_char, split_seq, strings_view};

verus! {

/// Whether the backend partitions the disk itself or uses given partitions.
#[derive(Clone, Copy, Debug, PartialEq, Eq, Structural, PartialOrd, Ord)]
pub enum PartitionMode {
    Auto,
    Manual,
}

/// Options of the base installation.
#[derive(Debug)]
pub struct InstallBaseArgs {
    pub kernel: String,
}

/// Where the bootloader goes.
#[derive(Debug)]
pub enum BootloaderSubcommand {
    /// GRUB in EFI mode, into this EFI directory.
    GrubEfi { efidir: String },
    /// GRUB in legacy (BIOS) mode, onto this device.
    GrubLegacy { device: String },
}

/// Keyboard layout, timezone and locales.
#[derive(Debug)]
pub struct LocaleArgs {
    pub keyboard: String,
    pub timezone: String,
    pub locales: Vec<String>,
}

/// Host name and whether IPv6 loopback is enabled.
#[derive(Debug)]
pub struct NetworkingArgs {
    pub hostname: String,
    pub ipv6: bool,
}

/// A new user account.
#[derive(Debug)]
pub struct NewUserArgs {
    pub username: String,
    pub hasroot: bool,
    pub password: String,
    pub shell: String,
}

/// Account commands.
#[derive(Debug)]
pub enum UsersSubcommand {
    NewUser(NewUserArgs),
    /// Set the root password (already hashed).
    RootPass { password: String },
}

/// Graphical desktops that the backend's command line offers.
#[derive(Clone, Copy, Debug, PartialEq, Eq, Structural, PartialOrd, Ord)]
pub enum DesktopSetup {
    Onyx,
    Gnome,
    Kde,
    Budgie,
    Cinnamon,
    Mate,
    Xfce,
    Enlightenment,
    Lxqt,
    Sway,
    I3,
    Herbstluftwm,
    Awesome,
    Bspwm,
    NoneSelected,
}

/// A partition for manual partitioning.
#[derive(Clone, Debug)]
pub struct Partition {
    pub mountpoint: String,
    pub blockdevice: String,
    pub filesystem: String,
}

impl Partition {
    pub fn new(mountpoint: String, blockdevice: String, filesystem: String) -> (r: Self)
        ensures
            r.mountpoint == mountpoint,
            r.blockdevice == blockdevice,
            r.filesystem == filesystem,
    {
        Partition { mountpoint, blockdevice, filesystem }
    }
}

/// Reads `mountpoint:blockdevice:filesystem` (later fields are ignored).
pub fn parse_partitions(s: &str) -> (r: Result<Partition, &'static str>)
    requires
        split_seq(s@, ':').len() >= 3,
    ensures
        r matches Ok(p) && p.mountpoint@ == split_seq(s@, ':')[0] && p.blockdevice@ == split_seq(s@, ':')[1]
            && p.filesystem@ == split_seq(s@, ':')[2],
{
    let parts = split_char(s, ':');
    assert(strings_view(parts@)[0] == parts@[0]@);
    assert(strings_view(parts@)[1] == parts@[1]@);
    assert(strings_view(parts@)[2] == parts@[2]@);
    Ok(Partition::new(parts[0].clone(), parts[1].clone(), parts[2].clone()))
}

} // verus!
