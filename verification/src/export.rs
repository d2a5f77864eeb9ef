//! What the installer hands to its backend once the choices are made: the
//! system choices, with the desktop, design and display manager in lower
//! case, and the disko description of the disk plan.
use vstd::prelude::*;
use crate::drives::{
    disk_label_name, disko_entries, disko_parts_view, disko_ready, numbered, opt_view, usable_sectors, Disk,
    DiskLabel, DiskView, DiskoConfig,
};
use crate::text::{to_lowercase, unicode_lowercase};
use crate::users::User;

verus! {

/// The system choices as the backend reads them.
pub struct SystemChoices {
    pub base: Option<String>,
    pub hostname: Option<String>,
    pub keyboard_layout: Option<String>,
    pub locale: Option<String>,
    pub timezone: Option<String>,
    pub root_passwd_hash: Option<String>,
    pub desktop_environment: Option<String>,
    pub design: Option<String>,
    pub display_manager: Option<String>,
    pub users: Vec<User>,
    pub extra_packages: Vec<String>,
}

/// The system choices and the disk plan, if a disk is configured.
pub struct InstallerConfig {
    pub config: SystemChoices,
    pub drives: Option<DiskoConfig>,
}

/// A choice in lower case.
pub open spec fn lowered(o: Option<String>) -> Option<Seq<char>> {
    match o {
        Some(s) => Some(unicode_lowercase(s@)),
        None => None,
    }
}

fn lower_opt(o: Option<String>) -> (r: Option<String>)
    ensures
        opt_view(r) == lowered(o),
{
    match o {
        Some(s) => Some(to_lowercase(s.as_str())),
        None => None,
    }
}

/// The system choices: the desktop environment, design and display manager
/// lower-cased, everything else as given.
pub fn system_choices(
    base: Option<String>,
    hostname: Option<String>,
    keyboard_layout: Option<String>,
    locale: Option<String>,
    timezone: Option<String>,
    root_passwd_hash: Option<String>,
    desktop_environment: Option<String>,
    design: Option<String>,
    display_manager: Option<String>,
    users: Vec<User>,
    extra_packages: Vec<String>,
) -> (r: SystemChoices)
    ensures
        r.base == base && r.hostname == hostname && r.keyboard_layout == keyboard_layout,
        r.locale == locale && r.timezone == timezone && r.root_passwd_hash == root_passwd_hash,
        opt_view(r.desktop_environment) == lowered(desktop_environment),
        opt_view(r.design) == lowered(design),
        opt_view(r.display_manager) == lowered(display_manager),
        r.users == users,
        r.extra_packages == extra_packages,
{
    SystemChoices {
        base,
        hostname,
        keyboard_layout,
        locale,
        timezone,
        root_passwd_hash,
        desktop_environment: lower_opt(desktop_environment),
        design: lower_opt(design),
        display_manager: lower_opt(display_manager),
        users,
        extra_packages,
    }
}

/// The disk plan can be described for disko (see `Disk::as_disko_cfg`).
pub open spec fn plan_ready(d: Option<Disk>) -> bool {
    match d {
        Some(disk) => disk.wf() && disko_ready(numbered(disk@).layout, disk@.total_used_sectors as nat),
        None => true,
    }
}

/// The choices with the disko description of the configured disk, which is
/// numbered on the way (see `Disk::as_disko_cfg`); no description when no
/// disk is configured.
pub fn installer_config(config: SystemChoices, drive_config: &mut Option<Disk>) -> (r: InstallerConfig)
    requires
        plan_ready(*old(drive_config)),
    ensures
        r.config == config,
        match *old(drive_config) {
            None => r.drives is None && *final(drive_config) is None,
            Some(d) => {
                &&& *final(drive_config) matches Some(e) && e.wf() && e@ == (DiskView {
                    total_used_sectors: 0,
                    ..numbered(d@)
                })
                &&& r.drives matches Some(c) && c.device@ == "/dev/"@ + d@.name && c.label@
                    == disk_label_name(d@.label) && disko_parts_view(c.partitions@) == disko_entries(
                    numbered(d@).layout,
                    d@.total_used_sectors as nat,
                    usable_sectors(d@),
                    d@.label == DiskLabel::Gpt,
                ).0
            },
        },
{
    match drive_config.take() {
        Some(mut d) => {
            let c = d.as_disko_cfg();
            *drive_config = Some(d);
            InstallerConfig { config, drives: Some(c) }
        },
        None => InstallerConfig { config, drives: None },
    }
}

} // verus!
