use vstd::prelude::*;
use crate::arch::steps::{disable_step, disable_wsession, disable_xsession, edit_file, edit_view, steps_view, StepView, SystemStep};
use crate::text::{contains, contains_seq, owned, str_eq};

verus! {

/// Display managers that the Arch backend can set up.
#[derive(Clone, Copy, Debug, PartialEq, Eq, Structural)]
pub enum DMSetup {
    Gdm,
    LightDMNeon,
    Sddm,
    NoneSelected,
}

/// Packages that make up each DMSetup choice.
pub open spec fn dm_packages(setup: DMSetup) -> Seq<&'static str> {
    match setup {
        DMSetup::Gdm => seq!["athena-gdm-config"],
        DMSetup::LightDMNeon => seq!["athena-lightdm-neon-theme"],
        DMSetup::Sddm => seq!["sddm-astronaut-theme"],
        DMSetup::NoneSelected => seq![],
    }
}

/// Packages to install for the chosen setup; none for `NoneSelected`.
pub fn install_dm_setup(setup: DMSetup) -> (r: Vec<&'static str>)
    ensures
        r@ == dm_packages(setup),
{
    match setup {
        DMSetup::Gdm => install_gdm(),
        DMSetup::LightDMNeon => install_lightdm_neon(),
        DMSetup::Sddm => install_sddm(),
        DMSetup::NoneSelected => Vec::new(),
    }
}

/// Packages of the `Gdm` setup.
pub fn install_gdm() -> (r: Vec<&'static str>)
    ensures
        r@ == dm_packages(DMSetup::Gdm),
{
    vec!["athena-gdm-config"]
}

/// Packages of the `LightDMNeon` setup.
pub fn install_lightdm_neon() -> (r: Vec<&'static str>)
    ensures
        r@ == dm_packages(DMSetup::LightDMNeon),
{
    vec!["athena-lightdm-neon-theme"]
}

/// Packages of the `Sddm` setup.
pub fn install_sddm() -> (r: Vec<&'static str>)
    ensures
        r@ == dm_packages(DMSetup::Sddm),
{
    vec!["sddm-astronaut-theme"]
}



/// GDM's setup: without GNOME, its udev rule is set aside and the GNOME
/// sessions hidden; with GNOME, Wayland is turned off. Then GDM is enabled.
pub open spec fn gdm_steps(desktop: Seq<char>) -> Seq<StepView> {
    (if !contains_seq(desktop, "gnome"@) {
        seq![
            StepView::Rename {
                from: "/mnt/usr/lib/udev/rules.d/61-gdm.rules"@,
                to: "/mnt/usr/lib/udev/rules.d/61-gdm.rules.bak"@,
            },
            disable_step("/mnt/usr/share/xsessions/"@, "gnome.desktop"@),
            disable_step("/mnt/usr/share/xsessions/"@, "gnome-xorg.desktop"@),
            disable_step("/mnt/usr/share/wayland-sessions/"@, "gnome.desktop"@),
            disable_step("/mnt/usr/share/wayland-sessions/"@, "gnome-wayland.desktop"@),
        ]
    } else {
        seq![
            edit_view(
                "/mnt/etc/gdm/custom.conf"@,
                ".*WaylandEnable=.*"@,
                "WaylandEnable=false"@,
                "Disable Wayland in GNOME"@,
            ),
        ]
    }).push(StepView::EnableService("gdm"@))
}

/// The steps that configure GDM for the chosen desktop.
pub fn configure_gdm(desktop: &str) -> (r: Vec<SystemStep>)
    ensures
        steps_view(r@) == gdm_steps(desktop@),
{
    let mut r: Vec<SystemStep> = Vec::new();
    if !contains(desktop, "gnome") {
        r.push(
            SystemStep::Rename {
                from: owned("/mnt/usr/lib/udev/rules.d/61-gdm.rules"),
                to: owned("/mnt/usr/lib/udev/rules.d/61-gdm.rules.bak"),
            },
        );
        r.push(disable_xsession("gnome.desktop"));
        r.push(disable_xsession("gnome-xorg.desktop"));
        r.push(disable_wsession("gnome.desktop"));
        r.push(disable_wsession("gnome-wayland.desktop"));
    } else {
        r.push(
            edit_file(
                "/mnt/etc/gdm/custom.conf",
                ".*WaylandEnable=.*",
                "WaylandEnable=false",
                "Disable Wayland in GNOME",
            ),
        );
    }
    r.push(SystemStep::EnableService("gdm"));
    assert(steps_view(r@) =~= gdm_steps(desktop@));
    r
}

/// The LightDM session for the desktop: GNOME on X11, XFCE or Hyprland.
pub open spec fn lightdm_session_steps(desktop: Seq<char>) -> Seq<StepView> {
    let file = "/mnt/etc/lightdm/lightdm.conf"@;
    let pattern = "#user-session=.*"@;
    (if contains_seq(desktop, "gnome"@) {
        seq![edit_view(file, pattern, "user-session=gnome-xorg"@, "Apply GNOME User Session on LightDM"@)]
    } else {
        seq![]
    }) + (if contains_seq(desktop, "xfce"@) {
        seq![edit_view(file, pattern, "user-session=xfce"@, "Apply XFCE User Session on LightDM"@)]
    } else {
        seq![]
    }) + (if desktop == "hyprland"@ {
        seq![edit_view(file, pattern, "user-session=Hyprland"@, "Apply Hyprland User Session on LightDM"@)]
    } else {
        seq![]
    })
}

/// The steps that configure LightDM with the Neon theme: the session for
/// the desktop, then the service.
pub fn configure_lightdm_neon(desktop: &str) -> (r: Vec<SystemStep>)
    ensures
        steps_view(r@) == lightdm_session_steps(desktop@).push(StepView::EnableService("lightdm"@)),
{
    let mut r: Vec<SystemStep> = Vec::new();
    if contains(desktop, "gnome") {
        r.push(
            edit_file(
                "/mnt/etc/lightdm/lightdm.conf",
                "#user-session=.*",
                "user-session=gnome-xorg",
                "Apply GNOME User Session on LightDM",
            ),
        );
    }
    if contains(desktop, "xfce") {
        r.push(
            edit_file(
                "/mnt/etc/lightdm/lightdm.conf",
                "#user-session=.*",
                "user-session=xfce",
                "Apply XFCE User Session on LightDM",
            ),
        );
    }
    if str_eq(desktop, "hyprland") {
        r.push(
            edit_file(
                "/mnt/etc/lightdm/lightdm.conf",
                "#user-session=.*",
                "user-session=Hyprland",
                "Apply Hyprland User Session on LightDM",
            ),
        );
    }
    r.push(SystemStep::EnableService("lightdm"));
    assert(steps_view(r@) =~= lightdm_session_steps(desktop@).push(StepView::EnableService("lightdm"@)));
    r
}

} // verus!
