use vstd::prelude::*;
use crate::arch::steps::{disable_step, disable_wsession, disable_xsession, steps_view, StepView, SystemStep};

verus! {

/// Desktop environments and window managers that the Arch backend can set up.
#[derive(Clone, Copy, Debug, PartialEq, Eq, Structural)]
pub enum DesktopSetup {
    Onyx,
    Gnome,
    Kde,
    Budgie,
    Cinnamon,
    Mate,
    XfceRefined,
    XfcePicom,
    Enlightenment,
    Lxqt,
    Sway,
    I3,
    Herbstluftwm,
    Awesome,
    Bspwm,
    Hyprland,
    NoneSelected,
}

/// Packages that make up each DesktopSetup choice.
pub open spec fn desktop_packages(setup: DesktopSetup) -> Seq<&'static str> {
    match setup {
        DesktopSetup::Onyx => seq!["xorg", "onyx", "sushi", "pipewire", "pipewire-pulse", "pipewire-alsa", "pipewire-jack", "wireplumber", "gdm"],
        DesktopSetup::Gnome => seq!["athena-gnome-config"],
        DesktopSetup::Kde => seq!["athena-kde-base"],
        DesktopSetup::Budgie => seq!["xorg", "budgie-desktop", "gnome", "pipewire", "pipewire-pulse", "pipewire-alsa", "pipewire-jack", "wireplumber", "lightdm", "lightdm-gtk-greeter", "lightdm-gtk-greeter-settings", "xdg-desktop-portal", "xdg-desktop-portal-gtk", "xdg-utils"],
        DesktopSetup::Cinnamon => seq!["athena-cinnamon-base"],
        DesktopSetup::Mate => seq!["athena-mate-base"],
        DesktopSetup::XfceRefined => seq!["athena-xfce-refined"],
        DesktopSetup::XfcePicom => seq!["athena-xfce-picom"],
        DesktopSetup::Enlightenment => seq!["xorg", "enlightenment", "terminology", "pipewire", "pipewire-pulse", "pipewire-alsa", "pipewire-jack", "wireplumber", "lightdm", "lightdm-gtk-greeter", "lightdm-gtk-greeter-settings"],
        DesktopSetup::Lxqt => seq!["xorg", "lxqt", "breeze-icons", "nm-tray", "xscreensaver", "pipewire", "pipewire-pulse", "pipewire-alsa", "pipewire-jack", "wireplumber", "sddm"],
        DesktopSetup::Sway => seq!["xorg-xwayland", "sway", "bemenu", "foot", "mako", "polkit", "swaybg", "pipewire", "pipewire-pulse", "pipewire-alsa", "pipewire-jack", "wireplumber", "sddm", "xdg-user-dirs", "dex", "polkit-gnome"],
        DesktopSetup::I3 => seq!["xorg", "i3-wm", "dmenu", "i3lock", "i3status", "rxvt-unicode", "lightdm", "lightdm-gtk-greeter", "lightdm-gtk-greeter-settings", "xdg-user-dirs", "dex", "polkit-gnome"],
        DesktopSetup::Herbstluftwm => seq!["xorg", "herbstluftwm", "dmenu", "dzen2", "xorg-xsetroot", "lightdm", "lightdm-gtk-greeter", "lightdm-gtk-greeter-settings", "xdg-user-dirs"],
        DesktopSetup::Awesome => seq!["xorg", "awesome", "dex", "rlwrap", "vicious", "lightdm", "lightdm-gtk-greeter", "lightdm-gtk-greeter-settings", "xdg-user-dirs"],
        DesktopSetup::Bspwm => seq!["athena-bspwm-config"],
        DesktopSetup::Hyprland => seq!["athena-hyprland-config"],
        DesktopSetup::NoneSelected => seq![],
    }
}

/// Packages to install for the chosen setup; none for `NoneSelected`.
pub fn install_desktop_setup(setup: DesktopSetup) -> (r: Vec<&'static str>)
    ensures
        r@ == desktop_packages(setup),
{
    match setup {
        DesktopSetup::Onyx => install_onyx(),
        DesktopSetup::Gnome => install_gnome(),
        DesktopSetup::Kde => install_kde(),
        DesktopSetup::Budgie => install_budgie(),
        DesktopSetup::Cinnamon => install_cinnamon(),
        DesktopSetup::Mate => install_mate(),
        DesktopSetup::XfceRefined => install_xfce_refined(),
        DesktopSetup::XfcePicom => install_xfce_picom(),
        DesktopSetup::Enlightenment => install_enlightenment(),
        DesktopSetup::Lxqt => install_lxqt(),
        DesktopSetup::Sway => install_sway(),
        DesktopSetup::I3 => install_i3(),
        DesktopSetup::Herbstluftwm => install_herbstluftwm(),
        DesktopSetup::Awesome => install_awesome(),
        DesktopSetup::Bspwm => install_bspwm(),
        DesktopSetup::Hyprland => install_hyprland(),
        DesktopSetup::NoneSelected => Vec::new(),
    }
}

/// Packages of the `Onyx` setup.
pub fn install_onyx() -> (r: Vec<&'static str>)
    ensures
        r@ == desktop_packages(DesktopSetup::Onyx),
{
    vec!["xorg", "onyx", "sushi", "pipewire", "pipewire-pulse", "pipewire-alsa", "pipewire-jack", "wireplumber", "gdm"]
}

/// Packages of the `Gnome` setup.
pub fn install_gnome() -> (r: Vec<&'static str>)
    ensures
        r@ == desktop_packages(DesktopSetup::Gnome),
{
    vec!["athena-gnome-config"]
}

/// Packages of the `Kde` setup.
pub fn install_kde() -> (r: Vec<&'static str>)
    ensures
        r@ == desktop_packages(DesktopSetup::Kde),
{
    vec!["athena-kde-base"]
}

/// Packages of the `Budgie` setup.
pub fn install_budgie() -> (r: Vec<&'static str>)
    ensures
        r@ == desktop_packages(DesktopSetup::Budgie),
{
    vec!["xorg", "budgie-desktop", "gnome", "pipewire", "pipewire-pulse", "pipewire-alsa", "pipewire-jack", "wireplumber", "lightdm", "lightdm-gtk-greeter", "lightdm-gtk-greeter-settings", "xdg-desktop-portal", "xdg-desktop-portal-gtk", "xdg-utils"]
}

/// Packages of the `Cinnamon` setup.
pub fn install_cinnamon() -> (r: Vec<&'static str>)
    ensures
        r@ == desktop_packages(DesktopSetup::Cinnamon),
{
    vec!["athena-cinnamon-base"]
}

/// Packages of the `Mate` setup.
pub fn install_mate() -> (r: Vec<&'static str>)
    ensures
        r@ == desktop_packages(DesktopSetup::Mate),
{
    vec!["athena-mate-base"]
}

/// Packages of the `XfceRefined` setup.
pub fn install_xfce_refined() -> (r: Vec<&'static str>)
    ensures
        r@ == desktop_packages(DesktopSetup::XfceRefined),
{
    vec!["athena-xfce-refined"]
}

/// Packages of the `XfcePicom` setup.
pub fn install_xfce_picom() -> (r: Vec<&'static str>)
    ensures
        r@ == desktop_packages(DesktopSetup::XfcePicom),
{
    vec!["athena-xfce-picom"]
}

/// Packages of the `Enlightenment` setup.
pub fn install_enlightenment() -> (r: Vec<&'static str>)
    ensures
        r@ == desktop_packages(DesktopSetup::Enlightenment),
{
    vec!["xorg", "enlightenment", "terminology", "pipewire", "pipewire-pulse", "pipewire-alsa", "pipewire-jack", "wireplumber", "lightdm", "lightdm-gtk-greeter", "lightdm-gtk-greeter-settings"]
}

/// Packages of the `Lxqt` setup.
pub fn install_lxqt() -> (r: Vec<&'static str>)
    ensures
        r@ == desktop_packages(DesktopSetup::Lxqt),
{
    vec!["xorg", "lxqt", "breeze-icons", "nm-tray", "xscreensaver", "pipewire", "pipewire-pulse", "pipewire-alsa", "pipewire-jack", "wireplumber", "sddm"]
}

/// Packages of the `Sway` setup.
pub fn install_sway() -> (r: Vec<&'static str>)
    ensures
        r@ == desktop_packages(DesktopSetup::Sway),
{
    vec!["xorg-xwayland", "sway", "bemenu", "foot", "mako", "polkit", "swaybg", "pipewire", "pipewire-pulse", "pipewire-alsa", "pipewire-jack", "wireplumber", "sddm", "xdg-user-dirs", "dex", "polkit-gnome"]
}

/// Packages of the `I3` setup.
pub fn install_i3() -> (r: Vec<&'static str>)
    ensures
        r@ == desktop_packages(DesktopSetup::I3),
{
    vec!["xorg", "i3-wm", "dmenu", "i3lock", "i3status", "rxvt-unicode", "lightdm", "lightdm-gtk-greeter", "lightdm-gtk-greeter-settings", "xdg-user-dirs", "dex", "polkit-gnome"]
}

/// Packages of the `Herbstluftwm` setup.
pub fn install_herbstluftwm() -> (r: Vec<&'static str>)
    ensures
        r@ == desktop_packages(DesktopSetup::Herbstluftwm),
{
    vec!["xorg", "herbstluftwm", "dmenu", "dzen2", "xorg-xsetroot", "lightdm", "lightdm-gtk-greeter", "lightdm-gtk-greeter-settings", "xdg-user-dirs"]
}

/// Packages of the `Awesome` setup.
pub fn install_awesome() -> (r: Vec<&'static str>)
    ensures
        r@ == desktop_packages(DesktopSetup::Awesome),
{
    vec!["xorg", "awesome", "dex", "rlwrap", "vicious", "lightdm", "lightdm-gtk-greeter", "lightdm-gtk-greeter-settings", "xdg-user-dirs"]
}

/// Packages of the `Bspwm` setup.
pub fn install_bspwm() -> (r: Vec<&'static str>)
    ensures
        r@ == desktop_packages(DesktopSetup::Bspwm),
{
    vec!["athena-bspwm-config"]
}

/// Packages of the `Hyprland` setup.
pub fn install_hyprland() -> (r: Vec<&'static str>)
    ensures
        r@ == desktop_packages(DesktopSetup::Hyprland),
{
    vec!["athena-hyprland-config"]
}



/// The sessions that the GNOME setup hides: its classic and X11 variants
/// and the stock sessions, so that only the Athena session shows.
pub open spec fn gnome_disable_steps() -> Seq<StepView> {
    let x = "/mnt/usr/share/xsessions/"@;
    let w = "/mnt/usr/share/wayland-sessions/"@;
    seq![
        disable_step(x, "gnome.desktop"@),
        disable_step(x, "gnome-classic.desktop"@),
        disable_step(x, "gnome-classic-xorg.desktop"@),
        disable_step(w, "gnome.desktop"@),
        disable_step(w, "gnome-wayland.desktop"@),
        disable_step(w, "gnome-classic.desktop"@),
        disable_step(w, "gnome-classic-wayland.desktop"@),
    ]
}

/// The steps that configure GNOME.
pub fn configure_gnome() -> (r: Vec<SystemStep>)
    ensures
        steps_view(r@) == gnome_disable_steps(),
{
    let r = vec![
        disable_xsession("gnome.desktop"),
        disable_xsession("gnome-classic.desktop"),
        disable_xsession("gnome-classic-xorg.desktop"),
        disable_wsession("gnome.desktop"),
        disable_wsession("gnome-wayland.desktop"),
        disable_wsession("gnome-classic.desktop"),
        disable_wsession("gnome-classic-wayland.desktop"),
    ];
    assert(steps_view(r@) =~= gnome_disable_steps());
    r
}

} // verus!
