//! What the generic installer sets up for each desktop: packages, lines
//! appended to configuration files and the display manager to enable.
use vstd::prelude::*;
use crate::backend::DesktopSetup;

verus! {

/// The installation of a desktop: packages, then (file, text, description)
/// appends, then the display manager service, and last the network
/// manager's packages and service.
#[derive(Debug)]
pub struct DesktopPlan {
    pub packages: Vec<&'static str>,
    pub appends: Vec<(&'static str, &'static str, &'static str)>,
    pub display_manager: Option<&'static str>,
    pub network: (Vec<&'static str>, &'static str),
}

/// Packages of each desktop.
pub open spec fn plan_packages(setup: DesktopSetup) -> Seq<&'static str> {
    match setup {
        DesktopSetup::Onyx => seq!["xorg", "onyx", "sushi", "pipewire", "pipewire-pulse", "pipewire-alsa", "pipewire-jack", "wireplumber", "gdm"],
        DesktopSetup::Gnome => seq!["xorg", "gnome", "sushi", "pipewire", "pipewire-pulse", "pipewire-alsa", "pipewire-jack", "wireplumber", "gdm"],
        DesktopSetup::Kde => seq!["xorg", "plasma", "plasma-wayland-session", "kde-utilities", "kde-system", "pipewire", "pipewire-pulse", "pipewire-alsa", "pipewire-jack", "wireplumber", "sddm"],
        DesktopSetup::Budgie => seq!["xorg", "budgie-desktop", "gnome", "pipewire", "pipewire-pulse", "pipewire-alsa", "pipewire-jack", "wireplumber", "lightdm", "lightdm-gtk-greeter", "lightdm-gtk-greeter-settings", "xdg-desktop-portal", "xdg-desktop-portal-gtk", "xdg-utils"],
        DesktopSetup::Cinnamon => seq!["xorg", "cinnamon", "pipewire", "pipewire-pulse", "pipewire-alsa", "pipewire-jack", "wireplumber", "lightdm", "lightdm-gtk-greeter", "lightdm-gtk-greeter-settings", "metacity", "gnome-shell", "gnome-terminal"],
        DesktopSetup::Mate => seq!["xorg", "mate", "pipewire", "pipewire-pulse", "pipewire-alsa", "pipewire-jack", "wireplumber", "lightdm", "lightdm-gtk-greeter", "lightdm-gtk-greeter-settings", "mate-extra"],
        DesktopSetup::Xfce => seq!["xorg", "xfce4", "lightdm", "lightdm-gtk-greeter", "lightdm-gtk-greeter-settings", "xfce4-goodies", "pipewire", "pipewire-pulse", "pipewire-jack", "pipewire-alsa", "wireplumber", "pavucontrol"],
        DesktopSetup::Enlightenment => seq!["xorg", "enlightenment", "terminology", "pipewire", "pipewire-pulse", "pipewire-alsa", "pipewire-jack", "wireplumber", "lightdm", "lightdm-gtk-greeter", "lightdm-gtk-greeter-settings"],
        DesktopSetup::Lxqt => seq!["xorg", "lxqt", "breeze-icons", "nm-tray", "xscreensaver", "pipewire", "pipewire-pulse", "pipewire-alsa", "pipewire-jack", "wireplumber", "sddm"],
        DesktopSetup::Sway => seq!["xorg-xwayland", "sway", "bemenu", "foot", "mako", "polkit", "swaybg", "pipewire", "pipewire-pulse", "pipewire-alsa", "pipewire-jack", "wireplumber", "sddm", "xdg-user-dirs", "dex", "polkit-gnome"],
        DesktopSetup::I3 => seq!["xorg", "i3-wm", "dmenu", "i3lock", "i3status", "rxvt-unicode", "lightdm", "lightdm-gtk-greeter", "lightdm-gtk-greeter-settings", "xdg-user-dirs", "dex", "polkit-gnome"],
        DesktopSetup::Herbstluftwm => seq!["xorg", "herbstluftwm", "dmenu", "dzen2", "xorg-xsetroot", "lightdm", "lightdm-gtk-greeter", "lightdm-gtk-greeter-settings", "xdg-user-dirs"],
        DesktopSetup::Awesome => seq!["xorg", "awesome", "dex", "rlwrap", "vicious", "lightdm", "lightdm-gtk-greeter", "lightdm-gtk-greeter-settings", "xdg-user-dirs"],
        DesktopSetup::Bspwm => seq!["xorg", "bspwm", "sxhkd", "xdo", "lightdm", "lightdm-gtk-greeter", "lightdm-gtk-greeter-settings", "xdg-user-dirs"],
        DesktopSetup::NoneSelected => seq![],
    }
}

/// Configuration lines each desktop appends.
pub open spec fn plan_appends(setup: DesktopSetup) -> Seq<(&'static str, &'static str, &'static str)> {
    match setup {
        DesktopSetup::Onyx => seq![],
        DesktopSetup::Gnome => seq![],
        DesktopSetup::Kde => seq![],
        DesktopSetup::Budgie => seq![("/mnt/etc/lightdm/lightdm.conf", "[SeatDefaults]\ngreeter-session=lightdm-gtk-greeter\n", "Add lightdm greeter")],
        DesktopSetup::Cinnamon => seq![("/mnt/etc/lightdm/lightdm.conf", "[SeatDefaults]\ngreeter-session=lightdm-gtk-greeter\n", "Add lightdm greeter")],
        DesktopSetup::Mate => seq![("/mnt/etc/lightdm/lightdm.conf", "[SeatDefaults]\ngreeter-session=lightdm-gtk-greeter\n", "Add lightdm greeter")],
        DesktopSetup::Xfce => seq![("/mnt/etc/lightdm/lightdm.conf", "[SeatDefaults]\ngreeter-session=lightdm-gtk-greeter\n", "Add lightdm greeter")],
        DesktopSetup::Enlightenment => seq![("/mnt/etc/lightdm/lightdm.conf", "[SeatDefaults]\ngreeter-session=lightdm-gtk-greeter\n", "Add lightdm greeter")],
        DesktopSetup::Lxqt => seq![],
        DesktopSetup::Sway => seq![("/mnt/etc/sway/config", "exec --no-startup-id dex -a\n", "Add dex to sway config for autostart"), ("/mnt/etc/sway/config", "exec --no-startup-id /usr/lib/polkit-gnome/polkit-gnome-authentication-agent-1", "Add polkit gnome to sway config")],
        DesktopSetup::I3 => seq![("/mnt/etc/lightdm/lightdm.conf", "[SeatDefaults]\ngreeter-session=lightdm-gtk-greeter\n", "Add lightdm greeter"), ("/mnt/etc/i3/config", "exec --no-startup-id dex -a\n", "Add dex to i3 config for autostart"), ("/mnt/etc/i3/config", "exec --no-startup-id /usr/lib/polkit-gnome/polkit-gnome-authentication-agent-1", "Add polkit gnome to i3 config")],
        DesktopSetup::Herbstluftwm => seq![("/mnt/etc/lightdm/lightdm.conf", "[SeatDefaults]\ngreeter-session=lightdm-gtk-greeter\n", "Add lightdm greeter")],
        DesktopSetup::Awesome => seq![("/mnt/etc/lightdm/lightdm.conf", "[SeatDefaults]\ngreeter-session=lightdm-gtk-greeter\n", "Add lightdm greeter")],
        DesktopSetup::Bspwm => seq![("/mnt/etc/lightdm/lightdm.conf", "[SeatDefaults]\ngreeter-session=lightdm-gtk-greeter\n", "Add lightdm greeter")],
        DesktopSetup::NoneSelected => seq![],
    }
}

/// The display manager each desktop enables.
pub open spec fn plan_dm(setup: DesktopSetup) -> Option<&'static str> {
    match setup {
        DesktopSetup::Onyx => Some("gdm"),
        DesktopSetup::Gnome => Some("gdm"),
        DesktopSetup::Kde => Some("sddm"),
        DesktopSetup::Budgie => Some("lightdm"),
        DesktopSetup::Cinnamon => Some("lightdm"),
        DesktopSetup::Mate => Some("lightdm"),
        DesktopSetup::Xfce => Some("lightdm"),
        DesktopSetup::Enlightenment => Some("lightdm"),
        DesktopSetup::Lxqt => Some("sddm"),
        DesktopSetup::Sway => Some("sddm"),
        DesktopSetup::I3 => Some("lightdm"),
        DesktopSetup::Herbstluftwm => Some("lightdm"),
        DesktopSetup::Awesome => Some("lightdm"),
        DesktopSetup::Bspwm => Some("lightdm"),
        DesktopSetup::NoneSelected => None,
    }
}

/// The installation of the chosen desktop (no desktop for `NoneSelected`),
/// followed in every case by the network manager (`install_networkmanager`).
pub fn install_desktop_setup(setup: DesktopSetup) -> (r: DesktopPlan)
    ensures
        r.packages@ == plan_packages(setup),
        r.appends@ == plan_appends(setup),
        r.display_manager == plan_dm(setup),
        r.network.0@ == seq!["networkmanager"],
        r.network.1@ == "NetworkManager"@,
{
    let network = install_networkmanager();
    let r = match setup {
        DesktopSetup::Onyx => DesktopPlan {
            packages: vec!["xorg", "onyx", "sushi", "pipewire", "pipewire-pulse", "pipewire-alsa", "pipewire-jack", "wireplumber", "gdm"],
            appends: vec![],
            display_manager: Some("gdm"),
            network,
        },
        DesktopSetup::Gnome => DesktopPlan {
            packages: vec!["xorg", "gnome", "sushi", "pipewire", "pipewire-pulse", "pipewire-alsa", "pipewire-jack", "wireplumber", "gdm"],
            appends: vec![],
            display_manager: Some("gdm"),
            network,
        },
        DesktopSetup::Kde => DesktopPlan {
            packages: vec!["xorg", "plasma", "plasma-wayland-session", "kde-utilities", "kde-system", "pipewire", "pipewire-pulse", "pipewire-alsa", "pipewire-jack", "wireplumber", "sddm"],
            appends: vec![],
            display_manager: Some("sddm"),
            network,
        },
        DesktopSetup::Budgie => DesktopPlan {
            packages: vec!["xorg", "budgie-desktop", "gnome", "pipewire", "pipewire-pulse", "pipewire-alsa", "pipewire-jack", "wireplumber", "lightdm", "lightdm-gtk-greeter", "lightdm-gtk-greeter-settings", "xdg-desktop-portal", "xdg-desktop-portal-gtk", "xdg-utils"],
            appends: vec![("/mnt/etc/lightdm/lightdm.conf", "[SeatDefaults]\ngreeter-session=lightdm-gtk-greeter\n", "Add lightdm greeter")],
            display_manager: Some("lightdm"),
            network,
        },
        DesktopSetup::Cinnamon => DesktopPlan {
            packages: vec!["xorg", "cinnamon", "pipewire", "pipewire-pulse", "pipewire-alsa", "pipewire-jack", "wireplumber", "lightdm", "lightdm-gtk-greeter", "lightdm-gtk-greeter-settings", "metacity", "gnome-shell", "gnome-terminal"],
            appends: vec![("/mnt/etc/lightdm/lightdm.conf", "[SeatDefaults]\ngreeter-session=lightdm-gtk-greeter\n", "Add lightdm greeter")],
            display_manager: Some("lightdm"),
            network,
        },
        DesktopSetup::Mate => DesktopPlan {
            packages: vec!["xorg", "mate", "pipewire", "pipewire-pulse", "pipewire-alsa", "pipewire-jack", "wireplumber", "lightdm", "lightdm-gtk-greeter", "lightdm-gtk-greeter-settings", "mate-extra"],
            appends: vec![("/mnt/etc/lightdm/lightdm.conf", "[SeatDefaults]\ngreeter-session=lightdm-gtk-greeter\n", "Add lightdm greeter")],
            display_manager: Some("lightdm"),
            network,
        },
        DesktopSetup::Xfce => DesktopPlan {
            packages: vec!["xorg", "xfce4", "lightdm", "lightdm-gtk-greeter", "lightdm-gtk-greeter-settings", "xfce4-goodies", "pipewire", "pipewire-pulse", "pipewire-jack", "pipewire-alsa", "wireplumber", "pavucontrol"],
            appends: vec![("/mnt/etc/lightdm/lightdm.conf", "[SeatDefaults]\ngreeter-session=lightdm-gtk-greeter\n", "Add lightdm greeter")],
            display_manager: Some("lightdm"),
            network,
        },
        DesktopSetup::Enlightenment => DesktopPlan {
            packages: vec!["xorg", "enlightenment", "terminology", "pipewire", "pipewire-pulse", "pipewire-alsa", "pipewire-jack", "wireplumber", "lightdm", "lightdm-gtk-greeter", "lightdm-gtk-greeter-settings"],
            appends: vec![("/mnt/etc/lightdm/lightdm.conf", "[SeatDefaults]\ngreeter-session=lightdm-gtk-greeter\n", "Add lightdm greeter")],
            display_manager: Some("lightdm"),
            network,
        },
        DesktopSetup::Lxqt => DesktopPlan {
            packages: vec!["xorg", "lxqt", "breeze-icons", "nm-tray", "xscreensaver", "pipewire", "pipewire-pulse", "pipewire-alsa", "pipewire-jack", "wireplumber", "sddm"],
            appends: vec![],
            display_manager: Some("sddm"),
            network,
        },
        DesktopSetup::Sway => DesktopPlan {
            packages: vec!["xorg-xwayland", "sway", "bemenu", "foot", "mako", "polkit", "swaybg", "pipewire", "pipewire-pulse", "pipewire-alsa", "pipewire-jack", "wireplumber", "sddm", "xdg-user-dirs", "dex", "polkit-gnome"],
            appends: vec![("/mnt/etc/sway/config", "exec --no-startup-id dex -a\n", "Add dex to sway config for autostart"), ("/mnt/etc/sway/config", "exec --no-startup-id /usr/lib/polkit-gnome/polkit-gnome-authentication-agent-1", "Add polkit gnome to sway config")],
            display_manager: Some("sddm"),
            network,
        },
        DesktopSetup::I3 => DesktopPlan {
            packages: vec!["xorg", "i3-wm", "dmenu", "i3lock", "i3status", "rxvt-unicode", "lightdm", "lightdm-gtk-greeter", "lightdm-gtk-greeter-settings", "xdg-user-dirs", "dex", "polkit-gnome"],
            appends: vec![("/mnt/etc/lightdm/lightdm.conf", "[SeatDefaults]\ngreeter-session=lightdm-gtk-greeter\n", "Add lightdm greeter"), ("/mnt/etc/i3/config", "exec --no-startup-id dex -a\n", "Add dex to i3 config for autostart"), ("/mnt/etc/i3/config", "exec --no-startup-id /usr/lib/polkit-gnome/polkit-gnome-authentication-agent-1", "Add polkit gnome to i3 config")],
            display_manager: Some("lightdm"),
            network,
        },
        DesktopSetup::Herbstluftwm => DesktopPlan {
            packages: vec!["xorg", "herbstluftwm", "dmenu", "dzen2", "xorg-xsetroot", "lightdm", "lightdm-gtk-greeter", "lightdm-gtk-greeter-settings", "xdg-user-dirs"],
            appends: vec![("/mnt/etc/lightdm/lightdm.conf", "[SeatDefaults]\ngreeter-session=lightdm-gtk-greeter\n", "Add lightdm greeter")],
            display_manager: Some("lightdm"),
            network,
        },
        DesktopSetup::Awesome => DesktopPlan {
            packages: vec!["xorg", "awesome", "dex", "rlwrap", "vicious", "lightdm", "lightdm-gtk-greeter", "lightdm-gtk-greeter-settings", "xdg-user-dirs"],
            appends: vec![("/mnt/etc/lightdm/lightdm.conf", "[SeatDefaults]\ngreeter-session=lightdm-gtk-greeter\n", "Add lightdm greeter")],
            display_manager: Some("lightdm"),
            network,
        },
        DesktopSetup::Bspwm => DesktopPlan {
            packages: vec!["xorg", "bspwm", "sxhkd", "xdo", "lightdm", "lightdm-gtk-greeter", "lightdm-gtk-greeter-settings", "xdg-user-dirs"],
            appends: vec![("/mnt/etc/lightdm/lightdm.conf", "[SeatDefaults]\ngreeter-session=lightdm-gtk-greeter\n", "Add lightdm greeter")],
            display_manager: Some("lightdm"),
            network,
        },
        DesktopSetup::NoneSelected => DesktopPlan {
            packages: Vec::new(),
            appends: Vec::new(),
            display_manager: None,
            network,
        },
    };
    assert(r.packages@ =~= plan_packages(setup));
    assert(r.appends@ =~= plan_appends(setup));
    r
}

/// The network manager's package and the service to enable.
pub fn install_networkmanager() -> (r: (Vec<&'static str>, &'static str))
    ensures
        r.0@ == seq!["networkmanager"],
        r.1@ == "NetworkManager"@,
{
    let p = vec!["networkmanager"];
    assert(p@ =~= seq!["networkmanager"]);
    (p, "NetworkManager")
}

/// The arguments of `systemctl` that enable a display manager.
pub fn enable_dm(dm: &str) -> (r: Vec<String>)
    ensures
        r@.map_values(|s: String| s@) == seq!["enable"@, dm@],
{
    let r = vec![crate::text::owned("enable"), crate::text::owned(dm)];
    assert(r@.map_values(|s: String| s@) =~= seq!["enable"@, dm@]);
    r
}

} // verus!
