use vstd::prelude::*;

verus! {

/// Terminal emulators that the Arch backend can set up.
#[derive(Clone, Copy, Debug, PartialEq, Eq, Structural)]
pub enum TerminalSetup {
    Alacritty,
    CoolRetroTerm,
    Foot,
    GnomeTerminal,
    Kitty,
    Konsole,
    Terminator,
    Terminology,
    Urxvt,
    Xfce,
    Xterm,
    NoneSelected,
}

/// Packages that make up each TerminalSetup choice.
pub open spec fn terminal_packages(setup: TerminalSetup) -> Seq<&'static str> {
    match setup {
        TerminalSetup::Alacritty => seq!["athena-alacritty-config"],
        TerminalSetup::CoolRetroTerm => seq!["cool-retro-term"],
        TerminalSetup::Foot => seq!["foot"],
        TerminalSetup::GnomeTerminal => seq!["gnome-terminal"],
        TerminalSetup::Kitty => seq!["athena-kitty-config"],
        TerminalSetup::Konsole => seq!["konsole"],
        TerminalSetup::Terminator => seq!["terminator"],
        TerminalSetup::Terminology => seq!["terminology"],
        TerminalSetup::Urxvt => seq!["rxvt-unicode"],
        TerminalSetup::Xfce => seq!["xfce4-terminal"],
        TerminalSetup::Xterm => seq!["xterm"],
        TerminalSetup::NoneSelected => seq![],
    }
}

/// Packages to install for the chosen setup; none for `NoneSelected`.
pub fn install_terminal_setup(setup: TerminalSetup) -> (r: Vec<&'static str>)
    ensures
        r@ == terminal_packages(setup),
{
    match setup {
        TerminalSetup::Alacritty => install_alacritty(),
        TerminalSetup::CoolRetroTerm => install_coolretroterm(),
        TerminalSetup::Foot => install_foot(),
        TerminalSetup::GnomeTerminal => install_gnometerminal(),
        TerminalSetup::Kitty => install_kitty(),
        TerminalSetup::Konsole => install_konsole(),
        TerminalSetup::Terminator => install_terminator(),
        TerminalSetup::Terminology => install_terminology(),
        TerminalSetup::Urxvt => install_urxvt(),
        TerminalSetup::Xfce => install_xfce(),
        TerminalSetup::Xterm => install_xterm(),
        TerminalSetup::NoneSelected => Vec::new(),
    }
}

/// Packages of the `Alacritty` setup.
pub fn install_alacritty() -> (r: Vec<&'static str>)
    ensures
        r@ == terminal_packages(TerminalSetup::Alacritty),
{
    vec!["athena-alacritty-config"]
}

/// Packages of the `CoolRetroTerm` setup.
pub fn install_coolretroterm() -> (r: Vec<&'static str>)
    ensures
        r@ == terminal_packages(TerminalSetup::CoolRetroTerm),
{
    vec!["cool-retro-term"]
}

/// Packages of the `Foot` setup.
pub fn install_foot() -> (r: Vec<&'static str>)
    ensures
        r@ == terminal_packages(TerminalSetup::Foot),
{
    vec!["foot"]
}

/// Packages of the `GnomeTerminal` setup.
pub fn install_gnometerminal() -> (r: Vec<&'static str>)
    ensures
        r@ == terminal_packages(TerminalSetup::GnomeTerminal),
{
    vec!["gnome-terminal"]
}

/// Packages of the `Kitty` setup.
pub fn install_kitty() -> (r: Vec<&'static str>)
    ensures
        r@ == terminal_packages(TerminalSetup::Kitty),
{
    vec!["athena-kitty-config"]
}

/// Packages of the `Konsole` setup.
pub fn install_konsole() -> (r: Vec<&'static str>)
    ensures
        r@ == terminal_packages(TerminalSetup::Konsole),
{
    vec!["konsole"]
}

/// Packages of the `Terminator` setup.
pub fn install_terminator() -> (r: Vec<&'static str>)
    ensures
        r@ == terminal_packages(TerminalSetup::Terminator),
{
    vec!["terminator"]
}

/// Packages of the `Terminology` setup.
pub fn install_terminology() -> (r: Vec<&'static str>)
    ensures
        r@ == terminal_packages(TerminalSetup::Terminology),
{
    vec!["terminology"]
}

/// Packages of the `Urxvt` setup.
pub fn install_urxvt() -> (r: Vec<&'static str>)
    ensures
        r@ == terminal_packages(TerminalSetup::Urxvt),
{
    vec!["rxvt-unicode"]
}

/// Packages of the `Xfce` setup.
pub fn install_xfce() -> (r: Vec<&'static str>)
    ensures
        r@ == terminal_packages(TerminalSetup::Xfce),
{
    vec!["xfce4-terminal"]
}

/// Packages of the `Xterm` setup.
pub fn install_xterm() -> (r: Vec<&'static str>)
    ensures
        r@ == terminal_packages(TerminalSetup::Xterm),
{
    vec!["xterm"]
}


} // verus!
