use vstd::prelude::*;

verus! {

/// Login shells that the Arch backend can set up.
#[derive(Clone, Copy, Debug, PartialEq, Eq, Structural)]
pub enum ShellSetup {
    Bash,
    Fish,
    Zsh,
    NoneSelected,
}

/// Packages that make up each ShellSetup choice.
pub open spec fn shell_packages(setup: ShellSetup) -> Seq<&'static str> {
    match setup {
        ShellSetup::Bash => seq!["bash", "bash-completion", "blesh-git"],
        ShellSetup::Fish => seq!["athena-fish"],
        ShellSetup::Zsh => seq!["athena-zsh"],
        ShellSetup::NoneSelected => seq![],
    }
}

/// Packages to install for the chosen setup; none for `NoneSelected`.
pub fn install_shell_setup(setup: ShellSetup) -> (r: Vec<&'static str>)
    ensures
        r@ == shell_packages(setup),
{
    match setup {
        ShellSetup::Bash => install_bash(),
        ShellSetup::Fish => install_fish(),
        ShellSetup::Zsh => install_zsh(),
        ShellSetup::NoneSelected => Vec::new(),
    }
}

/// Packages of the `Bash` setup.
pub fn install_bash() -> (r: Vec<&'static str>)
    ensures
        r@ == shell_packages(ShellSetup::Bash),
{
    vec!["bash", "bash-completion", "blesh-git"]
}

/// Packages of the `Fish` setup.
pub fn install_fish() -> (r: Vec<&'static str>)
    ensures
        r@ == shell_packages(ShellSetup::Fish),
{
    vec!["athena-fish"]
}

/// Packages of the `Zsh` setup.
pub fn install_zsh() -> (r: Vec<&'static str>)
    ensures
        r@ == shell_packages(ShellSetup::Zsh),
{
    vec!["athena-zsh"]
}


} // verus!
