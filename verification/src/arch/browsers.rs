use vstd::prelude::*;

verus! {

/// Browsers that the Arch backend can set up.
#[derive(Clone, Copy, Debug, PartialEq, Eq, Structural)]
pub enum BrowserSetup {
    Firefox,
    Brave,
    NoneSelected,
}

/// Packages that make up each BrowserSetup choice.
pub open spec fn browser_packages(setup: BrowserSetup) -> Seq<&'static str> {
    match setup {
        BrowserSetup::Firefox => seq!["athena-firefox-config"],
        BrowserSetup::Brave => seq!["athena-brave-config"],
        BrowserSetup::NoneSelected => seq![],
    }
}

/// Packages to install for the chosen setup; none for `NoneSelected`.
pub fn install_browser_setup(setup: BrowserSetup) -> (r: Vec<&'static str>)
    ensures
        r@ == browser_packages(setup),
{
    match setup {
        BrowserSetup::Firefox => install_firefox(),
        BrowserSetup::Brave => install_brave(),
        BrowserSetup::NoneSelected => Vec::new(),
    }
}

/// Packages of the `Firefox` setup.
pub fn install_firefox() -> (r: Vec<&'static str>)
    ensures
        r@ == browser_packages(BrowserSetup::Firefox),
{
    vec!["athena-firefox-config"]
}

/// Packages of the `Brave` setup.
pub fn install_brave() -> (r: Vec<&'static str>)
    ensures
        r@ == browser_packages(BrowserSetup::Brave),
{
    vec!["athena-brave-config"]
}


} // verus!
