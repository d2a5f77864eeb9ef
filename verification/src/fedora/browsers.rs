//! Browsers that the Fedora backend can set up.
use vstd::prelude::*;
use crate::arch::browsers::BrowserSetup;

verus! {

/// Packages that make up each browser choice on Fedora.
pub open spec fn fedora_browser_packages(setup: BrowserSetup) -> Seq<&'static str> {
    match setup {
        BrowserSetup::Firefox => seq!["firefox-blackice"],
        BrowserSetup::Brave => seq!["athena-brave-config"],
        BrowserSetup::NoneSelected => seq![],
    }
}

/// Packages to install for the chosen browser; none for `NoneSelected`.
pub fn install_browser_setup(setup: BrowserSetup) -> (r: Vec<&'static str>)
    ensures
        r@ == fedora_browser_packages(setup),
{
    match setup {
        BrowserSetup::Firefox => install_firefox(),
        BrowserSetup::Brave => install_brave(),
        BrowserSetup::NoneSelected => Vec::new(),
    }
}

/// Packages of the Firefox setup.
pub fn install_firefox() -> (r: Vec<&'static str>)
    ensures
        r@ == fedora_browser_packages(BrowserSetup::Firefox),
{
    vec!["firefox-blackice"]
}

/// Packages of the Brave setup.
pub fn install_brave() -> (r: Vec<&'static str>)
    ensures
        r@ == fedora_browser_packages(BrowserSetup::Brave),
{
    vec!["athena-brave-config"]
}

} // verus!
