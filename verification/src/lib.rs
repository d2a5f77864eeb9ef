use vstd::prelude::*;

pub mod arch;
pub mod text;
pub mod numbers;
pub mod drives;
pub mod widgets;
pub mod packages;
pub mod users;
pub mod installer;
pub mod drivepages;
pub mod backend;
pub mod fedora;
pub mod installer_desktops;
pub mod lsblk;
pub mod overlap;
pub mod alter;
pub mod manual;
pub mod passwords;
pub mod pages;
pub mod selectpages;
pub mod userpages;
pub mod newpartition;
pub mod picker;
pub mod choicepages;
pub mod logo;
pub mod nix_plan;
pub mod ticker;
pub mod install_steps;
pub mod logbox;
pub mod export;
pub mod setup_laws;
pub mod size_laws;
pub mod layout_laws;
pub mod laws;

verus! {

} // verus!
