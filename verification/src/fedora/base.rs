//! The base system that the Fedora backend installs and the services it enables.
use vstd::prelude::*;
use crate::text::{str_eq, trim, trim_seq};

verus! {

/// The kernel, firmware, locales and RPM Fusion repositories.
pub open spec fn fedora_base() -> Seq<&'static str> {
    seq![
        "kernel",
        "kernel-modules",
        "kernel-modules-extra",
        "kernel-headers",
        "linux-firmware",
        "glibc-all-langpacks",
        "https://download1.rpmfusion.org/free/fedora/rpmfusion-free-release-$(rpm -E %fedora).noarch.rpm",
        "https://download1.rpmfusion.org/nonfree/fedora/rpmfusion-nonfree-release-$(rpm -E %fedora).noarch.rpm",
    ]
}

/// The packages handed to dnf: the chosen ones, then the base, and the btrfs
/// tools when the root file system (as `findmnt` printed it) is btrfs.
pub fn base_package_list(packages: Vec<&'static str>, root_fstype: &str) -> (r: Vec<&'static str>)
    ensures
        r@ == packages@ + fedora_base() + (if trim_seq(root_fstype@) == "btrfs"@ {
            seq!["btrfs-progs"]
        } else {
            seq![]
        }),
{
    let mut r = packages;
    let ghost p0 = r@;
    r.push("kernel");
    r.push("kernel-modules");
    r.push("kernel-modules-extra");
    r.push("kernel-headers");
    r.push("linux-firmware");
    r.push("glibc-all-langpacks");
    r.push("https://download1.rpmfusion.org/free/fedora/rpmfusion-free-release-$(rpm -E %fedora).noarch.rpm");
    r.push("https://download1.rpmfusion.org/nonfree/fedora/rpmfusion-nonfree-release-$(rpm -E %fedora).noarch.rpm");
    let fstype = trim(root_fstype);
    if str_eq(fstype.as_str(), "btrfs") {
        r.push("btrfs-progs");
    }
    assert(r@ =~= p0 + fedora_base() + (if trim_seq(root_fstype@) == "btrfs"@ {
        seq!["btrfs-progs"]
    } else {
        seq![]
    }));
    r
}

/// The services that the Fedora base system enables.
pub open spec fn fedora_services() -> Seq<&'static str> {
    seq!["auditd", "bluetooth", "crond", "irqbalance", "NetworkManager", "vnstat"]
}

/// The services to enable on the installed system, in order.
pub fn enable_system_services() -> (r: Vec<&'static str>)
    ensures
        r@ == fedora_services(),
{
    let r = vec!["auditd", "bluetooth", "crond", "irqbalance", "NetworkManager", "vnstat"];
    assert(r@ =~= fedora_services());
    r
}

} // verus!
