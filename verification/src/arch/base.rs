//! The base system that the Arch backend installs: kernel and base packages,
//! kernel parameters for encrypted disks, and the services it enables.
use vstd::prelude::*;
use crate::text::{chars_start_with, chars_to_string, owned, str_eq, to_chars};

verus! {

/// Kernel and headers packages for a kernel choice; the LTS kernel when
/// none or an unknown one is chosen.
pub open spec fn kernel_choice(k: Seq<char>) -> (&'static str, &'static str) {
    if k == "linux"@ {
        ("linux", "linux-headers")
    } else if k == "linux zen"@ {
        ("linux-zen", "linux-zen-headers")
    } else if k == "linux hardened"@ {
        ("linux-hardened", "linux-hardened-headers")
    } else if k == "linux real-time"@ {
        ("linux-rt", "linux-rt-headers")
    } else if k == "linux real-time lts"@ {
        ("linux-rt-lts", "linux-rt-lts-headers")
    } else if k == "linux liquorix"@ {
        ("linux-lqx", "linux-lqx-headers")
    } else if k == "linux xanmod"@ {
        ("linux-xanmod", "linux-xanmod-headers")
    } else {
        ("linux-lts", "linux-lts-headers")
    }
}

/// Kernel and headers packages for the chosen kernel.
pub fn kernel_packages(kernel: &str) -> (r: (&'static str, &'static str))
    ensures
        r == kernel_choice(kernel@),
{
    if str_eq(kernel, "linux") {
        ("linux", "linux-headers")
    } else if str_eq(kernel, "linux zen") {
        ("linux-zen", "linux-zen-headers")
    } else if str_eq(kernel, "linux hardened") {
        ("linux-hardened", "linux-hardened-headers")
    } else if str_eq(kernel, "linux real-time") {
        ("linux-rt", "linux-rt-headers")
    } else if str_eq(kernel, "linux real-time lts") {
        ("linux-rt-lts", "linux-rt-lts-headers")
    } else if str_eq(kernel, "linux liquorix") {
        ("linux-lqx", "linux-lqx-headers")
    } else if str_eq(kernel, "linux xanmod") {
        ("linux-xanmod", "linux-xanmod-headers")
    } else {
        ("linux-lts", "linux-lts-headers")
    }
}

/// The base packages that follow the kernel.
pub open spec fn base_tail() -> Seq<&'static str> {
    seq![
        "linux-firmware",
        "base",
        "glibc-locales",
        "athena-mirrorlist",
        "chaotic-mirrorlist",
        "rate-mirrors",
        "archlinux-keyring",
        "athena-keyring",
        "chaotic-keyring",
    ]
}

/// The packages handed to pacstrap: the chosen ones, then the kernel, its
/// headers and the base packages.
pub fn base_package_list(kernel: &str, packages: Vec<&'static str>) -> (r: Vec<&'static str>)
    ensures
        r@ == packages@ + seq![kernel_choice(kernel@).0, kernel_choice(kernel@).1] + base_tail(),
{
    let (k, h) = kernel_packages(kernel);
    let mut r = packages;
    let ghost p0 = r@;
    r.push(k);
    r.push(h);
    r.push("linux-firmware");
    r.push("base");
    r.push("glibc-locales");
    r.push("athena-mirrorlist");
    r.push("chaotic-mirrorlist");
    r.push("rate-mirrors");
    r.push("archlinux-keyring");
    r.push("athena-keyring");
    r.push("chaotic-keyring");
    assert(r@ =~= p0 + seq![kernel_choice(kernel@).0, kernel_choice(kernel@).1] + base_tail());
    r
}

/// The services that the base system enables.
pub open spec fn system_services() -> Seq<&'static str> {
    seq![
        "ananicy",
        "auditd",
        "bluetooth",
        "cronie",
        "irqbalance",
        "NetworkManager",
        "set-cfs-tweaks",
        "systemd-timesyncd",
        "vnstat",
    ]
}

/// The services to enable on the installed system, in order.
pub fn enable_system_services() -> (r: Vec<&'static str>)
    ensures
        r@ == system_services(),
{
    let r = vec![
        "ananicy",
        "auditd",
        "bluetooth",
        "cronie",
        "irqbalance",
        "NetworkManager",
        "set-cfs-tweaks",
        "systemd-timesyncd",
        "vnstat",
    ];
    assert(r@ =~= system_services());
    r
}

// ---------------------------------------------------------------------------
// Kernel parameters for encrypted partitions
// ---------------------------------------------------------------------------

/// `s` without every leading occurrence of `p` (`str::trim_start_matches`).
pub open spec fn trim_start_matches(s: Seq<char>, p: Seq<char>) -> Seq<char>
    decreases s.len(),
{
    if p.len() > 0 && p.len() <= s.len() && s.subrange(0, p.len() as int) == p {
        trim_start_matches(s.subrange(p.len() as int, s.len() as int), p)
    } else {
        s
    }
}

/// The mapper name of an encrypted partition: the device name followed by `crypted`.
pub open spec fn crypt_label(device: Seq<char>) -> Seq<char> {
    trim_start_matches(device, "/dev/"@) + "crypted"@
}

/// `rd.luks.name=` entries for the (device, UUID) pairs, in order.
pub open spec fn luks_names(parts: Seq<(Seq<char>, Seq<char>)>) -> Seq<char>
    decreases parts.len(),
{
    if parts.len() == 0 {
        Seq::empty()
    } else {
        luks_names(parts.drop_last()) + "rd.luks.name="@ + parts.last().1 + "="@ + crypt_label(parts.last().0)
            + " "@
    }
}

/// Kernel parameters for the encrypted partitions found: one `rd.luks.name`
/// per partition, then the last one's mapper device as root.
pub open spec fn luks_params_spec(parts: Seq<(Seq<char>, Seq<char>)>) -> Seq<char> {
    luks_names(parts) + "root=/dev/mapper/"@ + (if parts.len() == 0 {
        Seq::empty()
    } else {
        crypt_label(parts.last().0)
    }) + " "@
}

/// The views of (device, UUID) pairs.
pub open spec fn pairs_view(p: Seq<(String, String)>) -> Seq<(Seq<char>, Seq<char>)> {
    p.map_values(|e: (String, String)| (e.0@, e.1@))
}

fn strip_dev(device: &str) -> (r: String)
    ensures
        r@ == trim_start_matches(device@, "/dev/"@),
{
    let chars = to_chars(device);
    let prefix = to_chars("/dev/");
    proof {
        reveal_strlit("/dev/");
    }
    let mut i: usize = 0;
    assert(chars@.subrange(0, chars@.len() as int) =~= chars@);
    while chars.len() - i >= 5 && chars_start_with(&chars, i, &prefix)
        invariant
            i <= chars@.len(),
            prefix@ == "/dev/"@,
            trim_start_matches(chars@.subrange(i as int, chars@.len() as int), "/dev/"@) == trim_start_matches(
                device@,
                "/dev/"@,
            ),
            chars@ == device@,
        decreases chars@.len() - i,
    {
        proof {
            reveal_strlit("/dev/");
        }
        let ghost rest = chars@.subrange(i as int, chars@.len() as int);
        assert(rest.subrange(0, 5) =~= chars@.subrange(i as int, i + 5));
        assert(rest.subrange(0, 5) =~= "/dev/"@);
        assert(rest.subrange(5, rest.len() as int) =~= chars@.subrange(i + 5, chars@.len() as int));
        i = i + 5;
    }
    proof {
        let rest = chars@.subrange(i as int, chars@.len() as int);
        if 5 <= rest.len() {
            assert(rest.subrange(0, 5) =~= chars@.subrange(i as int, i + 5));
        }
    }
    chars_to_string(&chars, i, chars.len())
}

/// Kernel parameters for the encrypted partitions (device path, UUID) found.
pub fn luks_params(parts: &Vec<(String, String)>) -> (r: String)
    ensures
        r@ == luks_params_spec(pairs_view(parts@)),
{
    let ghost pv = pairs_view(parts@);
    let mut param = String::new();
    let mut label = String::new();
    let mut i: usize = 0;
    while i < parts.len()
        invariant
            i <= parts@.len(),
            pv == pairs_view(parts@),
            param@ == luks_names(pv.take(i as int)),
            label@ == (if i == 0 {
                Seq::<char>::empty()
            } else {
                crypt_label(pv[i - 1].0)
            }),
        decreases parts@.len() - i,
    {
        assert(pv.take(i + 1).drop_last() =~= pv.take(i as int));
        assert(pv[i as int] == (parts@[i as int].0@, parts@[i as int].1@));
        let mut l = strip_dev(parts[i].0.as_str());
        l.append("crypted");
        label = l;
        param.append("rd.luks.name=");
        param.append(parts[i].1.as_str());
        param.append("=");
        param.append(label.as_str());
        param.append(" ");
        i = i + 1;
    }
    assert(pv.take(parts@.len() as int) =~= pv);
    param.append("root=/dev/mapper/");
    param.append(label.as_str());
    param.append(" ");
    param
}

/// The `GRUB_CMDLINE_LINUX_DEFAULT` line: the encryption parameters, if
/// any, then the fixed kernel options.
pub open spec fn grub_cmdline_spec(luks: Seq<char>) -> Seq<char> {
    "GRUB_CMDLINE_LINUX_DEFAULT=\""@ + luks
        + "quiet loglevel=3 audit=0 nvme_load=yes zswap.enabled=0 fbcon=nodefer nowatchdog\""@
}

/// The kernel command line for GRUB; with encryption, the parameters of the
/// encrypted partitions (device path, UUID) come first.
pub fn grub_cmdline(encrypt: bool, parts: &Vec<(String, String)>) -> (r: String)
    ensures
        r@ == grub_cmdline_spec(if encrypt { luks_params_spec(pairs_view(parts@)) } else { Seq::empty() }),
{
    let mut r = owned("GRUB_CMDLINE_LINUX_DEFAULT=\"");
    if encrypt {
        let l = luks_params(parts);
        r.append(l.as_str());
    }
    r.append("quiet loglevel=3 audit=0 nvme_load=yes zswap.enabled=0 fbcon=nodefer nowatchdog\"");
    r
}

} // verus!
