//! What the Arch backend installs and configures for the machine it finds:
//! guest tools under a hypervisor, microcode and graphics drivers, and build
//! settings for the number of cores.
use vstd::prelude::*;
use crate::text::{
    contains, contains_seq, decimal, first_with_prefix, is_prefix, lemma_first_with_prefix, owned, split_char,
    split_seq, starts_with, str_eq, trim, trim_seq, u64_to_decimal,
};

verus! {

// ---------------------------------------------------------------------------
// Virtualization
// ---------------------------------------------------------------------------

/// The hypervisor name that `systemd-detect-virt` printed, without its last character (the newline).
pub open spec fn virt_name(output: Seq<char>) -> Seq<char> {
    if output.len() == 0 {
        output
    } else {
        output.drop_last()
    }
}

/// Guest packages for a hypervisor.
pub open spec fn virt_packages(v: Seq<char>) -> Seq<&'static str> {
    if v == "oracle"@ {
        seq!["virtualbox-guest-utils"]
    } else if v == "vmware"@ {
        seq!["open-vm-tools", "xf86-video-vmware"]
    } else if v == "qemu"@ || v == "kvm"@ {
        seq!["qemu-guest-agent", "spice-vdagent"]
    } else if v == "microsoft"@ {
        seq!["hyperv", "xf86-video-fbdev"]
    } else {
        seq![]
    }
}

/// Guest services for a hypervisor.
pub open spec fn virt_services(v: Seq<char>) -> Seq<&'static str> {
    if v == "oracle"@ {
        seq!["vboxservice"]
    } else if v == "vmware"@ {
        seq!["vmware-vmblock-fuse", "vmtoolsd"]
    } else if v == "qemu"@ || v == "kvm"@ {
        seq!["qemu-guest-agent"]
    } else if v == "microsoft"@ {
        seq!["hv_fcopy_daemon", "hv_kvp_daemon", "hv_vss_daemon"]
    } else {
        seq![]
    }
}

/// File edits (a description and the arguments of `sed`) for a hypervisor.
pub open spec fn virt_params(v: Seq<char>) -> Seq<(Seq<char>, Seq<Seq<char>>)> {
    if v == "vmware"@ {
        seq![
            (
                "Set vmware modules"@,
                seq![
                    "-i"@,
                    "-e"@,
                    "/^MODULES=()/ s/()/(vsock vmw_vsock_vmci_transport vmw_balloon vmw_vmci vmwgfx)/"@,
                    "-e"@,
                    "/^MODULES=([^)]*)/ {/vsock vmw_vsock_vmci_transport vmw_balloon vmw_vmci vmwgfx/! s/)/ vsock vmw_vsock_vmci_transport vmw_balloon vmw_vmci vmwgfx)/"@,
                    "/mnt/etc/mkinitcpio.conf"@,
                ],
            ),
        ]
    } else if v == "microsoft"@ {
        seq![
            (
                "Set hyperv kernel parameter"@,
                seq![
                    "-i"@,
                    "-e"@,
                    "/^GRUB_CMDLINE_LINUX_DEFAULT*/ s/\"$/ video=hyperv_fb:3840x2160\"/g"@,
                    "/mnt/etc/default/grub"@,
                ],
            ),
        ]
    } else {
        seq![]
    }
}

/// The views of a list of `sed` edits.
pub open spec fn params_view(p: Seq<(String, Vec<String>)>) -> Seq<(Seq<char>, Seq<Seq<char>>)> {
    p.map_values(|e: (String, Vec<String>)| (e.0@, e.1@.map_values(|s: String| s@)))
}

fn strs(v: Vec<&'static str>) -> (r: Vec<String>)
    ensures
        r@.map_values(|s: String| s@) == v@.map_values(|s: &str| s@),
{
    let mut r: Vec<String> = Vec::new();
    let mut i: usize = 0;
    while i < v.len()
        invariant
            i <= v@.len(),
            r@.map_values(|s: String| s@) == v@.take(i as int).map_values(|s: &str| s@),
        decreases v@.len() - i,
    {
        let ghost before = r@;
        let x = owned(v[i]);
        r.push(x);
        assert(r@ =~= before.push(x));
        assert(r@.map_values(|s: String| s@) =~= before.map_values(|s: String| s@).push(x@));
        assert(v@.take(i + 1) =~= v@.take(i as int).push(v@[i as int]));
        assert(r@.map_values(|s: String| s@) =~= v@.take(i + 1).map_values(|s: &str| s@));
        i = i + 1;
    }
    assert(v@.take(v@.len() as int) =~= v@);
    r
}

/// Packages, services and file edits for the hypervisor that the output of
/// `systemd-detect-virt` names.
pub fn virt_check(output: &str) -> (r: (Vec<&'static str>, Vec<&'static str>, Vec<(String, Vec<String>)>))
    ensures
        r.0@ == virt_packages(virt_name(output@)),
        r.1@ == virt_services(virt_name(output@)),
        params_view(r.2@) == virt_params(virt_name(output@)),
{
    let mut result = owned(output);
    let chars = crate::text::to_chars(output);
    let n = chars.len();
    if n > 0 {
        result = crate::text::chars_to_string(&chars, 0, n - 1);
        assert(chars@.subrange(0, n - 1) =~= output@.drop_last());
    }
    let v = result.as_str();
    let ghost vv = virt_name(output@);
    assert(v@ == vv);
    let mut params: Vec<(String, Vec<String>)> = Vec::new();
    proof {
        reveal_strlit("oracle");
        reveal_strlit("vmware");
        reveal_strlit("microsoft");
        reveal_strlit("qemu");
        reveal_strlit("kvm");
    }
    if str_eq(v, "oracle") {
        assert("oracle"@ != "vmware"@) by {
            assert("oracle"@[0] != "vmware"@[0]);
        }
        assert(params_view(params@) =~= virt_params(vv));
        (vec!["virtualbox-guest-utils"], vec!["vboxservice"], params)
    } else if str_eq(v, "vmware") {
        let lits = vec![
            "-i",
            "-e",
            "/^MODULES=()/ s/()/(vsock vmw_vsock_vmci_transport vmw_balloon vmw_vmci vmwgfx)/",
            "-e",
            "/^MODULES=([^)]*)/ {/vsock vmw_vsock_vmci_transport vmw_balloon vmw_vmci vmwgfx/! s/)/ vsock vmw_vsock_vmci_transport vmw_balloon vmw_vmci vmwgfx)/",
            "/mnt/etc/mkinitcpio.conf",
        ];
        assert(lits@.map_values(|s: &str| s@) =~= virt_params(vv)[0].1);
        let args = strs(lits);
        params.push((owned("Set vmware modules"), args));
        assert(params_view(params@) =~= virt_params(vv));
        (vec!["open-vm-tools", "xf86-video-vmware"], vec!["vmware-vmblock-fuse", "vmtoolsd"], params)
    } else if str_eq(v, "qemu") || str_eq(v, "kvm") {
        assert(params_view(params@) =~= virt_params(vv));
        (vec!["qemu-guest-agent", "spice-vdagent"], vec!["qemu-guest-agent"], params)
    } else if str_eq(v, "microsoft") {
        let lits = vec![
            "-i",
            "-e",
            "/^GRUB_CMDLINE_LINUX_DEFAULT*/ s/\"$/ video=hyperv_fb:3840x2160\"/g",
            "/mnt/etc/default/grub",
        ];
        assert(lits@.map_values(|s: &str| s@) =~= virt_params(vv)[0].1);
        let args = strs(lits);
        params.push((owned("Set hyperv kernel parameter"), args));
        assert(params_view(params@) =~= virt_params(vv));
        (vec!["hyperv", "xf86-video-fbdev"], vec!["hv_fcopy_daemon", "hv_kvp_daemon", "hv_vss_daemon"], params)
    } else {
        assert(params_view(params@) =~= virt_params(vv));
        (Vec::new(), Vec::new(), params)
    }
}

// ---------------------------------------------------------------------------
// Build settings
// ---------------------------------------------------------------------------

/// Edits of `makepkg.conf` (pattern, replacement, description) for a machine
/// with `cores` cores: none for a single core.
pub open spec fn core_edits(cores: nat) -> Seq<(Seq<char>, Seq<char>, Seq<char>)> {
    if cores > 1 {
        seq![
            ("#MAKEFLAGS=.*"@, "MAKEFLAGS=\"-j"@ + decimal(cores) + "\""@, "Set available cores on MAKEFLAGS"@),
            ("#BUILDDIR=.*"@, "BUILDDIR=/tmp/makepkg"@, "Improving compilation times"@),
            ("COMPRESSXZ=\\(xz -c -z -\\)"@, "COMPRESSXZ=(xz -c -z - --threads=0)"@, "Changing the compression settings"@),
            (
                "COMPRESSZST=\\(zstd -c -z -q -\\)"@,
                "COMPRESSZST=(zstd -c -z -q - --threads=0)"@,
                "Changing the compression settings"@,
            ),
            ("PKGEXT='.pkg.tar.xz'"@, "PKGEXT='.pkg.tar.zst'"@, "Changing the compression settings"@),
        ]
    } else {
        seq![]
    }
}

/// The views of a list of edits.
pub open spec fn edits_view(e: Seq<(String, String, String)>) -> Seq<(Seq<char>, Seq<char>, Seq<char>)> {
    e.map_values(|x: (String, String, String)| (x.0@, x.1@, x.2@))
}

fn edit(pattern: &str, replacement: String, description: &str) -> (r: (String, String, String))
    ensures
        r.0@ == pattern@,
        r.1@ == replacement@,
        r.2@ == description@,
{
    (owned(pattern), replacement, owned(description))
}

/// The edits of `makepkg.conf` that use all `cores` cores.
pub fn set_cores(cores: u64) -> (r: Vec<(String, String, String)>)
    ensures
        edits_view(r@) == core_edits(cores as nat),
{
    let mut r: Vec<(String, String, String)> = Vec::new();
    if cores > 1 {
        let mut flags = owned("MAKEFLAGS=\"-j");
        flags.append(u64_to_decimal(cores).as_str());
        flags.append("\"");
        r.push(edit("#MAKEFLAGS=.*", flags, "Set available cores on MAKEFLAGS"));
        r.push(edit("#BUILDDIR=.*", owned("BUILDDIR=/tmp/makepkg"), "Improving compilation times"));
        r.push(
            edit(
                "COMPRESSXZ=\\(xz -c -z -\\)",
                owned("COMPRESSXZ=(xz -c -z - --threads=0)"),
                "Changing the compression settings",
            ),
        );
        r.push(
            edit(
                "COMPRESSZST=\\(zstd -c -z -q -\\)",
                owned("COMPRESSZST=(zstd -c -z -q - --threads=0)"),
                "Changing the compression settings",
            ),
        );
        r.push(edit("PKGEXT='.pkg.tar.xz'", owned("PKGEXT='.pkg.tar.zst'"), "Changing the compression settings"));
    }
    assert(edits_view(r@) =~= core_edits(cores as nat));
    r
}

// ---------------------------------------------------------------------------
// Processor and graphics
// ---------------------------------------------------------------------------

/// The vendor that `lscpu` reports: the text after the first colon of the
/// first line that starts with `Vendor ID:`, trimmed.
pub open spec fn cpu_vendor_spec(lscpu: Seq<char>) -> Option<Seq<char>> {
    let lines = split_seq(lscpu, '\n');
    match first_with_prefix(lines, "Vendor ID:"@) {
        Some(i) => Some(trim_seq(split_seq(lines[i], ':')[1])),
        None => None,
    }
}

/// Reads the processor vendor out of `lscpu` output.
pub fn cpu_vendor(lscpu: &str) -> (r: Option<String>)
    ensures
        opt_seq(r) == cpu_vendor_spec(lscpu@),
{
    let lines = split_char(lscpu, '\n');
    let ghost ls = split_seq(lscpu@, '\n');
    proof {
        lemma_first_with_prefix(ls, "Vendor ID:"@);
    }
    let mut i: usize = 0;
    while i < lines.len()
        invariant
            i <= lines@.len(),
            crate::text::strings_view(lines@) == ls,
            ls == split_seq(lscpu@, '\n'),
            forall|k: int| 0 <= k < i ==> !is_prefix("Vendor ID:"@, #[trigger] ls[k]),
        decreases lines@.len() - i,
    {
        assert(ls[i as int] == lines@[i as int]@);
        if starts_with(lines[i].as_str(), "Vendor ID:") {
            let parts = split_char(lines[i].as_str(), ':');
            proof {
                reveal_strlit("Vendor ID:");
                assert(ls[i as int][9] == "Vendor ID:"@[9]);
                crate::text::lemma_split_two(ls[i as int], ':', 9);
                lemma_first_with_prefix(ls, "Vendor ID:"@);
                let j = first_with_prefix(ls, "Vendor ID:"@)->0;
                if j < i {
                    assert(!is_prefix("Vendor ID:"@, ls[j]));
                }
                assert(j == i);
            }
            assert(crate::text::strings_view(parts@) == split_seq(ls[i as int], ':'));
            assert(parts@[1]@ == split_seq(ls[i as int], ':')[1]);
            let v = trim(parts[1].as_str());
            assert(first_with_prefix(ls, "Vendor ID:"@) == Some(i as int));
            assert(v@ == trim_seq(split_seq(ls[i as int], ':')[1]));
            return Some(v);
        }
        i = i + 1;
    }
    None
}

/// The view of an optional string.
pub open spec fn opt_seq(o: Option<String>) -> Option<Seq<char>> {
    match o {
        Some(s) => Some(s@),
        None => None,
    }
}

/// `g` names one of the chips of a family.
pub open spec fn names_any(g: Seq<char>, chips: Seq<Seq<char>>) -> bool {
    exists|i: int| 0 <= i < chips.len() && contains_seq(g, #[trigger] chips[i])
}

pub open spec fn maxwell_chips() -> Seq<Seq<char>> {
    seq!["GM107"@, "GM108"@, "GM200"@, "GM204"@, "GM206"@, "GM20B"@]
}

pub open spec fn turing_chips() -> Seq<Seq<char>> {
    seq!["TU102"@, "TU104"@, "TU106"@, "TU116"@, "TU117"@]
}

pub open spec fn kepler_chips() -> Seq<Seq<char>> {
    seq!["GK104"@, "GK107"@, "GK106"@, "GK110"@, "GK110B"@, "GK208B"@, "GK208"@, "GK20A"@, "GK210"@]
}

pub open spec fn fermi_chips() -> Seq<Seq<char>> {
    seq!["GF100"@, "GF108"@, "GF106"@, "GF104"@, "GF110"@, "GF114"@, "GF116"@, "GF117"@, "GF119"@]
}

pub open spec fn tesla_chips() -> Seq<Seq<char>> {
    seq![
        "G80"@,
        "G84"@,
        "G86"@,
        "G92"@,
        "G94"@,
        "G96"@,
        "G98"@,
        "GT200"@,
        "GT215"@,
        "GT216"@,
        "GT218"@,
        "MCP77"@,
        "MCP78"@,
        "MCP79"@,
        "MCP7A"@,
        "MCP89"@,
    ]
}

/// Microcode for the processor vendor.
pub open spec fn cpu_packages(cpu: Seq<char>) -> Seq<&'static str> {
    if contains_seq(cpu, "Intel"@) {
        seq!["intel-compute-runtime", "intel-ucode"]
    } else if contains_seq(cpu, "AMD"@) {
        seq!["amd-ucode"]
    } else {
        seq![]
    }
}

/// The Maxwell driver for the kernel.
pub open spec fn maxwell_seg(g: Seq<char>, kernel: Seq<char>) -> Seq<&'static str> {
    if names_any(g, maxwell_chips()) {
        seq![
            if kernel == "linux"@ {
                "nvidia"
            } else if kernel == "linux-lts"@ {
                "nvidia-lts"
            } else {
                "nvidia-dkms"
            },
            "nvidia-settings",
        ]
    } else {
        seq![]
    }
}

/// The Turing driver for the kernel.
pub open spec fn turing_seg(g: Seq<char>, kernel: Seq<char>) -> Seq<&'static str> {
    if names_any(g, turing_chips()) {
        seq![if kernel == "linux"@ { "nvidia-open" } else { "nvidia-open-dkms" }, "nvidia-settings"]
    } else {
        seq![]
    }
}

/// The legacy drivers for the Kepler, Fermi and Tesla families.
pub open spec fn legacy_seg(g: Seq<char>) -> Seq<&'static str> {
    (if names_any(g, kepler_chips()) {
        seq!["nvidia-470xx-dkms", "nvidia-470xx-settings"]
    } else {
        seq![]
    }) + (if names_any(g, fermi_chips()) {
        seq!["nvidia-390xx-dkms", "nvidia-390xx-settings"]
    } else {
        seq![]
    }) + (if names_any(g, tesla_chips()) {
        seq!["nvidia-340xx-dkms", "nvidia-340xx-settings"]
    } else {
        seq![]
    })
}

/// Some card was recognized: an AMD or ATI one before, or a known NVIDIA family.
pub open spec fn gpu_found(g: Seq<char>, found_before: bool) -> bool {
    found_before || names_any(g, maxwell_chips()) || names_any(g, turing_chips()) || names_any(g, kepler_chips())
        || names_any(g, fermi_chips()) || names_any(g, tesla_chips())
}

/// The open driver for an unrecognized card, then the tools every NVIDIA
/// setup gets, and the switcher for a hybrid setup.
pub open spec fn nvidia_tail(g: Seq<char>, found_before: bool) -> Seq<&'static str> {
    (if !gpu_found(g, found_before) {
        seq!["nvidia-open-dkms", "nvidia-settings"]
    } else {
        seq![]
    }) + seq!["opencl-nvidia", "gwe", "nvtop"] + (if contains_seq(g, "Intel"@) || contains_seq(g, "AMD"@)
        || contains_seq(g, "ATI"@) {
        seq!["envycontrol"]
    } else {
        seq![]
    })
}

/// Drivers for an NVIDIA card, by chip family, given whether an AMD or ATI
/// card was found already.
pub open spec fn nvidia_packages(g: Seq<char>, kernel: Seq<char>, found_before: bool) -> Seq<&'static str> {
    maxwell_seg(g, kernel) + turing_seg(g, kernel) + legacy_seg(g) + nvidia_tail(g, found_before)
}

/// Packages for the processor vendor `cpu` and the graphics cards that the
/// `lspci -k` output `gpu` lists, for the installed `kernel`.
pub open spec fn cpu_gpu_packages(cpu: Seq<char>, gpu: Seq<char>, kernel: Seq<char>) -> Seq<&'static str> {
    let amd = contains_seq(gpu, "AMD"@);
    let ati = contains_seq(gpu, "ATI"@) && !amd;
    cpu_packages(cpu) + (if amd {
        seq!["xf86-video-amdgpu", "opencl-amd"]
    } else {
        seq![]
    }) + (if ati {
        seq!["opencl-mesa"]
    } else {
        seq![]
    }) + (if contains_seq(gpu, "NVIDIA"@) {
        nvidia_packages(gpu, kernel, amd || ati)
    } else {
        seq![]
    })
}

fn any_of(g: &str, chips: &Vec<&'static str>) -> (r: bool)
    ensures
        r == names_any(g@, chips@.map_values(|c: &str| c@)),
{
    let ghost cs = chips@.map_values(|c: &str| c@);
    let mut i: usize = 0;
    while i < chips.len()
        invariant
            i <= chips@.len(),
            cs == chips@.map_values(|c: &str| c@),
            forall|k: int| 0 <= k < i ==> !contains_seq(g@, #[trigger] cs[k]),
        decreases chips@.len() - i,
    {
        if contains(g, chips[i]) {
            assert(contains_seq(g@, cs[i as int]));
            return true;
        }
        i = i + 1;
    }
    false
}

fn is_maxwell(g: &str) -> (r: bool)
    ensures
        r == names_any(g@, maxwell_chips()),
{
    let chips = vec!["GM107", "GM108", "GM200", "GM204", "GM206", "GM20B"];
    assert(chips@.map_values(|c: &str| c@) =~= maxwell_chips());
    any_of(g, &chips)
}

fn is_turing(g: &str) -> (r: bool)
    ensures
        r == names_any(g@, turing_chips()),
{
    let chips = vec!["TU102", "TU104", "TU106", "TU116", "TU117"];
    assert(chips@.map_values(|c: &str| c@) =~= turing_chips());
    any_of(g, &chips)
}

fn is_kepler(g: &str) -> (r: bool)
    ensures
        r == names_any(g@, kepler_chips()),
{
    let chips = vec!["GK104", "GK107", "GK106", "GK110", "GK110B", "GK208B", "GK208", "GK20A", "GK210"];
    assert(chips@.map_values(|c: &str| c@) =~= kepler_chips());
    any_of(g, &chips)
}

fn is_fermi(g: &str) -> (r: bool)
    ensures
        r == names_any(g@, fermi_chips()),
{
    let chips = vec!["GF100", "GF108", "GF106", "GF104", "GF110", "GF114", "GF116", "GF117", "GF119"];
    assert(chips@.map_values(|c: &str| c@) =~= fermi_chips());
    any_of(g, &chips)
}

fn is_tesla(g: &str) -> (r: bool)
    ensures
        r == names_any(g@, tesla_chips()),
{
    let chips = vec![
        "G80",
        "G84",
        "G86",
        "G92",
        "G94",
        "G96",
        "G98",
        "GT200",
        "GT215",
        "GT216",
        "GT218",
        "MCP77",
        "MCP78",
        "MCP79",
        "MCP7A",
        "MCP89",
    ];
    assert(chips@.map_values(|c: &str| c@) =~= tesla_chips());
    any_of(g, &chips)
}

fn maxwell_exec(gpu: &str, kernel: &str) -> (r: Vec<&'static str>)
    ensures
        r@ == maxwell_seg(gpu@, kernel@),
{
    let mut r: Vec<&'static str> = Vec::new();
    if is_maxwell(gpu) {
        if str_eq(kernel, "linux") {
            r.push("nvidia");
        } else if str_eq(kernel, "linux-lts") {
            r.push("nvidia-lts");
        } else {
            r.push("nvidia-dkms");
        }
        r.push("nvidia-settings");
    }
    assert(r@ =~= maxwell_seg(gpu@, kernel@));
    r
}

fn turing_exec(gpu: &str, kernel: &str) -> (r: Vec<&'static str>)
    ensures
        r@ == turing_seg(gpu@, kernel@),
{
    let mut r: Vec<&'static str> = Vec::new();
    if is_turing(gpu) {
        if str_eq(kernel, "linux") {
            r.push("nvidia-open");
        } else {
            r.push("nvidia-open-dkms");
        }
        r.push("nvidia-settings");
    }
    assert(r@ =~= turing_seg(gpu@, kernel@));
    r
}

fn legacy_exec(gpu: &str) -> (r: Vec<&'static str>)
    ensures
        r@ == legacy_seg(gpu@),
{
    let mut r: Vec<&'static str> = Vec::new();
    if is_kepler(gpu) {
        r.push("nvidia-470xx-dkms");
        r.push("nvidia-470xx-settings");
    }
    if is_fermi(gpu) {
        r.push("nvidia-390xx-dkms");
        r.push("nvidia-390xx-settings");
    }
    if is_tesla(gpu) {
        r.push("nvidia-340xx-dkms");
        r.push("nvidia-340xx-settings");
    }
    assert(r@ =~= legacy_seg(gpu@));
    r
}

fn tail_exec(gpu: &str, found_before: bool) -> (r: Vec<&'static str>)
    ensures
        r@ == nvidia_tail(gpu@, found_before),
{
    let found = found_before || is_maxwell(gpu) || is_turing(gpu) || is_kepler(gpu) || is_fermi(gpu) || is_tesla(
        gpu,
    );
    let mut r: Vec<&'static str> = Vec::new();
    if !found {
        r.push("nvidia-open-dkms");
        r.push("nvidia-settings");
    }
    r.push("opencl-nvidia");
    r.push("gwe");
    r.push("nvtop");
    if contains(gpu, "Intel") || contains(gpu, "AMD") || contains(gpu, "ATI") {
        r.push("envycontrol");
    }
    assert(r@ =~= nvidia_tail(gpu@, found_before));
    r
}

/// Drivers for an NVIDIA card (see `nvidia_packages`).
fn nvidia_check(gpu: &str, kernel: &str, found_before: bool) -> (r: Vec<&'static str>)
    ensures
        r@ == nvidia_packages(gpu@, kernel@, found_before),
{
    let mut r = maxwell_exec(gpu, kernel);
    push_all(&mut r, turing_exec(gpu, kernel));
    push_all(&mut r, legacy_exec(gpu));
    push_all(&mut r, tail_exec(gpu, found_before));
    r
}

fn push_all(v: &mut Vec<&'static str>, items: Vec<&'static str>)
    ensures
        final(v)@ == old(v)@ + items@,
{
    let mut i: usize = 0;
    while i < items.len()
        invariant
            i <= items@.len(),
            v@ == old(v)@ + items@.take(i as int),
        decreases items@.len() - i,
    {
        v.push(items[i]);
        assert(items@.take(i + 1) =~= items@.take(i as int).push(items@[i as int]));
        i = i + 1;
    }
    assert(items@.take(items@.len() as int) =~= items@);
}

/// Microcode and graphics packages for the processor vendor `cpu` (from
/// `lscpu`) and the `lspci -k` output `gpu`, for the installed `kernel`.
pub fn cpu_gpu_check(cpu: &str, gpu: &str, kernel: &str) -> (r: Vec<&'static str>)
    ensures
        r@ == cpu_gpu_packages(cpu@, gpu@, kernel@),
{
    let mut packages: Vec<&'static str> = Vec::new();
    if contains(cpu, "Intel") {
        packages.push("intel-compute-runtime");
        packages.push("intel-ucode");
    } else if contains(cpu, "AMD") {
        packages.push("amd-ucode");
    }
    assert(packages@ =~= cpu_packages(cpu@));
    let amd = contains(gpu, "AMD");
    let ati = contains(gpu, "ATI") && !amd;
    let ghost p0 = packages@;
    if amd {
        packages.push("xf86-video-amdgpu");
        packages.push("opencl-amd");
    }
    if ati {
        packages.push("opencl-mesa");
    }
    if contains(gpu, "NVIDIA") {
        let n = nvidia_check(gpu, kernel, amd || ati);
        push_all(&mut packages, n);
    }
    assert(packages@ =~= cpu_gpu_packages(cpu@, gpu@, kernel@));
    packages
}

} // verus!
