//! What the Fedora backend installs for the machine it finds.
use vstd::prelude::*;
use crate::arch::hardware::{params_view, virt_name};
use crate::text::{contains, contains_seq, owned, str_eq, to_chars, chars_to_string};

verus! {

/// Guest packages for a hypervisor.
pub open spec fn fedora_virt_packages(v: Seq<char>) -> Seq<&'static str> {
    if v == "oracle"@ {
        seq!["virtualbox-guest-additions"]
    } else if v == "vmware"@ {
        seq!["open-vm-tools", "xorg-x11-drv-vmware"]
    } else if v == "qemu"@ || v == "kvm"@ {
        seq!["qemu-guest-agent", "spice-vdagent"]
    } else if v == "microsoft"@ {
        seq!["hyperv-tools"]
    } else {
        seq![]
    }
}

/// Guest services for a hypervisor.
pub open spec fn fedora_virt_services(v: Seq<char>) -> Seq<&'static str> {
    if v == "oracle"@ {
        seq!["vboxservice"]
    } else if v == "vmware"@ {
        seq!["vmtoolsd"]
    } else if v == "qemu"@ || v == "kvm"@ {
        seq!["qemu-guest-agent"]
    } else {
        seq![]
    }
}

/// File edits for a hypervisor: the Hyper-V frame buffer size.
pub open spec fn fedora_virt_params(v: Seq<char>) -> Seq<(Seq<char>, Seq<Seq<char>>)> {
    if v == "microsoft"@ {
        seq![
            (
                "Set hyperv kernel parameter"@,
                seq![
                    "-i"@,
                    "-e"@,
                    "/^GRUB_CMDLINE_LINUX_DEFAULT*/ s/\"$/ video=hyperv_fb:3840x2160\"/g"@,
                    "/mnt/etc/default/grub"@,
                ],
            ),
        ]
    } else {
        seq![]
    }
}

/// Packages, services and file edits for the hypervisor that the output of
/// `systemd-detect-virt` names.
pub fn virt_check(output: &str) -> (r: (Vec<&'static str>, Vec<&'static str>, Vec<(String, Vec<String>)>))
    ensures
        r.0@ == fedora_virt_packages(virt_name(output@)),
        r.1@ == fedora_virt_services(virt_name(output@)),
        params_view(r.2@) == fedora_virt_params(virt_name(output@)),
{
    let chars = to_chars(output);
    let n = chars.len();
    let result = if n > 0 {
        chars_to_string(&chars, 0, n - 1)
    } else {
        owned(output)
    };
    assert(n > 0 ==> chars@.subrange(0, n - 1) =~= output@.drop_last());
    let v = result.as_str();
    let ghost vv = virt_name(output@);
    assert(v@ == vv);
    let mut params: Vec<(String, Vec<String>)> = Vec::new();
    proof {
        reveal_strlit("microsoft");
        reveal_strlit("oracle");
        reveal_strlit("vmware");
        reveal_strlit("qemu");
        reveal_strlit("kvm");
    }
    if str_eq(v, "oracle") {
        assert(params_view(params@) =~= fedora_virt_params(vv));
        (vec!["virtualbox-guest-additions"], vec!["vboxservice"], params)
    } else if str_eq(v, "vmware") {
        assert(params_view(params@) =~= fedora_virt_params(vv));
        (vec!["open-vm-tools", "xorg-x11-drv-vmware"], vec!["vmtoolsd"], params)
    } else if str_eq(v, "qemu") || str_eq(v, "kvm") {
        assert(params_view(params@) =~= fedora_virt_params(vv));
        (vec!["qemu-guest-agent", "spice-vdagent"], vec!["qemu-guest-agent"], params)
    } else if str_eq(v, "microsoft") {
        let args = vec![
            owned("-i"),
            owned("-e"),
            owned("/^GRUB_CMDLINE_LINUX_DEFAULT*/ s/\"$/ video=hyperv_fb:3840x2160\"/g"),
            owned("/mnt/etc/default/grub"),
        ];
        assert(args@.map_values(|s: String| s@) =~= fedora_virt_params(vv)[0].1);
        params.push((owned("Set hyperv kernel parameter"), args));
        assert(params_view(params@) =~= fedora_virt_params(vv));
        (vec!["hyperv-tools"], Vec::new(), params)
    } else {
        assert(params_view(params@) =~= fedora_virt_params(vv));
        (Vec::new(), Vec::new(), params)
    }
}

/// Packages for the processor vendor `cpu` and the cards that the
/// `lspci -k` output `gpu` lists.
pub open spec fn fedora_cpu_gpu_packages(cpu: Seq<char>, gpu: Seq<char>) -> Seq<&'static str> {
    let amd = contains_seq(gpu, "AMD"@);
    (if contains_seq(cpu, "Intel"@) {
        seq!["intel-compute-runtime"]
    } else if contains_seq(cpu, "AMD"@) {
        seq!["amd-ucode-firmware"]
    } else {
        seq![]
    }) + (if amd {
        seq!["xorg-x11-drv-amdgpu", "amd-gpu-firmware"]
    } else {
        seq![]
    }) + (if contains_seq(gpu, "ATI"@) && !amd {
        seq!["mesa-libOpenCL"]
    } else {
        seq![]
    }) + (if contains_seq(gpu, "NVIDIA"@) {
        seq!["nvidia-gpu-firmware", "gwe", "nvtop"]
    } else {
        seq![]
    })
}

/// Firmware and graphics packages for the processor vendor and the
/// `lspci -k` output.
pub fn cpu_gpu_check(cpu: &str, gpu: &str) -> (r: Vec<&'static str>)
    ensures
        r@ == fedora_cpu_gpu_packages(cpu@, gpu@),
{
    let mut packages: Vec<&'static str> = Vec::new();
    if contains(cpu, "Intel") {
        packages.push("intel-compute-runtime");
    } else if contains(cpu, "AMD") {
        packages.push("amd-ucode-firmware");
    }
    let amd = contains(gpu, "AMD");
    if amd {
        packages.push("xorg-x11-drv-amdgpu");
        packages.push("amd-gpu-firmware");
    }
    if contains(gpu, "ATI") && !amd {
        packages.push("mesa-libOpenCL");
    }
    if contains(gpu, "NVIDIA") {
        packages.push("nvidia-gpu-firmware");
        packages.push("gwe");
        packages.push("nvtop");
    }
    assert(packages@ =~= fedora_cpu_gpu_packages(cpu@, gpu@));
    packages
}

} // verus!
