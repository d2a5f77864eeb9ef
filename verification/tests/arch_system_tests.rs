use aegis::arch::base::{base_package_list, enable_system_services, grub_cmdline, kernel_packages, luks_params};
use aegis::arch::hardware::{cpu_gpu_check, cpu_vendor, set_cores, virt_check};
use aegis::arch::users::{root_pass_args, shell_path, strip_char, useradd_args, usermod_admin_args};

#[test]
fn kernels_and_their_headers() {
    assert_eq!(kernel_packages("linux"), ("linux", "linux-headers"));
    assert_eq!(kernel_packages("linux zen"), ("linux-zen", "linux-zen-headers"));
    assert_eq!(kernel_packages("linux real-time lts"), ("linux-rt-lts", "linux-rt-lts-headers"));
    assert_eq!(kernel_packages("something else"), ("linux-lts", "linux-lts-headers"));
}

#[test]
fn base_packages_follow_the_chosen_ones() {
    let r = base_package_list("linux hardened", vec!["vim"]);
    assert_eq!(r[0], "vim");
    assert_eq!(r[1], "linux-hardened");
    assert_eq!(r[2], "linux-hardened-headers");
    assert_eq!(r[3], "linux-firmware");
    assert_eq!(*r.last().unwrap(), "chaotic-keyring");
    assert_eq!(r.len(), 12);
}

#[test]
fn base_services() {
    let s = enable_system_services();
    assert_eq!(s.len(), 9);
    assert_eq!(s[0], "ananicy");
    assert!(s.contains(&"NetworkManager"));
}

#[test]
fn luks_parameters() {
    let parts = vec![
        ("/dev/sda2".to_string(), "1111".to_string()),
        ("/dev/nvme0n1p3".to_string(), "2222".to_string()),
    ];
    assert_eq!(
        luks_params(&parts),
        "rd.luks.name=1111=sda2crypted rd.luks.name=2222=nvme0n1p3crypted root=/dev/mapper/nvme0n1p3crypted "
    );
    assert_eq!(luks_params(&vec![]), "root=/dev/mapper/ ");
    // every leading "/dev/" is taken off
    let twice = vec![("/dev//dev/sdb1".to_string(), "u".to_string())];
    assert_eq!(luks_params(&twice), "rd.luks.name=u=sdb1crypted root=/dev/mapper/sdb1crypted ");
}

#[test]
fn grub_command_lines() {
    let fixed = "quiet loglevel=3 audit=0 nvme_load=yes zswap.enabled=0 fbcon=nodefer nowatchdog\"";
    let parts = vec![("/dev/sda2".to_string(), "abcd".to_string())];
    assert_eq!(grub_cmdline(false, &parts), format!("GRUB_CMDLINE_LINUX_DEFAULT=\"{fixed}"));
    assert_eq!(
        grub_cmdline(true, &parts),
        format!("GRUB_CMDLINE_LINUX_DEFAULT=\"rd.luks.name=abcd=sda2crypted root=/dev/mapper/sda2crypted {fixed}")
    );
}

#[test]
fn virtualization_guests() {
    let (p, s, e) = virt_check("oracle\n");
    assert_eq!(p, vec!["virtualbox-guest-utils"]);
    assert_eq!(s, vec!["vboxservice"]);
    assert!(e.is_empty());
    let (p, s, e) = virt_check("vmware\n");
    assert_eq!(p, vec!["open-vm-tools", "xf86-video-vmware"]);
    assert_eq!(s, vec!["vmware-vmblock-fuse", "vmtoolsd"]);
    assert_eq!(e.len(), 1);
    assert_eq!(e[0].0, "Set vmware modules");
    assert_eq!(e[0].1.last().unwrap(), "/mnt/etc/mkinitcpio.conf");
    let (p, _, _) = virt_check("kvm\n");
    assert_eq!(p, vec!["qemu-guest-agent", "spice-vdagent"]);
    let (p, s, e) = virt_check("microsoft\n");
    assert_eq!(p, vec!["hyperv", "xf86-video-fbdev"]);
    assert_eq!(s.len(), 3);
    assert_eq!(e[0].0, "Set hyperv kernel parameter");
    let (p, s, e) = virt_check("none\n");
    assert!(p.is_empty() && s.is_empty() && e.is_empty());
    // the last character is taken off whatever it is
    let (p, _, _) = virt_check("qemu");
    assert!(p.is_empty());
    let (p, _, _) = virt_check("");
    assert!(p.is_empty());
}

#[test]
fn core_settings() {
    assert!(set_cores(1).is_empty());
    assert!(set_cores(0).is_empty());
    let edits = set_cores(16);
    assert_eq!(edits.len(), 5);
    assert_eq!(edits[0], ("#MAKEFLAGS=.*".to_string(), "MAKEFLAGS=\"-j16\"".to_string(), "Set available cores on MAKEFLAGS".to_string()));
    assert_eq!(edits[4].1, "PKGEXT='.pkg.tar.zst'");
}

#[test]
fn processor_vendor_from_lscpu() {
    let out = "Architecture: x86_64\nVendor ID:   GenuineIntel \nModel name: x\nVendor ID: Other\n";
    assert_eq!(cpu_vendor(out), Some("GenuineIntel".to_string()));
    assert_eq!(cpu_vendor("Architecture: x86_64\n"), None);
    assert_eq!(cpu_vendor("Vendor ID:"), Some(String::new()));
}

#[test]
fn graphics_and_microcode() {
    assert_eq!(cpu_gpu_check("GenuineIntel", "", "linux"), vec!["intel-compute-runtime", "intel-ucode"]);
    assert_eq!(cpu_gpu_check("AuthenticAMD", "Advanced Micro Devices [AMD/ATI]", "linux"), vec![
        "amd-ucode",
        "xf86-video-amdgpu",
        "opencl-amd"
    ]);
    assert_eq!(cpu_gpu_check("", "ATI Radeon", "linux"), vec!["opencl-mesa"]);
    assert_eq!(cpu_gpu_check("", "NVIDIA Corporation GM204", "linux-lts"), vec![
        "nvidia-lts",
        "nvidia-settings",
        "opencl-nvidia",
        "gwe",
        "nvtop"
    ]);
    assert_eq!(cpu_gpu_check("", "NVIDIA Corporation TU104", "linux"), vec![
        "nvidia-open",
        "nvidia-settings",
        "opencl-nvidia",
        "gwe",
        "nvtop"
    ]);
    assert_eq!(cpu_gpu_check("", "NVIDIA GK104 with Intel", "linux"), vec![
        "nvidia-470xx-dkms",
        "nvidia-470xx-settings",
        "opencl-nvidia",
        "gwe",
        "nvtop",
        "envycontrol"
    ]);
    assert_eq!(cpu_gpu_check("", "NVIDIA AD102", "linux"), vec![
        "nvidia-open-dkms",
        "nvidia-settings",
        "opencl-nvidia",
        "gwe",
        "nvtop"
    ]);
}

#[test]
fn account_commands() {
    assert_eq!(strip_char("a b c", ' '), "abc");
    assert_eq!(shell_path("fish"), "/usr/bin/fish");
    assert_eq!(shell_path("bash"), "/bin/bash");
    assert_eq!(shell_path("nushell"), "/usr/bin/bash");
    assert_eq!(useradd_args("jo hn", "se\ncret", "zsh"), vec!["-m", "-s", "/usr/bin/zsh", "-p", "'secret'", "john"]);
    assert_eq!(usermod_admin_args("jo hn"), vec!["-aG", "wheel,rfkill,sys,lp,input", "john"]);
    assert_eq!(root_pass_args("pw\n"), vec!["--password", "'pw'", "root"]);
}
