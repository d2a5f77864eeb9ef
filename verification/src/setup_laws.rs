//! What the names in a configuration and the cards a machine reports lead
//! to, stated with the packages, services and setups themselves.
use vstd::prelude::*;
use crate::arch::config::{
    choice_packages, dm_steps, install_plan, package_set_spec, plan_middle, plan_system, InstallConfig,
};
use crate::arch::displaymanagers::gdm_steps;
use crate::arch::hardware::{
    cpu_gpu_packages, cpu_packages, fermi_chips, kepler_chips, legacy_seg, maxwell_chips, maxwell_seg,
    names_any, nvidia_packages, nvidia_tail, tesla_chips, turing_chips, turing_seg,
};
use crate::arch::steps::StepView;
use crate::nix_plan::{
    choice_browser, choice_desktop, choice_dm, choice_terminal, choice_theme, nix_choices, nix_head, nix_plan,
    nix_tail, nix_theme_of, nix_user_actions, NixActionView, NixTheme,
};
use crate::text::{contains_seq, unicode_lowercase};

verus! {

/// What `a` holds, `a + b` and `b + a` hold.
pub proof fn lemma_concat_contains<A>(a: Seq<A>, b: Seq<A>, x: A)
    requires
        a.contains(x),
    ensures
        (a + b).contains(x),
        (b + a).contains(x),
{
    let i = choose|i: int| 0 <= i < a.len() && a[i] == x;
    assert((a + b)[i] == x);
    assert((b + a)[b.len() + i] == x);
}

/// Whatever `choice_packages` holds, the package set holds.
proof fn lemma_choice_in_set(c: InstallConfig, p: &'static str)
    requires
        choice_packages(c).contains(p),
    ensures
        package_set_spec(c).contains(p),
{
    let s0 = crate::arch::config::base_set() + seq!["grub", "os-prober", "athena-grub-theme"] + (
    if c.bootloader.kind@ == "grub-efi"@ {
        seq!["efibootmgr"]
    } else {
        Seq::<&'static str>::empty()
    });
    lemma_concat_contains(choice_packages(c), s0, p);
    let s1 = s0 + choice_packages(c);
    let z = if c.zramd {
        seq!["zram-generator"]
    } else {
        Seq::<&'static str>::empty()
    };
    lemma_concat_contains(s1, z, p);
    let f = if c.flatpak {
        seq!["flatpak"]
    } else {
        Seq::<&'static str>::empty()
    };
    lemma_concat_contains(s1 + z, f, p);
    lemma_concat_contains(s1 + z + f, crate::arch::config::shells_packages(c.users@), p);
}

/// Whatever the display manager's steps hold, the plan holds.
proof fn lemma_dm_steps_in_plan(c: InstallConfig, s: StepView)
    requires
        dm_steps(c).contains(s),
    ensures
        install_plan(c).contains(s),
{
    lemma_concat_contains(dm_steps(c), (if c.networking.ipv6 {
        seq![StepView::EnableIpv6]
    } else {
        seq![]
    }) + (if c.zramd {
        seq![StepView::ConfigureZram]
    } else {
        seq![]
    }) + (if unicode_lowercase(c.desktop@) == "gnome"@ {
        crate::arch::desktops::gnome_disable_steps()
    } else {
        seq![]
    }), s);
    lemma_concat_contains(plan_system(c), crate::arch::config::plan_apps(c), s);
    lemma_concat_contains(plan_middle(c), crate::arch::config::plan_head(c), s);
    lemma_concat_contains(crate::arch::config::plan_head(c) + plan_middle(c), crate::arch::config::plan_tail(c), s);
}

/// A configuration whose display manager is `sddm` (in any case) installs
/// the SDDM theme package and enables the `sddm` service.
pub proof fn law_sddm_setup(c: InstallConfig)
    requires
        unicode_lowercase(c.displaymanager@) == "sddm"@,
    ensures
        package_set_spec(c).contains("sddm-astronaut-theme"),
        install_plan(c).contains(StepView::EnableService("sddm"@)),
{
    reveal_strlit("sddm");
    reveal_strlit("gdm");
    reveal_strlit("lightdm neon");
    assert("sddm"@.len() == 4 && "gdm"@.len() == 3 && "lightdm neon"@.len() == 12);
    assert(crate::arch::config::dm_of("sddm"@) == Some(crate::arch::displaymanagers::DMSetup::Sddm));
    let d = seq!["sddm-astronaut-theme"];
    assert(d[0] == "sddm-astronaut-theme");
    let pre = match crate::arch::config::desktop_of(unicode_lowercase(c.desktop@)) {
        Some(x) => crate::arch::desktops::desktop_packages(x),
        None => Seq::empty(),
    };
    lemma_concat_contains(d, pre, "sddm-astronaut-theme");
    lemma_choice_rest(c, pre + d, "sddm-astronaut-theme");
    lemma_choice_in_set(c, "sddm-astronaut-theme");
    assert(dm_steps(c)[0] == StepView::EnableService("sddm"@));
    lemma_dm_steps_in_plan(c, StepView::EnableService("sddm"@));
}

/// A configuration whose display manager is `gdm` (in any case) installs
/// the GDM configuration package and enables the `gdm` service.
pub proof fn law_gdm_setup(c: InstallConfig)
    requires
        unicode_lowercase(c.displaymanager@) == "gdm"@,
    ensures
        package_set_spec(c).contains("athena-gdm-config"),
        install_plan(c).contains(StepView::EnableService("gdm"@)),
{
    reveal_strlit("gdm");
    let d = seq!["athena-gdm-config"];
    assert(d[0] == "athena-gdm-config");
    let pre = match crate::arch::config::desktop_of(unicode_lowercase(c.desktop@)) {
        Some(x) => crate::arch::desktops::desktop_packages(x),
        None => Seq::empty(),
    };
    lemma_concat_contains(d, pre, "athena-gdm-config");
    lemma_choice_rest(c, pre + d, "athena-gdm-config");
    lemma_choice_in_set(c, "athena-gdm-config");
    let g = gdm_steps(c.desktop@);
    assert(g[g.len() - 1] == StepView::EnableService("gdm"@));
    lemma_dm_steps_in_plan(c, StepView::EnableService("gdm"@));
}

/// A configuration whose display manager is `lightdm neon` (in any case)
/// installs the LightDM Neon theme package and enables the `lightdm`
/// service.
pub proof fn law_lightdm_neon_setup(c: InstallConfig)
    requires
        unicode_lowercase(c.displaymanager@) == "lightdm neon"@,
    ensures
        package_set_spec(c).contains("athena-lightdm-neon-theme"),
        install_plan(c).contains(StepView::EnableService("lightdm"@)),
{
    reveal_strlit("gdm");
    reveal_strlit("lightdm neon");
    assert("gdm"@.len() == 3 && "lightdm neon"@.len() == 12);
    assert(crate::arch::config::dm_of("lightdm neon"@) == Some(crate::arch::displaymanagers::DMSetup::LightDMNeon));
    let d = seq!["athena-lightdm-neon-theme"];
    assert(d[0] == "athena-lightdm-neon-theme");
    let pre = match crate::arch::config::desktop_of(unicode_lowercase(c.desktop@)) {
        Some(x) => crate::arch::desktops::desktop_packages(x),
        None => Seq::empty(),
    };
    lemma_concat_contains(d, pre, "athena-lightdm-neon-theme");
    lemma_choice_rest(c, pre + d, "athena-lightdm-neon-theme");
    lemma_choice_in_set(c, "athena-lightdm-neon-theme");
    let s = dm_steps(c);
    assert(s[s.len() - 1] == StepView::EnableService("lightdm"@));
    lemma_dm_steps_in_plan(c, StepView::EnableService("lightdm"@));
}

/// What the desktop and display manager packages hold, the choice packages
/// hold.
proof fn lemma_choice_rest(c: InstallConfig, head: Seq<&'static str>, p: &'static str)
    requires
        head.contains(p),
        head == (match crate::arch::config::desktop_of(unicode_lowercase(c.desktop@)) {
            Some(x) => crate::arch::desktops::desktop_packages(x),
            None => Seq::empty(),
        }) + (match crate::arch::config::dm_of(unicode_lowercase(c.displaymanager@)) {
            Some(x) => crate::arch::displaymanagers::dm_packages(x),
            None => Seq::empty(),
        }),
    ensures
        choice_packages(c).contains(p),
{
    let b = match crate::arch::config::browser_of(unicode_lowercase(c.browser@)) {
        Some(x) => crate::arch::browsers::browser_packages(x),
        None => Seq::empty(),
    };
    lemma_concat_contains(head, b, p);
    let t = match crate::arch::config::terminal_of(unicode_lowercase(c.terminal@)) {
        Some(x) => crate::arch::terminals::terminal_packages(x.0),
        None => Seq::empty(),
    };
    lemma_concat_contains(head + b, t, p);
    let th = match crate::arch::config::theme_of(unicode_lowercase(c.theme@)) {
        Some(x) => crate::arch::themes::theme_packages(x),
        None => Seq::empty(),
    };
    lemma_concat_contains(head + b + t, th, p);
}

/// The design names of the NixOS backend and the design each sets up.
pub open spec fn nix_theme_named(name: Seq<char>, theme: NixTheme) -> bool {
    ||| name == "cyborg"@ && theme == NixTheme::Cyborg
    ||| name == "graphite"@ && theme == NixTheme::Graphite
    ||| name == "hackthebox"@ && theme == NixTheme::HackTheBox
    ||| name == "redmoon"@ && theme == NixTheme::RedMoon
    ||| name == "samurai"@ && theme == NixTheme::Samurai
    ||| name == "sweet"@ && theme == NixTheme::Sweet
    ||| name == "temple"@ && theme == NixTheme::Temple
}

/// A NixOS configuration whose design is one of the backend's design names
/// (in any case) gets that design's setup in its plan: `cyborg` sets up
/// Cyborg, `graphite` Graphite, and so on.
pub proof fn law_nix_theme(c: InstallConfig, name: Seq<char>, theme: NixTheme)
    requires
        unicode_lowercase(c.theme@) == name,
        nix_theme_named(name, theme),
    ensures
        nix_plan(c).contains(NixActionView::Theme(theme)),
{
    reveal_strlit("cyborg");
    reveal_strlit("graphite");
    reveal_strlit("hackthebox");
    reveal_strlit("redmoon");
    reveal_strlit("samurai");
    reveal_strlit("sweet");
    reveal_strlit("temple");
    assert("cyborg"@.len() == 6 && "graphite"@.len() == 8 && "hackthebox"@.len() == 10 && "redmoon"@.len() == 7
        && "samurai"@.len() == 7 && "sweet"@.len() == 5 && "temple"@.len() == 6);
    assert("redmoon"@[0] != "samurai"@[0]);
    assert("cyborg"@[0] != "temple"@[0]);
    assert(nix_theme_of(name) == Some(theme));
    let t = choice_theme(c);
    assert(t[0] == NixActionView::Theme(theme));
    lemma_concat_contains(t, choice_desktop(c), NixActionView::Theme(theme));
    let a = choice_desktop(c) + t;
    lemma_concat_contains(a, choice_dm(c), NixActionView::Theme(theme));
    lemma_concat_contains(a + choice_dm(c), choice_browser(c), NixActionView::Theme(theme));
    lemma_concat_contains(a + choice_dm(c) + choice_browser(c), choice_terminal(c), NixActionView::Theme(theme));
    let f = if c.flatpak {
        seq![NixActionView::Flatpak]
    } else {
        Seq::<NixActionView>::empty()
    };
    lemma_concat_contains(a + choice_dm(c) + choice_browser(c) + choice_terminal(c), f, NixActionView::Theme(theme));
    assert(nix_choices(c).contains(NixActionView::Theme(theme)));
    lemma_concat_contains(nix_choices(c), nix_head(c), NixActionView::Theme(theme));
    lemma_concat_contains(nix_head(c) + nix_choices(c), nix_user_actions(c.users@), NixActionView::Theme(theme));
    lemma_concat_contains(
        nix_head(c) + nix_choices(c) + nix_user_actions(c.users@),
        nix_tail(c),
        NixActionView::Theme(theme),
    );
}

/// Two design names that set up the same design are the same name.
pub proof fn law_nix_theme_names_distinct(a: Seq<char>, b: Seq<char>)
    requires
        nix_theme_of(a) is Some,
        nix_theme_of(a) == nix_theme_of(b),
    ensures
        a == b,
{
}

/// Whatever the NVIDIA packages hold, a machine with an NVIDIA card gets.
proof fn lemma_nvidia_in(cpu: Seq<char>, gpu: Seq<char>, kernel: Seq<char>, p: &'static str)
    requires
        contains_seq(gpu, "NVIDIA"@),
        nvidia_packages(gpu, kernel, contains_seq(gpu, "AMD"@) || (contains_seq(gpu, "ATI"@) && !contains_seq(
            gpu,
            "AMD"@,
        ))).contains(p),
    ensures
        cpu_gpu_packages(cpu, gpu, kernel).contains(p),
{
    let amd = contains_seq(gpu, "AMD"@);
    let ati = contains_seq(gpu, "ATI"@) && !amd;
    let pre = cpu_packages(cpu) + (if amd {
        seq!["xf86-video-amdgpu", "opencl-amd"]
    } else {
        seq![]
    }) + (if ati {
        seq!["opencl-mesa"]
    } else {
        seq![]
    });
    lemma_concat_contains(nvidia_packages(gpu, kernel, amd || ati), pre, p);
}

/// Whatever the legacy drivers hold, the NVIDIA packages hold.
proof fn lemma_legacy_in(gpu: Seq<char>, kernel: Seq<char>, fb: bool, p: &'static str)
    requires
        legacy_seg(gpu).contains(p),
    ensures
        nvidia_packages(gpu, kernel, fb).contains(p),
{
    let pre = maxwell_seg(gpu, kernel) + turing_seg(gpu, kernel);
    lemma_concat_contains(legacy_seg(gpu), pre, p);
    lemma_concat_contains(pre + legacy_seg(gpu), nvidia_tail(gpu, fb), p);
}

/// The Fermi chips (GF1xx).
pub open spec fn fermi_chip(chip: Seq<char>) -> bool {
    ||| chip == "GF100"@ ||| chip == "GF108"@ ||| chip == "GF106"@ ||| chip == "GF104"@ ||| chip == "GF110"@
    ||| chip == "GF114"@ ||| chip == "GF116"@ ||| chip == "GF117"@ ||| chip == "GF119"@
}

/// The Kepler chips (GK1xx, GK2xx).
pub open spec fn kepler_chip(chip: Seq<char>) -> bool {
    ||| chip == "GK104"@ ||| chip == "GK107"@ ||| chip == "GK106"@ ||| chip == "GK110"@ ||| chip == "GK110B"@
    ||| chip == "GK208B"@ ||| chip == "GK208"@ ||| chip == "GK20A"@ ||| chip == "GK210"@
}

/// The Tesla chips (G8x, G9x, GT2xx and the MCP chipsets).
pub open spec fn tesla_chip(chip: Seq<char>) -> bool {
    ||| chip == "G80"@ ||| chip == "G84"@ ||| chip == "G86"@ ||| chip == "G92"@ ||| chip == "G94"@
    ||| chip == "G96"@ ||| chip == "G98"@ ||| chip == "GT200"@ ||| chip == "GT215"@ ||| chip == "GT216"@
    ||| chip == "GT218"@ ||| chip == "MCP77"@ ||| chip == "MCP78"@ ||| chip == "MCP79"@ ||| chip == "MCP7A"@
    ||| chip == "MCP89"@
}

/// The Maxwell chips (GM1xx, GM2xx).
pub open spec fn maxwell_chip(chip: Seq<char>) -> bool {
    ||| chip == "GM107"@ ||| chip == "GM108"@ ||| chip == "GM200"@ ||| chip == "GM204"@ ||| chip == "GM206"@
    ||| chip == "GM20B"@
}

/// The Turing chips (TU1xx).
pub open spec fn turing_chip(chip: Seq<char>) -> bool {
    ||| chip == "TU102"@ ||| chip == "TU104"@ ||| chip == "TU106"@ ||| chip == "TU116"@ ||| chip == "TU117"@
}

/// An NVIDIA card that names a Fermi chip gets the 390xx legacy driver.
pub proof fn law_fermi_driver(cpu: Seq<char>, gpu: Seq<char>, kernel: Seq<char>, chip: Seq<char>)
    requires
        contains_seq(gpu, "NVIDIA"@),
        contains_seq(gpu, chip),
        fermi_chip(chip),
    ensures
        cpu_gpu_packages(cpu, gpu, kernel).contains("nvidia-390xx-dkms"),
        cpu_gpu_packages(cpu, gpu, kernel).contains("nvidia-390xx-settings"),
{
    let f = fermi_chips();
    assert(exists|i: int| 0 <= i < f.len() && f[i] == chip) by {
        if chip == "GF100"@ { assert(f[0] == chip); } else if chip == "GF108"@ { assert(f[1] == chip); }
        else if chip == "GF106"@ { assert(f[2] == chip); } else if chip == "GF104"@ { assert(f[3] == chip); }
        else if chip == "GF110"@ { assert(f[4] == chip); } else if chip == "GF114"@ { assert(f[5] == chip); }
        else if chip == "GF116"@ { assert(f[6] == chip); } else if chip == "GF117"@ { assert(f[7] == chip); }
        else { assert(f[8] == chip); }
    }
    assert(names_any(gpu, f));
    let k = if names_any(gpu, kepler_chips()) {
        seq!["nvidia-470xx-dkms", "nvidia-470xx-settings"]
    } else {
        seq![]
    };
    let m = seq!["nvidia-390xx-dkms", "nvidia-390xx-settings"];
    assert(m[0] == "nvidia-390xx-dkms" && m[1] == "nvidia-390xx-settings");
    let t = if names_any(gpu, tesla_chips()) {
        seq!["nvidia-340xx-dkms", "nvidia-340xx-settings"]
    } else {
        seq![]
    };
    let fb = contains_seq(gpu, "AMD"@) || (contains_seq(gpu, "ATI"@) && !contains_seq(gpu, "AMD"@));
    lemma_concat_contains(m, k, "nvidia-390xx-dkms");
    lemma_concat_contains(k + m, t, "nvidia-390xx-dkms");
    lemma_legacy_in(gpu, kernel, fb, "nvidia-390xx-dkms");
    lemma_nvidia_in(cpu, gpu, kernel, "nvidia-390xx-dkms");
    lemma_concat_contains(m, k, "nvidia-390xx-settings");
    lemma_concat_contains(k + m, t, "nvidia-390xx-settings");
    lemma_legacy_in(gpu, kernel, fb, "nvidia-390xx-settings");
    lemma_nvidia_in(cpu, gpu, kernel, "nvidia-390xx-settings");
}

/// An NVIDIA card that names a Kepler chip gets the 470xx legacy driver.
pub proof fn law_kepler_driver(cpu: Seq<char>, gpu: Seq<char>, kernel: Seq<char>, chip: Seq<char>)
    requires
        contains_seq(gpu, "NVIDIA"@),
        contains_seq(gpu, chip),
        kepler_chip(chip),
    ensures
        cpu_gpu_packages(cpu, gpu, kernel).contains("nvidia-470xx-dkms"),
        cpu_gpu_packages(cpu, gpu, kernel).contains("nvidia-470xx-settings"),
{
    let f = kepler_chips();
    assert(exists|i: int| 0 <= i < f.len() && f[i] == chip) by {
        if chip == "GK104"@ {
            assert(f[0] == chip);
        } else if chip == "GK107"@ {
            assert(f[1] == chip);
        } else if chip == "GK106"@ {
            assert(f[2] == chip);
        } else if chip == "GK110"@ {
            assert(f[3] == chip);
        } else if chip == "GK110B"@ {
            assert(f[4] == chip);
        } else if chip == "GK208B"@ {
            assert(f[5] == chip);
        } else if chip == "GK208"@ {
            assert(f[6] == chip);
        } else if chip == "GK20A"@ {
            assert(f[7] == chip);
        } else {
            assert(f[8] == chip);
        }
    }
    assert(names_any(gpu, f));
    let k = seq!["nvidia-470xx-dkms", "nvidia-470xx-settings"];
    assert(k[0] == "nvidia-470xx-dkms" && k[1] == "nvidia-470xx-settings");
    let m = if names_any(gpu, fermi_chips()) {
        seq!["nvidia-390xx-dkms", "nvidia-390xx-settings"]
    } else {
        seq![]
    };
    let t = if names_any(gpu, tesla_chips()) {
        seq!["nvidia-340xx-dkms", "nvidia-340xx-settings"]
    } else {
        seq![]
    };
    let fb = contains_seq(gpu, "AMD"@) || (contains_seq(gpu, "ATI"@) && !contains_seq(gpu, "AMD"@));
    lemma_concat_contains(k, m, "nvidia-470xx-dkms");
    lemma_concat_contains(k + m, t, "nvidia-470xx-dkms");
    lemma_legacy_in(gpu, kernel, fb, "nvidia-470xx-dkms");
    lemma_nvidia_in(cpu, gpu, kernel, "nvidia-470xx-dkms");
    lemma_concat_contains(k, m, "nvidia-470xx-settings");
    lemma_concat_contains(k + m, t, "nvidia-470xx-settings");
    lemma_legacy_in(gpu, kernel, fb, "nvidia-470xx-settings");
    lemma_nvidia_in(cpu, gpu, kernel, "nvidia-470xx-settings");
}

/// An NVIDIA card that names a Tesla chip gets the 340xx legacy driver.
pub proof fn law_tesla_driver(cpu: Seq<char>, gpu: Seq<char>, kernel: Seq<char>, chip: Seq<char>)
    requires
        contains_seq(gpu, "NVIDIA"@),
        contains_seq(gpu, chip),
        tesla_chip(chip),
    ensures
        cpu_gpu_packages(cpu, gpu, kernel).contains("nvidia-340xx-dkms"),
        cpu_gpu_packages(cpu, gpu, kernel).contains("nvidia-340xx-settings"),
{
    let f = tesla_chips();
    assert(exists|i: int| 0 <= i < f.len() && f[i] == chip) by {
        if chip == "G80"@ {
            assert(f[0] == chip);
        } else if chip == "G84"@ {
            assert(f[1] == chip);
        } else if chip == "G86"@ {
            assert(f[2] == chip);
        } else if chip == "G92"@ {
            assert(f[3] == chip);
        } else if chip == "G94"@ {
            assert(f[4] == chip);
        } else if chip == "G96"@ {
            assert(f[5] == chip);
        } else if chip == "G98"@ {
            assert(f[6] == chip);
        } else if chip == "GT200"@ {
            assert(f[7] == chip);
        } else if chip == "GT215"@ {
            assert(f[8] == chip);
        } else if chip == "GT216"@ {
            assert(f[9] == chip);
        } else if chip == "GT218"@ {
            assert(f[10] == chip);
        } else if chip == "MCP77"@ {
            assert(f[11] == chip);
        } else if chip == "MCP78"@ {
            assert(f[12] == chip);
        } else if chip == "MCP79"@ {
            assert(f[13] == chip);
        } else if chip == "MCP7A"@ {
            assert(f[14] == chip);
        } else {
            assert(f[15] == chip);
        }
    }
    assert(names_any(gpu, f));
    let k = if names_any(gpu, kepler_chips()) {
        seq!["nvidia-470xx-dkms", "nvidia-470xx-settings"]
    } else {
        seq![]
    };
    let m = if names_any(gpu, fermi_chips()) {
        seq!["nvidia-390xx-dkms", "nvidia-390xx-settings"]
    } else {
        seq![]
    };
    let t = seq!["nvidia-340xx-dkms", "nvidia-340xx-settings"];
    assert(t[0] == "nvidia-340xx-dkms" && t[1] == "nvidia-340xx-settings");
    let fb = contains_seq(gpu, "AMD"@) || (contains_seq(gpu, "ATI"@) && !contains_seq(gpu, "AMD"@));
    lemma_concat_contains(t, k + m, "nvidia-340xx-dkms");
    lemma_legacy_in(gpu, kernel, fb, "nvidia-340xx-dkms");
    lemma_nvidia_in(cpu, gpu, kernel, "nvidia-340xx-dkms");
    lemma_concat_contains(t, k + m, "nvidia-340xx-settings");
    lemma_legacy_in(gpu, kernel, fb, "nvidia-340xx-settings");
    lemma_nvidia_in(cpu, gpu, kernel, "nvidia-340xx-settings");
}

/// An NVIDIA card that names a Maxwell chip gets the driver for the kernel
/// (`nvidia` for `linux`, `nvidia-lts` for `linux-lts`, `nvidia-dkms`
/// otherwise) and its settings tool.
pub proof fn law_maxwell_driver(cpu: Seq<char>, gpu: Seq<char>, kernel: Seq<char>, chip: Seq<char>)
    requires
        contains_seq(gpu, "NVIDIA"@),
        contains_seq(gpu, chip),
        maxwell_chip(chip),
    ensures
        kernel == "linux"@ ==> cpu_gpu_packages(cpu, gpu, kernel).contains("nvidia"),
        kernel == "linux-lts"@ ==> cpu_gpu_packages(cpu, gpu, kernel).contains("nvidia-lts"),
        kernel != "linux"@ && kernel != "linux-lts"@ ==> cpu_gpu_packages(cpu, gpu, kernel).contains("nvidia-dkms"),
        cpu_gpu_packages(cpu, gpu, kernel).contains("nvidia-settings"),
{
    let f = maxwell_chips();
    assert(exists|i: int| 0 <= i < f.len() && f[i] == chip) by {
        if chip == "GM107"@ {
            assert(f[0] == chip);
        } else if chip == "GM108"@ {
            assert(f[1] == chip);
        } else if chip == "GM200"@ {
            assert(f[2] == chip);
        } else if chip == "GM204"@ {
            assert(f[3] == chip);
        } else if chip == "GM206"@ {
            assert(f[4] == chip);
        } else {
            assert(f[5] == chip);
        }
    }
    assert(names_any(gpu, f));
    reveal_strlit("linux");
    reveal_strlit("linux-lts");
    assert("linux"@.len() != "linux-lts"@.len());
    let d: &'static str = if kernel == "linux"@ {
        "nvidia"
    } else if kernel == "linux-lts"@ {
        "nvidia-lts"
    } else {
        "nvidia-dkms"
    };
    let ms = maxwell_seg(gpu, kernel);
    assert(ms[0] == d && ms[1] == "nvidia-settings");
    let fb = contains_seq(gpu, "AMD"@) || (contains_seq(gpu, "ATI"@) && !contains_seq(gpu, "AMD"@));
    let rest = turing_seg(gpu, kernel);
    lemma_concat_contains(ms, rest, d);
    lemma_concat_contains(ms + rest, legacy_seg(gpu), d);
    lemma_concat_contains(ms + rest + legacy_seg(gpu), nvidia_tail(gpu, fb), d);
    lemma_nvidia_in(cpu, gpu, kernel, d);
    lemma_concat_contains(ms, rest, "nvidia-settings");
    lemma_concat_contains(ms + rest, legacy_seg(gpu), "nvidia-settings");
    lemma_concat_contains(ms + rest + legacy_seg(gpu), nvidia_tail(gpu, fb), "nvidia-settings");
    lemma_nvidia_in(cpu, gpu, kernel, "nvidia-settings");
}

/// An NVIDIA card that names a Turing chip gets the open driver
/// (`nvidia-open` for `linux`, `nvidia-open-dkms` otherwise).
pub proof fn law_turing_driver(cpu: Seq<char>, gpu: Seq<char>, kernel: Seq<char>, chip: Seq<char>)
    requires
        contains_seq(gpu, "NVIDIA"@),
        contains_seq(gpu, chip),
        turing_chip(chip),
    ensures
        kernel == "linux"@ ==> cpu_gpu_packages(cpu, gpu, kernel).contains("nvidia-open"),
        kernel != "linux"@ ==> cpu_gpu_packages(cpu, gpu, kernel).contains("nvidia-open-dkms"),
{
    let f = turing_chips();
    assert(exists|i: int| 0 <= i < f.len() && f[i] == chip) by {
        if chip == "TU102"@ {
            assert(f[0] == chip);
        } else if chip == "TU104"@ {
            assert(f[1] == chip);
        } else if chip == "TU106"@ {
            assert(f[2] == chip);
        } else if chip == "TU116"@ {
            assert(f[3] == chip);
        } else {
            assert(f[4] == chip);
        }
    }
    assert(names_any(gpu, f));
    let d: &'static str = if kernel == "linux"@ {
        "nvidia-open"
    } else {
        "nvidia-open-dkms"
    };
    let ts = turing_seg(gpu, kernel);
    assert(ts[0] == d);
    let fb = contains_seq(gpu, "AMD"@) || (contains_seq(gpu, "ATI"@) && !contains_seq(gpu, "AMD"@));
    let ms = maxwell_seg(gpu, kernel);
    lemma_concat_contains(ts, ms, d);
    lemma_concat_contains(ms + ts, legacy_seg(gpu), d);
    lemma_concat_contains(ms + ts + legacy_seg(gpu), nvidia_tail(gpu, fb), d);
    lemma_nvidia_in(cpu, gpu, kernel, d);
}

/// What `a + b` holds, `a` or `b` holds.
proof fn lemma_concat_split<A>(a: Seq<A>, b: Seq<A>, x: A)
    requires
        (a + b).contains(x),
    ensures
        a.contains(x) || b.contains(x),
{
    let i = choose|i: int| 0 <= i < (a + b).len() && (a + b)[i] == x;
    if i < a.len() {
        assert(a[i] == x);
    } else {
        assert(b[i - a.len()] == x);
    }
}

/// A package of one of the legacy driver series.
pub open spec fn legacy_driver(p: &'static str) -> bool {
    ||| p@ == "nvidia-470xx-dkms"@
    ||| p@ == "nvidia-470xx-settings"@
    ||| p@ == "nvidia-390xx-dkms"@
    ||| p@ == "nvidia-390xx-settings"@
    ||| p@ == "nvidia-340xx-dkms"@
    ||| p@ == "nvidia-340xx-settings"@
}

/// A list with no legacy driver in it does not hold `p`, a legacy driver.
proof fn lemma_piece_free(piece: Seq<&'static str>, p: &'static str)
    requires
        legacy_driver(p),
        forall|i: int| 0 <= i < piece.len() ==> !legacy_driver(#[trigger] piece[i]),
    ensures
        !piece.contains(p),
{
}

/// The characters that tell the legacy series apart.
proof fn lemma_legacy_chars()
    ensures
        "nvidia-470xx-dkms"@[7] == '4' && "nvidia-470xx-dkms"@[8] == '7' && "nvidia-470xx-dkms"@[0] == 'n',
        "nvidia-470xx-settings"@[7] == '4' && "nvidia-470xx-settings"@[8] == '7' && "nvidia-470xx-settings"@[0] == 'n',
        "nvidia-390xx-dkms"@[7] == '3' && "nvidia-390xx-dkms"@[8] == '9' && "nvidia-390xx-dkms"@[0] == 'n',
        "nvidia-390xx-settings"@[7] == '3' && "nvidia-390xx-settings"@[8] == '9' && "nvidia-390xx-settings"@[0] == 'n',
        "nvidia-340xx-dkms"@[7] == '3' && "nvidia-340xx-dkms"@[8] == '4' && "nvidia-340xx-dkms"@[0] == 'n',
        "nvidia-340xx-settings"@[7] == '3' && "nvidia-340xx-settings"@[8] == '4' && "nvidia-340xx-settings"@[0] == 'n',
        "nvidia-470xx-dkms"@.len() == 17 && "nvidia-390xx-dkms"@.len() == 17 && "nvidia-340xx-dkms"@.len() == 17,
        "nvidia-470xx-settings"@.len() == 21 && "nvidia-390xx-settings"@.len() == 21
            && "nvidia-340xx-settings"@.len() == 21,
{
    reveal_strlit("nvidia-470xx-dkms");
    reveal_strlit("nvidia-470xx-settings");
    reveal_strlit("nvidia-390xx-dkms");
    reveal_strlit("nvidia-390xx-settings");
    reveal_strlit("nvidia-340xx-dkms");
    reveal_strlit("nvidia-340xx-settings");
}

/// No package outside the legacy segment belongs to a legacy series.
proof fn lemma_legacy_only_there(cpu: Seq<char>, gpu: Seq<char>, kernel: Seq<char>, p: &'static str)
    requires
        cpu_gpu_packages(cpu, gpu, kernel).contains(p),
        legacy_driver(p),
    ensures
        legacy_seg(gpu).contains(p),
{
    reveal_strlit("nvidia-470xx-dkms");
    reveal_strlit("nvidia-470xx-settings");
    reveal_strlit("nvidia-390xx-dkms");
    reveal_strlit("nvidia-390xx-settings");
    reveal_strlit("nvidia-340xx-dkms");
    reveal_strlit("nvidia-340xx-settings");
    reveal_strlit("intel-compute-runtime");
    reveal_strlit("intel-ucode");
    reveal_strlit("amd-ucode");
    reveal_strlit("xf86-video-amdgpu");
    reveal_strlit("opencl-amd");
    reveal_strlit("opencl-mesa");
    reveal_strlit("nvidia");
    reveal_strlit("nvidia-lts");
    reveal_strlit("nvidia-dkms");
    reveal_strlit("nvidia-settings");
    reveal_strlit("nvidia-open");
    reveal_strlit("nvidia-open-dkms");
    reveal_strlit("opencl-nvidia");
    reveal_strlit("gwe");
    reveal_strlit("nvtop");
    reveal_strlit("envycontrol");
    let amd = contains_seq(gpu, "AMD"@);
    let ati = contains_seq(gpu, "ATI"@) && !amd;
    let a = cpu_packages(cpu);
    let b = if amd {
        seq!["xf86-video-amdgpu", "opencl-amd"]
    } else {
        seq![]
    };
    let c = if ati {
        seq!["opencl-mesa"]
    } else {
        seq![]
    };
    let n = if contains_seq(gpu, "NVIDIA"@) {
        nvidia_packages(gpu, kernel, amd || ati)
    } else {
        seq![]
    };
    lemma_legacy_chars();
    assert("intel-compute-runtime"@[0] == 'i' && "xf86-video-amdgpu"@[0] == 'x');
    lemma_concat_split(a + b + c, n, p);
    if (a + b + c).contains(p) {
        lemma_concat_split(a + b, c, p);
        if (a + b).contains(p) {
            lemma_concat_split(a, b, p);
        }
        lemma_piece_free(a, p);
        lemma_piece_free(b, p);
        lemma_piece_free(c, p);
    }
    let fb = amd || ati;
    let ms = maxwell_seg(gpu, kernel);
    let ts = turing_seg(gpu, kernel);
    let tl = nvidia_tail(gpu, fb);
    lemma_concat_split(ms + ts + legacy_seg(gpu), tl, p);
    if tl.contains(p) {
        let t0 = if !crate::arch::hardware::gpu_found(gpu, fb) {
            seq!["nvidia-open-dkms", "nvidia-settings"]
        } else {
            seq![]
        };
        let t1 = seq!["opencl-nvidia", "gwe", "nvtop"];
        let t2 = if contains_seq(gpu, "Intel"@) || contains_seq(gpu, "AMD"@) || contains_seq(gpu, "ATI"@) {
            seq!["envycontrol"]
        } else {
            seq![]
        };
        assert(tl == t0 + t1 + t2);
        lemma_concat_split(t0 + t1, t2, p);
        if (t0 + t1).contains(p) {
            lemma_concat_split(t0, t1, p);
        }
        lemma_piece_free(t0, p);
        lemma_piece_free(t1, p);
        lemma_piece_free(t2, p);
    }
    lemma_concat_split(ms + ts, legacy_seg(gpu), p);
    if (ms + ts).contains(p) {
        lemma_concat_split(ms, ts, p);
        lemma_piece_free(ms, p);
        lemma_piece_free(ts, p);
    }
}

/// A card that names no chip of a family gets no driver of that family's
/// legacy series: no 470xx driver without a Kepler chip, no 390xx driver
/// without a Fermi chip, no 340xx driver without a Tesla chip. With the laws
/// above, each of the three families gets its own series and no other
/// family's.
pub proof fn law_legacy_series_by_family(cpu: Seq<char>, gpu: Seq<char>, kernel: Seq<char>)
    ensures
        (forall|chip: Seq<char>| #[trigger] kepler_chip(chip) ==> !contains_seq(gpu, chip)) ==> {
            &&& !cpu_gpu_packages(cpu, gpu, kernel).contains("nvidia-470xx-dkms")
            &&& !cpu_gpu_packages(cpu, gpu, kernel).contains("nvidia-470xx-settings")
        },
        (forall|chip: Seq<char>| #[trigger] fermi_chip(chip) ==> !contains_seq(gpu, chip)) ==> {
            &&& !cpu_gpu_packages(cpu, gpu, kernel).contains("nvidia-390xx-dkms")
            &&& !cpu_gpu_packages(cpu, gpu, kernel).contains("nvidia-390xx-settings")
        },
        (forall|chip: Seq<char>| #[trigger] tesla_chip(chip) ==> !contains_seq(gpu, chip)) ==> {
            &&& !cpu_gpu_packages(cpu, gpu, kernel).contains("nvidia-340xx-dkms")
            &&& !cpu_gpu_packages(cpu, gpu, kernel).contains("nvidia-340xx-settings")
        },
{
    reveal_strlit("nvidia-470xx-dkms");
    reveal_strlit("nvidia-470xx-settings");
    reveal_strlit("nvidia-390xx-dkms");
    reveal_strlit("nvidia-390xx-settings");
    reveal_strlit("nvidia-340xx-dkms");
    reveal_strlit("nvidia-340xx-settings");
    let pk = cpu_gpu_packages(cpu, gpu, kernel);
    let kk = seq!["nvidia-470xx-dkms", "nvidia-470xx-settings"];
    let ff = seq!["nvidia-390xx-dkms", "nvidia-390xx-settings"];
    let tt = seq!["nvidia-340xx-dkms", "nvidia-340xx-settings"];
    let kn = names_any(gpu, kepler_chips());
    let fnm = names_any(gpu, fermi_chips());
    let tn = names_any(gpu, tesla_chips());
    let ks = if kn { kk } else { seq![] };
    let fs = if fnm { ff } else { seq![] };
    let ts = if tn { tt } else { seq![] };
    assert(legacy_seg(gpu) == ks + fs + ts);
    assert forall|p: &'static str| legacy_driver(p) && #[trigger] pk.contains(p) implies {
        &&& (p@ == "nvidia-470xx-dkms"@ || p@ == "nvidia-470xx-settings"@) ==> kn
        &&& (p@ == "nvidia-390xx-dkms"@ || p@ == "nvidia-390xx-settings"@) ==> fnm
        &&& (p@ == "nvidia-340xx-dkms"@ || p@ == "nvidia-340xx-settings"@) ==> tn
    } by {
        lemma_legacy_chars();
        lemma_legacy_only_there(cpu, gpu, kernel, p);
        lemma_concat_split(ks + fs, ts, p);
        if (ks + fs).contains(p) {
            lemma_concat_split(ks, fs, p);
        }
    }
    if forall|chip: Seq<char>| #[trigger] kepler_chip(chip) ==> !contains_seq(gpu, chip) {
        if kn {
            let i = choose|i: int| 0 <= i < kepler_chips().len() && contains_seq(gpu, #[trigger] kepler_chips()[i]);
            assert(kepler_chip(kepler_chips()[i]));
        }
        if pk.contains("nvidia-470xx-dkms") {
            assert(legacy_driver("nvidia-470xx-dkms"));
        }
        if pk.contains("nvidia-470xx-settings") {
            assert(legacy_driver("nvidia-470xx-settings"));
        }
    }
    if forall|chip: Seq<char>| #[trigger] fermi_chip(chip) ==> !contains_seq(gpu, chip) {
        if fnm {
            let i = choose|i: int| 0 <= i < fermi_chips().len() && contains_seq(gpu, #[trigger] fermi_chips()[i]);
            assert(fermi_chip(fermi_chips()[i]));
        }
        if pk.contains("nvidia-390xx-dkms") {
            assert(legacy_driver("nvidia-390xx-dkms"));
        }
        if pk.contains("nvidia-390xx-settings") {
            assert(legacy_driver("nvidia-390xx-settings"));
        }
    }
    if forall|chip: Seq<char>| #[trigger] tesla_chip(chip) ==> !contains_seq(gpu, chip) {
        if tn {
            let i = choose|i: int| 0 <= i < tesla_chips().len() && contains_seq(gpu, #[trigger] tesla_chips()[i]);
            assert(tesla_chip(tesla_chips()[i]));
        }
        if pk.contains("nvidia-340xx-dkms") {
            assert(legacy_driver("nvidia-340xx-dkms"));
        }
        if pk.contains("nvidia-340xx-settings") {
            assert(legacy_driver("nvidia-340xx-settings"));
        }
    }
}

} // verus!
