use vstd::prelude::*;
use crate::arch::steps::{edit_file, edit_view, steps_view, StepView, SystemStep};

verus! {

/// Visual themes that the Arch backend can set up.
#[derive(Clone, Copy, Debug, PartialEq, Eq, Structural)]
pub enum ThemeSetup {
    Cyborg,
    Graphite,
    HackTheBox,
    RedMoon,
    Samurai,
    Sweet,
    Temple,
    NoneSelected,
}

/// Packages that make up each ThemeSetup choice.
pub open spec fn theme_packages(setup: ThemeSetup) -> Seq<&'static str> {
    match setup {
        ThemeSetup::Cyborg => seq!["athena-cyborg-theme"],
        ThemeSetup::Graphite => seq!["athena-graphite-theme"],
        ThemeSetup::HackTheBox => seq!["athena-htb-theme"],
        ThemeSetup::RedMoon => seq!["athena-redmoon-theme"],
        ThemeSetup::Samurai => seq!["athena-samurai-theme"],
        ThemeSetup::Sweet => seq!["athena-sweetdark-theme"],
        ThemeSetup::Temple => seq!["athena-temple-theme"],
        ThemeSetup::NoneSelected => seq![],
    }
}

/// Packages to install for the chosen setup; none for `NoneSelected`.
pub fn install_theme_setup(setup: ThemeSetup) -> (r: Vec<&'static str>)
    ensures
        r@ == theme_packages(setup),
{
    match setup {
        ThemeSetup::Cyborg => install_cyborg(),
        ThemeSetup::Graphite => install_graphite(),
        ThemeSetup::HackTheBox => install_hackthebox(),
        ThemeSetup::RedMoon => install_redmoon(),
        ThemeSetup::Samurai => install_samurai(),
        ThemeSetup::Sweet => install_sweet(),
        ThemeSetup::Temple => install_temple(),
        ThemeSetup::NoneSelected => Vec::new(),
    }
}

/// Packages of the `Cyborg` setup.
pub fn install_cyborg() -> (r: Vec<&'static str>)
    ensures
        r@ == theme_packages(ThemeSetup::Cyborg),
{
    vec!["athena-cyborg-theme"]
}

/// Packages of the `Graphite` setup.
pub fn install_graphite() -> (r: Vec<&'static str>)
    ensures
        r@ == theme_packages(ThemeSetup::Graphite),
{
    vec!["athena-graphite-theme"]
}

/// Packages of the `HackTheBox` setup.
pub fn install_hackthebox() -> (r: Vec<&'static str>)
    ensures
        r@ == theme_packages(ThemeSetup::HackTheBox),
{
    vec!["athena-htb-theme"]
}

/// Packages of the `RedMoon` setup.
pub fn install_redmoon() -> (r: Vec<&'static str>)
    ensures
        r@ == theme_packages(ThemeSetup::RedMoon),
{
    vec!["athena-redmoon-theme"]
}

/// Packages of the `Samurai` setup.
pub fn install_samurai() -> (r: Vec<&'static str>)
    ensures
        r@ == theme_packages(ThemeSetup::Samurai),
{
    vec!["athena-samurai-theme"]
}

/// Packages of the `Sweet` setup.
pub fn install_sweet() -> (r: Vec<&'static str>)
    ensures
        r@ == theme_packages(ThemeSetup::Sweet),
{
    vec!["athena-sweetdark-theme"]
}

/// Packages of the `Temple` setup.
pub fn install_temple() -> (r: Vec<&'static str>)
    ensures
        r@ == theme_packages(ThemeSetup::Temple),
{
    vec!["athena-temple-theme"]
}



/// The VSCodium theme and its description, then the tmux colour and its
/// description, that a theme sets; none for the other choices.
pub open spec fn theme_settings(t: ThemeSetup) -> Option<(Seq<char>, Seq<char>, Seq<char>, Seq<char>)> {
    match t {
        ThemeSetup::Cyborg => Some(
            ("Gruvbox Material Dark"@, "Apply Gruvbox Material Dark VSCodium theme"@, "gold"@, "Apply Gold Tmux theme"@),
        ),
        ThemeSetup::Graphite => Some(
            ("Just Black"@, "Apply Just Black VSCodium theme"@, "snow"@, "Apply Snow Tmux theme"@),
        ),
        ThemeSetup::HackTheBox => Some(
            ("Hack The Box"@, "Apply Hack The Box VSCodium theme"@, "forest"@, "Apply Forest Tmux theme"@),
        ),
        ThemeSetup::RedMoon => Some(
            ("red-blood"@, "Apply Red Blood VSCodium theme"@, "redwine"@, "Apply Redwine Tmux theme"@),
        ),
        ThemeSetup::Samurai => Some(
            ("Tokyo Night Storm"@, "Apply Tokyo Night Storm VSCodium theme"@, "sky"@, "Apply Sky Tmux theme"@),
        ),
        ThemeSetup::Sweet => Some(("Radical"@, "Apply Radical VSCodium theme"@, "violet"@, "Apply Violet Tmux theme"@)),
        ThemeSetup::Temple => Some(
            ("Tokyo Night Storm"@, "Apply Tokyo Night Storm VSCodium theme"@, "sky"@, "Apply Sky Tmux theme"@),
        ),
        ThemeSetup::NoneSelected => None,
    }
}

/// The edits of the VSCodium settings and the tmux configuration for a theme.
pub open spec fn theme_steps(t: ThemeSetup) -> Seq<StepView> {
    match theme_settings(t) {
        Some((code, code_desc, tmux, tmux_desc)) => seq![
            edit_view(
                "/mnt/etc/skel/.config/VSCodium/User/settings.json"@,
                "\"workbench.colorTheme\":.*"@,
                "\"workbench.colorTheme\": \""@ + code + "\","@,
                code_desc,
            ),
            edit_view(
                "/mnt/etc/skel/.tmux.conf"@,
                "set -g @tmux_power_theme.*"@,
                "set -g @tmux_power_theme '"@ + tmux + "'"@,
                tmux_desc,
            ),
        ],
        None => seq![],
    }
}

fn theme_edits(code: &str, code_desc: &'static str, tmux: &str, tmux_desc: &'static str) -> (r: Vec<SystemStep>)
    ensures
        steps_view(r@) == seq![
            edit_view(
                "/mnt/etc/skel/.config/VSCodium/User/settings.json"@,
                "\"workbench.colorTheme\":.*"@,
                "\"workbench.colorTheme\": \""@ + code@ + "\","@,
                code_desc@,
            ),
            edit_view(
                "/mnt/etc/skel/.tmux.conf"@,
                "set -g @tmux_power_theme.*"@,
                "set -g @tmux_power_theme '"@ + tmux@ + "'"@,
                tmux_desc@,
            ),
        ],
{
    let mut code_line = crate::text::owned("\"workbench.colorTheme\": \"");
    code_line.append(code);
    code_line.append("\",");
    let mut tmux_line = crate::text::owned("set -g @tmux_power_theme '");
    tmux_line.append(tmux);
    tmux_line.append("'");
    let r = vec![
        edit_file(
            "/mnt/etc/skel/.config/VSCodium/User/settings.json",
            "\"workbench.colorTheme\":.*",
            code_line.as_str(),
            code_desc,
        ),
        edit_file("/mnt/etc/skel/.tmux.conf", "set -g @tmux_power_theme.*", tmux_line.as_str(), tmux_desc),
    ];
    assert(steps_view(r@) =~= seq![
        edit_view(
            "/mnt/etc/skel/.config/VSCodium/User/settings.json"@,
            "\"workbench.colorTheme\":.*"@,
            "\"workbench.colorTheme\": \""@ + code@ + "\","@,
            code_desc@,
        ),
        edit_view(
            "/mnt/etc/skel/.tmux.conf"@,
            "set -g @tmux_power_theme.*"@,
            "set -g @tmux_power_theme '"@ + tmux@ + "'"@,
            tmux_desc@,
        ),
    ]);
    r
}

/// The steps that configure the chosen theme.
pub fn configure_theme(t: ThemeSetup) -> (r: Vec<SystemStep>)
    ensures
        steps_view(r@) == theme_steps(t),
{
    match t {
        ThemeSetup::Cyborg => theme_edits(
            "Gruvbox Material Dark",
            "Apply Gruvbox Material Dark VSCodium theme",
            "gold",
            "Apply Gold Tmux theme",
        ),
        ThemeSetup::Graphite => theme_edits("Just Black", "Apply Just Black VSCodium theme", "snow", "Apply Snow Tmux theme"),
        ThemeSetup::HackTheBox => theme_edits(
            "Hack The Box",
            "Apply Hack The Box VSCodium theme",
            "forest",
            "Apply Forest Tmux theme",
        ),
        ThemeSetup::RedMoon => theme_edits(
            "red-blood",
            "Apply Red Blood VSCodium theme",
            "redwine",
            "Apply Redwine Tmux theme",
        ),
        ThemeSetup::Samurai => theme_edits(
            "Tokyo Night Storm",
            "Apply Tokyo Night Storm VSCodium theme",
            "sky",
            "Apply Sky Tmux theme",
        ),
        ThemeSetup::Sweet => theme_edits("Radical", "Apply Radical VSCodium theme", "violet", "Apply Violet Tmux theme"),
        ThemeSetup::Temple => theme_edits(
            "Tokyo Night Storm",
            "Apply Tokyo Night Storm VSCodium theme",
            "sky",
            "Apply Sky Tmux theme",
        ),
        ThemeSetup::NoneSelected => {
            let r: Vec<SystemStep> = Vec::new();
            assert(steps_view(r@) =~= theme_steps(t));
            r
        },
    }
}

} // verus!
