//! The list pages of the main menu that pick one option: base system,
//! desktop environment, design and display manager, each with the text shown
//! beside its options.
use vstd::prelude::*;
use crate::installer::PageSignal;
use crate::drives::opt_str_view;
use crate::text::{owned, owned_list, str_eq, strings_view};
use crate::logo::{lines_spec, logo_text, text_lines, try_decode_logo};
use crate::widgets::{InfoPiece, InfoText, Key, SpanStyle, StrList};

verus! {

// ---------------------------------------------------------------------------
// A list that picks one option
// ---------------------------------------------------------------------------

/// A focused list of options with wrap-around and a help text.
pub struct ChoiceList {
    pub list: StrList,
    pub help_visible: bool,
}

/// What a key does to a choice list: the list after it and whether the
/// highlighted option was taken (`Some`), the page left (`None` with `true`)
/// or nothing asked (`None` with `false`).
pub open spec fn choice_step(a: ChoiceList, b: ChoiceList, key: Key, r: PageSignal) -> bool {
    let l = a.list;
    if key == Key::Char('?') {
        b == ChoiceList { help_visible: !a.help_visible, ..a } && r is Wait
    } else if a.help_visible {
        b == ChoiceList { help_visible: key != Key::Esc, ..a } && r is Wait
    } else if key == Key::Esc || key == Key::Left || key == Key::Enter {
        b == a && r is Pop
    } else if key == Key::Up || key == Key::Char('k') {
        r is Wait && b == ChoiceList {
            list: StrList {
                selected_idx: if l.selected_idx > 0 { (l.selected_idx - 1) as usize } else { (l.items@.len() - 1) as usize },
                ..l
            },
            ..a
        }
    } else if key == Key::Down || key == Key::Char('j') {
        r is Wait && b == ChoiceList {
            list: StrList {
                selected_idx: if l.selected_idx + 1 < l.items@.len() { (l.selected_idx + 1) as usize } else { 0usize },
                ..l
            },
            ..a
        }
    } else {
        b == a && r is Wait
    }
}

impl ChoiceList {
    /// The list shows all its options, at least one, and highlights one of them.
    pub open spec fn wf(&self) -> bool {
        &&& self.list.rows_ok()
        &&& self.list.filter is None
        &&& self.list.items@.len() > 0
        &&& self.list.selected_idx < self.list.items@.len()
    }

    /// A focused list titled `title` over `options`.
    pub fn new(title: &str, options: Vec<&str>) -> (r: Self)
        requires
            options@.len() > 0,
        ensures
            r.wf(),
            r.list.title@ == title@,
            strings_view(r.list.items@) == options@.map_values(|s: &str| s@),
            r.list.focused && r.list.selected_idx == 0,
            !r.help_visible,
    {
        let items = owned_list(&options);
        assert(strings_view(items@).len() == items@.len());
        let mut list = StrList::new(owned(title), items);
        list.focus();
        ChoiceList { list, help_visible: false }
    }

    /// The highlighted option.
    pub fn chosen(&self) -> (r: String)
        requires
            self.wf(),
        ensures
            r == self.list.items@[self.list.selected_idx as int],
    {
        self.list.items[self.list.selected_idx].clone()
    }

    /// `?` shows or hides the help, which takes every key while shown (Esc
    /// hides it); Esc or Left leaves; Enter leaves after the page takes the
    /// highlighted option; Up and Down move the highlight, wrapping round.
    pub fn handle_key(&mut self, key: Key) -> (r: PageSignal)
        requires
            old(self).wf(),
        ensures
            final(self).wf(),
            choice_step(*old(self), *final(self), key, r),
    {
        if key == Key::Char('?') {
            self.help_visible = !self.help_visible;
            return PageSignal::Wait;
        }
        if self.help_visible {
            if key == Key::Esc {
                self.help_visible = false;
            }
            return PageSignal::Wait;
        }
        let ghost rows = self.list.filtered_items@;
        assert(crate::widgets::row_indices(rows).len() == rows.len());
        match key {
            Key::Esc | Key::Left | Key::Enter => PageSignal::Pop,
            Key::Up | Key::Char('k') => {
                if !self.list.previous_item() {
                    self.list.last_item();
                }
                PageSignal::Wait
            },
            Key::Down | Key::Char('j') => {
                if !self.list.next_item() {
                    self.list.first_item();
                }
                PageSignal::Wait
            },
            _ => PageSignal::Wait,
        }
    }
}

/// The setting after a key: Enter (with the help hidden) takes the
/// highlighted option, other keys leave it as it was.
pub open spec fn took_choice(c: ChoiceList, key: Key, a: Option<String>, b: Option<String>) -> bool {
    if !c.help_visible && key == Key::Enter {
        b == Some(c.list.items@[c.list.selected_idx as int])
    } else {
        b == a
    }
}

// ---------------------------------------------------------------------------
// Base system
// ---------------------------------------------------------------------------

/// The base systems offered.
pub open spec fn base_systems() -> Seq<Seq<char>> {
    seq!["Athena Arch"@, "Athena Nix"@]
}

pub struct BaseSys {
    pub systems: ChoiceList,
}

impl BaseSys {
    pub fn new() -> (r: Self)
        ensures
            r.systems.wf(),
            r.systems.list.title@ == "Select Base System"@,
            strings_view(r.systems.list.items@) == base_systems(),
            r.systems.list.focused && r.systems.list.selected_idx == 0 && !r.systems.help_visible,
    {
        let systems = ChoiceList::new("Select Base System", vec!["Athena Arch", "Athena Nix"]);
        proof {
            reveal_strlit("Athena Arch");
            reveal_strlit("Athena Nix");
        }
        assert(strings_view(systems.list.items@) =~= base_systems());
        BaseSys { systems }
    }

    /// A key on the list (see `choice_step`); Enter sets the base system to
    /// the highlighted one and empties the extra packages.
    pub fn handle_key(&mut self, basesystem: &mut Option<String>, extra_packages: &mut Vec<String>, key: Key) -> (r: PageSignal)
        requires
            old(self).systems.wf(),
        ensures
            final(self).systems.wf(),
            choice_step(old(self).systems, final(self).systems, key, r),
            took_choice(old(self).systems, key, *old(basesystem), *final(basesystem)),
            if !old(self).systems.help_visible && key == Key::Enter {
                final(extra_packages)@.len() == 0
            } else {
                *final(extra_packages) == *old(extra_packages)
            },
    {
        if key == Key::Enter && !self.systems.help_visible {
            *basesystem = Some(self.systems.chosen());
            extra_packages.clear();
        }
        self.systems.handle_key(key)
    }
}

/// The text shown beside the base system at `idx`.
pub open spec fn basesystem_info(idx: usize) -> (&'static str, Seq<InfoPiece>) {
    if idx == 0 {
        ("Athena Arch", seq![
            InfoPiece::Span(SpanStyle::Highlight, "Athena Arch"),
            InfoPiece::Span(SpanStyle::Plain, " is based on "),
            InfoPiece::Span(SpanStyle::Highlight, "Arch Linux"),
            InfoPiece::Span(SpanStyle::Plain, ", offering a "),
            InfoPiece::Span(SpanStyle::Highlight, "rolling-release, lightweight environment"),
            InfoPiece::Span(SpanStyle::Plain, " with access to the "),
            InfoPiece::Span(SpanStyle::Highlight, "AUR and bleeding-edge packages"),
            InfoPiece::Span(SpanStyle::Plain, "."),
            InfoPiece::Break,
            InfoPiece::Span(SpanStyle::Plain, "It ships with the "),
            InfoPiece::Span(SpanStyle::Highlight, "Pacman package manager"),
            InfoPiece::Span(SpanStyle::Plain, " and integrates a fork of the "),
            InfoPiece::Span(SpanStyle::Highlight, "BlackArch repository"),
            InfoPiece::Span(SpanStyle::Plain, ", providing "),
            InfoPiece::Span(SpanStyle::Highlight, "2800+ pentesting tools"),
            InfoPiece::Span(SpanStyle::Plain, " that are "),
            InfoPiece::Span(SpanStyle::Highlight, "GPG-signed for trust"),
            InfoPiece::Span(SpanStyle::Plain, "."),
            InfoPiece::Break,
            InfoPiece::Span(SpanStyle::Plain, "Athena Arch is "),
            InfoPiece::Span(SpanStyle::Highlight, "highly customizable and fast to update"),
            InfoPiece::Span(SpanStyle::Plain, " but requires "),
            InfoPiece::Span(SpanStyle::Highlight, "manual setup and maintenance"),
            InfoPiece::Span(SpanStyle::Plain, "; ideal for those who prefer "),
            InfoPiece::Span(SpanStyle::Highlight, "DIY configuration and bleeding-edge software"),
            InfoPiece::Span(SpanStyle::Plain, "."),
            InfoPiece::Break,
        ])
    } else if idx == 1 {
        ("Athena Nix", seq![
            InfoPiece::Span(SpanStyle::Highlight, "Athena Nix"),
            InfoPiece::Span(SpanStyle::Plain, " leverages "),
            InfoPiece::Span(SpanStyle::Highlight, "NixOS"),
            InfoPiece::Span(SpanStyle::Plain, " to provide a "),
            InfoPiece::Span(SpanStyle::Highlight, "declarative, reproducible Linux system"),
            InfoPiece::Span(SpanStyle::Plain, " built on the "),
            InfoPiece::Span(SpanStyle::Highlight, "Nix package manager"),
            InfoPiece::Span(SpanStyle::Plain, "."),
            InfoPiece::Break,
            InfoPiece::Span(SpanStyle::Plain, "It enables "),
            InfoPiece::Span(SpanStyle::Highlight, "atomic upgrades and rollbacks"),
            InfoPiece::Span(SpanStyle::Plain, ", "),
            InfoPiece::Span(SpanStyle::Highlight, "isolated dependencies"),
            InfoPiece::Span(SpanStyle::Plain, ", "),
            InfoPiece::Span(SpanStyle::Highlight, "per-user profiles"),
            InfoPiece::Span(SpanStyle::Plain, ", and "),
            InfoPiece::Span(SpanStyle::Highlight, "secure package management"),
            InfoPiece::Span(SpanStyle::Plain, " with automatic CVE checks."),
            InfoPiece::Break,
            InfoPiece::Span(SpanStyle::Plain, "Athena Nix offers "),
            InfoPiece::Span(SpanStyle::Highlight, "consistency across systems and CI-friendly workflows"),
            InfoPiece::Span(SpanStyle::Plain, " but comes with a "),
            InfoPiece::Span(SpanStyle::Highlight, "steeper learning curve and unique paradigms"),
            InfoPiece::Span(SpanStyle::Plain, "; perfect for users who value "),
            InfoPiece::Span(SpanStyle::Highlight, "determinism, reproducibility, and rollback safety"),
            InfoPiece::Span(SpanStyle::Plain, "."),
            InfoPiece::Break,
        ])
    } else if idx == 2 {
        ("Athena Fedora", seq![
            InfoPiece::Span(SpanStyle::Highlight, "Athena Fedora"),
            InfoPiece::Span(SpanStyle::Plain, " builds on "),
            InfoPiece::Span(SpanStyle::Highlight, "Fedora Linux"),
            InfoPiece::Span(SpanStyle::Plain, " to deliver a "),
            InfoPiece::Span(SpanStyle::Highlight, "stable yet modern environment"),
            InfoPiece::Span(SpanStyle::Plain, " with a focus on "),
            InfoPiece::Span(SpanStyle::Highlight, "security and upstream collaboration"),
            InfoPiece::Span(SpanStyle::Plain, "."),
            InfoPiece::Break,
            InfoPiece::Span(SpanStyle::Plain, "It uses "),
            InfoPiece::Span(SpanStyle::Highlight, "DNF and RPM packaging"),
            InfoPiece::Span(SpanStyle::Plain, ", includes "),
            InfoPiece::Span(SpanStyle::Highlight, "SELinux enabled by default"),
            InfoPiece::Span(SpanStyle::Plain, ", and benefits from "),
            InfoPiece::Span(SpanStyle::Highlight, "Fedora's 6-month release cadence"),
            InfoPiece::Span(SpanStyle::Plain, " ensuring both stability and freshness."),
            InfoPiece::Break,
            InfoPiece::Span(SpanStyle::Plain, "Athena Fedora is "),
            InfoPiece::Span(SpanStyle::Highlight, "secure and polished out of the box"),
            InfoPiece::Span(SpanStyle::Plain, " with "),
            InfoPiece::Span(SpanStyle::Highlight, "containerization and Secure Boot support"),
            InfoPiece::Span(SpanStyle::Plain, ", though it is "),
            InfoPiece::Span(SpanStyle::Highlight, "less customizable than Arch"),
            InfoPiece::Span(SpanStyle::Plain, "; excellent for those wanting "),
            InfoPiece::Span(SpanStyle::Highlight, "a dependable and security-hardened workflow"),
            InfoPiece::Span(SpanStyle::Plain, "."),
            InfoPiece::Break,
        ])
    } else {
        ("Unknown Base System", seq![
            InfoPiece::Span(SpanStyle::Plain, "No information available for this base system."),
            InfoPiece::Break,
        ])
    }
}

/// The stored logo of the base system at `idx`, if it has one.
pub open spec fn basesystem_logo(idx: usize) -> Option<&'static str> {
    if idx == 0 {
        Some("H4sIAAAAAAAAA52TUQ6EIAxE/z0FRyWuGg+waTRovFtPIilxV2Va0H7SmddCi3MwmLpGy2xMI9OM80d6NERXjaFEQl3O1DJ9mTzTUuk5FejFviJvbtQbqyj7xIwRzwmQ8xaDYCVWkLloowFEExgOjUY7o+zW/qqKtoovptIG2bCO6RP3rKnm/a5qXfbWpgJNz+/vm5SOddyVFqWTwyGfx+cEAYSsMvCn7Yi2HWcEzBuVBAAA")
    } else if idx == 1 {
        Some("H4sIAAAAAAAAA6WUzQ3DIAyF70zBqDnkkAncWjTqbkzSSlCw8U+tJPIFw/sQz45znl+FR4W9hZLqWbKGlJn8VeH4BVrZCm+SKAwRY7iEEEKKOTMeKMllAjHdo+t34ILE1cOd1sizxnNy2bM8Lh7EY3SKpo/ZteJiPmMym+E+nL1/fXzrCBdqtCPzCAN64bv+U7SjZ4VtxACQAmepDzj416BeftXaizeIaaJWzBgrXveH5pLb+RcIszBtvZF4jlMz9VV/AOenEZ3PBQAA")
    } else if idx == 2 {
        Some("H4sIAAAAAAAAA+NSwAMeTevARDBJLhL1YTUGpyHYNeAwhihTcInRRDOOMFMgwtG4tMIApj5U5cQEO6ZBBHQRGZ0Y5hLSRIah+IOWmHDDrmzo6MehlJSEQzA+cRuDlgBJ1Y0lAaPp4eICAA0CX3KVBAAA")
    } else {
        None
    }
}

/// The lines of the logo shown beside the base system at `idx`: none where it
/// has no logo or its stored logo does not unpack.
pub open spec fn basesystem_logo_lines(idx: usize) -> Seq<Seq<char>> {
    match basesystem_logo(idx) {
        Some(e) => match logo_text(e@) {
            Some(t) => lines_spec(t),
            None => Seq::empty(),
        },
        None => Seq::empty(),
    }
}

/// The information beside a base system: its text, then its logo line by line.
pub struct BaseSysInfo {
    pub text: InfoText,
    pub logo: Vec<String>,
}

/// The stored logo of the base system at `idx` (see `basesystem_logo`).
fn stored_logo(idx: usize) -> (r: Option<&'static str>)
    ensures
        r == basesystem_logo(idx),
{

        if idx == 0 {
            Some("H4sIAAAAAAAAA52TUQ6EIAxE/z0FRyWuGg+waTRovFtPIilxV2Va0H7SmddCi3MwmLpGy2xMI9OM80d6NERXjaFEQl3O1DJ9mTzTUuk5FejFviJvbtQbqyj7xIwRzwmQ8xaDYCVWkLloowFEExgOjUY7o+zW/qqKtoovptIG2bCO6RP3rKnm/a5qXfbWpgJNz+/vm5SOddyVFqWTwyGfx+cEAYSsMvCn7Yi2HWcEzBuVBAAA")
        } else if idx == 1 {
            Some("H4sIAAAAAAAAA6WUzQ3DIAyF70zBqDnkkAncWjTqbkzSSlCw8U+tJPIFw/sQz45znl+FR4W9hZLqWbKGlJn8VeH4BVrZCm+SKAwRY7iEEEKKOTMeKMllAjHdo+t34ILE1cOd1sizxnNy2bM8Lh7EY3SKpo/ZteJiPmMym+E+nL1/fXzrCBdqtCPzCAN64bv+U7SjZ4VtxACQAmepDzj416BeftXaizeIaaJWzBgrXveH5pLb+RcIszBtvZF4jlMz9VV/AOenEZ3PBQAA")
        } else if idx == 2 {
            Some("H4sIAAAAAAAAA+NSwAMeTevARDBJLhL1YTUGpyHYNeAwhihTcInRRDOOMFMgwtG4tMIApj5U5cQEO6ZBBHQRGZ0Y5hLSRIah+IOWmHDDrmzo6MehlJSEQzA+cRuDlgBJ1Y0lAaPp4eICAA0CX3KVBAAA")
        } else {
            None
        }
}

/// The text beside the base system at `idx` (see `basesystem_info`).
fn basesystem_text(idx: usize) -> (r: InfoText)
    ensures
        (r.title, r.pieces@) == basesystem_info(idx),
{

        if idx == 0 {
            let pieces = vec![
                InfoPiece::Span(SpanStyle::Highlight, "Athena Arch"),
                InfoPiece::Span(SpanStyle::Plain, " is based on "),
                InfoPiece::Span(SpanStyle::Highlight, "Arch Linux"),
                InfoPiece::Span(SpanStyle::Plain, ", offering a "),
                InfoPiece::Span(SpanStyle::Highlight, "rolling-release, lightweight environment"),
                InfoPiece::Span(SpanStyle::Plain, " with access to the "),
                InfoPiece::Span(SpanStyle::Highlight, "AUR and bleeding-edge packages"),
                InfoPiece::Span(SpanStyle::Plain, "."),
                InfoPiece::Break,
                InfoPiece::Span(SpanStyle::Plain, "It ships with the "),
                InfoPiece::Span(SpanStyle::Highlight, "Pacman package manager"),
                InfoPiece::Span(SpanStyle::Plain, " and integrates a fork of the "),
                InfoPiece::Span(SpanStyle::Highlight, "BlackArch repository"),
                InfoPiece::Span(SpanStyle::Plain, ", providing "),
                InfoPiece::Span(SpanStyle::Highlight, "2800+ pentesting tools"),
                InfoPiece::Span(SpanStyle::Plain, " that are "),
                InfoPiece::Span(SpanStyle::Highlight, "GPG-signed for trust"),
                InfoPiece::Span(SpanStyle::Plain, "."),
                InfoPiece::Break,
                InfoPiece::Span(SpanStyle::Plain, "Athena Arch is "),
                InfoPiece::Span(SpanStyle::Highlight, "highly customizable and fast to update"),
                InfoPiece::Span(SpanStyle::Plain, " but requires "),
                InfoPiece::Span(SpanStyle::Highlight, "manual setup and maintenance"),
                InfoPiece::Span(SpanStyle::Plain, "; ideal for those who prefer "),
                InfoPiece::Span(SpanStyle::Highlight, "DIY configuration and bleeding-edge software"),
                InfoPiece::Span(SpanStyle::Plain, "."),
                InfoPiece::Break,
            ];
            assert(pieces@ =~= seq![
                InfoPiece::Span(SpanStyle::Highlight, "Athena Arch"),
                InfoPiece::Span(SpanStyle::Plain, " is based on "),
                InfoPiece::Span(SpanStyle::Highlight, "Arch Linux"),
                InfoPiece::Span(SpanStyle::Plain, ", offering a "),
                InfoPiece::Span(SpanStyle::Highlight, "rolling-release, lightweight environment"),
                InfoPiece::Span(SpanStyle::Plain, " with access to the "),
                InfoPiece::Span(SpanStyle::Highlight, "AUR and bleeding-edge packages"),
                InfoPiece::Span(SpanStyle::Plain, "."),
                InfoPiece::Break,
                InfoPiece::Span(SpanStyle::Plain, "It ships with the "),
                InfoPiece::Span(SpanStyle::Highlight, "Pacman package manager"),
                InfoPiece::Span(SpanStyle::Plain, " and integrates a fork of the "),
                InfoPiece::Span(SpanStyle::Highlight, "BlackArch repository"),
                InfoPiece::Span(SpanStyle::Plain, ", providing "),
                InfoPiece::Span(SpanStyle::Highlight, "2800+ pentesting tools"),
                InfoPiece::Span(SpanStyle::Plain, " that are "),
                InfoPiece::Span(SpanStyle::Highlight, "GPG-signed for trust"),
                InfoPiece::Span(SpanStyle::Plain, "."),
                InfoPiece::Break,
                InfoPiece::Span(SpanStyle::Plain, "Athena Arch is "),
                InfoPiece::Span(SpanStyle::Highlight, "highly customizable and fast to update"),
                InfoPiece::Span(SpanStyle::Plain, " but requires "),
                InfoPiece::Span(SpanStyle::Highlight, "manual setup and maintenance"),
                InfoPiece::Span(SpanStyle::Plain, "; ideal for those who prefer "),
                InfoPiece::Span(SpanStyle::Highlight, "DIY configuration and bleeding-edge software"),
                InfoPiece::Span(SpanStyle::Plain, "."),
                InfoPiece::Break,
            ]);
            InfoText { title: "Athena Arch", pieces }
        } else if idx == 1 {
            let pieces = vec![
                InfoPiece::Span(SpanStyle::Highlight, "Athena Nix"),
                InfoPiece::Span(SpanStyle::Plain, " leverages "),
                InfoPiece::Span(SpanStyle::Highlight, "NixOS"),
                InfoPiece::Span(SpanStyle::Plain, " to provide a "),
                InfoPiece::Span(SpanStyle::Highlight, "declarative, reproducible Linux system"),
                InfoPiece::Span(SpanStyle::Plain, " built on the "),
                InfoPiece::Span(SpanStyle::Highlight, "Nix package manager"),
                InfoPiece::Span(SpanStyle::Plain, "."),
                InfoPiece::Break,
                InfoPiece::Span(SpanStyle::Plain, "It enables "),
                InfoPiece::Span(SpanStyle::Highlight, "atomic upgrades and rollbacks"),
                InfoPiece::Span(SpanStyle::Plain, ", "),
                InfoPiece::Span(SpanStyle::Highlight, "isolated dependencies"),
                InfoPiece::Span(SpanStyle::Plain, ", "),
                InfoPiece::Span(SpanStyle::Highlight, "per-user profiles"),
                InfoPiece::Span(SpanStyle::Plain, ", and "),
                InfoPiece::Span(SpanStyle::Highlight, "secure package management"),
                InfoPiece::Span(SpanStyle::Plain, " with automatic CVE checks."),
                InfoPiece::Break,
                InfoPiece::Span(SpanStyle::Plain, "Athena Nix offers "),
                InfoPiece::Span(SpanStyle::Highlight, "consistency across systems and CI-friendly workflows"),
                InfoPiece::Span(SpanStyle::Plain, " but comes with a "),
                InfoPiece::Span(SpanStyle::Highlight, "steeper learning curve and unique paradigms"),
                InfoPiece::Span(SpanStyle::Plain, "; perfect for users who value "),
                InfoPiece::Span(SpanStyle::Highlight, "determinism, reproducibility, and rollback safety"),
                InfoPiece::Span(SpanStyle::Plain, "."),
                InfoPiece::Break,
            ];
            assert(pieces@ =~= seq![
                InfoPiece::Span(SpanStyle::Highlight, "Athena Nix"),
                InfoPiece::Span(SpanStyle::Plain, " leverages "),
                InfoPiece::Span(SpanStyle::Highlight, "NixOS"),
                InfoPiece::Span(SpanStyle::Plain, " to provide a "),
                InfoPiece::Span(SpanStyle::Highlight, "declarative, reproducible Linux system"),
                InfoPiece::Span(SpanStyle::Plain, " built on the "),
                InfoPiece::Span(SpanStyle::Highlight, "Nix package manager"),
                InfoPiece::Span(SpanStyle::Plain, "."),
                InfoPiece::Break,
                InfoPiece::Span(SpanStyle::Plain, "It enables "),
                InfoPiece::Span(SpanStyle::Highlight, "atomic upgrades and rollbacks"),
                InfoPiece::Span(SpanStyle::Plain, ", "),
                InfoPiece::Span(SpanStyle::Highlight, "isolated dependencies"),
                InfoPiece::Span(SpanStyle::Plain, ", "),
                InfoPiece::Span(SpanStyle::Highlight, "per-user profiles"),
                InfoPiece::Span(SpanStyle::Plain, ", and "),
                InfoPiece::Span(SpanStyle::Highlight, "secure package management"),
                InfoPiece::Span(SpanStyle::Plain, " with automatic CVE checks."),
                InfoPiece::Break,
                InfoPiece::Span(SpanStyle::Plain, "Athena Nix offers "),
                InfoPiece::Span(SpanStyle::Highlight, "consistency across systems and CI-friendly workflows"),
                InfoPiece::Span(SpanStyle::Plain, " but comes with a "),
                InfoPiece::Span(SpanStyle::Highlight, "steeper learning curve and unique paradigms"),
                InfoPiece::Span(SpanStyle::Plain, "; perfect for users who value "),
                InfoPiece::Span(SpanStyle::Highlight, "determinism, reproducibility, and rollback safety"),
                InfoPiece::Span(SpanStyle::Plain, "."),
                InfoPiece::Break,
            ]);
            InfoText { title: "Athena Nix", pieces }
        } else if idx == 2 {
            let pieces = vec![
                InfoPiece::Span(SpanStyle::Highlight, "Athena Fedora"),
                InfoPiece::Span(SpanStyle::Plain, " builds on "),
                InfoPiece::Span(SpanStyle::Highlight, "Fedora Linux"),
                InfoPiece::Span(SpanStyle::Plain, " to deliver a "),
                InfoPiece::Span(SpanStyle::Highlight, "stable yet modern environment"),
                InfoPiece::Span(SpanStyle::Plain, " with a focus on "),
                InfoPiece::Span(SpanStyle::Highlight, "security and upstream collaboration"),
                InfoPiece::Span(SpanStyle::Plain, "."),
                InfoPiece::Break,
                InfoPiece::Span(SpanStyle::Plain, "It uses "),
                InfoPiece::Span(SpanStyle::Highlight, "DNF and RPM packaging"),
                InfoPiece::Span(SpanStyle::Plain, ", includes "),
                InfoPiece::Span(SpanStyle::Highlight, "SELinux enabled by default"),
                InfoPiece::Span(SpanStyle::Plain, ", and benefits from "),
                InfoPiece::Span(SpanStyle::Highlight, "Fedora's 6-month release cadence"),
                InfoPiece::Span(SpanStyle::Plain, " ensuring both stability and freshness."),
                InfoPiece::Break,
                InfoPiece::Span(SpanStyle::Plain, "Athena Fedora is "),
                InfoPiece::Span(SpanStyle::Highlight, "secure and polished out of the box"),
                InfoPiece::Span(SpanStyle::Plain, " with "),
                InfoPiece::Span(SpanStyle::Highlight, "containerization and Secure Boot support"),
                InfoPiece::Span(SpanStyle::Plain, ", though it is "),
                InfoPiece::Span(SpanStyle::Highlight, "less customizable than Arch"),
                InfoPiece::Span(SpanStyle::Plain, "; excellent for those wanting "),
                InfoPiece::Span(SpanStyle::Highlight, "a dependable and security-hardened workflow"),
                InfoPiece::Span(SpanStyle::Plain, "."),
                InfoPiece::Break,
            ];
            assert(pieces@ =~= seq![
                InfoPiece::Span(SpanStyle::Highlight, "Athena Fedora"),
                InfoPiece::Span(SpanStyle::Plain, " builds on "),
                InfoPiece::Span(SpanStyle::Highlight, "Fedora Linux"),
                InfoPiece::Span(SpanStyle::Plain, " to deliver a "),
                InfoPiece::Span(SpanStyle::Highlight, "stable yet modern environment"),
                InfoPiece::Span(SpanStyle::Plain, " with a focus on "),
                InfoPiece::Span(SpanStyle::Highlight, "security and upstream collaboration"),
                InfoPiece::Span(SpanStyle::Plain, "."),
                InfoPiece::Break,
                InfoPiece::Span(SpanStyle::Plain, "It uses "),
                InfoPiece::Span(SpanStyle::Highlight, "DNF and RPM packaging"),
                InfoPiece::Span(SpanStyle::Plain, ", includes "),
                InfoPiece::Span(SpanStyle::Highlight, "SELinux enabled by default"),
                InfoPiece::Span(SpanStyle::Plain, ", and benefits from "),
                InfoPiece::Span(SpanStyle::Highlight, "Fedora's 6-month release cadence"),
                InfoPiece::Span(SpanStyle::Plain, " ensuring both stability and freshness."),
                InfoPiece::Break,
                InfoPiece::Span(SpanStyle::Plain, "Athena Fedora is "),
                InfoPiece::Span(SpanStyle::Highlight, "secure and polished out of the box"),
                InfoPiece::Span(SpanStyle::Plain, " with "),
                InfoPiece::Span(SpanStyle::Highlight, "containerization and Secure Boot support"),
                InfoPiece::Span(SpanStyle::Plain, ", though it is "),
                InfoPiece::Span(SpanStyle::Highlight, "less customizable than Arch"),
                InfoPiece::Span(SpanStyle::Plain, "; excellent for those wanting "),
                InfoPiece::Span(SpanStyle::Highlight, "a dependable and security-hardened workflow"),
                InfoPiece::Span(SpanStyle::Plain, "."),
                InfoPiece::Break,
            ]);
            InfoText { title: "Athena Fedora", pieces }
        } else {
            let pieces = vec![
                InfoPiece::Span(SpanStyle::Plain, "No information available for this base system."),
                InfoPiece::Break,
            ];
            assert(pieces@ =~= seq![
                InfoPiece::Span(SpanStyle::Plain, "No information available for this base system."),
                InfoPiece::Break,
            ]);
            InfoText { title: "Unknown Base System", pieces }
        }
}

impl BaseSys {
    /// The text and the logo lines shown beside the base system at `idx`.
    pub fn get_basesystem_info(idx: usize) -> (r: BaseSysInfo)
        ensures
            (r.text.title, r.text.pieces@) == basesystem_info(idx),
            strings_view(r.logo@) == basesystem_logo_lines(idx),
    {
        let text = basesystem_text(idx);
        let logo = match stored_logo(idx) {
            Some(e) => match try_decode_logo(e) {
                Some(t) => text_lines(t.as_str()),
                None => Vec::new(),
            },
            None => Vec::new(),
        };
        BaseSysInfo { text, logo }
    }
}

// ---------------------------------------------------------------------------
// DesktopEnvironment
// ---------------------------------------------------------------------------

/// The desktop environments offered on Athena Arch.
pub open spec fn desktop_options() -> Seq<Seq<char>> {
    seq!["GNOME"@, "KDE Plasma"@, "Hyprland"@, "XFCE"@, "Cinnamon"@, "MATE"@, "Bspwm"@, "None"@]
}

/// The desktop environments that a base system offers.
pub open spec fn desktops_for(base: Option<Seq<char>>) -> Seq<Seq<char>> {
    if base == Some("Athena Fedora"@) {
        seq!["GNOME"@, "KDE Plasma"@, "XFCE"@, "Cinnamon"@, "MATE"@, "None"@]
    } else if base == Some("Athena Nix"@) {
        seq!["GNOME"@, "MATE"@, "Cinnamon"@, "None"@]
    } else {
        desktop_options()
    }
}

/// The text shown beside the desktop environment at `idx`.
pub open spec fn desktop_info(idx: usize) -> (&'static str, Seq<InfoPiece>) {
    if idx == 0 {
        ("GNOME", seq![
            InfoPiece::Span(SpanStyle::Highlight, "GNOME"),
            InfoPiece::Span(SpanStyle::Plain, " is a "),
            InfoPiece::Span(SpanStyle::Highlight, "modern and popular desktop environment"),
            InfoPiece::Span(SpanStyle::Plain, " that provides a "),
            InfoPiece::Span(SpanStyle::Highlight, "user-friendly experience"),
            InfoPiece::Span(SpanStyle::Plain, " with a focus on "),
            InfoPiece::Span(SpanStyle::Highlight, "simplicity and elegance"),
            InfoPiece::Span(SpanStyle::Plain, "."),
            InfoPiece::Break,
            InfoPiece::Span(SpanStyle::Plain, "It features a "),
            InfoPiece::Span(SpanStyle::Highlight, "clean interface"),
            InfoPiece::Span(SpanStyle::Plain, " with "),
            InfoPiece::Span(SpanStyle::Highlight, "activities overview"),
            InfoPiece::Span(SpanStyle::Plain, ", "),
            InfoPiece::Span(SpanStyle::Highlight, "workspaces"),
            InfoPiece::Span(SpanStyle::Plain, ", and extensive "),
            InfoPiece::Span(SpanStyle::Highlight, "customization options"),
            InfoPiece::Span(SpanStyle::Plain, " through extensions."),
            InfoPiece::Break,
            InfoPiece::Span(SpanStyle::Plain, "GNOME is "),
            InfoPiece::Span(SpanStyle::Highlight, "resource-intensive"),
            InfoPiece::Span(SpanStyle::Plain, " but offers "),
            InfoPiece::Span(SpanStyle::Highlight, "excellent accessibility"),
            InfoPiece::Span(SpanStyle::Plain, " and "),
            InfoPiece::Span(SpanStyle::Highlight, "touch support"),
            InfoPiece::Span(SpanStyle::Plain, "."),
            InfoPiece::Break,
        ])
    } else if idx == 1 {
        ("KDE Plasma", seq![
            InfoPiece::Span(SpanStyle::Highlight, "KDE Plasma"),
            InfoPiece::Span(SpanStyle::Plain, " is a "),
            InfoPiece::Span(SpanStyle::Highlight, "highly customizable desktop environment"),
            InfoPiece::Span(SpanStyle::Plain, " that offers "),
            InfoPiece::Span(SpanStyle::Highlight, "extensive configuration options"),
            InfoPiece::Span(SpanStyle::Plain, " and a "),
            InfoPiece::Span(SpanStyle::Highlight, "traditional desktop experience"),
            InfoPiece::Span(SpanStyle::Plain, "."),
            InfoPiece::Break,
            InfoPiece::Span(SpanStyle::Plain, "It provides "),
            InfoPiece::Span(SpanStyle::Highlight, "powerful widgets"),
            InfoPiece::Span(SpanStyle::Plain, ", "),
            InfoPiece::Span(SpanStyle::Highlight, "multiple panel layouts"),
            InfoPiece::Span(SpanStyle::Plain, ", and "),
            InfoPiece::Span(SpanStyle::Highlight, "advanced system settings"),
            InfoPiece::Span(SpanStyle::Plain, " with a familiar Windows-like interface."),
            InfoPiece::Break,
            InfoPiece::Span(SpanStyle::Plain, "KDE Plasma is "),
            InfoPiece::Span(SpanStyle::Highlight, "feature-rich"),
            InfoPiece::Span(SpanStyle::Plain, " and "),
            InfoPiece::Span(SpanStyle::Highlight, "resource-efficient"),
            InfoPiece::Span(SpanStyle::Plain, ", making it suitable for both power users and beginners."),
            InfoPiece::Break,
        ])
    } else if idx == 2 {
        ("Hyprland", seq![
            InfoPiece::Span(SpanStyle::Highlight, "Hyprland"),
            InfoPiece::Span(SpanStyle::Plain, " is a "),
            InfoPiece::Span(SpanStyle::Highlight, "dynamic tiling Wayland compositor"),
            InfoPiece::Span(SpanStyle::Plain, " that focuses on "),
            InfoPiece::Span(SpanStyle::Highlight, "eye candy and customization"),
            InfoPiece::Span(SpanStyle::Plain, "."),
            InfoPiece::Break,
            InfoPiece::Span(SpanStyle::Plain, "It features "),
            InfoPiece::Span(SpanStyle::Highlight, "beautiful animations"),
            InfoPiece::Span(SpanStyle::Plain, ", "),
            InfoPiece::Span(SpanStyle::Highlight, "automatic window tiling"),
            InfoPiece::Span(SpanStyle::Plain, ", and "),
            InfoPiece::Span(SpanStyle::Highlight, "extensive configuration"),
            InfoPiece::Span(SpanStyle::Plain, " through text files."),
            InfoPiece::Break,
            InfoPiece::Span(SpanStyle::Plain, "Hyprland is "),
            InfoPiece::Span(SpanStyle::Highlight, "highly efficient"),
            InfoPiece::Span(SpanStyle::Plain, " and perfect for users who prefer "),
            InfoPiece::Span(SpanStyle::Highlight, "keyboard-driven workflows"),
            InfoPiece::Span(SpanStyle::Plain, " and "),
            InfoPiece::Span(SpanStyle::Highlight, "minimal resource usage"),
            InfoPiece::Span(SpanStyle::Plain, "."),
            InfoPiece::Break,
        ])
    } else if idx == 3 {
        ("XFCE", seq![
            InfoPiece::Span(SpanStyle::Highlight, "XFCE"),
            InfoPiece::Span(SpanStyle::Plain, " is a "),
            InfoPiece::Span(SpanStyle::Highlight, "lightweight and fast desktop environment"),
            InfoPiece::Span(SpanStyle::Plain, " that aims to be "),
            InfoPiece::Span(SpanStyle::Highlight, "visually appealing and user-friendly"),
            InfoPiece::Span(SpanStyle::Plain, " while being "),
            InfoPiece::Span(SpanStyle::Highlight, "resource-efficient"),
            InfoPiece::Span(SpanStyle::Plain, "."),
            InfoPiece::Break,
            InfoPiece::Span(SpanStyle::Plain, "It provides a "),
            InfoPiece::Span(SpanStyle::Highlight, "traditional desktop experience"),
            InfoPiece::Span(SpanStyle::Plain, " with "),
            InfoPiece::Span(SpanStyle::Highlight, "customizable panels"),
            InfoPiece::Span(SpanStyle::Plain, ", "),
            InfoPiece::Span(SpanStyle::Highlight, "file manager"),
            InfoPiece::Span(SpanStyle::Plain, ", and "),
            InfoPiece::Span(SpanStyle::Highlight, "application menu"),
            InfoPiece::Span(SpanStyle::Plain, "."),
            InfoPiece::Break,
            InfoPiece::Span(SpanStyle::Plain, "XFCE is "),
            InfoPiece::Span(SpanStyle::Highlight, "perfect for older hardware"),
            InfoPiece::Span(SpanStyle::Plain, " or users who want a "),
            InfoPiece::Span(SpanStyle::Highlight, "simple, stable"),
            InfoPiece::Span(SpanStyle::Plain, " desktop without sacrificing functionality."),
            InfoPiece::Break,
        ])
    } else if idx == 4 {
        ("Cinnamon", seq![
            InfoPiece::Span(SpanStyle::Highlight, "Cinnamon"),
            InfoPiece::Span(SpanStyle::Plain, " is a "),
            InfoPiece::Span(SpanStyle::Highlight, "modern desktop environment"),
            InfoPiece::Span(SpanStyle::Plain, " that provides a "),
            InfoPiece::Span(SpanStyle::Highlight, "familiar and intuitive experience"),
            InfoPiece::Span(SpanStyle::Plain, " similar to traditional desktops."),
            InfoPiece::Break,
            InfoPiece::Span(SpanStyle::Plain, "It features a "),
            InfoPiece::Span(SpanStyle::Highlight, "taskbar-style panel"),
            InfoPiece::Span(SpanStyle::Plain, ", "),
            InfoPiece::Span(SpanStyle::Highlight, "system tray"),
            InfoPiece::Span(SpanStyle::Plain, ", and "),
            InfoPiece::Span(SpanStyle::Highlight, "start menu"),
            InfoPiece::Span(SpanStyle::Plain, " with "),
            InfoPiece::Span(SpanStyle::Highlight, "smooth animations"),
            InfoPiece::Span(SpanStyle::Plain, " and effects."),
            InfoPiece::Break,
            InfoPiece::Span(SpanStyle::Plain, "Cinnamon balances "),
            InfoPiece::Span(SpanStyle::Highlight, "modern features"),
            InfoPiece::Span(SpanStyle::Plain, " with "),
            InfoPiece::Span(SpanStyle::Highlight, "traditional usability"),
            InfoPiece::Span(SpanStyle::Plain, ", making it great for users transitioning from other operating systems."),
            InfoPiece::Break,
        ])
    } else if idx == 5 {
        ("MATE", seq![
            InfoPiece::Span(SpanStyle::Highlight, "MATE"),
            InfoPiece::Span(SpanStyle::Plain, " is a "),
            InfoPiece::Span(SpanStyle::Highlight, "traditional desktop environment"),
            InfoPiece::Span(SpanStyle::Plain, " that continues the legacy of "),
            InfoPiece::Span(SpanStyle::Highlight, "GNOME 2"),
            InfoPiece::Span(SpanStyle::Plain, " with a "),
            InfoPiece::Span(SpanStyle::Highlight, "classic interface"),
            InfoPiece::Span(SpanStyle::Plain, "."),
            InfoPiece::Break,
            InfoPiece::Span(SpanStyle::Plain, "It provides "),
            InfoPiece::Span(SpanStyle::Highlight, "stability"),
            InfoPiece::Span(SpanStyle::Plain, ", "),
            InfoPiece::Span(SpanStyle::Highlight, "reliability"),
            InfoPiece::Span(SpanStyle::Plain, ", and "),
            InfoPiece::Span(SpanStyle::Highlight, "low resource usage"),
            InfoPiece::Span(SpanStyle::Plain, " while maintaining "),
            InfoPiece::Span(SpanStyle::Highlight, "familiar desktop metaphors"),
            InfoPiece::Span(SpanStyle::Plain, "."),
            InfoPiece::Break,
            InfoPiece::Span(SpanStyle::Plain, "MATE is "),
            InfoPiece::Span(SpanStyle::Highlight, "ideal for users"),
            InfoPiece::Span(SpanStyle::Plain, " who prefer "),
            InfoPiece::Span(SpanStyle::Highlight, "conventional desktop layouts"),
            InfoPiece::Span(SpanStyle::Plain, " and "),
            InfoPiece::Span(SpanStyle::Highlight, "proven workflows"),
            InfoPiece::Span(SpanStyle::Plain, "."),
            InfoPiece::Break,
        ])
    } else if idx == 6 {
        ("Bspwm", seq![
            InfoPiece::Span(SpanStyle::Highlight, "Bspwm"),
            InfoPiece::Span(SpanStyle::Plain, " is a "),
            InfoPiece::Span(SpanStyle::Highlight, "tiling window manager"),
            InfoPiece::Span(SpanStyle::Plain, " that represents "),
            InfoPiece::Span(SpanStyle::Highlight, "windows as the leaves of a full binary tree"),
            InfoPiece::Span(SpanStyle::Plain, "."),
            InfoPiece::Break,
            InfoPiece::Span(SpanStyle::Plain, "It offers "),
            InfoPiece::Span(SpanStyle::Highlight, "manual tiling"),
            InfoPiece::Span(SpanStyle::Plain, " controlled entirely via "),
            InfoPiece::Span(SpanStyle::Highlight, "external programs"),
            InfoPiece::Span(SpanStyle::Plain, "."),
            InfoPiece::Break,
            InfoPiece::Span(SpanStyle::Plain, "Bspwm emphasizes "),
            InfoPiece::Span(SpanStyle::Highlight, "simplicity"),
            InfoPiece::Span(SpanStyle::Plain, " and "),
            InfoPiece::Span(SpanStyle::Highlight, "minimalism"),
            InfoPiece::Span(SpanStyle::Plain, "."),
            InfoPiece::Break,
        ])
    } else {
        ("Unknown Desktop Environment", seq![
            InfoPiece::Span(SpanStyle::Plain, "No information available for this desktop environment."),
            InfoPiece::Break,
        ])
    }
}

pub struct DesktopEnvironment {
    pub desktops: ChoiceList,
}

impl DesktopEnvironment {
    pub fn new() -> (r: Self)
        ensures
            r.desktops.wf(),
            r.desktops.list.title@ == "Select Desktop Environment"@,
            strings_view(r.desktops.list.items@) == desktop_options(),
            r.desktops.list.focused && r.desktops.list.selected_idx == 0 && !r.desktops.help_visible,
    {
        let desktops = ChoiceList::new("Select Desktop Environment", vec!["GNOME", "KDE Plasma", "Hyprland", "XFCE", "Cinnamon", "MATE", "Bspwm", "None"]);
        proof {
            reveal_strlit("GNOME");
            reveal_strlit("KDE Plasma");
            reveal_strlit("Hyprland");
            reveal_strlit("XFCE");
            reveal_strlit("Cinnamon");
            reveal_strlit("MATE");
            reveal_strlit("Bspwm");
            reveal_strlit("None");
        }
        assert(strings_view(desktops.list.items@) =~= desktop_options());
        DesktopEnvironment { desktops }
    }

    /// A key on the list (see `choice_step`); Enter sets the desktop environment to the highlighted one.
    pub fn handle_key(&mut self, desktop_environment: &mut Option<String>, key: Key) -> (r: PageSignal)
        requires
            old(self).desktops.wf(),
        ensures
            final(self).desktops.wf(),
            choice_step(old(self).desktops, final(self).desktops, key, r),
            took_choice(old(self).desktops, key, *old(desktop_environment), *final(desktop_environment)),
    {
        if key == Key::Enter && !self.desktops.help_visible {
            *desktop_environment = Some(self.desktops.chosen());
        }
        self.desktops.handle_key(key)
    }

    /// The page over the desktops that the base system offers (all of them
    /// for an unknown base).
    pub fn new_for(base: Option<&str>) -> (r: Self)
        ensures
            r.desktops.wf(),
            r.desktops.list.title@ == "Select Desktop Environment"@,
            strings_view(r.desktops.list.items@) == desktops_for(opt_str_view(base)),
            r.desktops.list.focused && r.desktops.list.selected_idx == 0 && !r.desktops.help_visible,
    {
        match base {
            Some(b) => {
                if str_eq(b, "Athena Fedora") {
                    let r = Self::with_list(vec!["GNOME", "KDE Plasma", "XFCE", "Cinnamon", "MATE", "None"]);
                    proof {
                        reveal_strlit("GNOME");
                        reveal_strlit("KDE Plasma");
                        reveal_strlit("XFCE");
                        reveal_strlit("Cinnamon");
                        reveal_strlit("MATE");
                        reveal_strlit("None");
                    }
                    assert(strings_view(r.desktops.list.items@) =~= desktops_for(opt_str_view(base)));
                    return r;
                }
                if str_eq(b, "Athena Nix") {
                    let r = Self::with_list(vec!["GNOME", "MATE", "Cinnamon", "None"]);
                    proof {
                        reveal_strlit("GNOME");
                        reveal_strlit("MATE");
                        reveal_strlit("Cinnamon");
                        reveal_strlit("None");
                    }
                    assert(strings_view(r.desktops.list.items@) =~= desktops_for(opt_str_view(base)));
                    return r;
                }
                Self::new()
            },
            None => Self::new(),
        }
    }

    fn with_list(items: Vec<&'static str>) -> (r: Self)
        requires
            items@.len() > 0,
        ensures
            r.desktops.wf(),
            r.desktops.list.title@ == "Select Desktop Environment"@,
            strings_view(r.desktops.list.items@) == items@.map_values(|s: &str| s@),
            r.desktops.list.focused && r.desktops.list.selected_idx == 0 && !r.desktops.help_visible,
    {
        DesktopEnvironment { desktops: ChoiceList::new("Select Desktop Environment", items) }
    }

    /// The text shown beside the desktop environment at `idx` (see `desktop_info`).
    pub fn get_desktop_info(idx: usize) -> (r: InfoText)
        ensures
            (r.title, r.pieces@) == desktop_info(idx),
    {
        if idx == 0 {
            let pieces = vec![
                InfoPiece::Span(SpanStyle::Highlight, "GNOME"),
                InfoPiece::Span(SpanStyle::Plain, " is a "),
                InfoPiece::Span(SpanStyle::Highlight, "modern and popular desktop environment"),
                InfoPiece::Span(SpanStyle::Plain, " that provides a "),
                InfoPiece::Span(SpanStyle::Highlight, "user-friendly experience"),
                InfoPiece::Span(SpanStyle::Plain, " with a focus on "),
                InfoPiece::Span(SpanStyle::Highlight, "simplicity and elegance"),
                InfoPiece::Span(SpanStyle::Plain, "."),
                InfoPiece::Break,
                InfoPiece::Span(SpanStyle::Plain, "It features a "),
                InfoPiece::Span(SpanStyle::Highlight, "clean interface"),
                InfoPiece::Span(SpanStyle::Plain, " with "),
                InfoPiece::Span(SpanStyle::Highlight, "activities overview"),
                InfoPiece::Span(SpanStyle::Plain, ", "),
                InfoPiece::Span(SpanStyle::Highlight, "workspaces"),
                InfoPiece::Span(SpanStyle::Plain, ", and extensive "),
                InfoPiece::Span(SpanStyle::Highlight, "customization options"),
                InfoPiece::Span(SpanStyle::Plain, " through extensions."),
                InfoPiece::Break,
                InfoPiece::Span(SpanStyle::Plain, "GNOME is "),
                InfoPiece::Span(SpanStyle::Highlight, "resource-intensive"),
                InfoPiece::Span(SpanStyle::Plain, " but offers "),
                InfoPiece::Span(SpanStyle::Highlight, "excellent accessibility"),
                InfoPiece::Span(SpanStyle::Plain, " and "),
                InfoPiece::Span(SpanStyle::Highlight, "touch support"),
                InfoPiece::Span(SpanStyle::Plain, "."),
                InfoPiece::Break,
            ];
            assert(pieces@ =~= seq![
                InfoPiece::Span(SpanStyle::Highlight, "GNOME"),
                InfoPiece::Span(SpanStyle::Plain, " is a "),
                InfoPiece::Span(SpanStyle::Highlight, "modern and popular desktop environment"),
                InfoPiece::Span(SpanStyle::Plain, " that provides a "),
                InfoPiece::Span(SpanStyle::Highlight, "user-friendly experience"),
                InfoPiece::Span(SpanStyle::Plain, " with a focus on "),
                InfoPiece::Span(SpanStyle::Highlight, "simplicity and elegance"),
                InfoPiece::Span(SpanStyle::Plain, "."),
                InfoPiece::Break,
                InfoPiece::Span(SpanStyle::Plain, "It features a "),
                InfoPiece::Span(SpanStyle::Highlight, "clean interface"),
                InfoPiece::Span(SpanStyle::Plain, " with "),
                InfoPiece::Span(SpanStyle::Highlight, "activities overview"),
                InfoPiece::Span(SpanStyle::Plain, ", "),
                InfoPiece::Span(SpanStyle::Highlight, "workspaces"),
                InfoPiece::Span(SpanStyle::Plain, ", and extensive "),
                InfoPiece::Span(SpanStyle::Highlight, "customization options"),
                InfoPiece::Span(SpanStyle::Plain, " through extensions."),
                InfoPiece::Break,
                InfoPiece::Span(SpanStyle::Plain, "GNOME is "),
                InfoPiece::Span(SpanStyle::Highlight, "resource-intensive"),
                InfoPiece::Span(SpanStyle::Plain, " but offers "),
                InfoPiece::Span(SpanStyle::Highlight, "excellent accessibility"),
                InfoPiece::Span(SpanStyle::Plain, " and "),
                InfoPiece::Span(SpanStyle::Highlight, "touch support"),
                InfoPiece::Span(SpanStyle::Plain, "."),
                InfoPiece::Break,
            ]);
            InfoText { title: "GNOME", pieces }
        } else if idx == 1 {
            let pieces = vec![
                InfoPiece::Span(SpanStyle::Highlight, "KDE Plasma"),
                InfoPiece::Span(SpanStyle::Plain, " is a "),
                InfoPiece::Span(SpanStyle::Highlight, "highly customizable desktop environment"),
                InfoPiece::Span(SpanStyle::Plain, " that offers "),
                InfoPiece::Span(SpanStyle::Highlight, "extensive configuration options"),
                InfoPiece::Span(SpanStyle::Plain, " and a "),
                InfoPiece::Span(SpanStyle::Highlight, "traditional desktop experience"),
                InfoPiece::Span(SpanStyle::Plain, "."),
                InfoPiece::Break,
                InfoPiece::Span(SpanStyle::Plain, "It provides "),
                InfoPiece::Span(SpanStyle::Highlight, "powerful widgets"),
                InfoPiece::Span(SpanStyle::Plain, ", "),
                InfoPiece::Span(SpanStyle::Highlight, "multiple panel layouts"),
                InfoPiece::Span(SpanStyle::Plain, ", and "),
                InfoPiece::Span(SpanStyle::Highlight, "advanced system settings"),
                InfoPiece::Span(SpanStyle::Plain, " with a familiar Windows-like interface."),
                InfoPiece::Break,
                InfoPiece::Span(SpanStyle::Plain, "KDE Plasma is "),
                InfoPiece::Span(SpanStyle::Highlight, "feature-rich"),
                InfoPiece::Span(SpanStyle::Plain, " and "),
                InfoPiece::Span(SpanStyle::Highlight, "resource-efficient"),
                InfoPiece::Span(SpanStyle::Plain, ", making it suitable for both power users and beginners."),
                InfoPiece::Break,
            ];
            assert(pieces@ =~= seq![
                InfoPiece::Span(SpanStyle::Highlight, "KDE Plasma"),
                InfoPiece::Span(SpanStyle::Plain, " is a "),
                InfoPiece::Span(SpanStyle::Highlight, "highly customizable desktop environment"),
                InfoPiece::Span(SpanStyle::Plain, " that offers "),
                InfoPiece::Span(SpanStyle::Highlight, "extensive configuration options"),
                InfoPiece::Span(SpanStyle::Plain, " and a "),
                InfoPiece::Span(SpanStyle::Highlight, "traditional desktop experience"),
                InfoPiece::Span(SpanStyle::Plain, "."),
                InfoPiece::Break,
                InfoPiece::Span(SpanStyle::Plain, "It provides "),
                InfoPiece::Span(SpanStyle::Highlight, "powerful widgets"),
                InfoPiece::Span(SpanStyle::Plain, ", "),
                InfoPiece::Span(SpanStyle::Highlight, "multiple panel layouts"),
                InfoPiece::Span(SpanStyle::Plain, ", and "),
                InfoPiece::Span(SpanStyle::Highlight, "advanced system settings"),
                InfoPiece::Span(SpanStyle::Plain, " with a familiar Windows-like interface."),
                InfoPiece::Break,
                InfoPiece::Span(SpanStyle::Plain, "KDE Plasma is "),
                InfoPiece::Span(SpanStyle::Highlight, "feature-rich"),
                InfoPiece::Span(SpanStyle::Plain, " and "),
                InfoPiece::Span(SpanStyle::Highlight, "resource-efficient"),
                InfoPiece::Span(SpanStyle::Plain, ", making it suitable for both power users and beginners."),
                InfoPiece::Break,
            ]);
            InfoText { title: "KDE Plasma", pieces }
        } else if idx == 2 {
            let pieces = vec![
                InfoPiece::Span(SpanStyle::Highlight, "Hyprland"),
                InfoPiece::Span(SpanStyle::Plain, " is a "),
                InfoPiece::Span(SpanStyle::Highlight, "dynamic tiling Wayland compositor"),
                InfoPiece::Span(SpanStyle::Plain, " that focuses on "),
                InfoPiece::Span(SpanStyle::Highlight, "eye candy and customization"),
                InfoPiece::Span(SpanStyle::Plain, "."),
                InfoPiece::Break,
                InfoPiece::Span(SpanStyle::Plain, "It features "),
                InfoPiece::Span(SpanStyle::Highlight, "beautiful animations"),
                InfoPiece::Span(SpanStyle::Plain, ", "),
                InfoPiece::Span(SpanStyle::Highlight, "automatic window tiling"),
                InfoPiece::Span(SpanStyle::Plain, ", and "),
                InfoPiece::Span(SpanStyle::Highlight, "extensive configuration"),
                InfoPiece::Span(SpanStyle::Plain, " through text files."),
                InfoPiece::Break,
                InfoPiece::Span(SpanStyle::Plain, "Hyprland is "),
                InfoPiece::Span(SpanStyle::Highlight, "highly efficient"),
                InfoPiece::Span(SpanStyle::Plain, " and perfect for users who prefer "),
                InfoPiece::Span(SpanStyle::Highlight, "keyboard-driven workflows"),
                InfoPiece::Span(SpanStyle::Plain, " and "),
                InfoPiece::Span(SpanStyle::Highlight, "minimal resource usage"),
                InfoPiece::Span(SpanStyle::Plain, "."),
                InfoPiece::Break,
            ];
            assert(pieces@ =~= seq![
                InfoPiece::Span(SpanStyle::Highlight, "Hyprland"),
                InfoPiece::Span(SpanStyle::Plain, " is a "),
                InfoPiece::Span(SpanStyle::Highlight, "dynamic tiling Wayland compositor"),
                InfoPiece::Span(SpanStyle::Plain, " that focuses on "),
                InfoPiece::Span(SpanStyle::Highlight, "eye candy and customization"),
                InfoPiece::Span(SpanStyle::Plain, "."),
                InfoPiece::Break,
                InfoPiece::Span(SpanStyle::Plain, "It features "),
                InfoPiece::Span(SpanStyle::Highlight, "beautiful animations"),
                InfoPiece::Span(SpanStyle::Plain, ", "),
                InfoPiece::Span(SpanStyle::Highlight, "automatic window tiling"),
                InfoPiece::Span(SpanStyle::Plain, ", and "),
                InfoPiece::Span(SpanStyle::Highlight, "extensive configuration"),
                InfoPiece::Span(SpanStyle::Plain, " through text files."),
                InfoPiece::Break,
                InfoPiece::Span(SpanStyle::Plain, "Hyprland is "),
                InfoPiece::Span(SpanStyle::Highlight, "highly efficient"),
                InfoPiece::Span(SpanStyle::Plain, " and perfect for users who prefer "),
                InfoPiece::Span(SpanStyle::Highlight, "keyboard-driven workflows"),
                InfoPiece::Span(SpanStyle::Plain, " and "),
                InfoPiece::Span(SpanStyle::Highlight, "minimal resource usage"),
                InfoPiece::Span(SpanStyle::Plain, "."),
                InfoPiece::Break,
            ]);
            InfoText { title: "Hyprland", pieces }
        } else if idx == 3 {
            let pieces = vec![
                InfoPiece::Span(SpanStyle::Highlight, "XFCE"),
                InfoPiece::Span(SpanStyle::Plain, " is a "),
                InfoPiece::Span(SpanStyle::Highlight, "lightweight and fast desktop environment"),
                InfoPiece::Span(SpanStyle::Plain, " that aims to be "),
                InfoPiece::Span(SpanStyle::Highlight, "visually appealing and user-friendly"),
                InfoPiece::Span(SpanStyle::Plain, " while being "),
                InfoPiece::Span(SpanStyle::Highlight, "resource-efficient"),
                InfoPiece::Span(SpanStyle::Plain, "."),
                InfoPiece::Break,
                InfoPiece::Span(SpanStyle::Plain, "It provides a "),
                InfoPiece::Span(SpanStyle::Highlight, "traditional desktop experience"),
                InfoPiece::Span(SpanStyle::Plain, " with "),
                InfoPiece::Span(SpanStyle::Highlight, "customizable panels"),
                InfoPiece::Span(SpanStyle::Plain, ", "),
                InfoPiece::Span(SpanStyle::Highlight, "file manager"),
                InfoPiece::Span(SpanStyle::Plain, ", and "),
                InfoPiece::Span(SpanStyle::Highlight, "application menu"),
                InfoPiece::Span(SpanStyle::Plain, "."),
                InfoPiece::Break,
                InfoPiece::Span(SpanStyle::Plain, "XFCE is "),
                InfoPiece::Span(SpanStyle::Highlight, "perfect for older hardware"),
                InfoPiece::Span(SpanStyle::Plain, " or users who want a "),
                InfoPiece::Span(SpanStyle::Highlight, "simple, stable"),
                InfoPiece::Span(SpanStyle::Plain, " desktop without sacrificing functionality."),
                InfoPiece::Break,
            ];
            assert(pieces@ =~= seq![
                InfoPiece::Span(SpanStyle::Highlight, "XFCE"),
                InfoPiece::Span(SpanStyle::Plain, " is a "),
                InfoPiece::Span(SpanStyle::Highlight, "lightweight and fast desktop environment"),
                InfoPiece::Span(SpanStyle::Plain, " that aims to be "),
                InfoPiece::Span(SpanStyle::Highlight, "visually appealing and user-friendly"),
                InfoPiece::Span(SpanStyle::Plain, " while being "),
                InfoPiece::Span(SpanStyle::Highlight, "resource-efficient"),
                InfoPiece::Span(SpanStyle::Plain, "."),
                InfoPiece::Break,
                InfoPiece::Span(SpanStyle::Plain, "It provides a "),
                InfoPiece::Span(SpanStyle::Highlight, "traditional desktop experience"),
                InfoPiece::Span(SpanStyle::Plain, " with "),
                InfoPiece::Span(SpanStyle::Highlight, "customizable panels"),
                InfoPiece::Span(SpanStyle::Plain, ", "),
                InfoPiece::Span(SpanStyle::Highlight, "file manager"),
                InfoPiece::Span(SpanStyle::Plain, ", and "),
                InfoPiece::Span(SpanStyle::Highlight, "application menu"),
                InfoPiece::Span(SpanStyle::Plain, "."),
                InfoPiece::Break,
                InfoPiece::Span(SpanStyle::Plain, "XFCE is "),
                InfoPiece::Span(SpanStyle::Highlight, "perfect for older hardware"),
                InfoPiece::Span(SpanStyle::Plain, " or users who want a "),
                InfoPiece::Span(SpanStyle::Highlight, "simple, stable"),
                InfoPiece::Span(SpanStyle::Plain, " desktop without sacrificing functionality."),
                InfoPiece::Break,
            ]);
            InfoText { title: "XFCE", pieces }
        } else if idx == 4 {
            let pieces = vec![
                InfoPiece::Span(SpanStyle::Highlight, "Cinnamon"),
                InfoPiece::Span(SpanStyle::Plain, " is a "),
                InfoPiece::Span(SpanStyle::Highlight, "modern desktop environment"),
                InfoPiece::Span(SpanStyle::Plain, " that provides a "),
                InfoPiece::Span(SpanStyle::Highlight, "familiar and intuitive experience"),
                InfoPiece::Span(SpanStyle::Plain, " similar to traditional desktops."),
                InfoPiece::Break,
                InfoPiece::Span(SpanStyle::Plain, "It features a "),
                InfoPiece::Span(SpanStyle::Highlight, "taskbar-style panel"),
                InfoPiece::Span(SpanStyle::Plain, ", "),
                InfoPiece::Span(SpanStyle::Highlight, "system tray"),
                InfoPiece::Span(SpanStyle::Plain, ", and "),
                InfoPiece::Span(SpanStyle::Highlight, "start menu"),
                InfoPiece::Span(SpanStyle::Plain, " with "),
                InfoPiece::Span(SpanStyle::Highlight, "smooth animations"),
                InfoPiece::Span(SpanStyle::Plain, " and effects."),
                InfoPiece::Break,
                InfoPiece::Span(SpanStyle::Plain, "Cinnamon balances "),
                InfoPiece::Span(SpanStyle::Highlight, "modern features"),
                InfoPiece::Span(SpanStyle::Plain, " with "),
                InfoPiece::Span(SpanStyle::Highlight, "traditional usability"),
                InfoPiece::Span(SpanStyle::Plain, ", making it great for users transitioning from other operating systems."),
                InfoPiece::Break,
            ];
            assert(pieces@ =~= seq![
                InfoPiece::Span(SpanStyle::Highlight, "Cinnamon"),
                InfoPiece::Span(SpanStyle::Plain, " is a "),
                InfoPiece::Span(SpanStyle::Highlight, "modern desktop environment"),
                InfoPiece::Span(SpanStyle::Plain, " that provides a "),
                InfoPiece::Span(SpanStyle::Highlight, "familiar and intuitive experience"),
                InfoPiece::Span(SpanStyle::Plain, " similar to traditional desktops."),
                InfoPiece::Break,
                InfoPiece::Span(SpanStyle::Plain, "It features a "),
                InfoPiece::Span(SpanStyle::Highlight, "taskbar-style panel"),
                InfoPiece::Span(SpanStyle::Plain, ", "),
                InfoPiece::Span(SpanStyle::Highlight, "system tray"),
                InfoPiece::Span(SpanStyle::Plain, ", and "),
                InfoPiece::Span(SpanStyle::Highlight, "start menu"),
                InfoPiece::Span(SpanStyle::Plain, " with "),
                InfoPiece::Span(SpanStyle::Highlight, "smooth animations"),
                InfoPiece::Span(SpanStyle::Plain, " and effects."),
                InfoPiece::Break,
                InfoPiece::Span(SpanStyle::Plain, "Cinnamon balances "),
                InfoPiece::Span(SpanStyle::Highlight, "modern features"),
                InfoPiece::Span(SpanStyle::Plain, " with "),
                InfoPiece::Span(SpanStyle::Highlight, "traditional usability"),
                InfoPiece::Span(SpanStyle::Plain, ", making it great for users transitioning from other operating systems."),
                InfoPiece::Break,
            ]);
            InfoText { title: "Cinnamon", pieces }
        } else if idx == 5 {
            let pieces = vec![
                InfoPiece::Span(SpanStyle::Highlight, "MATE"),
                InfoPiece::Span(SpanStyle::Plain, " is a "),
                InfoPiece::Span(SpanStyle::Highlight, "traditional desktop environment"),
                InfoPiece::Span(SpanStyle::Plain, " that continues the legacy of "),
                InfoPiece::Span(SpanStyle::Highlight, "GNOME 2"),
                InfoPiece::Span(SpanStyle::Plain, " with a "),
                InfoPiece::Span(SpanStyle::Highlight, "classic interface"),
                InfoPiece::Span(SpanStyle::Plain, "."),
                InfoPiece::Break,
                InfoPiece::Span(SpanStyle::Plain, "It provides "),
                InfoPiece::Span(SpanStyle::Highlight, "stability"),
                InfoPiece::Span(SpanStyle::Plain, ", "),
                InfoPiece::Span(SpanStyle::Highlight, "reliability"),
                InfoPiece::Span(SpanStyle::Plain, ", and "),
                InfoPiece::Span(SpanStyle::Highlight, "low resource usage"),
                InfoPiece::Span(SpanStyle::Plain, " while maintaining "),
                InfoPiece::Span(SpanStyle::Highlight, "familiar desktop metaphors"),
                InfoPiece::Span(SpanStyle::Plain, "."),
                InfoPiece::Break,
                InfoPiece::Span(SpanStyle::Plain, "MATE is "),
                InfoPiece::Span(SpanStyle::Highlight, "ideal for users"),
                InfoPiece::Span(SpanStyle::Plain, " who prefer "),
                InfoPiece::Span(SpanStyle::Highlight, "conventional desktop layouts"),
                InfoPiece::Span(SpanStyle::Plain, " and "),
                InfoPiece::Span(SpanStyle::Highlight, "proven workflows"),
                InfoPiece::Span(SpanStyle::Plain, "."),
                InfoPiece::Break,
            ];
            assert(pieces@ =~= seq![
                InfoPiece::Span(SpanStyle::Highlight, "MATE"),
                InfoPiece::Span(SpanStyle::Plain, " is a "),
                InfoPiece::Span(SpanStyle::Highlight, "traditional desktop environment"),
                InfoPiece::Span(SpanStyle::Plain, " that continues the legacy of "),
                InfoPiece::Span(SpanStyle::Highlight, "GNOME 2"),
                InfoPiece::Span(SpanStyle::Plain, " with a "),
                InfoPiece::Span(SpanStyle::Highlight, "classic interface"),
                InfoPiece::Span(SpanStyle::Plain, "."),
                InfoPiece::Break,
                InfoPiece::Span(SpanStyle::Plain, "It provides "),
                InfoPiece::Span(SpanStyle::Highlight, "stability"),
                InfoPiece::Span(SpanStyle::Plain, ", "),
                InfoPiece::Span(SpanStyle::Highlight, "reliability"),
                InfoPiece::Span(SpanStyle::Plain, ", and "),
                InfoPiece::Span(SpanStyle::Highlight, "low resource usage"),
                InfoPiece::Span(SpanStyle::Plain, " while maintaining "),
                InfoPiece::Span(SpanStyle::Highlight, "familiar desktop metaphors"),
                InfoPiece::Span(SpanStyle::Plain, "."),
                InfoPiece::Break,
                InfoPiece::Span(SpanStyle::Plain, "MATE is "),
                InfoPiece::Span(SpanStyle::Highlight, "ideal for users"),
                InfoPiece::Span(SpanStyle::Plain, " who prefer "),
                InfoPiece::Span(SpanStyle::Highlight, "conventional desktop layouts"),
                InfoPiece::Span(SpanStyle::Plain, " and "),
                InfoPiece::Span(SpanStyle::Highlight, "proven workflows"),
                InfoPiece::Span(SpanStyle::Plain, "."),
                InfoPiece::Break,
            ]);
            InfoText { title: "MATE", pieces }
        } else if idx == 6 {
            let pieces = vec![
                InfoPiece::Span(SpanStyle::Highlight, "Bspwm"),
                InfoPiece::Span(SpanStyle::Plain, " is a "),
                InfoPiece::Span(SpanStyle::Highlight, "tiling window manager"),
                InfoPiece::Span(SpanStyle::Plain, " that represents "),
                InfoPiece::Span(SpanStyle::Highlight, "windows as the leaves of a full binary tree"),
                InfoPiece::Span(SpanStyle::Plain, "."),
                InfoPiece::Break,
                InfoPiece::Span(SpanStyle::Plain, "It offers "),
                InfoPiece::Span(SpanStyle::Highlight, "manual tiling"),
                InfoPiece::Span(SpanStyle::Plain, " controlled entirely via "),
                InfoPiece::Span(SpanStyle::Highlight, "external programs"),
                InfoPiece::Span(SpanStyle::Plain, "."),
                InfoPiece::Break,
                InfoPiece::Span(SpanStyle::Plain, "Bspwm emphasizes "),
                InfoPiece::Span(SpanStyle::Highlight, "simplicity"),
                InfoPiece::Span(SpanStyle::Plain, " and "),
                InfoPiece::Span(SpanStyle::Highlight, "minimalism"),
                InfoPiece::Span(SpanStyle::Plain, "."),
                InfoPiece::Break,
            ];
            assert(pieces@ =~= seq![
                InfoPiece::Span(SpanStyle::Highlight, "Bspwm"),
                InfoPiece::Span(SpanStyle::Plain, " is a "),
                InfoPiece::Span(SpanStyle::Highlight, "tiling window manager"),
                InfoPiece::Span(SpanStyle::Plain, " that represents "),
                InfoPiece::Span(SpanStyle::Highlight, "windows as the leaves of a full binary tree"),
                InfoPiece::Span(SpanStyle::Plain, "."),
                InfoPiece::Break,
                InfoPiece::Span(SpanStyle::Plain, "It offers "),
                InfoPiece::Span(SpanStyle::Highlight, "manual tiling"),
                InfoPiece::Span(SpanStyle::Plain, " controlled entirely via "),
                InfoPiece::Span(SpanStyle::Highlight, "external programs"),
                InfoPiece::Span(SpanStyle::Plain, "."),
                InfoPiece::Break,
                InfoPiece::Span(SpanStyle::Plain, "Bspwm emphasizes "),
                InfoPiece::Span(SpanStyle::Highlight, "simplicity"),
                InfoPiece::Span(SpanStyle::Plain, " and "),
                InfoPiece::Span(SpanStyle::Highlight, "minimalism"),
                InfoPiece::Span(SpanStyle::Plain, "."),
                InfoPiece::Break,
            ]);
            InfoText { title: "Bspwm", pieces }
        } else {
            let pieces = vec![
                InfoPiece::Span(SpanStyle::Plain, "No information available for this desktop environment."),
                InfoPiece::Break,
            ];
            assert(pieces@ =~= seq![
                InfoPiece::Span(SpanStyle::Plain, "No information available for this desktop environment."),
                InfoPiece::Break,
            ]);
            InfoText { title: "Unknown Desktop Environment", pieces }
        }
    }
}
// ---------------------------------------------------------------------------
// Design
// ---------------------------------------------------------------------------

/// The designs offered.
pub open spec fn design_options() -> Seq<Seq<char>> {
    seq!["Cyborg"@, "Graphite"@, "HackTheBox"@, "RedMoon"@, "Samurai"@, "Sweet"@, "Temple"@, "None"@]
}

/// The text shown beside the design at `idx`.
pub open spec fn design_info(idx: usize) -> (&'static str, Seq<InfoPiece>) {
    if idx == 0 {
        ("Cyborg", seq![
            InfoPiece::Span(SpanStyle::Highlight, "Cyborg design"),
            InfoPiece::Span(SpanStyle::Plain, " features a "),
            InfoPiece::Span(SpanStyle::Highlight, "dark cyberpunk aesthetic"),
            InfoPiece::Span(SpanStyle::Plain, " with a striking "),
            InfoPiece::Span(SpanStyle::Highlight, "monochrome illustration"),
            InfoPiece::Span(SpanStyle::Plain, " of a woman’s face."),
            InfoPiece::Break,
            InfoPiece::Span(SpanStyle::Plain, "Her hair is rendered in a "),
            InfoPiece::Span(SpanStyle::Highlight, "bright glowing tone"),
            InfoPiece::Span(SpanStyle::Plain, " that contrasts with the "),
            InfoPiece::Span(SpanStyle::Highlight, "shadowed facial features"),
            InfoPiece::Span(SpanStyle::Plain, " and mechanical details."),
            InfoPiece::Break,
            InfoPiece::Span(SpanStyle::Plain, "A "),
            InfoPiece::Span(SpanStyle::Highlight, "geometric wireframe cube"),
            InfoPiece::Span(SpanStyle::Plain, " surrounds the figure, giving the environment a "),
            InfoPiece::Span(SpanStyle::Highlight, "futuristic and surreal atmosphere"),
            InfoPiece::Span(SpanStyle::Plain, "."),
            InfoPiece::Break,
            InfoPiece::Span(SpanStyle::Plain, "Above the figure, there is "),
            InfoPiece::Span(SpanStyle::Highlight, "stylized Japanese text"),
            InfoPiece::Span(SpanStyle::Plain, " that enhances the "),
            InfoPiece::Span(SpanStyle::Highlight, "sci-fi and anime-inspired vibe"),
            InfoPiece::Span(SpanStyle::Plain, "."),
            InfoPiece::Break,
        ])
    } else if idx == 1 {
        ("Graphite", seq![
            InfoPiece::Span(SpanStyle::Highlight, "Graphite design"),
            InfoPiece::Span(SpanStyle::Plain, " embraces a "),
            InfoPiece::Span(SpanStyle::Highlight, "terminal-inspired aesthetic"),
            InfoPiece::Span(SpanStyle::Plain, " with "),
            InfoPiece::Span(SpanStyle::Highlight, "ASCII art and code fragments"),
            InfoPiece::Span(SpanStyle::Plain, " integrated into the environment."),
            InfoPiece::Break,
            InfoPiece::Span(SpanStyle::Plain, "It combines a "),
            InfoPiece::Span(SpanStyle::Highlight, "dark background"),
            InfoPiece::Span(SpanStyle::Plain, " with text in "),
            InfoPiece::Span(SpanStyle::Highlight, "contrasting bright colors"),
            InfoPiece::Span(SpanStyle::Plain, " evoking a "),
            InfoPiece::Span(SpanStyle::Highlight, "programming and hacker culture vibe"),
            InfoPiece::Span(SpanStyle::Plain, "."),
            InfoPiece::Break,
            InfoPiece::Span(SpanStyle::Plain, "The design conveys a sense of "),
            InfoPiece::Span(SpanStyle::Highlight, "minimalism"),
            InfoPiece::Span(SpanStyle::Plain, " while celebrating "),
            InfoPiece::Span(SpanStyle::Highlight, "open-source and coding culture"),
            InfoPiece::Span(SpanStyle::Plain, "."),
            InfoPiece::Break,
        ])
    } else if idx == 2 {
        ("HackTheBox", seq![
            InfoPiece::Span(SpanStyle::Highlight, "HackTheBox design"),
            InfoPiece::Span(SpanStyle::Plain, " presents a "),
            InfoPiece::Span(SpanStyle::Highlight, "minimalist approach"),
            InfoPiece::Span(SpanStyle::Plain, " with a "),
            InfoPiece::Span(SpanStyle::Highlight, "dark solid background"),
            InfoPiece::Span(SpanStyle::Plain, " and a "),
            InfoPiece::Span(SpanStyle::Highlight, " Hack The Box logo"),
            InfoPiece::Span(SpanStyle::Plain, " at the center."),
            InfoPiece::Break,
            InfoPiece::Span(SpanStyle::Plain, "The cube is rendered in a "),
            InfoPiece::Span(SpanStyle::Highlight, "bright green tone"),
            InfoPiece::Span(SpanStyle::Plain, " which stands out sharply against the "),
            InfoPiece::Span(SpanStyle::Highlight, "dark backdrop"),
            InfoPiece::Span(SpanStyle::Plain, ", creating a strong sense of "),
            InfoPiece::Span(SpanStyle::Highlight, "contrast and focus"),
            InfoPiece::Span(SpanStyle::Plain, "."),
            InfoPiece::Break,
            InfoPiece::Span(SpanStyle::Plain, "This design emphasizes "),
            InfoPiece::Span(SpanStyle::Highlight, "simplicity, clarity, and modern aesthetics"),
            InfoPiece::Span(SpanStyle::Plain, " while avoiding visual clutter."),
            InfoPiece::Break,
        ])
    } else if idx == 3 {
        ("RedMoon", seq![
            InfoPiece::Span(SpanStyle::Highlight, "RedMoon design"),
            InfoPiece::Span(SpanStyle::Plain, " embody a "),
            InfoPiece::Span(SpanStyle::Highlight, "dark gothic style"),
            InfoPiece::Span(SpanStyle::Plain, " with "),
            InfoPiece::Span(SpanStyle::Highlight, "anime-inspired characters"),
            InfoPiece::Span(SpanStyle::Plain, " as the central focus."),
            InfoPiece::Break,
            InfoPiece::Span(SpanStyle::Plain, "They feature a palette dominated by "),
            InfoPiece::Span(SpanStyle::Highlight, "deep blacks and vivid reds"),
            InfoPiece::Span(SpanStyle::Plain, " which convey a sense of "),
            InfoPiece::Span(SpanStyle::Highlight, "intensity, danger, and allure"),
            InfoPiece::Span(SpanStyle::Plain, "."),
            InfoPiece::Break,
            InfoPiece::Span(SpanStyle::Plain, "These designs create a "),
            InfoPiece::Span(SpanStyle::Highlight, "dark yet captivating aesthetic"),
            InfoPiece::Span(SpanStyle::Plain, " that balances "),
            InfoPiece::Span(SpanStyle::Highlight, "elegance and menace"),
            InfoPiece::Span(SpanStyle::Plain, "."),
            InfoPiece::Break,
        ])
    } else if idx == 4 {
        ("Samurai", seq![
            InfoPiece::Span(SpanStyle::Highlight, "Samurai design"),
            InfoPiece::Span(SpanStyle::Plain, " combines a "),
            InfoPiece::Span(SpanStyle::Highlight, "stylized anime character"),
            InfoPiece::Span(SpanStyle::Plain, " holding a "),
            InfoPiece::Span(SpanStyle::Highlight, "katana"),
            InfoPiece::Span(SpanStyle::Plain, " with a "),
            InfoPiece::Span(SpanStyle::Highlight, "dreamlike mountain background"),
            InfoPiece::Span(SpanStyle::Plain, "."),
            InfoPiece::Break,
            InfoPiece::Span(SpanStyle::Plain, "The character is framed inside a "),
            InfoPiece::Span(SpanStyle::Highlight, "soft circular outline"),
            InfoPiece::Span(SpanStyle::Plain, " that enhances focus and creates a sense of "),
            InfoPiece::Span(SpanStyle::Highlight, "contrast against the blurred scenery"),
            InfoPiece::Span(SpanStyle::Plain, "."),
            InfoPiece::Break,
            InfoPiece::Span(SpanStyle::Plain, "The overall palette features "),
            InfoPiece::Span(SpanStyle::Highlight, "pastel gradients of purple, blue, and pink"),
            InfoPiece::Span(SpanStyle::Plain, " which evoke a feeling of "),
            InfoPiece::Span(SpanStyle::Highlight, "calmness mixed with subtle intensity"),
            InfoPiece::Span(SpanStyle::Plain, "."),
            InfoPiece::Break,
            InfoPiece::Span(SpanStyle::Plain, "This design merges "),
            InfoPiece::Span(SpanStyle::Highlight, "urban streetwear details"),
            InfoPiece::Span(SpanStyle::Plain, " with a "),
            InfoPiece::Span(SpanStyle::Highlight, "samurai-inspired aesthetic"),
            InfoPiece::Span(SpanStyle::Plain, " for a unique modern-meets-traditional style."),
            InfoPiece::Break,
        ])
    } else if idx == 5 {
        ("Sweet", seq![
            InfoPiece::Span(SpanStyle::Highlight, "Sweet design"),
            InfoPiece::Span(SpanStyle::Plain, " showcases a "),
            InfoPiece::Span(SpanStyle::Highlight, "futuristic neon environment"),
            InfoPiece::Span(SpanStyle::Plain, " with a glowing "),
            InfoPiece::Span(SpanStyle::Highlight, "circular portal"),
            InfoPiece::Span(SpanStyle::Plain, " at the center, radiating vivid light."),
            InfoPiece::Break,
            InfoPiece::Span(SpanStyle::Plain, "The surrounding scene is filled with "),
            InfoPiece::Span(SpanStyle::Highlight, "angular crystalline structures"),
            InfoPiece::Span(SpanStyle::Plain, " and a reflective "),
            InfoPiece::Span(SpanStyle::Highlight, "gridded floor"),
            InfoPiece::Span(SpanStyle::Plain, " that enhances the sense of depth."),
            InfoPiece::Break,
            InfoPiece::Span(SpanStyle::Plain, "The palette blends "),
            InfoPiece::Span(SpanStyle::Highlight, "purple, pink, and electric blue hues"),
            InfoPiece::Span(SpanStyle::Plain, " to create a striking "),
            InfoPiece::Span(SpanStyle::Highlight, "sci-fi and synthwave atmosphere"),
            InfoPiece::Span(SpanStyle::Plain, "."),
            InfoPiece::Break,
            InfoPiece::Span(SpanStyle::Plain, "This design conveys a feeling of "),
            InfoPiece::Span(SpanStyle::Highlight, "mystery and technological wonder"),
            InfoPiece::Span(SpanStyle::Plain, " while remaining visually bold and immersive."),
            InfoPiece::Break,
        ])
    } else if idx == 6 {
        ("Temple", seq![
            InfoPiece::Span(SpanStyle::Highlight, "Temple design"),
            InfoPiece::Span(SpanStyle::Plain, " depicts a "),
            InfoPiece::Span(SpanStyle::Highlight, "mythological theme"),
            InfoPiece::Span(SpanStyle::Plain, " featuring "),
            InfoPiece::Span(SpanStyle::Highlight, "Athena"),
            InfoPiece::Span(SpanStyle::Plain, " as a central figure in a setting that blends "),
            InfoPiece::Span(SpanStyle::Highlight, "ancient architecture"),
            InfoPiece::Span(SpanStyle::Plain, " with "),
            InfoPiece::Span(SpanStyle::Highlight, "futuristic interfaces"),
            InfoPiece::Span(SpanStyle::Plain, "."),
            InfoPiece::Break,
            InfoPiece::Span(SpanStyle::Plain, "The atmosphere combines "),
            InfoPiece::Span(SpanStyle::Highlight, "Greek-inspired columns and pottery"),
            InfoPiece::Span(SpanStyle::Plain, " with glowing "),
            InfoPiece::Span(SpanStyle::Highlight, "digital displays and floating code"),
            InfoPiece::Span(SpanStyle::Plain, ", merging tradition with modern technology."),
            InfoPiece::Break,
            InfoPiece::Span(SpanStyle::Plain, "Athena is portrayed in "),
            InfoPiece::Span(SpanStyle::Highlight, "golden armor and blue attire"),
            InfoPiece::Span(SpanStyle::Plain, " embodying both "),
            InfoPiece::Span(SpanStyle::Highlight, "wisdom and strength"),
            InfoPiece::Span(SpanStyle::Plain, " while surrounded by an aura of "),
            InfoPiece::Span(SpanStyle::Highlight, "strategic intelligence"),
            InfoPiece::Span(SpanStyle::Plain, "."),
            InfoPiece::Break,
            InfoPiece::Span(SpanStyle::Plain, "This design creates a unique "),
            InfoPiece::Span(SpanStyle::Highlight, "fusion of mythology and cyber aesthetics"),
            InfoPiece::Span(SpanStyle::Plain, " symbolizing a balance between the "),
            InfoPiece::Span(SpanStyle::Highlight, "ancient and the futuristic"),
            InfoPiece::Span(SpanStyle::Plain, "."),
            InfoPiece::Break,
        ])
    } else {
        ("Unknown Design", seq![
            InfoPiece::Span(SpanStyle::Plain, "No information available for this design."),
            InfoPiece::Break,
        ])
    }
}

pub struct Design {
    pub designs: ChoiceList,
}

impl Design {
    pub fn new() -> (r: Self)
        ensures
            r.designs.wf(),
            r.designs.list.title@ == "Select Design"@,
            strings_view(r.designs.list.items@) == design_options(),
            r.designs.list.focused && r.designs.list.selected_idx == 0 && !r.designs.help_visible,
    {
        let designs = ChoiceList::new("Select Design", vec!["Cyborg", "Graphite", "HackTheBox", "RedMoon", "Samurai", "Sweet", "Temple", "None"]);
        proof {
            reveal_strlit("Cyborg");
            reveal_strlit("Graphite");
            reveal_strlit("HackTheBox");
            reveal_strlit("RedMoon");
            reveal_strlit("Samurai");
            reveal_strlit("Sweet");
            reveal_strlit("Temple");
            reveal_strlit("None");
        }
        assert(strings_view(designs.list.items@) =~= design_options());
        Design { designs }
    }

    /// A key on the list (see `choice_step`); Enter sets the design to the highlighted one.
    pub fn handle_key(&mut self, design: &mut Option<String>, key: Key) -> (r: PageSignal)
        requires
            old(self).designs.wf(),
        ensures
            final(self).designs.wf(),
            choice_step(old(self).designs, final(self).designs, key, r),
            took_choice(old(self).designs, key, *old(design), *final(design)),
    {
        if key == Key::Enter && !self.designs.help_visible {
            *design = Some(self.designs.chosen());
        }
        self.designs.handle_key(key)
    }

    /// The text shown beside the design at `idx` (see `design_info`).
    pub fn get_design_info(idx: usize) -> (r: InfoText)
        ensures
            (r.title, r.pieces@) == design_info(idx),
    {
        if idx == 0 {
            let pieces = vec![
                InfoPiece::Span(SpanStyle::Highlight, "Cyborg design"),
                InfoPiece::Span(SpanStyle::Plain, " features a "),
                InfoPiece::Span(SpanStyle::Highlight, "dark cyberpunk aesthetic"),
                InfoPiece::Span(SpanStyle::Plain, " with a striking "),
                InfoPiece::Span(SpanStyle::Highlight, "monochrome illustration"),
                InfoPiece::Span(SpanStyle::Plain, " of a woman’s face."),
                InfoPiece::Break,
                InfoPiece::Span(SpanStyle::Plain, "Her hair is rendered in a "),
                InfoPiece::Span(SpanStyle::Highlight, "bright glowing tone"),
                InfoPiece::Span(SpanStyle::Plain, " that contrasts with the "),
                InfoPiece::Span(SpanStyle::Highlight, "shadowed facial features"),
                InfoPiece::Span(SpanStyle::Plain, " and mechanical details."),
                InfoPiece::Break,
                InfoPiece::Span(SpanStyle::Plain, "A "),
                InfoPiece::Span(SpanStyle::Highlight, "geometric wireframe cube"),
                InfoPiece::Span(SpanStyle::Plain, " surrounds the figure, giving the environment a "),
                InfoPiece::Span(SpanStyle::Highlight, "futuristic and surreal atmosphere"),
                InfoPiece::Span(SpanStyle::Plain, "."),
                InfoPiece::Break,
                InfoPiece::Span(SpanStyle::Plain, "Above the figure, there is "),
                InfoPiece::Span(SpanStyle::Highlight, "stylized Japanese text"),
                InfoPiece::Span(SpanStyle::Plain, " that enhances the "),
                InfoPiece::Span(SpanStyle::Highlight, "sci-fi and anime-inspired vibe"),
                InfoPiece::Span(SpanStyle::Plain, "."),
                InfoPiece::Break,
            ];
            assert(pieces@ =~= seq![
                InfoPiece::Span(SpanStyle::Highlight, "Cyborg design"),
                InfoPiece::Span(SpanStyle::Plain, " features a "),
                InfoPiece::Span(SpanStyle::Highlight, "dark cyberpunk aesthetic"),
                InfoPiece::Span(SpanStyle::Plain, " with a striking "),
                InfoPiece::Span(SpanStyle::Highlight, "monochrome illustration"),
                InfoPiece::Span(SpanStyle::Plain, " of a woman’s face."),
                InfoPiece::Break,
                InfoPiece::Span(SpanStyle::Plain, "Her hair is rendered in a "),
                InfoPiece::Span(SpanStyle::Highlight, "bright glowing tone"),
                InfoPiece::Span(SpanStyle::Plain, " that contrasts with the "),
                InfoPiece::Span(SpanStyle::Highlight, "shadowed facial features"),
                InfoPiece::Span(SpanStyle::Plain, " and mechanical details."),
                InfoPiece::Break,
                InfoPiece::Span(SpanStyle::Plain, "A "),
                InfoPiece::Span(SpanStyle::Highlight, "geometric wireframe cube"),
                InfoPiece::Span(SpanStyle::Plain, " surrounds the figure, giving the environment a "),
                InfoPiece::Span(SpanStyle::Highlight, "futuristic and surreal atmosphere"),
                InfoPiece::Span(SpanStyle::Plain, "."),
                InfoPiece::Break,
                InfoPiece::Span(SpanStyle::Plain, "Above the figure, there is "),
                InfoPiece::Span(SpanStyle::Highlight, "stylized Japanese text"),
                InfoPiece::Span(SpanStyle::Plain, " that enhances the "),
                InfoPiece::Span(SpanStyle::Highlight, "sci-fi and anime-inspired vibe"),
                InfoPiece::Span(SpanStyle::Plain, "."),
                InfoPiece::Break,
            ]);
            InfoText { title: "Cyborg", pieces }
        } else if idx == 1 {
            let pieces = vec![
                InfoPiece::Span(SpanStyle::Highlight, "Graphite design"),
                InfoPiece::Span(SpanStyle::Plain, " embraces a "),
                InfoPiece::Span(SpanStyle::Highlight, "terminal-inspired aesthetic"),
                InfoPiece::Span(SpanStyle::Plain, " with "),
                InfoPiece::Span(SpanStyle::Highlight, "ASCII art and code fragments"),
                InfoPiece::Span(SpanStyle::Plain, " integrated into the environment."),
                InfoPiece::Break,
                InfoPiece::Span(SpanStyle::Plain, "It combines a "),
                InfoPiece::Span(SpanStyle::Highlight, "dark background"),
                InfoPiece::Span(SpanStyle::Plain, " with text in "),
                InfoPiece::Span(SpanStyle::Highlight, "contrasting bright colors"),
                InfoPiece::Span(SpanStyle::Plain, " evoking a "),
                InfoPiece::Span(SpanStyle::Highlight, "programming and hacker culture vibe"),
                InfoPiece::Span(SpanStyle::Plain, "."),
                InfoPiece::Break,
                InfoPiece::Span(SpanStyle::Plain, "The design conveys a sense of "),
                InfoPiece::Span(SpanStyle::Highlight, "minimalism"),
                InfoPiece::Span(SpanStyle::Plain, " while celebrating "),
                InfoPiece::Span(SpanStyle::Highlight, "open-source and coding culture"),
                InfoPiece::Span(SpanStyle::Plain, "."),
                InfoPiece::Break,
            ];
            assert(pieces@ =~= seq![
                InfoPiece::Span(SpanStyle::Highlight, "Graphite design"),
                InfoPiece::Span(SpanStyle::Plain, " embraces a "),
                InfoPiece::Span(SpanStyle::Highlight, "terminal-inspired aesthetic"),
                InfoPiece::Span(SpanStyle::Plain, " with "),
                InfoPiece::Span(SpanStyle::Highlight, "ASCII art and code fragments"),
                InfoPiece::Span(SpanStyle::Plain, " integrated into the environment."),
                InfoPiece::Break,
                InfoPiece::Span(SpanStyle::Plain, "It combines a "),
                InfoPiece::Span(SpanStyle::Highlight, "dark background"),
                InfoPiece::Span(SpanStyle::Plain, " with text in "),
                InfoPiece::Span(SpanStyle::Highlight, "contrasting bright colors"),
                InfoPiece::Span(SpanStyle::Plain, " evoking a "),
                InfoPiece::Span(SpanStyle::Highlight, "programming and hacker culture vibe"),
                InfoPiece::Span(SpanStyle::Plain, "."),
                InfoPiece::Break,
                InfoPiece::Span(SpanStyle::Plain, "The design conveys a sense of "),
                InfoPiece::Span(SpanStyle::Highlight, "minimalism"),
                InfoPiece::Span(SpanStyle::Plain, " while celebrating "),
                InfoPiece::Span(SpanStyle::Highlight, "open-source and coding culture"),
                InfoPiece::Span(SpanStyle::Plain, "."),
                InfoPiece::Break,
            ]);
            InfoText { title: "Graphite", pieces }
        } else if idx == 2 {
            let pieces = vec![
                InfoPiece::Span(SpanStyle::Highlight, "HackTheBox design"),
                InfoPiece::Span(SpanStyle::Plain, " presents a "),
                InfoPiece::Span(SpanStyle::Highlight, "minimalist approach"),
                InfoPiece::Span(SpanStyle::Plain, " with a "),
                InfoPiece::Span(SpanStyle::Highlight, "dark solid background"),
                InfoPiece::Span(SpanStyle::Plain, " and a "),
                InfoPiece::Span(SpanStyle::Highlight, " Hack The Box logo"),
                InfoPiece::Span(SpanStyle::Plain, " at the center."),
                InfoPiece::Break,
                InfoPiece::Span(SpanStyle::Plain, "The cube is rendered in a "),
                InfoPiece::Span(SpanStyle::Highlight, "bright green tone"),
                InfoPiece::Span(SpanStyle::Plain, " which stands out sharply against the "),
                InfoPiece::Span(SpanStyle::Highlight, "dark backdrop"),
                InfoPiece::Span(SpanStyle::Plain, ", creating a strong sense of "),
                InfoPiece::Span(SpanStyle::Highlight, "contrast and focus"),
                InfoPiece::Span(SpanStyle::Plain, "."),
                InfoPiece::Break,
                InfoPiece::Span(SpanStyle::Plain, "This design emphasizes "),
                InfoPiece::Span(SpanStyle::Highlight, "simplicity, clarity, and modern aesthetics"),
                InfoPiece::Span(SpanStyle::Plain, " while avoiding visual clutter."),
                InfoPiece::Break,
            ];
            assert(pieces@ =~= seq![
                InfoPiece::Span(SpanStyle::Highlight, "HackTheBox design"),
                InfoPiece::Span(SpanStyle::Plain, " presents a "),
                InfoPiece::Span(SpanStyle::Highlight, "minimalist approach"),
                InfoPiece::Span(SpanStyle::Plain, " with a "),
                InfoPiece::Span(SpanStyle::Highlight, "dark solid background"),
                InfoPiece::Span(SpanStyle::Plain, " and a "),
                InfoPiece::Span(SpanStyle::Highlight, " Hack The Box logo"),
                InfoPiece::Span(SpanStyle::Plain, " at the center."),
                InfoPiece::Break,
                InfoPiece::Span(SpanStyle::Plain, "The cube is rendered in a "),
                InfoPiece::Span(SpanStyle::Highlight, "bright green tone"),
                InfoPiece::Span(SpanStyle::Plain, " which stands out sharply against the "),
                InfoPiece::Span(SpanStyle::Highlight, "dark backdrop"),
                InfoPiece::Span(SpanStyle::Plain, ", creating a strong sense of "),
                InfoPiece::Span(SpanStyle::Highlight, "contrast and focus"),
                InfoPiece::Span(SpanStyle::Plain, "."),
                InfoPiece::Break,
                InfoPiece::Span(SpanStyle::Plain, "This design emphasizes "),
                InfoPiece::Span(SpanStyle::Highlight, "simplicity, clarity, and modern aesthetics"),
                InfoPiece::Span(SpanStyle::Plain, " while avoiding visual clutter."),
                InfoPiece::Break,
            ]);
            InfoText { title: "HackTheBox", pieces }
        } else if idx == 3 {
            let pieces = vec![
                InfoPiece::Span(SpanStyle::Highlight, "RedMoon design"),
                InfoPiece::Span(SpanStyle::Plain, " embody a "),
                InfoPiece::Span(SpanStyle::Highlight, "dark gothic style"),
                InfoPiece::Span(SpanStyle::Plain, " with "),
                InfoPiece::Span(SpanStyle::Highlight, "anime-inspired characters"),
                InfoPiece::Span(SpanStyle::Plain, " as the central focus."),
                InfoPiece::Break,
                InfoPiece::Span(SpanStyle::Plain, "They feature a palette dominated by "),
                InfoPiece::Span(SpanStyle::Highlight, "deep blacks and vivid reds"),
                InfoPiece::Span(SpanStyle::Plain, " which convey a sense of "),
                InfoPiece::Span(SpanStyle::Highlight, "intensity, danger, and allure"),
                InfoPiece::Span(SpanStyle::Plain, "."),
                InfoPiece::Break,
                InfoPiece::Span(SpanStyle::Plain, "These designs create a "),
                InfoPiece::Span(SpanStyle::Highlight, "dark yet captivating aesthetic"),
                InfoPiece::Span(SpanStyle::Plain, " that balances "),
                InfoPiece::Span(SpanStyle::Highlight, "elegance and menace"),
                InfoPiece::Span(SpanStyle::Plain, "."),
                InfoPiece::Break,
            ];
            assert(pieces@ =~= seq![
                InfoPiece::Span(SpanStyle::Highlight, "RedMoon design"),
                InfoPiece::Span(SpanStyle::Plain, " embody a "),
                InfoPiece::Span(SpanStyle::Highlight, "dark gothic style"),
                InfoPiece::Span(SpanStyle::Plain, " with "),
                InfoPiece::Span(SpanStyle::Highlight, "anime-inspired characters"),
                InfoPiece::Span(SpanStyle::Plain, " as the central focus."),
                InfoPiece::Break,
                InfoPiece::Span(SpanStyle::Plain, "They feature a palette dominated by "),
                InfoPiece::Span(SpanStyle::Highlight, "deep blacks and vivid reds"),
                InfoPiece::Span(SpanStyle::Plain, " which convey a sense of "),
                InfoPiece::Span(SpanStyle::Highlight, "intensity, danger, and allure"),
                InfoPiece::Span(SpanStyle::Plain, "."),
                InfoPiece::Break,
                InfoPiece::Span(SpanStyle::Plain, "These designs create a "),
                InfoPiece::Span(SpanStyle::Highlight, "dark yet captivating aesthetic"),
                InfoPiece::Span(SpanStyle::Plain, " that balances "),
                InfoPiece::Span(SpanStyle::Highlight, "elegance and menace"),
                InfoPiece::Span(SpanStyle::Plain, "."),
                InfoPiece::Break,
            ]);
            InfoText { title: "RedMoon", pieces }
        } else if idx == 4 {
            let pieces = vec![
                InfoPiece::Span(SpanStyle::Highlight, "Samurai design"),
                InfoPiece::Span(SpanStyle::Plain, " combines a "),
                InfoPiece::Span(SpanStyle::Highlight, "stylized anime character"),
                InfoPiece::Span(SpanStyle::Plain, " holding a "),
                InfoPiece::Span(SpanStyle::Highlight, "katana"),
                InfoPiece::Span(SpanStyle::Plain, " with a "),
                InfoPiece::Span(SpanStyle::Highlight, "dreamlike mountain background"),
                InfoPiece::Span(SpanStyle::Plain, "."),
                InfoPiece::Break,
                InfoPiece::Span(SpanStyle::Plain, "The character is framed inside a "),
                InfoPiece::Span(SpanStyle::Highlight, "soft circular outline"),
                InfoPiece::Span(SpanStyle::Plain, " that enhances focus and creates a sense of "),
                InfoPiece::Span(SpanStyle::Highlight, "contrast against the blurred scenery"),
                InfoPiece::Span(SpanStyle::Plain, "."),
                InfoPiece::Break,
                InfoPiece::Span(SpanStyle::Plain, "The overall palette features "),
                InfoPiece::Span(SpanStyle::Highlight, "pastel gradients of purple, blue, and pink"),
                InfoPiece::Span(SpanStyle::Plain, " which evoke a feeling of "),
                InfoPiece::Span(SpanStyle::Highlight, "calmness mixed with subtle intensity"),
                InfoPiece::Span(SpanStyle::Plain, "."),
                InfoPiece::Break,
                InfoPiece::Span(SpanStyle::Plain, "This design merges "),
                InfoPiece::Span(SpanStyle::Highlight, "urban streetwear details"),
                InfoPiece::Span(SpanStyle::Plain, " with a "),
                InfoPiece::Span(SpanStyle::Highlight, "samurai-inspired aesthetic"),
                InfoPiece::Span(SpanStyle::Plain, " for a unique modern-meets-traditional style."),
                InfoPiece::Break,
            ];
            assert(pieces@ =~= seq![
                InfoPiece::Span(SpanStyle::Highlight, "Samurai design"),
                InfoPiece::Span(SpanStyle::Plain, " combines a "),
                InfoPiece::Span(SpanStyle::Highlight, "stylized anime character"),
                InfoPiece::Span(SpanStyle::Plain, " holding a "),
                InfoPiece::Span(SpanStyle::Highlight, "katana"),
                InfoPiece::Span(SpanStyle::Plain, " with a "),
                InfoPiece::Span(SpanStyle::Highlight, "dreamlike mountain background"),
                InfoPiece::Span(SpanStyle::Plain, "."),
                InfoPiece::Break,
                InfoPiece::Span(SpanStyle::Plain, "The character is framed inside a "),
                InfoPiece::Span(SpanStyle::Highlight, "soft circular outline"),
                InfoPiece::Span(SpanStyle::Plain, " that enhances focus and creates a sense of "),
                InfoPiece::Span(SpanStyle::Highlight, "contrast against the blurred scenery"),
                InfoPiece::Span(SpanStyle::Plain, "."),
                InfoPiece::Break,
                InfoPiece::Span(SpanStyle::Plain, "The overall palette features "),
                InfoPiece::Span(SpanStyle::Highlight, "pastel gradients of purple, blue, and pink"),
                InfoPiece::Span(SpanStyle::Plain, " which evoke a feeling of "),
                InfoPiece::Span(SpanStyle::Highlight, "calmness mixed with subtle intensity"),
                InfoPiece::Span(SpanStyle::Plain, "."),
                InfoPiece::Break,
                InfoPiece::Span(SpanStyle::Plain, "This design merges "),
                InfoPiece::Span(SpanStyle::Highlight, "urban streetwear details"),
                InfoPiece::Span(SpanStyle::Plain, " with a "),
                InfoPiece::Span(SpanStyle::Highlight, "samurai-inspired aesthetic"),
                InfoPiece::Span(SpanStyle::Plain, " for a unique modern-meets-traditional style."),
                InfoPiece::Break,
            ]);
            InfoText { title: "Samurai", pieces }
        } else if idx == 5 {
            let pieces = vec![
                InfoPiece::Span(SpanStyle::Highlight, "Sweet design"),
                InfoPiece::Span(SpanStyle::Plain, " showcases a "),
                InfoPiece::Span(SpanStyle::Highlight, "futuristic neon environment"),
                InfoPiece::Span(SpanStyle::Plain, " with a glowing "),
                InfoPiece::Span(SpanStyle::Highlight, "circular portal"),
                InfoPiece::Span(SpanStyle::Plain, " at the center, radiating vivid light."),
                InfoPiece::Break,
                InfoPiece::Span(SpanStyle::Plain, "The surrounding scene is filled with "),
                InfoPiece::Span(SpanStyle::Highlight, "angular crystalline structures"),
                InfoPiece::Span(SpanStyle::Plain, " and a reflective "),
                InfoPiece::Span(SpanStyle::Highlight, "gridded floor"),
                InfoPiece::Span(SpanStyle::Plain, " that enhances the sense of depth."),
                InfoPiece::Break,
                InfoPiece::Span(SpanStyle::Plain, "The palette blends "),
                InfoPiece::Span(SpanStyle::Highlight, "purple, pink, and electric blue hues"),
                InfoPiece::Span(SpanStyle::Plain, " to create a striking "),
                InfoPiece::Span(SpanStyle::Highlight, "sci-fi and synthwave atmosphere"),
                InfoPiece::Span(SpanStyle::Plain, "."),
                InfoPiece::Break,
                InfoPiece::Span(SpanStyle::Plain, "This design conveys a feeling of "),
                InfoPiece::Span(SpanStyle::Highlight, "mystery and technological wonder"),
                InfoPiece::Span(SpanStyle::Plain, " while remaining visually bold and immersive."),
                InfoPiece::Break,
            ];
            assert(pieces@ =~= seq![
                InfoPiece::Span(SpanStyle::Highlight, "Sweet design"),
                InfoPiece::Span(SpanStyle::Plain, " showcases a "),
                InfoPiece::Span(SpanStyle::Highlight, "futuristic neon environment"),
                InfoPiece::Span(SpanStyle::Plain, " with a glowing "),
                InfoPiece::Span(SpanStyle::Highlight, "circular portal"),
                InfoPiece::Span(SpanStyle::Plain, " at the center, radiating vivid light."),
                InfoPiece::Break,
                InfoPiece::Span(SpanStyle::Plain, "The surrounding scene is filled with "),
                InfoPiece::Span(SpanStyle::Highlight, "angular crystalline structures"),
                InfoPiece::Span(SpanStyle::Plain, " and a reflective "),
                InfoPiece::Span(SpanStyle::Highlight, "gridded floor"),
                InfoPiece::Span(SpanStyle::Plain, " that enhances the sense of depth."),
                InfoPiece::Break,
                InfoPiece::Span(SpanStyle::Plain, "The palette blends "),
                InfoPiece::Span(SpanStyle::Highlight, "purple, pink, and electric blue hues"),
                InfoPiece::Span(SpanStyle::Plain, " to create a striking "),
                InfoPiece::Span(SpanStyle::Highlight, "sci-fi and synthwave atmosphere"),
                InfoPiece::Span(SpanStyle::Plain, "."),
                InfoPiece::Break,
                InfoPiece::Span(SpanStyle::Plain, "This design conveys a feeling of "),
                InfoPiece::Span(SpanStyle::Highlight, "mystery and technological wonder"),
                InfoPiece::Span(SpanStyle::Plain, " while remaining visually bold and immersive."),
                InfoPiece::Break,
            ]);
            InfoText { title: "Sweet", pieces }
        } else if idx == 6 {
            let pieces = vec![
                InfoPiece::Span(SpanStyle::Highlight, "Temple design"),
                InfoPiece::Span(SpanStyle::Plain, " depicts a "),
                InfoPiece::Span(SpanStyle::Highlight, "mythological theme"),
                InfoPiece::Span(SpanStyle::Plain, " featuring "),
                InfoPiece::Span(SpanStyle::Highlight, "Athena"),
                InfoPiece::Span(SpanStyle::Plain, " as a central figure in a setting that blends "),
                InfoPiece::Span(SpanStyle::Highlight, "ancient architecture"),
                InfoPiece::Span(SpanStyle::Plain, " with "),
                InfoPiece::Span(SpanStyle::Highlight, "futuristic interfaces"),
                InfoPiece::Span(SpanStyle::Plain, "."),
                InfoPiece::Break,
                InfoPiece::Span(SpanStyle::Plain, "The atmosphere combines "),
                InfoPiece::Span(SpanStyle::Highlight, "Greek-inspired columns and pottery"),
                InfoPiece::Span(SpanStyle::Plain, " with glowing "),
                InfoPiece::Span(SpanStyle::Highlight, "digital displays and floating code"),
                InfoPiece::Span(SpanStyle::Plain, ", merging tradition with modern technology."),
                InfoPiece::Break,
                InfoPiece::Span(SpanStyle::Plain, "Athena is portrayed in "),
                InfoPiece::Span(SpanStyle::Highlight, "golden armor and blue attire"),
                InfoPiece::Span(SpanStyle::Plain, " embodying both "),
                InfoPiece::Span(SpanStyle::Highlight, "wisdom and strength"),
                InfoPiece::Span(SpanStyle::Plain, " while surrounded by an aura of "),
                InfoPiece::Span(SpanStyle::Highlight, "strategic intelligence"),
                InfoPiece::Span(SpanStyle::Plain, "."),
                InfoPiece::Break,
                InfoPiece::Span(SpanStyle::Plain, "This design creates a unique "),
                InfoPiece::Span(SpanStyle::Highlight, "fusion of mythology and cyber aesthetics"),
                InfoPiece::Span(SpanStyle::Plain, " symbolizing a balance between the "),
                InfoPiece::Span(SpanStyle::Highlight, "ancient and the futuristic"),
                InfoPiece::Span(SpanStyle::Plain, "."),
                InfoPiece::Break,
            ];
            assert(pieces@ =~= seq![
                InfoPiece::Span(SpanStyle::Highlight, "Temple design"),
                InfoPiece::Span(SpanStyle::Plain, " depicts a "),
                InfoPiece::Span(SpanStyle::Highlight, "mythological theme"),
                InfoPiece::Span(SpanStyle::Plain, " featuring "),
                InfoPiece::Span(SpanStyle::Highlight, "Athena"),
                InfoPiece::Span(SpanStyle::Plain, " as a central figure in a setting that blends "),
                InfoPiece::Span(SpanStyle::Highlight, "ancient architecture"),
                InfoPiece::Span(SpanStyle::Plain, " with "),
                InfoPiece::Span(SpanStyle::Highlight, "futuristic interfaces"),
                InfoPiece::Span(SpanStyle::Plain, "."),
                InfoPiece::Break,
                InfoPiece::Span(SpanStyle::Plain, "The atmosphere combines "),
                InfoPiece::Span(SpanStyle::Highlight, "Greek-inspired columns and pottery"),
                InfoPiece::Span(SpanStyle::Plain, " with glowing "),
                InfoPiece::Span(SpanStyle::Highlight, "digital displays and floating code"),
                InfoPiece::Span(SpanStyle::Plain, ", merging tradition with modern technology."),
                InfoPiece::Break,
                InfoPiece::Span(SpanStyle::Plain, "Athena is portrayed in "),
                InfoPiece::Span(SpanStyle::Highlight, "golden armor and blue attire"),
                InfoPiece::Span(SpanStyle::Plain, " embodying both "),
                InfoPiece::Span(SpanStyle::Highlight, "wisdom and strength"),
                InfoPiece::Span(SpanStyle::Plain, " while surrounded by an aura of "),
                InfoPiece::Span(SpanStyle::Highlight, "strategic intelligence"),
                InfoPiece::Span(SpanStyle::Plain, "."),
                InfoPiece::Break,
                InfoPiece::Span(SpanStyle::Plain, "This design creates a unique "),
                InfoPiece::Span(SpanStyle::Highlight, "fusion of mythology and cyber aesthetics"),
                InfoPiece::Span(SpanStyle::Plain, " symbolizing a balance between the "),
                InfoPiece::Span(SpanStyle::Highlight, "ancient and the futuristic"),
                InfoPiece::Span(SpanStyle::Plain, "."),
                InfoPiece::Break,
            ]);
            InfoText { title: "Temple", pieces }
        } else {
            let pieces = vec![
                InfoPiece::Span(SpanStyle::Plain, "No information available for this design."),
                InfoPiece::Break,
            ];
            assert(pieces@ =~= seq![
                InfoPiece::Span(SpanStyle::Plain, "No information available for this design."),
                InfoPiece::Break,
            ]);
            InfoText { title: "Unknown Design", pieces }
        }
    }
}
// ---------------------------------------------------------------------------
// DisplayManager
// ---------------------------------------------------------------------------

/// The display manager themes offered.
pub open spec fn dm_options() -> Seq<Seq<char>> {
    seq!["Astronaut"@, "Black Hole"@, "Cyberpunk"@, "Cyborg"@, "Kath"@, "Jake The Dog"@, "Pixel Sakura"@, "Post-Apocalypse"@, "Purple Leaves"@, "None"@]
}

/// The text shown beside the display manager theme at `idx`.
pub open spec fn displaymanager_info(idx: usize) -> (&'static str, Seq<InfoPiece>) {
    if idx == 0 {
        ("Astronaut", seq![
            InfoPiece::Span(SpanStyle::Highlight, "Astronaut theme"),
            InfoPiece::Span(SpanStyle::Plain, " presents a "),
            InfoPiece::Span(SpanStyle::Highlight, "space-themed illustration"),
            InfoPiece::Span(SpanStyle::Plain, " featuring a "),
            InfoPiece::Span(SpanStyle::Highlight, "vast planet"),
            InfoPiece::Span(SpanStyle::Plain, " set against a "),
            InfoPiece::Span(SpanStyle::Highlight, "star-filled sky"),
            InfoPiece::Span(SpanStyle::Plain, "."),
            InfoPiece::Break,
            InfoPiece::Span(SpanStyle::Plain, "A nearby "),
            InfoPiece::Span(SpanStyle::Highlight, "spacecraft"),
            InfoPiece::Span(SpanStyle::Plain, " and a "),
            InfoPiece::Span(SpanStyle::Highlight, "lone astronaut"),
            InfoPiece::Span(SpanStyle::Plain, " introduce a sense of "),
            InfoPiece::Span(SpanStyle::Highlight, "exploration and scale"),
            InfoPiece::Span(SpanStyle::Plain, "."),
            InfoPiece::Break,
            InfoPiece::Span(SpanStyle::Plain, "The palette leans on "),
            InfoPiece::Span(SpanStyle::Highlight, "cool blues and muted tones"),
            InfoPiece::Span(SpanStyle::Plain, " with "),
            InfoPiece::Span(SpanStyle::Highlight, "clean, graphic shapes"),
            InfoPiece::Span(SpanStyle::Plain, " that create a "),
            InfoPiece::Span(SpanStyle::Highlight, "calm, futuristic atmosphere"),
            InfoPiece::Span(SpanStyle::Plain, "."),
            InfoPiece::Break,
        ])
    } else if idx == 1 {
        ("Black Hole", seq![
            InfoPiece::Span(SpanStyle::Highlight, "Black Hole theme"),
            InfoPiece::Span(SpanStyle::Plain, " depicts a "),
            InfoPiece::Span(SpanStyle::Highlight, "deep-space scene"),
            InfoPiece::Span(SpanStyle::Plain, " dominated by a "),
            InfoPiece::Span(SpanStyle::Highlight, "massive black hole"),
            InfoPiece::Span(SpanStyle::Plain, " encircled by a bright "),
            InfoPiece::Span(SpanStyle::Highlight, "accretion ring"),
            InfoPiece::Span(SpanStyle::Plain, " of swirling light and dust."),
            InfoPiece::Break,
            InfoPiece::Span(SpanStyle::Plain, "Floating nearby are "),
            InfoPiece::Span(SpanStyle::Highlight, "asteroids and debris"),
            InfoPiece::Span(SpanStyle::Plain, " with a "),
            InfoPiece::Span(SpanStyle::Highlight, "solitary astronaut"),
            InfoPiece::Span(SpanStyle::Plain, " adding a sense of "),
            InfoPiece::Span(SpanStyle::Highlight, "scale and motion"),
            InfoPiece::Span(SpanStyle::Plain, "."),
            InfoPiece::Break,
            InfoPiece::Span(SpanStyle::Plain, "The color palette blends "),
            InfoPiece::Span(SpanStyle::Highlight, "deep purples and blues"),
            InfoPiece::Span(SpanStyle::Plain, " with "),
            InfoPiece::Span(SpanStyle::Highlight, "fiery orange highlights"),
            InfoPiece::Span(SpanStyle::Plain, ", creating a "),
            InfoPiece::Span(SpanStyle::Highlight, "cinematic cosmic atmosphere"),
            InfoPiece::Span(SpanStyle::Plain, "."),
            InfoPiece::Break,
            InfoPiece::Span(SpanStyle::Plain, "Overall, it conveys "),
            InfoPiece::Span(SpanStyle::Highlight, "mystery, gravity, and vastness"),
            InfoPiece::Span(SpanStyle::Plain, " while remaining visually "),
            InfoPiece::Span(SpanStyle::Highlight, "striking and immersive"),
            InfoPiece::Span(SpanStyle::Plain, "."),
            InfoPiece::Break,
        ])
    } else if idx == 2 {
        ("Cyberpunk", seq![
            InfoPiece::Span(SpanStyle::Highlight, "Cyberpunk theme"),
            InfoPiece::Span(SpanStyle::Plain, " features a "),
            InfoPiece::Span(SpanStyle::Highlight, "cyberpunk portrait"),
            InfoPiece::Span(SpanStyle::Plain, " of a "),
            InfoPiece::Span(SpanStyle::Highlight, "hooded figure with a masked/visored face"),
            InfoPiece::Span(SpanStyle::Plain, ", rendered against a "),
            InfoPiece::Span(SpanStyle::Highlight, "dark background"),
            InfoPiece::Span(SpanStyle::Plain, "."),
            InfoPiece::Break,
            InfoPiece::Span(SpanStyle::Plain, "Surrounding the figure are "),
            InfoPiece::Span(SpanStyle::Highlight, "glitch effects and HUD-like geometric lines"),
            InfoPiece::Span(SpanStyle::Plain, " that suggest "),
            InfoPiece::Span(SpanStyle::Highlight, "digital interference and motion"),
            InfoPiece::Span(SpanStyle::Plain, "."),
            InfoPiece::Break,
            InfoPiece::Span(SpanStyle::Plain, "The palette blends "),
            InfoPiece::Span(SpanStyle::Highlight, "neon magenta and electric cyan"),
            InfoPiece::Span(SpanStyle::Plain, " accents with "),
            InfoPiece::Span(SpanStyle::Highlight, "high-contrast blacks"),
            InfoPiece::Span(SpanStyle::Plain, " for a bold, tech-noir look."),
            InfoPiece::Break,
            InfoPiece::Span(SpanStyle::Plain, "Overall, it conveys "),
            InfoPiece::Span(SpanStyle::Highlight, "anonymity, hacking culture, and futuristic grit"),
            InfoPiece::Span(SpanStyle::Plain, " with a distinctly "),
            InfoPiece::Span(SpanStyle::Highlight, "synthwave aesthetic"),
            InfoPiece::Span(SpanStyle::Plain, "."),
            InfoPiece::Break,
        ])
    } else if idx == 3 {
        ("Cyborg", seq![
            InfoPiece::Span(SpanStyle::Highlight, "Cyborg theme"),
            InfoPiece::Span(SpanStyle::Plain, " showcases a "),
            InfoPiece::Span(SpanStyle::Highlight, "minimalist retro-futuristic illustration"),
            InfoPiece::Span(SpanStyle::Plain, " of a "),
            InfoPiece::Span(SpanStyle::Highlight, "woman in profile"),
            InfoPiece::Span(SpanStyle::Plain, " with long dark hair and subtle "),
            InfoPiece::Span(SpanStyle::Highlight, "cybernetic accents"),
            InfoPiece::Span(SpanStyle::Plain, " across the face."),
            InfoPiece::Break,
            InfoPiece::Span(SpanStyle::Plain, "She is framed by a "),
            InfoPiece::Span(SpanStyle::Highlight, "geometric wireframe cube"),
            InfoPiece::Span(SpanStyle::Plain, " in perspective, adding a sense of "),
            InfoPiece::Span(SpanStyle::Highlight, "depth and containment"),
            InfoPiece::Span(SpanStyle::Plain, "."),
            InfoPiece::Break,
            InfoPiece::Span(SpanStyle::Plain, "The palette uses "),
            InfoPiece::Span(SpanStyle::Highlight, "warm monochrome tones"),
            InfoPiece::Span(SpanStyle::Plain, ", cream, beige, and charcoal, creating a "),
            InfoPiece::Span(SpanStyle::Highlight, "calm yet otherworldly atmosphere"),
            InfoPiece::Span(SpanStyle::Plain, " with generous negative space."),
            InfoPiece::Break,
        ])
    } else if idx == 4 {
        ("Kath", seq![
            InfoPiece::Span(SpanStyle::Highlight, "Kath theme"),
            InfoPiece::Span(SpanStyle::Plain, " is an "),
            InfoPiece::Span(SpanStyle::Highlight, "animated pixel-art scene"),
            InfoPiece::Span(SpanStyle::Plain, " set in a "),
            InfoPiece::Span(SpanStyle::Highlight, "futuristic industrial room"),
            InfoPiece::Span(SpanStyle::Plain, " where a "),
            InfoPiece::Span(SpanStyle::Highlight, "blue-haired girl"),
            InfoPiece::Span(SpanStyle::Plain, " sits under "),
            InfoPiece::Span(SpanStyle::Highlight, "soft neon lighting"),
            InfoPiece::Span(SpanStyle::Plain, "."),
            InfoPiece::Break,
            InfoPiece::Span(SpanStyle::Plain, "The palette blends "),
            InfoPiece::Span(SpanStyle::Highlight, "cool blues and violets"),
            InfoPiece::Span(SpanStyle::Plain, " with "),
            InfoPiece::Span(SpanStyle::Highlight, "electric cyan highlights"),
            InfoPiece::Span(SpanStyle::Plain, ", evoking a "),
            InfoPiece::Span(SpanStyle::Highlight, "retro sci-fi arcade vibe"),
            InfoPiece::Span(SpanStyle::Plain, "."),
            InfoPiece::Break,
            InfoPiece::Span(SpanStyle::Plain, "Overall, it conveys "),
            InfoPiece::Span(SpanStyle::Highlight, "calm, atmospheric energy"),
            InfoPiece::Span(SpanStyle::Plain, " with a mix of "),
            InfoPiece::Span(SpanStyle::Highlight, "nostalgia and futurism"),
            InfoPiece::Span(SpanStyle::Plain, "."),
            InfoPiece::Break,
        ])
    } else if idx == 5 {
        ("Jake The Dog", seq![
            InfoPiece::Span(SpanStyle::Highlight, "Jake The Dog theme"),
            InfoPiece::Span(SpanStyle::Plain, " is an "),
            InfoPiece::Span(SpanStyle::Highlight, "animated, cartoon-style scene"),
            InfoPiece::Span(SpanStyle::Plain, " featuring a "),
            InfoPiece::Span(SpanStyle::Highlight, "relaxed dog wearing headphones"),
            InfoPiece::Span(SpanStyle::Plain, " sitting on a rooftop and enjoying music."),
            InfoPiece::Break,
            InfoPiece::Span(SpanStyle::Plain, "The background shows a "),
            InfoPiece::Span(SpanStyle::Highlight, "dusk forest landscape"),
            InfoPiece::Span(SpanStyle::Plain, " with "),
            InfoPiece::Span(SpanStyle::Highlight, "soft purples and muted greens"),
            InfoPiece::Span(SpanStyle::Plain, " rendered in "),
            InfoPiece::Span(SpanStyle::Highlight, "simple shapes and thick outlines"),
            InfoPiece::Span(SpanStyle::Plain, "."),
            InfoPiece::Break,
            InfoPiece::Span(SpanStyle::Plain, "Overall, it conveys a "),
            InfoPiece::Span(SpanStyle::Highlight, "cozy, playful, and nostalgic vibe"),
            InfoPiece::Span(SpanStyle::Plain, " ideal for a laid-back login mood."),
            InfoPiece::Break,
        ])
    } else if idx == 6 {
        ("Pixel Sakura", seq![
            InfoPiece::Span(SpanStyle::Highlight, "Pixel Sakura theme"),
            InfoPiece::Span(SpanStyle::Plain, " is a "),
            InfoPiece::Span(SpanStyle::Highlight, "pixel-art cityscape"),
            InfoPiece::Span(SpanStyle::Plain, " with a "),
            InfoPiece::Span(SpanStyle::Highlight, "train crossing a bridge"),
            InfoPiece::Span(SpanStyle::Plain, " over calm water, a distant "),
            InfoPiece::Span(SpanStyle::Highlight, "skyline"),
            InfoPiece::Span(SpanStyle::Plain, ", and a foreground "),
            InfoPiece::Span(SpanStyle::Highlight, "cherry-blossom branch"),
            InfoPiece::Span(SpanStyle::Plain, "."),
            InfoPiece::Break,
            InfoPiece::Span(SpanStyle::Plain, "A "),
            InfoPiece::Span(SpanStyle::Highlight, "looping animation"),
            InfoPiece::Span(SpanStyle::Plain, " sends "),
            InfoPiece::Span(SpanStyle::Highlight, "petals/leaves drifting"),
            InfoPiece::Span(SpanStyle::Plain, " through the air, creating a sense of "),
            InfoPiece::Span(SpanStyle::Highlight, "breeze and quiet motion"),
            InfoPiece::Span(SpanStyle::Plain, "."),
            InfoPiece::Break,
            InfoPiece::Span(SpanStyle::Plain, "The palette favors "),
            InfoPiece::Span(SpanStyle::Highlight, "soft grays and off-white"),
            InfoPiece::Span(SpanStyle::Plain, " with "),
            InfoPiece::Span(SpanStyle::Highlight, "delicate pink accents"),
            InfoPiece::Span(SpanStyle::Plain, " and a "),
            InfoPiece::Span(SpanStyle::Highlight, "muted sun"),
            InfoPiece::Span(SpanStyle::Plain, ", with gentle "),
            InfoPiece::Span(SpanStyle::Highlight, "reflections in the water"),
            InfoPiece::Span(SpanStyle::Plain, "."),
            InfoPiece::Break,
            InfoPiece::Span(SpanStyle::Plain, "Overall, it conveys "),
            InfoPiece::Span(SpanStyle::Highlight, "serene, nostalgic vibes"),
            InfoPiece::Span(SpanStyle::Plain, " blending "),
            InfoPiece::Span(SpanStyle::Highlight, "urban slice-of-life ambience"),
            InfoPiece::Span(SpanStyle::Plain, " with "),
            InfoPiece::Span(SpanStyle::Highlight, "seasonal calm"),
            InfoPiece::Span(SpanStyle::Plain, "."),
            InfoPiece::Break,
        ])
    } else if idx == 7 {
        ("Post-Apocalypse", seq![
            InfoPiece::Span(SpanStyle::Highlight, "Post-Apocalypse theme"),
            InfoPiece::Span(SpanStyle::Plain, " presents a "),
            InfoPiece::Span(SpanStyle::Highlight, "gritty, graphic-novel illustration"),
            InfoPiece::Span(SpanStyle::Plain, " of a "),
            InfoPiece::Span(SpanStyle::Highlight, "hooded figure with a skull-like face"),
            InfoPiece::Span(SpanStyle::Plain, " and "),
            InfoPiece::Span(SpanStyle::Highlight, "glowing pink goggles"),
            InfoPiece::Span(SpanStyle::Plain, "."),
            InfoPiece::Break,
            InfoPiece::Span(SpanStyle::Plain, "Cables and tubes trail from the mask as the character "),
            InfoPiece::Span(SpanStyle::Highlight, "hunches over a keyboard"),
            InfoPiece::Span(SpanStyle::Plain, " beside a "),
            InfoPiece::Span(SpanStyle::Highlight, "well-worn laptop"),
            InfoPiece::Span(SpanStyle::Plain, ", adding a sense of "),
            InfoPiece::Span(SpanStyle::Highlight, "tension and focus"),
            InfoPiece::Span(SpanStyle::Plain, "."),
            InfoPiece::Break,
            InfoPiece::Span(SpanStyle::Plain, "The palette leans on "),
            InfoPiece::Span(SpanStyle::Highlight, "muted olive, maroon, and charcoal"),
            InfoPiece::Span(SpanStyle::Plain, " accented by "),
            InfoPiece::Span(SpanStyle::Highlight, "neon magenta highlights"),
            InfoPiece::Span(SpanStyle::Plain, ", with "),
            InfoPiece::Span(SpanStyle::Highlight, "rough inks and grunge textures"),
            InfoPiece::Span(SpanStyle::Plain, " that emphasize a "),
            InfoPiece::Span(SpanStyle::Highlight, "post-apocalyptic hacker vibe"),
            InfoPiece::Span(SpanStyle::Plain, "."),
            InfoPiece::Break,
        ])
    } else if idx == 8 {
        ("Purple Leaves", seq![
            InfoPiece::Span(SpanStyle::Highlight, "The wallpaper"),
            InfoPiece::Span(SpanStyle::Plain, " features a "),
            InfoPiece::Span(SpanStyle::Highlight, "stylized botanical pattern"),
            InfoPiece::Span(SpanStyle::Plain, " of "),
            InfoPiece::Span(SpanStyle::Highlight, "overlapping leaves"),
            InfoPiece::Span(SpanStyle::Plain, " rendered with bold outlines and layered shading."),
            InfoPiece::Break,
            InfoPiece::Span(SpanStyle::Plain, "The palette leans on "),
            InfoPiece::Span(SpanStyle::Highlight, "deep indigos, violets, and navy tones"),
            InfoPiece::Span(SpanStyle::Plain, " creating a "),
            InfoPiece::Span(SpanStyle::Highlight, "moody, nocturnal atmosphere"),
            InfoPiece::Span(SpanStyle::Plain, "."),
            InfoPiece::Break,
            InfoPiece::Span(SpanStyle::Plain, "Overall, it provides a "),
            InfoPiece::Span(SpanStyle::Highlight, "calm, elegant backdrop"),
            InfoPiece::Span(SpanStyle::Plain, " with "),
            InfoPiece::Span(SpanStyle::Highlight, "soft contrast"),
            InfoPiece::Span(SpanStyle::Plain, " that keeps the scene cohesive and unobtrusive."),
            InfoPiece::Break,
        ])
    } else {
        ("Unknown Display Manager Theme", seq![
            InfoPiece::Span(SpanStyle::Plain, "No information available for this display manager theme."),
            InfoPiece::Break,
        ])
    }
}

pub struct DisplayManager {
    pub dms: ChoiceList,
}

impl DisplayManager {
    pub fn new() -> (r: Self)
        ensures
            r.dms.wf(),
            r.dms.list.title@ == "Select Display Manager"@,
            strings_view(r.dms.list.items@) == dm_options(),
            r.dms.list.focused && r.dms.list.selected_idx == 0 && !r.dms.help_visible,
    {
        let dms = ChoiceList::new("Select Display Manager", vec!["Astronaut", "Black Hole", "Cyberpunk", "Cyborg", "Kath", "Jake The Dog", "Pixel Sakura", "Post-Apocalypse", "Purple Leaves", "None"]);
        proof {
            reveal_strlit("Astronaut");
            reveal_strlit("Black Hole");
            reveal_strlit("Cyberpunk");
            reveal_strlit("Cyborg");
            reveal_strlit("Kath");
            reveal_strlit("Jake The Dog");
            reveal_strlit("Pixel Sakura");
            reveal_strlit("Post-Apocalypse");
            reveal_strlit("Purple Leaves");
            reveal_strlit("None");
        }
        assert(strings_view(dms.list.items@) =~= dm_options());
        DisplayManager { dms }
    }

    /// A key on the list (see `choice_step`); Enter sets the display manager to the highlighted one.
    pub fn handle_key(&mut self, display_manager: &mut Option<String>, key: Key) -> (r: PageSignal)
        requires
            old(self).dms.wf(),
        ensures
            final(self).dms.wf(),
            choice_step(old(self).dms, final(self).dms, key, r),
            took_choice(old(self).dms, key, *old(display_manager), *final(display_manager)),
    {
        if key == Key::Enter && !self.dms.help_visible {
            *display_manager = Some(self.dms.chosen());
        }
        self.dms.handle_key(key)
    }

    /// The text shown beside the display manager theme at `idx` (see `displaymanager_info`).
    pub fn get_displaymanager_info(idx: usize) -> (r: InfoText)
        ensures
            (r.title, r.pieces@) == displaymanager_info(idx),
    {
        if idx == 0 {
            let pieces = vec![
                InfoPiece::Span(SpanStyle::Highlight, "Astronaut theme"),
                InfoPiece::Span(SpanStyle::Plain, " presents a "),
                InfoPiece::Span(SpanStyle::Highlight, "space-themed illustration"),
                InfoPiece::Span(SpanStyle::Plain, " featuring a "),
                InfoPiece::Span(SpanStyle::Highlight, "vast planet"),
                InfoPiece::Span(SpanStyle::Plain, " set against a "),
                InfoPiece::Span(SpanStyle::Highlight, "star-filled sky"),
                InfoPiece::Span(SpanStyle::Plain, "."),
                InfoPiece::Break,
                InfoPiece::Span(SpanStyle::Plain, "A nearby "),
                InfoPiece::Span(SpanStyle::Highlight, "spacecraft"),
                InfoPiece::Span(SpanStyle::Plain, " and a "),
                InfoPiece::Span(SpanStyle::Highlight, "lone astronaut"),
                InfoPiece::Span(SpanStyle::Plain, " introduce a sense of "),
                InfoPiece::Span(SpanStyle::Highlight, "exploration and scale"),
                InfoPiece::Span(SpanStyle::Plain, "."),
                InfoPiece::Break,
                InfoPiece::Span(SpanStyle::Plain, "The palette leans on "),
                InfoPiece::Span(SpanStyle::Highlight, "cool blues and muted tones"),
                InfoPiece::Span(SpanStyle::Plain, " with "),
                InfoPiece::Span(SpanStyle::Highlight, "clean, graphic shapes"),
                InfoPiece::Span(SpanStyle::Plain, " that create a "),
                InfoPiece::Span(SpanStyle::Highlight, "calm, futuristic atmosphere"),
                InfoPiece::Span(SpanStyle::Plain, "."),
                InfoPiece::Break,
            ];
            assert(pieces@ =~= seq![
                InfoPiece::Span(SpanStyle::Highlight, "Astronaut theme"),
                InfoPiece::Span(SpanStyle::Plain, " presents a "),
                InfoPiece::Span(SpanStyle::Highlight, "space-themed illustration"),
                InfoPiece::Span(SpanStyle::Plain, " featuring a "),
                InfoPiece::Span(SpanStyle::Highlight, "vast planet"),
                InfoPiece::Span(SpanStyle::Plain, " set against a "),
                InfoPiece::Span(SpanStyle::Highlight, "star-filled sky"),
                InfoPiece::Span(SpanStyle::Plain, "."),
                InfoPiece::Break,
                InfoPiece::Span(SpanStyle::Plain, "A nearby "),
                InfoPiece::Span(SpanStyle::Highlight, "spacecraft"),
                InfoPiece::Span(SpanStyle::Plain, " and a "),
                InfoPiece::Span(SpanStyle::Highlight, "lone astronaut"),
                InfoPiece::Span(SpanStyle::Plain, " introduce a sense of "),
                InfoPiece::Span(SpanStyle::Highlight, "exploration and scale"),
                InfoPiece::Span(SpanStyle::Plain, "."),
                InfoPiece::Break,
                InfoPiece::Span(SpanStyle::Plain, "The palette leans on "),
                InfoPiece::Span(SpanStyle::Highlight, "cool blues and muted tones"),
                InfoPiece::Span(SpanStyle::Plain, " with "),
                InfoPiece::Span(SpanStyle::Highlight, "clean, graphic shapes"),
                InfoPiece::Span(SpanStyle::Plain, " that create a "),
                InfoPiece::Span(SpanStyle::Highlight, "calm, futuristic atmosphere"),
                InfoPiece::Span(SpanStyle::Plain, "."),
                InfoPiece::Break,
            ]);
            InfoText { title: "Astronaut", pieces }
        } else if idx == 1 {
            let pieces = vec![
                InfoPiece::Span(SpanStyle::Highlight, "Black Hole theme"),
                InfoPiece::Span(SpanStyle::Plain, " depicts a "),
                InfoPiece::Span(SpanStyle::Highlight, "deep-space scene"),
                InfoPiece::Span(SpanStyle::Plain, " dominated by a "),
                InfoPiece::Span(SpanStyle::Highlight, "massive black hole"),
                InfoPiece::Span(SpanStyle::Plain, " encircled by a bright "),
                InfoPiece::Span(SpanStyle::Highlight, "accretion ring"),
                InfoPiece::Span(SpanStyle::Plain, " of swirling light and dust."),
                InfoPiece::Break,
                InfoPiece::Span(SpanStyle::Plain, "Floating nearby are "),
                InfoPiece::Span(SpanStyle::Highlight, "asteroids and debris"),
                InfoPiece::Span(SpanStyle::Plain, " with a "),
                InfoPiece::Span(SpanStyle::Highlight, "solitary astronaut"),
                InfoPiece::Span(SpanStyle::Plain, " adding a sense of "),
                InfoPiece::Span(SpanStyle::Highlight, "scale and motion"),
                InfoPiece::Span(SpanStyle::Plain, "."),
                InfoPiece::Break,
                InfoPiece::Span(SpanStyle::Plain, "The color palette blends "),
                InfoPiece::Span(SpanStyle::Highlight, "deep purples and blues"),
                InfoPiece::Span(SpanStyle::Plain, " with "),
                InfoPiece::Span(SpanStyle::Highlight, "fiery orange highlights"),
                InfoPiece::Span(SpanStyle::Plain, ", creating a "),
                InfoPiece::Span(SpanStyle::Highlight, "cinematic cosmic atmosphere"),
                InfoPiece::Span(SpanStyle::Plain, "."),
                InfoPiece::Break,
                InfoPiece::Span(SpanStyle::Plain, "Overall, it conveys "),
                InfoPiece::Span(SpanStyle::Highlight, "mystery, gravity, and vastness"),
                InfoPiece::Span(SpanStyle::Plain, " while remaining visually "),
                InfoPiece::Span(SpanStyle::Highlight, "striking and immersive"),
                InfoPiece::Span(SpanStyle::Plain, "."),
                InfoPiece::Break,
            ];
            assert(pieces@ =~= seq![
                InfoPiece::Span(SpanStyle::Highlight, "Black Hole theme"),
                InfoPiece::Span(SpanStyle::Plain, " depicts a "),
                InfoPiece::Span(SpanStyle::Highlight, "deep-space scene"),
                InfoPiece::Span(SpanStyle::Plain, " dominated by a "),
                InfoPiece::Span(SpanStyle::Highlight, "massive black hole"),
                InfoPiece::Span(SpanStyle::Plain, " encircled by a bright "),
                InfoPiece::Span(SpanStyle::Highlight, "accretion ring"),
                InfoPiece::Span(SpanStyle::Plain, " of swirling light and dust."),
                InfoPiece::Break,
                InfoPiece::Span(SpanStyle::Plain, "Floating nearby are "),
                InfoPiece::Span(SpanStyle::Highlight, "asteroids and debris"),
                InfoPiece::Span(SpanStyle::Plain, " with a "),
                InfoPiece::Span(SpanStyle::Highlight, "solitary astronaut"),
                InfoPiece::Span(SpanStyle::Plain, " adding a sense of "),
                InfoPiece::Span(SpanStyle::Highlight, "scale and motion"),
                InfoPiece::Span(SpanStyle::Plain, "."),
                InfoPiece::Break,
                InfoPiece::Span(SpanStyle::Plain, "The color palette blends "),
                InfoPiece::Span(SpanStyle::Highlight, "deep purples and blues"),
                InfoPiece::Span(SpanStyle::Plain, " with "),
                InfoPiece::Span(SpanStyle::Highlight, "fiery orange highlights"),
                InfoPiece::Span(SpanStyle::Plain, ", creating a "),
                InfoPiece::Span(SpanStyle::Highlight, "cinematic cosmic atmosphere"),
                InfoPiece::Span(SpanStyle::Plain, "."),
                InfoPiece::Break,
                InfoPiece::Span(SpanStyle::Plain, "Overall, it conveys "),
                InfoPiece::Span(SpanStyle::Highlight, "mystery, gravity, and vastness"),
                InfoPiece::Span(SpanStyle::Plain, " while remaining visually "),
                InfoPiece::Span(SpanStyle::Highlight, "striking and immersive"),
                InfoPiece::Span(SpanStyle::Plain, "."),
                InfoPiece::Break,
            ]);
            InfoText { title: "Black Hole", pieces }
        } else if idx == 2 {
            let pieces = vec![
                InfoPiece::Span(SpanStyle::Highlight, "Cyberpunk theme"),
                InfoPiece::Span(SpanStyle::Plain, " features a "),
                InfoPiece::Span(SpanStyle::Highlight, "cyberpunk portrait"),
                InfoPiece::Span(SpanStyle::Plain, " of a "),
                InfoPiece::Span(SpanStyle::Highlight, "hooded figure with a masked/visored face"),
                InfoPiece::Span(SpanStyle::Plain, ", rendered against a "),
                InfoPiece::Span(SpanStyle::Highlight, "dark background"),
                InfoPiece::Span(SpanStyle::Plain, "."),
                InfoPiece::Break,
                InfoPiece::Span(SpanStyle::Plain, "Surrounding the figure are "),
                InfoPiece::Span(SpanStyle::Highlight, "glitch effects and HUD-like geometric lines"),
                InfoPiece::Span(SpanStyle::Plain, " that suggest "),
                InfoPiece::Span(SpanStyle::Highlight, "digital interference and motion"),
                InfoPiece::Span(SpanStyle::Plain, "."),
                InfoPiece::Break,
                InfoPiece::Span(SpanStyle::Plain, "The palette blends "),
                InfoPiece::Span(SpanStyle::Highlight, "neon magenta and electric cyan"),
                InfoPiece::Span(SpanStyle::Plain, " accents with "),
                InfoPiece::Span(SpanStyle::Highlight, "high-contrast blacks"),
                InfoPiece::Span(SpanStyle::Plain, " for a bold, tech-noir look."),
                InfoPiece::Break,
                InfoPiece::Span(SpanStyle::Plain, "Overall, it conveys "),
                InfoPiece::Span(SpanStyle::Highlight, "anonymity, hacking culture, and futuristic grit"),
                InfoPiece::Span(SpanStyle::Plain, " with a distinctly "),
                InfoPiece::Span(SpanStyle::Highlight, "synthwave aesthetic"),
                InfoPiece::Span(SpanStyle::Plain, "."),
                InfoPiece::Break,
            ];
            assert(pieces@ =~= seq![
                InfoPiece::Span(SpanStyle::Highlight, "Cyberpunk theme"),
                InfoPiece::Span(SpanStyle::Plain, " features a "),
                InfoPiece::Span(SpanStyle::Highlight, "cyberpunk portrait"),
                InfoPiece::Span(SpanStyle::Plain, " of a "),
                InfoPiece::Span(SpanStyle::Highlight, "hooded figure with a masked/visored face"),
                InfoPiece::Span(SpanStyle::Plain, ", rendered against a "),
                InfoPiece::Span(SpanStyle::Highlight, "dark background"),
                InfoPiece::Span(SpanStyle::Plain, "."),
                InfoPiece::Break,
                InfoPiece::Span(SpanStyle::Plain, "Surrounding the figure are "),
                InfoPiece::Span(SpanStyle::Highlight, "glitch effects and HUD-like geometric lines"),
                InfoPiece::Span(SpanStyle::Plain, " that suggest "),
                InfoPiece::Span(SpanStyle::Highlight, "digital interference and motion"),
                InfoPiece::Span(SpanStyle::Plain, "."),
                InfoPiece::Break,
                InfoPiece::Span(SpanStyle::Plain, "The palette blends "),
                InfoPiece::Span(SpanStyle::Highlight, "neon magenta and electric cyan"),
                InfoPiece::Span(SpanStyle::Plain, " accents with "),
                InfoPiece::Span(SpanStyle::Highlight, "high-contrast blacks"),
                InfoPiece::Span(SpanStyle::Plain, " for a bold, tech-noir look."),
                InfoPiece::Break,
                InfoPiece::Span(SpanStyle::Plain, "Overall, it conveys "),
                InfoPiece::Span(SpanStyle::Highlight, "anonymity, hacking culture, and futuristic grit"),
                InfoPiece::Span(SpanStyle::Plain, " with a distinctly "),
                InfoPiece::Span(SpanStyle::Highlight, "synthwave aesthetic"),
                InfoPiece::Span(SpanStyle::Plain, "."),
                InfoPiece::Break,
            ]);
            InfoText { title: "Cyberpunk", pieces }
        } else if idx == 3 {
            let pieces = vec![
                InfoPiece::Span(SpanStyle::Highlight, "Cyborg theme"),
                InfoPiece::Span(SpanStyle::Plain, " showcases a "),
                InfoPiece::Span(SpanStyle::Highlight, "minimalist retro-futuristic illustration"),
                InfoPiece::Span(SpanStyle::Plain, " of a "),
                InfoPiece::Span(SpanStyle::Highlight, "woman in profile"),
                InfoPiece::Span(SpanStyle::Plain, " with long dark hair and subtle "),
                InfoPiece::Span(SpanStyle::Highlight, "cybernetic accents"),
                InfoPiece::Span(SpanStyle::Plain, " across the face."),
                InfoPiece::Break,
                InfoPiece::Span(SpanStyle::Plain, "She is framed by a "),
                InfoPiece::Span(SpanStyle::Highlight, "geometric wireframe cube"),
                InfoPiece::Span(SpanStyle::Plain, " in perspective, adding a sense of "),
                InfoPiece::Span(SpanStyle::Highlight, "depth and containment"),
                InfoPiece::Span(SpanStyle::Plain, "."),
                InfoPiece::Break,
                InfoPiece::Span(SpanStyle::Plain, "The palette uses "),
                InfoPiece::Span(SpanStyle::Highlight, "warm monochrome tones"),
                InfoPiece::Span(SpanStyle::Plain, ", cream, beige, and charcoal, creating a "),
                InfoPiece::Span(SpanStyle::Highlight, "calm yet otherworldly atmosphere"),
                InfoPiece::Span(SpanStyle::Plain, " with generous negative space."),
                InfoPiece::Break,
            ];
            assert(pieces@ =~= seq![
                InfoPiece::Span(SpanStyle::Highlight, "Cyborg theme"),
                InfoPiece::Span(SpanStyle::Plain, " showcases a "),
                InfoPiece::Span(SpanStyle::Highlight, "minimalist retro-futuristic illustration"),
                InfoPiece::Span(SpanStyle::Plain, " of a "),
                InfoPiece::Span(SpanStyle::Highlight, "woman in profile"),
                InfoPiece::Span(SpanStyle::Plain, " with long dark hair and subtle "),
                InfoPiece::Span(SpanStyle::Highlight, "cybernetic accents"),
                InfoPiece::Span(SpanStyle::Plain, " across the face."),
                InfoPiece::Break,
                InfoPiece::Span(SpanStyle::Plain, "She is framed by a "),
                InfoPiece::Span(SpanStyle::Highlight, "geometric wireframe cube"),
                InfoPiece::Span(SpanStyle::Plain, " in perspective, adding a sense of "),
                InfoPiece::Span(SpanStyle::Highlight, "depth and containment"),
                InfoPiece::Span(SpanStyle::Plain, "."),
                InfoPiece::Break,
                InfoPiece::Span(SpanStyle::Plain, "The palette uses "),
                InfoPiece::Span(SpanStyle::Highlight, "warm monochrome tones"),
                InfoPiece::Span(SpanStyle::Plain, ", cream, beige, and charcoal, creating a "),
                InfoPiece::Span(SpanStyle::Highlight, "calm yet otherworldly atmosphere"),
                InfoPiece::Span(SpanStyle::Plain, " with generous negative space."),
                InfoPiece::Break,
            ]);
            InfoText { title: "Cyborg", pieces }
        } else if idx == 4 {
            let pieces = vec![
                InfoPiece::Span(SpanStyle::Highlight, "Kath theme"),
                InfoPiece::Span(SpanStyle::Plain, " is an "),
                InfoPiece::Span(SpanStyle::Highlight, "animated pixel-art scene"),
                InfoPiece::Span(SpanStyle::Plain, " set in a "),
                InfoPiece::Span(SpanStyle::Highlight, "futuristic industrial room"),
                InfoPiece::Span(SpanStyle::Plain, " where a "),
                InfoPiece::Span(SpanStyle::Highlight, "blue-haired girl"),
                InfoPiece::Span(SpanStyle::Plain, " sits under "),
                InfoPiece::Span(SpanStyle::Highlight, "soft neon lighting"),
                InfoPiece::Span(SpanStyle::Plain, "."),
                InfoPiece::Break,
                InfoPiece::Span(SpanStyle::Plain, "The palette blends "),
                InfoPiece::Span(SpanStyle::Highlight, "cool blues and violets"),
                InfoPiece::Span(SpanStyle::Plain, " with "),
                InfoPiece::Span(SpanStyle::Highlight, "electric cyan highlights"),
                InfoPiece::Span(SpanStyle::Plain, ", evoking a "),
                InfoPiece::Span(SpanStyle::Highlight, "retro sci-fi arcade vibe"),
                InfoPiece::Span(SpanStyle::Plain, "."),
                InfoPiece::Break,
                InfoPiece::Span(SpanStyle::Plain, "Overall, it conveys "),
                InfoPiece::Span(SpanStyle::Highlight, "calm, atmospheric energy"),
                InfoPiece::Span(SpanStyle::Plain, " with a mix of "),
                InfoPiece::Span(SpanStyle::Highlight, "nostalgia and futurism"),
                InfoPiece::Span(SpanStyle::Plain, "."),
                InfoPiece::Break,
            ];
            assert(pieces@ =~= seq![
                InfoPiece::Span(SpanStyle::Highlight, "Kath theme"),
                InfoPiece::Span(SpanStyle::Plain, " is an "),
                InfoPiece::Span(SpanStyle::Highlight, "animated pixel-art scene"),
                InfoPiece::Span(SpanStyle::Plain, " set in a "),
                InfoPiece::Span(SpanStyle::Highlight, "futuristic industrial room"),
                InfoPiece::Span(SpanStyle::Plain, " where a "),
                InfoPiece::Span(SpanStyle::Highlight, "blue-haired girl"),
                InfoPiece::Span(SpanStyle::Plain, " sits under "),
                InfoPiece::Span(SpanStyle::Highlight, "soft neon lighting"),
                InfoPiece::Span(SpanStyle::Plain, "."),
                InfoPiece::Break,
                InfoPiece::Span(SpanStyle::Plain, "The palette blends "),
                InfoPiece::Span(SpanStyle::Highlight, "cool blues and violets"),
                InfoPiece::Span(SpanStyle::Plain, " with "),
                InfoPiece::Span(SpanStyle::Highlight, "electric cyan highlights"),
                InfoPiece::Span(SpanStyle::Plain, ", evoking a "),
                InfoPiece::Span(SpanStyle::Highlight, "retro sci-fi arcade vibe"),
                InfoPiece::Span(SpanStyle::Plain, "."),
                InfoPiece::Break,
                InfoPiece::Span(SpanStyle::Plain, "Overall, it conveys "),
                InfoPiece::Span(SpanStyle::Highlight, "calm, atmospheric energy"),
                InfoPiece::Span(SpanStyle::Plain, " with a mix of "),
                InfoPiece::Span(SpanStyle::Highlight, "nostalgia and futurism"),
                InfoPiece::Span(SpanStyle::Plain, "."),
                InfoPiece::Break,
            ]);
            InfoText { title: "Kath", pieces }
        } else if idx == 5 {
            let pieces = vec![
                InfoPiece::Span(SpanStyle::Highlight, "Jake The Dog theme"),
                InfoPiece::Span(SpanStyle::Plain, " is an "),
                InfoPiece::Span(SpanStyle::Highlight, "animated, cartoon-style scene"),
                InfoPiece::Span(SpanStyle::Plain, " featuring a "),
                InfoPiece::Span(SpanStyle::Highlight, "relaxed dog wearing headphones"),
                InfoPiece::Span(SpanStyle::Plain, " sitting on a rooftop and enjoying music."),
                InfoPiece::Break,
                InfoPiece::Span(SpanStyle::Plain, "The background shows a "),
                InfoPiece::Span(SpanStyle::Highlight, "dusk forest landscape"),
                InfoPiece::Span(SpanStyle::Plain, " with "),
                InfoPiece::Span(SpanStyle::Highlight, "soft purples and muted greens"),
                InfoPiece::Span(SpanStyle::Plain, " rendered in "),
                InfoPiece::Span(SpanStyle::Highlight, "simple shapes and thick outlines"),
                InfoPiece::Span(SpanStyle::Plain, "."),
                InfoPiece::Break,
                InfoPiece::Span(SpanStyle::Plain, "Overall, it conveys a "),
                InfoPiece::Span(SpanStyle::Highlight, "cozy, playful, and nostalgic vibe"),
                InfoPiece::Span(SpanStyle::Plain, " ideal for a laid-back login mood."),
                InfoPiece::Break,
            ];
            assert(pieces@ =~= seq![
                InfoPiece::Span(SpanStyle::Highlight, "Jake The Dog theme"),
                InfoPiece::Span(SpanStyle::Plain, " is an "),
                InfoPiece::Span(SpanStyle::Highlight, "animated, cartoon-style scene"),
                InfoPiece::Span(SpanStyle::Plain, " featuring a "),
                InfoPiece::Span(SpanStyle::Highlight, "relaxed dog wearing headphones"),
                InfoPiece::Span(SpanStyle::Plain, " sitting on a rooftop and enjoying music."),
                InfoPiece::Break,
                InfoPiece::Span(SpanStyle::Plain, "The background shows a "),
                InfoPiece::Span(SpanStyle::Highlight, "dusk forest landscape"),
                InfoPiece::Span(SpanStyle::Plain, " with "),
                InfoPiece::Span(SpanStyle::Highlight, "soft purples and muted greens"),
                InfoPiece::Span(SpanStyle::Plain, " rendered in "),
                InfoPiece::Span(SpanStyle::Highlight, "simple shapes and thick outlines"),
                InfoPiece::Span(SpanStyle::Plain, "."),
                InfoPiece::Break,
                InfoPiece::Span(SpanStyle::Plain, "Overall, it conveys a "),
                InfoPiece::Span(SpanStyle::Highlight, "cozy, playful, and nostalgic vibe"),
                InfoPiece::Span(SpanStyle::Plain, " ideal for a laid-back login mood."),
                InfoPiece::Break,
            ]);
            InfoText { title: "Jake The Dog", pieces }
        } else if idx == 6 {
            let pieces = vec![
                InfoPiece::Span(SpanStyle::Highlight, "Pixel Sakura theme"),
                InfoPiece::Span(SpanStyle::Plain, " is a "),
                InfoPiece::Span(SpanStyle::Highlight, "pixel-art cityscape"),
                InfoPiece::Span(SpanStyle::Plain, " with a "),
                InfoPiece::Span(SpanStyle::Highlight, "train crossing a bridge"),
                InfoPiece::Span(SpanStyle::Plain, " over calm water, a distant "),
                InfoPiece::Span(SpanStyle::Highlight, "skyline"),
                InfoPiece::Span(SpanStyle::Plain, ", and a foreground "),
                InfoPiece::Span(SpanStyle::Highlight, "cherry-blossom branch"),
                InfoPiece::Span(SpanStyle::Plain, "."),
                InfoPiece::Break,
                InfoPiece::Span(SpanStyle::Plain, "A "),
                InfoPiece::Span(SpanStyle::Highlight, "looping animation"),
                InfoPiece::Span(SpanStyle::Plain, " sends "),
                InfoPiece::Span(SpanStyle::Highlight, "petals/leaves drifting"),
                InfoPiece::Span(SpanStyle::Plain, " through the air, creating a sense of "),
                InfoPiece::Span(SpanStyle::Highlight, "breeze and quiet motion"),
                InfoPiece::Span(SpanStyle::Plain, "."),
                InfoPiece::Break,
                InfoPiece::Span(SpanStyle::Plain, "The palette favors "),
                InfoPiece::Span(SpanStyle::Highlight, "soft grays and off-white"),
                InfoPiece::Span(SpanStyle::Plain, " with "),
                InfoPiece::Span(SpanStyle::Highlight, "delicate pink accents"),
                InfoPiece::Span(SpanStyle::Plain, " and a "),
                InfoPiece::Span(SpanStyle::Highlight, "muted sun"),
                InfoPiece::Span(SpanStyle::Plain, ", with gentle "),
                InfoPiece::Span(SpanStyle::Highlight, "reflections in the water"),
                InfoPiece::Span(SpanStyle::Plain, "."),
                InfoPiece::Break,
                InfoPiece::Span(SpanStyle::Plain, "Overall, it conveys "),
                InfoPiece::Span(SpanStyle::Highlight, "serene, nostalgic vibes"),
                InfoPiece::Span(SpanStyle::Plain, " blending "),
                InfoPiece::Span(SpanStyle::Highlight, "urban slice-of-life ambience"),
                InfoPiece::Span(SpanStyle::Plain, " with "),
                InfoPiece::Span(SpanStyle::Highlight, "seasonal calm"),
                InfoPiece::Span(SpanStyle::Plain, "."),
                InfoPiece::Break,
            ];
            assert(pieces@ =~= seq![
                InfoPiece::Span(SpanStyle::Highlight, "Pixel Sakura theme"),
                InfoPiece::Span(SpanStyle::Plain, " is a "),
                InfoPiece::Span(SpanStyle::Highlight, "pixel-art cityscape"),
                InfoPiece::Span(SpanStyle::Plain, " with a "),
                InfoPiece::Span(SpanStyle::Highlight, "train crossing a bridge"),
                InfoPiece::Span(SpanStyle::Plain, " over calm water, a distant "),
                InfoPiece::Span(SpanStyle::Highlight, "skyline"),
                InfoPiece::Span(SpanStyle::Plain, ", and a foreground "),
                InfoPiece::Span(SpanStyle::Highlight, "cherry-blossom branch"),
                InfoPiece::Span(SpanStyle::Plain, "."),
                InfoPiece::Break,
                InfoPiece::Span(SpanStyle::Plain, "A "),
                InfoPiece::Span(SpanStyle::Highlight, "looping animation"),
                InfoPiece::Span(SpanStyle::Plain, " sends "),
                InfoPiece::Span(SpanStyle::Highlight, "petals/leaves drifting"),
                InfoPiece::Span(SpanStyle::Plain, " through the air, creating a sense of "),
                InfoPiece::Span(SpanStyle::Highlight, "breeze and quiet motion"),
                InfoPiece::Span(SpanStyle::Plain, "."),
                InfoPiece::Break,
                InfoPiece::Span(SpanStyle::Plain, "The palette favors "),
                InfoPiece::Span(SpanStyle::Highlight, "soft grays and off-white"),
                InfoPiece::Span(SpanStyle::Plain, " with "),
                InfoPiece::Span(SpanStyle::Highlight, "delicate pink accents"),
                InfoPiece::Span(SpanStyle::Plain, " and a "),
                InfoPiece::Span(SpanStyle::Highlight, "muted sun"),
                InfoPiece::Span(SpanStyle::Plain, ", with gentle "),
                InfoPiece::Span(SpanStyle::Highlight, "reflections in the water"),
                InfoPiece::Span(SpanStyle::Plain, "."),
                InfoPiece::Break,
                InfoPiece::Span(SpanStyle::Plain, "Overall, it conveys "),
                InfoPiece::Span(SpanStyle::Highlight, "serene, nostalgic vibes"),
                InfoPiece::Span(SpanStyle::Plain, " blending "),
                InfoPiece::Span(SpanStyle::Highlight, "urban slice-of-life ambience"),
                InfoPiece::Span(SpanStyle::Plain, " with "),
                InfoPiece::Span(SpanStyle::Highlight, "seasonal calm"),
                InfoPiece::Span(SpanStyle::Plain, "."),
                InfoPiece::Break,
            ]);
            InfoText { title: "Pixel Sakura", pieces }
        } else if idx == 7 {
            let pieces = vec![
                InfoPiece::Span(SpanStyle::Highlight, "Post-Apocalypse theme"),
                InfoPiece::Span(SpanStyle::Plain, " presents a "),
                InfoPiece::Span(SpanStyle::Highlight, "gritty, graphic-novel illustration"),
                InfoPiece::Span(SpanStyle::Plain, " of a "),
                InfoPiece::Span(SpanStyle::Highlight, "hooded figure with a skull-like face"),
                InfoPiece::Span(SpanStyle::Plain, " and "),
                InfoPiece::Span(SpanStyle::Highlight, "glowing pink goggles"),
                InfoPiece::Span(SpanStyle::Plain, "."),
                InfoPiece::Break,
                InfoPiece::Span(SpanStyle::Plain, "Cables and tubes trail from the mask as the character "),
                InfoPiece::Span(SpanStyle::Highlight, "hunches over a keyboard"),
                InfoPiece::Span(SpanStyle::Plain, " beside a "),
                InfoPiece::Span(SpanStyle::Highlight, "well-worn laptop"),
                InfoPiece::Span(SpanStyle::Plain, ", adding a sense of "),
                InfoPiece::Span(SpanStyle::Highlight, "tension and focus"),
                InfoPiece::Span(SpanStyle::Plain, "."),
                InfoPiece::Break,
                InfoPiece::Span(SpanStyle::Plain, "The palette leans on "),
                InfoPiece::Span(SpanStyle::Highlight, "muted olive, maroon, and charcoal"),
                InfoPiece::Span(SpanStyle::Plain, " accented by "),
                InfoPiece::Span(SpanStyle::Highlight, "neon magenta highlights"),
                InfoPiece::Span(SpanStyle::Plain, ", with "),
                InfoPiece::Span(SpanStyle::Highlight, "rough inks and grunge textures"),
                InfoPiece::Span(SpanStyle::Plain, " that emphasize a "),
                InfoPiece::Span(SpanStyle::Highlight, "post-apocalyptic hacker vibe"),
                InfoPiece::Span(SpanStyle::Plain, "."),
                InfoPiece::Break,
            ];
            assert(pieces@ =~= seq![
                InfoPiece::Span(SpanStyle::Highlight, "Post-Apocalypse theme"),
                InfoPiece::Span(SpanStyle::Plain, " presents a "),
                InfoPiece::Span(SpanStyle::Highlight, "gritty, graphic-novel illustration"),
                InfoPiece::Span(SpanStyle::Plain, " of a "),
                InfoPiece::Span(SpanStyle::Highlight, "hooded figure with a skull-like face"),
                InfoPiece::Span(SpanStyle::Plain, " and "),
                InfoPiece::Span(SpanStyle::Highlight, "glowing pink goggles"),
                InfoPiece::Span(SpanStyle::Plain, "."),
                InfoPiece::Break,
                InfoPiece::Span(SpanStyle::Plain, "Cables and tubes trail from the mask as the character "),
                InfoPiece::Span(SpanStyle::Highlight, "hunches over a keyboard"),
                InfoPiece::Span(SpanStyle::Plain, " beside a "),
                InfoPiece::Span(SpanStyle::Highlight, "well-worn laptop"),
                InfoPiece::Span(SpanStyle::Plain, ", adding a sense of "),
                InfoPiece::Span(SpanStyle::Highlight, "tension and focus"),
                InfoPiece::Span(SpanStyle::Plain, "."),
                InfoPiece::Break,
                InfoPiece::Span(SpanStyle::Plain, "The palette leans on "),
                InfoPiece::Span(SpanStyle::Highlight, "muted olive, maroon, and charcoal"),
                InfoPiece::Span(SpanStyle::Plain, " accented by "),
                InfoPiece::Span(SpanStyle::Highlight, "neon magenta highlights"),
                InfoPiece::Span(SpanStyle::Plain, ", with "),
                InfoPiece::Span(SpanStyle::Highlight, "rough inks and grunge textures"),
                InfoPiece::Span(SpanStyle::Plain, " that emphasize a "),
                InfoPiece::Span(SpanStyle::Highlight, "post-apocalyptic hacker vibe"),
                InfoPiece::Span(SpanStyle::Plain, "."),
                InfoPiece::Break,
            ]);
            InfoText { title: "Post-Apocalypse", pieces }
        } else if idx == 8 {
            let pieces = vec![
                InfoPiece::Span(SpanStyle::Highlight, "The wallpaper"),
                InfoPiece::Span(SpanStyle::Plain, " features a "),
                InfoPiece::Span(SpanStyle::Highlight, "stylized botanical pattern"),
                InfoPiece::Span(SpanStyle::Plain, " of "),
                InfoPiece::Span(SpanStyle::Highlight, "overlapping leaves"),
                InfoPiece::Span(SpanStyle::Plain, " rendered with bold outlines and layered shading."),
                InfoPiece::Break,
                InfoPiece::Span(SpanStyle::Plain, "The palette leans on "),
                InfoPiece::Span(SpanStyle::Highlight, "deep indigos, violets, and navy tones"),
                InfoPiece::Span(SpanStyle::Plain, " creating a "),
                InfoPiece::Span(SpanStyle::Highlight, "moody, nocturnal atmosphere"),
                InfoPiece::Span(SpanStyle::Plain, "."),
                InfoPiece::Break,
                InfoPiece::Span(SpanStyle::Plain, "Overall, it provides a "),
                InfoPiece::Span(SpanStyle::Highlight, "calm, elegant backdrop"),
                InfoPiece::Span(SpanStyle::Plain, " with "),
                InfoPiece::Span(SpanStyle::Highlight, "soft contrast"),
                InfoPiece::Span(SpanStyle::Plain, " that keeps the scene cohesive and unobtrusive."),
                InfoPiece::Break,
            ];
            assert(pieces@ =~= seq![
                InfoPiece::Span(SpanStyle::Highlight, "The wallpaper"),
                InfoPiece::Span(SpanStyle::Plain, " features a "),
                InfoPiece::Span(SpanStyle::Highlight, "stylized botanical pattern"),
                InfoPiece::Span(SpanStyle::Plain, " of "),
                InfoPiece::Span(SpanStyle::Highlight, "overlapping leaves"),
                InfoPiece::Span(SpanStyle::Plain, " rendered with bold outlines and layered shading."),
                InfoPiece::Break,
                InfoPiece::Span(SpanStyle::Plain, "The palette leans on "),
                InfoPiece::Span(SpanStyle::Highlight, "deep indigos, violets, and navy tones"),
                InfoPiece::Span(SpanStyle::Plain, " creating a "),
                InfoPiece::Span(SpanStyle::Highlight, "moody, nocturnal atmosphere"),
                InfoPiece::Span(SpanStyle::Plain, "."),
                InfoPiece::Break,
                InfoPiece::Span(SpanStyle::Plain, "Overall, it provides a "),
                InfoPiece::Span(SpanStyle::Highlight, "calm, elegant backdrop"),
                InfoPiece::Span(SpanStyle::Plain, " with "),
                InfoPiece::Span(SpanStyle::Highlight, "soft contrast"),
                InfoPiece::Span(SpanStyle::Plain, " that keeps the scene cohesive and unobtrusive."),
                InfoPiece::Break,
            ]);
            InfoText { title: "Purple Leaves", pieces }
        } else {
            let pieces = vec![
                InfoPiece::Span(SpanStyle::Plain, "No information available for this display manager theme."),
                InfoPiece::Break,
            ];
            assert(pieces@ =~= seq![
                InfoPiece::Span(SpanStyle::Plain, "No information available for this display manager theme."),
                InfoPiece::Break,
            ]);
            InfoText { title: "Unknown Display Manager Theme", pieces }
        }
    }
}

} // verus!
