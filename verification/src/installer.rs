//! The installer's menu pages, what a page asks of the page stack, and the
//! page shown after a failed installation.
use vstd::prelude::*;
use crate::text::{owned, to_chars, trim, trim_seq};
use crate::widgets::{Key, StrList};

verus! {

/// What a page asks of the page stack after a key press.
#[derive(Debug)]
pub enum PageSignal {
    /// Stay on this page.
    Wait,
    /// Leave this page.
    Pop,
    /// Leave this many pages.
    PopCount(usize),
    /// Leave the installer.
    Quit,
    /// Report an error.
    Error(String),
}

/// The pages of the main menu.
#[derive(Clone, Copy, Debug, PartialEq, Eq, Structural)]
pub enum MenuPages {
    BaseSys,
    Timezone,
    KeyboardLayout,
    Locale,
    Drives,
    Hostname,
    RootPassword,
    UserAccounts,
    DesktopEnvironment,
    DisplayManager,
    Design,
    ExtraPackages,
}

/// The pages of the main menu that every distribution shows, in menu order.
pub open spec fn all_pages_spec() -> Seq<MenuPages> {
    seq![
        MenuPages::BaseSys,
        MenuPages::Timezone,
        MenuPages::KeyboardLayout,
        MenuPages::Locale,
        MenuPages::Drives,
        MenuPages::Hostname,
        MenuPages::RootPassword,
        MenuPages::UserAccounts,
        MenuPages::DesktopEnvironment,
        MenuPages::DisplayManager,
        MenuPages::Design,
    ]
}

/// The menu pages in order, the package page last.
pub open spec fn supported_pages_spec() -> Seq<MenuPages> {
    all_pages_spec().push(MenuPages::ExtraPackages)
}

/// A page's title in the menu.
pub open spec fn page_title(p: MenuPages) -> Seq<char> {
    match p {
        MenuPages::BaseSys => "Base System"@,
        MenuPages::Timezone => "Timezone"@,
        MenuPages::KeyboardLayout => "Keyboard Layout"@,
        MenuPages::Locale => "Locale"@,
        MenuPages::Drives => "Drives"@,
        MenuPages::Hostname => "Hostname"@,
        MenuPages::RootPassword => "Root Password"@,
        MenuPages::UserAccounts => "User Accounts"@,
        MenuPages::DesktopEnvironment => "Desktop Environment"@,
        MenuPages::DisplayManager => "Display Manager"@,
        MenuPages::Design => "Design"@,
        MenuPages::ExtraPackages => "Extra Packages"@,
    }
}

impl MenuPages {
    pub fn all_pages() -> (r: Vec<MenuPages>)
        ensures
            r@ == all_pages_spec(),
    {
        let r = vec![
            MenuPages::BaseSys,
            MenuPages::Timezone,
            MenuPages::KeyboardLayout,
            MenuPages::Locale,
            MenuPages::Drives,
            MenuPages::Hostname,
            MenuPages::RootPassword,
            MenuPages::UserAccounts,
            MenuPages::DesktopEnvironment,
            MenuPages::DisplayManager,
            MenuPages::Design,
        ];
        assert(r@ =~= all_pages_spec());
        r
    }

    pub fn supported_pages() -> (r: Vec<MenuPages>)
        ensures
            r@ == supported_pages_spec(),
    {
        let mut r = MenuPages::all_pages();
        r.push(MenuPages::ExtraPackages);
        r
    }

    pub fn title(&self) -> (r: &'static str)
        ensures
            r@ == page_title(*self),
    {
        match self {
            MenuPages::BaseSys => "Base System",
            MenuPages::Timezone => "Timezone",
            MenuPages::KeyboardLayout => "Keyboard Layout",
            MenuPages::Locale => "Locale",
            MenuPages::Drives => "Drives",
            MenuPages::Hostname => "Hostname",
            MenuPages::RootPassword => "Root Password",
            MenuPages::UserAccounts => "User Accounts",
            MenuPages::DesktopEnvironment => "Desktop Environment",
            MenuPages::DisplayManager => "Display Manager",
            MenuPages::Design => "Design",
            MenuPages::ExtraPackages => "Extra Packages",
        }
    }
}

// ---------------------------------------------------------------------------
// After a failed installation
// ---------------------------------------------------------------------------

/// Progress of sharing the installation log.
#[derive(Debug)]
pub enum LogGenState {
    Idle,
    Running,
    /// The log was shared; the link.
    Done(String),
    /// Sharing failed; the reason.
    Error(String),
}

/// The page shown after a failed installation, which can share the log.
pub struct InstallFailed {
    log_path: String,
    state: LogGenState,
}

/// The link in a paste service's reply, or why there is none.
pub fn termbin_reply(response: &str) -> (r: Result<String, String>)
    ensures
        match r {
            Ok(link) => link@ == trim_seq(response@) && link@.len() > 0,
            Err(e) => trim_seq(response@).len() == 0 && e@ == "No response from termbin"@,
        },
{
    let link = trim(response);
    if to_chars(link.as_str()).len() == 0 {
        Err(owned("No response from termbin"))
    } else {
        Ok(link)
    }
}

/// Starting to share the log: from idle or after a failure it runs, and the
/// flag tells that the upload must start; otherwise nothing changes.
pub open spec fn started(st: LogGenState) -> (LogGenState, bool) {
    match st {
        LogGenState::Idle | LogGenState::Error(_) => (LogGenState::Running, true),
        _ => (st, false),
    }
}

/// Taking in the upload's reply: only a running upload ends, with the link or
/// the reason it failed.
pub open spec fn polled(st: LogGenState, reply: Option<Result<String, String>>) -> LogGenState {
    if st is Running {
        match reply {
            Some(Ok(url)) => LogGenState::Done(url),
            Some(Err(e)) => LogGenState::Error(e),
            None => st,
        }
    } else {
        st
    }
}

impl InstallFailed {
    pub closed spec fn path_view(&self) -> Seq<char> {
        self.log_path@
    }

    pub closed spec fn state_view(&self) -> LogGenState {
        self.state
    }

    pub fn new(log_path: String) -> (r: Self)
        ensures
            r.path_view() == log_path@,
            r.state_view() is Idle,
    {
        InstallFailed { log_path, state: LogGenState::Idle }
    }

    pub fn log_path(&self) -> (r: &str)
        ensures
            r@ == self.path_view(),
    {
        self.log_path.as_str()
    }

    pub fn state(&self) -> (r: &LogGenState)
        ensures
            *r == self.state_view(),
    {
        &self.state
    }

    /// Starts sharing the log unless it is under way or done; tells whether
    /// the upload must be started.
    pub fn start_generation(&mut self) -> (r: bool)
        ensures
            (final(self).state_view(), r) == started(old(self).state_view()),
            final(self).path_view() == old(self).path_view(),
    {
        match self.state {
            LogGenState::Idle | LogGenState::Error(_) => {
                self.state = LogGenState::Running;
                true
            },
            _ => false,
        }
    }

    /// Takes in the upload's reply, if one has come while sharing is under way.
    pub fn poll_generation(&mut self, reply: Option<Result<String, String>>)
        ensures
            final(self).path_view() == old(self).path_view(),
            final(self).state_view() == polled(old(self).state_view(), reply),
    {
        match self.state {
            LogGenState::Running => match reply {
                Some(Ok(url)) => {
                    self.state = LogGenState::Done(url);
                },
                Some(Err(e)) => {
                    self.state = LogGenState::Error(e);
                },
                None => {},
            },
            _ => {},
        }
    }

    /// Esc or `q` go back two pages, Enter leaves the installer, `g` or `G`
    /// start sharing the log; the flag tells whether the upload must start.
    pub fn handle_key(&mut self, key: Key) -> (r: (PageSignal, bool))
        ensures
            final(self).path_view() == old(self).path_view(),
            key == Key::Esc || key == Key::Char('q') ==> r.0 == PageSignal::PopCount(2) && !r.1
                && final(self).state_view() == old(self).state_view(),
            key == Key::Enter ==> r.0 == PageSignal::Quit && !r.1 && final(self).state_view()
                == old(self).state_view(),
            key == Key::Char('g') || key == Key::Char('G') ==> r.0 == PageSignal::Wait && (
            final(self).state_view(), r.1) == started(old(self).state_view()),
            !(key == Key::Esc || key == Key::Char('q') || key == Key::Enter || key == Key::Char('g')
                || key == Key::Char('G')) ==> r.0 == PageSignal::Wait && !r.1 && final(self).state_view()
                == old(self).state_view(),
    {
        match key {
            Key::Esc | Key::Char('q') => (PageSignal::PopCount(2), false),
            Key::Enter => (PageSignal::Quit, false),
            Key::Char('g') | Key::Char('G') => {
                let started = self.start_generation();
                (PageSignal::Wait, started)
            },
            _ => (PageSignal::Wait, false),
        }
    }
}

// ---------------------------------------------------------------------------
// The main menu
// ---------------------------------------------------------------------------

/// What the main menu knows of the configuration: which options are set.
#[derive(Clone, Copy, Debug)]
pub struct ConfigStatus {
    pub basesystem: bool,
    pub timezone: bool,
    pub keyboard_layout: bool,
    pub locale: bool,
    /// Some disk was found.
    pub drives_found: bool,
    pub drive_config: bool,
    pub hostname: bool,
    pub root_password: bool,
    /// At least one user account.
    pub users: bool,
    pub desktop_environment: bool,
    pub display_manager: bool,
    pub design: bool,
}

/// The options that the installation cannot do without: every option of
/// the menu is set, a disk was found and a drive configuration chosen.
pub open spec fn requirements_met(s: ConfigStatus) -> bool {
    &&& s.basesystem && s.timezone && s.keyboard_layout && s.locale
    &&& s.drives_found && s.drive_config
    &&& s.hostname && s.root_password && s.users
    &&& s.desktop_environment && s.display_manager && s.design
}

/// No name is missing exactly when no check is marked missing.
pub proof fn lemma_missing_names_empty(checks: Seq<(bool, &'static str)>)
    ensures
        (missing_names(checks).len() == 0) <==> (forall|i: int| 0 <= i < checks.len() ==> !(#[trigger] checks[i]).0),
    decreases checks.len(),
{
    if checks.len() > 0 {
        lemma_missing_names_empty(checks.drop_last());
        assert forall|i: int| 0 <= i < checks.len() - 1 implies checks[i] == #[trigger] checks.drop_last()[i] by {}
        if missing_names(checks).len() == 0 {
            assert forall|i: int| 0 <= i < checks.len() implies !(#[trigger] checks[i]).0 by {
                if i < checks.len() - 1 {
                    assert(checks[i] == checks.drop_last()[i]);
                }
            }
        }
        if forall|i: int| 0 <= i < checks.len() ==> !(#[trigger] checks[i]).0 {
            assert(!checks.last().0);
            assert forall|i: int| 0 <= i < checks.drop_last().len() implies !(#[trigger] checks.drop_last()[i]).0 by {
                assert(checks.drop_last()[i] == checks[i]);
            }
        }
    }
}

/// The requirements are met exactly when the requirements box lists nothing missing.
pub proof fn lemma_requirements_listed(s: ConfigStatus)
    ensures
        requirements_met(s) <==> missing_options(s).len() == 0,
{
    let c = requirement_checks(s);
    lemma_missing_names_empty(c);
    if missing_options(s).len() == 0 {
        assert(!c[0].0 && !c[1].0 && !c[2].0 && !c[3].0 && !c[4].0 && !c[5].0);
        assert(!c[6].0 && !c[7].0 && !c[8].0 && !c[9].0 && !c[10].0);
    }
    if requirements_met(s) {
        assert forall|i: int| 0 <= i < c.len() implies !(#[trigger] c[i]).0 by {}
    }
}

/// Each required option with whether it is missing, in menu order.
pub open spec fn requirement_checks(s: ConfigStatus) -> Seq<(bool, &'static str)> {
    seq![
        (!s.basesystem, " - Base System"),
        (!s.timezone, " - Timezone"),
        (!s.keyboard_layout, " - Keyboard Layout"),
        (!s.locale, " - Locale"),
        (!s.drives_found || !s.drive_config, " - Drive Configuration"),
        (!s.hostname, " - Hostname"),
        (!s.root_password, " - Root Password"),
        (!s.users, " - At least one User Account"),
        (!s.desktop_environment, " - Desktop Environment"),
        (!s.display_manager, " - Display Manager"),
        (!s.design, " - Design"),
    ]
}

/// The names of the checks that are missing, in order.
pub open spec fn missing_names(checks: Seq<(bool, &'static str)>) -> Seq<&'static str>
    decreases checks.len(),
{
    if checks.len() == 0 {
        Seq::empty()
    } else {
        missing_names(checks.drop_last()) + (if checks.last().0 {
            seq![checks.last().1]
        } else {
            seq![]
        })
    }
}

/// The required options not yet set, in menu order.
pub open spec fn missing_options(s: ConfigStatus) -> Seq<&'static str> {
    missing_names(requirement_checks(s))
}

/// The lines of the "Required Config" box: the missing options between an
/// introduction and a request, or a line saying that nothing is missing.
pub open spec fn requirement_lines(s: ConfigStatus) -> Seq<&'static str> {
    if missing_options(s).len() == 0 {
        seq!["All required options have been configured!"]
    } else {
        seq!["The following required options are not yet configured:"] + missing_options(s) + seq![
            "Please configure them before proceeding.",
        ]
    }
}

impl ConfigStatus {
    /// The installation can start: every required option is set, which is
    /// when the requirements box lists none as missing.
    pub fn has_all_requirements(&self) -> (r: bool)
        ensures
            r == requirements_met(*self),
            r == (missing_options(*self).len() == 0),
    {
        proof {
            lemma_requirements_listed(*self);
        }
        self.basesystem && self.timezone && self.keyboard_layout && self.locale && self.drives_found
            && self.drive_config && self.hostname && self.root_password && self.users
            && self.desktop_environment && self.display_manager && self.design
    }

    /// The lines of the box that lists the required options still missing.
    pub fn remaining_requirements(&self) -> (r: Vec<&'static str>)
        ensures
            r@ == requirement_lines(*self),
    {
        let checks = vec![
            (!self.basesystem, " - Base System"),
            (!self.timezone, " - Timezone"),
            (!self.keyboard_layout, " - Keyboard Layout"),
            (!self.locale, " - Locale"),
            (!self.drives_found || !self.drive_config, " - Drive Configuration"),
            (!self.hostname, " - Hostname"),
            (!self.root_password, " - Root Password"),
            (!self.users, " - At least one User Account"),
            (!self.desktop_environment, " - Desktop Environment"),
            (!self.display_manager, " - Display Manager"),
            (!self.design, " - Design"),
        ];
        assert(checks@ =~= requirement_checks(*self));
        let mut missing: Vec<&'static str> = Vec::new();
        let mut i: usize = 0;
        while i < checks.len()
            invariant
                i <= checks@.len(),
                missing@ == missing_names(checks@.take(i as int)),
            decreases checks@.len() - i,
        {
            assert(checks@.take(i + 1).drop_last() =~= checks@.take(i as int));
            if checks[i].0 {
                missing.push(checks[i].1);
            }
            proof {
                let t = checks@.take(i + 1);
                assert(t.last() == checks@[i as int]);
            }
            assert(missing@ =~= missing_names(checks@.take(i + 1)));
            i = i + 1;
        }
        assert(checks@.take(checks@.len() as int) =~= checks@);
        if missing.len() == 0 {
            vec!["All required options have been configured!"]
        } else {
            let mut lines = vec!["The following required options are not yet configured:"];
            lines.append(&mut missing);
            lines.push("Please configure them before proceeding.");
            assert(lines@ =~= requirement_lines(*self));
            lines
        }
    }
}

/// What the main menu asks for after a key press.
#[derive(Clone, Copy, Debug, PartialEq, Eq, Structural)]
pub enum MenuSignal {
    Wait,
    Quit,
    /// Open the page of this option.
    Open(MenuPages),
    /// Show the configuration before installing.
    Preview,
}

/// The main menu: the list of options, the Done and Abort buttons below it,
/// the help window and the flashing of the requirements box.
pub struct Menu {
    pub menu_items: StrList,
    /// The buttons have the focus.
    pub buttons_focused: bool,
    /// The button under the cursor: 0 is Done, 1 is Abort.
    pub button: usize,
    pub help_visible: bool,
    pub border_flash_timer: u32,
}

/// The menu with the given fields changed.
pub open spec fn menu_with(
    m: Menu,
    selected: usize,
    list_focused: bool,
    buttons_focused: bool,
    button: usize,
    help_visible: bool,
    flash: u32,
) -> Menu {
    Menu {
        menu_items: StrList { selected_idx: selected, focused: list_focused, ..m.menu_items },
        buttons_focused,
        button,
        help_visible,
        border_flash_timer: flash,
    }
}

/// The titles of the menu's options, in order.
pub open spec fn menu_titles() -> Seq<Seq<char>> {
    supported_pages_spec().map_values(|p: MenuPages| page_title(p))
}

/// The menu after a key press and what it asks for; `ready` tells whether
/// the installation's requirements are met.
pub open spec fn menu_step(m: Menu, key: Key, ready: bool) -> (Menu, MenuSignal) {
    let sel = m.menu_items.selected_idx;
    let lf = m.menu_items.focused;
    let bf = m.buttons_focused;
    let b = m.button;
    let h = m.help_visible;
    let t = m.border_flash_timer;
    let rows = m.menu_items.filtered_items@.len();
    let n = m.menu_items.items@.len();
    let last = if n > 0 { (n - 1) as usize } else { 0usize };
    if key == Key::Char('?') {
        (menu_with(m, sel, lf, bf, b, !h, t), MenuSignal::Wait)
    } else if h {
        if key == Key::Esc {
            (menu_with(m, sel, lf, bf, b, false, t), MenuSignal::Wait)
        } else {
            (m, MenuSignal::Wait)
        }
    } else if key == Key::Char('q') {
        (m, MenuSignal::Quit)
    } else if key == Key::Home || key == Key::Char('g') {
        if lf {
            (menu_with(m, 0, lf, bf, b, h, t), MenuSignal::Wait)
        } else {
            (menu_with(m, 0, true, false, b, h, t), MenuSignal::Wait)
        }
    } else if key == Key::End || key == Key::Char('G') {
        if lf {
            (menu_with(m, sel, false, true, b, h, t), MenuSignal::Wait)
        } else {
            (m, MenuSignal::Wait)
        }
    } else if key == Key::Up || key == Key::Char('k') {
        if lf {
            if sel > 0 {
                (menu_with(m, (sel - 1) as usize, lf, bf, b, h, t), MenuSignal::Wait)
            } else {
                (menu_with(m, sel, false, true, b, h, t), MenuSignal::Wait)
            }
        } else {
            (menu_with(m, last, true, false, b, h, t), MenuSignal::Wait)
        }
    } else if key == Key::Down || key == Key::Char('j') {
        if lf {
            if sel + 1 < rows {
                (menu_with(m, (sel + 1) as usize, lf, bf, b, h, t), MenuSignal::Wait)
            } else {
                (menu_with(m, sel, false, true, b, h, t), MenuSignal::Wait)
            }
        } else {
            (menu_with(m, 0, true, false, b, h, t), MenuSignal::Wait)
        }
    } else if (key == Key::Enter || key == Key::Right || key == Key::Char('l')) && lf {
        if sel < supported_pages_spec().len() {
            (m, MenuSignal::Open(supported_pages_spec()[sel as int]))
        } else {
            (m, MenuSignal::Wait)
        }
    } else if key == Key::Right || key == Key::Char('l') {
        if bf && b + 1 < 2 {
            (menu_with(m, sel, lf, bf, (b + 1) as usize, h, t), MenuSignal::Wait)
        } else {
            (m, MenuSignal::Wait)
        }
    } else if key == Key::Left || key == Key::Char('h') {
        if bf && b > 0 {
            (menu_with(m, sel, lf, bf, (b - 1) as usize, h, t), MenuSignal::Wait)
        } else {
            (m, MenuSignal::Wait)
        }
    } else if key == Key::Enter {
        if bf {
            if b == 0 {
                if ready {
                    (m, MenuSignal::Preview)
                } else {
                    (menu_with(m, sel, lf, bf, b, h, 6), MenuSignal::Wait)
                }
            } else if b == 1 {
                (m, MenuSignal::Quit)
            } else {
                (m, MenuSignal::Wait)
            }
        } else {
            (menu_with(m, sel, true, bf, b, h, t), MenuSignal::Wait)
        }
    } else {
        (m, MenuSignal::Wait)
    }
}

impl Menu {
    /// The menu over the supported options, with the list focused.
    pub fn new() -> (r: Self)
        ensures
            r.menu_items.items@.map_values(|s: String| s@) == menu_titles(),
            r.menu_items.rows_ok(),
            r.menu_items.filter is None,
            r.menu_items.selected_idx == 0,
            r.menu_items.focused,
            !r.buttons_focused,
            r.button == 0,
            !r.help_visible,
            r.border_flash_timer == 0,
    {
        let pages = MenuPages::supported_pages();
        let mut items: Vec<String> = Vec::new();
        let mut i: usize = 0;
        while i < pages.len()
            invariant
                i <= pages@.len(),
                pages@ == supported_pages_spec(),
                items@.map_values(|s: String| s@) == pages@.take(i as int).map_values(|p: MenuPages| page_title(p)),
            decreases pages@.len() - i,
        {
            let ghost before = items@;
            let t = owned(pages[i].title());
            items.push(t);
            assert(items@.map_values(|s: String| s@) =~= before.map_values(|s: String| s@).push(t@));
            assert(pages@.take(i + 1) =~= pages@.take(i as int).push(pages@[i as int]));
            i = i + 1;
        }
        assert(pages@.take(pages@.len() as int) =~= pages@);
        let mut menu_items = StrList::new(owned("Main Menu"), items);
        menu_items.focus();
        Menu { menu_items, buttons_focused: false, button: 0, help_visible: false, border_flash_timer: 0 }
    }

    /// Handles a key (see `menu_step`); Done opens the preview only when the
    /// installation's requirements are met, and makes the requirements box
    /// flash otherwise.
    pub fn handle_key(&mut self, status: &ConfigStatus, key: Key) -> (r: MenuSignal)
        ensures
            (*final(self), r) == menu_step(*old(self), key, requirements_met(*status)),
    {
        let ghost m0 = *self;
        if key == Key::Char('?') {
            self.help_visible = !self.help_visible;
            return MenuSignal::Wait;
        }
        if self.help_visible {
            if key == Key::Esc {
                self.help_visible = false;
            }
            return MenuSignal::Wait;
        }
        let enter_like = key == Key::Enter || key == Key::Right || key == Key::Char('l');
        if enter_like && self.menu_items.is_focused() && !(key == Key::Char('q') || key == Key::Home || key
            == Key::Char('g') || key == Key::End || key == Key::Char('G') || key == Key::Up || key == Key::Char(
            'k',
        ) || key == Key::Down || key == Key::Char('j')) {
            let idx = self.menu_items.selected_idx;
            let pages = MenuPages::supported_pages();
            if idx < pages.len() {
                return MenuSignal::Open(pages[idx]);
            } else {
                return MenuSignal::Wait;
            }
        }
        match key {
            Key::Char('q') => MenuSignal::Quit,
            Key::Home | Key::Char('g') => {
                if self.menu_items.is_focused() {
                    self.menu_items.first_item();
                } else {
                    self.menu_items.first_item();
                    self.menu_items.focus();
                    self.buttons_focused = false;
                }
                MenuSignal::Wait
            },
            Key::End | Key::Char('G') => {
                if self.menu_items.is_focused() {
                    self.buttons_focused = true;
                    self.menu_items.unfocus();
                }
                MenuSignal::Wait
            },
            Key::Up | Key::Char('k') => {
                if self.menu_items.is_focused() {
                    if !self.menu_items.previous_item() {
                        self.menu_items.unfocus();
                        self.buttons_focused = true;
                    }
                } else {
                    self.menu_items.last_item();
                    self.menu_items.focus();
                    self.buttons_focused = false;
                }
                MenuSignal::Wait
            },
            Key::Down | Key::Char('j') => {
                if self.menu_items.is_focused() {
                    if !self.menu_items.next_item() {
                        self.menu_items.unfocus();
                        self.buttons_focused = true;
                    }
                } else {
                    self.menu_items.first_item();
                    self.menu_items.focus();
                    self.buttons_focused = false;
                }
                MenuSignal::Wait
            },
            Key::Right | Key::Char('l') => {
                if self.buttons_focused && self.button < 1 {
                    self.button = self.button + 1;
                }
                MenuSignal::Wait
            },
            Key::Left | Key::Char('h') => {
                if self.buttons_focused && self.button > 0 {
                    self.button = self.button - 1;
                }
                MenuSignal::Wait
            },
            Key::Enter => {
                if self.buttons_focused {
                    if self.button == 0 {
                        if status.has_all_requirements() {
                            MenuSignal::Preview
                        } else {
                            self.border_flash_timer = 6;
                            MenuSignal::Wait
                        }
                    } else if self.button == 1 {
                        MenuSignal::Quit
                    } else {
                        MenuSignal::Wait
                    }
                } else {
                    self.menu_items.focus();
                    MenuSignal::Wait
                }
            },
            _ => MenuSignal::Wait,
        }
    }
}

} // verus!
