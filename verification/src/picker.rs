//! The package picker: the selected packages on the left, the available ones
//! on the right under a search bar, and the page that shows it.
use vstd::prelude::*;
use crate::drives::opt_view;
use crate::packages::{fuzzy_matches, moved_to_available, moved_to_selected, ranked_by_score, PackageManager};
use crate::passwords::{editor_ok, key_edited};
use crate::text::{owned, strictly_sorted, strings_view, to_chars};
use crate::widgets::{Key, LineEditor, OptimizedStrList};

verus! {

/// The names a list shows.
pub open spec fn items_of(l: OptimizedStrList) -> Seq<Seq<char>> {
    strings_view(l.items@)
}

/// Every available package, by name.
pub open spec fn lists_available(m: PackageManager, items: Seq<Seq<char>>) -> bool {
    strictly_sorted(items) && items.to_set() == m.available_view().dom()
}

/// Every selected package, by name.
pub open spec fn lists_selected(m: PackageManager, items: Seq<Seq<char>>) -> bool {
    strictly_sorted(items) && items.to_set() == m.selected_view().dom()
}

/// The results of the last search, or every available package when no search was made.
pub open spec fn lists_current(m: PackageManager, items: Seq<Seq<char>>) -> bool {
    if m.filter_view() is Some {
        ranked_by_score(m.cache_view(), items)
    } else {
        lists_available(m, items)
    }
}

/// The search for `p`: the packages stay where they are and the results are
/// those of the last search when it had the same pattern, else computed anew.
pub open spec fn searched(a: PackageManager, b: PackageManager, p: Seq<char>) -> bool {
    &&& b.wf()
    &&& b.filter_view() == Some(p)
    &&& b.available_view() == a.available_view()
    &&& b.selected_view() == a.selected_view()
    &&& a.filter_view() == Some(p) ==> b.cache_view() == a.cache_view()
    &&& a.filter_view() != Some(p) ==> b.cache_view() == fuzzy_matches(a.available_view(), p)
}

/// `i` kept within a list of `n` items.
pub open spec fn clamp_idx(i: usize, n: nat) -> usize {
    if n == 0 {
        0
    } else if i >= n {
        (n - 1) as usize
    } else {
        i
    }
}

/// Two lists of packages under a search bar.
pub struct PackagePicker {
    pub focused: bool,
    pub package_manager: PackageManager,
    pub selected: OptimizedStrList,
    pub available: OptimizedStrList,
    pub search_bar: LineEditor,
    pub help_visible: bool,
    pub current_filter: Option<String>,
}

/// The picker with the focus on the search bar (`s`), the available list
/// (`av`) or the selected list (`se`).
pub open spec fn picker_focus(a: PackagePicker, s: bool, av: bool, se: bool) -> PackagePicker {
    PackagePicker {
        search_bar: LineEditor { focused: s, ..a.search_bar },
        available: OptimizedStrList { focused: av, ..a.available },
        selected: OptimizedStrList { focused: se, ..a.selected },
        ..a
    }
}

/// The picker after the filter `f` is applied (none: every available package).
pub open spec fn refiltered(a: PackagePicker, b: PackagePicker, f: Option<Seq<char>>) -> bool {
    &&& opt_view(b.current_filter) == f
    &&& b.available == OptimizedStrList { items: b.available.items, selected_idx: 0, ..a.available }
    &&& b == PackagePicker {
        current_filter: b.current_filter,
        available: b.available,
        package_manager: b.package_manager,
        ..a
    }
    &&& match f {
        None => b.package_manager == a.package_manager && lists_available(a.package_manager, items_of(b.available)),
        Some(p) => searched(a.package_manager, b.package_manager, p) && ranked_by_score(
            b.package_manager.cache_view(),
            items_of(b.available),
        ),
    }
}

/// Enter on the available list: the highlighted package moves to the selection.
pub open spec fn picked(a: PackagePicker, b: PackagePicker) -> bool {
    let idx = a.available.selected_idx;
    if idx < a.available.items@.len() {
        let pkg = a.available.items@[idx as int]@;
        if a.package_manager.available_view().dom().contains(pkg) {
            &&& moved_to_selected(a.package_manager, b.package_manager, pkg, true)
            &&& b.package_manager.wf()
            &&& lists_selected(b.package_manager, items_of(b.selected))
            &&& lists_current(b.package_manager, items_of(b.available))
            &&& b == PackagePicker {
                package_manager: b.package_manager,
                selected: OptimizedStrList {
                    items: b.selected.items,
                    selected_idx: clamp_idx(a.selected.selected_idx, b.selected.items@.len()),
                    ..a.selected
                },
                available: OptimizedStrList {
                    items: b.available.items,
                    selected_idx: clamp_idx(idx, b.available.items@.len()),
                    ..a.available
                },
                ..a
            }
        } else {
            moved_to_selected(a.package_manager, b.package_manager, pkg, false) && b.package_manager.wf()
                && b == PackagePicker { package_manager: b.package_manager, ..a }
        }
    } else {
        b == a
    }
}

/// Enter on the selected list: the highlighted package goes back to the available ones.
pub open spec fn dropped(a: PackagePicker, b: PackagePicker) -> bool {
    let idx = a.selected.selected_idx;
    if idx < a.selected.items@.len() {
        let pkg = a.selected.items@[idx as int]@;
        if a.package_manager.selected_view().dom().contains(pkg) {
            &&& moved_to_available(a.package_manager, b.package_manager, pkg, true)
            &&& b.package_manager.wf()
            &&& lists_selected(b.package_manager, items_of(b.selected))
            &&& lists_current(b.package_manager, items_of(b.available))
            &&& b == PackagePicker {
                package_manager: b.package_manager,
                selected: OptimizedStrList {
                    items: b.selected.items,
                    selected_idx: clamp_idx(idx, b.selected.items@.len()),
                    ..a.selected
                },
                available: OptimizedStrList {
                    items: b.available.items,
                    selected_idx: clamp_idx(a.available.selected_idx, b.available.items@.len()),
                    ..a.available
                },
                ..a
            }
        } else {
            moved_to_available(a.package_manager, b.package_manager, pkg, false) && b.package_manager.wf()
                && b == PackagePicker { package_manager: b.package_manager, ..a }
        }
    } else {
        b == a
    }
}

/// The key, when it reaches the search bar, can be taken there.
pub open spec fn picker_takes(a: PackagePicker, key: Key) -> bool {
    key != Key::Char('?') && key != Key::Left && key != Key::Right && !a.help_visible && !(key == Key::Char('/')
        && !a.search_bar.focused) && a.search_bar.focused && key != Key::Enter && key != Key::Tab && key
        != Key::Down && key != Key::Esc ==> a.search_bar.takes(key)
}

/// A key on the picker.
pub open spec fn picker_step(a: PackagePicker, b: PackagePicker, key: Key) -> bool {
    let s = a.search_bar.focused;
    let av = a.available.focused;
    let se = a.selected.focused;
    if key == Key::Char('?') {
        b == PackagePicker { help_visible: !a.help_visible, ..a }
    } else if key == Key::Left {
        b == (if av || s { picker_focus(a, false, false, true) } else if se { picker_focus(a, true, false, false) } else { a })
    } else if key == Key::Right {
        b == (if se { picker_focus(a, false, true, false) } else if av { picker_focus(a, true, false, false) } else if s {
            picker_focus(a, false, true, false)
        } else {
            a
        })
    } else if a.help_visible {
        b == PackagePicker { help_visible: key != Key::Esc, ..a }
    } else if key == Key::Char('/') && !s {
        &&& b.search_bar.value@.len() == 0 && b.search_bar.cursor == 0 && b.search_bar.error is None
        &&& b.search_bar == LineEditor {
            value: b.search_bar.value,
            cursor: 0,
            error: None,
            focused: true,
            ..a.search_bar
        }
        &&& b == PackagePicker { search_bar: b.search_bar, ..picker_focus(a, true, false, false) }
    } else if s {
        if key == Key::Enter || key == Key::Tab || key == Key::Down {
            b == picker_focus(a, false, true, false)
        } else if key == Key::Esc {
            let a1 = PackagePicker { search_bar: b.search_bar, ..picker_focus(a, false, true, false) };
            &&& b.search_bar == LineEditor { value: b.search_bar.value, cursor: 0, error: None, focused: false, ..a.search_bar }
            &&& b.search_bar.value@.len() == 0
            &&& refiltered(a1, b, None)
        } else {
            let a1 = PackagePicker { search_bar: b.search_bar, ..a };
            let text = b.search_bar.value@;
            &&& key_edited(a.search_bar, b.search_bar, key)
            &&& refiltered(a1, b, if text.len() == 0 { None } else { Some(text) })
        }
    } else if se {
        if key == Key::Down || key == Key::Char('j') {
            b == PackagePicker {
                selected: OptimizedStrList {
                    selected_idx: if a.selected.selected_idx + 1 < a.selected.items@.len() {
                        (a.selected.selected_idx + 1) as usize
                    } else {
                        a.selected.selected_idx
                    },
                    ..a.selected
                },
                ..a
            }
        } else if key == Key::Up || key == Key::Char('k') {
            if a.selected.selected_idx > 0 {
                b == PackagePicker {
                    selected: OptimizedStrList { selected_idx: (a.selected.selected_idx - 1) as usize, ..a.selected },
                    ..a
                }
            } else {
                b == PackagePicker {
                    search_bar: LineEditor { focused: true, ..a.search_bar },
                    selected: OptimizedStrList { focused: false, ..a.selected },
                    ..a
                }
            }
        } else if key == Key::Tab {
            b == picker_focus(a, false, true, false)
        } else if key == Key::Enter {
            dropped(a, b)
        } else {
            b == a
        }
    } else if av {
        if key == Key::Down || key == Key::Char('j') {
            b == PackagePicker {
                available: OptimizedStrList {
                    selected_idx: if a.available.selected_idx + 1 < a.available.items@.len() {
                        (a.available.selected_idx + 1) as usize
                    } else {
                        a.available.selected_idx
                    },
                    ..a.available
                },
                ..a
            }
        } else if key == Key::Up || key == Key::Char('k') {
            if a.available.selected_idx > 0 {
                b == PackagePicker {
                    available: OptimizedStrList { selected_idx: (a.available.selected_idx - 1) as usize, ..a.available },
                    ..a
                }
            } else {
                b == PackagePicker {
                    search_bar: LineEditor { focused: true, ..a.search_bar },
                    available: OptimizedStrList { focused: false, ..a.available },
                    ..a
                }
            }
        } else if key == Key::Tab {
            b == picker_focus(a, false, false, true)
        } else if key == Key::Enter {
            picked(a, b)
        } else {
            b == a
        }
    } else {
        b == picker_focus(a, false, true, false)
    }
}

impl PackagePicker {
    /// The package sets are consistent and the search cursor lies within its text.
    pub open spec fn wf(&self) -> bool {
        self.package_manager.wf() && editor_ok(self.search_bar)
    }

    /// A picker over `available_pkgs` with `selected_pkgs` chosen, the
    /// search bar focused.
    pub fn new(
        title_selected: &str,
        title_available: &str,
        selected_pkgs: Vec<String>,
        available_pkgs: Vec<String>,
    ) -> (r: Self)
        ensures
            r.wf(),
            !r.focused && !r.help_visible && r.current_filter is None,
            r.package_manager.filter_view() is None,
            r.package_manager.available_view() == crate::packages::last_positions(strings_view(available_pkgs@)).remove_keys(
                strings_view(selected_pkgs@).to_set(),
            ),
            r.package_manager.selected_view() == crate::packages::last_positions(strings_view(available_pkgs@)).restrict(
                strings_view(selected_pkgs@).to_set(),
            ),
            lists_available(r.package_manager, items_of(r.available)),
            lists_selected(r.package_manager, items_of(r.selected)),
            r.available.title@ == title_available@ && r.selected.title@ == title_selected@,
            r.available.selected_idx == 0 && r.selected.selected_idx == 0,
            r.available.filter is None && r.selected.filter is None,
            !r.available.focused && !r.selected.focused,
            r.search_bar.title@ == "Search"@ && r.search_bar.focused,
            r.search_bar.placeholder matches Some(p) && p@ == "Enter a package name..."@,
            r.search_bar.value@.len() == 0 && r.search_bar.cursor == 0 && r.search_bar.error is None,
    {
        let package_manager = PackageManager::new(available_pkgs, selected_pkgs);
        let available = OptimizedStrList::new(owned(title_available), package_manager.get_available_packages());
        let selected = OptimizedStrList::new(owned(title_selected), package_manager.get_selected_packages());
        let mut search_bar = LineEditor::new(owned("Search"), Some(owned("Enter a package name...")));
        search_bar.focus();
        PackagePicker {
            focused: false,
            package_manager,
            selected,
            available,
            search_bar,
            help_visible: false,
            current_filter: None,
        }
    }

    pub fn get_selected_packages(&self) -> (r: Vec<String>)
        requires
            self.wf(),
        ensures
            lists_selected(self.package_manager, strings_view(r@)),
    {
        self.package_manager.get_selected_packages()
    }

    pub fn get_available_packages(&self) -> (r: Vec<String>)
        requires
            self.wf(),
        ensures
            lists_available(self.package_manager, strings_view(r@)),
    {
        self.package_manager.get_available_packages()
    }

    fn focus_available(&mut self)
        ensures
            *final(self) == picker_focus(*old(self), false, true, false),
    {
        self.available.focus();
        self.search_bar.unfocus();
        self.selected.unfocus();
    }

    fn focus_selected(&mut self)
        ensures
            *final(self) == picker_focus(*old(self), false, false, true),
    {
        self.selected.focus();
        self.search_bar.unfocus();
        self.available.unfocus();
    }

    /// Focuses the search bar.
    pub fn focus_search(&mut self)
        requires
            old(self).wf(),
        ensures
            *final(self) == picker_focus(*old(self), true, false, false),
    {
        self.search_bar.focus();
        self.available.unfocus();
        self.selected.unfocus();
    }

    /// Focuses the picker on its search bar.
    pub fn focus(&mut self)
        requires
            old(self).wf(),
        ensures
            *final(self) == (PackagePicker { focused: true, ..picker_focus(*old(self), true, false, false) }),
    {
        self.focused = true;
        self.focus_search();
    }

    pub fn unfocus(&mut self)
        ensures
            *final(self) == (PackagePicker { focused: false, ..picker_focus(*old(self), false, false, false) }),
    {
        self.focused = false;
        self.search_bar.unfocus();
        self.available.unfocus();
        self.selected.unfocus();
    }

    pub fn is_focused(&self) -> (r: bool)
        ensures
            r == self.focused,
    {
        self.focused
    }

    fn update_available_list(&mut self)
        requires
            old(self).wf(),
        ensures
            final(self).wf(),
            lists_current(final(self).package_manager, items_of(final(self).available)),
            *final(self) == (PackagePicker {
                available: OptimizedStrList {
                    items: final(self).available.items,
                    selected_idx: clamp_idx(old(self).available.selected_idx, final(self).available.items@.len()),
                    ..old(self).available
                },
                ..*old(self)
            }),
    {
        let items = self.package_manager.get_current_available();
        self.available.set_items(items);
    }

    /// Filters the available packages by `filter` (all of them when none)
    /// and highlights the first.
    pub fn set_filter(&mut self, filter: Option<String>)
        requires
            old(self).wf(),
        ensures
            final(self).wf(),
            refiltered(*old(self), *final(self), opt_view(filter)),
    {
        self.current_filter = match &filter {
            Some(f) => Some(f.clone()),
            None => None,
        };
        let items = match filter {
            Some(f) => self.package_manager.get_available_filtered(f.as_str()),
            None => self.package_manager.get_available_packages(),
        };
        self.available.set_items(items);
        self.available.selected_idx = 0;
    }

    fn pick(&mut self)
        requires
            old(self).wf(),
        ensures
            final(self).wf(),
            picked(*old(self), *final(self)),
    {
        let idx = self.available.selected_idx;
        let pkg = match self.available.selected_item() {
            Some(p) => p.clone(),
            None => return,
        };
        if self.package_manager.move_to_selected(pkg.as_str()) {
            let sel = self.package_manager.get_selected_packages();
            self.selected.set_items(sel);
            self.update_available_list();
            let n = self.available.len();
            self.available.selected_idx = if n == 0 { 0 } else if idx >= n { n - 1 } else { idx };
        }
    }

    fn drop_selected(&mut self)
        requires
            old(self).wf(),
        ensures
            final(self).wf(),
            dropped(*old(self), *final(self)),
    {
        let idx = self.selected.selected_idx;
        let pkg = match self.selected.selected_item() {
            Some(p) => p.clone(),
            None => return,
        };
        if self.package_manager.move_to_available(pkg.as_str()) {
            let sel = self.package_manager.get_selected_packages();
            self.selected.set_items(sel);
            self.update_available_list();
            let n = self.selected.len();
            self.selected.selected_idx = if n == 0 { 0 } else if idx >= n { n - 1 } else { idx };
        }
    }

    /// A key on the picker (see `picker_step`): `?` and the help; Left and
    /// Right move between the panes; `/` opens an emptied search; typing
    /// filters; Enter moves the highlighted package between the lists.
    pub fn handle_key(&mut self, key: Key)
        requires
            old(self).wf(),
            picker_takes(*old(self), key),
        ensures
            final(self).wf(),
            picker_step(*old(self), *final(self), key),
    {
        if key == Key::Char('?') {
            self.help_visible = !self.help_visible;
            return;
        }
        if key == Key::Left {
            if self.available.is_focused() || self.search_bar.is_focused() {
                self.focus_selected();
            } else if self.selected.is_focused() {
                self.search_bar.focus();
                self.available.unfocus();
                self.selected.unfocus();
            }
            return;
        }
        if key == Key::Right {
            if self.selected.is_focused() {
                self.focus_available();
            } else if self.available.is_focused() {
                self.search_bar.focus();
                self.available.unfocus();
                self.selected.unfocus();
            } else if self.search_bar.is_focused() {
                self.focus_available();
            }
            return;
        }
        if self.help_visible {
            if key == Key::Esc {
                self.help_visible = false;
            }
            return;
        }
        if key == Key::Char('/') && !self.search_bar.is_focused() {
            self.search_bar.focus();
            self.search_bar.clear();
            self.available.unfocus();
            self.selected.unfocus();
            return;
        }
        if self.search_bar.is_focused() {
            match key {
                Key::Enter | Key::Tab | Key::Down => {
                    self.focus_available();
                },
                Key::Esc => {
                    self.search_bar.clear();
                    self.focus_available();
                    self.set_filter(None);
                },
                _ => {
                    self.search_bar.handle_key(key);
                    let text = self.search_bar.value.clone();
                    if to_chars(text.as_str()).len() == 0 {
                        self.set_filter(None);
                    } else {
                        self.set_filter(Some(text));
                    }
                },
            }
        } else if self.selected.is_focused() {
            match key {
                Key::Down | Key::Char('j') => {
                    self.selected.next_item();
                },
                Key::Up | Key::Char('k') => {
                    if !self.selected.previous_item() {
                        self.search_bar.focus();
                        self.selected.unfocus();
                    }
                },
                Key::Tab => {
                    self.focus_available();
                },
                Key::Enter => {
                    self.drop_selected();
                },
                _ => {},
            }
        } else if self.available.is_focused() {
            match key {
                Key::Down | Key::Char('j') => {
                    self.available.next_item();
                },
                Key::Up | Key::Char('k') => {
                    if !self.available.previous_item() {
                        self.search_bar.focus();
                        self.available.unfocus();
                    }
                },
                Key::Tab => {
                    self.focus_selected();
                },
                Key::Enter => {
                    self.pick();
                },
                _ => {},
            }
        } else {
            self.focus_available();
        }
    }
}

// ---------------------------------------------------------------------------
// The extra packages page
// ---------------------------------------------------------------------------

/// What the package page asks for after a key press.
#[derive(Debug, PartialEq, Eq, Structural)]
pub enum PackagesSignal {
    Wait,
    Pop,
}

/// The page that picks extra packages.
pub struct ExtraPackages {
    pub picker: PackagePicker,
    pub help_visible: bool,
    pub inited: bool,
}

impl ExtraPackages {
    /// The page over an empty picker, filled when first shown.
    pub fn new() -> (r: Self)
        ensures
            r.picker.wf(),
            r.picker.available.items@.len() == 0 && r.picker.selected.items@.len() == 0,
            r.picker.available.title@ == "Available Packages"@,
            r.picker.selected.title@ == "Selected Packages"@,
            !r.help_visible && !r.inited,
    {
        let picker = PackagePicker::new("Selected Packages", "Available Packages", Vec::new(), Vec::new());
        proof {
            let ia = items_of(picker.available);
            let is = items_of(picker.selected);
            assert(strings_view(Seq::<String>::empty()) =~= Seq::<Seq<char>>::empty());
            assert(picker.package_manager.available_view().dom() =~= Set::<Seq<char>>::empty());
            assert(picker.package_manager.selected_view().dom() =~= Set::<Seq<char>>::empty());
            if ia.len() > 0 {
                assert(ia.to_set().contains(ia[0]));
            }
            if is.len() > 0 {
                assert(is.to_set().contains(is[0]));
            }
        }
        ExtraPackages { picker, help_visible: false, inited: false }
    }

    /// `?` shows the help; while it is shown Esc or `?` hides it and other
    /// keys do nothing; Esc, `q` or `h` stores the selected packages and
    /// leaves; other keys go to the picker.
    pub fn handle_key(&mut self, extra_packages: &mut Vec<String>, key: Key) -> (r: PackagesSignal)
        requires
            old(self).picker.wf(),
            key != Key::Char('?') && !old(self).help_visible && key != Key::Esc && key != Key::Char('q') && key
                != Key::Char('h') ==> picker_takes(old(self).picker, key),
        ensures
            final(self).picker.wf(),
            ({
                let a = *old(self);
                let b = *final(self);
                if key == Key::Char('?') {
                    b == ExtraPackages { help_visible: !a.help_visible, ..a } && r == PackagesSignal::Wait
                        && *final(extra_packages) == *old(extra_packages)
                } else if a.help_visible {
                    b == ExtraPackages { help_visible: key != Key::Esc, ..a } && r == PackagesSignal::Wait
                        && *final(extra_packages) == *old(extra_packages)
                } else if key == Key::Esc || key == Key::Char('q') || key == Key::Char('h') {
                    b == a && r == PackagesSignal::Pop && lists_selected(
                        a.picker.package_manager,
                        strings_view(final(extra_packages)@),
                    )
                } else {
                    b == ExtraPackages { picker: b.picker, ..a } && picker_step(a.picker, b.picker, key)
                        && r == PackagesSignal::Wait && *final(extra_packages) == *old(extra_packages)
                }
            }),
    {
        if key == Key::Char('?') {
            self.help_visible = !self.help_visible;
            return PackagesSignal::Wait;
        }
        if self.help_visible {
            if key == Key::Esc {
                self.help_visible = false;
            }
            return PackagesSignal::Wait;
        }
        if key == Key::Esc || key == Key::Char('q') || key == Key::Char('h') {
            *extra_packages = self.picker.get_selected_packages();
            return PackagesSignal::Pop;
        }
        self.picker.handle_key(key);
        PackagesSignal::Wait
    }
}

} // verus!
