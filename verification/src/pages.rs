//! The installer's list and text pages: language, keyboard layout, locale,
//! timezone and hostname. A page changes only its own state and the one
//! setting that it is about, which it takes by `&mut`.
use vstd::prelude::*;
use crate::installer::PageSignal;
use crate::passwords::{editor_ok, key_edited, refocused};
use crate::text::{owned, owned_list, split_char, str_eq, strings_view, split_seq, to_chars, trim, trim_seq};
use crate::widgets::{opt_string_view, Key, LineEditor, StrList};

verus! {

// ---------------------------------------------------------------------------
// A list with a search bar
// ---------------------------------------------------------------------------

/// What a searchable list asks of its page after a key press.
#[derive(Debug, PartialEq, Eq, Structural)]
pub enum ListSignal {
    Wait,
    Pop,
    /// Enter on the list: the page takes the highlighted item.
    Choose,
}

/// A list of strings with a search bar that filters it, and a help text.
pub struct SearchList {
    pub list: StrList,
    pub search: LineEditor,
    pub search_focused: bool,
    pub help_visible: bool,
}

/// Up on the list: one row up, or from the top to the row of the last item.
pub open spec fn wrapped_up(l: StrList) -> usize {
    if l.selected_idx > 0 {
        (l.selected_idx - 1) as usize
    } else if l.items@.len() > 0 {
        (l.items@.len() - 1) as usize
    } else {
        0
    }
}

/// Down on the list: one visible row down, or from the last visible row to the first.
pub open spec fn wrapped_down(l: StrList) -> usize {
    if l.selected_idx + 1 < l.filtered_items@.len() {
        (l.selected_idx + 1) as usize
    } else {
        0
    }
}

/// `b` is the list `a` filtered by the search text `text` (no filter when it
/// is empty), with the first visible row highlighted.
pub open spec fn refiltered(a: StrList, b: StrList, text: Seq<char>) -> bool {
    &&& b.rows_ok()
    &&& opt_string_view(b.filter) == (if text.len() == 0 { None } else { Some(text) })
    &&& b.selected_idx == 0
    &&& b.items == a.items
    &&& b.title == a.title
    &&& b.focused == a.focused
    &&& b.committed == a.committed
    &&& b.committed_idx == a.committed_idx
}

/// `k` is Up or `k`.
pub open spec fn is_up(k: Key) -> bool {
    k == Key::Up || k == Key::Char('k')
}

/// `k` is Down or `j`.
pub open spec fn is_down(k: Key) -> bool {
    k == Key::Down || k == Key::Char('j')
}

/// `k` leaves a page: Esc or Left.
pub open spec fn is_back(k: Key) -> bool {
    k == Key::Esc || k == Key::Left
}

/// The effect of a key on a searchable list, and what it asks of the page.
pub open spec fn search_step(a: SearchList, b: SearchList, key: Key, r: ListSignal) -> bool {
    if key == Key::Char('?') {
        b == (SearchList { help_visible: !a.help_visible, ..a }) && r == ListSignal::Wait
    } else if a.help_visible {
        b == (SearchList { help_visible: key != Key::Esc, ..a }) && r == ListSignal::Wait
    } else if is_back(key) {
        b == a && r == ListSignal::Pop
    } else if key == Key::Char('/') && !a.search_focused {
        &&& b.search_focused && b.list == a.list && !b.help_visible
        &&& b.search.focused && b.search.value@.len() == 0 && b.search.cursor == 0
        &&& b.search.error is None
        &&& b.search.title == a.search.title && b.search.placeholder == a.search.placeholder
        &&& b.search.is_secret == a.search.is_secret
        &&& r == ListSignal::Wait
    } else if a.search_focused {
        if key == Key::Enter || key == Key::Tab || key == Key::Down {
            &&& !b.search_focused && !b.help_visible
            &&& refocused(a.search, b.search, false)
            &&& b.list == (StrList { focused: true, ..a.list })
            &&& r == ListSignal::Wait
        } else {
            &&& b.search_focused && !b.help_visible
            &&& key_edited(a.search, b.search, key)
            &&& refiltered(a.list, b.list, b.search.value@)
            &&& r == ListSignal::Wait
        }
    } else if key == Key::Enter {
        b == a && r == ListSignal::Choose
    } else if is_up(key) {
        b == (SearchList { list: StrList { selected_idx: wrapped_up(a.list), ..a.list }, ..a })
            && r == ListSignal::Wait
    } else if is_down(key) {
        b == (SearchList { list: StrList { selected_idx: wrapped_down(a.list), ..a.list }, ..a })
            && r == ListSignal::Wait
    } else {
        b == a && r == ListSignal::Wait
    }
}

/// The key, when it reaches the search bar, can be taken there.
pub open spec fn search_takes(a: SearchList, key: Key) -> bool {
    key != Key::Char('?') && !a.help_visible && !is_back(key) && !(key == Key::Char('/') && !a.search_focused)
        && a.search_focused && key != Key::Enter && key != Key::Tab && key != Key::Down ==> a.search.takes(key)
}

impl SearchList {
    /// The list's rows follow its filter and the search cursor lies within its text.
    pub open spec fn wf(&self) -> bool {
        self.list.rows_ok() && editor_ok(self.search)
    }

    /// A list of `items` titled `title`, unfiltered, with the search bar focused.
    pub fn new(title: &str, items: Vec<String>) -> (r: Self)
        ensures
            r.wf(),
            r.list.title@ == title@,
            r.list.items == items,
            r.list.filter is None,
            r.list.selected_idx == 0,
            !r.list.focused,
            r.search.title@ == "Search (press '/' to focus)"@,
            r.search.placeholder matches Some(p) && p@ == "Type to filter..."@,
            r.search.focused && !r.search.is_secret,
            r.search.value@.len() == 0 && r.search.cursor == 0 && r.search.error is None,
            r.search_focused,
            !r.help_visible,
    {
        let list = StrList::new(owned(title), items);
        let mut search = LineEditor::new(
            owned("Search (press '/' to focus)"),
            Some(owned("Type to filter...")),
        );
        search.focus();
        SearchList { list, search, search_focused: true, help_visible: false }
    }

    /// `?` shows or hides the help, which takes every key while shown (Esc
    /// hides it); Esc or Left leaves; `/` moves to an emptied search bar;
    /// in the search bar Enter, Tab and Down return to the list and other
    /// keys edit the text, which filters the list (no filter when empty);
    /// on the list Up and Down move the highlight, wrapping round, and Enter
    /// asks the page to take the highlighted item.
    pub fn handle_key(&mut self, key: Key) -> (r: ListSignal)
        requires
            old(self).wf(),
            search_takes(*old(self), key),
        ensures
            final(self).wf(),
            search_step(*old(self), *final(self), key, r),
    {
        if key == Key::Char('?') {
            self.help_visible = !self.help_visible;
            return ListSignal::Wait;
        }
        if self.help_visible {
            if key == Key::Esc {
                self.help_visible = false;
            }
            return ListSignal::Wait;
        }
        if key == Key::Esc || key == Key::Left {
            return ListSignal::Pop;
        }
        if key == Key::Char('/') && !self.search_focused {
            self.search_focused = true;
            self.search.focus();
            self.search.clear();
            return ListSignal::Wait;
        }
        if self.search_focused {
            if key == Key::Enter || key == Key::Tab || key == Key::Down {
                self.search.unfocus();
                self.search_focused = false;
                self.list.focus();
            } else {
                self.search.handle_key(key);
                let text = self.search.value.clone();
                if to_chars(text.as_str()).len() == 0 {
                    self.list.set_filter(None);
                } else {
                    self.list.set_filter(Some(text));
                }
            }
            return ListSignal::Wait;
        }
        if key == Key::Enter {
            ListSignal::Choose
        } else if key == Key::Up || key == Key::Char('k') {
            if !self.list.previous_item() {
                self.list.last_item();
            }
            ListSignal::Wait
        } else if key == Key::Down || key == Key::Char('j') {
            if !self.list.next_item() {
                self.list.first_item();
            }
            ListSignal::Wait
        } else {
            ListSignal::Wait
        }
    }
}

// ---------------------------------------------------------------------------
// Timezone and locale
// ---------------------------------------------------------------------------

/// What the page sets on Enter: the highlighted item, and then it is left;
/// with no highlighted item nothing happens.
pub open spec fn chose_item(l: StrList, a: Option<String>, b: Option<String>, r: PageSignal) -> bool {
    match l.selected_view() {
        Some(s) => b == Some(s) && r is Pop,
        None => b == a && r is Wait,
    }
}

/// The timezone names that `timedatectl list-timezones` printed: its lines,
/// trimmed, without the empty ones.
pub open spec fn listed_lines(lines: Seq<Seq<char>>) -> Seq<Seq<char>>
    decreases lines.len(),
{
    if lines.len() == 0 {
        Seq::<Seq<char>>::empty()
    } else {
        let rest = listed_lines(lines.drop_last());
        let t = trim_seq(lines.last());
        if t.len() > 0 {
            rest.push(t)
        } else {
            rest
        }
    }
}

/// The trimmed, non-empty lines of a command's output.
pub fn parse_timezones(output: &str) -> (r: Vec<String>)
    ensures
        strings_view(r@) == listed_lines(split_seq(output@, '\n')),
{
    let lines = split_char(output, '\n');
    let ghost lv = strings_view(lines@);
    let mut r: Vec<String> = Vec::new();
    let mut i: usize = 0;
    while i < lines.len()
        invariant
            i <= lines@.len(),
            lv == strings_view(lines@),
            lv == split_seq(output@, '\n'),
            strings_view(r@) == listed_lines(lv.subrange(0, i as int)),
        decreases lines@.len() - i,
    {
        let t = trim(lines[i].as_str());
        assert(lv.subrange(0, i + 1).drop_last() =~= lv.subrange(0, i as int));
        assert(lv.subrange(0, i + 1).last() == lv[i as int]);
        if to_chars(t.as_str()).len() > 0 {
            let ghost before = r@;
            r.push(t);
            assert(strings_view(r@) =~= strings_view(before).push(t@));
        }
        i = i + 1;
    }
    assert(lv.subrange(0, lines@.len() as int) =~= lv);
    r
}

/// The timezone page.
pub struct Timezone {
    pub timezones: SearchList,
}

impl Timezone {
    /// The page over the given timezone names, with the search bar focused.
    pub fn new(timezones: Vec<String>) -> (r: Self)
        ensures
            r.timezones.wf(),
            r.timezones.list.title@ == "Select Timezone"@,
            r.timezones.list.items == timezones,
            r.timezones.list.filter is None,
            r.timezones.search_focused && r.timezones.search.focused,
            !r.timezones.help_visible,
    {
        Timezone { timezones: SearchList::new("Select Timezone", timezones) }
    }

    /// A key on the timezone list (see `SearchList::handle_key`); Enter on the
    /// list sets the highlighted timezone and leaves.
    pub fn handle_key(&mut self, timezone: &mut Option<String>, key: Key) -> (r: PageSignal)
        requires
            old(self).timezones.wf(),
            search_takes(old(self).timezones, key),
        ensures
            final(self).timezones.wf(),
            exists|s: ListSignal| #[trigger] search_step(old(self).timezones, final(self).timezones, key, s)
                && match s {
                    ListSignal::Wait => r is Wait && *final(timezone) == *old(timezone),
                    ListSignal::Pop => r is Pop && *final(timezone) == *old(timezone),
                    ListSignal::Choose => chose_item(final(self).timezones.list, *old(timezone), *final(timezone), r),
                },
    {
        let s = self.timezones.handle_key(key);
        match s {
            ListSignal::Wait => PageSignal::Wait,
            ListSignal::Pop => PageSignal::Pop,
            ListSignal::Choose => match self.timezones.list.selected_item() {
                Some(sel) => {
                    *timezone = Some(sel.clone());
                    PageSignal::Pop
                },
                None => PageSignal::Wait,
            },
        }
    }
}

/// The locales that the locale page offers, in order.
pub open spec fn locale_names() -> Seq<&'static str> {
    seq![
        "aa_DJ.UTF-8 UTF-8",
        "af_ZA.UTF-8 UTF-8",
        "an_ES.UTF-8 UTF-8",
        "ar_AE.UTF-8 UTF-8",
        "ar_BH.UTF-8 UTF-8",
        "ar_DZ.UTF-8 UTF-8",
        "ar_EG.UTF-8 UTF-8",
        "ar_IQ.UTF-8 UTF-8",
        "ar_JO.UTF-8 UTF-8",
        "ar_KW.UTF-8 UTF-8",
        "ar_LB.UTF-8 UTF-8",
        "ar_LY.UTF-8 UTF-8",
        "ar_MA.UTF-8 UTF-8",
        "ar_OM.UTF-8 UTF-8",
        "ar_QA.UTF-8 UTF-8",
        "ar_SA.UTF-8 UTF-8",
        "ar_SD.UTF-8 UTF-8",
        "ar_SY.UTF-8 UTF-8",
        "ar_TN.UTF-8 UTF-8",
        "ar_YE.UTF-8 UTF-8",
        "ast_ES.UTF-8 UTF-8",
        "be_BY.UTF-8 UTF-8",
        "bhb_IN.UTF-8 UTF-8",
        "bg_BG.UTF-8 UTF-8",
        "br_FR.UTF-8 UTF-8",
        "bs_BA.UTF-8 UTF-8",
        "ca_AD.UTF-8 UTF-8",
        "ca_ES.UTF-8 UTF-8",
        "ca_FR.UTF-8 UTF-8",
        "ca_IT.UTF-8 UTF-8",
        "cs_CZ.UTF-8 UTF-8",
        "cy_GB.UTF-8 UTF-8",
        "da_DK.UTF-8 UTF-8",
        "de_AT.UTF-8 UTF-8",
        "de_BE.UTF-8 UTF-8",
        "de_CH.UTF-8 UTF-8",
        "de_DE.UTF-8 UTF-8",
        "de_IT.UTF-8 UTF-8",
        "de_LI.UTF-8 UTF-8",
        "de_LU.UTF-8 UTF-8",
        "el_GR.UTF-8 UTF-8",
        "el_CY.UTF-8 UTF-8",
        "en_AU.UTF-8 UTF-8",
        "en_BW.UTF-8 UTF-8",
        "en_CA.UTF-8 UTF-8",
        "en_DK.UTF-8 UTF-8",
        "en_GB.UTF-8 UTF-8",
        "en_HK.UTF-8 UTF-8",
        "en_IE.UTF-8 UTF-8",
        "en_NZ.UTF-8 UTF-8",
        "en_PH.UTF-8 UTF-8",
        "en_SC.UTF-8 UTF-8",
        "en_SG.UTF-8 UTF-8",
        "en_US.UTF-8 UTF-8",
        "en_ZA.UTF-8 UTF-8",
        "en_ZW.UTF-8 UTF-8",
        "es_AR.UTF-8 UTF-8",
        "es_BO.UTF-8 UTF-8",
        "es_CL.UTF-8 UTF-8",
        "es_CO.UTF-8 UTF-8",
        "es_CR.UTF-8 UTF-8",
        "es_DO.UTF-8 UTF-8",
        "es_EC.UTF-8 UTF-8",
        "es_ES.UTF-8 UTF-8",
        "es_GT.UTF-8 UTF-8",
        "es_HN.UTF-8 UTF-8",
        "es_MX.UTF-8 UTF-8",
        "es_NI.UTF-8 UTF-8",
        "es_PA.UTF-8 UTF-8",
        "es_PE.UTF-8 UTF-8",
        "es_PR.UTF-8 UTF-8",
        "es_PY.UTF-8 UTF-8",
        "es_SV.UTF-8 UTF-8",
        "es_US.UTF-8 UTF-8",
        "es_UY.UTF-8 UTF-8",
        "es_VE.UTF-8 UTF-8",
        "et_EE.UTF-8 UTF-8",
        "eu_ES.UTF-8 UTF-8",
        "fo_FO.UTF-8 UTF-8",
        "fr_BE.UTF-8 UTF-8",
        "fr_CA.UTF-8 UTF-8",
        "fr_CH.UTF-8 UTF-8",
        "fr_FR.UTF-8 UTF-8",
        "fr_LU.UTF-8 UTF-8",
        "ga_IE.UTF-8 UTF-8",
        "gd_GB.UTF-8 UTF-8",
        "gl_ES.UTF-8 UTF-8",
        "gv_GB.UTF-8 UTF-8",
        "he_IL.UTF-8 UTF-8",
        "hr_HR.UTF-8 UTF-8",
        "hsb_DE.UTF-8 UTF-8",
        "hu_HU.UTF-8 UTF-8",
        "id_ID.UTF-8 UTF-8",
        "is_IS.UTF-8 UTF-8",
        "it_CH.UTF-8 UTF-8",
        "it_IT.UTF-8 UTF-8",
        "ja_JP.UTF-8 UTF-8",
        "ka_GE.UTF-8 UTF-8",
        "kk_KZ.UTF-8 UTF-8",
        "kl_GL.UTF-8 UTF-8",
        "ko_KR.UTF-8 UTF-8",
        "kw_GB.UTF-8 UTF-8",
        "lg_UG.UTF-8 UTF-8",
        "lt_LT.UTF-8 UTF-8",
        "ltg_LV.UTF-8 UTF-8",
        "lv_LV.UTF-8 UTF-8",
        "mg_MG.UTF-8 UTF-8",
        "mi_NZ.UTF-8 UTF-8",
        "mk_MK.UTF-8 UTF-8",
        "ms_MY.UTF-8 UTF-8",
        "mt_MT.UTF-8 UTF-8",
        "nb_NO.UTF-8 UTF-8",
        "nl_BE.UTF-8 UTF-8",
        "nl_NL.UTF-8 UTF-8",
        "nn_NO.UTF-8 UTF-8",
        "oc_FR.UTF-8 UTF-8",
        "om_KE.UTF-8 UTF-8",
        "pl_PL.UTF-8 UTF-8",
        "pt_BR.UTF-8 UTF-8",
        "pt_PT.UTF-8 UTF-8",
        "ro_RO.UTF-8 UTF-8",
        "ru_RU.UTF-8 UTF-8",
        "ru_UA.UTF-8 UTF-8",
        "sk_SK.UTF-8 UTF-8",
        "sl_SI.UTF-8 UTF-8",
        "so_DJ.UTF-8 UTF-8",
        "so_KE.UTF-8 UTF-8",
        "so_SO.UTF-8 UTF-8",
        "sq_AL.UTF-8 UTF-8",
        "st_ZA.UTF-8 UTF-8",
        "sv_FI.UTF-8 UTF-8",
        "sv_SE.UTF-8 UTF-8",
        "tcy_IN.UTF-8 UTF-8",
        "tg_TJ.UTF-8 UTF-8",
        "th_TH.UTF-8 UTF-8",
        "tl_PH.UTF-8 UTF-8",
        "tr_CY.UTF-8 UTF-8",
        "tr_TR.UTF-8 UTF-8",
        "uk_UA.UTF-8 UTF-8",
        "uz_UZ.UTF-8 UTF-8",
        "wa_BE.UTF-8 UTF-8",
        "xh_ZA.UTF-8 UTF-8",
        "yi_US.UTF-8 UTF-8",
        "zh_CN.UTF-8 UTF-8",
        "zh_HK.UTF-8 UTF-8",
        "zh_SG.UTF-8 UTF-8",
        "zh_TW.UTF-8 UTF-8",
        "zu_ZA.UTF-8 UTF-8",
    ]
}

fn locale_list() -> (r: Vec<&'static str>)
    ensures
        r@ == locale_names(),
{
    let r = vec![
        "aa_DJ.UTF-8 UTF-8",
        "af_ZA.UTF-8 UTF-8",
        "an_ES.UTF-8 UTF-8",
        "ar_AE.UTF-8 UTF-8",
        "ar_BH.UTF-8 UTF-8",
        "ar_DZ.UTF-8 UTF-8",
        "ar_EG.UTF-8 UTF-8",
        "ar_IQ.UTF-8 UTF-8",
        "ar_JO.UTF-8 UTF-8",
        "ar_KW.UTF-8 UTF-8",
        "ar_LB.UTF-8 UTF-8",
        "ar_LY.UTF-8 UTF-8",
        "ar_MA.UTF-8 UTF-8",
        "ar_OM.UTF-8 UTF-8",
        "ar_QA.UTF-8 UTF-8",
        "ar_SA.UTF-8 UTF-8",
        "ar_SD.UTF-8 UTF-8",
        "ar_SY.UTF-8 UTF-8",
        "ar_TN.UTF-8 UTF-8",
        "ar_YE.UTF-8 UTF-8",
        "ast_ES.UTF-8 UTF-8",
        "be_BY.UTF-8 UTF-8",
        "bhb_IN.UTF-8 UTF-8",
        "bg_BG.UTF-8 UTF-8",
        "br_FR.UTF-8 UTF-8",
        "bs_BA.UTF-8 UTF-8",
        "ca_AD.UTF-8 UTF-8",
        "ca_ES.UTF-8 UTF-8",
        "ca_FR.UTF-8 UTF-8",
        "ca_IT.UTF-8 UTF-8",
        "cs_CZ.UTF-8 UTF-8",
        "cy_GB.UTF-8 UTF-8",
        "da_DK.UTF-8 UTF-8",
        "de_AT.UTF-8 UTF-8",
        "de_BE.UTF-8 UTF-8",
        "de_CH.UTF-8 UTF-8",
        "de_DE.UTF-8 UTF-8",
        "de_IT.UTF-8 UTF-8",
        "de_LI.UTF-8 UTF-8",
        "de_LU.UTF-8 UTF-8",
        "el_GR.UTF-8 UTF-8",
        "el_CY.UTF-8 UTF-8",
        "en_AU.UTF-8 UTF-8",
        "en_BW.UTF-8 UTF-8",
        "en_CA.UTF-8 UTF-8",
        "en_DK.UTF-8 UTF-8",
        "en_GB.UTF-8 UTF-8",
        "en_HK.UTF-8 UTF-8",
        "en_IE.UTF-8 UTF-8",
        "en_NZ.UTF-8 UTF-8",
        "en_PH.UTF-8 UTF-8",
        "en_SC.UTF-8 UTF-8",
        "en_SG.UTF-8 UTF-8",
        "en_US.UTF-8 UTF-8",
        "en_ZA.UTF-8 UTF-8",
        "en_ZW.UTF-8 UTF-8",
        "es_AR.UTF-8 UTF-8",
        "es_BO.UTF-8 UTF-8",
        "es_CL.UTF-8 UTF-8",
        "es_CO.UTF-8 UTF-8",
        "es_CR.UTF-8 UTF-8",
        "es_DO.UTF-8 UTF-8",
        "es_EC.UTF-8 UTF-8",
        "es_ES.UTF-8 UTF-8",
        "es_GT.UTF-8 UTF-8",
        "es_HN.UTF-8 UTF-8",
        "es_MX.UTF-8 UTF-8",
        "es_NI.UTF-8 UTF-8",
        "es_PA.UTF-8 UTF-8",
        "es_PE.UTF-8 UTF-8",
        "es_PR.UTF-8 UTF-8",
        "es_PY.UTF-8 UTF-8",
        "es_SV.UTF-8 UTF-8",
        "es_US.UTF-8 UTF-8",
        "es_UY.UTF-8 UTF-8",
        "es_VE.UTF-8 UTF-8",
        "et_EE.UTF-8 UTF-8",
        "eu_ES.UTF-8 UTF-8",
        "fo_FO.UTF-8 UTF-8",
        "fr_BE.UTF-8 UTF-8",
        "fr_CA.UTF-8 UTF-8",
        "fr_CH.UTF-8 UTF-8",
        "fr_FR.UTF-8 UTF-8",
        "fr_LU.UTF-8 UTF-8",
        "ga_IE.UTF-8 UTF-8",
        "gd_GB.UTF-8 UTF-8",
        "gl_ES.UTF-8 UTF-8",
        "gv_GB.UTF-8 UTF-8",
        "he_IL.UTF-8 UTF-8",
        "hr_HR.UTF-8 UTF-8",
        "hsb_DE.UTF-8 UTF-8",
        "hu_HU.UTF-8 UTF-8",
        "id_ID.UTF-8 UTF-8",
        "is_IS.UTF-8 UTF-8",
        "it_CH.UTF-8 UTF-8",
        "it_IT.UTF-8 UTF-8",
        "ja_JP.UTF-8 UTF-8",
        "ka_GE.UTF-8 UTF-8",
        "kk_KZ.UTF-8 UTF-8",
        "kl_GL.UTF-8 UTF-8",
        "ko_KR.UTF-8 UTF-8",
        "kw_GB.UTF-8 UTF-8",
        "lg_UG.UTF-8 UTF-8",
        "lt_LT.UTF-8 UTF-8",
        "ltg_LV.UTF-8 UTF-8",
        "lv_LV.UTF-8 UTF-8",
        "mg_MG.UTF-8 UTF-8",
        "mi_NZ.UTF-8 UTF-8",
        "mk_MK.UTF-8 UTF-8",
        "ms_MY.UTF-8 UTF-8",
        "mt_MT.UTF-8 UTF-8",
        "nb_NO.UTF-8 UTF-8",
        "nl_BE.UTF-8 UTF-8",
        "nl_NL.UTF-8 UTF-8",
        "nn_NO.UTF-8 UTF-8",
        "oc_FR.UTF-8 UTF-8",
        "om_KE.UTF-8 UTF-8",
        "pl_PL.UTF-8 UTF-8",
        "pt_BR.UTF-8 UTF-8",
        "pt_PT.UTF-8 UTF-8",
        "ro_RO.UTF-8 UTF-8",
        "ru_RU.UTF-8 UTF-8",
        "ru_UA.UTF-8 UTF-8",
        "sk_SK.UTF-8 UTF-8",
        "sl_SI.UTF-8 UTF-8",
        "so_DJ.UTF-8 UTF-8",
        "so_KE.UTF-8 UTF-8",
        "so_SO.UTF-8 UTF-8",
        "sq_AL.UTF-8 UTF-8",
        "st_ZA.UTF-8 UTF-8",
        "sv_FI.UTF-8 UTF-8",
        "sv_SE.UTF-8 UTF-8",
        "tcy_IN.UTF-8 UTF-8",
        "tg_TJ.UTF-8 UTF-8",
        "th_TH.UTF-8 UTF-8",
        "tl_PH.UTF-8 UTF-8",
        "tr_CY.UTF-8 UTF-8",
        "tr_TR.UTF-8 UTF-8",
        "uk_UA.UTF-8 UTF-8",
        "uz_UZ.UTF-8 UTF-8",
        "wa_BE.UTF-8 UTF-8",
        "xh_ZA.UTF-8 UTF-8",
        "yi_US.UTF-8 UTF-8",
        "zh_CN.UTF-8 UTF-8",
        "zh_HK.UTF-8 UTF-8",
        "zh_SG.UTF-8 UTF-8",
        "zh_TW.UTF-8 UTF-8",
        "zu_ZA.UTF-8 UTF-8",
    ];
    assert(r@ =~= locale_names());
    r
}

/// The locale page.
pub struct Locale {
    pub locales: SearchList,
}

impl Locale {
    /// The page over the supported locales, with the search bar focused.
    pub fn new() -> (r: Self)
        ensures
            r.locales.wf(),
            r.locales.list.title@ == "Select Locale"@,
            strings_view(r.locales.list.items@) == locale_names().map_values(|s: &str| s@),
            r.locales.list.filter is None,
            r.locales.search_focused && r.locales.search.focused,
            !r.locales.help_visible,
    {
        let names = locale_list();
        Locale { locales: SearchList::new("Select Locale", owned_list(&names)) }
    }

    /// A key on the locale list (see `SearchList::handle_key`); Enter on the
    /// list sets the highlighted locale and leaves.
    pub fn handle_key(&mut self, locale: &mut Option<String>, key: Key) -> (r: PageSignal)
        requires
            old(self).locales.wf(),
            search_takes(old(self).locales, key),
        ensures
            final(self).locales.wf(),
            exists|s: ListSignal| #[trigger] search_step(old(self).locales, final(self).locales, key, s)
                && match s {
                    ListSignal::Wait => r is Wait && *final(locale) == *old(locale),
                    ListSignal::Pop => r is Pop && *final(locale) == *old(locale),
                    ListSignal::Choose => chose_item(final(self).locales.list, *old(locale), *final(locale), r),
                },
    {
        let s = self.locales.handle_key(key);
        match s {
            ListSignal::Wait => PageSignal::Wait,
            ListSignal::Pop => PageSignal::Pop,
            ListSignal::Choose => match self.locales.list.selected_item() {
                Some(sel) => {
                    *locale = Some(sel.clone());
                    PageSignal::Pop
                },
                None => PageSignal::Wait,
            },
        }
    }
}

// ---------------------------------------------------------------------------
// Keyboard layout
// ---------------------------------------------------------------------------

/// A keyboard layout: the identifier that the system takes and the label
/// that the page shows.
#[derive(Debug)]
pub struct Keymap {
    pub id: String,
    pub label: String,
}

/// `i` is the first keymap labelled `label`.
pub open spec fn first_labelled(keymaps: Seq<Keymap>, label: Seq<char>, i: int) -> bool {
    &&& 0 <= i < keymaps.len()
    &&& keymaps[i].label@ == label
    &&& forall|j: int| 0 <= j < i ==> (#[trigger] keymaps[j]).label@ != label
}

/// What `keymap_id` answers for `label`: the identifier of the first keymap
/// with that label, or `None` when no keymap has it.
pub open spec fn keymap_id_of(keymaps: Seq<Keymap>, label: Seq<char>, r: Option<String>) -> bool {
    match r {
        Some(id) => exists|i: int| first_labelled(keymaps, label, i) && id@ == keymaps[i].id@,
        None => forall|i: int| 0 <= i < keymaps.len() ==> (#[trigger] keymaps[i]).label@ != label,
    }
}

/// The identifier of the first keymap labelled `label`.
pub fn keymap_id(keymaps: &Vec<Keymap>, label: &str) -> (r: Option<String>)
    ensures
        keymap_id_of(keymaps@, label@, r),
{
    let mut i: usize = 0;
    while i < keymaps.len()
        invariant
            i <= keymaps@.len(),
            forall|j: int| 0 <= j < i ==> (#[trigger] keymaps@[j]).label@ != label@,
        decreases keymaps@.len() - i,
    {
        if str_eq(keymaps[i].label.as_str(), label) {
            let id = keymaps[i].id.clone();
            assert(first_labelled(keymaps@, label@, i as int));
            return Some(id);
        }
        i = i + 1;
    }
    None
}

/// The labels of the keymaps, in order.
pub open spec fn keymap_labels(keymaps: Seq<Keymap>) -> Seq<Seq<char>> {
    keymaps.map_values(|k: Keymap| k.label@)
}

/// The keyboard layout page over a table of keymaps.
pub struct KeyboardLayout {
    pub layouts: SearchList,
    pub keymaps: Vec<Keymap>,
}

impl KeyboardLayout {
    /// The page listing the keymaps' labels, with the search bar focused.
    pub fn new(keymaps: Vec<Keymap>) -> (r: Self)
        ensures
            r.layouts.wf(),
            r.layouts.list.title@ == "Select Keyboard Layout"@,
            strings_view(r.layouts.list.items@) == keymap_labels(keymaps@),
            r.keymaps@ == keymaps@,
            r.layouts.list.filter is None,
            r.layouts.search_focused && r.layouts.search.focused,
            !r.layouts.help_visible,
    {
        let mut labels: Vec<String> = Vec::new();
        let mut i: usize = 0;
        while i < keymaps.len()
            invariant
                i <= keymaps@.len(),
                strings_view(labels@) == keymap_labels(keymaps@.subrange(0, i as int)),
            decreases keymaps@.len() - i,
        {
            let ghost before = labels@;
            labels.push(keymaps[i].label.clone());
            assert(keymaps@.subrange(0, i + 1) =~= keymaps@.subrange(0, i as int).push(keymaps@[i as int]));
            assert(strings_view(labels@) =~= strings_view(before).push(keymaps@[i as int].label@));
            assert(strings_view(labels@) =~= keymap_labels(keymaps@.subrange(0, i + 1)));
            i = i + 1;
        }
        assert(keymaps@.subrange(0, keymaps@.len() as int) =~= keymaps@);
        KeyboardLayout { layouts: SearchList::new("Select Keyboard Layout", labels), keymaps }
    }

    /// The identifier of the keymap whose label is highlighted, if any.
    pub fn selected_keymap_id(&self) -> (r: Option<String>)
        ensures
            match self.layouts.list.selected_view() {
                Some(label) => keymap_id_of(self.keymaps@, label@, r),
                None => r is None,
            },
    {
        match self.layouts.list.selected_item() {
            Some(label) => keymap_id(&self.keymaps, label.as_str()),
            None => None,
        }
    }

    /// A key on the layout list (see `SearchList::handle_key`); Enter on the
    /// list sets the layout to the highlighted keymap's identifier (none when
    /// nothing is highlighted or no keymap has the label) and leaves.
    pub fn handle_key(&mut self, layout: &mut Option<String>, key: Key) -> (r: PageSignal)
        requires
            old(self).layouts.wf(),
            search_takes(old(self).layouts, key),
        ensures
            final(self).layouts.wf(),
            final(self).keymaps@ == old(self).keymaps@,
            exists|s: ListSignal| #[trigger] search_step(old(self).layouts, final(self).layouts, key, s)
                && match s {
                    ListSignal::Wait => r is Wait && *final(layout) == *old(layout),
                    ListSignal::Pop => r is Pop && *final(layout) == *old(layout),
                    ListSignal::Choose => r is Pop && match final(self).layouts.list.selected_view() {
                        Some(label) => keymap_id_of(final(self).keymaps@, label@, *final(layout)),
                        None => *final(layout) is None,
                    },
                },
    {
        let s = self.layouts.handle_key(key);
        match s {
            ListSignal::Wait => PageSignal::Wait,
            ListSignal::Pop => PageSignal::Pop,
            ListSignal::Choose => {
                *layout = self.selected_keymap_id();
                PageSignal::Pop
            },
        }
    }
}

// ---------------------------------------------------------------------------
// Language
// ---------------------------------------------------------------------------

/// The language page: a focused list of the supported languages.
pub struct Language {
    pub langs: StrList,
    pub help_visible: bool,
}

impl Language {
    /// The highlighted row lies within the languages.
    pub open spec fn wf(&self) -> bool {
        self.langs.selected_idx < self.langs.items@.len()
    }

    /// The page offering English, focused on it.
    pub fn new() -> (r: Self)
        ensures
            r.wf(),
            r.langs.title@ == "Select Language"@,
            strings_view(r.langs.items@) == seq!["English"@],
            r.langs.selected_idx == 0,
            r.langs.focused,
            !r.help_visible,
    {
        let mut items: Vec<String> = Vec::new();
        items.push(owned("English"));
        assert(strings_view(items@) =~= seq!["English"@]);
        let mut langs = StrList::new(owned("Select Language"), items);
        langs.focus();
        Language { langs, help_visible: false }
    }

    /// `?` shows or hides the help, which takes every key while shown (Esc
    /// hides it); Esc or Left leaves; Enter sets the highlighted language and
    /// leaves; other keys move the highlight.
    pub fn handle_key(&mut self, language: &mut Option<String>, key: Key) -> (r: PageSignal)
        requires
            old(self).wf(),
        ensures
            final(self).wf(),
            ({
                let a = *old(self);
                let b = *final(self);
                if key == Key::Char('?') {
                    b == (Language { help_visible: !a.help_visible, ..a }) && r is Wait
                        && *final(language) == *old(language)
                } else if a.help_visible {
                    b == (Language { help_visible: key != Key::Esc, ..a }) && r is Wait
                        && *final(language) == *old(language)
                } else if is_back(key) {
                    b == a && r is Pop && *final(language) == *old(language)
                } else if key == Key::Enter {
                    b == a && r is Pop && *final(language) == Some(a.langs.items@[a.langs.selected_idx as int])
                } else {
                    let sel = a.langs.selected_idx;
                    &&& r is Wait && *final(language) == *old(language)
                    &&& b.help_visible == a.help_visible
                    &&& b.langs == (StrList {
                        selected_idx: if is_up(key) && sel > 0 {
                            (sel - 1) as usize
                        } else if is_down(key) && sel + 1 < a.langs.items@.len() {
                            (sel + 1) as usize
                        } else {
                            sel
                        },
                        ..a.langs
                    })
                }
            }),
    {
        if key == Key::Char('?') {
            self.help_visible = !self.help_visible;
            return PageSignal::Wait;
        }
        if self.help_visible {
            if key == Key::Esc {
                self.help_visible = false;
            }
            return PageSignal::Wait;
        }
        match key {
            Key::Esc | Key::Left => PageSignal::Pop,
            Key::Enter => {
                *language = Some(self.langs.items[self.langs.selected_idx].clone());
                PageSignal::Pop
            },
            _ => {
                self.langs.handle_key(key);
                PageSignal::Wait
            },
        }
    }
}

// ---------------------------------------------------------------------------
// Hostname
// ---------------------------------------------------------------------------

/// The hostname page: a focused text field and the help.
pub struct Hostname {
    pub input: LineEditor,
    pub help_visible: bool,
}

impl Hostname {
    /// The field's cursor lies within its text.
    pub open spec fn wf(&self) -> bool {
        editor_ok(self.input)
    }

    /// The page with an empty, focused field.
    pub fn new() -> (r: Self)
        ensures
            r.wf(),
            r.input.title@ == "Set Hostname"@,
            r.input.placeholder matches Some(p) && p@ == "e.g. 'my-computer'"@,
            r.input.focused && !r.input.is_secret,
            r.input.value@.len() == 0 && r.input.cursor == 0 && r.input.error is None,
            !r.help_visible,
    {
        let mut input = LineEditor::new(owned("Set Hostname"), Some(owned("e.g. 'my-computer'")));
        input.focus();
        Hostname { input, help_visible: false }
    }

    /// `?` shows or hides the help, which takes every key while shown (Esc
    /// hides it); Esc leaves; Enter sets the hostname to the trimmed text,
    /// unless that is empty, and leaves; other keys edit the text.
    pub fn handle_key(&mut self, hostname: &mut Option<String>, key: Key) -> (r: PageSignal)
        requires
            old(self).wf(),
            key != Key::Char('?') && !old(self).help_visible && key != Key::Esc && key != Key::Enter ==> old(
                self,
            ).input.takes(key),
        ensures
            final(self).wf(),
            ({
                let a = *old(self);
                let b = *final(self);
                if key == Key::Char('?') {
                    b == (Hostname { help_visible: !a.help_visible, ..a }) && r is Wait
                        && *final(hostname) == *old(hostname)
                } else if a.help_visible {
                    b == (Hostname { help_visible: key != Key::Esc, ..a }) && r is Wait
                        && *final(hostname) == *old(hostname)
                } else if key == Key::Esc {
                    b == a && r is Pop && *final(hostname) == *old(hostname)
                } else if key == Key::Enter {
                    let t = trim_seq(a.input.value@);
                    &&& b == a && r is Pop
                    &&& if t.len() > 0 {
                        *final(hostname) matches Some(h) && h@ == t
                    } else {
                        *final(hostname) == *old(hostname)
                    }
                } else {
                    key_edited(a.input, b.input, key) && b.help_visible == a.help_visible
                        && r is Wait && *final(hostname) == *old(hostname)
                }
            }),
    {
        if key == Key::Char('?') {
            self.help_visible = !self.help_visible;
            return PageSignal::Wait;
        }
        if self.help_visible {
            if key == Key::Esc {
                self.help_visible = false;
            }
            return PageSignal::Wait;
        }
        match key {
            Key::Esc => PageSignal::Pop,
            Key::Enter => {
                let h = trim(self.input.value.as_str());
                if to_chars(h.as_str()).len() > 0 {
                    *hostname = Some(h);
                }
                PageSignal::Pop
            },
            _ => {
                self.input.handle_key(key);
                PageSignal::Wait
            },
        }
    }
}

} // verus!
