//! State and input handling of the installer's interactive widgets.
//!
//! Drawing happens elsewhere; this module holds what each widget stores and how
//! a key press changes it.
use vstd::prelude::*;
use fuzzy_matcher::FuzzyMatcher;
use fuzzy_matcher::skim::SkimMatcherV2;
use crate::text::{
    chars_to_string, sort_strings, sorted_seqs, str_eq, strings_view, to_chars, to_lowercase,
    unicode_lowercase,
};
use crate::drives::{clone_opt, clone_strings, strings_contain};
use crate::drivepages::{char_width, utf8_len};

verus! {

// ---------------------------------------------------------------------------
// Fuzzy matching
// ---------------------------------------------------------------------------

/// The score that the skim fuzzy matcher (default settings) gives to `choice`
/// for `pattern`, or `None` when the pattern does not match.
pub uninterp spec fn skim_fuzzy_score(choice: Seq<char>, pattern: Seq<char>) -> Option<i64>;

/// Scores `choice` against `pattern` with `SkimMatcherV2::default().fuzzy_match`.
/// The contract names the score by `skim_fuzzy_score`, a function of the two
/// strings alone (the matcher's caches are scratch space), and states the one
/// edge that the matcher's source fixes: an empty pattern matches with score 0.
#[verifier::external_body]
pub(crate) fn fuzzy_score(choice: &str, pattern: &str) -> (r: Option<i64>)
    ensures
        r == skim_fuzzy_score(choice@, pattern@),
        pattern@.len() == 0 ==> r == Some(0i64),
{
    SkimMatcherV2::default().fuzzy_match(choice, pattern)
}

// ---------------------------------------------------------------------------
// Keys
// ---------------------------------------------------------------------------

/// A key press, as far as the widgets tell keys apart.
#[derive(Clone, Copy, Debug, PartialEq, Eq, Structural)]
pub enum Key {
    Char(char),
    Enter,
    Esc,
    Backspace,
    Delete,
    Left,
    Right,
    Up,
    Down,
    Home,
    End,
    Tab,
    BackTab,
    PageUp,
    PageDown,
    Other,
}

// ---------------------------------------------------------------------------
// Check box, button, progress bar
// ---------------------------------------------------------------------------

pub struct CheckBox {
    pub label: String,
    pub checked: bool,
    pub focused: bool,
}

impl CheckBox {
    pub fn new(label: String, checked: bool) -> (r: Self)
        ensures
            r.label@ == label@,
            r.checked == checked,
            !r.focused,
    {
        CheckBox { label, checked, focused: false }
    }

    pub fn toggle(&mut self)
        ensures
            final(self).checked == !old(self).checked,
            final(self).label == old(self).label,
            final(self).focused == old(self).focused,
    {
        self.checked = !self.checked;
    }

    pub fn is_checked(&self) -> (r: bool)
        ensures
            r == self.checked,
    {
        self.checked
    }

    /// Space and Enter toggle the box; other keys change nothing.
    pub fn handle_key(&mut self, key: Key)
        ensures
            final(self).checked == (if key == Key::Char(' ') || key == Key::Enter {
                !old(self).checked
            } else {
                old(self).checked
            }),
            final(self).label == old(self).label,
            final(self).focused == old(self).focused,
    {
        match key {
            Key::Char(' ') | Key::Enter => self.toggle(),
            _ => {},
        }
    }

    pub fn focus(&mut self)
        ensures
            final(self).focused,
            final(self).label == old(self).label,
            final(self).checked == old(self).checked,
    {
        self.focused = true;
    }

    pub fn unfocus(&mut self)
        ensures
            !final(self).focused,
            final(self).label == old(self).label,
            final(self).checked == old(self).checked,
    {
        self.focused = false;
    }

    pub fn is_focused(&self) -> (r: bool)
        ensures
            r == self.focused,
    {
        self.focused
    }
}

pub struct Button {
    pub label: String,
    pub focused: bool,
}

impl Button {
    pub fn new(label: String) -> (r: Self)
        ensures
            r.label@ == label@,
            !r.focused,
    {
        Button { label, focused: false }
    }

    pub fn focus(&mut self)
        ensures
            final(self).focused,
            final(self).label == old(self).label,
    {
        self.focused = true;
    }

    pub fn unfocus(&mut self)
        ensures
            !final(self).focused,
            final(self).label == old(self).label,
    {
        self.focused = false;
    }

    pub fn is_focused(&self) -> (r: bool)
        ensures
            r == self.focused,
    {
        self.focused
    }
}

/// A message with a completion percentage, from 0 to 100.
pub struct ProgressBar {
    message: String,
    progress: u32,
}

impl ProgressBar {
    pub closed spec fn message_view(&self) -> Seq<char> {
        self.message@
    }

    pub closed spec fn progress_view(&self) -> u32 {
        self.progress
    }

    /// The bar with the percentage capped at 100.
    pub fn new(message: String, progress: u32) -> (r: Self)
        ensures
            r.message_view() == message@,
            r.progress_view() == (if progress > 100 { 100 } else { progress }),
    {
        ProgressBar { message, progress: if progress > 100 { 100 } else { progress } }
    }

    /// Sets the percentage, capped at 100.
    pub fn set_progress(&mut self, progress: u32)
        ensures
            final(self).progress_view() == (if progress > 100 { 100 } else { progress }),
            final(self).message_view() == old(self).message_view(),
    {
        self.progress = if progress > 100 { 100 } else { progress };
    }

    pub fn set_message(&mut self, message: String)
        ensures
            final(self).message_view() == message@,
            final(self).progress_view() == old(self).progress_view(),
    {
        self.message = message;
    }

    pub fn message(&self) -> (r: &str)
        ensures
            r@ == self.message_view(),
    {
        self.message.as_str()
    }

    pub fn progress(&self) -> (r: u32)
        ensures
            r == self.progress_view(),
    {
        self.progress
    }
}

// ---------------------------------------------------------------------------
// Steps and table rows
// ---------------------------------------------------------------------------

#[derive(Clone, Copy, Debug, PartialEq, Eq, Structural)]
pub enum StepStatus {
    Inactive,
    Running,
    Completed,
    Failed,
}

/// One row of a table: field values under named columns.
#[derive(Clone, Debug)]
pub struct TableRow {
    pub headers: Vec<String>,
    pub fields: Vec<String>,
}

/// The first column whose header equals `name` once both are lower-cased.
pub open spec fn header_position(headers: Seq<Seq<char>>, name: Seq<char>) -> Option<int>
    decreases headers.len(),
{
    if headers.len() == 0 {
        None
    } else if unicode_lowercase(headers[0]) == unicode_lowercase(name) {
        Some(0)
    } else {
        match header_position(headers.drop_first(), name) {
            Some(i) => Some(i + 1),
            None => None,
        }
    }
}

proof fn lemma_header_position(headers: Seq<Seq<char>>, name: Seq<char>)
    ensures
        match header_position(headers, name) {
            Some(i) => 0 <= i < headers.len() && unicode_lowercase(headers[i]) == unicode_lowercase(name)
                && forall|k: int| 0 <= k < i ==> unicode_lowercase(#[trigger] headers[k]) != unicode_lowercase(name),
            None => forall|k: int| 0 <= k < headers.len() ==> unicode_lowercase(#[trigger] headers[k]) != unicode_lowercase(name),
        },
    decreases headers.len(),
{
    if headers.len() > 0 {
        lemma_header_position(headers.drop_first(), name);
        match header_position(headers.drop_first(), name) {
            Some(i) => {
                assert forall|k: int| 0 <= k < i + 1 && unicode_lowercase(headers[0]) != unicode_lowercase(name)
                    implies unicode_lowercase(#[trigger] headers[k]) != unicode_lowercase(name) by {
                    if k > 0 {
                        assert(headers[k] == headers.drop_first()[k - 1]);
                    }
                }
            },
            None => {
                assert forall|k: int| 0 <= k < headers.len() && unicode_lowercase(headers[0]) != unicode_lowercase(name)
                    implies unicode_lowercase(#[trigger] headers[k]) != unicode_lowercase(name) by {
                    if k > 0 {
                        assert(headers[k] == headers.drop_first()[k - 1]);
                    }
                }
            },
        }
    }
}

impl TableRow {
    pub open spec fn headers_view(&self) -> Seq<Seq<char>> {
        self.headers@.map_values(|s: String| s@)
    }

    /// The field under the column named `header`, compared without case.
    pub fn get_field(&self, header: &str) -> (r: Option<&String>)
        ensures
            r == (match header_position(self.headers_view(), header@) {
                Some(i) => if i < self.fields@.len() { Some(&self.fields@[i]) } else { None },
                None => None,
            }),
    {
        proof {
            lemma_header_position(self.headers_view(), header@);
        }
        let wanted = to_lowercase(header);
        let mut i: usize = 0;
        while i < self.headers.len()
            invariant
                i <= self.headers@.len(),
                wanted@ == unicode_lowercase(header@),
                forall|k: int| 0 <= k < i ==> unicode_lowercase(#[trigger] self.headers_view()[k])
                    != unicode_lowercase(header@),
            decreases self.headers@.len() - i,
        {
            let h = to_lowercase(self.headers[i].as_str());
            assert(self.headers_view()[i as int] == self.headers@[i as int]@);
            if str_eq(h.as_str(), wanted.as_str()) {
                assert(unicode_lowercase(self.headers_view()[i as int]) == unicode_lowercase(header@));
                proof {
                    lemma_header_position(self.headers_view(), header@);
                }
                assert(header_position(self.headers_view(), header@) == Some(i as int));
                if i < self.fields.len() {
                    return Some(&self.fields[i]);
                } else {
                    return None;
                }
            }
            i = i + 1;
        }
        assert(header_position(self.headers_view(), header@).is_none());
        None
    }
}

// ---------------------------------------------------------------------------
// Table
// ---------------------------------------------------------------------------

/// A table of text rows under headers, with an optional selected row.
pub struct TableWidget {
    pub focused: bool,
    pub selected_row: Option<usize>,
    pub title: String,
    pub num_fields: usize,
    pub headers: Vec<String>,
    pub rows: Vec<Vec<String>>,
    /// Column widths, in cells.
    pub widths: Vec<u16>,
}

/// Moving the selection one row down: from no selection it starts at the
/// first row; it stays on the last row, and the flag tells whether it moved.
pub open spec fn next_row_spec(sel: Option<usize>, len: nat) -> (Option<usize>, bool) {
    let idx = match sel {
        Some(i) => i,
        None => 0,
    };
    if idx + 1 < len {
        (Some((idx + 1) as usize), true)
    } else {
        (Some(idx), false)
    }
}

/// Moving the selection one row up: from no selection it starts at the
/// first row; it stays on the first row, and the flag tells whether it moved.
pub open spec fn previous_row_spec(sel: Option<usize>) -> (Option<usize>, bool) {
    let idx = match sel {
        Some(i) => i,
        None => 0,
    };
    if idx > 0 {
        (Some((idx - 1) as usize), true)
    } else {
        (Some(idx), false)
    }
}

/// The selection after the rows change: dropped when it is past the new rows.
pub open spec fn kept_selection(sel: Option<usize>, len: nat) -> Option<usize> {
    match sel {
        Some(i) => if i >= len {
            None
        } else {
            sel
        },
        None => None,
    }
}

/// A selection past the rows goes back to the first row; without one, the
/// first row is selected unless there are no rows.
pub open spec fn fixed_selection(sel: Option<usize>, len: nat) -> Option<usize> {
    match sel {
        Some(i) => if i >= len {
            Some(0)
        } else {
            sel
        },
        None => if len > 0 {
            Some(0)
        } else {
            None
        },
    }
}

impl TableWidget {
    pub fn new(title: String, widths: Vec<u16>, headers: Vec<String>, rows: Vec<Vec<String>>) -> (r: Self)
        ensures
            !r.focused,
            r.selected_row is None,
            r.title == title,
            r.num_fields == headers@.len(),
            r.headers == headers,
            r.rows == rows,
            r.widths == widths,
    {
        let num_fields = headers.len();
        TableWidget { focused: false, selected_row: None, title, num_fields, headers, rows, widths }
    }

    /// Replaces the rows; a selection past them is dropped.
    pub fn set_rows(&mut self, rows: Vec<Vec<String>>)
        ensures
            *final(self) == (TableWidget {
                rows,
                selected_row: kept_selection(old(self).selected_row, rows@.len()),
                ..*old(self)
            }),
    {
        let n = rows.len();
        self.rows = rows;
        match self.selected_row {
            Some(idx) => {
                if idx >= n {
                    self.selected_row = None;
                }
            },
            None => {},
        }
    }

    pub fn selected_row(&self) -> (r: Option<usize>)
        ensures
            r == self.selected_row,
    {
        self.selected_row
    }

    /// Selects the last row, or nothing when there are no rows.
    pub fn last_row(&mut self)
        ensures
            *final(self) == (TableWidget {
                selected_row: if old(self).rows@.len() > 0 {
                    Some((old(self).rows@.len() - 1) as usize)
                } else {
                    None
                },
                ..*old(self)
            }),
    {
        if self.rows.len() > 0 {
            self.selected_row = Some(self.rows.len() - 1);
        } else {
            self.selected_row = None;
        }
    }

    /// Selects the first row, or nothing when there are no rows.
    pub fn first_row(&mut self)
        ensures
            *final(self) == (TableWidget {
                selected_row: if old(self).rows@.len() > 0 {
                    Some(0usize)
                } else {
                    None
                },
                ..*old(self)
            }),
    {
        if self.rows.len() > 0 {
            self.selected_row = Some(0);
        } else {
            self.selected_row = None;
        }
    }

    /// Moves the selection one row down (see `next_row_spec`).
    pub fn next_row(&mut self) -> (r: bool)
        ensures
            (final(self).selected_row, r) == next_row_spec(old(self).selected_row, old(self).rows@.len()),
            *final(self) == (TableWidget { selected_row: final(self).selected_row, ..*old(self) }),
    {
        let idx = match self.selected_row {
            Some(i) => i,
            None => 0,
        };
        if idx < self.rows.len() && idx + 1 < self.rows.len() {
            self.selected_row = Some(idx + 1);
            true
        } else {
            self.selected_row = Some(idx);
            false
        }
    }

    /// Moves the selection one row up (see `previous_row_spec`).
    pub fn previous_row(&mut self) -> (r: bool)
        ensures
            (final(self).selected_row, r) == previous_row_spec(old(self).selected_row),
            *final(self) == (TableWidget { selected_row: final(self).selected_row, ..*old(self) }),
    {
        let idx = match self.selected_row {
            Some(i) => i,
            None => 0,
        };
        if idx > 0 {
            self.selected_row = Some(idx - 1);
            true
        } else {
            self.selected_row = Some(idx);
            false
        }
    }

    /// The row at `idx` with the headers, if there is one.
    pub fn get_row(&self, idx: usize) -> (r: Option<TableRow>)
        ensures
            match r {
                Some(row) => idx < self.rows@.len() && row.headers@ == self.headers@ && row.fields@
                    == self.rows@[idx as int]@,
                None => idx >= self.rows@.len(),
            },
    {
        if idx < self.rows.len() {
            Some(TableRow { headers: clone_strings(&self.headers), fields: clone_strings(&self.rows[idx]) })
        } else {
            None
        }
    }

    /// The selected row with the headers, if a row is selected and there.
    pub fn get_selected_row_info(&self) -> (r: Option<TableRow>)
        ensures
            match r {
                Some(row) => self.selected_row matches Some(i) && i < self.rows@.len() && row.headers@
                    == self.headers@ && row.fields@ == self.rows@[i as int]@,
                None => match self.selected_row {
                    Some(i) => i >= self.rows@.len(),
                    None => true,
                },
            },
    {
        match self.selected_row {
            Some(idx) => self.get_row(idx),
            None => None,
        }
    }

    /// Brings the selection back onto the rows (see `fixed_selection`).
    pub fn fix_selection(&mut self)
        ensures
            *final(self) == (TableWidget {
                selected_row: fixed_selection(old(self).selected_row, old(self).rows@.len()),
                ..*old(self)
            }),
    {
        match self.selected_row {
            Some(idx) => {
                if idx >= self.rows.len() {
                    self.selected_row = Some(0);
                }
            },
            None => {
                if self.rows.len() > 0 {
                    self.selected_row = Some(0);
                } else {
                    self.selected_row = None;
                }
            },
        }
    }

    pub fn rows(&self) -> (r: &Vec<Vec<String>>)
        ensures
            *r == self.rows,
    {
        &self.rows
    }

    pub fn len(&self) -> (r: usize)
        ensures
            r == self.rows@.len(),
    {
        self.rows.len()
    }

    pub fn is_empty(&self) -> (r: bool)
        ensures
            r == (self.rows@.len() == 0),
    {
        self.rows.len() == 0
    }

    /// Up or `k` moves the selection down a row and Down or `j` up a row
    /// (as the installer's tables have it); without a selection the first
    /// row is selected first.
    pub fn handle_key(&mut self, key: Key)
        ensures
            ({
                let start = match old(self).selected_row {
                    Some(i) => Some(i),
                    None => Some(0usize),
                };
                let sel = if key == Key::Up || key == Key::Char('k') {
                    next_row_spec(start, old(self).rows@.len()).0
                } else if key == Key::Down || key == Key::Char('j') {
                    previous_row_spec(start).0
                } else {
                    start
                };
                *final(self) == (TableWidget { selected_row: sel, ..*old(self) })
            }),
    {
        if self.selected_row.is_none() {
            self.selected_row = Some(0);
        }
        match key {
            Key::Up | Key::Char('k') => {
                let _ = self.next_row();
            },
            Key::Down | Key::Char('j') => {
                let _ = self.previous_row();
            },
            _ => {},
        }
    }

    /// Focuses the table, selecting the first row when none is.
    pub fn focus(&mut self)
        ensures
            *final(self) == (TableWidget {
                focused: true,
                selected_row: match old(self).selected_row {
                    Some(i) => Some(i),
                    None => Some(0usize),
                },
                ..*old(self)
            }),
    {
        self.focused = true;
        if self.selected_row.is_none() {
            self.selected_row = Some(0);
        }
    }

    pub fn unfocus(&mut self)
        ensures
            *final(self) == (TableWidget { focused: false, ..*old(self) }),
    {
        self.focused = false;
    }

    pub fn is_focused(&self) -> (r: bool)
        ensures
            r == self.focused,
    {
        self.focused
    }
}

// ---------------------------------------------------------------------------
// Line editor
// ---------------------------------------------------------------------------

/// Byte `b` of `v` is where the character at index `k` starts, or the end
/// of the text when `k` is `v.len()`.
pub open spec fn starts_at(v: Seq<char>, b: int, k: int) -> bool {
    0 <= k <= v.len() && utf8_len(v.take(k)) == b
}

/// Byte `b` of `v` is a character boundary (what `str::is_char_boundary`
/// tells).
pub open spec fn is_boundary(v: Seq<char>, b: int) -> bool {
    exists|k: int| starts_at(v, b, k)
}

/// The index of the character that starts at byte `b` of `v`.
pub open spec fn char_index(v: Seq<char>, b: int) -> int {
    choose|k: int| starts_at(v, b, k)
}

/// UTF-8 byte counts add up over a concatenation.
pub proof fn lemma_utf8_len_concat(a: Seq<char>, b: Seq<char>)
    ensures
        utf8_len(a + b) == utf8_len(a) + utf8_len(b),
    decreases b.len(),
{
    if b.len() == 0 {
        assert(a + b =~= a);
    } else {
        lemma_utf8_len_concat(a, b.drop_last());
        assert((a + b).drop_last() =~= a + b.drop_last());
        assert((a + b).last() == b.last());
    }
}

/// A longer prefix takes more bytes.
proof fn lemma_prefix_bytes_grow(v: Seq<char>, i: int, j: int)
    requires
        0 <= i < j <= v.len(),
    ensures
        utf8_len(v.take(i)) < utf8_len(v.take(j)),
    decreases j - i,
{
    assert(v.take(j).drop_last() =~= v.take(j - 1));
    if i < j - 1 {
        lemma_prefix_bytes_grow(v, i, j - 1);
    }
}

/// A byte where a character starts names that character.
pub proof fn lemma_char_index(v: Seq<char>, b: int, k: int)
    requires
        starts_at(v, b, k),
    ensures
        is_boundary(v, b),
        char_index(v, b) == k,
{
    let k2 = char_index(v, b);
    if k2 < k {
        lemma_prefix_bytes_grow(v, k2, k);
    } else if k < k2 {
        lemma_prefix_bytes_grow(v, k, k2);
    }
}

/// The byte length of `v`, in a type wide enough for any text.
fn bytes_of(v: &Vec<char>) -> (r: u128)
    ensures
        r == utf8_len(v@),
{
    let mut acc: u128 = 0;
    let mut i: usize = 0;
    while i < v.len()
        invariant
            i <= v.len(),
            acc == utf8_len(v@.take(i as int)),
            acc <= 4 * i,
        decreases v.len() - i,
    {
        assert(v@.take(i + 1).drop_last() =~= v@.take(i as int));
        acc = acc + char_width(v[i]) as u128;
        i = i + 1;
    }
    assert(v@.take(v.len() as int) =~= v@);
    acc
}

/// The index of the character that starts at byte `b` of `v`, if one does.
fn index_at_byte(v: &Vec<char>, b: usize) -> (r: Option<usize>)
    ensures
        match r {
            Some(k) => starts_at(v@, b as int, k as int),
            None => !is_boundary(v@, b as int),
        },
{
    let mut pos: u128 = 0;
    let mut i: usize = 0;
    while i < v.len() && pos < b as u128
        invariant
            i <= v.len(),
            pos == utf8_len(v@.take(i as int)),
            pos <= 4 * i,
            forall|k: int| 0 <= k < i ==> utf8_len(#[trigger] v@.take(k)) < b,
        decreases v.len() - i,
    {
        assert(v@.take(i + 1).drop_last() =~= v@.take(i as int));
        pos = pos + char_width(v[i]) as u128;
        i = i + 1;
    }
    if pos == b as u128 {
        Some(i)
    } else {
        assert forall|k: int| !starts_at(v@, b as int, k) by {
            if 0 <= k <= v@.len() && k > i {
                lemma_prefix_bytes_grow(v@, i as int, k);
            }
        }
        None
    }
}

/// A one-line text field with a cursor.
///
/// The cursor is a byte offset into the text, as `str` indexes it; Left and
/// Right move it one byte. A key that would edit the text at a byte that is
/// not a character boundary splits no character here: `handle_key` leaves
/// such keys out (see `key_fits`), as inserting or removing there is not
/// possible.
pub struct LineEditor {
    pub focused: bool,
    pub placeholder: Option<String>,
    pub is_secret: bool,
    pub title: String,
    pub value: String,
    pub error: Option<String>,
    pub cursor: usize,
}

/// The text after a key press, with the cursor at byte `c`.
pub open spec fn edited_value(v: Seq<char>, c: int, key: Key) -> Seq<char> {
    match key {
        Key::Backspace => if c > 0 && v.len() > 0 { v.remove(char_index(v, c - 1)) } else { v },
        Key::Delete => if c < utf8_len(v) && v.len() > 0 { v.remove(char_index(v, c)) } else { v },
        Key::Char(ch) => v.insert(char_index(v, c), ch),
        _ => v,
    }
}

/// Where a key press moves the cursor, before it is kept within the text.
pub open spec fn moved_cursor(v: Seq<char>, c: int, key: Key) -> int {
    match key {
        Key::Left => if c > 0 { c - 1 } else { c },
        Key::Right => if c < utf8_len(v) { c + 1 } else { c },
        Key::Backspace => if c > 0 && v.len() > 0 { c - 1 } else { c },
        Key::Char(_) => c + 1,
        Key::Home => 0,
        Key::End => utf8_len(v) as int,
        _ => c,
    }
}

/// The cursor after a key press: moved, then kept within the bytes of the
/// edited text.
pub open spec fn edited_cursor(v: Seq<char>, c: int, key: Key) -> int {
    let m = moved_cursor(v, c, key);
    let n = utf8_len(edited_value(v, c, key)) as int;
    if m > n { n } else { m }
}

/// The key can be taken with the cursor at byte `c`: an edit happens at a
/// character boundary and, for Backspace, before the end of the text (there
/// inserting or removing is not possible), and the text's byte length fits a
/// `usize` where the cursor is moved to or past it.
pub open spec fn key_fits(v: Seq<char>, c: int, key: Key) -> bool {
    match key {
        Key::Right => utf8_len(v) <= usize::MAX,
        Key::End => utf8_len(v) <= usize::MAX,
        Key::Backspace => c > 0 && v.len() > 0 ==> c - 1 < utf8_len(v) && is_boundary(v, c - 1),
        Key::Delete => c < utf8_len(v) && v.len() > 0 ==> is_boundary(v, c),
        Key::Char(_) => is_boundary(v, c) && utf8_len(v) < usize::MAX,
        _ => true,
    }
}

impl LineEditor {
    /// `key` can be handed to the editor as it stands (see `key_fits`).
    pub open spec fn takes(&self, key: Key) -> bool {
        key_fits(self.value@, self.cursor as int, key)
    }

    pub fn new(title: String, placeholder: Option<String>) -> (r: Self)
        ensures
            r.title == title,
            r.placeholder == placeholder,
            !r.focused,
            !r.is_secret,
            r.value@ == Seq::<char>::empty(),
            r.error.is_none(),
            r.cursor == 0,
    {
        LineEditor {
            focused: false,
            placeholder,
            is_secret: false,
            title,
            value: String::new(),
            error: None,
            cursor: 0,
        }
    }

    /// The same editor, masked or not.
    pub fn secret(self, is_secret: bool) -> (r: Self)
        ensures
            r == (LineEditor { is_secret, ..self }),
    {
        let mut s = self;
        s.is_secret = is_secret;
        s
    }

    /// Empties the text, the cursor and the error.
    pub fn clear(&mut self)
        ensures
            final(self).value@ == Seq::<char>::empty(),
            final(self).cursor == 0,
            final(self).error.is_none(),
            final(self).title == old(self).title,
            final(self).placeholder == old(self).placeholder,
            final(self).is_secret == old(self).is_secret,
            final(self).focused == old(self).focused,
    {
        self.value = String::new();
        self.cursor = 0;
        self.error = None;
    }

    /// Replaces the text, keeps the cursor within its bytes and drops the error.
    pub fn set_value(&mut self, value: String)
        ensures
            final(self).value@ == value@,
            final(self).cursor == (if old(self).cursor > utf8_len(value@) {
                utf8_len(value@) as usize
            } else {
                old(self).cursor
            }),
            final(self).error.is_none(),
            final(self).title == old(self).title,
            final(self).placeholder == old(self).placeholder,
            final(self).is_secret == old(self).is_secret,
            final(self).focused == old(self).focused,
    {
        let n = bytes_of(&to_chars(value.as_str()));
        self.value = value;
        if self.cursor as u128 > n {
            self.cursor = n as usize;
        }
        self.error = None;
    }

    /// Shows an error and keeps the text.
    pub fn set_error(&mut self, msg: String)
        ensures
            final(self).error == Some(msg),
            final(self).value == old(self).value,
            final(self).cursor == old(self).cursor,
            final(self).title == old(self).title,
            final(self).placeholder == old(self).placeholder,
            final(self).is_secret == old(self).is_secret,
            final(self).focused == old(self).focused,
    {
        self.error = Some(msg);
    }

    pub fn clear_error(&mut self)
        ensures
            final(self).error.is_none(),
            final(self).value == old(self).value,
            final(self).cursor == old(self).cursor,
            final(self).title == old(self).title,
            final(self).placeholder == old(self).placeholder,
            final(self).is_secret == old(self).is_secret,
            final(self).focused == old(self).focused,
    {
        self.error = None;
    }

    /// Shows an error and empties the text.
    pub fn error(&mut self, msg: String)
        ensures
            final(self).error == Some(msg),
            final(self).value@ == Seq::<char>::empty(),
            final(self).cursor == 0,
            final(self).title == old(self).title,
            final(self).placeholder == old(self).placeholder,
            final(self).is_secret == old(self).is_secret,
            final(self).focused == old(self).focused,
    {
        self.error = Some(msg);
        self.value = String::new();
        self.cursor = 0;
    }

    /// Edits the text or moves the cursor for one key press: Left and Right
    /// move one byte, Home and End to the ends, Backspace removes the
    /// character that starts a byte before the cursor and moves back one
    /// byte, Delete removes the character at the cursor, and a character is
    /// inserted at the cursor, which moves on one byte. The cursor is then
    /// kept within the bytes of the text.
    pub fn handle_key(&mut self, key: Key)
        requires
            key_fits(old(self).value@, old(self).cursor as int, key),
        ensures
            final(self).value@ == edited_value(old(self).value@, old(self).cursor as int, key),
            final(self).cursor as int == edited_cursor(old(self).value@, old(self).cursor as int, key),
            final(self).error == old(self).error,
            final(self).title == old(self).title,
            final(self).placeholder == old(self).placeholder,
            final(self).is_secret == old(self).is_secret,
            final(self).focused == old(self).focused,
    {
        let mut chars = to_chars(self.value.as_str());
        let ghost v = chars@;
        let n = bytes_of(&chars);
        let c = self.cursor;
        let mut cur = c;
        let mut changed = false;
        match key {
            Key::Left => {
                if c > 0 {
                    cur = c - 1;
                }
            },
            Key::Right => {
                if (c as u128) < n {
                    cur = c + 1;
                }
            },
            Key::Backspace => {
                if c > 0 && chars.len() > 0 {
                    match index_at_byte(&chars, c - 1) {
                        Some(k) => {
                            proof {
                                lemma_char_index(v, c - 1, k as int);
                                assert(v.take(v.len() as int) =~= v);
                            }
                            chars.remove(k);
                            cur = c - 1;
                            changed = true;
                        },
                        None => {},
                    }
                }
            },
            Key::Delete => {
                if (c as u128) < n && chars.len() > 0 {
                    match index_at_byte(&chars, c) {
                        Some(k) => {
                            proof {
                                lemma_char_index(v, c as int, k as int);
                                assert(v.take(v.len() as int) =~= v);
                            }
                            chars.remove(k);
                            changed = true;
                        },
                        None => {},
                    }
                }
            },
            Key::Char(ch) => {
                match index_at_byte(&chars, c) {
                    Some(k) => {
                        proof {
                            lemma_char_index(v, c as int, k as int);
                            crate::drivepages::lemma_utf8_len_prefix(v, k as int);
                        }
                        chars.insert(k, ch);
                        cur = c + 1;
                        changed = true;
                    },
                    None => {},
                }
            },
            Key::Home => {
                cur = 0;
            },
            Key::End => {
                cur = n as usize;
            },
            _ => {},
        }
        if changed {
            self.value = chars_to_string(&chars, 0, chars.len());
            assert(chars@.subrange(0, chars@.len() as int) =~= chars@);
        }
        let m = bytes_of(&chars);
        if cur as u128 > m {
            cur = m as usize;
        }
        self.cursor = cur;
    }

    /// Focuses the editor and keeps the cursor within the bytes of the text.
    pub fn focus(&mut self)
        ensures
            final(self).focused,
            final(self).cursor == (if old(self).cursor > utf8_len(old(self).value@) {
                utf8_len(old(self).value@) as usize
            } else {
                old(self).cursor
            }),
            final(self).value == old(self).value,
            final(self).error == old(self).error,
            final(self).title == old(self).title,
            final(self).placeholder == old(self).placeholder,
            final(self).is_secret == old(self).is_secret,
    {
        self.focused = true;
        let n = bytes_of(&to_chars(self.value.as_str()));
        if self.cursor as u128 > n {
            self.cursor = n as usize;
        }
    }

    pub fn unfocus(&mut self)
        ensures
            !final(self).focused,
            final(self).cursor == old(self).cursor,
            final(self).value == old(self).value,
            final(self).error == old(self).error,
            final(self).title == old(self).title,
            final(self).placeholder == old(self).placeholder,
            final(self).is_secret == old(self).is_secret,
    {
        self.focused = false;
    }

    pub fn is_focused(&self) -> (r: bool)
        ensures
            r == self.focused,
    {
        self.focused
    }
}


// ---------------------------------------------------------------------------
// Information texts
// ---------------------------------------------------------------------------

/// How a piece of an information text is shown.
#[derive(Clone, Copy, Debug, PartialEq, Eq, Structural)]
pub enum SpanStyle {
    Plain,
    /// Bold yellow.
    Highlight,
    /// Italic in the default colour.
    Italic,
}

/// A piece of an information text: a run of text in one style, or the end of a line.
#[derive(Clone, Copy, Debug, PartialEq, Eq)]
pub enum InfoPiece {
    Span(SpanStyle, &'static str),
    Break,
}

/// An information text with its title; every line ends with a `Break`.
#[derive(Debug)]
pub struct InfoText {
    pub title: &'static str,
    pub pieces: Vec<InfoPiece>,
}

// ---------------------------------------------------------------------------
// Button menus
// ---------------------------------------------------------------------------

/// A column of buttons, one of which has the cursor.
pub struct ButtonMenu {
    pub labels: Vec<String>,
    pub focused: bool,
    pub focused_child: Option<usize>,
}

impl ButtonMenu {
    /// The cursor, when there is one, is on a button; there is one whenever
    /// there are buttons.
    pub open spec fn wf(&self) -> bool {
        match self.focused_child {
            Some(i) => i < self.labels@.len(),
            None => self.labels@.len() == 0,
        }
    }

    /// A menu of the given buttons, unfocused, with the cursor on the first.
    pub fn button_menu(labels: Vec<String>) -> (r: Self)
        ensures
            r.wf(),
            r.labels == labels,
            !r.focused,
            r.focused_child == (if labels@.len() == 0 { None } else { Some(0usize) }),
    {
        let fc = if labels.len() == 0 { None } else { Some(0usize) };
        ButtonMenu { labels, focused: false, focused_child: fc }
    }

    /// Puts the cursor on button `idx` if there is one.
    pub fn select_child(&mut self, idx: usize) -> (r: bool)
        ensures
            r == (idx < old(self).labels@.len()),
            *final(self) == (if r { ButtonMenu { focused_child: Some(idx), ..*old(self) } } else { *old(self) }),
    {
        if idx < self.labels.len() {
            self.focused_child = Some(idx);
            true
        } else {
            false
        }
    }

    pub fn first_child(&mut self)
        ensures
            *final(self) == (if old(self).labels@.len() > 0 {
                ButtonMenu { focused_child: Some(0usize), ..*old(self) }
            } else {
                *old(self)
            }),
    {
        self.select_child(0);
    }

    pub fn last_child(&mut self)
        ensures
            *final(self) == (if old(self).labels@.len() > 0 {
                ButtonMenu { focused_child: Some((old(self).labels@.len() - 1) as usize), ..*old(self) }
            } else {
                *old(self)
            }),
    {
        let n = self.labels.len();
        let last = if n > 0 { n - 1 } else { 0 };
        self.select_child(last);
    }

    /// Moves the cursor one button down, if there is one below.
    pub fn next_child(&mut self) -> (r: bool)
        ensures
            ({
                let i = match old(self).focused_child { Some(i) => i, None => 0usize };
                &&& r == (i + 1 < old(self).labels@.len())
                &&& *final(self) == (if r {
                    ButtonMenu { focused_child: Some((i + 1) as usize), ..*old(self) }
                } else {
                    *old(self)
                })
            }),
    {
        let i = match self.focused_child {
            Some(i) => i,
            None => 0,
        };
        if i < self.labels.len() && i + 1 < self.labels.len() {
            self.focused_child = Some(i + 1);
            true
        } else {
            false
        }
    }

    /// Moves the cursor one button up, if it is not on the first.
    pub fn prev_child(&mut self) -> (r: bool)
        ensures
            ({
                let i = match old(self).focused_child { Some(i) => i, None => 0usize };
                &&& r == (i > 0)
                &&& *final(self) == (if r {
                    ButtonMenu { focused_child: Some((i - 1) as usize), ..*old(self) }
                } else {
                    *old(self)
                })
            }),
    {
        let i = match self.focused_child {
            Some(i) => i,
            None => 0,
        };
        if i > 0 {
            self.focused_child = Some(i - 1);
            true
        } else {
            false
        }
    }

    /// The button under the cursor.
    pub fn selected_child(&self) -> (r: Option<usize>)
        ensures
            r == self.focused_child,
    {
        self.focused_child
    }

    /// Focuses the menu; a cursor that is missing or off the buttons goes
    /// to the first button.
    pub fn focus(&mut self)
        requires
            old(self).labels@.len() > 0,
        ensures
            *final(self) == (ButtonMenu {
                focused: true,
                focused_child: match old(self).focused_child {
                    Some(i) => if i < old(self).labels@.len() { Some(i) } else { Some(0usize) },
                    None => Some(0usize),
                },
                ..*old(self)
            }),
    {
        self.focused = true;
        match self.focused_child {
            Some(i) => {
                if i >= self.labels.len() {
                    self.focused_child = Some(0);
                }
            },
            None => {
                self.focused_child = Some(0);
            },
        }
    }

    pub fn unfocus(&mut self)
        ensures
            *final(self) == (ButtonMenu { focused: false, ..*old(self) }),
    {
        self.focused = false;
    }

    pub fn is_focused(&self) -> (r: bool)
        ensures
            r == self.focused,
    {
        self.focused
    }
}

// ---------------------------------------------------------------------------
// String lists
// ---------------------------------------------------------------------------

/// An entry of a list's visible rows: the position of an item in the list.
pub struct StrListItem {
    pub idx: usize,
}

/// A list of strings with an optional fuzzy filter, a highlighted row among
/// the visible ones and a committed choice.
pub struct StrList {
    pub focused: bool,
    pub title: String,
    pub items: Vec<String>,
    pub filtered_items: Vec<StrListItem>,
    pub filter: Option<String>,
    pub selected_idx: usize,
    pub committed_idx: Option<usize>,
    pub committed: Option<String>,
}

/// The item positions of visible rows.
pub open spec fn row_indices(rows: Seq<StrListItem>) -> Seq<usize> {
    rows.map_values(|r: StrListItem| r.idx)
}

/// The fuzzy score of item `i` for `pattern`.
pub open spec fn score_at(items: Seq<Seq<char>>, pattern: Seq<char>, i: int) -> Option<i64> {
    skim_fuzzy_score(items[i], pattern)
}

/// Ranking of matches: a higher score first, and on equal scores the earlier item.
pub open spec fn ranks_before(a: (usize, i64), b: (usize, i64)) -> bool {
    a.1 > b.1 || (a.1 == b.1 && a.0 < b.0)
}

/// `idx` lists exactly the items that match `pattern`, best score first and,
/// among equal scores, in list order.
pub open spec fn ranked_matches(items: Seq<Seq<char>>, pattern: Seq<char>, idx: Seq<usize>) -> bool {
    &&& forall|j: int| 0 <= j < idx.len() ==> (#[trigger] idx[j]) < items.len()
        && score_at(items, pattern, idx[j] as int) is Some
    &&& forall|i: int| 0 <= i < items.len() && (#[trigger] score_at(items, pattern, i)) is Some
        ==> idx.contains(i as usize)
    &&& forall|j: int, k: int| 0 <= j < k < idx.len() ==> ranks_before(
        (#[trigger] idx[j], score_at(items, pattern, idx[j] as int)->0),
        (#[trigger] idx[k], score_at(items, pattern, idx[k] as int)->0),
    )
}

/// The visible rows for a filter: every item in order when there is none,
/// else the ranked matches.
pub open spec fn filtered_rows(items: Seq<Seq<char>>, filter: Option<Seq<char>>, idx: Seq<usize>) -> bool {
    match filter {
        None => idx == Seq::new(items.len(), |i: int| i as usize),
        Some(p) => ranked_matches(items, p, idx),
    }
}

/// The view of an optional string.
pub open spec fn opt_string_view(o: Option<String>) -> Option<Seq<char>> {
    match o {
        Some(s) => Some(s@),
        None => None,
    }
}

/// Rows for every item of a list of `n`, in order.
fn all_rows(n: usize) -> (r: Vec<StrListItem>)
    ensures
        row_indices(r@) == Seq::new(n as nat, |i: int| i as usize),
{
    let mut r: Vec<StrListItem> = Vec::new();
    let mut i: usize = 0;
    while i < n
        invariant
            i <= n,
            row_indices(r@) == Seq::new(i as nat, |k: int| k as usize),
        decreases n - i,
    {
        let ghost before = r@;
        r.push(StrListItem { idx: i });
        assert(r@ =~= before.push(StrListItem { idx: i }));
        assert(row_indices(r@) =~= row_indices(before).push(i));
        assert(row_indices(r@) =~= Seq::new((i + 1) as nat, |k: int| k as usize));
        i = i + 1;
    }
    r
}

/// The rows of the items that match `pattern`, ranked.
fn rank_matches(items: &Vec<String>, pattern: &str) -> (r: Vec<StrListItem>)
    ensures
        ranked_matches(strings_view(items@), pattern@, row_indices(r@)),
{
    let ghost iv = strings_view(items@);
    let mut ranked: Vec<(usize, i64)> = Vec::new();
    let mut i: usize = 0;
    while i < items.len()
        invariant
            i <= items@.len(),
            iv == strings_view(items@),
            forall|j: int| 0 <= j < ranked@.len() ==> (#[trigger] ranked@[j]).0 < i
                && score_at(iv, pattern@, ranked@[j].0 as int) == Some(ranked@[j].1),
            forall|x: int| 0 <= x < i && (#[trigger] score_at(iv, pattern@, x)) is Some
                ==> exists|j: int| 0 <= j < ranked@.len() && ranked@[j].0 == x,
            forall|j: int, k: int| 0 <= j < k < ranked@.len() ==> ranks_before(#[trigger] ranked@[j], #[trigger] ranked@[k]),
        decreases items@.len() - i,
    {
        assert(iv[i as int] == items@[i as int]@);
        match fuzzy_score(items[i].as_str(), pattern) {
            None => {},
            Some(sc) => {
                let mut p: usize = 0;
                while p < ranked.len() && ranked[p].1 >= sc
                    invariant
                        p <= ranked@.len(),
                        forall|q: int| 0 <= q < p ==> (#[trigger] ranked@[q]).1 >= sc,
                    decreases ranked@.len() - p,
                {
                    p = p + 1;
                }
                let ghost old_r = ranked@;
                proof {
                    assert forall|q: int| p <= q < old_r.len() implies (#[trigger] old_r[q]).1 < sc by {
                        if q > p {
                            assert(ranks_before(old_r[p as int], old_r[q]));
                        }
                    }
                }
                ranked.insert(p, (i, sc));
                proof {
                    let nr = ranked@;
                    assert(nr =~= old_r.insert(p as int, (i, sc)));
                    assert forall|j: int, k: int| 0 <= j < k < nr.len() implies ranks_before(
                        #[trigger] nr[j],
                        #[trigger] nr[k],
                    ) by {
                        if j < p && k > p {
                            assert(nr[k] == old_r[k - 1]);
                        } else if j == p {
                            assert(nr[k] == old_r[k - 1]);
                        } else if j > p {
                            assert(nr[j] == old_r[j - 1]);
                            assert(nr[k] == old_r[k - 1]);
                        }
                    }
                    assert forall|x: int| 0 <= x < i + 1 && (#[trigger] score_at(iv, pattern@, x)) is Some
                        implies exists|j: int| 0 <= j < nr.len() && nr[j].0 == x by {
                        if x == i {
                            assert(nr[p as int].0 == x);
                        } else {
                            let j0 = choose|j: int| 0 <= j < old_r.len() && old_r[j].0 == x;
                            if j0 < p {
                                assert(nr[j0].0 == x);
                            } else {
                                assert(nr[j0 + 1].0 == x);
                            }
                        }
                    }
                    assert forall|j: int| 0 <= j < nr.len() implies (#[trigger] nr[j]).0 < i + 1
                        && score_at(iv, pattern@, nr[j].0 as int) == Some(nr[j].1) by {
                        if j > p {
                            assert(nr[j] == old_r[j - 1]);
                        }
                    }
                }
            },
        }
        i = i + 1;
    }
    let mut r: Vec<StrListItem> = Vec::new();
    let mut k: usize = 0;
    while k < ranked.len()
        invariant
            k <= ranked@.len(),
            row_indices(r@) == ranked@.take(k as int).map_values(|e: (usize, i64)| e.0),
        decreases ranked@.len() - k,
    {
        let ghost before = r@;
        r.push(StrListItem { idx: ranked[k].0 });
        assert(r@ =~= before.push(StrListItem { idx: ranked@[k as int].0 }));
        assert(row_indices(r@) =~= row_indices(before).push(ranked@[k as int].0));
        assert(ranked@.take(k + 1) =~= ranked@.take(k as int).push(ranked@[k as int]));
        assert(row_indices(r@) =~= ranked@.take(k + 1).map_values(|e: (usize, i64)| e.0));
        k = k + 1;
    }
    proof {
        let idx = row_indices(r@);
        assert(ranked@.take(ranked@.len() as int) =~= ranked@);
        assert forall|j: int| 0 <= j < idx.len() implies (#[trigger] idx[j]) < iv.len()
            && score_at(iv, pattern@, idx[j] as int) is Some by {
            assert(idx[j] == ranked@[j].0);
        }
        assert forall|x: int| 0 <= x < iv.len() && (#[trigger] score_at(iv, pattern@, x)) is Some
            implies idx.contains(x as usize) by {
            let j0 = choose|j: int| 0 <= j < ranked@.len() && ranked@[j].0 == x;
            assert(idx[j0] == x as usize);
        }
        assert forall|j: int, k2: int| 0 <= j < k2 < idx.len() implies ranks_before(
            (#[trigger] idx[j], score_at(iv, pattern@, idx[j] as int)->0),
            (#[trigger] idx[k2], score_at(iv, pattern@, idx[k2] as int)->0),
        ) by {
            assert(ranks_before(ranked@[j], ranked@[k2]));
        }
    }
    r
}



/// The first `k` strings of `s`.
pub open spec fn prefix(s: Seq<String>, k: usize) -> Seq<String> {
    s.take(k as int)
}

/// `s` with `x` inserted at `p`.
pub open spec fn inserted(s: Seq<String>, p: usize, x: String) -> Seq<String> {
    s.insert(p as int, x)
}

proof fn lemma_prefix_empty(s: Seq<String>)
    ensures
        prefix(s, 0).to_multiset() == Seq::<String>::empty().to_multiset(),
{
    assert(prefix(s, 0) =~= Seq::<String>::empty());
}

proof fn lemma_prefix_next(s: Seq<String>, k: usize)
    requires
        k < s.len(),
        k < usize::MAX,
    ensures
        prefix(s, (k + 1) as usize).to_multiset() == prefix(s, k).to_multiset().insert(s[k as int]),
{
    broadcast use vstd::seq_lib::group_to_multiset_ensures;

    assert(s.take(k + 1) =~= s.take(k as int).push(s[k as int]));
}

proof fn lemma_prefix_full(s: Seq<String>, k: usize)
    requires
        k == s.len(),
    ensures
        prefix(s, k) == s,
{
    assert(s.take(k as int) =~= s);
}

proof fn lemma_insert_multiset(s: Seq<String>, p: usize, x: String)
    requires
        p <= s.len(),
    ensures
        inserted(s, p, x).to_multiset() == s.to_multiset().insert(x),
{
    broadcast use vstd::seq_lib::group_to_multiset_ensures;

    let t = s.insert(p as int, x);
    assert(t.remove(p as int) =~= s);
    assert(t[p as int] == x);
    assert(t.contains(x));
    assert(t.to_multiset().remove(x) =~= s.to_multiset());
    assert(t.to_multiset() =~= s.to_multiset().insert(x));
}

/// Inserting `x` at `p` keeps a list ordered by a transitive `before` when
/// the entry ahead of `p` comes before `x` and `x` comes before the rest.
proof fn lemma_insert_keeps_order(s: Seq<String>, p: usize, x: String, before: spec_fn(String, String) -> bool)
    requires
        p <= s.len(),
        forall|i: int, j: int| 0 <= i < j < s.len() ==> before(#[trigger] s[i], #[trigger] s[j]),
        p > 0 ==> before(s[p - 1], x),
        forall|q: int| p <= q < s.len() ==> before(x, #[trigger] s[q]),
        forall|a: String, b: String, c: String| #[trigger] before(a, b) && #[trigger] before(b, c) ==> before(a, c),
    ensures
        forall|i: int, j: int|
            0 <= i < j < inserted(s, p, x).len() ==> before(
                #[trigger] inserted(s, p, x)[i],
                #[trigger] inserted(s, p, x)[j],
            ),
{
    let ns = s.insert(p as int, x);
    assert forall|i: int, j: int| 0 <= i < j < ns.len() implies before(#[trigger] ns[i], #[trigger] ns[j]) by {
        if j < p {
            assert(ns[i] == s[i] && ns[j] == s[j]);
        } else if j == p {
            assert(ns[i] == s[i]);
            if i < p - 1 {
                assert(before(s[i], s[p - 1]));
            }
        } else if i > p {
            assert(ns[i] == s[i - 1] && ns[j] == s[j - 1]);
        } else if i == p {
            assert(ns[j] == s[j - 1]);
        } else {
            assert(ns[i] == s[i] && ns[j] == s[j - 1]);
            assert(before(s[i], s[j - 1]));
        }
    }
}

/// `compare` puts `a` after `b`.
pub open spec fn puts_after<F: Fn(&String, &String) -> std::cmp::Ordering>(compare: F, a: String, b: String) -> bool {
    compare.ensures((&a, &b), std::cmp::Ordering::Greater)
}

/// No answer of `compare` puts `a` after `b`.
pub open spec fn keeps_before<F: Fn(&String, &String) -> std::cmp::Ordering>(compare: F, a: String, b: String) -> bool {
    forall|o: std::cmp::Ordering| compare.ensures((&a, &b), o) ==> o != std::cmp::Ordering::Greater
}

/// `compare` can be called on any two strings, gives one answer for each
/// pair and orders them totally: when it puts `a` after `b` it keeps `b`
/// before `a`, and keeping before is transitive.
pub open spec fn orders_totally<F: Fn(&String, &String) -> std::cmp::Ordering>(compare: F) -> bool {
    &&& forall|a: &String, b: &String| #[trigger] compare.requires((a, b))
    &&& forall|a: &String, b: &String, o1: std::cmp::Ordering, o2: std::cmp::Ordering|
        #[trigger] compare.ensures((a, b), o1) && #[trigger] compare.ensures((a, b), o2) ==> o1 == o2
    &&& forall|a: String, b: String| #[trigger] puts_after(compare, a, b) ==> keeps_before(compare, b, a)
    &&& forall|a: String, b: String, c: String|
        #[trigger] keeps_before(compare, a, b) && #[trigger] keeps_before(compare, b, c) ==> keeps_before(
            compare,
            a,
            c,
        )
}

fn is_greater<F: Fn(&String, &String) -> std::cmp::Ordering>(compare: &F, a: &String, b: &String) -> (r: bool)
    requires
        orders_totally(*compare),
    ensures
        r ==> puts_after(*compare, *a, *b),
        !r ==> keeps_before(*compare, *a, *b),
{
    let o = compare(a, b);
    match o {
        std::cmp::Ordering::Greater => true,
        _ => false,
    }
}

impl StrList {
    /// The visible rows are those that the list's filter gives.
    pub open spec fn rows_ok(&self) -> bool {
        filtered_rows(strings_view(self.items@), opt_string_view(self.filter), row_indices(self.filtered_items@))
    }

    /// The item on the highlighted visible row, if there is one.
    pub open spec fn selected_view(&self) -> Option<String> {
        if self.selected_idx < self.filtered_items@.len()
            && self.filtered_items@[self.selected_idx as int].idx < self.items@.len() {
            Some(self.items@[self.filtered_items@[self.selected_idx as int].idx as int])
        } else {
            None
        }
    }

    pub fn new(title: String, items: Vec<String>) -> (r: Self)
        ensures
            r.title == title,
            r.items == items,
            r.filter.is_none(),
            r.rows_ok(),
            r.selected_idx == 0,
            r.committed_idx.is_none(),
            r.committed.is_none(),
            !r.focused,
    {
        let rows = all_rows(items.len());
        StrList {
            focused: false,
            title,
            filtered_items: rows,
            items,
            filter: None,
            selected_idx: 0,
            committed_idx: None,
            committed: None,
        }
    }

    pub fn selected_item(&self) -> (r: Option<&String>)
        ensures
            match r {
                Some(s) => self.selected_view() == Some(*s),
                None => self.selected_view().is_none(),
            },
    {
        if self.selected_idx < self.filtered_items.len() {
            let k = self.filtered_items[self.selected_idx].idx;
            if k < self.items.len() {
                return Some(&self.items[k]);
            }
        }
        None
    }

    /// Moves the highlight one visible row down, if there is one.
    pub fn next_item(&mut self) -> (r: bool)
        ensures
            r == (old(self).selected_idx + 1 < old(self).filtered_items@.len()),
            *final(self) == (StrList {
                selected_idx: if r { (old(self).selected_idx + 1) as usize } else { old(self).selected_idx },
                ..*old(self)
            }),
    {
        let n = self.filtered_items.len();
        if n > 0 && self.selected_idx < n - 1 {
            self.selected_idx = self.selected_idx + 1;
            true
        } else {
            false
        }
    }

    /// Moves the highlight one row up, if it is not on the first.
    pub fn previous_item(&mut self) -> (r: bool)
        ensures
            r == (old(self).selected_idx > 0),
            *final(self) == (StrList {
                selected_idx: if r { (old(self).selected_idx - 1) as usize } else { old(self).selected_idx },
                ..*old(self)
            }),
    {
        if self.selected_idx > 0 {
            self.selected_idx = self.selected_idx - 1;
            true
        } else {
            false
        }
    }

    pub fn first_item(&mut self)
        ensures
            *final(self) == (StrList { selected_idx: 0, ..*old(self) }),
    {
        self.selected_idx = 0;
    }

    /// Highlights the row of the last item (counted over all items).
    pub fn last_item(&mut self)
        ensures
            *final(self) == (StrList {
                selected_idx: if old(self).items@.len() > 0 { (old(self).items@.len() - 1) as usize } else { 0 },
                ..*old(self)
            }),
    {
        let n = self.items.len();
        self.selected_idx = if n > 0 { n - 1 } else { 0 };
    }

    pub fn len(&self) -> (r: usize)
        ensures
            r == self.items@.len(),
    {
        self.items.len()
    }

    pub fn is_empty(&self) -> (r: bool)
        ensures
            r == (self.items@.len() == 0),
    {
        self.items.len() == 0
    }

    /// Sets or drops the filter, recomputes the visible rows and highlights the first.
    pub fn set_filter(&mut self, filter: Option<String>)
        ensures
            final(self).rows_ok(),
            final(self).filter == filter,
            final(self).selected_idx == 0,
            final(self).items == old(self).items,
            final(self).title == old(self).title,
            final(self).focused == old(self).focused,
            final(self).committed == old(self).committed,
            final(self).committed_idx == old(self).committed_idx,
    {
        match filter {
            Some(f) => {
                let rows = rank_matches(&self.items, f.as_str());
                self.filtered_items = rows;
                self.filter = Some(f);
            },
            None => {
                self.filter = None;
                self.filtered_items = all_rows(self.items.len());
            },
        }
        self.selected_idx = 0;
    }

    /// Sorts the items and recomputes the visible rows.
    pub fn sort(&mut self)
        ensures
            sorted_seqs(strings_view(final(self).items@)),
            strings_view(final(self).items@).to_multiset() == strings_view(old(self).items@).to_multiset(),
            final(self).rows_ok(),
            final(self).filter == old(self).filter,
            final(self).selected_idx == 0,
            final(self).title == old(self).title,
            final(self).focused == old(self).focused,
            final(self).committed == old(self).committed,
            final(self).committed_idx == old(self).committed_idx,
    {
        self.items = sort_strings(&self.items);
        let f = clone_opt(&self.filter);
        self.set_filter(f);
    }

    /// Replaces the items and recomputes the visible rows.
    /// Sorts the items with `compare` (by insertion, keeping equal items in
    /// order) and applies the filter again.
    pub fn sort_by<F: Fn(&String, &String) -> std::cmp::Ordering>(&mut self, compare: F)
        requires
            orders_totally(compare),
        ensures
            final(self).items@.to_multiset() == old(self).items@.to_multiset(),
            forall|i: int, j: int|
                0 <= i < j < final(self).items@.len() ==> keeps_before(
                    compare,
                    #[trigger] final(self).items@[i],
                    #[trigger] final(self).items@[j],
                ),
            final(self).rows_ok(),
            final(self).filter == old(self).filter,
            final(self).selected_idx == 0,
            final(self).title == old(self).title,
            final(self).focused == old(self).focused,
            final(self).committed == old(self).committed,
            final(self).committed_idx == old(self).committed_idx,
    {
        let ghost before = |a: String, b: String| keeps_before(compare, a, b);
        let mut sorted: Vec<String> = Vec::new();
        let mut k: usize = 0;
        proof {
            lemma_prefix_empty(self.items@);
        }
        while k < self.items.len()
            invariant
                k <= self.items@.len(),
                orders_totally(compare),
                before == (|a: String, b: String| keeps_before(compare, a, b)),
                sorted@.to_multiset() == prefix(self.items@, k).to_multiset(),
                forall|i: int, j: int| 0 <= i < j < sorted@.len() ==> before(#[trigger] sorted@[i], #[trigger] sorted@[j]),
            decreases self.items@.len() - k,
        {
            let x = self.items[k].clone();
            let mut p: usize = sorted.len();
            while p > 0 && is_greater(&compare, &sorted[p - 1], &x)
                invariant
                    p <= sorted@.len(),
                    orders_totally(compare),
                    forall|q: int| p <= q < sorted@.len() ==> puts_after(compare, #[trigger] sorted@[q], x),
                decreases p,
            {
                p = p - 1;
            }
            let ghost old_s = sorted@;
            proof {
                assert forall|q: int| p <= q < old_s.len() implies before(x, #[trigger] old_s[q]) by {
                    assert(puts_after(compare, old_s[q], x));
                }
                assert forall|a: String, b: String, c: String| #[trigger] before(a, b) && #[trigger] before(b, c) implies before(a, c) by {
                    assert(keeps_before(compare, a, b) && keeps_before(compare, b, c));
                }
                lemma_insert_keeps_order(old_s, p, x, before);
                lemma_insert_multiset(old_s, p, x);
                lemma_prefix_next(self.items@, k);
            }
            sorted.insert(p, x);
            assert(sorted@ =~= inserted(old_s, p, x));
            k = k + 1;
        }
        proof {
            lemma_prefix_full(self.items@, k);
        }
        self.items = sorted;
        let f = clone_opt(&self.filter);
        self.set_filter(f);
    }

    pub fn set_items(&mut self, items: Vec<String>)
        ensures
            final(self).items == items,
            final(self).rows_ok(),
            final(self).filter == old(self).filter,
            final(self).selected_idx == 0,
            final(self).title == old(self).title,
            final(self).focused == old(self).focused,
            final(self).committed == old(self).committed,
            final(self).committed_idx == old(self).committed_idx,
    {
        self.items = items;
        if self.selected_idx >= self.items.len() {
            let n = self.items.len();
            self.selected_idx = if n > 0 { n - 1 } else { 0 };
        }
        let f = clone_opt(&self.filter);
        self.set_filter(f);
    }

    /// Appends an item without touching the visible rows.
    pub fn push_item(&mut self, item: String)
        ensures
            *final(self) == (StrList { items: final(self).items, ..*old(self) }),
            final(self).items@ == old(self).items@.push(item),
    {
        self.items.push(item);
    }

    /// Appends an item unless the list holds it already; tells whether it did.
    pub fn push_unique(&mut self, item: String) -> (r: bool)
        ensures
            r == !strings_view(old(self).items@).contains(item@),
            r ==> *final(self) == (StrList { items: final(self).items, ..*old(self) }),
            r ==> final(self).items@ == old(self).items@.push(item),
            !r ==> *final(self) == *old(self),
    {
        if !strings_contain(&self.items, item.as_str()) {
            self.push_item(item);
            true
        } else {
            false
        }
    }

    /// Adds an item that the list does not hold yet, then sorts; tells whether it did.
    pub fn push_sort_unique(&mut self, item: String) -> (r: bool)
        ensures
            r == !strings_view(old(self).items@).contains(item@),
            !r ==> *final(self) == *old(self),
            r ==> {
                &&& sorted_seqs(strings_view(final(self).items@))
                &&& strings_view(final(self).items@).to_multiset()
                    == strings_view(old(self).items@).to_multiset().insert(item@)
                &&& final(self).rows_ok()
                &&& final(self).filter == old(self).filter
                &&& final(self).selected_idx == 0
            },
            final(self).title == old(self).title,
            final(self).focused == old(self).focused,
            final(self).committed == old(self).committed,
            final(self).committed_idx == old(self).committed_idx,
    {
        let ghost iv = item@;
        let added = self.push_unique(item);
        if added {
            proof {
                assert(strings_view(self.items@) =~= strings_view(old(self).items@).push(iv));
                vstd::seq_lib::to_multiset_build(strings_view(old(self).items@), iv);
            }
            self.sort();
        }
        added
    }

    /// Appends an item, then sorts.
    pub fn push_sort(&mut self, item: String)
        ensures
            sorted_seqs(strings_view(final(self).items@)),
            strings_view(final(self).items@).to_multiset()
                == strings_view(old(self).items@).to_multiset().insert(item@),
            final(self).rows_ok(),
            final(self).filter == old(self).filter,
            final(self).selected_idx == 0,
            final(self).title == old(self).title,
            final(self).focused == old(self).focused,
            final(self).committed == old(self).committed,
            final(self).committed_idx == old(self).committed_idx,
    {
        let ghost iv = item@;
        self.push_item(item);
        proof {
            assert(strings_view(self.items@) =~= strings_view(old(self).items@).push(iv));
            vstd::seq_lib::to_multiset_build(strings_view(old(self).items@), iv);
        }
        self.sort();
    }

    /// Appends an item and recomputes the visible rows.
    pub fn add_item(&mut self, item: String)
        ensures
            final(self).items@ == old(self).items@.push(item),
            final(self).rows_ok(),
            final(self).filter == old(self).filter,
            final(self).selected_idx == 0,
            final(self).title == old(self).title,
            final(self).focused == old(self).focused,
            final(self).committed == old(self).committed,
            final(self).committed_idx == old(self).committed_idx,
    {
        self.push_item(item);
        let f = clone_opt(&self.filter);
        self.set_filter(f);
    }

    /// Removes the item on visible row `idx`, recomputes the rows and returns
    /// the item; `None`, with nothing changed, when there is no such row.
    pub fn remove_item(&mut self, idx: usize) -> (r: Option<String>)
        ensures
            ({
                let ok = idx < old(self).filtered_items@.len()
                    && old(self).filtered_items@[idx as int].idx < old(self).items@.len();
                let k = old(self).filtered_items@[idx as int].idx as int;
                if ok {
                    &&& r == Some(old(self).items@[k])
                    &&& final(self).items@ == old(self).items@.remove(k)
                    &&& final(self).rows_ok()
                    &&& final(self).filter == old(self).filter
                    &&& final(self).selected_idx == 0
                    &&& final(self).title == old(self).title
                    &&& final(self).focused == old(self).focused
                    &&& final(self).committed == old(self).committed
                    &&& final(self).committed_idx == old(self).committed_idx
                } else {
                    r.is_none() && *final(self) == *old(self)
                }
            }),
    {
        if idx >= self.filtered_items.len() {
            return None;
        }
        let k = self.filtered_items[idx].idx;
        if k < self.items.len() {
            let item = self.items.remove(k);
            let f = clone_opt(&self.filter);
            self.set_filter(f);
            if self.selected_idx >= self.filtered_items.len() && self.filtered_items.len() > 0 {
                self.selected_idx = self.filtered_items.len() - 1;
            }
            Some(item)
        } else {
            None
        }
    }

    /// Removes the item on the highlighted row (see `remove_item`).
    pub fn remove_selected(&mut self) -> (r: Option<String>)
        ensures
            ({
                let idx = old(self).selected_idx;
                let ok = idx < old(self).filtered_items@.len()
                    && old(self).filtered_items@[idx as int].idx < old(self).items@.len();
                let k = old(self).filtered_items@[idx as int].idx as int;
                if ok {
                    &&& r == Some(old(self).items@[k])
                    &&& final(self).items@ == old(self).items@.remove(k)
                    &&& final(self).rows_ok()
                    &&& final(self).filter == old(self).filter
                    &&& final(self).selected_idx == 0
                    &&& final(self).title == old(self).title
                    &&& final(self).focused == old(self).focused
                    &&& final(self).committed == old(self).committed
                    &&& final(self).committed_idx == old(self).committed_idx
                } else {
                    r.is_none() && *final(self) == *old(self)
                }
            }),
    {
        let idx = self.selected_idx;
        self.remove_item(idx)
    }

    /// Up or `k` and Down or `j` move the highlight within the items; Enter
    /// commits the highlighted position and the item there.
    pub fn handle_key(&mut self, key: Key)
        requires
            key == Key::Enter ==> old(self).selected_idx < old(self).items@.len(),
        ensures
            ({
                let sel = old(self).selected_idx;
                if key == Key::Up || key == Key::Char('k') {
                    *final(self) == (StrList {
                        selected_idx: if sel > 0 { (sel - 1) as usize } else { sel },
                        ..*old(self)
                    })
                } else if key == Key::Down || key == Key::Char('j') {
                    *final(self) == (StrList {
                        selected_idx: if sel + 1 < old(self).items@.len() { (sel + 1) as usize } else { sel },
                        ..*old(self)
                    })
                } else if key == Key::Enter {
                    *final(self) == (StrList {
                        committed: Some(old(self).items@[sel as int]),
                        committed_idx: Some(sel),
                        ..*old(self)
                    })
                } else {
                    *final(self) == *old(self)
                }
            }),
    {
        match key {
            Key::Up | Key::Char('k') => {
                if self.selected_idx > 0 {
                    self.selected_idx = self.selected_idx - 1;
                }
            },
            Key::Down | Key::Char('j') => {
                let n = self.items.len();
                if n > 0 && self.selected_idx < n - 1 {
                    self.selected_idx = self.selected_idx + 1;
                }
            },
            Key::Enter => {
                let sel = self.selected_idx;
                self.committed = Some(self.items[sel].clone());
                self.committed_idx = Some(sel);
            },
            _ => {},
        }
    }

    pub fn focus(&mut self)
        ensures
            *final(self) == (StrList { focused: true, ..*old(self) }),
    {
        self.focused = true;
    }

    pub fn unfocus(&mut self)
        ensures
            *final(self) == (StrList { focused: false, ..*old(self) }),
    {
        self.focused = false;
    }

    pub fn is_focused(&self) -> (r: bool)
        ensures
            r == self.focused,
    {
        self.focused
    }
}

/// A list over items that arrive already ordered; it keeps no filter rows.
pub struct OptimizedStrList {
    pub focused: bool,
    pub title: String,
    pub items: Vec<String>,
    pub filter: Option<String>,
    pub selected_idx: usize,
}

impl OptimizedStrList {
    pub fn new(title: String, items: Vec<String>) -> (r: Self)
        ensures
            r == (OptimizedStrList { focused: false, title, items, filter: None, selected_idx: 0 }),
    {
        OptimizedStrList { focused: false, title, items, filter: None, selected_idx: 0 }
    }

    /// Replaces the items and keeps the highlight on an item.
    pub fn set_items(&mut self, items: Vec<String>)
        ensures
            *final(self) == (OptimizedStrList {
                items,
                selected_idx: if old(self).selected_idx >= items@.len() {
                    if items@.len() > 0 { (items@.len() - 1) as usize } else { 0 }
                } else {
                    old(self).selected_idx
                },
                ..*old(self)
            }),
    {
        self.items = items;
        if self.selected_idx >= self.items.len() {
            let n = self.items.len();
            self.selected_idx = if n > 0 { n - 1 } else { 0 };
        }
    }

    pub fn selected_item(&self) -> (r: Option<&String>)
        ensures
            r == (if self.selected_idx < self.items@.len() {
                Some(&self.items@[self.selected_idx as int])
            } else {
                None
            }),
    {
        if self.selected_idx < self.items.len() {
            Some(&self.items[self.selected_idx])
        } else {
            None
        }
    }

    pub fn next_item(&mut self) -> (r: bool)
        ensures
            r == (old(self).selected_idx + 1 < old(self).items@.len()),
            *final(self) == (OptimizedStrList {
                selected_idx: if r { (old(self).selected_idx + 1) as usize } else { old(self).selected_idx },
                ..*old(self)
            }),
    {
        let n = self.items.len();
        if n > 0 && self.selected_idx < n - 1 {
            self.selected_idx = self.selected_idx + 1;
            true
        } else {
            false
        }
    }

    pub fn previous_item(&mut self) -> (r: bool)
        ensures
            r == (old(self).selected_idx > 0),
            *final(self) == (OptimizedStrList {
                selected_idx: if r { (old(self).selected_idx - 1) as usize } else { old(self).selected_idx },
                ..*old(self)
            }),
    {
        if self.selected_idx > 0 {
            self.selected_idx = self.selected_idx - 1;
            true
        } else {
            false
        }
    }

    pub fn len(&self) -> (r: usize)
        ensures
            r == self.items@.len(),
    {
        self.items.len()
    }

    pub fn is_empty(&self) -> (r: bool)
        ensures
            r == (self.items@.len() == 0),
    {
        self.items.len() == 0
    }

    pub fn focus(&mut self)
        ensures
            *final(self) == (OptimizedStrList { focused: true, ..*old(self) }),
    {
        self.focused = true;
    }

    pub fn unfocus(&mut self)
        ensures
            *final(self) == (OptimizedStrList { focused: false, ..*old(self) }),
    {
        self.focused = false;
    }

    pub fn is_focused(&self) -> (r: bool)
        ensures
            r == self.focused,
    {
        self.focused
    }
}


// ---------------------------------------------------------------------------
// Ticker glyphs
// ---------------------------------------------------------------------------

/// The digit that stands for a letter in leet spelling, for the letters that have one.
pub open spec fn leet_spec(c: char) -> Option<char> {
    if c == 'a' || c == 'A' {
        Some('4')
    } else if c == 'e' || c == 'E' {
        Some('3')
    } else if c == 'i' || c == 'I' {
        Some('1')
    } else if c == 'o' || c == 'O' {
        Some('0')
    } else if c == 's' || c == 'S' {
        Some('5')
    } else if c == 't' || c == 'T' {
        Some('7')
    } else if c == 'g' || c == 'G' {
        Some('9')
    } else {
        None
    }
}

pub fn leet_map(c: char) -> (r: Option<char>)
    ensures
        r == leet_spec(c),
{
    match c {
        'a' | 'A' => Some('4'),
        'e' | 'E' => Some('3'),
        'i' | 'I' => Some('1'),
        'o' | 'O' => Some('0'),
        's' | 'S' => Some('5'),
        't' | 'T' => Some('7'),
        'g' | 'G' => Some('9'),
        _ => None,
    }
}

/// An ASCII letter in the other case; any other character unchanged.
pub open spec fn swap_case_spec(c: char) -> char {
    if 'a' <= c <= 'z' {
        ((c as u32) - 32) as char
    } else if 'A' <= c <= 'Z' {
        ((c as u32) + 32) as char
    } else {
        c
    }
}

/// One character of the ticker's glitched text: its case swapped when
/// `swap_case` is drawn, then its leet digit when `leet` is drawn and it has one.
pub fn glitch_char(c: char, swap_case: bool, leet: bool) -> (r: char)
    ensures
        ({
            let d = if swap_case { swap_case_spec(c) } else { c };
            r == (if leet && leet_spec(d) is Some { leet_spec(d)->0 } else { d })
        }),
{
    let mut d = c;
    if swap_case {
        if 'a' <= c && c <= 'z' {
            d = ((c as u8) - 32) as char;
        } else if 'A' <= c && c <= 'Z' {
            d = ((c as u8) + 32) as char;
        }
    }
    if leet {
        match leet_map(d) {
            Some(sub) => {
                d = sub;
            },
            None => {},
        }
    }
    d
}

} // verus!
