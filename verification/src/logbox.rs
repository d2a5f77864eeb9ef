//! The box that shows the installation log: the last lines written, with
//! terminal escapes removed and each run of blank lines shown as one.
use vstd::prelude::*;
use ansi_to_tui::IntoText;
use crate::text::{strings_view, to_chars, trim, trim_end, trim_end_seq, trim_seq};

verus! {

/// `s` without its terminal escape sequences.
pub uninterp spec fn ansi_stripped(s: Seq<char>) -> Seq<char>;

/// Removes terminal escape sequences with `strip_ansi_escapes::strip_str`.
/// The contract names the result by `ansi_stripped`.
#[verifier::external_body]
fn strip_ansi(s: &str) -> (r: String)
    ensures
        r@ == ansi_stripped(s@),
{
    strip_ansi_escapes::strip_str(s)
}

/// The text of each line that `s` parses into as styled terminal text; `None`
/// where it does not parse.
pub uninterp spec fn ansi_text_lines(s: Seq<char>) -> Option<Seq<Seq<char>>>;

/// Parses `s` with `ansi_to_tui::IntoText::into_text` and gives the text of
/// each line of the result (its spans' contents, in order). The contract
/// names the result by `ansi_text_lines`: `None` exactly where the parser
/// reports an error.
#[verifier::external_body]
fn parse_ansi_lines(s: &str) -> (r: Option<Vec<String>>)
    ensures
        match r {
            Some(v) => ansi_text_lines(s@) == Some(strings_view(v@)),
            None => ansi_text_lines(s@) is None,
        },
{
    match s.into_text() {
        Ok(t) => Some(t.lines.iter().map(|l| l.spans.iter().map(|sp| sp.content.as_ref()).collect()).collect()),
        Err(_) => None,
    }
}

/// `buf` with `line` added at the end, dropping the first line when it
/// would hold more than `max`.
pub open spec fn capped_push(buf: Seq<Seq<char>>, line: Seq<char>, max: nat) -> Seq<Seq<char>> {
    if buf.len() + 1 > max {
        buf.push(line).drop_first()
    } else {
        buf.push(line)
    }
}

/// `buf` with each of `lines` added in turn by `capped_push`.
pub open spec fn capped_push_all(buf: Seq<Seq<char>>, lines: Seq<Seq<char>>, max: nat) -> Seq<Seq<char>>
    decreases lines.len(),
{
    if lines.len() == 0 {
        buf
    } else {
        capped_push(capped_push_all(buf, lines.drop_last(), max), lines.last(), max)
    }
}

/// The lines and the blank-line flag after `out` is written: its escapes
/// removed, a blank text adds one empty line unless the last thing added was
/// one, other text adds its parsed lines (or itself where it does not parse).
pub open spec fn logged(buf: Seq<Seq<char>>, last_blank: bool, out: Seq<char>, max: nat) -> (
    Seq<Seq<char>>,
    bool,
) {
    let stripped = ansi_stripped(out);
    if trim_seq(stripped).len() == 0 {
        if last_blank {
            (buf, true)
        } else {
            (capped_push(buf, Seq::empty(), max), true)
        }
    } else {
        match ansi_text_lines(stripped) {
            Some(ls) => (capped_push_all(buf, ls, max), false),
            None => (capped_push(buf, stripped, max), false),
        }
    }
}

/// Adding lines never makes a buffer that holds at most `max` lines hold more.
pub proof fn lemma_capped_len(buf: Seq<Seq<char>>, lines: Seq<Seq<char>>, max: nat)
    requires
        max >= 1,
        buf.len() <= max,
    ensures
        capped_push_all(buf, lines, max).len() <= max,
    decreases lines.len(),
{
    if lines.len() > 0 {
        lemma_capped_len(buf, lines.drop_last(), max);
    }
}

/// The number of lines a log box keeps.
pub const LOG_LINES: usize = 1000;

pub struct LogBox {
    pub title: String,
    pub focused: bool,
    pub line_buf: Vec<String>,
    pub last_pushed_blank: bool,
}

impl LogBox {
    /// The buffer keeps at most `LOG_LINES` lines.
    pub open spec fn wf(&self) -> bool {
        self.line_buf@.len() <= LOG_LINES
    }

    /// An empty, unfocused box that keeps the last thousand lines.
    pub fn new(title: String) -> (r: Self)
        ensures
            r.wf(),
            r.title == title,
            !r.focused,
            r.line_buf@.len() == 0,
            !r.last_pushed_blank,
    {
        LogBox { title, focused: false, line_buf: Vec::new(), last_pushed_blank: false }
    }

    fn push_line(&mut self, line: String)
        requires
            old(self).wf(),
        ensures
            final(self).wf(),
            strings_view(final(self).line_buf@) == capped_push(
                strings_view(old(self).line_buf@),
                line@,
                LOG_LINES as nat,
            ),
            final(self).last_pushed_blank == old(self).last_pushed_blank,
            final(self).title == old(self).title && final(self).focused == old(self).focused,
    {
        let ghost before = strings_view(self.line_buf@);
        self.line_buf.push(line);
        assert(strings_view(self.line_buf@) =~= before.push(line@));
        if self.line_buf.len() > LOG_LINES {
            let ghost full = self.line_buf@;
            self.line_buf.remove(0);
            assert(strings_view(self.line_buf@) =~= strings_view(full).drop_first());
        }
    }

    /// Writes `log_output` into the box (see `logged`).
    pub fn write_log(&mut self, log_output: &str)
        requires
            old(self).wf(),
        ensures
            final(self).wf(),
            (strings_view(final(self).line_buf@), final(self).last_pushed_blank) == logged(
                strings_view(old(self).line_buf@),
                old(self).last_pushed_blank,
                log_output@,
                LOG_LINES as nat,
            ),
            final(self).title == old(self).title && final(self).focused == old(self).focused,
    {
        let stripped = strip_ansi(log_output);
        let blank = to_chars(trim(stripped.as_str()).as_str()).len() == 0;
        if blank {
            if !self.last_pushed_blank {
                self.push_line(String::new());
                self.last_pushed_blank = true;
            }
        } else {
            match parse_ansi_lines(stripped.as_str()) {
                Some(lines) => {
                    let ghost start = strings_view(self.line_buf@);
                    let ghost ls = strings_view(lines@);
                    let mut i: usize = 0;
                    while i < lines.len()
                        invariant
                            i <= lines@.len(),
                            ls == strings_view(lines@),
                            self.wf(),
                            self.last_pushed_blank == old(self).last_pushed_blank,
                            self.title == old(self).title && self.focused == old(self).focused,
                            strings_view(self.line_buf@) == capped_push_all(
                                start,
                                ls.take(i as int),
                                LOG_LINES as nat,
                            ),
                        decreases lines@.len() - i,
                    {
                        self.push_line(lines[i].clone());
                        assert(ls.take(i + 1).drop_last() =~= ls.take(i as int));
                        i = i + 1;
                    }
                    assert(ls.take(lines@.len() as int) =~= ls);
                },
                None => {
                    self.push_line(stripped);
                },
            }
            self.last_pushed_blank = false;
        }
    }

    /// Takes one line read from the log file: its trailing white space (the
    /// line feed among it) goes, then it is written as `write_log` does.
    pub fn take_log_line(&mut self, raw: &str)
        requires
            old(self).wf(),
        ensures
            final(self).wf(),
            (strings_view(final(self).line_buf@), final(self).last_pushed_blank) == logged(
                strings_view(old(self).line_buf@),
                old(self).last_pushed_blank,
                trim_end_seq(raw@),
                LOG_LINES as nat,
            ),
    {
        let line = trim_end(raw);
        self.write_log(line.as_str());
    }

    pub fn focus(&mut self)
        ensures
            final(self).focused,
            final(self).line_buf == old(self).line_buf,
            final(self).last_pushed_blank == old(self).last_pushed_blank,
            final(self).title == old(self).title,
    {
        self.focused = true;
    }

    pub fn unfocus(&mut self)
        ensures
            !final(self).focused,
            final(self).line_buf == old(self).line_buf,
            final(self).last_pushed_blank == old(self).last_pushed_blank,
            final(self).title == old(self).title,
    {
        self.focused = false;
    }

    pub fn is_focused(&self) -> (r: bool)
        ensures
            r == self.focused,
    {
        self.focused
    }
}

} // verus!
