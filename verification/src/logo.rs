//! Logos stored as base64 of gzip-packed text in which each escape character
//! is written out as the four characters `\x1b`, and the lines they unpack to.
use vstd::prelude::*;
use base64::Engine;
use std::io::Read;
use crate::text::{chars_to_string, push_char, split_char, split_seq, strings_view, to_chars};

verus! {

/// The bytes that the standard base64 alphabet, with padding, decodes `s`
/// to; `None` where `s` is not valid base64.
pub uninterp spec fn base64_decoded(s: Seq<char>) -> Option<Seq<u8>>;

/// Decodes `s` with `base64::engine::general_purpose::STANDARD`. The contract
/// names the result by `base64_decoded`: `None` exactly where the crate
/// reports a decoding error.
#[verifier::external_body]
fn base64_decode(s: &str) -> (r: Option<Vec<u8>>)
    ensures
        match r {
            Some(v) => base64_decoded(s@) == Some(v@),
            None => base64_decoded(s@) is None,
        },
{
    match base64::engine::general_purpose::STANDARD.decode(s) {
        Ok(v) => Some(v),
        Err(_) => None,
    }
}

/// The text that the gzip stream `b` unpacks to; `None` where `b` is not a
/// valid gzip stream or what it holds is not UTF-8.
pub uninterp spec fn gunzipped_text(b: Seq<u8>) -> Option<Seq<char>>;

/// Reads the gzip stream `b` to its end through `flate2::read::GzDecoder`.
/// The contract names the result by `gunzipped_text`: `None` exactly where
/// the read reports an error.
#[verifier::external_body]
fn gunzip_text(b: &Vec<u8>) -> (r: Option<String>)
    ensures
        match r {
            Some(t) => gunzipped_text(b@) == Some(t@),
            None => gunzipped_text(b@) is None,
        },
{
    let mut out = String::new();
    match flate2::read::GzDecoder::new(b.as_slice()).read_to_string(&mut out) {
        Ok(_) => Some(out),
        Err(_) => None,
    }
}

/// The escape character written out: backslash, `x`, `1`, `b`.
pub open spec fn esc_written() -> Seq<char> {
    seq!['\\', 'x', '1', 'b']
}

/// `s` with each written-out escape replaced by the escape character,
/// scanning from the left (what `str::replace` does).
pub open spec fn unescape_esc(s: Seq<char>) -> Seq<char>
    decreases s.len(),
{
    if s.len() == 0 {
        s
    } else if s.len() >= 4 && s.take(4) == esc_written() {
        seq!['\x1b'] + unescape_esc(s.skip(4))
    } else {
        seq![s[0]] + unescape_esc(s.skip(1))
    }
}

/// The text of a stored logo: its base64 decoded, unpacked from gzip, and its
/// written-out escapes turned into escape characters.
pub open spec fn logo_text(encoded: Seq<char>) -> Option<Seq<char>> {
    match base64_decoded(encoded) {
        Some(b) => match gunzipped_text(b) {
            Some(t) => Some(unescape_esc(t)),
            None => None,
        },
        None => None,
    }
}

/// A piece ended by a line feed, without the carriage return before it.
pub open spec fn strip_cr(p: Seq<char>) -> Seq<char> {
    if p.len() > 0 && p.last() == '\r' {
        p.drop_last()
    } else {
        p
    }
}

/// The lines of `s` as `str::lines` yields them: the pieces between line
/// feeds, each piece that a line feed ends without a carriage return that
/// ends it, and no last line where `s` is empty or ends with a line feed.
pub open spec fn lines_spec(s: Seq<char>) -> Seq<Seq<char>> {
    let parts = split_seq(s, '\n');
    let ended = parts.drop_last().map_values(|p: Seq<char>| strip_cr(p));
    if parts.last().len() == 0 {
        ended
    } else {
        ended.push(parts.last())
    }
}

proof fn lemma_split_nonempty(s: Seq<char>, sep: char)
    ensures
        split_seq(s, sep).len() >= 1,
    decreases s.len(),
{
    if s.len() > 0 {
        lemma_split_nonempty(s.drop_last(), sep);
    }
}

/// Turns each written-out escape of `s` into the escape character.
pub fn unescape(s: &str) -> (r: String)
    ensures
        r@ == unescape_esc(s@),
{
    let v = to_chars(s);
    let mut out = String::new();
    let mut i: usize = 0;
    assert(v@.skip(0) =~= v@);
    assert(out@ + unescape_esc(v@) =~= unescape_esc(v@));
    while i < v.len()
        invariant
            i <= v@.len(),
            v@ == s@,
            out@ + unescape_esc(v@.skip(i as int)) == unescape_esc(s@),
        decreases v@.len() - i,
    {
        let ghost rest = v@.skip(i as int);
        if v.len() - i >= 4 && v[i] == '\\' && v[i + 1] == 'x' && v[i + 2] == '1' && v[i + 3] == 'b' {
            assert(rest.take(4) =~= esc_written());
            assert(rest.skip(4) =~= v@.skip(i + 4));
            push_char(&mut out, '\x1b');
            i = i + 4;
        } else {
            assert(!(rest.len() >= 4 && rest.take(4) == esc_written())) by {
                if rest.len() >= 4 && rest.take(4) == esc_written() {
                    assert(rest.take(4)[0] == v@[i as int]);
                    assert(rest.take(4)[1] == v@[i + 1]);
                    assert(rest.take(4)[2] == v@[i + 2]);
                    assert(rest.take(4)[3] == v@[i + 3]);
                }
            }
            assert(rest.skip(1) =~= v@.skip(i + 1));
            push_char(&mut out, v[i]);
            i = i + 1;
        }
        assert(out@ + unescape_esc(v@.skip(i as int)) =~= unescape_esc(s@));
    }
    assert(v@.skip(i as int) =~= Seq::<char>::empty());
    assert(out@ + Seq::<char>::empty() =~= out@);
    out
}

/// `p` without a carriage return that ends it.
fn without_cr(p: &String) -> (r: String)
    ensures
        r@ == strip_cr(p@),
{
    let v = to_chars(p.as_str());
    let n = v.len();
    if n > 0 && v[n - 1] == '\r' {
        chars_to_string(&v, 0, n - 1)
    } else {
        assert(v@.subrange(0, n as int) =~= v@);
        chars_to_string(&v, 0, n)
    }
}

/// The lines of `s` (see `lines_spec`).
pub fn text_lines(s: &str) -> (r: Vec<String>)
    ensures
        strings_view(r@) == lines_spec(s@),
{
    let parts = split_char(s, '\n');
    proof {
        lemma_split_nonempty(s@, '\n');
    }
    let ghost ps = strings_view(parts@);
    let n = parts.len();
    let mut out: Vec<String> = Vec::new();
    let mut i: usize = 0;
    while i + 1 < n
        invariant
            ps == strings_view(parts@),
            ps == split_seq(s@, '\n'),
            n == parts@.len(),
            n >= 1,
            i + 1 <= n,
            strings_view(out@) == ps.take(i as int).map_values(|p: Seq<char>| strip_cr(p)),
        decreases n - i,
    {
        let line = without_cr(&parts[i]);
        let ghost before = strings_view(out@);
        out.push(line);
        assert(strings_view(out@) =~= before.push(strip_cr(ps[i as int])));
        assert(ps.take(i + 1) =~= ps.take(i as int).push(ps[i as int]));
        assert(ps.take(i + 1).map_values(|p: Seq<char>| strip_cr(p)) =~= ps.take(i as int).map_values(
            |p: Seq<char>| strip_cr(p),
        ).push(strip_cr(ps[i as int])));
        i = i + 1;
    }
    assert(ps.take(i as int) =~= ps.drop_last());
    let last = &parts[n - 1];
    assert(last@ == ps.last());
    if to_chars(last.as_str()).len() > 0 {
        let ghost before = strings_view(out@);
        out.push(last.clone());
        assert(strings_view(out@) =~= before.push(ps.last()));
    }
    out
}

/// The text of the stored logo `encoded` (see `logo_text`), for a logo that
/// unpacks.
pub fn decode_logo(encoded: &str) -> (r: String)
    requires
        logo_text(encoded@) is Some,
    ensures
        r@ == logo_text(encoded@)->0,
{
    match base64_decode(encoded) {
        Some(bytes) => match gunzip_text(&bytes) {
            Some(text) => unescape(text.as_str()),
            None => String::new(),
        },
        None => String::new(),
    }
}

/// The text of the stored logo `encoded`, or `None` where its base64 or its
/// gzip stream does not unpack.
pub fn try_decode_logo(encoded: &str) -> (r: Option<String>)
    ensures
        match r {
            Some(t) => logo_text(encoded@) == Some(t@),
            None => logo_text(encoded@) is None,
        },
{
    match base64_decode(encoded) {
        Some(bytes) => match gunzip_text(&bytes) {
            Some(_) => Some(decode_logo(encoded)),
            None => None,
        },
        None => None,
    }
}

} // verus!
