use vstd::prelude::*;

verus! {

broadcast use vstd::string::group_string_axioms;

// ---------------------------------------------------------------------------
// Specifications over character sequences
// ---------------------------------------------------------------------------

/// `p` is a prefix of `s`.
pub open spec fn is_prefix(p: Seq<char>, s: Seq<char>) -> bool {
    p.len() <= s.len() && s.subrange(0, p.len() as int) == p
}

/// `p` is a suffix of `s`.
pub open spec fn is_suffix(p: Seq<char>, s: Seq<char>) -> bool {
    p.len() <= s.len() && s.subrange(s.len() - p.len(), s.len() as int) == p
}

/// `p` occurs somewhere inside `s` as a contiguous run.
pub open spec fn contains_seq(s: Seq<char>, p: Seq<char>) -> bool {
    exists|i: int| 0 <= i && i + p.len() <= s.len() && #[trigger] s.subrange(i, i + p.len()) == p
}

/// Unicode `White_Space`, the set that `char::is_whitespace` and `str::trim` use.
pub open spec fn is_ws(c: char) -> bool {
    ||| ('\u{9}' <= c && c <= '\u{d}')
    ||| c == ' '
    ||| c == '\u{85}'
    ||| c == '\u{a0}'
    ||| c == '\u{1680}'
    ||| ('\u{2000}' <= c && c <= '\u{200a}')
    ||| c == '\u{2028}'
    ||| c == '\u{2029}'
    ||| c == '\u{202f}'
    ||| c == '\u{205f}'
    ||| c == '\u{3000}'
}

/// `s` without its leading whitespace.
pub open spec fn trim_start_seq(s: Seq<char>) -> Seq<char>
    decreases s.len(),
{
    if s.len() > 0 && is_ws(s[0]) {
        trim_start_seq(s.drop_first())
    } else {
        s
    }
}

/// `s` without its trailing whitespace.
pub open spec fn trim_end_seq(s: Seq<char>) -> Seq<char>
    decreases s.len(),
{
    if s.len() > 0 && is_ws(s.last()) {
        trim_end_seq(s.drop_last())
    } else {
        s
    }
}

/// `s` without leading and trailing whitespace (what `str::trim` returns).
pub open spec fn trim_seq(s: Seq<char>) -> Seq<char> {
    trim_end_seq(trim_start_seq(s))
}

/// ASCII letter or digit.
pub open spec fn is_ascii_alnum(c: char) -> bool {
    ('a' <= c && c <= 'z') || ('A' <= c && c <= 'Z') || ('0' <= c && c <= '9')
}

/// ASCII digit.
pub open spec fn is_ascii_digit(c: char) -> bool {
    '0' <= c && c <= '9'
}

/// ASCII upper-case letters mapped to lower case, everything else unchanged.
pub open spec fn ascii_lower_char(c: char) -> char {
    if 'A' <= c && c <= 'Z' {
        ((c as u32) + 32) as char
    } else {
        c
    }
}

/// The pieces of `s` between occurrences of `sep` (what `str::split` yields for a char).
pub open spec fn split_seq(s: Seq<char>, sep: char) -> Seq<Seq<char>>
    decreases s.len(),
{
    if s.len() == 0 {
        seq![Seq::<char>::empty()]
    } else {
        let rest = split_seq(s.drop_last(), sep);
        if s.last() == sep {
            rest.push(Seq::<char>::empty())
        } else {
            rest.update(rest.len() - 1, rest.last().push(s.last()))
        }
    }
}

/// The elements of `list` joined with `sep` between each two of them.
pub open spec fn seq_join(list: Seq<Seq<char>>, sep: Seq<char>) -> Seq<char>
    decreases list.len(),
{
    if list.len() == 0 {
        Seq::<char>::empty()
    } else if list.len() == 1 {
        list[0]
    } else {
        seq_join(list.drop_last(), sep) + sep + list.last()
    }
}

/// The decimal digit character for `d < 10`.
pub open spec fn digit_char(d: nat) -> char {
    ((d + 48) as u32) as char
}

/// Decimal notation of `n`, without leading zeros.
pub open spec fn decimal(n: nat) -> Seq<char>
    decreases n,
{
    if n < 10 {
        seq![digit_char(n)]
    } else {
        decimal(n / 10).push(digit_char(n % 10))
    }
}

/// Lexicographic order of character sequences by code point, which is the order of `str`.
pub open spec fn seq_lt(a: Seq<char>, b: Seq<char>) -> bool
    decreases a.len(),
{
    if a.len() == 0 {
        b.len() > 0
    } else if b.len() == 0 {
        false
    } else if a[0] != b[0] {
        a[0] < b[0]
    } else {
        seq_lt(a.drop_first(), b.drop_first())
    }
}

/// `a` sorts before `b` or equals it.
pub open spec fn seq_le(a: Seq<char>, b: Seq<char>) -> bool {
    seq_lt(a, b) || a == b
}

/// The views of a vector of strings.
pub open spec fn strings_view(v: Seq<String>) -> Seq<Seq<char>> {
    v.map_values(|s: String| s@)
}

/// A sequence of character sequences sorted in non-decreasing order.
pub open spec fn sorted_seqs(s: Seq<Seq<char>>) -> bool {
    forall|i: int, j: int| 0 <= i < j < s.len() ==> seq_le(#[trigger] s[i], #[trigger] s[j])
}

/// Each sequence sorts strictly after the one before it.
pub open spec fn strictly_sorted(k: Seq<Seq<char>>) -> bool {
    forall|i: int, j: int| 0 <= i < j < k.len() ==> seq_lt(#[trigger] k[i], #[trigger] k[j])
}

/// A sequence of character sequences with no element twice.
pub open spec fn no_dups(s: Seq<Seq<char>>) -> bool {
    forall|i: int, j: int| 0 <= i < j < s.len() ==> #[trigger] s[i] != #[trigger] s[j]
}

// ---------------------------------------------------------------------------
// Lemmas
// ---------------------------------------------------------------------------

/// `seq_lt` never relates a sequence to itself.
pub proof fn lemma_lt_irreflexive(a: Seq<char>)
    ensures
        !seq_lt(a, a),
    decreases a.len(),
{
    if a.len() > 0 {
        lemma_lt_irreflexive(a.drop_first());
    }
}

/// `seq_lt` is asymmetric.
pub proof fn lemma_lt_asymmetric(a: Seq<char>, b: Seq<char>)
    ensures
        seq_lt(a, b) ==> !seq_lt(b, a),
    decreases a.len(),
{
    if a.len() > 0 && b.len() > 0 && a[0] == b[0] {
        lemma_lt_asymmetric(a.drop_first(), b.drop_first());
    }
}

/// Two sequences are ordered one way or the other, or they are equal.
pub proof fn lemma_lt_total(a: Seq<char>, b: Seq<char>)
    ensures
        seq_lt(a, b) || seq_lt(b, a) || a == b,
    decreases a.len(),
{
    if a.len() == 0 && b.len() == 0 {
        assert(a =~= b);
    }
    if a.len() > 0 && b.len() > 0 && a[0] == b[0] {
        lemma_lt_total(a.drop_first(), b.drop_first());
        if a.drop_first() == b.drop_first() {
            assert(a =~= seq![a[0]] + a.drop_first());
            assert(b =~= seq![b[0]] + b.drop_first());
            assert(a =~= b);
        }
    }
}

/// `seq_lt` is transitive.
pub proof fn lemma_lt_transitive(a: Seq<char>, b: Seq<char>, c: Seq<char>)
    requires
        seq_lt(a, b),
        seq_lt(b, c),
    ensures
        seq_lt(a, c),
    decreases a.len(),
{
    if a.len() > 0 && b.len() > 0 && c.len() > 0 && a[0] == b[0] && b[0] == c[0] {
        lemma_lt_transitive(a.drop_first(), b.drop_first(), c.drop_first());
    }
}

/// `seq_le` is transitive.
pub proof fn lemma_le_transitive(a: Seq<char>, b: Seq<char>, c: Seq<char>)
    requires
        seq_le(a, b),
        seq_le(b, c),
    ensures
        seq_le(a, c),
{
    if seq_lt(a, b) && seq_lt(b, c) {
        lemma_lt_transitive(a, b, c);
    }
}

/// Comparing after a common prefix of length `i`.
proof fn lemma_lt_skip(a: Seq<char>, b: Seq<char>, i: int)
    requires
        0 <= i <= a.len(),
        i <= b.len(),
        a.subrange(0, i) == b.subrange(0, i),
    ensures
        seq_lt(a, b) == seq_lt(a.subrange(i, a.len() as int), b.subrange(i, b.len() as int)),
    decreases i,
{
    if i > 0 {
        assert(a[0] == a.subrange(0, i)[0]);
        assert(b[0] == b.subrange(0, i)[0]);
        assert(a.drop_first().subrange(0, i - 1) =~= a.subrange(0, i).drop_first());
        assert(b.drop_first().subrange(0, i - 1) =~= b.subrange(0, i).drop_first());
        lemma_lt_skip(a.drop_first(), b.drop_first(), i - 1);
        assert(a.drop_first().subrange(i - 1, a.len() - 1) =~= a.subrange(i, a.len() as int));
        assert(b.drop_first().subrange(i - 1, b.len() - 1) =~= b.subrange(i, b.len() as int));
    } else {
        assert(a.subrange(0, a.len() as int) =~= a);
        assert(b.subrange(0, b.len() as int) =~= b);
    }
}

pub(crate) proof fn lemma_trim_start_at(s: Seq<char>, a: int)
    requires
        0 <= a <= s.len(),
        forall|k: int| 0 <= k < a ==> is_ws(#[trigger] s[k]),
        a == s.len() || !is_ws(s[a]),
    ensures
        trim_start_seq(s) == s.subrange(a, s.len() as int),
    decreases a,
{
    if a == 0 {
        assert(s.subrange(0, s.len() as int) =~= s);
    } else {
        assert(is_ws(s[0]));
        let t = s.drop_first();
        assert forall|k: int| 0 <= k < a - 1 implies is_ws(#[trigger] t[k]) by {
            assert(t[k] == s[k + 1]);
        }
        if a < s.len() {
            assert(t[a - 1] == s[a]);
        }
        lemma_trim_start_at(t, a - 1);
        assert(t.subrange(a - 1, t.len() as int) =~= s.subrange(a, s.len() as int));
    }
}

pub(crate) proof fn lemma_trim_end_at(s: Seq<char>, b: int)
    requires
        0 <= b <= s.len(),
        forall|k: int| b <= k < s.len() ==> is_ws(#[trigger] s[k]),
        b == 0 || !is_ws(s[b - 1]),
    ensures
        trim_end_seq(s) == s.subrange(0, b),
    decreases s.len() - b,
{
    if b == s.len() {
        assert(s.subrange(0, b) =~= s);
    } else {
        assert(is_ws(s.last()));
        let t = s.drop_last();
        assert forall|k: int| b <= k < t.len() implies is_ws(#[trigger] t[k]) by {
            assert(t[k] == s[k]);
        }
        if b > 0 {
            assert(t[b - 1] == s[b - 1]);
        }
        lemma_trim_end_at(t, b);
        assert(t.subrange(0, b) =~= s.subrange(0, b));
    }
}

// ---------------------------------------------------------------------------
// Executable helpers
// ---------------------------------------------------------------------------

/// Appends one character to a string (`String::push`).
#[verifier::external_body]
pub fn push_char(s: &mut String, c: char)
    ensures
        final(s)@ == old(s)@.push(c),
{
    s.push(c);
}

/// Unicode lower case of a string, as `str::to_lowercase` maps it.
pub uninterp spec fn unicode_lowercase(s: Seq<char>) -> Seq<char>;

/// Lower-cases a string with `str::to_lowercase`. Its contract names the result
/// by `unicode_lowercase` and states only that an all-ASCII input maps letter by
/// letter to its ASCII lower case, as the Unicode case tables give it.
#[verifier::external_body]
pub fn to_lowercase(s: &str) -> (r: String)
    ensures
        r@ == unicode_lowercase(s@),
        (forall|i: int| 0 <= i < s@.len() ==> (#[trigger] s@[i] as u32) < 128) ==> r@
            == s@.map_values(|c: char| ascii_lower_char(c)),
{
    s.to_lowercase()
}

/// The characters of `s`, in order.
pub fn to_chars(s: &str) -> (v: Vec<char>)
    ensures
        v@ == s@,
{
    let mut v: Vec<char> = Vec::new();
    for c in it: s.chars()
        invariant
            it.seq() == s@,
            v@ == it.seq().take(it.index() as int),
    {
        v.push(c);
    }
    v
}

/// A string made of the characters `v[from..to]`.
pub fn chars_to_string(v: &Vec<char>, from: usize, to: usize) -> (s: String)
    requires
        from <= to <= v.len(),
    ensures
        s@ == v@.subrange(from as int, to as int),
{
    let mut s = String::new();
    let mut i = from;
    while i < to
        invariant
            from <= i <= to <= v.len(),
            s@ == v@.subrange(from as int, i as int),
        decreases to - i,
    {
        push_char(&mut s, v[i]);
        assert(v@.subrange(from as int, i + 1) =~= v@.subrange(from as int, i as int).push(v@[i as int]));
        i = i + 1;
    }
    s
}

/// A copy of `s` as an owned string.
pub fn owned(s: &str) -> (r: String)
    ensures
        r@ == s@,
{
    s.to_string()
}

/// Owned copies of a list of string slices, in order.
pub fn owned_list(v: &Vec<&str>) -> (r: Vec<String>)
    ensures
        strings_view(r@) == v@.map_values(|s: &str| s@),
{
    let mut r: Vec<String> = Vec::new();
    let mut i: usize = 0;
    while i < v.len()
        invariant
            i <= v@.len(),
            strings_view(r@) == v@.subrange(0, i as int).map_values(|s: &str| s@),
        decreases v@.len() - i,
    {
        let ghost before = r@;
        let s = owned(v[i]);
        r.push(s);
        assert(strings_view(r@) =~= strings_view(before).push(v@[i as int]@));
        assert(v@.subrange(0, i + 1).map_values(|s: &str| s@) =~= v@.subrange(0, i as int).map_values(
            |s: &str| s@,
        ).push(v@[i as int]@));
        i = i + 1;
    }
    assert(v@.subrange(0, v@.len() as int) =~= v@);
    r
}

/// The two strings hold the same characters.
pub fn str_eq(a: &str, b: &str) -> (r: bool)
    ensures
        r == (a@ == b@),
{
    let x = to_chars(a);
    let y = to_chars(b);
    if x.len() != y.len() {
        return false;
    }
    let mut i: usize = 0;
    while i < x.len()
        invariant
            x@ == a@,
            y@ == b@,
            x.len() == y.len(),
            i <= x.len(),
            forall|k: int| 0 <= k < i ==> x@[k] == y@[k],
        decreases x.len() - i,
    {
        if x[i] != y[i] {
            return false;
        }
        i = i + 1;
    }
    assert(a@ =~= b@);
    true
}

/// `p` is a prefix of `s` (`str::starts_with`).
pub fn starts_with(s: &str, p: &str) -> (r: bool)
    ensures
        r == is_prefix(p@, s@),
{
    let x = to_chars(s);
    let y = to_chars(p);
    assert(x@.subrange(0, x.len() as int) =~= x@);
    chars_start_with(&x, 0, &y)
}

/// `v[from..]` starts with `p`.
pub fn chars_start_with(v: &Vec<char>, from: usize, p: &Vec<char>) -> (r: bool)
    requires
        from <= v.len(),
    ensures
        r == is_prefix(p@, v@.subrange(from as int, v.len() as int)),
{
    if p.len() > v.len() - from {
        return false;
    }
    let mut i: usize = 0;
    while i < p.len()
        invariant
            from <= v.len(),
            p.len() <= v.len() - from,
            i <= p.len(),
            forall|k: int| 0 <= k < i ==> v@[from + k] == p@[k],
        decreases p.len() - i,
    {
        if v[from + i] != p[i] {
            assert(v@.subrange(from as int, v.len() as int).subrange(0, p.len() as int)[i as int]
                != p@[i as int]);
            return false;
        }
        i = i + 1;
    }
    assert(v@.subrange(from as int, v.len() as int).subrange(0, p.len() as int) =~= p@);
    true
}

/// `p` is a suffix of `s` (`str::ends_with`).
pub fn ends_with(s: &str, p: &str) -> (r: bool)
    ensures
        r == is_suffix(p@, s@),
{
    let x = to_chars(s);
    let y = to_chars(p);
    if y.len() > x.len() {
        return false;
    }
    let from = x.len() - y.len();
    let r = chars_start_with(&x, from, &y);
    assert(x@.subrange(from as int, x.len() as int).subrange(0, y.len() as int)
        =~= x@.subrange(from as int, x.len() as int));
    r
}

/// `p` occurs in `s` (`str::contains`).
pub fn contains(s: &str, p: &str) -> (r: bool)
    ensures
        r == contains_seq(s@, p@),
{
    let x = to_chars(s);
    let y = to_chars(p);
    chars_contain(&x, &y)
}

/// `p` occurs in `x`.
pub fn chars_contain(x: &Vec<char>, y: &Vec<char>) -> (r: bool)
    ensures
        r == contains_seq(x@, y@),
{
    if y.len() > x.len() {
        return false;
    }
    let mut i: usize = 0;
    while i <= x.len() - y.len()
        invariant
            y.len() <= x.len(),
            i <= x.len() - y.len() + 1,
            forall|k: int| 0 <= k < i ==> #[trigger] x@.subrange(k, k + y.len()) != y@,
        decreases x.len() - y.len() + 1 - i,
    {
        if chars_start_with(x, i, y) {
            assert(x@.subrange(i as int, x.len() as int).subrange(0, y.len() as int)
                =~= x@.subrange(i as int, i + y.len()));
            return true;
        }
        assert(x@.subrange(i as int, x.len() as int).subrange(0, y.len() as int)
            =~= x@.subrange(i as int, i + y.len()));
        if i == x.len() - y.len() {
            return false;
        }
        i = i + 1;
    }
    false
}

/// Whether `c` is Unicode white space (`char::is_whitespace`).
pub fn char_is_whitespace(c: char) -> (r: bool)
    ensures
        r == is_ws(c),
{
    ('\u{9}' <= c && c <= '\u{d}') || c == ' ' || c == '\u{85}' || c == '\u{a0}' || c
        == '\u{1680}' || ('\u{2000}' <= c && c <= '\u{200a}') || c == '\u{2028}' || c
        == '\u{2029}' || c == '\u{202f}' || c == '\u{205f}' || c == '\u{3000}'
}

/// `s` without leading and trailing white space (`str::trim`).
pub fn trim(s: &str) -> (r: String)
    ensures
        r@ == trim_seq(s@),
{
    let v = to_chars(s);
    let (a, b) = trim_range(&v, 0, v.len());
    assert(v@.subrange(0, v.len() as int) =~= v@);
    chars_to_string(&v, a, b)
}

/// `s` without trailing white space (`str::trim_end`).
pub fn trim_end(s: &str) -> (r: String)
    ensures
        r@ == trim_end_seq(s@),
{
    let v = to_chars(s);
    let mut b: usize = v.len();
    while b > 0 && char_is_whitespace(v[b - 1])
        invariant
            b <= v.len(),
            forall|k: int| b <= k < v@.len() ==> is_ws(#[trigger] v@[k]),
        decreases b,
    {
        b = b - 1;
    }
    proof {
        lemma_trim_end_at(v@, b as int);
    }
    chars_to_string(&v, 0, b)
}

/// Bounds of `trim_seq(v[lo..hi])` inside `v`.
pub fn trim_range(v: &Vec<char>, lo: usize, hi: usize) -> (r: (usize, usize))
    requires
        lo <= hi <= v.len(),
    ensures
        lo <= r.0 <= r.1 <= hi,
        v@.subrange(r.0 as int, r.1 as int) == trim_seq(v@.subrange(lo as int, hi as int)),
{
    let ghost w = v@.subrange(lo as int, hi as int);
    let mut a: usize = lo;
    while a < hi && char_is_whitespace(v[a])
        invariant
            lo <= a <= hi <= v.len(),
            forall|k: int| lo <= k < a ==> is_ws(#[trigger] v@[k]),
        decreases hi - a,
    {
        a = a + 1;
    }
    proof {
        assert forall|k: int| 0 <= k < a - lo implies is_ws(#[trigger] w[k]) by {
            assert(w[k] == v@[lo + k]);
        }
        if a < hi {
            assert(w[a - lo] == v@[a as int]);
        }
        lemma_trim_start_at(w, a - lo);
        assert(w.subrange(a - lo, w.len() as int) =~= v@.subrange(a as int, hi as int));
    }
    let mut b: usize = hi;
    while b > a && char_is_whitespace(v[b - 1])
        invariant
            lo <= a <= b <= hi <= v.len(),
            forall|k: int| b <= k < hi ==> is_ws(#[trigger] v@[k]),
        decreases b,
    {
        b = b - 1;
    }
    proof {
        let t = v@.subrange(a as int, hi as int);
        assert forall|k: int| b - a <= k < t.len() implies is_ws(#[trigger] t[k]) by {
            assert(t[k] == v@[a + k]);
        }
        if b > a {
            assert(t[b - a - 1] == v@[b - 1]);
        }
        lemma_trim_end_at(t, (b - a) as int);
        assert(t.subrange(0, (b - a) as int) =~= v@.subrange(a as int, b as int));
    }
    (a, b)
}

/// The pieces of `s` between the occurrences of `sep` (`str::split` with a char).
pub fn split_char(s: &str, sep: char) -> (r: Vec<String>)
    ensures
        strings_view(r@) == split_seq(s@, sep),
{
    let v = to_chars(s);
    let mut done: Vec<String> = Vec::new();
    let mut cur = String::new();
    let mut i: usize = 0;
    proof {
        assert(v@.take(0) =~= Seq::<char>::empty());
        assert(strings_view(done@).push(cur@) =~= split_seq(v@.take(0), sep));
    }
    while i < v.len()
        invariant
            v@ == s@,
            i <= v.len(),
            strings_view(done@).push(cur@) == split_seq(v@.take(i as int), sep),
        decreases v.len() - i,
    {
        let c = v[i];
        let ghost prefix = v@.take(i as int);
        proof {
            assert(v@.take(i + 1).drop_last() =~= prefix);
        }
        if c == sep {
            let old_cur = cur;
            done.push(old_cur);
            cur = String::new();
            proof {
                assert(strings_view(done@).push(cur@) =~= split_seq(prefix, sep).push(
                    Seq::<char>::empty(),
                ));
            }
        } else {
            push_char(&mut cur, c);
            proof {
                let rest = split_seq(prefix, sep);
                assert(strings_view(done@).push(cur@) =~= rest.update(
                    rest.len() - 1,
                    rest.last().push(c),
                ));
            }
        }
        i = i + 1;
    }
    assert(v@.take(v.len() as int) =~= v@);
    done.push(cur);
    done
}

/// The strings of `list` joined with `sep` (`[String]::join`).
pub fn join(list: &Vec<String>, sep: &str) -> (r: String)
    ensures
        r@ == seq_join(strings_view(list@), sep@),
{
    let mut res = String::new();
    let ghost views = strings_view(list@);
    let mut i: usize = 0;
    while i < list.len()
        invariant
            views == strings_view(list@),
            i <= list.len(),
            res@ == seq_join(views.take(i as int), sep@),
        decreases list.len() - i,
    {
        proof {
            assert(views.take(i + 1).drop_last() =~= views.take(i as int));
        }
        if i != 0 {
            res.append(sep);
        } else {
            assert(views.take(1) =~= seq![views[0]]);
        }
        res.append(list[i].as_str());
        i = i + 1;
    }
    assert(views.take(list.len() as int) =~= views);
    res
}

/// The character of the decimal digit `d`.
fn digit(d: u64) -> (c: char)
    requires
        d < 10,
    ensures
        c == digit_char(d as nat),
{
    match d {
        0 => '0',
        1 => '1',
        2 => '2',
        3 => '3',
        4 => '4',
        5 => '5',
        6 => '6',
        7 => '7',
        8 => '8',
        _ => '9',
    }
}

/// Decimal notation of `n` (`u64::to_string`).
pub fn u64_to_decimal(n: u64) -> (r: String)
    ensures
        r@ == decimal(n as nat),
{
    let mut rev: Vec<char> = Vec::new();
    let ghost mut acc: Seq<char> = Seq::empty();
    let mut m = n;
    while m >= 10
        invariant
            decimal(n as nat) == decimal(m as nat) + acc,
            rev@.len() == acc.len(),
            forall|k: int| 0 <= k < acc.len() ==> #[trigger] rev@[k] == acc[acc.len() - 1 - k],
        decreases m,
    {
        let c = digit(m % 10);
        proof {
            assert(decimal(m as nat) == decimal((m / 10) as nat).push(c));
            assert(decimal(m as nat) + acc =~= decimal((m / 10) as nat) + (seq![c] + acc));
            acc = seq![c] + acc;
        }
        rev.push(c);
        m = m / 10;
    }
    let mut s = String::new();
    push_char(&mut s, digit(m));
    let mut j = rev.len();
    while j > 0
        invariant
            j <= rev.len(),
            rev@.len() == acc.len(),
            forall|k: int| 0 <= k < acc.len() ==> #[trigger] rev@[k] == acc[acc.len() - 1 - k],
            decimal(n as nat) == s@ + acc.subrange(acc.len() - j, acc.len() as int),
        decreases j,
    {
        j = j - 1;
        proof {
            let t = acc.len() - 1 - j;
            assert(rev@[j as int] == acc[t]);
            assert(acc.subrange(t, acc.len() as int) =~= seq![acc[t]] + acc.subrange(
                t + 1,
                acc.len() as int,
            ));
        }
        push_char(&mut s, rev[j]);
    }
    assert(decimal(n as nat) =~= s@);
    s
}

/// `a` sorts strictly before `b` (`str` ordering).
pub fn str_lt(a: &str, b: &str) -> (r: bool)
    ensures
        r == seq_lt(a@, b@),
{
    let x = to_chars(a);
    let y = to_chars(b);
    let mut i: usize = 0;
    while i < x.len() && i < y.len() && x[i] == y[i]
        invariant
            x@ == a@,
            y@ == b@,
            i <= x.len(),
            i <= y.len(),
            x@.subrange(0, i as int) == y@.subrange(0, i as int),
        decreases x.len() - i,
    {
        assert(x@.subrange(0, i + 1) =~= x@.subrange(0, i as int).push(x@[i as int]));
        assert(y@.subrange(0, i + 1) =~= y@.subrange(0, i as int).push(y@[i as int]));
        i = i + 1;
    }
    proof {
        lemma_lt_skip(x@, y@, i as int);
        let xs = x@.subrange(i as int, x.len() as int);
        let ys = y@.subrange(i as int, y.len() as int);
        if i < x.len() && i < y.len() {
            assert(xs[0] == x@[i as int]);
            assert(ys[0] == y@[i as int]);
        }
    }
    if i == x.len() {
        i < y.len()
    } else if i == y.len() {
        false
    } else {
        x[i] < y[i]
    }
}


/// Inserting one element into a sequence adds it to the multiset of elements.
pub proof fn lemma_insert_to_multiset(s: Seq<Seq<char>>, p: int, a: Seq<char>)
    requires
        0 <= p <= s.len(),
    ensures
        s.insert(p, a).to_multiset() =~= s.to_multiset().insert(a),
{
    broadcast use vstd::seq_lib::group_to_multiset_ensures;

    let t = s.insert(p, a);
    assert(t.remove(p) =~= s);
    assert(t[p] == a);
    assert(t.contains(a));
    assert(t.to_multiset().remove(a) =~= s.to_multiset());
    assert(t.to_multiset().count(a) > 0);
}

/// The strings of `v` in non-decreasing order (`slice::sort` on strings).
pub fn sort_strings(v: &Vec<String>) -> (r: Vec<String>)
    ensures
        sorted_seqs(strings_view(r@)),
        strings_view(r@).to_multiset() == strings_view(v@).to_multiset(),
{
    broadcast use vstd::seq_lib::group_to_multiset_ensures;

    let mut r: Vec<String> = Vec::new();
    let mut i: usize = 0;
    while i < v.len()
        invariant
            i <= v@.len(),
            sorted_seqs(strings_view(r@)),
            strings_view(r@).to_multiset() == strings_view(v@.take(i as int)).to_multiset(),
        decreases v@.len() - i,
    {
        let x = v[i].clone();
        let mut p: usize = 0;
        while p < r.len() && !str_lt(x.as_str(), r[p].as_str())
            invariant
                p <= r@.len(),
                forall|q: int| 0 <= q < p ==> seq_le(#[trigger] strings_view(r@)[q], x@),
            decreases r@.len() - p,
        {
            proof {
                lemma_lt_total(x@, r@[p as int]@);
            }
            p = p + 1;
        }
        let ghost old_r = strings_view(r@);
        proof {
            if p < r@.len() {
                assert forall|q: int| p <= q < old_r.len() implies seq_lt(x@, #[trigger] old_r[q]) by {
                    if q > p {
                        assert(seq_le(old_r[p as int], old_r[q]));
                        if old_r[p as int] != old_r[q] {
                            lemma_lt_transitive(x@, old_r[p as int], old_r[q]);
                        }
                    }
                }
            }
        }
        r.insert(p, x);
        proof {
            let nr = strings_view(r@);
            assert(nr =~= old_r.insert(p as int, x@));
            assert forall|j: int, k: int| 0 <= j < k < nr.len() implies seq_le(#[trigger] nr[j], #[trigger] nr[k]) by {
                if j < p && k > p {
                    assert(nr[k] == old_r[k - 1]);
                } else if j == p {
                    assert(nr[k] == old_r[k - 1]);
                } else if j > p {
                    assert(nr[j] == old_r[j - 1]);
                    assert(nr[k] == old_r[k - 1]);
                }
            }
            lemma_insert_to_multiset(old_r, p as int, x@);
            assert(v@.take(i + 1) =~= v@.take(i as int).push(v@[i as int]));
            assert(strings_view(v@.take(i + 1)) =~= strings_view(v@.take(i as int)).push(x@));
            vstd::seq_lib::to_multiset_build(strings_view(v@.take(i as int)), x@);
            assert(nr.to_multiset() =~= old_r.to_multiset().insert(x@));
        }
        i = i + 1;
    }
    assert(v@.take(v@.len() as int) =~= v@);
    r
}


/// The strings of a sorted vector with repeats dropped (`Vec::dedup` after a sort).
pub fn dedup_sorted(v: &Vec<String>) -> (r: Vec<String>)
    requires
        sorted_seqs(strings_view(v@)),
    ensures
        strictly_sorted(strings_view(r@)),
        strings_view(r@).to_set() == strings_view(v@).to_set(),
{
    let ghost vv = strings_view(v@);
    let mut r: Vec<String> = Vec::new();
    let mut i: usize = 0;
    while i < v.len()
        invariant
            i <= v@.len(),
            vv == strings_view(v@),
            sorted_seqs(vv),
            strictly_sorted(strings_view(r@)),
            strings_view(r@).to_set() == vv.take(i as int).to_set(),
            i > 0 ==> r@.len() > 0 && strings_view(r@).last() == vv[i - 1],
            i == 0 ==> r@.len() == 0,
        decreases v@.len() - i,
    {
        let ghost before = strings_view(r@);
        assert(vv.take(i + 1) =~= vv.take(i as int).push(vv[i as int]));
        assert(vv[i as int] == v@[i as int]@);
        let n = r.len();
        if n == 0 || !str_eq(r[n - 1].as_str(), v[i].as_str()) {
            proof {
                if n > 0 {
                    assert(seq_le(vv[i - 1], vv[i as int]));
                    assert(seq_lt(before.last(), vv[i as int]));
                    assert forall|a: int| 0 <= a < n - 1 implies seq_lt(#[trigger] before[a], vv[i as int]) by {
                        lemma_lt_transitive(before[a], before.last(), vv[i as int]);
                    }
                }
            }
            let x = v[i].clone();
            r.push(x);
            proof {
                assert(strings_view(r@) =~= before.push(vv[i as int]));
                assert forall|y: Seq<char>| #[trigger] strings_view(r@).to_set().contains(y)
                    == vv.take(i + 1).to_set().contains(y) by {
                    seq_push_contains(before, vv[i as int], y);
                    seq_push_contains(vv.take(i as int), vv[i as int], y);
                    assert(before.to_set().contains(y) == before.contains(y));
                    assert(vv.take(i as int).to_set().contains(y) == vv.take(i as int).contains(y));
                    assert(strings_view(r@).to_set().contains(y) == strings_view(r@).contains(y));
                    assert(vv.take(i + 1).to_set().contains(y) == vv.take(i + 1).contains(y));
                }
                assert(strings_view(r@).to_set() =~= vv.take(i + 1).to_set());
            }
        } else {
            proof {
                assert(before.last() == vv[i as int]);
                assert forall|y: Seq<char>| #[trigger] before.to_set().contains(y)
                    == vv.take(i + 1).to_set().contains(y) by {
                    seq_push_contains(vv.take(i as int), vv[i as int], y);
                    assert(before.to_set().contains(before.last()));
                }
                assert(before.to_set() =~= vv.take(i + 1).to_set());
            }
        }
        i = i + 1;
    }
    assert(vv.take(v@.len() as int) =~= vv);
    r
}

/// Membership in a sequence with one element appended.
pub proof fn seq_push_contains<A>(s: Seq<A>, a: A, x: A)
    ensures
        s.push(a).contains(x) == (s.contains(x) || x == a),
{
    if s.contains(x) {
        let j = choose|j: int| 0 <= j < s.len() && s[j] == x;
        assert(s.push(a)[j] == x);
    }
    if x == a {
        assert(s.push(a)[s.len() as int] == x);
    }
    if s.push(a).contains(x) && x != a {
        let j = choose|j: int| 0 <= j < s.len() + 1 && s.push(a)[j] == x;
        assert(s[j] == x);
    }
}


/// Splitting always gives at least one piece.
pub proof fn lemma_split_nonempty(s: Seq<char>, sep: char)
    ensures
        split_seq(s, sep).len() >= 1,
    decreases s.len(),
{
    if s.len() > 0 {
        lemma_split_nonempty(s.drop_last(), sep);
    }
}

/// A text that holds the separator splits into at least two pieces.
pub proof fn lemma_split_two(s: Seq<char>, sep: char, i: int)
    requires
        0 <= i < s.len(),
        s[i] == sep,
    ensures
        split_seq(s, sep).len() >= 2,
    decreases s.len(),
{
    lemma_split_nonempty(s.drop_last(), sep);
    if s.last() != sep {
        lemma_split_two(s.drop_last(), sep, i);
    }
}


/// Position of the first element of `ls` that starts with `p`.
pub open spec fn first_with_prefix(ls: Seq<Seq<char>>, p: Seq<char>) -> Option<int>
    decreases ls.len(),
{
    if ls.len() == 0 {
        None
    } else if is_prefix(p, ls[0]) {
        Some(0)
    } else {
        match first_with_prefix(ls.drop_first(), p) {
            Some(i) => Some(i + 1),
            None => None,
        }
    }
}

/// `first_with_prefix` gives the first matching position, or `None` when none matches.
pub proof fn lemma_first_with_prefix(ls: Seq<Seq<char>>, p: Seq<char>)
    ensures
        match first_with_prefix(ls, p) {
            Some(i) => 0 <= i < ls.len() && is_prefix(p, ls[i]) && forall|k: int|
                0 <= k < i ==> !is_prefix(p, #[trigger] ls[k]),
            None => forall|k: int| 0 <= k < ls.len() ==> !is_prefix(p, #[trigger] ls[k]),
        },
    decreases ls.len(),
{
    if ls.len() > 0 {
        lemma_first_with_prefix(ls.drop_first(), p);
        assert forall|k: int| 1 <= k < ls.len() implies ls[k] == ls.drop_first()[k - 1] by {}
    }
}

} // verus!
