//! What a size typed with a byte unit comes to in sectors, stated with the
//! standard multiplier of each unit.
use vstd::prelude::*;
use crate::drives::{
    all_digits, digits_value, find_size_unit, parse_decimal_spec, parse_sectors_spec, pow10, round_half_up,
    saturate_u64, size_unit_bytes, size_unit_name, strip_suffix_all,
};
use crate::text::{is_suffix, is_ws, lemma_trim_end_at, lemma_trim_start_at, trim_seq, unicode_lowercase};

verus! {

broadcast use vstd::string::group_string_axioms;

/// The byte units and the bytes in one of each: the binary ones are powers
/// of 1024, the decimal ones powers of 1000.
pub open spec fn standard_unit(unit: Seq<char>, bytes: nat) -> bool {
    ||| unit == "tib"@ && bytes == 1_099_511_627_776
    ||| unit == "tb"@ && bytes == 1_000_000_000_000
    ||| unit == "gib"@ && bytes == 1_073_741_824
    ||| unit == "gb"@ && bytes == 1_000_000_000
    ||| unit == "mib"@ && bytes == 1_048_576
    ||| unit == "mb"@ && bytes == 1_000_000
    ||| unit == "kib"@ && bytes == 1024
    ||| unit == "kb"@ && bytes == 1000
    ||| unit == "b"@ && bytes == 1
}

/// A lower-case ASCII letter.
pub open spec fn is_lower_letter(c: char) -> bool {
    'a' <= c && c <= 'z'
}

/// The byte unit names are non-empty words of lower-case letters.
proof fn lemma_unit_letters(k: nat)
    requires
        k <= 8,
    ensures
        forall|i: int| 0 <= i < size_unit_name(k).len() ==> is_lower_letter(#[trigger] size_unit_name(k)[i]),
        size_unit_name(k).len() > 0,
{
    reveal_strlit("tib");
    reveal_strlit("tb");
    reveal_strlit("gib");
    reveal_strlit("gb");
    reveal_strlit("mib");
    reveal_strlit("mb");
    reveal_strlit("kib");
    reveal_strlit("kb");
    reveal_strlit("b");
}

/// No byte unit name ends with one that comes before it.
proof fn lemma_unit_names(j: nat, k: nat)
    requires
        j < k <= 8,
    ensures
        !is_suffix(size_unit_name(j), size_unit_name(k)),
{
    reveal_strlit("tib");
    reveal_strlit("tb");
    reveal_strlit("gib");
    reveal_strlit("gb");
    reveal_strlit("mib");
    reveal_strlit("mb");
    reveal_strlit("kib");
    reveal_strlit("kb");
    reveal_strlit("b");
    let w = size_unit_name(j);
    let u = size_unit_name(k);
    if is_suffix(w, u) {
        assert(u.subrange(u.len() - w.len(), u.len() as int)[0] == w[0]);
    }
}

/// Where `t` is `pre + u` and `pre` ends with a character that is no letter,
/// a word of letters that `t` ends with is `u` or one that `u` ends with.
proof fn lemma_suffix_of_joined(w: Seq<char>, pre: Seq<char>, u: Seq<char>)
    requires
        pre.len() > 0,
        !is_lower_letter(pre.last()),
        forall|i: int| 0 <= i < w.len() ==> is_lower_letter(#[trigger] w[i]),
        is_suffix(w, pre + u),
    ensures
        is_suffix(w, u),
{
    let t = pre + u;
    let tail = t.subrange(t.len() - w.len(), t.len() as int);
    if w.len() > u.len() {
        let i = w.len() - u.len() - 1;
        assert(tail[i] == t[pre.len() - 1]);
        assert(t[pre.len() - 1] == pre.last());
        assert(is_lower_letter(w[i]));
    } else {
        assert(u.subrange(u.len() - w.len(), u.len() as int) =~= tail);
    }
}

/// Digits, then whitespace, trim to the digits.
proof fn lemma_trim_digits(d: Seq<char>, sp: Seq<char>)
    requires
        d.len() > 0,
        all_digits(d),
        forall|i: int| 0 <= i < sp.len() ==> is_ws(#[trigger] sp[i]),
    ensures
        trim_seq(d + sp) == d,
{
    let x = d + sp;
    assert(x[0] == d[0]);
    assert('0' <= d[0] && d[0] <= '9');
    lemma_trim_start_at(x, 0);
    assert(x.subrange(0, x.len() as int) =~= x);
    assert forall|k: int| d.len() <= k < x.len() implies is_ws(#[trigger] x[k]) by {
        assert(x[k] == sp[k - d.len()]);
    }
    assert(x[d.len() - 1] == d[d.len() - 1]);
    assert('0' <= d[d.len() - 1] && d[d.len() - 1] <= '9');
    lemma_trim_end_at(x, d.len() as int);
    assert(x.subrange(0, d.len() as int) =~= d);
}

/// A size typed as a whole number of a byte unit (digits, optional
/// whitespace, the unit, in any case and with whitespace around it) comes to
/// that many times the unit's bytes, in sectors, rounded to the nearest
/// sector (halves up) and capped at `u64::MAX`: one TiB is 2^40 bytes, one TB
/// 10^12, one GiB 2^30, one GB 10^9, one MiB 2^20, one MB 10^6, one KiB 1024,
/// one KB 1000 and one B a single byte.
pub proof fn law_whole_units(
    s: Seq<char>,
    d: Seq<char>,
    sp: Seq<char>,
    unit: Seq<char>,
    bytes: nat,
    sector_size: nat,
    total_sectors: nat,
)
    requires
        standard_unit(unit, bytes),
        d.len() > 0,
        all_digits(d),
        digits_value(d) < pow10(19),
        forall|i: int| 0 <= i < sp.len() ==> is_ws(#[trigger] sp[i]),
        unicode_lowercase(trim_seq(s)) == d + sp + unit,
        sector_size > 0,
    ensures
        parse_sectors_spec(s, sector_size, total_sectors) == Some(
            saturate_u64(round_half_up(digits_value(d) * bytes, sector_size)),
        ),
{
    reveal_strlit("tib");
    reveal_strlit("tb");
    reveal_strlit("gib");
    reveal_strlit("gb");
    reveal_strlit("mib");
    reveal_strlit("mb");
    reveal_strlit("kib");
    reveal_strlit("kb");
    reveal_strlit("b");
    let k: nat = if unit == "tib"@ {
        0
    } else if unit == "tb"@ {
        1
    } else if unit == "gib"@ {
        2
    } else if unit == "gb"@ {
        3
    } else if unit == "mib"@ {
        4
    } else if unit == "mb"@ {
        5
    } else if unit == "kib"@ {
        6
    } else if unit == "kb"@ {
        7
    } else {
        8
    };
    assert(size_unit_name(k) == unit);
    assert(size_unit_bytes(k) == bytes) by {
        assert("tib"@.len() == 3 && "tb"@.len() == 2 && "b"@.len() == 1);
        assert("tib"@[0] != "gib"@[0] && "tib"@[0] != "mib"@[0] && "tib"@[0] != "kib"@[0]);
        assert("gib"@[0] != "mib"@[0] && "gib"@[0] != "kib"@[0] && "mib"@[0] != "kib"@[0]);
        assert("tb"@[0] != "gb"@[0] && "tb"@[0] != "mb"@[0] && "tb"@[0] != "kb"@[0]);
        assert("gb"@[0] != "mb"@[0] && "gb"@[0] != "kb"@[0] && "mb"@[0] != "kb"@[0]);
    }
    let pre = d + sp;
    let t = pre + unit;
    assert(t =~= d + sp + unit);
    if sp.len() > 0 {
        assert(pre.last() == sp.last());
        assert(is_ws(sp[sp.len() - 1]));
    } else {
        assert(pre.last() == d.last());
        assert('0' <= d[d.len() - 1] && d[d.len() - 1] <= '9');
    }
    assert(!is_lower_letter(pre.last()));
    lemma_unit_letters(k);
    assert(t.subrange(t.len() - unit.len(), t.len() as int) =~= unit);
    assert(is_suffix(unit, t));
    // No unit tried before this one matches.
    assert forall|j: nat| j < k implies !is_suffix(size_unit_name(j), t) by {
        lemma_unit_names(j, k);
        lemma_unit_letters(j);
        if is_suffix(size_unit_name(j), t) {
            lemma_suffix_of_joined(size_unit_name(j), pre, unit);
        }
    }
    lemma_find_back(t, k, k);
    assert(find_size_unit(t, 0) == Some(k));
    // The unit comes off once.
    assert(t.subrange(0, t.len() - unit.len()) =~= pre);
    if is_suffix(unit, pre) {
        let w = pre.subrange(pre.len() - unit.len(), pre.len() as int);
        assert(w[unit.len() - 1] == pre.last());
        assert(w == unit);
        assert(is_lower_letter(unit[unit.len() - 1]));
    }
    assert(strip_suffix_all(pre, unit) == pre);
    assert(strip_suffix_all(t, unit) == pre);
    lemma_trim_digits(d, sp);
    assert(parse_decimal_spec(d) == Some((digits_value(d), 0nat)));
    assert(pow10(0) == 1);
    assert(pow10(0) * sector_size == sector_size);
}

/// The search for a unit from index `k - j` on finds unit `k`, where no unit
/// from `k - j` to `k - 1` is a suffix and unit `k` is.
proof fn lemma_find_back(t: Seq<char>, k: nat, j: nat)
    requires
        j <= k <= 8,
        is_suffix(size_unit_name(k), t),
        forall|i: nat| i < k ==> !is_suffix(#[trigger] size_unit_name(i), t),
    ensures
        find_size_unit(t, (k - j) as nat) == Some(k),
    decreases j,
{
    if j > 0 {
        lemma_find_back(t, k, (j - 1) as nat);
        assert(!is_suffix(size_unit_name((k - j) as nat), t));
    }
}

} // verus!
