use vstd::prelude::*;
use std::collections::BTreeSet;
use crate::numbers::{add_number, has_number};

use crate::widgets::TableWidget;
use crate::text::{
    owned,
    str_eq, strings_view,
    chars_start_with, decimal, digit_char, is_suffix, push_char, to_chars, to_lowercase, trim,
    trim_range, trim_seq, u64_to_decimal, unicode_lowercase,
};

verus! {

broadcast use vstd::string::group_string_axioms;

// ---------------------------------------------------------------------------
// Sizes and units
// ---------------------------------------------------------------------------

/// `ceil(a / b)`.
pub open spec fn ceil_div(a: nat, b: nat) -> nat {
    if a % b == 0 {
        a / b
    } else {
        a / b + 1
    }
}

/// `num / den` rounded to the nearest integer, ties to the even neighbour.
pub open spec fn round_half_even(num: nat, den: nat) -> nat {
    let q = num / den;
    let r = num % den;
    if 2 * r > den {
        q + 1
    } else if 2 * r < den {
        q
    } else if q % 2 == 0 {
        q
    } else {
        q + 1
    }
}

/// `num / den` rounded to the nearest integer, ties away from zero.
pub open spec fn round_half_up(num: nat, den: nat) -> nat {
    let q = num / den;
    let r = num % den;
    if 2 * r >= den {
        q + 1
    } else {
        q
    }
}

fn div_ceil_u64(a: u64, b: u64) -> (r: u64)
    requires
        b > 0,
    ensures
        r == ceil_div(a as nat, b as nat),
{
    if b == 1 {
        a
    } else if a % b == 0 {
        a / b
    } else {
        assert(a / b <= a / 2) by (nonlinear_arith)
            requires
                b >= 2,
        ;
        a / b + 1
    }
}

fn round_half_even_u128(num: u128, den: u128) -> (r: u128)
    requires
        den > 0,
        num / den < u128::MAX,
    ensures
        r == round_half_even(num as nat, den as nat),
{
    let q = num / den;
    let r = num % den;
    if r > den - r {
        q + 1
    } else if r < den - r {
        q
    } else if q % 2 == 0 {
        q
    } else {
        q + 1
    }
}

/// Number of sectors of `sector_size` bytes that hold 1 MiB, rounded up.
pub fn one_mib_in_sectors(sector_size: u64) -> (r: u64)
    requires
        sector_size > 0,
    ensures
        r == ceil_div(1048576, sector_size as nat),
{
    div_ceil_u64(1048576, sector_size)
}

/// Number of sectors that hold `mb` MiB, rounded up.
pub fn mb_to_sectors(mb: u64, sector_size: u64) -> (r: u64)
    requires
        sector_size > 0,
        mb * 1048576 <= u64::MAX,
    ensures
        r == ceil_div((mb * 1048576) as nat, sector_size as nat),
{
    let bytes = mb * 1024 * 1024;
    div_ceil_u64(bytes, sector_size)
}

/// Two decimal places of a count of hundredths: `"12.34"`.
pub open spec fn two_decimals(hundredths: nat) -> Seq<char> {
    decimal(hundredths / 100) + seq!['.', digit_char((hundredths % 100) / 10), digit_char(
        hundredths % 10,
    )]
}

/// What `bytes_readable` prints: the size in the largest binary unit it reaches,
/// with two decimals rounded to nearest (ties to even), or the plain byte count.
pub open spec fn bytes_readable_spec(bytes: nat) -> Seq<char> {
    if bytes >= 0x100_0000_0000 {
        two_decimals(round_half_even(bytes * 100, 0x100_0000_0000)) + " TiB"@
    } else if bytes >= 0x4000_0000 {
        two_decimals(round_half_even(bytes * 100, 0x4000_0000)) + " GiB"@
    } else if bytes >= 0x10_0000 {
        two_decimals(round_half_even(bytes * 100, 0x10_0000)) + " MiB"@
    } else if bytes >= 0x400 {
        two_decimals(round_half_even(bytes * 100, 0x400)) + " KiB"@
    } else {
        decimal(bytes)
    }
}

fn push_two_decimals(s: &mut String, hundredths: u128)
    requires
        hundredths / 100 <= u64::MAX,
    ensures
        final(s)@ == old(s)@ + two_decimals(hundredths as nat),
{
    let int_part = (hundredths / 100) as u64;
    let frac = (hundredths % 100) as u64;
    let t = u64_to_decimal(int_part);
    s.append(t.as_str());
    push_char(s, '.');
    push_char(s, digit_char_exec(frac / 10));
    push_char(s, digit_char_exec(frac % 10));
}

/// The character of the decimal digit `d`.
pub fn digit_char_exec(d: u64) -> (c: char)
    requires
        d < 10,
    ensures
        c == digit_char(d as nat),
{
    match d {
        0 => '0',
        1 => '1',
        2 => '2',
        3 => '3',
        4 => '4',
        5 => '5',
        6 => '6',
        7 => '7',
        8 => '8',
        _ => '9',
    }
}

/// Human-readable size with binary units, e.g. `"1.50 GiB"`; below 1 KiB the plain byte count.
pub fn bytes_readable(bytes: u64) -> (r: String)
    ensures
        r@ == bytes_readable_spec(bytes as nat),
{
    let b = bytes as u128;
    let unit: u128;
    let suffix: &str;
    if bytes >= 0x100_0000_0000 {
        unit = 0x100_0000_0000;
        suffix = " TiB";
    } else if bytes >= 0x4000_0000 {
        unit = 0x4000_0000;
        suffix = " GiB";
    } else if bytes >= 0x10_0000 {
        unit = 0x10_0000;
        suffix = " MiB";
    } else if bytes >= 0x400 {
        unit = 0x400;
        suffix = " KiB";
    } else {
        return u64_to_decimal(bytes);
    }
    assert(b * 100 <= 0xffff_ffff_ffff_ffff * 100);
    let h = round_half_even_u128(b * 100, unit);
    assert(h <= (b * 100) as int / unit as int + 1);
    assert(h / 100 <= u64::MAX) by (nonlinear_arith)
        requires
            h <= (b * 100) as int / unit as int + 1,
            unit >= 0x400,
            b <= 0xffff_ffff_ffff_ffff,
    ;
    let mut s = String::new();
    push_two_decimals(&mut s, h);
    s.append(suffix);
    s
}

/// `a - b`, or 0 when `b > a`.
pub open spec fn sat_sub(a: nat, b: nat) -> nat {
    if b > a {
        0
    } else {
        (a - b) as nat
    }
}

/// What `bytes_disko_cfg` gives: `"100%"` when the partition reaches to within
/// 1 MiB of the end of the disk, else the size in the largest decimal unit it
/// reaches, rounded to a whole number (ties to even), or plain bytes.
pub open spec fn bytes_disko_cfg_spec(bytes: nat, used: nat, sector_size: nat, total: nat) -> Seq<
    char,
> {
    if ceil_div(bytes, sector_size) + used >= sat_sub(total, ceil_div(1048576, sector_size)) {
        "100%"@
    } else if bytes >= 1_000_000_000_000 {
        decimal(round_half_even(bytes, 1_000_000_000_000)) + "T"@
    } else if bytes >= 1_000_000_000 {
        decimal(round_half_even(bytes, 1_000_000_000)) + "G"@
    } else if bytes >= 1_000_000 {
        decimal(round_half_even(bytes, 1_000_000)) + "M"@
    } else if bytes >= 1000 {
        decimal(round_half_even(bytes, 1000)) + "K"@
    } else {
        decimal(bytes) + "B"@
    }
}

/// Size string for a disko partition entry: `"100%"` for a partition that
/// takes the rest of the disk, otherwise decimal units such as `"50G"`.
pub fn bytes_disko_cfg(bytes: u64, total_used_sectors: u64, sector_size: u64, total_size: u64) -> (r:
    String)
    requires
        sector_size > 0,
    ensures
        r@ == bytes_disko_cfg_spec(
            bytes as nat,
            total_used_sectors as nat,
            sector_size as nat,
            total_size as nat,
        ),
{
    let requested_sectors = div_ceil_u64(bytes, sector_size);
    let reserve = one_mib_in_sectors(sector_size);
    let is_rest_of_space = (requested_sectors as u128) + (total_used_sectors as u128)
        >= (total_size.saturating_sub(reserve) as u128);
    if is_rest_of_space {
        return "100%".to_string();
    }
    let unit: u64;
    let suffix: &str;
    if bytes >= 1_000_000_000_000 {
        unit = 1_000_000_000_000;
        suffix = "T";
    } else if bytes >= 1_000_000_000 {
        unit = 1_000_000_000;
        suffix = "G";
    } else if bytes >= 1_000_000 {
        unit = 1_000_000;
        suffix = "M";
    } else if bytes >= 1000 {
        unit = 1000;
        suffix = "K";
    } else {
        let mut t = u64_to_decimal(bytes);
        t.append("B");
        return t;
    }
    let q = round_half_even_u128(bytes as u128, unit as u128);
    assert(q <= u64::MAX) by (nonlinear_arith)
        requires
            q <= (bytes as int) / (unit as int) + 1,
            unit >= 1000,
    ;
    let mut t = u64_to_decimal(q as u64);
    t.append(suffix);
    t
}

/// The units of `bytes_readable_floor`.
pub open spec fn floor_unit_name(idx: nat) -> Seq<char> {
    if idx == 0 {
        "B"@
    } else if idx == 1 {
        "KiB"@
    } else if idx == 2 {
        "MiB"@
    } else if idx == 3 {
        "GiB"@
    } else if idx == 4 {
        "TiB"@
    } else if idx == 5 {
        "PiB"@
    } else {
        "EiB"@
    }
}

/// `1024^k`.
pub open spec fn pow1024(k: nat) -> nat
    decreases k,
{
    if k == 0 {
        1
    } else {
        1024 * pow1024((k - 1) as nat)
    }
}

/// The unit index `bytes_readable_floor` settles on: the largest `k <= 6`
/// with `bytes >= 1024^k` (0 for small values).
pub open spec fn floor_unit_idx(bytes: nat, k: nat) -> nat
    decreases 6 - k,
{
    if k < 6 && bytes >= pow1024(k) * 1024 {
        floor_unit_idx(bytes, k + 1)
    } else {
        k
    }
}

/// What `bytes_readable_floor` prints: the size in the largest binary unit it
/// reaches, rounded down to hundredths, dropping a zero fraction.
pub open spec fn bytes_readable_floor_spec(bytes: nat) -> Seq<char> {
    let k = floor_unit_idx(bytes, 0);
    let scaled = (if bytes * 100 > u128::MAX { u128::MAX as nat } else { bytes * 100 }) / pow1024(
        k,
    );
    let frac = scaled % 100;
    if k == 0 || frac == 0 {
        decimal(scaled / 100) + " "@ + floor_unit_name(k)
    } else {
        decimal(scaled / 100) + "."@ + seq![digit_char(frac / 10), digit_char(frac % 10)] + " "@
            + floor_unit_name(k)
    }
}

fn unit_name_exec(idx: usize) -> (r: &'static str)
    ensures
        r@ == floor_unit_name(idx as nat),
{
    if idx == 0 {
        "B"
    } else if idx == 1 {
        "KiB"
    } else if idx == 2 {
        "MiB"
    } else if idx == 3 {
        "GiB"
    } else if idx == 4 {
        "TiB"
    } else if idx == 5 {
        "PiB"
    } else {
        "EiB"
    }
}

/// Decimal notation of a `u128`.
fn u128_to_decimal(n: u128) -> (r: String)
    ensures
        r@ == decimal(n as nat),
    decreases n,
{
    if n < 10 {
        let mut s = String::new();
        push_char(&mut s, digit_char_exec(n as u64));
        s
    } else {
        let mut s = u128_to_decimal(n / 10);
        push_char(&mut s, digit_char_exec((n % 10) as u64));
        s
    }
}

/// Human-readable size with binary units, rounded down to hundredths, e.g. `"1.99 GiB"`.
pub fn bytes_readable_floor(bytes: u128) -> (r: String)
    ensures
        r@ == bytes_readable_floor_spec(bytes as nat),
{
    let mut unit_idx: usize = 0;
    let mut denom: u128 = 1;
    while unit_idx + 1 < 7 && bytes >= denom * 1024
        invariant
            unit_idx <= 6,
            denom == pow1024(unit_idx as nat),
            floor_unit_idx(bytes as nat, 0) == floor_unit_idx(bytes as nat, unit_idx as nat),
            denom <= 0x1000_0000_0000_0000,
            denom >= 1,
        decreases 6 - unit_idx,
    {
        proof {
            assert(pow1024((unit_idx + 1) as nat) == 1024 * pow1024(unit_idx as nat));
            assert(unit_idx < 6);
            if unit_idx <= 5 {
                assert(denom <= 0x4_0000_0000_0000) by {
                    lemma_pow1024_bound(unit_idx as nat);
                }
            }
        }
        unit_idx = unit_idx + 1;
        denom = denom * 1024;
    }
    let times100 = if bytes > u128::MAX / 100 { u128::MAX } else { bytes * 100 };
    let scaled = times100 / denom;
    let int_part = scaled / 100;
    let frac = (scaled % 100) as u64;
    let mut s = u128_to_decimal(int_part);
    if unit_idx == 0 || frac == 0 {
        s.append(" ");
        s.append(unit_name_exec(unit_idx));
    } else {
        s.append(".");
        push_char(&mut s, digit_char_exec(frac / 10));
        push_char(&mut s, digit_char_exec(frac % 10));
        s.append(" ");
        s.append(unit_name_exec(unit_idx));
    }
    s
}

proof fn lemma_pow1024_bound(k: nat)
    requires
        k <= 5,
    ensures
        pow1024(k) <= 0x4_0000_0000_0000,
        pow1024(k) > 0,
{
    assert(pow1024(0) == 1);
    assert(pow1024(1) == 1024);
    assert(pow1024(2) == 0x10_0000);
    assert(pow1024(3) == 0x4000_0000);
    assert(pow1024(4) == 0x100_0000_0000);
    assert(pow1024(5) == 0x4_0000_0000_0000);
}


// ---------------------------------------------------------------------------
// Parsing sizes typed by the user
// ---------------------------------------------------------------------------

/// The unit suffixes `parse_sectors` knows, in the order it tries them.
pub open spec fn size_unit_name(k: nat) -> Seq<char> {
    if k == 0 {
        "tib"@
    } else if k == 1 {
        "tb"@
    } else if k == 2 {
        "gib"@
    } else if k == 3 {
        "gb"@
    } else if k == 4 {
        "mib"@
    } else if k == 5 {
        "mb"@
    } else if k == 6 {
        "kib"@
    } else if k == 7 {
        "kb"@
    } else if k == 8 {
        "b"@
    } else {
        "%"@
    }
}

/// Bytes per unit for the byte units (index 0 to 8).
pub open spec fn size_unit_bytes(k: nat) -> nat {
    if k == 0 {
        0x100_0000_0000
    } else if k == 1 {
        1_000_000_000_000
    } else if k == 2 {
        0x4000_0000
    } else if k == 3 {
        1_000_000_000
    } else if k == 4 {
        0x10_0000
    } else if k == 5 {
        1_000_000
    } else if k == 6 {
        0x400
    } else if k == 7 {
        1000
    } else {
        1
    }
}

/// The first unit, from index `k` on, that `s` ends with.
pub open spec fn find_size_unit(s: Seq<char>, k: nat) -> Option<nat>
    decreases 10 - k,
{
    if k >= 10 {
        None
    } else if is_suffix(size_unit_name(k), s) {
        Some(k)
    } else {
        find_size_unit(s, k + 1)
    }
}

/// `s` with every trailing repetition of `u` removed (`str::trim_end_matches`).
pub open spec fn strip_suffix_all(s: Seq<char>, u: Seq<char>) -> Seq<char>
    decreases s.len(),
{
    if u.len() > 0 && is_suffix(u, s) {
        strip_suffix_all(s.subrange(0, s.len() - u.len()), u)
    } else {
        s
    }
}

/// All characters are ASCII digits.
pub open spec fn all_digits(d: Seq<char>) -> bool {
    forall|i: int| 0 <= i < d.len() ==> '0' <= #[trigger] d[i] && d[i] <= '9'
}

/// The number that the ASCII digits `d` spell.
pub open spec fn digits_value(d: Seq<char>) -> nat
    decreases d.len(),
{
    if d.len() == 0 {
        0
    } else {
        digits_value(d.drop_last()) * 10 + ((d.last() as nat) - 48) as nat
    }
}

/// `10^k`.
pub open spec fn pow10(k: nat) -> nat
    decreases k,
{
    if k == 0 {
        1
    } else {
        10 * pow10((k - 1) as nat)
    }
}

/// Position `i` holds the one decimal point of `t`, with digits on both sides of it.
pub open spec fn is_point_at(t: Seq<char>, i: int) -> bool {
    0 <= i < t.len() && t[i] == '.' && all_digits(t.take(i)) && all_digits(t.skip(i + 1))
}

/// A plain decimal number `digits[.digits]` (at least one digit) as the pair
/// (all its digits read as one integer, number of fraction digits); numbers
/// whose digits reach 19 significant places or that have more than 19
/// fraction digits are not accepted.
pub open spec fn parse_decimal_spec(t: Seq<char>) -> Option<(nat, nat)> {
    if all_digits(t) {
        if t.len() > 0 && digits_value(t) < pow10(19) {
            Some((digits_value(t), 0))
        } else {
            None
        }
    } else if exists|i: int| is_point_at(t, i) {
        let i = choose|i: int| is_point_at(t, i);
        let d = t.take(i) + t.skip(i + 1);
        if d.len() > 0 && digits_value(d) < pow10(19) && t.len() - i - 1 <= 19 {
            Some((digits_value(d), (t.len() - i - 1) as nat))
        } else {
            None
        }
    } else {
        None
    }
}

/// `u64::from_str`: an optional `+`, then at least one digit, within range.
pub open spec fn parse_u64_spec(t: Seq<char>) -> Option<nat> {
    let d = if t.len() > 0 && t[0] == '+' {
        t.drop_first()
    } else {
        t
    };
    if d.len() > 0 && all_digits(d) && digits_value(d) <= u64::MAX {
        Some(digits_value(d))
    } else {
        None
    }
}

/// `min(x, u64::MAX)`.
pub open spec fn saturate_u64(x: nat) -> nat {
    if x > u64::MAX {
        u64::MAX as nat
    } else {
        x
    }
}

/// The sectors that a decimal amount of a unit comes to, rounded to nearest
/// (ties away from zero) and capped at `u64::MAX`.
pub open spec fn sectors_of_amount(
    num: nat,
    frac_digits: nat,
    unit: nat,
    sector_size: nat,
    total_sectors: nat,
) -> nat {
    if unit == 9 {
        saturate_u64(round_half_up(num * total_sectors, pow10(frac_digits) * 100))
    } else if sector_size == 0 {
        if num * size_unit_bytes(unit) == 0 {
            0
        } else {
            u64::MAX as nat
        }
    } else {
        saturate_u64(round_half_up(num * size_unit_bytes(unit), pow10(frac_digits) * sector_size))
    }
}

/// What `parse_sectors` returns for the text `s`.
pub open spec fn parse_sectors_spec(s: Seq<char>, sector_size: nat, total_sectors: nat) -> Option<
    nat,
> {
    let t = unicode_lowercase(trim_seq(s));
    match find_size_unit(t, 0) {
        Some(k) => {
            let num = trim_seq(strip_suffix_all(t, size_unit_name(k)));
            match parse_decimal_spec(num) {
                Some((n, f)) => Some(sectors_of_amount(n, f, k, sector_size, total_sectors)),
                None => None,
            }
        },
        None => parse_u64_spec(t),
    }
}

fn size_unit_name_exec(k: usize) -> (r: &'static str)
    requires
        k < 10,
    ensures
        r@ == size_unit_name(k as nat),
        r@.len() > 0,
{
    proof {
        reveal_strlit("tib");
        reveal_strlit("tb");
        reveal_strlit("gib");
        reveal_strlit("gb");
        reveal_strlit("mib");
        reveal_strlit("mb");
        reveal_strlit("kib");
        reveal_strlit("kb");
        reveal_strlit("b");
        reveal_strlit("%");
    }
    if k == 0 {
        "tib"
    } else if k == 1 {
        "tb"
    } else if k == 2 {
        "gib"
    } else if k == 3 {
        "gb"
    } else if k == 4 {
        "mib"
    } else if k == 5 {
        "mb"
    } else if k == 6 {
        "kib"
    } else if k == 7 {
        "kb"
    } else if k == 8 {
        "b"
    } else {
        "%"
    }
}

fn size_unit_bytes_exec(k: usize) -> (r: u64)
    requires
        k < 9,
    ensures
        r == size_unit_bytes(k as nat),
{
    if k == 0 {
        0x100_0000_0000
    } else if k == 1 {
        1_000_000_000_000
    } else if k == 2 {
        0x4000_0000
    } else if k == 3 {
        1_000_000_000
    } else if k == 4 {
        0x10_0000
    } else if k == 5 {
        1_000_000
    } else if k == 6 {
        0x400
    } else if k == 7 {
        1000
    } else {
        1
    }
}

/// Whether `v[0..end]` ends with `u`.
fn prefix_ends_with(v: &Vec<char>, end: usize, u: &Vec<char>) -> (r: bool)
    requires
        end <= v.len(),
    ensures
        r == is_suffix(u@, v@.subrange(0, end as int)),
{
    if u.len() > end {
        return false;
    }
    let from = end - u.len();
    let mut i: usize = 0;
    while i < u.len()
        invariant
            end <= v.len(),
            from + u.len() == end,
            i <= u.len(),
            forall|k: int| 0 <= k < i ==> v@[from + k] == u@[k],
        decreases u.len() - i,
    {
        if v[from + i] != u[i] {
            assert(v@.subrange(0, end as int).subrange(from as int, end as int)[i as int]
                != u@[i as int]);
            return false;
        }
        i = i + 1;
    }
    assert(v@.subrange(0, end as int).subrange(from as int, end as int) =~= u@);
    true
}

proof fn lemma_digits_value_push(d: Seq<char>, c: char)
    ensures
        digits_value(d.push(c)) == digits_value(d) * 10 + ((c as nat) - 48) as nat,
{
    assert(d.push(c).drop_last() =~= d);
}

proof fn lemma_digits_value_mono(d: Seq<char>, i: int)
    requires
        0 <= i <= d.len(),
        all_digits(d),
    ensures
        digits_value(d.subrange(0, i)) <= digits_value(d),
    decreases d.len() - i,
{
    if i < d.len() {
        lemma_digits_value_mono(d, i + 1);
        assert(d.subrange(0, i + 1).drop_last() =~= d.subrange(0, i));
        assert('0' <= d[i] && d[i] <= '9');
    } else {
        assert(d.subrange(0, i) =~= d);
    }
}

proof fn lemma_pow10_pos(k: nat)
    ensures
        pow10(k) >= 1,
    decreases k,
{
    if k > 0 {
        lemma_pow10_pos((k - 1) as nat);
    }
}

proof fn lemma_pow10_19()
    ensures
        pow10(19) == 10_000_000_000_000_000_000,
{
    reveal_with_fuel(pow10, 20);
}

proof fn lemma_pow10_mono(a: nat, b: nat)
    requires
        a <= b,
    ensures
        pow10(a) <= pow10(b),
    decreases b,
{
    if a < b {
        lemma_pow10_mono(a, (b - 1) as nat);
        lemma_pow10_pos((b - 1) as nat);
    }
}

#[verifier::spinoff_prover]
#[verifier::rlimit(40)]
/// Reads the digits `v[lo..hi]`, skipping the one position `skip` (a decimal point),
/// as one integer below `10^19`, or `None` when it reaches `10^19` or a non-digit occurs.
fn read_digits(v: &Vec<char>, lo: usize, hi: usize, skip: usize) -> (r: Option<u128>)
    requires
        lo <= hi <= v.len(),
    ensures
        ({
            let d = if lo <= skip < hi {
                v@.subrange(lo as int, skip as int) + v@.subrange(skip + 1, hi as int)
            } else {
                v@.subrange(lo as int, hi as int)
            };
            match r {
                Some(n) => all_digits(d) && n == digits_value(d) && n < pow10(19),
                None => !(all_digits(d) && digits_value(d) < pow10(19)),
            }
        }),
{
    let ghost d = if lo <= skip < hi {
        v@.subrange(lo as int, skip as int) + v@.subrange(skip + 1, hi as int)
    } else {
        v@.subrange(lo as int, hi as int)
    };
    let ghost mut seen: Seq<char> = Seq::empty();
    let mut n: u128 = 0;
    let mut i = lo;
    proof {
        lemma_pow10_19();
    }
    while i < hi
        invariant
            lo <= i <= hi <= v.len(),
            d == (if lo <= skip < hi {
                v@.subrange(lo as int, skip as int) + v@.subrange(skip + 1, hi as int)
            } else {
                v@.subrange(lo as int, hi as int)
            }),
            seen == (if lo <= skip && skip < i {
                v@.subrange(lo as int, skip as int) + v@.subrange(skip + 1, i as int)
            } else {
                v@.subrange(lo as int, i as int)
            }),
            all_digits(seen),
            n == digits_value(seen),
            n < 10_000_000_000_000_000_000,
            pow10(19) == 10_000_000_000_000_000_000,
            seen.len() <= d.len(),
            d.subrange(0, seen.len() as int) == seen,
        decreases hi - i,
    {
        if i == skip {
            proof {
                assert(seen =~= v@.subrange(lo as int, skip as int) + v@.subrange(
                    skip + 1,
                    (i + 1) as int,
                ));
            }
            i = i + 1;
            continue;
        }
        let c = v[i];
        let ghost next = seen.push(c);
        proof {
            if lo <= skip && skip < i + 1 {
                assert(next =~= v@.subrange(lo as int, skip as int) + v@.subrange(
                    skip + 1,
                    (i + 1) as int,
                ));
            } else {
                assert(next =~= v@.subrange(lo as int, (i + 1) as int));
            }
            assert(d[seen.len() as int] == c);
            assert(d.subrange(0, next.len() as int) =~= next);
        }
        if c < '0' || c > '9' {
            proof {
                assert(d[seen.len() as int] == c);
                assert(!all_digits(d));
            }
            return None;
        }
        let digit = ((c as u32) - 48) as u128;
        proof {
            lemma_digits_value_push(seen, c);
        }
        if n > (9_999_999_999_999_999_999 - digit) / 10 {
            proof {
                assert(digits_value(next) >= 10_000_000_000_000_000_000);
                if all_digits(d) {
                    lemma_digits_value_mono(d, next.len() as int);
                }
            }
            return None;
        }
        n = n * 10 + digit;
        proof {
            seen = next;
        }
        i = i + 1;
    }
    proof {
        assert(seen.len() == d.len());
        assert(seen =~= d);
    }
    Some(n)
}

/// Parses `v[a..b]` as `parse_decimal_spec` describes.
fn parse_decimal_range(v: &Vec<char>, a: usize, b: usize) -> (r: Option<(u128, u32)>)
    requires
        a <= b <= v.len(),
    ensures
        match parse_decimal_spec(v@.subrange(a as int, b as int)) {
            Some((n, f)) => r == Some((n as u128, f as u32)),
            None => r is None,
        },
{
    let ghost t = v@.subrange(a as int, b as int);
    let mut p = a;
    while p < b && '0' <= v[p] && v[p] <= '9'
        invariant
            a <= p <= b <= v.len(),
            forall|k: int| a <= k < p ==> '0' <= #[trigger] v@[k] && v@[k] <= '9',
        decreases b - p,
    {
        p = p + 1;
    }
    if p == b {
        proof {
            assert forall|k: int| 0 <= k < t.len() implies '0' <= #[trigger] t[k] && t[k] <= '9' by {
                assert(t[k] == v@[a + k]);
            }
        }
        if a == b {
            return None;
        }
        let r = read_digits(v, a, b, b);
        match r {
            Some(n) => return Some((n, 0)),
            None => return None,
        }
    }
    let ghost i = p - a;
    proof {
        assert(t[i] == v@[p as int]);
        assert(!all_digits(t));
    }
    if v[p] != '.' {
        proof {
            assert forall|j: int| !is_point_at(t, j) by {
                if is_point_at(t, j) {
                    if j < i {
                        assert(t.take(i)[j] == t[j]);
                        assert(t[j] == v@[a + j]);
                    } else if j > i {
                        assert(t.take(j)[i] == t[i]);
                    }
                }
            }
        }
        return None;
    }
    let mut q = p + 1;
    while q < b && '0' <= v[q] && v[q] <= '9'
        invariant
            p < q <= b <= v.len(),
            forall|k: int| p < k < q ==> '0' <= #[trigger] v@[k] && v@[k] <= '9',
        decreases b - q,
    {
        q = q + 1;
    }
    proof {
        assert forall|k: int| 0 <= k < t.take(i).len() implies '0' <= #[trigger] t.take(i)[k]
            && t.take(i)[k] <= '9' by {
            assert(t.take(i)[k] == v@[a + k]);
        }
    }
    if q < b {
        proof {
            let m = q - a;
            assert(t[m] == v@[q as int]);
            assert forall|j: int| !is_point_at(t, j) by {
                if is_point_at(t, j) {
                    if j < i {
                        assert(t.take(i)[j] == t[j]);
                    } else if j > i {
                        assert(t.take(j)[i] == t[i]);
                    } else {
                        assert(t.skip(i + 1)[m - i - 1] == t[m]);
                    }
                }
            }
        }
        return None;
    }
    proof {
        assert forall|k: int| 0 <= k < t.skip(i + 1).len() implies '0' <= #[trigger] t.skip(
            i + 1,
        )[k] && t.skip(i + 1)[k] <= '9' by {
            assert(t.skip(i + 1)[k] == v@[p + 1 + k]);
        }
        assert(is_point_at(t, i));
        let c = choose|j: int| is_point_at(t, j);
        if c < i {
            assert(t.take(i)[c] == t[c]);
        } else if c > i {
            assert(t.take(c)[i] == t[i]);
        }
        assert(c == i);
        assert(t.take(i) =~= v@.subrange(a as int, p as int));
        assert(t.skip(i + 1) =~= v@.subrange(p + 1, b as int));
    }
    if b - p - 1 > 19 || b - a < 2 {
        return None;
    }
    match read_digits(v, a, b, p) {
        Some(n) => Some((n, (b - p - 1) as u32)),
        None => None,
    }
}

fn pow10_u128(k: u32) -> (r: u128)
    requires
        k <= 21,
    ensures
        r == pow10(k as nat),
        r <= 1_000_000_000_000_000_000_000,
        r >= 1,
{
    proof {
        lemma_pow10_pos(k as nat);
    }
    let mut r: u128 = 1;
    let mut i: u32 = 0;
    while i < k
        invariant
            i <= k <= 21,
            r == pow10(i as nat),
        decreases k - i,
    {
        proof {
            lemma_pow10_mono(i as nat, 20);
            reveal_with_fuel(pow10, 21);
        }
        r = r * 10;
        i = i + 1;
    }
    proof {
        lemma_pow10_mono(k as nat, 21);
        reveal_with_fuel(pow10, 22);
    }
    r
}

fn round_half_up_u128(num: u128, den: u128) -> (r: u128)
    requires
        den > 0,
        num / den < u128::MAX,
    ensures
        r == round_half_up(num as nat, den as nat),
{
    let q = num / den;
    let rem = num % den;
    if rem >= den - rem {
        q + 1
    } else {
        q
    }
}

fn saturate(x: u128) -> (r: u64)
    ensures
        r == saturate_u64(x as nat),
{
    if x > u64::MAX as u128 {
        u64::MAX
    } else {
        x as u64
    }
}

/// Parses a text as `u64::from_str` does.
pub fn parse_u64(s: &str) -> (r: Option<u64>)
    ensures
        match parse_u64_spec(s@) {
            Some(n) => r == Some(n as u64),
            None => r is None,
        },
{
    let v = to_chars(s);
    parse_u64_chars(&v)
}

/// Parses `v` as `u64::from_str` does.
fn parse_u64_chars(v: &Vec<char>) -> (r: Option<u64>)
    ensures
        match parse_u64_spec(v@) {
            Some(n) => r == Some(n as u64),
            None => r is None,
        },
{
    let start: usize = if v.len() > 0 && v[0] == '+' {
        1
    } else {
        0
    };
    let ghost d = if v@.len() > 0 && v@[0] == '+' {
        v@.drop_first()
    } else {
        v@
    };
    proof {
        assert(d =~= v@.subrange(start as int, v.len() as int));
    }
    if start == v.len() {
        return None;
    }
    let mut n: u64 = 0;
    let mut i = start;
    while i < v.len()
        invariant
            start <= i <= v.len(),
            d == v@.subrange(start as int, v.len() as int),
            d == (if v@.len() > 0 && v@[0] == '+' {
                v@.drop_first()
            } else {
                v@
            }),
            all_digits(v@.subrange(start as int, i as int)),
            n == digits_value(v@.subrange(start as int, i as int)),
        decreases v.len() - i,
    {
        let c = v[i];
        let ghost seen = v@.subrange(start as int, i as int);
        proof {
            assert(v@.subrange(start as int, i + 1) =~= seen.push(c));
            lemma_digits_value_push(seen, c);
        }
        if c < '0' || c > '9' {
            proof {
                assert(d[i - start] == c);
                assert(!all_digits(d));
            }
            return None;
        }
        let digit = ((c as u32) - 48) as u64;
        if n > (u64::MAX - digit) / 10 {
            proof {
                assert(n * 10 + digit > u64::MAX) by (nonlinear_arith)
                    requires
                        n > (u64::MAX - digit) / 10,
                        digit <= 9,
                ;
                assert(all_digits(d) ==> digits_value(d) >= digits_value(seen.push(c))) by {
                    if all_digits(d) {
                        lemma_digits_value_mono(d, i + 1 - start);
                        assert(d.subrange(0, i + 1 - start) =~= seen.push(c));
                    }
                }
            }
            return None;
        }
        n = n * 10 + digit;
        i = i + 1;
    }
    Some(n)
}

/// Converts a size typed by the user into sectors: a number with a unit
/// (`tib`, `tb`, `gib`, `gb`, `mib`, `mb`, `kib`, `kb`, `b`, any case), a
/// percentage of `total_sectors`, or a bare sector count.
pub fn parse_sectors(s: &str, sector_size: u64, total_sectors: u64) -> (r: Option<u64>)
    ensures
        match parse_sectors_spec(s@, sector_size as nat, total_sectors as nat) {
            Some(x) => r == Some(x as u64),
            None => r is None,
        },
{
    let t0 = trim(s);
    let t = to_lowercase(t0.as_str());
    let v = to_chars(t.as_str());
    let mut k: usize = 0;
    while k < 10
        invariant
            v@ == unicode_lowercase(trim_seq(s@)),
            k <= 10,
            find_size_unit(v@, 0) == find_size_unit(v@, k as nat),
        decreases 10 - k,
    {
        let u = to_chars(size_unit_name_exec(k));
        assert(v@.subrange(0, v.len() as int) =~= v@);
        if prefix_ends_with(&v, v.len(), &u) {
            let mut end = v.len();
            while prefix_ends_with(&v, end, &u)
                invariant
                    end <= v.len(),
                    u@.len() > 0,
                    strip_suffix_all(v@, u@) == strip_suffix_all(v@.subrange(0, end as int), u@),
                decreases end,
            {
                proof {
                    assert(v@.subrange(0, end as int).subrange(0, end - u@.len()) =~= v@.subrange(
                        0,
                        end - u@.len(),
                    ));
                }
                end = end - u.len();
            }
            let (a, b) = trim_range(&v, 0, end);
            let parsed = parse_decimal_range(&v, a, b);
            match parsed {
                None => {
                    return None;
                },
                Some((n, f)) => {
                    proof {
                        lemma_pow10_19();
                        lemma_pow10_mono(f as nat, 19);
                    }
                    let den_scale = pow10_u128(f);
                    let x: u128;
                    if k == 9 {
                        assert(n * (total_sectors as u128) <= 10_000_000_000_000_000_000u128
                            * 0xffff_ffff_ffff_ffffu128) by (nonlinear_arith)
                            requires
                                n < 10_000_000_000_000_000_000u128,
                                total_sectors <= 0xffff_ffff_ffff_ffffu64,
                        ;
                        let num = n * (total_sectors as u128);
                        let den = den_scale * 100;
                        assert(den >= 1);
                        assert(num / den < u128::MAX) by (nonlinear_arith)
                            requires
                                den >= 1,
                                num <= 10_000_000_000_000_000_000u128 * 0xffff_ffff_ffff_ffffu128,
                        ;
                        x = round_half_up_u128(num, den);
                    } else if sector_size == 0 {
                        let mult = size_unit_bytes_exec(k) as u128;
                        assert(n * mult <= 10_000_000_000_000_000_000u128 * 0x100_0000_0000u128)
                            by (nonlinear_arith)
                            requires
                                n < 10_000_000_000_000_000_000u128,
                                mult <= 0x100_0000_0000u128,
                        ;
                        x = if n * mult == 0 {
                            0
                        } else {
                            u64::MAX as u128
                        };
                    } else {
                        let mult = size_unit_bytes_exec(k) as u128;
                        assert(n * mult <= 10_000_000_000_000_000_000u128 * 0x100_0000_0000u128)
                            by (nonlinear_arith)
                            requires
                                n < 10_000_000_000_000_000_000u128,
                                mult <= 0x100_0000_0000u128,
                        ;
                        assert(den_scale * (sector_size as u128) <= 10_000_000_000_000_000_000u128
                            * 0xffff_ffff_ffff_ffffu128) by (nonlinear_arith)
                            requires
                                den_scale <= 10_000_000_000_000_000_000u128,
                                sector_size <= 0xffff_ffff_ffff_ffffu64,
                        ;
                        let num = n * mult;
                        let den = den_scale * (sector_size as u128);
                        assert(den >= 1) by (nonlinear_arith)
                            requires
                                den_scale >= 1,
                                sector_size >= 1,
                                den == den_scale * (sector_size as u128),
                        ;
                        assert(num / den < u128::MAX) by (nonlinear_arith)
                            requires
                                den >= 1,
                                num <= 10_000_000_000_000_000_000u128 * 0x100_0000_0000u128,
                        ;
                        x = round_half_up_u128(num, den);
                    }
                    return Some(saturate(x));
                },
            }
        }
        k = k + 1;
    }
    parse_u64_chars(&v)
}

// ---------------------------------------------------------------------------
// Strings held in partitions
// ---------------------------------------------------------------------------

/// The view of an optional string.
pub open spec fn opt_view(o: Option<String>) -> Option<Seq<char>> {
    match o {
        Some(s) => Some(s@),
        None => None,
    }
}

/// The view of an optional borrowed string.
pub open spec fn opt_str_view(o: Option<&str>) -> Option<Seq<char>> {
    match o {
        Some(s) => Some(s@),
        None => None,
    }
}

/// A copy of a vector of strings.
pub fn clone_strings(v: &Vec<String>) -> (r: Vec<String>)
    ensures
        r@ == v@,
        strings_view(r@) == strings_view(v@),
{
    let mut r: Vec<String> = Vec::new();
    let mut i: usize = 0;
    while i < v.len()
        invariant
            i <= v.len(),
            r@ == v@.take(i as int),
        decreases v.len() - i,
    {
        r.push(v[i].clone());
        assert(r@ =~= v@.take(i + 1));
        i = i + 1;
    }
    assert(r@ =~= v@);
    r
}

/// A copy of an optional string.
pub fn clone_opt(o: &Option<String>) -> (r: Option<String>)
    ensures
        r == *o,
{
    match o {
        Some(s) => Some(s.clone()),
        None => None,
    }
}

fn opt_as_str(o: &Option<String>) -> (r: Option<&str>)
    ensures
        opt_str_view(r) == opt_view(*o),
{
    match o {
        Some(s) => Some(s.as_str()),
        None => None,
    }
}

/// `v` holds an element equal to `x`.
pub fn strings_contain(v: &Vec<String>, x: &str) -> (r: bool)
    ensures
        r == strings_view(v@).contains(x@),
{
    let mut i: usize = 0;
    while i < v.len()
        invariant
            i <= v.len(),
            forall|k: int| 0 <= k < i ==> v@[k]@ != x@,
        decreases v.len() - i,
    {
        if str_eq(v[i].as_str(), x) {
            assert(strings_view(v@)[i as int] == x@);
            return true;
        }
        i = i + 1;
    }
    assert forall|k: int| 0 <= k < strings_view(v@).len() implies strings_view(v@)[k] != x@ by {
        assert(strings_view(v@)[k] == v@[k]@);
    }
    false
}

// ---------------------------------------------------------------------------
// Partition table types
// ---------------------------------------------------------------------------

/// Partition table type of a disk.
#[derive(Clone, Copy, Debug, PartialEq, Eq, Structural)]
pub enum DiskLabel {
    Gpt,
    Msdos,
    NoLabel,
}

/// The label that an `lsblk` `PTTYPE` value stands for.
pub open spec fn disk_label_of(s: Seq<char>) -> DiskLabel {
    if s == "gpt"@ {
        DiskLabel::Gpt
    } else if s == "dos"@ || s == "msdos"@ {
        DiskLabel::Msdos
    } else {
        DiskLabel::NoLabel
    }
}

/// The name under which a label is written to disko.
pub open spec fn disk_label_name(l: DiskLabel) -> Seq<char> {
    match l {
        DiskLabel::Gpt => "gpt"@,
        DiskLabel::Msdos => "msdos"@,
        DiskLabel::NoLabel => "none"@,
    }
}

impl DiskLabel {
    /// Reads the `PTTYPE` column of `lsblk` (`dos` is the MBR label).
    pub fn from_lsblk(s: &str) -> (r: DiskLabel)
        ensures
            r == disk_label_of(s@),
    {
        if str_eq(s, "gpt") {
            DiskLabel::Gpt
        } else if str_eq(s, "dos") || str_eq(s, "msdos") {
            DiskLabel::Msdos
        } else {
            DiskLabel::NoLabel
        }
    }

    /// The label's disko name.
    pub fn as_str(&self) -> (r: &'static str)
        ensures
            r@ == disk_label_name(*self),
    {
        match self {
            DiskLabel::Gpt => "gpt",
            DiskLabel::Msdos => "msdos",
            DiskLabel::NoLabel => "none",
        }
    }
}

/// What the installer will do with a partition.
#[derive(Clone, Copy, Debug, PartialEq, Eq, Structural)]
pub enum PartStatus {
    Delete,
    Modify,
    Create,
    Exists,
    Unknown,
}

/// Abstract value of a partition.
pub struct PartitionView {
    pub id: u64,
    pub start: u64,
    pub size: u64,
    pub sector_size: u64,
    pub status: PartStatus,
    pub name: Option<Seq<char>>,
    pub fs_type: Option<Seq<char>>,
    pub mount_point: Option<Seq<char>>,
    pub ro: bool,
    pub label: Option<Seq<char>>,
    pub flags: Seq<Seq<char>>,
}

/// A partition of a disk, existing or planned. Start and size are in sectors.
#[derive(Debug)]
pub struct Partition {
    id: u64,
    start: u64,
    size: u64,
    sector_size: u64,
    status: PartStatus,
    name: Option<String>,
    fs_type: Option<String>,
    mount_point: Option<String>,
    ro: bool,
    label: Option<String>,
    flags: Vec<String>,
}

impl View for Partition {
    type V = PartitionView;

    closed spec fn view(&self) -> PartitionView {
        PartitionView {
            id: self.id,
            start: self.start,
            size: self.size,
            sector_size: self.sector_size,
            status: self.status,
            name: opt_view(self.name),
            fs_type: opt_view(self.fs_type),
            mount_point: opt_view(self.mount_point),
            ro: self.ro,
            label: opt_view(self.label),
            flags: strings_view(self.flags@),
        }
    }
}

impl Clone for Partition {
    fn clone(&self) -> (r: Self)
        ensures
            r@ == self@,
    {
        Partition {
            id: self.id,
            start: self.start,
            size: self.size,
            sector_size: self.sector_size,
            status: self.status,
            name: clone_opt(&self.name),
            fs_type: clone_opt(&self.fs_type),
            mount_point: clone_opt(&self.mount_point),
            ro: self.ro,
            label: clone_opt(&self.label),
            flags: clone_strings(&self.flags),
        }
    }
}

/// The disko filesystem name for a filesystem type (`vfat` for every FAT).
pub open spec fn disko_fs_name(fs: Seq<char>) -> Option<Seq<char>> {
    if fs == "ext4"@ {
        Some("ext4"@)
    } else if fs == "ext3"@ {
        Some("ext3"@)
    } else if fs == "ext2"@ {
        Some("ext2"@)
    } else if fs == "btrfs"@ {
        Some("btrfs"@)
    } else if fs == "xfs"@ {
        Some("xfs"@)
    } else if fs == "fat12"@ || fs == "fat16"@ || fs == "fat32"@ {
        Some("vfat"@)
    } else if fs == "ntfs"@ {
        Some("ntfs"@)
    } else if fs == "swap"@ {
        Some("swap"@)
    } else {
        None
    }
}

/// The GPT partition type code for a filesystem type.
pub open spec fn gpt_code(fs: Seq<char>, is_esp: bool) -> Option<Seq<char>> {
    if fs == "ext4"@ || fs == "ext3"@ || fs == "ext2"@ || fs == "btrfs"@ || fs == "xfs"@ {
        Some("8300"@)
    } else if fs == "fat12"@ || fs == "fat16"@ || fs == "fat32"@ {
        if is_esp {
            Some("EF00"@)
        } else {
            Some("0700"@)
        }
    } else if fs == "ntfs"@ {
        Some("0700"@)
    } else if fs == "swap"@ {
        Some("8200"@)
    } else {
        None
    }
}

/// `flags` with `flag` added unless already present.
pub open spec fn add_flag_spec(flags: Seq<Seq<char>>, flag: Seq<char>) -> Seq<Seq<char>> {
    if flags.contains(flag) {
        flags
    } else {
        flags.push(flag)
    }
}

impl Partition {
    /// A partition with the given fields.
    pub fn new(
        id: u64,
        start: u64,
        size: u64,
        sector_size: u64,
        status: PartStatus,
        name: Option<String>,
        fs_type: Option<String>,
        mount_point: Option<String>,
        label: Option<String>,
        ro: bool,
        flags: Vec<String>,
    ) -> (r: Self)
        ensures
            r@ == (PartitionView {
                id,
                start,
                size,
                sector_size,
                status,
                name: opt_view(name),
                fs_type: opt_view(fs_type),
                mount_point: opt_view(mount_point),
                ro,
                label: opt_view(label),
                flags: strings_view(flags@),
            }),
    {
        Partition {
            id,
            start,
            size,
            sector_size,
            status,
            name,
            fs_type,
            mount_point,
            ro,
            label,
            flags,
        }
    }

    pub fn id(&self) -> (r: u64)
        ensures
            r == self@.id,
    {
        self.id
    }

    pub fn name(&self) -> (r: Option<&str>)
        ensures
            opt_str_view(r) == self@.name,
    {
        opt_as_str(&self.name)
    }

    pub fn set_name(&mut self, name: String)
        ensures
            final(self)@ == (PartitionView { name: Some(name@), ..old(self)@ }),
    {
        self.name = Some(name);
    }

    pub fn start(&self) -> (r: u64)
        ensures
            r == self@.start,
    {
        self.start
    }

    /// First sector after the partition.
    pub fn end(&self) -> (r: u64)
        requires
            self@.start + self@.size <= u64::MAX,
        ensures
            r == self@.start + self@.size,
    {
        self.start + self.size
    }

    pub fn set_start(&mut self, start: u64)
        ensures
            final(self)@ == (PartitionView { start, ..old(self)@ }),
    {
        self.start = start;
    }

    pub fn size(&self) -> (r: u64)
        ensures
            r == self@.size,
    {
        self.size
    }

    pub fn set_size(&mut self, size: u64)
        ensures
            final(self)@ == (PartitionView { size, ..old(self)@ }),
    {
        self.size = size;
    }

    pub fn sector_size(&self) -> (r: u64)
        ensures
            r == self@.sector_size,
    {
        self.sector_size
    }

    pub fn status(&self) -> (r: PartStatus)
        ensures
            r == self@.status,
    {
        self.status
    }

    pub fn set_status(&mut self, status: PartStatus)
        ensures
            final(self)@ == (PartitionView { status, ..old(self)@ }),
    {
        self.status = status;
    }

    pub fn read_only(&self) -> (r: bool)
        ensures
            r == self@.ro,
    {
        self.ro
    }

    pub fn fs_type(&self) -> (r: Option<&str>)
        ensures
            opt_str_view(r) == self@.fs_type,
    {
        opt_as_str(&self.fs_type)
    }

    /// The filesystem name that disko expects (`vfat` for any FAT type).
    pub fn disko_fs_type(&self) -> (r: Option<&'static str>)
        ensures
            opt_str_view(r) == match self@.fs_type {
                Some(fs) => disko_fs_name(fs),
                None => None,
            },
    {
        match &self.fs_type {
            None => None,
            Some(fs) => {
                let f = fs.as_str();
                if str_eq(f, "ext4") {
                    Some("ext4")
                } else if str_eq(f, "ext3") {
                    Some("ext3")
                } else if str_eq(f, "ext2") {
                    Some("ext2")
                } else if str_eq(f, "btrfs") {
                    Some("btrfs")
                } else if str_eq(f, "xfs") {
                    Some("xfs")
                } else if str_eq(f, "fat12") || str_eq(f, "fat16") || str_eq(f, "fat32") {
                    Some("vfat")
                } else if str_eq(f, "ntfs") {
                    Some("ntfs")
                } else if str_eq(f, "swap") {
                    Some("swap")
                } else {
                    None
                }
            },
        }
    }

    pub fn clear_mount_point(&mut self)
        ensures
            final(self)@ == (PartitionView { mount_point: None, ..old(self)@ }),
    {
        self.mount_point = None;
    }

    /// The partition is a swap area.
    pub fn is_swap(&self) -> (r: bool)
        ensures
            r == (self@.fs_type == Some("swap"@)),
    {
        match &self.fs_type {
            Some(fs) => str_eq(fs.as_str(), "swap"),
            None => false,
        }
    }

    /// The GPT type code for the partition's filesystem.
    pub fn fs_gpt_code(&self, is_esp: bool) -> (r: Option<&'static str>)
        ensures
            opt_str_view(r) == match self@.fs_type {
                Some(fs) => gpt_code(fs, is_esp),
                None => None,
            },
    {
        match &self.fs_type {
            None => None,
            Some(fs) => {
                let f = fs.as_str();
                if str_eq(f, "ext4") || str_eq(f, "ext3") || str_eq(f, "ext2") || str_eq(f, "btrfs")
                    || str_eq(f, "xfs") {
                    Some("8300")
                } else if str_eq(f, "fat12") || str_eq(f, "fat16") || str_eq(f, "fat32") {
                    if is_esp {
                        Some("EF00")
                    } else {
                        Some("0700")
                    }
                } else if str_eq(f, "ntfs") {
                    Some("0700")
                } else if str_eq(f, "swap") {
                    Some("8200")
                } else {
                    None
                }
            },
        }
    }

    pub fn set_fs_type(&mut self, fs_type: String)
        ensures
            final(self)@ == (PartitionView { fs_type: Some(fs_type@), ..old(self)@ }),
    {
        self.fs_type = Some(fs_type);
    }

    pub fn mount_point(&self) -> (r: Option<&str>)
        ensures
            opt_str_view(r) == self@.mount_point,
    {
        opt_as_str(&self.mount_point)
    }

    pub fn set_mount_point(&mut self, mount_point: String)
        ensures
            final(self)@ == (PartitionView { mount_point: Some(mount_point@), ..old(self)@ }),
    {
        self.mount_point = Some(mount_point);
    }

    pub fn label(&self) -> (r: Option<&str>)
        ensures
            opt_str_view(r) == self@.label,
    {
        opt_as_str(&self.label)
    }

    pub fn set_label(&mut self, label: String)
        ensures
            final(self)@ == (PartitionView { label: Some(label@), ..old(self)@ }),
    {
        self.label = Some(label);
    }

    pub fn flags(&self) -> (r: &Vec<String>)
        ensures
            strings_view(r@) == self@.flags,
    {
        &self.flags
    }

    /// Adds `flag` unless the partition already has it.
    pub fn add_flag(&mut self, flag: String)
        ensures
            final(self)@ == (PartitionView {
                flags: add_flag_spec(old(self)@.flags, flag@),
                ..old(self)@
            }),
    {
        if !strings_contain(&self.flags, flag.as_str()) {
            let ghost before = strings_view(self.flags@);
            self.flags.push(flag);
            assert(strings_view(self.flags@) =~= before.push(flag@));
        }
    }

    /// Adds each of `flags` that the partition does not have yet, in order.
    pub fn add_flags(&mut self, flags: &Vec<String>)
        ensures
            final(self)@ == (PartitionView {
                flags: strings_view(flags@).fold_left(
                    old(self)@.flags,
                    |acc: Seq<Seq<char>>, f: Seq<char>| add_flag_spec(acc, f),
                ),
                ..old(self)@
            }),
    {
        let mut i: usize = 0;
        let ghost fv = strings_view(flags@);
        while i < flags.len()
            invariant
                i <= flags.len(),
                fv == strings_view(flags@),
                self@ == (PartitionView {
                    flags: fv.take(i as int).fold_left(
                        old(self)@.flags,
                        |acc: Seq<Seq<char>>, f: Seq<char>| add_flag_spec(acc, f),
                    ),
                    ..old(self)@
                }),
            decreases flags.len() - i,
        {
            proof {
                assert(fv.take(i + 1).drop_last() =~= fv.take(i as int));
            }
            self.add_flag(flags[i].clone());
            i = i + 1;
        }
        assert(fv.take(flags.len() as int) =~= fv);
    }

    /// Removes every occurrence of `flag`.
    pub fn remove_flag(&mut self, flag: &str)
        ensures
            final(self)@ == (PartitionView {
                flags: old(self)@.flags.filter(|f: Seq<char>| f != flag@),
                ..old(self)@
            }),
    {
        let ghost before = old(self)@.flags;
        let mut kept: Vec<String> = Vec::new();
        let mut i: usize = 0;
        while i < self.flags.len()
            invariant
                i <= self.flags.len(),
                strings_view(self.flags@) == before,
                self@ == old(self)@,
                strings_view(kept@) == before.take(i as int).filter(|f: Seq<char>| f != flag@),
            decreases self.flags.len() - i,
        {
            proof {
                reveal(Seq::filter);
                assert(before.take(i + 1).drop_last() =~= before.take(i as int));
            }
            if !str_eq(self.flags[i].as_str(), flag) {
                let ghost kv = strings_view(kept@);
                kept.push(self.flags[i].clone());
                assert(strings_view(kept@) =~= kv.push(before[i as int]));
            }
            i = i + 1;
        }
        assert(before.take(self.flags.len() as int) =~= before);
        self.flags = kept;
    }

    /// Size in bytes for the given sector size.
    pub fn size_bytes(&self, sector_size: u64) -> (r: u64)
        requires
            self@.size * sector_size <= u64::MAX,
        ensures
            r == self@.size * sector_size,
    {
        self.size * sector_size
    }
}

// ---------------------------------------------------------------------------
// Layout entries
// ---------------------------------------------------------------------------

/// Abstract value of a layout entry.
pub enum DiskItemView {
    Part(PartitionView),
    Free { id: u64, start: u64, size: u64 },
}

/// An entry of a disk layout: a partition or a stretch of free space (in sectors).
#[derive(Debug)]
pub enum DiskItem {
    Partition(Partition),
    FreeSpace { id: u64, start: u64, size: u64 },
}

impl View for DiskItem {
    type V = DiskItemView;

    open spec fn view(&self) -> DiskItemView {
        match self {
            DiskItem::Partition(p) => DiskItemView::Part(p@),
            DiskItem::FreeSpace { id, start, size } => DiskItemView::Free {
                id: *id,
                start: *start,
                size: *size,
            },
        }
    }
}

impl Clone for DiskItem {
    fn clone(&self) -> (r: Self)
        ensures
            r@ == self@,
    {
        match self {
            DiskItem::Partition(p) => DiskItem::Partition(p.clone()),
            DiskItem::FreeSpace { id, start, size } => DiskItem::FreeSpace {
                id: *id,
                start: *start,
                size: *size,
            },
        }
    }
}

/// The views of a sequence of entries.
pub open spec fn items_view(v: Seq<DiskItem>) -> Seq<DiskItemView> {
    v.map_values(|i: DiskItem| i@)
}

/// First sector of an entry.
pub open spec fn item_start(v: DiskItemView) -> u64 {
    match v {
        DiskItemView::Part(p) => p.start,
        DiskItemView::Free { start, .. } => start,
    }
}

/// Size of an entry, in sectors.
pub open spec fn item_size(v: DiskItemView) -> u64 {
    match v {
        DiskItemView::Part(p) => p.size,
        DiskItemView::Free { size, .. } => size,
    }
}

/// Identifier of an entry.
pub open spec fn item_id(v: DiskItemView) -> u64 {
    match v {
        DiskItemView::Part(p) => p.id,
        DiskItemView::Free { id, .. } => id,
    }
}

/// The entry is a partition marked for deletion.
pub open spec fn is_deleted(v: DiskItemView) -> bool {
    match v {
        DiskItemView::Part(p) => p.status == PartStatus::Delete,
        _ => false,
    }
}

/// The entry is a partition not marked for deletion.
pub open spec fn is_live(v: DiskItemView) -> bool {
    match v {
        DiskItemView::Part(p) => p.status != PartStatus::Delete,
        _ => false,
    }
}

/// The entry is free space.
pub open spec fn is_free(v: DiskItemView) -> bool {
    v is Free
}

/// Kinds of entries to select from a layout.
#[derive(Clone, Copy, PartialEq, Eq, Structural)]
pub enum Select {
    /// Partitions marked for deletion.
    Deleted,
    /// Everything but partitions marked for deletion.
    NotDeleted,
    /// Partitions not marked for deletion.
    Live,
    /// Partitions of any status.
    Parts,
}

/// The entry is of the kind `sel`.
pub open spec fn selects(sel: Select, v: DiskItemView) -> bool {
    match sel {
        Select::Deleted => is_deleted(v),
        Select::NotDeleted => !is_deleted(v),
        Select::Live => is_live(v),
        Select::Parts => v is Part,
    }
}

/// The entries of `l` of the kind `sel`, in order.
pub open spec fn keep_items(l: Seq<DiskItemView>, sel: Select) -> Seq<DiskItemView>
    decreases l.len(),
{
    if l.len() == 0 {
        l
    } else if selects(sel, l.last()) {
        keep_items(l.drop_last(), sel).push(l.last())
    } else {
        keep_items(l.drop_last(), sel)
    }
}

/// Copies of the entries of `l` of the kind `sel`, in order.
pub fn select_items(l: &Vec<DiskItem>, sel: Select) -> (r: Vec<DiskItem>)
    ensures
        items_view(r@) == keep_items(items_view(l@), sel),
{
    let ghost lv = items_view(l@);
    let mut r: Vec<DiskItem> = Vec::new();
    let mut i: usize = 0;
    while i < l.len()
        invariant
            i <= l.len(),
            lv == items_view(l@),
            items_view(r@) == keep_items(lv.take(i as int), sel),
        decreases l.len() - i,
    {
        proof {
            assert(lv.take(i + 1).drop_last() =~= lv.take(i as int));
        }
        let keep = match &l[i] {
            DiskItem::Partition(p) => match sel {
                Select::Deleted => p.status() == PartStatus::Delete,
                Select::NotDeleted => p.status() != PartStatus::Delete,
                Select::Live => p.status() != PartStatus::Delete,
                Select::Parts => true,
            },
            DiskItem::FreeSpace { .. } => match sel {
                Select::NotDeleted => true,
                _ => false,
            },
        };
        if keep {
            let ghost rv = items_view(r@);
            r.push(l[i].clone());
            assert(items_view(r@) =~= rv.push(lv[i as int]));
        }
        i = i + 1;
    }
    assert(lv.take(l.len() as int) =~= lv);
    r
}

impl DiskItem {
    pub fn start(&self) -> (r: u64)
        ensures
            r == item_start(self@),
    {
        match self {
            DiskItem::Partition(p) => p.start(),
            DiskItem::FreeSpace { start, .. } => *start,
        }
    }

    pub fn id(&self) -> (r: u64)
        ensures
            r == item_id(self@),
    {
        match self {
            DiskItem::Partition(p) => p.id(),
            DiskItem::FreeSpace { id, .. } => *id,
        }
    }

    pub fn mount_point(&self) -> (r: Option<&str>)
        ensures
            opt_str_view(r) == match self@ {
                DiskItemView::Part(p) => p.mount_point,
                DiskItemView::Free { .. } => None,
            },
    {
        match self {
            DiskItem::Partition(p) => p.mount_point(),
            DiskItem::FreeSpace { .. } => None,
        }
    }
}

/// `x` inserted into `s` after every entry that does not start later than it
/// (one step of a stable sort by start).
pub open spec fn insert_by_start(x: DiskItemView, s: Seq<DiskItemView>) -> Seq<DiskItemView>
    decreases s.len(),
{
    if s.len() == 0 {
        seq![x]
    } else if item_start(x) < item_start(s[0]) {
        seq![x] + s
    } else {
        seq![s[0]] + insert_by_start(x, s.drop_first())
    }
}

/// `s` stably sorted by start sector.
pub open spec fn sort_by_start(s: Seq<DiskItemView>) -> Seq<DiskItemView>
    decreases s.len(),
{
    if s.len() == 0 {
        s
    } else {
        insert_by_start(s.last(), sort_by_start(s.drop_last()))
    }
}

proof fn lemma_insert_at(x: DiskItemView, s: Seq<DiskItemView>, j: int)
    requires
        0 <= j <= s.len(),
        forall|k: int| 0 <= k < j ==> !(item_start(x) < item_start(#[trigger] s[k])),
        j == s.len() || item_start(x) < item_start(s[j]),
    ensures
        insert_by_start(x, s) == s.take(j) + seq![x] + s.skip(j),
    decreases j,
{
    if j == 0 {
        if s.len() == 0 {
            assert(s.take(0) + seq![x] + s.skip(0) =~= seq![x]);
        } else {
            assert(s.take(0) + seq![x] + s.skip(0) =~= seq![x] + s);
        }
    } else {
        let t = s.drop_first();
        assert forall|k: int| 0 <= k < j - 1 implies !(item_start(x) < item_start(
            #[trigger] t[k],
        )) by {
            assert(t[k] == s[k + 1]);
        }
        if j < s.len() {
            assert(t[j - 1] == s[j]);
        }
        lemma_insert_at(x, t, j - 1);
        assert(!(item_start(x) < item_start(s[0])));
        assert(seq![s[0]] + (t.take(j - 1) + seq![x] + t.skip(j - 1)) =~= s.take(j) + seq![x]
            + s.skip(j));
    }
}

/// Stable sort of entries by start sector.
pub fn sort_items_by_start(v: Vec<DiskItem>) -> (r: Vec<DiskItem>)
    ensures
        items_view(r@) == sort_by_start(items_view(v@)),
{
    let mut res: Vec<DiskItem> = Vec::new();
    let ghost vv = items_view(v@);
    let mut i: usize = 0;
    while i < v.len()
        invariant
            i <= v.len(),
            vv == items_view(v@),
            items_view(res@) == sort_by_start(vv.take(i as int)),
        decreases v.len() - i,
    {
        let x = v[i].clone();
        let xs = x.start();
        let mut j: usize = 0;
        while j < res.len() && !(xs < res[j].start())
            invariant
                j <= res.len(),
                xs == item_start(x@),
                forall|k: int| 0 <= k < j ==> !(item_start(x@) < item_start(
                    #[trigger] items_view(res@)[k],
                )),
            decreases res.len() - j,
        {
            j = j + 1;
        }
        let ghost before = items_view(res@);
        proof {
            lemma_insert_at(x@, before, j as int);
            assert(vv.take(i + 1).drop_last() =~= vv.take(i as int));
            assert(vv.take(i + 1).last() == x@);
        }
        res.insert(j, x);
        assert(items_view(res@) =~= before.take(j as int) + seq![vv[i as int]] + before.skip(
            j as int,
        ));
        i = i + 1;
    }
    assert(vv.take(v.len() as int) =~= vv);
    res
}

/// `a + b`, capped at `u64::MAX`.
pub open spec fn sat_add(a: u64, b: u64) -> u64 {
    if a + b > u64::MAX {
        u64::MAX
    } else {
        (a + b) as u64
    }
}

/// The identifier after `x` (wrapping around at the top).
pub open spec fn bump(x: u64) -> u64 {
    if x == u64::MAX {
        0
    } else {
        (x + 1) as u64
    }
}

/// Merging of runs of consecutive free-space entries into one entry each, with
/// fresh identifiers drawn in order from `next`; gives the new entries and the
/// next unused identifier.
pub open spec fn merge_runs(l: Seq<DiskItemView>, pending: Option<(u64, u64)>, next: u64) -> (
    Seq<DiskItemView>,
    u64,
)
    decreases l.len(),
{
    if l.len() == 0 {
        match pending {
            Some((s, z)) => (seq![DiskItemView::Free { id: next, start: s, size: z }], bump(next)),
            None => (Seq::empty(), next),
        }
    } else {
        match l[0] {
            DiskItemView::Free { start, size, .. } => merge_runs(
                l.drop_first(),
                Some(
                    match pending {
                        Some((s, z)) => (s, sat_add(z, size)),
                        None => (start, size),
                    },
                ),
                next,
            ),
            DiskItemView::Part(p) => match pending {
                Some((s, z)) => {
                    let r = merge_runs(l.drop_first(), None, bump(next));
                    (
                        seq![DiskItemView::Free { id: next, start: s, size: z }, DiskItemView::Part(p)]
                            + r.0,
                        r.1,
                    )
                },
                None => {
                    let r = merge_runs(l.drop_first(), None, next);
                    (seq![DiskItemView::Part(p)] + r.0, r.1)
                },
            },
        }
    }
}

/// The layout as `normalize_layout` leaves it: deleted partitions first, then
/// the other entries in order, with each run of free space merged into one
/// entry; and the next unused identifier.
pub open spec fn normalize_spec(l: Seq<DiskItemView>, next: u64) -> (Seq<DiskItemView>, u64) {
    merge_runs(
        keep_items(l, Select::Deleted) + keep_items(l, Select::NotDeleted),
        None,
        next,
    )
}

/// `min(a, b)`.
pub open spec fn min_u64(a: u64, b: u64) -> u64 {
    if a < b {
        a
    } else {
        b
    }
}

/// The free-space entries (identifier 0) for the gaps before each of the
/// sorted partitions `parts` and after the last of them up to `last`, keeping
/// only gaps larger than `min` sectors; `cursor` is where the scan begins.
pub open spec fn gaps_after(parts: Seq<DiskItemView>, cursor: u64, last: u64, min: u64) -> Seq<
    DiskItemView,
>
    decreases parts.len(),
{
    if parts.len() == 0 {
        if cursor < last && last - cursor > min {
            seq![DiskItemView::Free { id: 0, start: cursor, size: (last - cursor) as u64 }]
        } else {
            Seq::empty()
        }
    } else {
        let st = item_start(parts[0]);
        let g = if st > cursor && st - cursor > min {
            seq![DiskItemView::Free { id: 0, start: cursor, size: (st - cursor) as u64 }]
        } else {
            Seq::<DiskItemView>::empty()
        };
        g + gaps_after(
            parts.drop_first(),
            min_u64(sat_add(st, item_size(parts[0])), last),
            last,
            min,
        )
    }
}

/// Sectors kept free at the end of the disk for the backup GPT.
pub open spec fn tail_reserve(label: DiskLabel, sector_size: nat) -> nat {
    match label {
        DiskLabel::Msdos => 0,
        _ => 1 + ceil_div(16384, sector_size),
    }
}

/// Last usable sector bound of a disk of `size` sectors.
pub open spec fn last_usable(size: u64, label: DiskLabel, sector_size: nat) -> u64 {
    sat_sub(size as nat, tail_reserve(label, sector_size)) as u64
}

/// The layout that `calculate_free_space` computes before normalizing: deleted
/// partitions, then the other partitions and fresh gaps of more than 5 MiB
/// (leaving the first MiB and the GPT tail free), sorted by start.
pub open spec fn with_gaps(l: Seq<DiskItemView>, size: u64, sector_size: nat, label: DiskLabel) -> Seq<
    DiskItemView,
> {
    let last = last_usable(size, label, sector_size);
    let live = sort_by_start(keep_items(l, Select::Live));
    let first = min_u64(ceil_div(1048576, sector_size) as u64, last);
    let gaps = gaps_after(live, first, last, ceil_div(5 * 1048576, sector_size) as u64);
    keep_items(l, Select::Deleted) + sort_by_start(live + gaps)
}

/// The free-space entries between the sorted partitions `parts`, as `gaps_after` defines them.
fn compute_gaps(parts: &Vec<DiskItem>, first: u64, last: u64, min: u64) -> (r: Vec<DiskItem>)
    ensures
        items_view(r@) == gaps_after(items_view(parts@), first, last, min),
{
    let ghost pv = items_view(parts@);
    let mut gaps: Vec<DiskItem> = Vec::new();
    let mut cursor = first;
    let mut i: usize = 0;
    assert(pv.skip(0) =~= pv);
    assert(items_view(gaps@) + gaps_after(pv, first, last, min) =~= gaps_after(pv, first, last, min));
    while i < parts.len()
        invariant
            i <= parts.len(),
            pv == items_view(parts@),
            gaps_after(pv, first, last, min) == items_view(gaps@) + gaps_after(
                pv.skip(i as int),
                cursor,
                last,
                min,
            ),
        decreases parts.len() - i,
    {
        let st = parts[i].start();
        let sz = match &parts[i] {
            DiskItem::Partition(p) => p.size(),
            DiskItem::FreeSpace { size, .. } => *size,
        };
        let ghost before = items_view(gaps@);
        proof {
            assert(pv.skip(i as int)[0] == pv[i as int]);
            assert(pv.skip(i as int).drop_first() =~= pv.skip(i + 1));
        }
        if st > cursor {
            let size = st - cursor;
            if size > min {
                gaps.push(DiskItem::FreeSpace { id: 0, start: cursor, size });
                assert(items_view(gaps@) =~= before + seq![
                    DiskItemView::Free { id: 0, start: cursor, size },
                ]);
            }
        }
        let end = st.saturating_add(sz);
        cursor = if end < last {
            end
        } else {
            last
        };
        i = i + 1;
    }
    if cursor < last {
        let size = last - cursor;
        if size > min {
            let ghost before = items_view(gaps@);
            gaps.push(DiskItem::FreeSpace { id: 0, start: cursor, size });
            assert(items_view(gaps@) =~= before + seq![
                DiskItemView::Free { id: 0, start: cursor, size },
            ]);
        }
    }
    assert(items_view(gaps@) =~= items_view(gaps@) + Seq::<DiskItemView>::empty());
    gaps
}

/// Next identifier after `x`.
fn bump_id(x: u64) -> (r: u64)
    ensures
        r == bump(x),
{
    if x == u64::MAX {
        0
    } else {
        x + 1
    }
}

/// Merges runs of free space of `l`, drawing fresh identifiers from `next`.
fn merge_free_runs(l: &Vec<DiskItem>, next: u64) -> (r: (Vec<DiskItem>, u64))
    ensures
        (items_view(r.0@), r.1) == merge_runs(items_view(l@), None, next),
{
    let ghost lv = items_view(l@);
    let mut out: Vec<DiskItem> = Vec::new();
    let mut pending: Option<(u64, u64)> = None;
    let mut nid = next;
    let mut i: usize = 0;
    assert(lv.skip(0) =~= lv);
    assert(items_view(out@) + merge_runs(lv, None, next).0 =~= merge_runs(lv, None, next).0);
    while i < l.len()
        invariant
            i <= l.len(),
            lv == items_view(l@),
            merge_runs(lv, None, next).0 == items_view(out@) + merge_runs(
                lv.skip(i as int),
                pending,
                nid,
            ).0,
            merge_runs(lv, None, next).1 == merge_runs(lv.skip(i as int), pending, nid).1,
        decreases l.len() - i,
    {
        proof {
            assert(lv.skip(i as int)[0] == lv[i as int]);
            assert(lv.skip(i as int).drop_first() =~= lv.skip(i + 1));
        }
        let ghost before = items_view(out@);
        let ghost old_pending = pending;
        let ghost old_nid = nid;
        match &l[i] {
            DiskItem::FreeSpace { start, size, .. } => {
                pending = match pending {
                    Some((s, z)) => Some((s, z.saturating_add(*size))),
                    None => Some((*start, *size)),
                };
            },
            DiskItem::Partition(p) => {
                match pending {
                    Some((s, z)) => {
                        out.push(DiskItem::FreeSpace { id: nid, start: s, size: z });
                        nid = bump_id(nid);
                    },
                    None => {},
                }
                out.push(DiskItem::Partition(p.clone()));
                pending = None;
                proof {
                    match old_pending {
                        Some((s, z)) => {
                            assert(items_view(out@) =~= before + seq![
                                DiskItemView::Free { id: old_nid, start: s, size: z },
                                DiskItemView::Part(p@),
                            ]);
                        },
                        None => {
                            assert(items_view(out@) =~= before + seq![DiskItemView::Part(p@)]);
                        },
                    }
                }
            },
        }
        i = i + 1;
    }
    proof {
        assert(lv.skip(l.len() as int) =~= Seq::<DiskItemView>::empty());
    }
    let ghost before = items_view(out@);
    match pending {
        Some((s, z)) => {
            out.push(DiskItem::FreeSpace { id: nid, start: s, size: z });
            assert(items_view(out@) =~= before + seq![DiskItemView::Free { id: nid, start: s, size: z }]);
            nid = bump_id(nid);
        },
        None => {
            assert(items_view(out@) =~= before + Seq::<DiskItemView>::empty());
        },
    }
    (out, nid)
}

// ---------------------------------------------------------------------------
// Disks
// ---------------------------------------------------------------------------

/// Abstract value of a disk.
pub struct DiskView {
    pub name: Seq<char>,
    pub size: u64,
    pub sector_size: u64,
    pub initial_layout: Seq<DiskItemView>,
    pub total_used_sectors: u64,
    pub layout: Seq<DiskItemView>,
    pub label: DiskLabel,
    pub next_id: u64,
}

/// A physical disk (size in sectors) with the layout the user is editing and
/// the layout found at start, which `reset_layout` restores.
#[derive(Debug)]
pub struct Disk {
    name: String,
    size: u64,
    sector_size: u64,
    initial_layout: Vec<DiskItem>,
    total_used_sectors: u64,
    layout: Vec<DiskItem>,
    label: DiskLabel,
    next_id: u64,
}

impl View for Disk {
    type V = DiskView;

    closed spec fn view(&self) -> DiskView {
        DiskView {
            name: self.name@,
            size: self.size,
            sector_size: self.sector_size,
            initial_layout: items_view(self.initial_layout@),
            total_used_sectors: self.total_used_sectors,
            layout: items_view(self.layout@),
            label: self.label,
            next_id: self.next_id,
        }
    }
}

/// A copy of a vector of entries.
pub fn clone_items(v: &Vec<DiskItem>) -> (r: Vec<DiskItem>)
    ensures
        items_view(r@) == items_view(v@),
{
    let mut r: Vec<DiskItem> = Vec::new();
    let mut i: usize = 0;
    while i < v.len()
        invariant
            i <= v.len(),
            items_view(r@) == items_view(v@).take(i as int),
        decreases v.len() - i,
    {
        let ghost before = items_view(r@);
        let c = v[i].clone();
        assert(c@ == v@[i as int]@);
        r.push(c);
        assert(items_view(r@) =~= before.push(c@));
        assert(items_view(v@).take(i + 1) =~= items_view(v@).take(i as int).push(v@[i as int]@));
        i = i + 1;
    }
    assert(items_view(v@).take(v.len() as int) =~= items_view(v@));
    r
}

impl Clone for Disk {
    fn clone(&self) -> (r: Self)
        ensures
            r@ == self@,
            self.wf() ==> r.wf(),
    {
        Disk {
            name: self.name.clone(),
            size: self.size,
            sector_size: self.sector_size,
            initial_layout: clone_items(&self.initial_layout),
            total_used_sectors: self.total_used_sectors,
            layout: clone_items(&self.layout),
            label: self.label,
            next_id: self.next_id,
        }
    }
}

/// `b` has the size, sector size, label and starting layout of `a`: what
/// the editing methods of a disk keep.
pub open spec fn same_build(a: DiskView, b: DiskView) -> bool {
    &&& a.size == b.size
    &&& a.sector_size == b.sector_size
    &&& a.label == b.label
    &&& a.initial_layout == b.initial_layout
}

/// The layout and next identifier after `calculate_free_space`.
pub open spec fn free_space_spec(d: DiskView) -> (Seq<DiskItemView>, u64) {
    normalize_spec(with_gaps(d.layout, d.size, d.sector_size as nat, d.label), d.next_id)
}

/// Sectors kept free at the end of a GPT disk: the backup header plus
/// `entries * entry_size` bytes of partition table.
pub open spec fn gpt_tail_reserve_spec(logical_sector: nat, entries: nat, entry_size: nat) -> nat {
    1 + ceil_div(entries * entry_size, logical_sector)
}

impl Disk {
    /// A disk with the given layout; free space is computed at once.
    pub fn new(name: String, size: u64, sector_size: u64, layout: Vec<DiskItem>, label: DiskLabel) -> (r:
        Self)
        requires
            sector_size > 0,
        ensures
            r.wf(),
            r@.name == name@,
            r@.size == size,
            r@.sector_size == sector_size,
            r@.initial_layout == items_view(layout@),
            r@.total_used_sectors == 0,
            r@.label == label,
            (r@.layout, r@.next_id) == free_space_spec(
                DiskView {
                    layout: items_view(layout@),
                    next_id: max_id_after(items_view(layout@)),
                    ..r@
                },
            ),
    {
        let initial_layout = clone_items(&layout);
        let next_id = next_free_id(&layout);
        let mut new = Disk {
            name,
            size,
            sector_size,
            initial_layout,
            total_used_sectors: 0,
            layout,
            label,
            next_id,
        };
        new.calculate_free_space();
        new
    }

    /// The disk is usable: its sector size is positive.
    pub closed spec fn wf(&self) -> bool {
        self.sector_size > 0
    }

    pub fn label(&self) -> (r: DiskLabel)
        ensures
            r == self@.label,
    {
        self.label
    }

    pub fn set_label(&mut self, l: DiskLabel)
        requires
            old(self).wf(),
        ensures
            final(self).wf(),
            final(self)@ == (DiskView { label: l, ..old(self)@ }),
    {
        self.label = l;
    }

    pub fn name(&self) -> (r: &str)
        ensures
            r@ == self@.name,
    {
        self.name.as_str()
    }

    pub fn set_name(&mut self, name: String)
        requires
            old(self).wf(),
        ensures
            same_build(old(self)@, final(self)@),
            final(self).wf(),
            final(self)@ == (DiskView { name: name@, ..old(self)@ }),
    {
        self.name = name;
    }

    pub fn size(&self) -> (r: u64)
        ensures
            r == self@.size,
    {
        self.size
    }

    pub fn set_size(&mut self, size: u64)
        requires
            old(self).wf(),
        ensures
            final(self).wf(),
            final(self)@ == (DiskView { size, ..old(self)@ }),
    {
        self.size = size;
    }

    pub fn sector_size(&self) -> (r: u64)
        ensures
            r == self@.sector_size,
            self.wf() ==> r > 0,
    {
        self.sector_size
    }

    pub fn set_sector_size(&mut self, sector_size: u64)
        requires
            sector_size > 0,
        ensures
            final(self).wf(),
            final(self)@ == (DiskView { sector_size, ..old(self)@ }),
    {
        self.sector_size = sector_size;
    }

    pub fn layout(&self) -> (r: &Vec<DiskItem>)
        ensures
            items_view(r@) == self@.layout,
    {
        &self.layout
    }

    /// Copies of the partitions of the layout, in order.
    pub fn partitions(&self) -> (r: Vec<DiskItem>)
        ensures
            items_view(r@) == keep_items(self@.layout, Select::Parts),
    {
        select_items(&self.layout, Select::Parts)
    }

    /// Restores the layout found at start and recomputes free space.
    pub fn reset_layout(&mut self)
        requires
            old(self).wf(),
        ensures
            same_build(old(self)@, final(self)@),
            final(self).wf(),
            (final(self)@.layout, final(self)@.next_id) == free_space_spec(
                DiskView { layout: old(self)@.initial_layout, ..old(self)@ },
            ),
            final(self)@ == (DiskView {
                layout: final(self)@.layout,
                next_id: final(self)@.next_id,
                ..old(self)@
            }),
    {
        self.layout = clone_items(&self.initial_layout);
        self.calculate_free_space();
    }

    /// Size in bytes.
    pub fn size_bytes(&self) -> (r: u64)
        requires
            self@.size * self@.sector_size <= u64::MAX,
        ensures
            r == self@.size * self@.sector_size,
    {
        self.size * self.sector_size
    }

    /// Rounds `x` up to a multiple of `align` (unchanged when `align` is 0).
    pub fn align_up(x: u64, align: u64) -> (r: u64)
        requires
            align > 0 ==> ceil_div(x as nat, align as nat) * align <= u64::MAX,
        ensures
            r == if align == 0 {
                x as int
            } else {
                ceil_div(x as nat, align as nat) * align
            },
    {
        if align == 0 {
            return x;
        }
        div_ceil_u64(x, align) * align
    }

    /// Rounds `x` down to a multiple of `align` (unchanged when `align` is 0).
    pub fn align_down(x: u64, align: u64) -> (r: u64)
        ensures
            r == if align == 0 {
                x as int
            } else {
                (x / align) * align
            },
            r <= x,
    {
        if align == 0 {
            return x;
        }
        assert((x / align) * align <= x) by (nonlinear_arith)
            requires
                align > 0,
        ;
        (x / align) * align
    }

    /// Sectors for the backup GPT header and table.
    pub fn gpt_tail_reserve(logical_sector: u64, entries: u64, entry_size: u64) -> (r: u64)
        requires
            logical_sector > 0,
            entries * entry_size < u64::MAX,
        ensures
            r == gpt_tail_reserve_spec(logical_sector as nat, entries as nat, entry_size as nat),
    {
        let table_bytes = entries * entry_size;
        let c = div_ceil_u64(table_bytes, logical_sector);
        assert(c <= table_bytes) by (nonlinear_arith)
            requires
                logical_sector >= 1,
                c == ceil_div(table_bytes as nat, logical_sector as nat),
        ;
        1 + c
    }

    /// The reserve for the usual 128 entries of 128 bytes.
    pub fn default_gpt_tail_reserve(logical_sector: u64) -> (r: u64)
        requires
            logical_sector > 0,
        ensures
            r == 1 + ceil_div(16384, logical_sector as nat),
    {
        Self::gpt_tail_reserve(logical_sector, 128, 128)
    }

    fn tail_reserve_exec(&self) -> (r: u64)
        requires
            self.wf(),
        ensures
            r == tail_reserve(self@.label, self@.sector_size as nat),
    {
        match self.label {
            DiskLabel::Msdos => 0,
            _ => Self::default_gpt_tail_reserve(self.sector_size),
        }
    }

    /// Regroups the layout: deleted partitions first, then the other entries
    /// in order, with each run of free space merged into a single entry.
    pub fn normalize_layout(&mut self)
        ensures
            same_build(old(self)@, final(self)@),
            (final(self)@.layout, final(self)@.next_id) == normalize_spec(
                old(self)@.layout,
                old(self)@.next_id,
            ),
            final(self)@ == (DiskView {
                layout: final(self)@.layout,
                next_id: final(self)@.next_id,
                ..old(self)@
            }),
            old(self).wf() ==> final(self).wf(),
    {
        let mut front = select_items(&self.layout, Select::Deleted);
        let mut others = select_items(&self.layout, Select::NotDeleted);
        let ghost fv = items_view(front@);
        let ghost ov = items_view(others@);
        front.append(&mut others);
        assert(items_view(front@) =~= fv + ov);
        let (merged, nid) = merge_free_runs(&front, self.next_id);
        self.layout = merged;
        self.next_id = nid;
    }

    /// Drops every free-space entry, then normalizes.
    pub fn clear_free_space(&mut self)
        ensures
            same_build(old(self)@, final(self)@),
            (final(self)@.layout, final(self)@.next_id) == normalize_spec(
                keep_items(old(self)@.layout, Select::Parts),
                old(self)@.next_id,
            ),
            final(self)@ == (DiskView {
                layout: final(self)@.layout,
                next_id: final(self)@.next_id,
                ..old(self)@
            }),
            old(self).wf() ==> final(self).wf(),
    {
        self.layout = select_items(&self.layout, Select::Parts);
        self.normalize_layout();
    }

    /// Rebuilds the free-space entries: keeps the deleted partitions first, sorts
    /// the others by start and puts an entry for every gap of more than 5 MiB
    /// between them (leaving the first MiB and, on GPT, the backup table free),
    /// then normalizes.
    pub fn calculate_free_space(&mut self)
        requires
            old(self).wf(),
        ensures
            same_build(old(self)@, final(self)@),
            final(self).wf(),
            (final(self)@.layout, final(self)@.next_id) == free_space_spec(old(self)@),
            final(self)@ == (DiskView {
                layout: final(self)@.layout,
                next_id: final(self)@.next_id,
                ..old(self)@
            }),
    {
        let deleted = select_items(&self.layout, Select::Deleted);
        let rest = select_items(&self.layout, Select::Live);
        let sorted = sort_items_by_start(rest);
        let tail = self.tail_reserve_exec();
        let last = self.size.saturating_sub(tail);
        let mib = one_mib_in_sectors(self.sector_size);
        let first = if mib < last {
            mib
        } else {
            last
        };
        let min = mb_to_sectors(5, self.sector_size);
        let mut gaps = compute_gaps(&sorted, first, last, min);
        let mut combined = sorted;
        let ghost sv = items_view(combined@);
        let ghost gv = items_view(gaps@);
        combined.append(&mut gaps);
        assert(items_view(combined@) =~= sv + gv);
        let merged = sort_items_by_start(combined);
        let mut new_layout = deleted;
        let ghost dv = items_view(new_layout@);
        let ghost mv = items_view(merged@);
        let mut m = merged;
        new_layout.append(&mut m);
        assert(items_view(new_layout@) =~= dv + mv);
        self.layout = new_layout;
        self.normalize_layout();
    }
}

/// One more than the largest identifier used in `l` (1 when there is none),
/// wrapping to 0 above `u64::MAX`.
pub open spec fn max_id_after(l: Seq<DiskItemView>) -> u64
    decreases l.len(),
{
    if l.len() == 0 {
        1
    } else {
        let rest = max_id_after(l.drop_last());
        let own = bump(item_id(l.last()));
        if own > rest {
            own
        } else {
            rest
        }
    }
}

fn next_free_id(l: &Vec<DiskItem>) -> (r: u64)
    ensures
        r == max_id_after(items_view(l@)),
{
    let ghost lv = items_view(l@);
    let mut r: u64 = 1;
    let mut i: usize = 0;
    while i < l.len()
        invariant
            i <= l.len(),
            lv == items_view(l@),
            r == max_id_after(lv.take(i as int)),
        decreases l.len() - i,
    {
        proof {
            assert(lv.take(i + 1).drop_last() =~= lv.take(i as int));
        }
        let own = bump_id(l[i].id());
        if own > r {
            r = own;
        }
        i = i + 1;
    }
    assert(lv.take(l.len() as int) =~= lv);
    r
}

// ---------------------------------------------------------------------------
// Kernel device names of partitions
// ---------------------------------------------------------------------------

/// Number of ASCII digits at the end of `s`.
pub open spec fn trailing_digits(s: Seq<char>) -> nat
    decreases s.len(),
{
    if s.len() > 0 && crate::text::is_ascii_digit(s.last()) {
        1 + trailing_digits(s.drop_last())
    } else {
        0
    }
}

/// The partition number at the end of a kernel device name (`sda3` gives 3),
/// when it has one that fits a `u32`.
pub open spec fn partnum(name: Option<Seq<char>>) -> Option<nat> {
    match name {
        None => None,
        Some(s) => {
            let k = trailing_digits(s);
            if k == 0 {
                None
            } else {
                let v = digits_value(s.skip(s.len() - k));
                if v <= u32::MAX {
                    Some(v)
                } else {
                    None
                }
            }
        },
    }
}

/// `n` is the smallest number from 1 on that `used` lacks (or `u64::MAX` when
/// `used` holds every number below it).
pub open spec fn is_least_free(used: Set<nat>, n: nat) -> bool {
    1 <= n <= u64::MAX && (n == u64::MAX || !used.contains(n)) && (forall|m: nat|
        1 <= m < n ==> used.contains(m))
}

/// The smallest number from 1 on that `used` lacks (`u64::MAX` if it has all below that).
pub open spec fn least_free(used: Set<nat>) -> nat {
    choose|n: nat| is_least_free(used, n)
}

/// Whether a status gets a device name assigned when it lacks one.
pub open spec fn gets_number(st: PartStatus) -> bool {
    st == PartStatus::Create || st == PartStatus::Modify || st == PartStatus::Exists
}

/// Partition numbers taken by live partitions that have one.
pub open spec fn used_numbers(l: Seq<DiskItemView>) -> Set<nat>
    decreases l.len(),
{
    if l.len() == 0 {
        Set::empty()
    } else {
        let rest = used_numbers(l.drop_last());
        match l.last() {
            DiskItemView::Part(p) => if p.status != PartStatus::Delete && partnum(p.name) is Some {
                rest.insert(partnum(p.name)->0)
            } else {
                rest
            },
            _ => rest,
        }
    }
}

/// The layout after naming, in order, every live partition without a number
/// `prefix` followed by the least number not yet used.
pub open spec fn assign_names(l: Seq<DiskItemView>, used: Set<nat>, prefix: Seq<char>) -> Seq<
    DiskItemView,
>
    decreases l.len(),
{
    if l.len() == 0 {
        l
    } else {
        match l[0] {
            DiskItemView::Part(p) => if p.status == PartStatus::Delete {
                seq![l[0]] + assign_names(l.drop_first(), used, prefix)
            } else if partnum(p.name) is Some {
                seq![l[0]] + assign_names(l.drop_first(), used.insert(partnum(p.name)->0), prefix)
            } else if gets_number(p.status) {
                let n = least_free(used);
                seq![DiskItemView::Part(PartitionView { name: Some(prefix + decimal(n)), ..p })]
                    + assign_names(l.drop_first(), used.insert(n), prefix)
            } else {
                seq![l[0]] + assign_names(l.drop_first(), used, prefix)
            },
            _ => seq![l[0]] + assign_names(l.drop_first(), used, prefix),
        }
    }
}

/// Device names get a `p` before the number when the disk name ends in a digit (`nvme0n1p2`).
pub open spec fn device_prefix(disk_name: Seq<char>) -> Seq<char> {
    if disk_name.len() > 0 && crate::text::is_ascii_digit(disk_name.last()) {
        disk_name + "p"@
    } else {
        disk_name
    }
}

/// The partition number at the end of `name`, as `partnum` defines it.
fn parse_partnum(name: &str) -> (r: Option<u64>)
    ensures
        match partnum(Some(name@)) {
            Some(n) => r == Some(n as u64),
            None => r is None,
        },
{
    let v = to_chars(name);
    let mut k: usize = v.len();
    assert(v@.take(v.len() as int) =~= v@);
    while k > 0 && '0' <= v[k - 1] && v[k - 1] <= '9'
        invariant
            k <= v.len(),
            trailing_digits(v@) == (v.len() - k) + trailing_digits(v@.take(k as int)),
            forall|j: int| k <= j < v.len() ==> '0' <= #[trigger] v@[j] && v@[j] <= '9',
        decreases k,
    {
        proof {
            assert(v@.take(k as int).drop_last() =~= v@.take(k - 1));
        }
        k = k - 1;
    }
    proof {
        if k > 0 {
            assert(v@.take(k as int).last() == v@[k - 1]);
        }
        assert(trailing_digits(v@.take(k as int)) == 0);
    }
    if k == v.len() {
        return None;
    }
    let mut n: u64 = 0;
    let mut i = k;
    let ghost tail = v@.skip(k as int);
    while i < v.len()
        invariant
            k <= i <= v.len(),
            tail == v@.skip(k as int),
            v@ == name@,
            trailing_digits(v@) == v.len() - k,
            forall|j: int| k <= j < v.len() ==> '0' <= #[trigger] v@[j] && v@[j] <= '9',
            n == digits_value(v@.subrange(k as int, i as int)),
            n <= u32::MAX,
        decreases v.len() - i,
    {
        let c = v[i];
        proof {
            assert(v@.subrange(k as int, i + 1) =~= v@.subrange(k as int, i as int).push(c));
            lemma_digits_value_push(v@.subrange(k as int, i as int), c);
        }
        let d = ((c as u32) - 48) as u64;
        if n * 10 + d > 0xffff_ffff {
            proof {
                assert(all_digits(tail)) by {
                    assert forall|j: int| 0 <= j < tail.len() implies '0' <= #[trigger] tail[j]
                        && tail[j] <= '9' by {
                        assert(tail[j] == v@[k + j]);
                    }
                }
                lemma_digits_value_mono(tail, i + 1 - k);
                assert(tail.subrange(0, i + 1 - k) =~= v@.subrange(k as int, i + 1));
                assert(digits_value(v@.subrange(k as int, i + 1)) == n * 10 + d);
                assert(digits_value(tail) > 0xffff_ffff);
                assert(v@.skip(v@.len() - trailing_digits(v@)) == tail);
                assert(trailing_digits(v@) > 0);
                assert(v@ == name@);
                assert(partnum(Some(name@)) is None);
            }
            return None;
        }
        n = n * 10 + d;
        i = i + 1;
    }
    assert(v@.subrange(k as int, v.len() as int) =~= tail);
    Some(n)
}

/// The numbers of `s` as a set of naturals.
pub open spec fn num_set(s: Set<u64>) -> Set<nat> {
    Set::new(|n: nat| n <= u64::MAX && s.contains(n as u64))
}

fn least_free_exec(used: &BTreeSet<u64>) -> (r: u64)
    ensures
        r == least_free(num_set(used@)),
{
    let mut n: u64 = 1;
    while n < u64::MAX && has_number(used, n)
        invariant
            1 <= n <= u64::MAX,
            forall|m: nat| 1 <= m < n ==> num_set(used@).contains(m),
        decreases u64::MAX - n,
    {
        assert(num_set(used@).contains(n as nat));
        n = n + 1;
    }
    proof {
        if n < u64::MAX {
            assert(!num_set(used@).contains(n as nat));
        }
        let w = least_free(num_set(used@));
        let nn = n as nat;
        assert(is_least_free(num_set(used@), nn));
        assert(is_least_free(num_set(used@), w));
        if w < n {
            assert(num_set(used@).contains(w));
        } else if w > n {
            assert(num_set(used@).contains(n as nat));
        }
    }
    n
}

proof fn lemma_num_set_insert(s: Set<u64>, x: u64)
    ensures
        num_set(s.insert(x)) == num_set(s).insert(x as nat),
{
    assert(num_set(s.insert(x)) =~= num_set(s).insert(x as nat));
}

/// Adds `n` to the numbers in use.
fn use_number(used: &mut BTreeSet<u64>, n: u64)
    ensures
        num_set(final(used)@) == num_set(old(used)@).insert(n as nat),
{
    let ghost before = used@;
    add_number(used, n);
    proof {
        lemma_num_set_insert(before, n);
    }
}

fn device_prefix_exec(name: &str) -> (r: String)
    ensures
        r@ == device_prefix(name@),
{
    let v = to_chars(name);
    let mut r = owned(name);
    if v.len() > 0 && '0' <= v[v.len() - 1] && v[v.len() - 1] <= '9' {
        r.append("p");
    }
    r
}

fn used_numbers_exec(l: &Vec<DiskItem>) -> (r: BTreeSet<u64>)
    ensures
        num_set(r@) == used_numbers(items_view(l@)),
{
    let ghost lv = items_view(l@);
    let mut used: BTreeSet<u64> = BTreeSet::new();
    let mut i: usize = 0;
    proof {
        assert(num_set(used@) =~= Set::<nat>::empty());
    }
    while i < l.len()
        invariant
            i <= l.len(),
            lv == items_view(l@),
            num_set(used@) == used_numbers(lv.take(i as int)),
        decreases l.len() - i,
    {
        proof {
            assert(lv.take(i + 1).drop_last() =~= lv.take(i as int));
            assert(lv.take(i + 1).last() == lv[i as int]);
        }
        match &l[i] {
            DiskItem::Partition(p) => {
                if p.status() != PartStatus::Delete {
                    match p.name() {
                        Some(nm) => {
                            match parse_partnum(nm) {
                                Some(n) => {
                                    use_number(&mut used, n);
                                },
                                None => {},
                            }
                        },
                        None => {},
                    }
                }
            },
            DiskItem::FreeSpace { .. } => {},
        }
        i = i + 1;
    }
    assert(lv.take(l.len() as int) =~= lv);
    used
}

impl Disk {
    /// Gives every live partition without a number a kernel device name: the
    /// disk name (plus `p` when it ends in a digit) and the least free number.
    pub fn assign_device_numbers(&mut self)
        ensures
            same_build(old(self)@, final(self)@),
            final(self)@.layout == assign_names(
                old(self)@.layout,
                used_numbers(old(self)@.layout),
                device_prefix(old(self)@.name),
            ),
            final(self)@ == (DiskView { layout: final(self)@.layout, ..old(self)@ }),
            old(self).wf() ==> final(self).wf(),
    {
        let prefix = device_prefix_exec(self.name.as_str());
        let mut used = used_numbers_exec(&self.layout);
        let ghost lv = items_view(self.layout@);
        let ghost target = assign_names(lv, num_set(used@), prefix@);
        let mut out: Vec<DiskItem> = Vec::new();
        let mut i: usize = 0;
        assert(lv.skip(0) =~= lv);
        assert(items_view(out@) + target =~= target);
        while i < self.layout.len()
            invariant
                i <= self.layout.len(),
                lv == items_view(self.layout@),
                target == items_view(out@) + assign_names(lv.skip(i as int), num_set(used@), prefix@),
            decreases self.layout.len() - i,
        {
            proof {
                assert(lv.skip(i as int)[0] == lv[i as int]);
                assert(lv.skip(i as int).drop_first() =~= lv.skip(i + 1));
            }
            let ghost before = items_view(out@);
            let mut item = self.layout[i].clone();
            let mut renamed = false;
            match &mut item {
                DiskItem::Partition(p) => {
                    if p.status() != PartStatus::Delete {
                        let num = match p.name() {
                            Some(nm) => parse_partnum(nm),
                            None => None,
                        };
                        match num {
                            Some(n) => {
                                use_number(&mut used, n);
                            },
                            None => {
                                let st = p.status();
                                if st == PartStatus::Create || st == PartStatus::Modify || st
                                    == PartStatus::Exists {
                                    let n = least_free_exec(&used);
                                    let mut nm = prefix.clone();
                                    let digits = u64_to_decimal(n);
                                    nm.append(digits.as_str());
                                    p.set_name(nm);
                                    use_number(&mut used, n);
                                    renamed = true;
                                }
                            },
                        }
                    }
                },
                DiskItem::FreeSpace { .. } => {},
            }
            out.push(item);
            assert(items_view(out@) =~= before.push(item@));
            i = i + 1;
        }
        assert(lv.skip(self.layout.len() as int) =~= Seq::<DiskItemView>::empty());
        assert(items_view(out@) =~= target);
        self.layout = out;
    }
}

// ---------------------------------------------------------------------------
// Editing the layout
// ---------------------------------------------------------------------------

/// Why a layout edit was refused.
#[derive(Clone, Copy, Debug, PartialEq, Eq, Structural)]
pub enum DiskError {
    /// No entry has this identifier.
    NoItem(u64),
    /// The entry with this identifier is free space, not a partition.
    NotAPartition(u64),
    /// The new partition overlaps a partition that is kept.
    Overlap,
}

impl DiskError {
    /// Text for the user.
    pub fn message(&self) -> (r: String)
        ensures
            r@ == match *self {
                DiskError::NoItem(id) => "No item with id "@ + decimal(id as nat),
                DiskError::NotAPartition(id) => "Item with id "@ + decimal(id as nat) + " is not a partition"@,
                DiskError::Overlap => "New partition overlaps with existing partition"@,
            },
    {
        match self {
            DiskError::NoItem(id) => {
                let mut m = owned("No item with id ");
                m.append(u64_to_decimal(*id).as_str());
                m
            },
            DiskError::NotAPartition(id) => {
                let mut m = owned("Item with id ");
                m.append(u64_to_decimal(*id).as_str());
                m.append(" is not a partition");
                m
            },
            DiskError::Overlap => owned("New partition overlaps with existing partition"),
        }
    }
}

/// Position of the first entry with identifier `id`.
pub open spec fn find_id(l: Seq<DiskItemView>, id: u64) -> Option<int>
    decreases l.len(),
{
    if l.len() == 0 {
        None
    } else if item_id(l[0]) == id {
        Some(0)
    } else {
        match find_id(l.drop_first(), id) {
            Some(i) => Some(i + 1),
            None => None,
        }
    }
}

/// `find_id` gives the first entry with the identifier, or `None` when none has it.
pub proof fn lemma_find_id(l: Seq<DiskItemView>, id: u64)
    ensures
        match find_id(l, id) {
            Some(i) => 0 <= i < l.len() && item_id(l[i]) == id && forall|k: int|
                0 <= k < i ==> item_id(#[trigger] l[k]) != id,
            None => forall|k: int| 0 <= k < l.len() ==> item_id(#[trigger] l[k]) != id,
        },
    decreases l.len(),
{
    if l.len() > 0 {
        lemma_find_id(l.drop_first(), id);
        assert forall|k: int| 1 <= k < l.len() implies l[k] == l.drop_first()[k - 1] by {}
    }
}

fn find_id_exec(l: &Vec<DiskItem>, id: u64) -> (r: Option<usize>)
    ensures
        match find_id(items_view(l@), id) {
            Some(i) => r == Some(i as usize),
            None => r is None,
        },
        r matches Some(i) ==> i < l.len(),
{
    let ghost lv = items_view(l@);
    proof {
        lemma_find_id(lv, id);
    }
    let mut i: usize = 0;
    while i < l.len()
        invariant
            i <= l.len(),
            lv == items_view(l@),
            forall|k: int| 0 <= k < i ==> item_id(#[trigger] lv[k]) != id,
        decreases l.len() - i,
    {
        assert(lv[i as int] == l@[i as int]@);
        if l[i].id() == id {
            proof {
                lemma_find_id(lv, id);
                match find_id(lv, id) {
                    Some(j) => {
                        if j < i {
                            assert(item_id(lv[j]) != id);
                        } else if j > i {
                            assert(item_id(lv[i as int]) == id);
                        }
                    },
                    None => {
                        assert(item_id(lv[i as int]) == id);
                    },
                }
            }
            return Some(i);
        }
        i = i + 1;
    }
    proof {
        lemma_find_id(lv, id);
        match find_id(lv, id) {
            Some(j) => {
                assert(item_id(lv[j]) != id);
            },
            None => {},
        }
    }
    None
}

/// A live partition entry of `l` shares a sector with `[start, start + size)`.
pub open spec fn overlaps_live(l: Seq<DiskItemView>, start: int, size: int) -> bool {
    exists|k: int|
        0 <= k < l.len() && #[trigger] is_live(l[k]) && start < item_start(l[k]) + item_size(l[k])
            && start + size > item_start(l[k])
}

/// The partitions of a disk numbered after its name, as the device names go.
pub open spec fn numbered(d: DiskView) -> DiskView {
    DiskView { layout: assign_names(d.layout, used_numbers(d.layout), device_prefix(d.name)), ..d }
}

/// Adding `part` to a disk: free space is dropped and, unless the partition
/// overlaps one that is kept, it is added under the next identifier, free
/// space is recomputed and partitions are numbered. The flag tells whether it
/// was added.
pub open spec fn with_new_partition(d: DiskView, part: PartitionView) -> (DiskView, bool) {
    let (l1, n1) = normalize_spec(keep_items(d.layout, Select::Parts), d.next_id);
    if overlaps_live(l1, part.start as int, part.size as int) {
        (DiskView { layout: l1, next_id: n1, ..d }, false)
    } else {
        let (l2, n2) = free_space_spec(
            DiskView {
                layout: l1.push(DiskItemView::Part(PartitionView { id: n1, ..part })),
                next_id: bump(n1),
                ..d
            },
        );
        (numbered(DiskView { layout: l2, next_id: n2, ..d }), true)
    }
}

/// An edit of one partition's fields.
pub enum PartitionEdit {
    SetName(String),
    SetMountPoint(String),
    ClearMountPoint,
    SetLabel(String),
    SetFsType(String),
    SetStatus(PartStatus),
    SetStart(u64),
    SetSize(u64),
    AddFlag(String),
    RemoveFlag(String),
}

/// A partition's value after an edit.
pub open spec fn edited(p: PartitionView, e: PartitionEdit) -> PartitionView {
    match e {
        PartitionEdit::SetName(s) => PartitionView { name: Some(s@), ..p },
        PartitionEdit::SetMountPoint(s) => PartitionView { mount_point: Some(s@), ..p },
        PartitionEdit::ClearMountPoint => PartitionView { mount_point: None, ..p },
        PartitionEdit::SetLabel(s) => PartitionView { label: Some(s@), ..p },
        PartitionEdit::SetFsType(s) => PartitionView { fs_type: Some(s@), ..p },
        PartitionEdit::SetStatus(st) => PartitionView { status: st, ..p },
        PartitionEdit::SetStart(x) => PartitionView { start: x, ..p },
        PartitionEdit::SetSize(x) => PartitionView { size: x, ..p },
        PartitionEdit::AddFlag(f) => PartitionView { flags: add_flag_spec(p.flags, f@), ..p },
        PartitionEdit::RemoveFlag(f) => PartitionView {
            flags: p.flags.filter(|x: Seq<char>| x != f@),
            ..p
        },
    }
}

impl Partition {
    /// Applies an edit to this partition.
    pub fn apply_edit(&mut self, e: PartitionEdit)
        ensures
            final(self)@ == edited(old(self)@, e),
    {
        match e {
            PartitionEdit::SetName(s) => self.set_name(s),
            PartitionEdit::SetMountPoint(s) => self.set_mount_point(s),
            PartitionEdit::ClearMountPoint => self.clear_mount_point(),
            PartitionEdit::SetLabel(s) => self.set_label(s),
            PartitionEdit::SetFsType(s) => self.set_fs_type(s),
            PartitionEdit::SetStatus(st) => self.set_status(st),
            PartitionEdit::SetStart(x) => self.set_start(x),
            PartitionEdit::SetSize(x) => self.set_size(x),
            PartitionEdit::AddFlag(f) => self.add_flag(f),
            PartitionEdit::RemoveFlag(f) => self.remove_flag(f.as_str()),
        }
    }
}

impl Disk {
    /// A copy of the partition with identifier `id`, if the first entry with
    /// that identifier is a partition.
    pub fn partition_by_id(&self, id: u64) -> (r: Option<Partition>)
        ensures
            match find_id(self@.layout, id) {
                Some(i) => match self@.layout[i] {
                    DiskItemView::Part(p) => r matches Some(q) && q@ == p,
                    _ => r is None,
                },
                None => r is None,
            },
    {
        proof {
            lemma_find_id(self@.layout, id);
        }
        match find_id_exec(&self.layout, id) {
            Some(i) => match &self.layout[i] {
                DiskItem::Partition(p) => {
                    assert(self@.layout[i as int] == self.layout@[i as int]@);
                    Some(p.clone())
                },
                DiskItem::FreeSpace { .. } => None,
            },
            None => None,
        }
    }

    /// Applies `edit` to the partition with identifier `id`; false when the
    /// first entry with that identifier is missing or is free space.
    pub fn modify_partition(&mut self, id: u64, edit: PartitionEdit) -> (r: bool)
        ensures
            same_build(old(self)@, final(self)@),
            match find_id(old(self)@.layout, id) {
                Some(i) => match old(self)@.layout[i] {
                    DiskItemView::Part(p) => r && final(self)@ == (DiskView {
                        layout: old(self)@.layout.update(i, DiskItemView::Part(edited(p, edit))),
                        ..old(self)@
                    }),
                    _ => !r && final(self)@ == old(self)@,
                },
                None => !r && final(self)@ == old(self)@,
            },
            old(self).wf() ==> final(self).wf(),
    {
        proof {
            lemma_find_id(self@.layout, id);
        }
        match find_id_exec(&self.layout, id) {
            Some(i) => {
                let item = self.layout[i].clone();
                assert(self@.layout[i as int] == self.layout@[i as int]@);
                match item {
                    DiskItem::Partition(mut p) => {
                        p.apply_edit(edit);
                        let ghost lv = items_view(self.layout@);
                        self.layout.set(i, DiskItem::Partition(p));
                        assert(items_view(self.layout@) =~= lv.update(
                            i as int,
                            DiskItemView::Part(p@),
                        ));
                        true
                    },
                    DiskItem::FreeSpace { .. } => false,
                }
            },
            None => false,
        }
    }

    /// The free-space entries as (start, size) pairs, in order.
    pub fn free_spaces(&self) -> (r: Vec<(u64, u64)>)
        ensures
            r@.len() == keep_free(self@.layout).len(),
            forall|k: int| 0 <= k < r@.len() ==> #[trigger] r@[k] == keep_free(self@.layout)[k],
    {
        let ghost lv = self@.layout;
        let mut r: Vec<(u64, u64)> = Vec::new();
        let mut i: usize = 0;
        while i < self.layout.len()
            invariant
                i <= self.layout.len(),
                lv == items_view(self.layout@),
                r@ == keep_free(lv.take(i as int)),
            decreases self.layout.len() - i,
        {
            proof {
                assert(lv.take(i + 1).drop_last() =~= lv.take(i as int));
            }
            match &self.layout[i] {
                DiskItem::FreeSpace { start, size, .. } => {
                    r.push((*start, *size));
                },
                DiskItem::Partition(_) => {},
            }
            i = i + 1;
        }
        assert(lv.take(self.layout.len() as int) =~= lv);
        r
    }

    /// Removes the partition with identifier `id` and recomputes free space.
    pub fn remove_partition(&mut self, id: u64) -> (r: Result<(), DiskError>)
        requires
            old(self).wf(),
        ensures
            same_build(old(self)@, final(self)@),
            final(self).wf(),
            match find_id(old(self)@.layout, id) {
                None => r == Err::<(), DiskError>(DiskError::NoItem(id)) && final(self)@ == old(
                    self,
                )@,
                Some(i) => if is_free(old(self)@.layout[i]) {
                    r == Err::<(), DiskError>(DiskError::NotAPartition(id)) && final(self)@ == old(
                        self,
                    )@
                } else {
                    r is Ok && (final(self)@.layout, final(self)@.next_id) == free_space_spec(
                        DiskView { layout: old(self)@.layout.remove(i), ..old(self)@ },
                    ) && final(self)@ == (DiskView {
                        layout: final(self)@.layout,
                        next_id: final(self)@.next_id,
                        ..old(self)@
                    })
                },
            },
    {
        proof {
            lemma_find_id(self@.layout, id);
        }
        let idx = match find_id_exec(&self.layout, id) {
            Some(i) => i,
            None => {
                return Err(DiskError::NoItem(id));
            },
        };
        assert(self@.layout[idx as int] == self.layout@[idx as int]@);
        match &self.layout[idx] {
            DiskItem::FreeSpace { .. } => {
                return Err(DiskError::NotAPartition(id));
            },
            DiskItem::Partition(_) => {},
        }
        let ghost lv = items_view(self.layout@);
        self.layout.remove(idx);
        assert(items_view(self.layout@) =~= lv.remove(idx as int));
        self.calculate_free_space();
        Ok(())
    }

    /// Adds a partition (with a fresh identifier) after checking that it
    /// overlaps no partition that is kept, then recomputes free space and names.
    /// Free space is dropped from the layout before the check, also when it fails.
    pub fn new_partition(&mut self, part: Partition) -> (r: Result<(), DiskError>)
        requires
            old(self).wf(),
        ensures
            same_build(old(self)@, final(self)@),
            final(self).wf(),
            final(self)@ == with_new_partition(old(self)@, part@).0,
            r is Ok <==> with_new_partition(old(self)@, part@).1,
            r is Err ==> r == Err::<(), DiskError>(DiskError::Overlap),
    {
        self.clear_free_space();
        let new_start = part.start() as u128;
        let new_end = new_start + part.size() as u128;
        let ghost l1 = items_view(self.layout@);
        let ghost s1 = self@;
        let mut i: usize = 0;
        while i < self.layout.len()
            invariant
                i <= self.layout.len(),
                l1 == items_view(self.layout@),
                self@ == s1,
                self.wf(),
                (s1.layout, s1.next_id) == normalize_spec(
                    keep_items(old(self)@.layout, Select::Parts),
                    old(self)@.next_id,
                ),
                s1 == (DiskView { layout: s1.layout, next_id: s1.next_id, ..old(self)@ }),
                new_start == part@.start,
                new_end == part@.start + part@.size,
                forall|k: int|
                    0 <= k < i ==> !(#[trigger] is_live(l1[k]) && new_start < item_start(l1[k])
                        + item_size(l1[k]) && new_end > item_start(l1[k])),
            decreases self.layout.len() - i,
        {
            match &self.layout[i] {
                DiskItem::Partition(p) => {
                    if p.status() != PartStatus::Delete {
                        let es = p.start() as u128;
                        let ee = es + p.size() as u128;
                        if new_start < ee && new_end > es {
                            assert(l1[i as int] == self.layout@[i as int]@);
                            assert(is_live(l1[i as int]));
                            assert(item_start(l1[i as int]) == es);
                            assert(item_size(l1[i as int]) == p@.size);
                            assert(overlaps_live(l1, part@.start as int, part@.size as int));
                            return Err(DiskError::Overlap);
                        }
                    }
                },
                DiskItem::FreeSpace { .. } => {},
            }
            i = i + 1;
        }
        let mut part = part;
        part.id = self.next_id;
        self.next_id = bump_id(self.next_id);
        let ghost pv = part@;
        self.layout.push(DiskItem::Partition(part));
        assert(items_view(self.layout@) =~= l1.push(DiskItemView::Part(pv)));
        self.calculate_free_space();
        self.assign_device_numbers();
        Ok(())
    }
}

/// The (start, size) of the free-space entries of `l`, in order.
pub open spec fn keep_free(l: Seq<DiskItemView>) -> Seq<(u64, u64)>
    decreases l.len(),
{
    if l.len() == 0 {
        Seq::empty()
    } else {
        match l.last() {
            DiskItemView::Free { start, size, .. } => keep_free(l.drop_last()).push((start, size)),
            _ => keep_free(l.drop_last()),
        }
    }
}

// ---------------------------------------------------------------------------
// The default layout
// ---------------------------------------------------------------------------

/// `x` rounded up to a multiple of 2048.
pub open spec fn align2048_up(x: int) -> int {
    (ceil_div(x as nat, 2048) * 2048) as int
}

/// `x` rounded down to a multiple of 2048.
pub open spec fn align2048_down(x: int) -> int {
    (x / 2048) * 2048
}

/// Filesystem, mount point and flags of the boot partition: a FAT32 EFI
/// system partition, whatever the disk label.
pub open spec fn boot_settings(label: DiskLabel) -> (Seq<char>, Seq<char>, Seq<Seq<char>>) {
    ("fat32"@, "/boot/efi"@, seq!["boot"@, "esp"@])
}

/// The root filesystem of the default scheme: the one asked for, else ext4.
pub open spec fn default_root_fs(fs_type: Option<Seq<char>>) -> Seq<char> {
    match fs_type {
        Some(f) => f,
        None => "ext4"@,
    }
}

/// Geometry of the default scheme: (boot start, boot size, root start, root
/// size, swap start, swap size); swap size 0 means no swap partition.
pub open spec fn default_geometry(size: nat, sector_size: nat, label: DiskLabel, swap_gb: Option<
    u64,
>) -> (int, int, int, int, int, int) {
    let tail = tail_reserve(label, sector_size);
    let boot_start = align2048_up(ceil_div(1048576, sector_size) as int);
    let boot_size = align2048_up(ceil_div(500 * 1048576, sector_size) as int);
    let boot_end = boot_start + boot_size;
    let swap0 = match swap_gb {
        Some(g) => ceil_div((g * 1024 * 1048576) as nat, sector_size) as int,
        None => 0,
    };
    let swap_secs = align2048_down(swap0);
    let root_start = align2048_up(boot_end);
    let usable = size - tail;
    let root_end_limit = if swap_secs > 0 && root_start + swap_secs < usable {
        usable - swap_secs
    } else {
        usable
    };
    let root_end = align2048_down(root_end_limit);
    let root_size0 = if root_end > root_start {
        root_end - root_start
    } else {
        0
    };
    let final_swap = if root_size0 == 0 {
        0
    } else {
        swap_secs
    };
    let root_size = if final_swap == 0 {
        align2048_down(if usable > root_start {
            usable - root_start
        } else {
            0
        })
    } else {
        root_size0
    };
    let swap_start = align2048_up(root_start + root_size);
    let swap_size = if final_swap > 0 && swap_start + final_swap <= size {
        final_swap
    } else {
        0
    };
    (boot_start, boot_size, root_start, root_size, swap_start, swap_size)
}

/// The layout entries kept when the default scheme is applied: no free space,
/// no partition that was only planned, every other partition marked for deletion.
pub open spec fn kept_for_default(l: Seq<DiskItemView>) -> Seq<DiskItemView>
    decreases l.len(),
{
    if l.len() == 0 {
        l
    } else {
        let rest = kept_for_default(l.drop_last());
        match l.last() {
            DiskItemView::Part(p) => if p.status == PartStatus::Create {
                rest
            } else {
                rest.push(DiskItemView::Part(PartitionView { status: PartStatus::Delete, ..p }))
            },
            _ => rest,
        }
    }
}

/// The partitions the default scheme adds, identifiers drawn from `next`.
pub open spec fn default_parts(d: DiskView, fs_type: Option<Seq<char>>, swap_gb: Option<u64>) -> Seq<
    DiskItemView,
> {
    let g = default_geometry(d.size as nat, d.sector_size as nat, d.label, swap_gb);
    let (bfs, bmp, bflags) = boot_settings(d.label);
    let boot = PartitionView {
        id: d.next_id,
        start: g.0 as u64,
        size: g.1 as u64,
        sector_size: d.sector_size,
        status: PartStatus::Create,
        name: None,
        fs_type: Some(bfs),
        mount_point: Some(bmp),
        ro: false,
        label: Some("BOOT"@),
        flags: bflags,
    };
    let root = PartitionView {
        id: bump(d.next_id),
        start: g.2 as u64,
        size: g.3 as u64,
        sector_size: d.sector_size,
        status: PartStatus::Create,
        name: None,
        fs_type: Some(default_root_fs(fs_type)),
        mount_point: Some("/"@),
        ro: false,
        label: Some("ROOT"@),
        flags: Seq::empty(),
    };
    let swap = PartitionView {
        id: bump(bump(d.next_id)),
        start: g.4 as u64,
        size: g.5 as u64,
        sector_size: d.sector_size,
        status: PartStatus::Create,
        name: None,
        fs_type: Some("swap"@),
        mount_point: None,
        ro: false,
        label: Some("SWAP"@),
        flags: Seq::empty(),
    };
    if g.5 > 0 {
        seq![DiskItemView::Part(boot), DiskItemView::Part(root), DiskItemView::Part(swap)]
    } else {
        seq![DiskItemView::Part(boot), DiskItemView::Part(root)]
    }
}

fn kept_for_default_exec(l: &Vec<DiskItem>) -> (r: Vec<DiskItem>)
    ensures
        items_view(r@) == kept_for_default(items_view(l@)),
{
    let ghost lv = items_view(l@);
    let mut r: Vec<DiskItem> = Vec::new();
    let mut i: usize = 0;
    while i < l.len()
        invariant
            i <= l.len(),
            lv == items_view(l@),
            items_view(r@) == kept_for_default(lv.take(i as int)),
        decreases l.len() - i,
    {
        proof {
            assert(lv.take(i + 1).drop_last() =~= lv.take(i as int));
            assert(lv[i as int] == l@[i as int]@);
        }
        match &l[i] {
            DiskItem::Partition(p) => {
                if p.status() != PartStatus::Create {
                    let mut q = p.clone();
                    q.set_status(PartStatus::Delete);
                    let ghost before = items_view(r@);
                    r.push(DiskItem::Partition(q));
                    assert(items_view(r@) =~= before.push(DiskItemView::Part(q@)));
                }
            },
            DiskItem::FreeSpace { .. } => {},
        }
        i = i + 1;
    }
    assert(lv.take(l.len() as int) =~= lv);
    r
}

fn align_up_2048(x: u64) -> (r: u64)
    requires
        x <= u64::MAX - 4096,
    ensures
        r == align2048_up(x as int),
        r <= x + 2047,
{
    let q = div_ceil_u64(x, 2048);
    assert(q * 2048 <= x + 2047) by (nonlinear_arith)
        requires
            q == ceil_div(x as nat, 2048),
    ;
    q * 2048
}

fn align_down_2048(x: u64) -> (r: u64)
    ensures
        r == align2048_down(x as int),
        r <= x,
{
    assert((x / 2048) * 2048 <= x) by (nonlinear_arith);
    (x / 2048) * 2048
}

/// An empty list of strings.
pub fn no_strings() -> (r: Vec<String>)
    ensures
        strings_view(r@) == Seq::<Seq<char>>::empty(),
        r@.len() == 0,
{
    let v: Vec<String> = Vec::new();
    assert(strings_view(v@) =~= Seq::<Seq<char>>::empty());
    v
}

fn strs(a: &str, b: &str, two: bool) -> (r: Vec<String>)
    ensures
        strings_view(r@) == if two {
            seq![a@, b@]
        } else {
            seq![a@]
        },
{
    let mut v: Vec<String> = Vec::new();
    v.push(owned(a));
    if two {
        v.push(owned(b));
    }
    assert(strings_view(v@) =~= if two {
        seq![a@, b@]
    } else {
        seq![a@]
    });
    v
}

impl Disk {
    /// Applies the default scheme: a 500 MiB FAT32 EFI system partition at
    /// the start, then a root partition with `fs_type` (ext4 when none is
    /// given) over the rest of the disk; existing partitions are marked for
    /// deletion.
    pub fn use_default_layout(&mut self, fs_type: Option<String>)
        requires
            old(self).wf(),
            old(self)@.size <= u64::MAX - 8192,
            old(self)@.size >= tail_reserve(old(self)@.label, old(self)@.sector_size as nat),
        ensures
            same_build(old(self)@, final(self)@),
            final(self).wf(),
            ({
                let l0 = kept_for_default(old(self)@.layout) + default_parts(
                    old(self)@,
                    opt_view(fs_type),
                    None,
                );
                let (l2, n2) = free_space_spec(
                    DiskView {
                        layout: l0,
                        next_id: bump(bump(old(self)@.next_id)),
                        ..old(self)@
                    },
                );
                final(self)@ == (DiskView {
                    layout: assign_names(l2, used_numbers(l2), device_prefix(old(self)@.name)),
                    next_id: n2,
                    ..old(self)@
                })
            }),
    {
        self.use_default_layout_with_swap(fs_type, None);
        proof {
            let g = default_geometry(
                old(self)@.size as nat,
                old(self)@.sector_size as nat,
                old(self)@.label,
                None,
            );
            assert(g.5 == 0);
        }
    }

    /// Applies the default scheme with an optional swap partition of
    /// `swap_gb` GiB at the end: existing partitions are marked for deletion,
    /// planned ones dropped, and boot, root (and swap) partitions added, all
    /// aligned to 2048 sectors.
    pub fn use_default_layout_with_swap(&mut self, fs_type: Option<String>, swap_gb: Option<u64>)
        requires
            old(self).wf(),
            old(self)@.size <= u64::MAX - 8192,
            old(self)@.size >= tail_reserve(old(self)@.label, old(self)@.sector_size as nat),
            swap_gb matches Some(g) ==> g * 1024 * 1048576 <= u64::MAX,
        ensures
            same_build(old(self)@, final(self)@),
            final(self).wf(),
            ({
                let parts = default_parts(old(self)@, opt_view(fs_type), swap_gb);
                let l0 = kept_for_default(old(self)@.layout) + parts;
                let n0 = if parts.len() == 3 {
                    bump(bump(bump(old(self)@.next_id)))
                } else {
                    bump(bump(old(self)@.next_id))
                };
                let (l2, n2) = free_space_spec(DiskView { layout: l0, next_id: n0, ..old(self)@ });
                final(self)@ == (DiskView {
                    layout: assign_names(l2, used_numbers(l2), device_prefix(old(self)@.name)),
                    next_id: n2,
                    ..old(self)@
                })
            }),
    {
        let ghost d = self@;
        let ss = self.sector_size;
        let tail = self.tail_reserve_exec();
        let mut layout = kept_for_default_exec(&self.layout);
        let ghost kept = items_view(layout@);
        let boot_start = align_up_2048(one_mib_in_sectors(ss));
        let boot_size = align_up_2048(mb_to_sectors(500, ss));
        let (bfs, bmp, two) = ("fat32", "/boot/efi", true);
        let ghost g = default_geometry(d.size as nat, ss as nat, d.label, swap_gb);
        assert(boot_start == g.0);
        assert(boot_size == g.1);
        let boot_id = self.next_id;
        self.next_id = bump_id(self.next_id);
        let boot_part = Partition::new(
            boot_id,
            boot_start,
            boot_size,
            ss,
            PartStatus::Create,
            None,
            Some(owned(bfs)),
            Some(owned(bmp)),
            Some(owned("BOOT")),
            false,
            strs("boot", "esp", two),
        );
        let boot_end = boot_start + boot_size;
        let swap0 = match swap_gb {
            Some(gb) => mb_to_sectors(gb * 1024, ss),
            None => 0,
        };
        let swap_secs = align_down_2048(swap0);
        let root_start = align_up_2048(boot_end);
        let usable = self.size - tail;
        let root_end_limit = if swap_secs > 0 && (root_start as u128) + (swap_secs as u128) < (
        usable as u128) {
            usable - swap_secs
        } else {
            usable
        };
        let root_end = align_down_2048(root_end_limit);
        let mut root_size = root_end.saturating_sub(root_start);
        let final_swap = if root_size == 0 {
            0
        } else {
            swap_secs
        };
        if final_swap == 0 {
            root_size = align_down_2048(usable.saturating_sub(root_start));
        }
        assert(root_start == g.2);
        assert(root_size == g.3);
        let ghost fs_view = opt_view(fs_type);
        let root_fs = match fs_type {
            Some(f) => f,
            None => owned("ext4"),
        };
        let root_id = self.next_id;
        self.next_id = bump_id(self.next_id);
        let root_part = Partition::new(
            root_id,
            root_start,
            root_size,
            ss,
            PartStatus::Create,
            None,
            Some(root_fs),
            Some(owned("/")),
            Some(owned("ROOT")),
            false,
            no_strings(),
        );
        let ghost bv = boot_part@;
        let ghost rv = root_part@;
        layout.push(DiskItem::Partition(boot_part));
        layout.push(DiskItem::Partition(root_part));
        assert(items_view(layout@) =~= kept + seq![DiskItemView::Part(bv), DiskItemView::Part(rv)]);
        if final_swap > 0 {
            assert(root_start + root_size <= d.size);
            let swap_start = align_up_2048(root_start + root_size);
            if (swap_start as u128) + (final_swap as u128) <= (self.size as u128) {
                let swap_id = self.next_id;
                self.next_id = bump_id(self.next_id);
                let swap_part = Partition::new(
                    swap_id,
                    swap_start,
                    final_swap,
                    ss,
                    PartStatus::Create,
                    None,
                    Some(owned("swap")),
                    None,
                    Some(owned("SWAP")),
                    false,
                    no_strings(),
                );
                let ghost before = items_view(layout@);
                let ghost sv = swap_part@;
                layout.push(DiskItem::Partition(swap_part));
                assert(items_view(layout@) =~= before.push(DiskItemView::Part(sv)));
            }
        }
        proof {
            let parts = default_parts(d, fs_view, swap_gb);
            let (bfs_s, bmp_s, bfl) = boot_settings(d.label);
            assert(bv.fs_type == Some(bfs_s));
            assert(bv.mount_point == Some(bmp_s));
            assert(bv.flags == bfl);
            assert(DiskItemView::Part(bv) == parts[0]);
            assert(DiskItemView::Part(rv) == parts[1]);
            assert(items_view(layout@) =~= kept_for_default(d.layout) + parts);
        }
        self.layout = layout;
        self.calculate_free_space();
        self.assign_device_numbers();
    }
}

// ---------------------------------------------------------------------------
// Tables
// ---------------------------------------------------------------------------

/// Columns of the disk and partition tables.
#[derive(Clone, Copy, Debug, PartialEq, Eq, Structural)]
pub enum DiskTableHeader {
    Status,
    Device,
    Start,
    End,
    Label,
    Size,
    FSType,
    MountPoint,
    Flags,
    ReadOnly,
}

/// Title and minimum width of each column.
pub open spec fn header_info_spec(h: DiskTableHeader) -> (Seq<char>, u16) {
    match h {
        DiskTableHeader::Status => ("Status"@, 10),
        DiskTableHeader::Device => ("Device"@, 11),
        DiskTableHeader::Label => ("Label"@, 15),
        DiskTableHeader::Start => ("Start"@, 22),
        DiskTableHeader::End => ("End"@, 22),
        DiskTableHeader::Size => ("Size"@, 11),
        DiskTableHeader::FSType => ("FS Type"@, 7),
        DiskTableHeader::MountPoint => ("Mount Point"@, 15),
        DiskTableHeader::Flags => ("Flags"@, 20),
        DiskTableHeader::ReadOnly => ("Read Only"@, 21),
    }
}

/// The columns of the partition table.
pub open spec fn partition_headers_spec() -> Seq<DiskTableHeader> {
    seq![
        DiskTableHeader::Status,
        DiskTableHeader::Device,
        DiskTableHeader::Label,
        DiskTableHeader::Start,
        DiskTableHeader::End,
        DiskTableHeader::Size,
        DiskTableHeader::FSType,
        DiskTableHeader::MountPoint,
        DiskTableHeader::Flags,
    ]
}

/// The columns of the disk table.
pub open spec fn disk_headers_spec() -> Seq<DiskTableHeader> {
    seq![DiskTableHeader::Device, DiskTableHeader::Size, DiskTableHeader::ReadOnly]
}

/// Titles and widths of a list of columns.
pub open spec fn header_infos(hs: Seq<DiskTableHeader>) -> Seq<(Seq<char>, u16)> {
    hs.map_values(|h: DiskTableHeader| header_info_spec(h))
}

impl DiskTableHeader {
    /// Title and minimum width of the column.
    pub fn header_info(&self) -> (r: (String, u16))
        ensures
            (r.0@, r.1) == header_info_spec(*self),
    {
        match self {
            DiskTableHeader::Status => (owned("Status"), 10),
            DiskTableHeader::Device => (owned("Device"), 11),
            DiskTableHeader::Label => (owned("Label"), 15),
            DiskTableHeader::Start => (owned("Start"), 22),
            DiskTableHeader::End => (owned("End"), 22),
            DiskTableHeader::Size => (owned("Size"), 11),
            DiskTableHeader::FSType => (owned("FS Type"), 7),
            DiskTableHeader::MountPoint => (owned("Mount Point"), 15),
            DiskTableHeader::Flags => (owned("Flags"), 20),
            DiskTableHeader::ReadOnly => (owned("Read Only"), 21),
        }
    }

    /// Every column, in display order.
    pub fn all_headers() -> (r: Vec<DiskTableHeader>)
        ensures
            r@ == partition_headers_spec().push(DiskTableHeader::ReadOnly),
    {
        let r = vec![
            DiskTableHeader::Status,
            DiskTableHeader::Device,
            DiskTableHeader::Label,
            DiskTableHeader::Start,
            DiskTableHeader::End,
            DiskTableHeader::Size,
            DiskTableHeader::FSType,
            DiskTableHeader::MountPoint,
            DiskTableHeader::Flags,
            DiskTableHeader::ReadOnly,
        ];
        assert(r@ =~= partition_headers_spec().push(DiskTableHeader::ReadOnly));
        r
    }

    /// The columns of the partition table.
    pub fn partition_table_headers() -> (r: Vec<DiskTableHeader>)
        ensures
            r@ == partition_headers_spec(),
    {
        let r = vec![
            DiskTableHeader::Status,
            DiskTableHeader::Device,
            DiskTableHeader::Label,
            DiskTableHeader::Start,
            DiskTableHeader::End,
            DiskTableHeader::Size,
            DiskTableHeader::FSType,
            DiskTableHeader::MountPoint,
            DiskTableHeader::Flags,
        ];
        assert(r@ =~= partition_headers_spec());
        r
    }

    /// The columns of the disk table.
    pub fn disk_table_headers() -> (r: Vec<DiskTableHeader>)
        ensures
            r@ == disk_headers_spec(),
    {
        let r = vec![DiskTableHeader::Device, DiskTableHeader::Size, DiskTableHeader::ReadOnly];
        assert(r@ =~= disk_headers_spec());
        r
    }

    fn infos(hs: &Vec<DiskTableHeader>) -> (r: Vec<(String, u16)>)
        ensures
            r@.len() == hs@.len(),
            forall|k: int| 0 <= k < hs@.len() ==> (#[trigger] r@[k].0@, r@[k].1) == header_info_spec(
                hs@[k],
            ),
    {
        let mut r: Vec<(String, u16)> = Vec::new();
        let mut i: usize = 0;
        while i < hs.len()
            invariant
                i <= hs.len(),
                r@.len() == i,
                forall|k: int| 0 <= k < i ==> (#[trigger] r@[k].0@, r@[k].1) == header_info_spec(
                    hs@[k],
                ),
            decreases hs.len() - i,
        {
            r.push(hs[i].header_info());
            i = i + 1;
        }
        r
    }

    /// Titles and widths of the disk table.
    pub fn disk_table_header_info() -> (r: Vec<(String, u16)>)
        ensures
            r@.len() == disk_headers_spec().len(),
            forall|k: int| 0 <= k < r@.len() ==> (#[trigger] r@[k].0@, r@[k].1) == header_info_spec(
                disk_headers_spec()[k],
            ),
    {
        Self::infos(&Self::disk_table_headers())
    }

    /// Titles and widths of the partition table.
    pub fn partition_table_header_info() -> (r: Vec<(String, u16)>)
        ensures
            r@.len() == partition_headers_spec().len(),
            forall|k: int| 0 <= k < r@.len() ==> (#[trigger] r@[k].0@, r@[k].1) == header_info_spec(
                partition_headers_spec()[k],
            ),
    {
        Self::infos(&Self::partition_table_headers())
    }

    /// Titles and widths of every column.
    pub fn all_header_info() -> (r: Vec<(String, u16)>)
        ensures
            r@.len() == 10,
            forall|k: int| 0 <= k < r@.len() ==> (#[trigger] r@[k].0@, r@[k].1) == header_info_spec(
                partition_headers_spec().push(DiskTableHeader::ReadOnly)[k],
            ),
    {
        Self::infos(&Self::all_headers())
    }
}

/// The text of a partition's cell in column `h`.
pub open spec fn part_cell(p: PartitionView, h: DiskTableHeader) -> Seq<char> {
    match h {
        DiskTableHeader::Status => match p.status {
            PartStatus::Delete => "delete"@,
            PartStatus::Modify => "modify"@,
            PartStatus::Exists => "existing"@,
            PartStatus::Create => "create"@,
            PartStatus::Unknown => "unknown"@,
        },
        DiskTableHeader::Device => match p.name {
            Some(n) => "/dev/"@ + n,
            None => Seq::empty(),
        },
        DiskTableHeader::Label => match p.label {
            Some(l) => l,
            None => Seq::empty(),
        },
        DiskTableHeader::Start => decimal(p.start as nat),
        DiskTableHeader::End => decimal((p.start + p.size - 1) as nat),
        DiskTableHeader::Size => bytes_readable_spec((p.size * p.sector_size) as nat),
        DiskTableHeader::FSType => match p.fs_type {
            Some(f) => f,
            None => Seq::empty(),
        },
        DiskTableHeader::MountPoint => match p.mount_point {
            Some(m) => m,
            None => Seq::empty(),
        },
        DiskTableHeader::Flags => crate::text::seq_join(p.flags, ","@),
        DiskTableHeader::ReadOnly => Seq::empty(),
    }
}

/// The text of a free-space cell in column `h`.
pub open spec fn free_cell(start: u64, size: u64, sector_size: u64, h: DiskTableHeader) -> Seq<
    char,
> {
    match h {
        DiskTableHeader::Status => "free"@,
        DiskTableHeader::Start => decimal(start as nat),
        DiskTableHeader::End => decimal((start + size - 1) as nat),
        DiskTableHeader::Size => bytes_readable_spec((size * sector_size) as nat),
        _ => Seq::empty(),
    }
}

/// The text of an entry's cell in column `h`.
pub open spec fn item_cell(v: DiskItemView, sector_size: u64, h: DiskTableHeader) -> Seq<char> {
    match v {
        DiskItemView::Part(p) => part_cell(p, h),
        DiskItemView::Free { start, size, .. } => free_cell(start, size, sector_size, h),
    }
}

/// The entry can be shown in a table: its last sector exists and its size in bytes fits.
pub open spec fn showable(v: DiskItemView, sector_size: u64) -> bool {
    match v {
        DiskItemView::Part(p) => 1 <= p.start + p.size <= u64::MAX && p.size * p.sector_size
            <= u64::MAX,
        DiskItemView::Free { start, size, .. } => 1 <= start + size <= u64::MAX && size
            * sector_size <= u64::MAX,
    }
}

impl DiskItem {
    fn cell(&self, sector_size: u64, h: DiskTableHeader) -> (r: String)
        requires
            showable(self@, sector_size),
        ensures
            r@ == item_cell(self@, sector_size, h),
    {
        match self {
            DiskItem::Partition(p) => match h {
                DiskTableHeader::Status => match p.status() {
                    PartStatus::Delete => owned("delete"),
                    PartStatus::Modify => owned("modify"),
                    PartStatus::Exists => owned("existing"),
                    PartStatus::Create => owned("create"),
                    PartStatus::Unknown => owned("unknown"),
                },
                DiskTableHeader::Device => match p.name() {
                    Some(n) => {
                        let mut s = owned("/dev/");
                        s.append(n);
                        s
                    },
                    None => String::new(),
                },
                DiskTableHeader::Label => match p.label() {
                    Some(l) => owned(l),
                    None => String::new(),
                },
                DiskTableHeader::Start => u64_to_decimal(p.start()),
                DiskTableHeader::End => u64_to_decimal(p.end() - 1),
                DiskTableHeader::Size => bytes_readable(p.size_bytes(p.sector_size())),
                DiskTableHeader::FSType => match p.fs_type() {
                    Some(f) => owned(f),
                    None => String::new(),
                },
                DiskTableHeader::MountPoint => match p.mount_point() {
                    Some(m) => owned(m),
                    None => String::new(),
                },
                DiskTableHeader::Flags => crate::text::join(p.flags(), ","),
                DiskTableHeader::ReadOnly => String::new(),
            },
            DiskItem::FreeSpace { start, size, .. } => match h {
                DiskTableHeader::Status => owned("free"),
                DiskTableHeader::Start => u64_to_decimal(*start),
                DiskTableHeader::End => u64_to_decimal((*start + *size) - 1),
                DiskTableHeader::Size => bytes_readable(*size * sector_size),
                _ => String::new(),
            },
        }
    }

    /// The entry's cells for the given columns.
    pub fn as_table_row(&self, sector_size: u64, headers: &Vec<DiskTableHeader>) -> (r: Vec<String>)
        requires
            showable(self@, sector_size),
        ensures
            r@.len() == headers@.len(),
            forall|k: int| 0 <= k < headers@.len() ==> #[trigger] r@[k]@ == item_cell(
                self@,
                sector_size,
                headers@[k],
            ),
    {
        let mut r: Vec<String> = Vec::new();
        let mut i: usize = 0;
        while i < headers.len()
            invariant
                i <= headers.len(),
                showable(self@, sector_size),
                r@.len() == i,
                forall|k: int| 0 <= k < i ==> #[trigger] r@[k]@ == item_cell(
                    self@,
                    sector_size,
                    headers@[k],
                ),
            decreases headers.len() - i,
        {
            r.push(self.cell(sector_size, headers[i]));
            i = i + 1;
        }
        r
    }
}

/// The titles and widths of `hs`, as the columns of a table take them.
fn unzip_headers(hs: &Vec<DiskTableHeader>) -> (r: (Vec<String>, Vec<u16>))
    ensures
        r.0@.len() == hs@.len(),
        r.1@.len() == hs@.len(),
        forall|k: int| 0 <= k < hs@.len() ==> (#[trigger] r.0@[k]@, r.1@[k]) == header_info_spec(hs@[k]),
{
    let mut titles: Vec<String> = Vec::new();
    let mut widths: Vec<u16> = Vec::new();
    let mut i: usize = 0;
    while i < hs.len()
        invariant
            i <= hs.len(),
            titles@.len() == i,
            widths@.len() == i,
            forall|k: int| 0 <= k < i ==> (#[trigger] titles@[k]@, widths@[k]) == header_info_spec(hs@[k]),
        decreases hs.len() - i,
    {
        let (t, w) = hs[i].header_info();
        titles.push(t);
        widths.push(w);
        i = i + 1;
    }
    (titles, widths)
}

/// The partition table of a layout: a row per entry under the partition columns.
pub fn part_table(disk_items: &Vec<DiskItem>, sector_size: u64) -> (r: TableWidget)
    requires
        forall|i: int| 0 <= i < disk_items@.len() ==> showable(#[trigger] disk_items@[i]@, sector_size),
    ensures
        r.title@ == "Partitions"@,
        !r.focused,
        r.selected_row is None,
        r.num_fields == partition_headers_spec().len(),
        r.headers@.len() == partition_headers_spec().len(),
        r.widths@.len() == partition_headers_spec().len(),
        forall|k: int|
            0 <= k < partition_headers_spec().len() ==> (#[trigger] r.headers@[k]@, r.widths@[k])
                == header_info_spec(partition_headers_spec()[k]),
        r.rows@.len() == disk_items@.len(),
        forall|i: int| 0 <= i < disk_items@.len() ==> (#[trigger] r.rows@[i])@.len() == partition_headers_spec().len(),
        forall|i: int, k: int|
            0 <= i < disk_items@.len() && 0 <= k < partition_headers_spec().len() ==> #[trigger] r.rows@[i]@[k]@ == item_cell(
                disk_items@[i]@,
                sector_size,
                partition_headers_spec()[k],
            ),
{
    let hs = DiskTableHeader::partition_table_headers();
    let (titles, widths) = unzip_headers(&hs);
    let mut rows: Vec<Vec<String>> = Vec::new();
    let mut i: usize = 0;
    while i < disk_items.len()
        invariant
            i <= disk_items@.len(),
            hs@ == partition_headers_spec(),
            forall|i: int| 0 <= i < disk_items@.len() ==> showable(#[trigger] disk_items@[i]@, sector_size),
            rows@.len() == i,
            forall|j: int| 0 <= j < i ==> (#[trigger] rows@[j])@.len() == hs@.len(),
            forall|j: int, k: int|
                0 <= j < i && 0 <= k < hs@.len() ==> #[trigger] rows@[j]@[k]@ == item_cell(disk_items@[j]@, sector_size, hs@[k]),
        decreases disk_items@.len() - i,
    {
        let row = disk_items[i].as_table_row(sector_size, &hs);
        let ghost old_rows = rows@;
        rows.push(row);
        assert forall|j: int, k: int| 0 <= j < i + 1 && 0 <= k < hs@.len() implies #[trigger] rows@[j]@[k]@
            == item_cell(disk_items@[j]@, sector_size, hs@[k]) by {
            if j < i {
                assert(rows@[j] == old_rows[j]);
            } else {
                assert(rows@[j] == row);
            }
        }
        i = i + 1;
    }
    TableWidget::new(owned("Partitions"), widths, titles, rows)
}

/// The table of disks: a row per disk under the disk columns.
pub fn disk_table(disks: &Vec<Disk>) -> (r: TableWidget)
    requires
        forall|i: int| 0 <= i < disks@.len() ==> (#[trigger] disks@[i])@.size * disks@[i]@.sector_size <= u64::MAX,
    ensures
        r.title@ == "Disks"@,
        !r.focused,
        r.selected_row is None,
        r.num_fields == disk_headers_spec().len(),
        r.headers@.len() == disk_headers_spec().len(),
        r.widths@.len() == disk_headers_spec().len(),
        forall|k: int|
            0 <= k < disk_headers_spec().len() ==> (#[trigger] r.headers@[k]@, r.widths@[k]) == header_info_spec(
                disk_headers_spec()[k],
            ),
        r.rows@.len() == disks@.len(),
        forall|i: int| 0 <= i < disks@.len() ==> (#[trigger] r.rows@[i])@.len() == disk_headers_spec().len(),
        forall|i: int, k: int|
            0 <= i < disks@.len() && 0 <= k < disk_headers_spec().len() ==> #[trigger] r.rows@[i]@[k]@ == disk_cell(
                disks@[i]@,
                disk_headers_spec()[k],
            ),
{
    let hs = DiskTableHeader::disk_table_headers();
    let (titles, widths) = unzip_headers(&hs);
    let mut rows: Vec<Vec<String>> = Vec::new();
    let mut i: usize = 0;
    while i < disks.len()
        invariant
            i <= disks@.len(),
            hs@ == disk_headers_spec(),
            forall|i: int| 0 <= i < disks@.len() ==> (#[trigger] disks@[i])@.size * disks@[i]@.sector_size
                <= u64::MAX,
            rows@.len() == i,
            forall|j: int| 0 <= j < i ==> (#[trigger] rows@[j])@.len() == hs@.len(),
            forall|j: int, k: int|
                0 <= j < i && 0 <= k < hs@.len() ==> #[trigger] rows@[j]@[k]@ == disk_cell(disks@[j]@, hs@[k]),
        decreases disks@.len() - i,
    {
        let row = disks[i].as_table_row(&hs);
        let ghost old_rows = rows@;
        rows.push(row);
        assert forall|j: int, k: int| 0 <= j < i + 1 && 0 <= k < hs@.len() implies #[trigger] rows@[j]@[k]@
            == disk_cell(disks@[j]@, hs@[k]) by {
            if j < i {
                assert(rows@[j] == old_rows[j]);
            } else {
                assert(rows@[j] == row);
            }
        }
        i = i + 1;
    }
    TableWidget::new(owned("Disks"), widths, titles, rows)
}

/// The text of the disk's cell in column `h`.
pub open spec fn disk_cell(d: DiskView, h: DiskTableHeader) -> Seq<char> {
    match h {
        DiskTableHeader::Device => d.name,
        DiskTableHeader::Size => bytes_readable_spec((d.size * d.sector_size) as nat),
        DiskTableHeader::ReadOnly => "no"@,
        _ => Seq::empty(),
    }
}

impl Disk {
    /// The disk's cells for the given columns.
    pub fn as_table_row(&self, headers: &Vec<DiskTableHeader>) -> (r: Vec<String>)
        requires
            self@.size * self@.sector_size <= u64::MAX,
        ensures
            r@.len() == headers@.len(),
            forall|k: int| 0 <= k < headers@.len() ==> #[trigger] r@[k]@ == disk_cell(
                self@,
                headers@[k],
            ),
    {
        let mut r: Vec<String> = Vec::new();
        let mut i: usize = 0;
        while i < headers.len()
            invariant
                i <= headers.len(),
                self@.size * self@.sector_size <= u64::MAX,
                r@.len() == i,
                forall|k: int| 0 <= k < i ==> #[trigger] r@[k]@ == disk_cell(self@, headers@[k]),
            decreases headers.len() - i,
        {
            let cell = match headers[i] {
                DiskTableHeader::Device => self.name.clone(),
                DiskTableHeader::Size => bytes_readable(self.size_bytes()),
                DiskTableHeader::ReadOnly => owned("no"),
                _ => String::new(),
            };
            r.push(cell);
            i = i + 1;
        }
        r
    }
}


// ---------------------------------------------------------------------------
// The disko configuration
// ---------------------------------------------------------------------------

/// One partition entry of a disko configuration.
#[derive(Debug)]
pub struct DiskoPartition {
    pub action: String,
    pub blockdevice: Option<String>,
    pub start: String,
    pub end: String,
    pub sectors: u64,
    pub size: String,
    pub part_type: String,
    pub filesystem: Option<String>,
    pub mountpoint: Option<String>,
    pub label: Option<String>,
    pub flags: Vec<String>,
}

/// The disko configuration of one disk.
#[derive(Debug)]
pub struct DiskoConfig {
    pub device: String,
    pub label: String,
    pub partitions: Vec<DiskoPartition>,
}

/// Abstract value of a partition entry.
pub struct DiskoPartitionView {
    pub action: Seq<char>,
    pub blockdevice: Option<Seq<char>>,
    pub start: Seq<char>,
    pub end: Seq<char>,
    pub sectors: u64,
    pub size: Seq<char>,
    pub part_type: Seq<char>,
    pub filesystem: Option<Seq<char>>,
    pub mountpoint: Option<Seq<char>>,
    pub label: Option<Seq<char>>,
    pub flags: Seq<Seq<char>>,
}

impl DiskoPartition {
    pub open spec fn view(&self) -> DiskoPartitionView {
        DiskoPartitionView {
            action: self.action@,
            blockdevice: opt_view(self.blockdevice),
            start: self.start@,
            end: self.end@,
            sectors: self.sectors,
            size: self.size@,
            part_type: self.part_type@,
            filesystem: opt_view(self.filesystem),
            mountpoint: opt_view(self.mountpoint),
            label: opt_view(self.label),
            flags: strings_view(self.flags@),
        }
    }
}

/// The views of a list of partition entries.
pub open spec fn disko_parts_view(v: Seq<DiskoPartition>) -> Seq<DiskoPartitionView> {
    v.map_values(|p: DiskoPartition| p@)
}

/// The word disko uses for what happens to a partition.
pub open spec fn action_name(s: PartStatus) -> Seq<char> {
    match s {
        PartStatus::Create => "create"@,
        PartStatus::Modify => "modify"@,
        PartStatus::Delete => "delete"@,
        PartStatus::Exists => "keep"@,
        PartStatus::Unknown => "unknown"@,
    }
}

/// The partition is written to the configuration: it is created, changed or deleted.
pub open spec fn touched(s: PartStatus) -> bool {
    s == PartStatus::Create || s == PartStatus::Modify || s == PartStatus::Delete
}

/// The partition's size counts towards the space used.
pub open spec fn counted(s: PartStatus) -> bool {
    s == PartStatus::Create || s == PartStatus::Modify
}

/// The configuration entry of a partition, given the sectors used before it.
pub open spec fn disko_entry(p: PartitionView, used: nat, usable: nat, gpt: bool) -> DiskoPartitionView {
    DiskoPartitionView {
        action: action_name(p.status),
        blockdevice: match p.name {
            Some(k) => Some("/dev/"@ + k),
            None => None,
        },
        start: decimal(p.start as nat),
        end: decimal((p.start + sat_sub(p.size as nat, 1)) as nat),
        sectors: p.size,
        size: bytes_disko_cfg_spec((p.size * p.sector_size) as nat, used, p.sector_size as nat, usable),
        part_type: if gpt {
            match p.fs_type {
                Some(fs) => match gpt_code(fs, p.flags.contains("esp"@)) {
                    Some(c) => c,
                    None => "filesystem"@,
                },
                None => "filesystem"@,
            }
        } else {
            "filesystem"@
        },
        filesystem: match p.fs_type {
            Some(fs) => disko_fs_name(fs),
            None => None,
        },
        mountpoint: p.mount_point,
        label: p.label,
        flags: p.flags,
    }
}

/// The entries of the touched partitions of `l`, in order, and the sectors
/// used once they are counted.
pub open spec fn disko_entries(l: Seq<DiskItemView>, used: nat, usable: nat, gpt: bool) -> (
    Seq<DiskoPartitionView>,
    nat,
)
    decreases l.len(),
{
    if l.len() == 0 {
        (Seq::empty(), used)
    } else {
        let (prev, u) = disko_entries(l.drop_last(), used, usable, gpt);
        match l.last() {
            DiskItemView::Part(p) => if touched(p.status) {
                (prev.push(disko_entry(p, u, usable, gpt)), if counted(p.status) { u + p.size as nat } else { u })
            } else {
                (prev, u)
            },
            _ => (prev, u),
        }
    }
}

/// Each touched partition has a sector size, and its byte size, last sector
/// and the running count of used sectors fit in 64 bits.
pub open spec fn disko_ready(l: Seq<DiskItemView>, used: nat) -> bool
    decreases l.len(),
{
    if l.len() == 0 {
        used <= u64::MAX
    } else {
        &&& disko_ready(l.drop_last(), used)
        &&& match l.last() {
            DiskItemView::Part(p) => touched(p.status) ==> {
                let u = disko_entries(l.drop_last(), used, 0, false).1;
                &&& p.sector_size > 0
                &&& p.size * p.sector_size <= u64::MAX
                &&& p.start + sat_sub(p.size as nat, 1) <= u64::MAX
                &&& counted(p.status) ==> u + p.size <= u64::MAX
            },
            _ => true,
        }
    }
}

proof fn lemma_disko_used_independent(l: Seq<DiskItemView>, used: nat, usable: nat, gpt: bool)
    ensures
        disko_entries(l, used, usable, gpt).1 == disko_entries(l, used, 0, false).1,
        disko_entries(l, used, usable, gpt).1 >= used,
    decreases l.len(),
{
    if l.len() > 0 {
        lemma_disko_used_independent(l.drop_last(), used, usable, gpt);
    }
}

proof fn lemma_disko_ready_prefix(l: Seq<DiskItemView>, used: nat, i: int)
    requires
        disko_ready(l, used),
        0 <= i <= l.len(),
    ensures
        disko_ready(l.take(i), used),
    decreases l.len() - i,
{
    if i < l.len() {
        lemma_disko_ready_prefix(l, used, i + 1);
        assert(l.take(i + 1).drop_last() =~= l.take(i));
    } else {
        assert(l.take(i) =~= l);
    }
}

/// Sectors of the disk that partitions may use: all but the GPT backup area
/// on a GPT or unlabelled disk.
pub open spec fn usable_sectors(d: DiskView) -> nat {
    match d.label {
        DiskLabel::Msdos => d.size as nat,
        _ => sat_sub(d.size as nat, 1 + ceil_div(16384, d.sector_size as nat)),
    }
}

fn opt_owned(o: Option<&str>) -> (r: Option<String>)
    ensures
        opt_view(r) == opt_str_view(o),
{
    match o {
        Some(s) => Some(owned(s)),
        None => None,
    }
}

impl Disk {
    /// Numbers the partitions, then describes every partition that is
    /// created, changed or deleted for disko; the count of used sectors is
    /// zero afterwards.
    pub fn as_disko_cfg(&mut self) -> (r: DiskoConfig)
        requires
            old(self).wf(),
            disko_ready(numbered(old(self)@).layout, old(self)@.total_used_sectors as nat),
        ensures
            same_build(old(self)@, final(self)@),
            final(self).wf(),
            final(self)@ == (DiskView { total_used_sectors: 0, ..numbered(old(self)@) }),
            r.device@ == "/dev/"@ + old(self)@.name,
            r.label@ == disk_label_name(old(self)@.label),
            disko_parts_view(r.partitions@) == disko_entries(
                numbered(old(self)@).layout,
                old(self)@.total_used_sectors as nat,
                usable_sectors(old(self)@),
                old(self)@.label == DiskLabel::Gpt,
            ).0,
    {
        self.assign_device_numbers();
        let gpt = match self.label {
            DiskLabel::Gpt => true,
            _ => false,
        };
        let tail = match self.label {
            DiskLabel::Gpt | DiskLabel::NoLabel => Self::default_gpt_tail_reserve(self.sector_size),
            DiskLabel::Msdos => 0,
        };
        let usable = if self.size >= tail {
            self.size - tail
        } else {
            0
        };
        let ghost l = self@.layout;
        let ghost used0 = self.total_used_sectors as nat;
        let mut used: u64 = self.total_used_sectors;
        let mut parts: Vec<DiskoPartition> = Vec::new();
        let mut i: usize = 0;
        while i < self.layout.len()
            invariant
                i <= self.layout@.len(),
                l == items_view(self.layout@),
                disko_ready(l, used0),
                disko_parts_view(parts@) == disko_entries(l.take(i as int), used0, usable as nat, gpt).0,
                used == disko_entries(l.take(i as int), used0, usable as nat, gpt).1,
            decreases self.layout@.len() - i,
        {
            proof {
                assert(l.take(i + 1).drop_last() =~= l.take(i as int));
                assert(l.take(i + 1).last() == l[i as int]);
                assert(l[i as int] == self.layout@[i as int]@);
                lemma_disko_ready_prefix(l, used0, i + 1);
                lemma_disko_used_independent(l.take(i as int), used0, usable as nat, gpt);
            }
            match &self.layout[i] {
                DiskItem::Partition(p) => {
                    let st = p.status();
                    let touched_now = match st {
                        PartStatus::Create | PartStatus::Modify | PartStatus::Delete => true,
                        _ => false,
                    };
                    if touched_now {
                        let action = match st {
                            PartStatus::Create => owned("create"),
                            PartStatus::Modify => owned("modify"),
                            PartStatus::Delete => owned("delete"),
                            PartStatus::Exists => owned("keep"),
                            PartStatus::Unknown => owned("unknown"),
                        };
                        let blockdevice = match p.name() {
                            Some(k) => {
                                let mut d = owned("/dev/");
                                d.append(k);
                                Some(d)
                            },
                            None => None,
                        };
                        let last = if p.size() > 0 {
                            p.start() + (p.size() - 1)
                        } else {
                            p.start()
                        };
                        let bytes = p.size_bytes(p.sector_size());
                        let size_str = bytes_disko_cfg(bytes, used, p.sector_size(), usable);
                        let is_esp = strings_contain(p.flags(), "esp");
                        let part_type = if gpt {
                            match p.fs_gpt_code(is_esp) {
                                Some(c) => owned(c),
                                None => owned("filesystem"),
                            }
                        } else {
                            owned("filesystem")
                        };
                        let entry = DiskoPartition {
                            action,
                            blockdevice,
                            start: u64_to_decimal(p.start()),
                            end: u64_to_decimal(last),
                            sectors: p.size(),
                            size: size_str,
                            part_type,
                            filesystem: opt_owned(p.disko_fs_type()),
                            mountpoint: opt_owned(p.mount_point()),
                            label: opt_owned(p.label()),
                            flags: clone_strings(p.flags()),
                        };
                        let ghost before = parts@;
                        parts.push(entry);
                        proof {
                            assert(disko_parts_view(parts@) =~= disko_parts_view(before).push(entry@));
                        }
                        match st {
                            PartStatus::Create | PartStatus::Modify => {
                                used = used + p.size();
                            },
                            _ => {},
                        }
                    }
                },
                DiskItem::FreeSpace { .. } => {},
            }
            i = i + 1;
        }
        assert(l.take(self.layout@.len() as int) =~= l);
        self.total_used_sectors = 0;
        let mut device = owned("/dev/");
        device.append(self.name.as_str());
        DiskoConfig { device, label: owned(self.label.as_str()), partitions: parts }
    }
}


// ---------------------------------------------------------------------------
// Identifiers and the partition builder
// ---------------------------------------------------------------------------

/// Hands out the identifier in `counter` and advances it (wrapping at the top).
/// The counter is the caller's, not one global to the process (the crate has
/// no `static` items): identifiers are unique among those drawn from one
/// counter, and each disk keeps its own.
pub fn get_entry_id(counter: &mut u64) -> (r: u64)
    ensures
        r == *old(counter),
        *final(counter) == bump(*old(counter)),
{
    let id = *counter;
    *counter = bump_id(id);
    id
}

impl Partition {
    /// Removes every flag that `flags` lists.
    pub fn remove_flags(&mut self, flags: &Vec<String>)
        ensures
            final(self)@ == (PartitionView {
                flags: old(self)@.flags.filter(|f: Seq<char>| !strings_view(flags@).contains(f)),
                ..old(self)@
            }),
    {
        let ghost before = old(self)@.flags;
        let ghost gone = strings_view(flags@);
        let mut kept: Vec<String> = Vec::new();
        let mut i: usize = 0;
        while i < self.flags.len()
            invariant
                i <= self.flags.len(),
                strings_view(self.flags@) == before,
                self@ == old(self)@,
                gone == strings_view(flags@),
                strings_view(kept@) == before.take(i as int).filter(|f: Seq<char>| !gone.contains(f)),
            decreases self.flags.len() - i,
        {
            proof {
                reveal(Seq::filter);
                assert(before.take(i + 1).drop_last() =~= before.take(i as int));
            }
            if !strings_contain(flags, self.flags[i].as_str()) {
                let ghost kv = strings_view(kept@);
                kept.push(self.flags[i].clone());
                assert(strings_view(kept@) =~= kv.push(before[i as int]));
            }
            i = i + 1;
        }
        assert(before.take(self.flags.len() as int) =~= before);
        self.flags = kept;
    }
}

/// Builds a partition field by field.
pub struct PartitionBuilder {
    start: Option<u64>,
    size: Option<u64>,
    sector_size: Option<u64>,
    status: PartStatus,
    name: Option<String>,
    fs_type: Option<String>,
    mount_point: Option<String>,
    label: Option<String>,
    ro: Option<bool>,
    flags: Vec<String>,
}

/// Abstract value of a partition builder: the fields given so far.
pub struct PartitionBuilderView {
    pub start: Option<u64>,
    pub size: Option<u64>,
    pub sector_size: Option<u64>,
    pub status: PartStatus,
    pub name: Option<Seq<char>>,
    pub fs_type: Option<Seq<char>>,
    pub mount_point: Option<Seq<char>>,
    pub label: Option<Seq<char>>,
    pub ro: Option<bool>,
    pub flags: Seq<Seq<char>>,
}

/// Why a partition builder did not build.
#[derive(Clone, Copy, Debug, PartialEq, Eq, Structural)]
pub enum BuildError {
    MissingStart,
    MissingSize,
    MissingMountPoint,
    ZeroSize,
}

impl BuildError {
    /// Text for the user.
    pub fn message(&self) -> (r: &'static str)
        ensures
            r@ == match *self {
                BuildError::MissingStart => "start is required"@,
                BuildError::MissingSize => "size is required"@,
                BuildError::MissingMountPoint => "mount_point is required"@,
                BuildError::ZeroSize => "size must be greater than zero"@,
            },
    {
        match self {
            BuildError::MissingStart => "start is required",
            BuildError::MissingSize => "size is required",
            BuildError::MissingMountPoint => "mount_point is required",
            BuildError::ZeroSize => "size must be greater than zero",
        }
    }
}

/// What `build` makes of the fields: the first missing required field or a
/// zero size refuses it; else the partition, 512-byte sectors and writable
/// unless said otherwise.
pub open spec fn build_spec(b: PartitionBuilderView, id: u64) -> Result<PartitionView, BuildError> {
    if b.start is None {
        Err(BuildError::MissingStart)
    } else if b.size is None {
        Err(BuildError::MissingSize)
    } else if b.mount_point is None {
        Err(BuildError::MissingMountPoint)
    } else if b.size->0 == 0 {
        Err(BuildError::ZeroSize)
    } else {
        Ok(
            PartitionView {
                id,
                start: b.start->0,
                size: b.size->0,
                sector_size: match b.sector_size {
                    Some(x) => x,
                    None => 512,
                },
                status: b.status,
                name: b.name,
                fs_type: b.fs_type,
                mount_point: b.mount_point,
                ro: match b.ro {
                    Some(x) => x,
                    None => false,
                },
                label: b.label,
                flags: b.flags,
            },
        )
    }
}

impl PartitionBuilder {
    pub closed spec fn view(&self) -> PartitionBuilderView {
        PartitionBuilderView {
            start: self.start,
            size: self.size,
            sector_size: self.sector_size,
            status: self.status,
            name: opt_view(self.name),
            fs_type: opt_view(self.fs_type),
            mount_point: opt_view(self.mount_point),
            label: opt_view(self.label),
            ro: self.ro,
            flags: strings_view(self.flags@),
        }
    }

    pub fn new() -> (r: Self)
        ensures
            r@ == (PartitionBuilderView {
                start: None,
                size: None,
                sector_size: None,
                status: PartStatus::Unknown,
                name: None,
                fs_type: None,
                mount_point: None,
                label: None,
                ro: None,
                flags: Seq::empty(),
            }),
    {
        let r = PartitionBuilder {
            start: None,
            size: None,
            sector_size: None,
            status: PartStatus::Unknown,
            name: None,
            fs_type: None,
            mount_point: None,
            label: None,
            ro: None,
            flags: Vec::new(),
        };
        assert(r@.flags =~= Seq::<Seq<char>>::empty());
        r
    }

    pub fn start(self, start: u64) -> (r: Self)
        ensures
            r@ == (PartitionBuilderView { start: Some(start), ..self@ }),
    {
        let mut b = self;
        b.start = Some(start);
        b
    }

    pub fn size(self, size: u64) -> (r: Self)
        ensures
            r@ == (PartitionBuilderView { size: Some(size), ..self@ }),
    {
        let mut b = self;
        b.size = Some(size);
        b
    }

    pub fn sector_size(self, sector_size: u64) -> (r: Self)
        ensures
            r@ == (PartitionBuilderView { sector_size: Some(sector_size), ..self@ }),
    {
        let mut b = self;
        b.sector_size = Some(sector_size);
        b
    }

    pub fn status(self, status: PartStatus) -> (r: Self)
        ensures
            r@ == (PartitionBuilderView { status, ..self@ }),
    {
        let mut b = self;
        b.status = status;
        b
    }

    pub fn fs_type(self, fs_type: String) -> (r: Self)
        ensures
            r@ == (PartitionBuilderView { fs_type: Some(fs_type@), ..self@ }),
    {
        let mut b = self;
        b.fs_type = Some(fs_type);
        b
    }

    pub fn mount_point(self, mount_point: String) -> (r: Self)
        ensures
            r@ == (PartitionBuilderView { mount_point: Some(mount_point@), ..self@ }),
    {
        let mut b = self;
        b.mount_point = Some(mount_point);
        b
    }

    pub fn read_only(self, ro: bool) -> (r: Self)
        ensures
            r@ == (PartitionBuilderView { ro: Some(ro), ..self@ }),
    {
        let mut b = self;
        b.ro = Some(ro);
        b
    }

    pub fn label(self, label: String) -> (r: Self)
        ensures
            r@ == (PartitionBuilderView { label: Some(label@), ..self@ }),
    {
        let mut b = self;
        b.label = Some(label);
        b
    }

    /// Adds a flag unless it is there already.
    pub fn add_flag(self, flag: String) -> (r: Self)
        ensures
            r@ == (PartitionBuilderView { flags: add_flag_spec(self@.flags, flag@), ..self@ }),
    {
        let mut b = self;
        if !strings_contain(&b.flags, flag.as_str()) {
            let ghost before = strings_view(b.flags@);
            b.flags.push(flag);
            assert(strings_view(b.flags@) =~= before.push(flag@));
        }
        b
    }

    /// The partition, with the next identifier from `counter`, once the
    /// required fields are there and the size is not zero.
    pub fn build(self, counter: &mut u64) -> (r: Result<Partition, BuildError>)
        ensures
            match build_spec(self@, *old(counter)) {
                Ok(p) => r matches Ok(q) && q@ == p && *final(counter) == bump(*old(counter)),
                Err(e) => r == Err::<Partition, BuildError>(e) && *final(counter) == *old(counter),
            },
    {
        let start = match self.start {
            Some(x) => x,
            None => {
                return Err(BuildError::MissingStart);
            },
        };
        let size = match self.size {
            Some(x) => x,
            None => {
                return Err(BuildError::MissingSize);
            },
        };
        let sector_size = match self.sector_size {
            Some(x) => x,
            None => 512,
        };
        let mount_point = match self.mount_point {
            Some(m) => m,
            None => {
                return Err(BuildError::MissingMountPoint);
            },
        };
        let ro = match self.ro {
            Some(x) => x,
            None => false,
        };
        if size == 0 {
            return Err(BuildError::ZeroSize);
        }
        let id = get_entry_id(counter);
        Ok(
            Partition::new(
                id,
                start,
                size,
                sector_size,
                self.status,
                self.name,
                self.fs_type,
                Some(mount_point),
                self.label,
                ro,
                self.flags,
            ),
        )
    }
}

} // verus!
